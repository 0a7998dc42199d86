use vstd::prelude::*;
use crate::decimal::{decimal_text, digits_of, fixed_text, format_fixed};
use crate::types::{OrderKind, OrderRequest, OrderSide};

verus! {

/// Longest key or message, in characters, that signing accepts: far below
/// the input limit of SHA-256.
pub const MAX_SIGNED_LEN: u64 = 0x0400_0000_0000_0000;

/// The HMAC-SHA256 tag of `message` under `key`, both taken as UTF-8 bytes.
pub uninterp spec fn hmac_sha256_of(key: Seq<char>, message: Seq<char>) -> Seq<u8>;

/// Relies on ring::hmac::sign with ring::hmac::HMAC_SHA256: a 32-byte tag
/// that depends on the key and message bytes alone.
#[verifier::external_body]
fn hmac_sha256(key: &str, message: &str) -> (r: Vec<u8>)
    requires
        key@.len() < MAX_SIGNED_LEN,
        message@.len() < MAX_SIGNED_LEN,
    ensures
        r@ == hmac_sha256_of(key@, message@),
        r@.len() == 32,
{
    let k = ring::hmac::Key::new(ring::hmac::HMAC_SHA256, key.as_bytes());
    ring::hmac::sign(&k, message.as_bytes()).as_ref().to_vec()
}

pub open spec fn hex_digit(n: nat) -> char {
    seq!['0', '1', '2', '3', '4', '5', '6', '7', '8', '9', 'a', 'b', 'c', 'd', 'e', 'f'][n as int]
}

/// Two lower-case hexadecimal digits per byte, high nibble first.
pub open spec fn hex_of(bytes: Seq<u8>) -> Seq<char>
    decreases bytes.len(),
{
    if bytes.len() == 0 {
        seq![]
    } else {
        hex_of(bytes.drop_last()) + seq![
            hex_digit(bytes.last() as nat / 16),
            hex_digit(bytes.last() as nat % 16),
        ]
    }
}

/// Relies on hex::encode: two lower-case digits per byte, high nibble first.
#[verifier::external_body]
fn hex_encode(bytes: &Vec<u8>) -> (r: String)
    ensures
        r@ == hex_of(bytes@),
{
    hex::encode(bytes)
}

pub open spec fn pair_text(p: (String, String)) -> Seq<char> {
    p.0@ + "="@ + p.1@
}

/// `k1=v1&k2=v2&...`, in the order given.
pub open spec fn query_of(params: Seq<(String, String)>) -> Seq<char>
    decreases params.len(),
{
    if params.len() == 0 {
        seq![]
    } else if params.len() == 1 {
        pair_text(params[0])
    } else {
        query_of(params.drop_last()) + "&"@ + pair_text(params.last())
    }
}

/// The canonical query string of a parameter list, in the order given.
pub fn canonical_query(params: &Vec<(String, String)>) -> (r: String)
    ensures
        r@ == query_of(params@),
{
    let mut out = String::new();
    let mut i: usize = 0;
    while i < params.len()
        invariant
            i <= params.len(),
            out@ == query_of(params@.take(i as int)),
        decreases params.len() - i,
    {
        assert(params@.take(i + 1).drop_last() =~= params@.take(i as int));
        if i > 0 {
            out.append("&");
        }
        out.append(params[i].0.as_str());
        out.append("=");
        out.append(params[i].1.as_str());
        proof {
            let t = params@.take(i + 1);
            if i == 0 {
                assert(out@ =~= pair_text(t[0]));
            } else {
                assert(out@ =~= query_of(t.drop_last()) + "&"@ + pair_text(t.last()));
            }
        }
        i += 1;
    }
    assert(params@.take(i as int) =~= params@);
    out
}

/// The request signature: hex of the HMAC-SHA256 of the canonical query
/// string, keyed by the secret.
pub fn sign_request(secret: &str, params: &Vec<(String, String)>) -> (r: String)
    requires
        secret@.len() < MAX_SIGNED_LEN,
        query_of(params@).len() < MAX_SIGNED_LEN,
    ensures
        r@ == hex_of(hmac_sha256_of(secret@, query_of(params@))),
{
    let query = canonical_query(params);
    let tag = hmac_sha256(secret, query.as_str());
    hex_encode(&tag)
}

/// The parameter list with its signature appended as `signature`.
pub fn signed_params(secret: &str, params: &Vec<(String, String)>) -> (r: Vec<(String, String)>)
    requires
        secret@.len() < MAX_SIGNED_LEN,
        query_of(params@).len() < MAX_SIGNED_LEN,
    ensures
        r@.len() == params@.len() + 1,
        forall|j: int| 0 <= j < params@.len() ==> r@[j] == params@[j],
        r@.last().0@ == "signature"@,
        r@.last().1@ == hex_of(hmac_sha256_of(secret@, query_of(params@))),
{
    let signature = sign_request(secret, params);
    let mut out: Vec<(String, String)> = Vec::new();
    let mut i: usize = 0;
    while i < params.len()
        invariant
            i <= params.len(),
            out@.len() == i,
            forall|j: int| 0 <= j < i ==> out@[j] == params@[j],
        decreases params.len() - i,
    {
        out.push((params[i].0.clone(), params[i].1.clone()));
        i += 1;
    }
    out.push((String::from_str("signature"), signature));
    out
}

pub open spec fn side_text(side: OrderSide) -> Seq<char> {
    match side {
        OrderSide::Buy => "BUY"@,
        OrderSide::Sell => "SELL"@,
    }
}

pub open spec fn kind_text(kind: OrderKind) -> Seq<char> {
    match kind {
        OrderKind::Limit => "LIMIT"@,
        OrderKind::Market => "MARKET"@,
    }
}

/// A parameter list seen as pairs of character sequences.
pub open spec fn pairs_view(params: Seq<(String, String)>) -> Seq<(Seq<char>, Seq<char>)> {
    params.map_values(|p: (String, String)| (p.0@, p.1@))
}

/// The unsigned parameters of an order submission, good till cancelled.
pub open spec fn order_params_of(order: OrderRequest, timestamp_ms: u64) -> Seq<(Seq<char>, Seq<char>)> {
    seq![
        ("symbol"@, order.symbol@),
        ("side"@, side_text(order.side)),
        ("type"@, kind_text(order.kind)),
        ("timeInForce"@, "GTC"@),
        ("quantity"@, fixed_text(order.quantity as nat)),
        ("price"@, fixed_text(order.price as nat)),
        ("timestamp"@, digits_of(timestamp_ms as nat)),
    ]
}

/// The unsigned parameters of an order cancellation.
pub open spec fn cancel_params_of(symbol: Seq<char>, order_id: Seq<char>, timestamp_ms: u64) -> Seq<
    (Seq<char>, Seq<char>),
> {
    seq![("symbol"@, symbol), ("orderId"@, order_id), ("timestamp"@, digits_of(timestamp_ms as nat))]
}

impl OrderSide {
    pub fn as_text(&self) -> (r: String)
        ensures
            r@ == side_text(*self),
    {
        match self {
            OrderSide::Buy => String::from_str("BUY"),
            OrderSide::Sell => String::from_str("SELL"),
        }
    }
}

impl OrderKind {
    pub fn as_text(&self) -> (r: String)
        ensures
            r@ == kind_text(*self),
    {
        match self {
            OrderKind::Limit => String::from_str("LIMIT"),
            OrderKind::Market => String::from_str("MARKET"),
        }
    }
}

/// The parameters of an order submission, before signing.
pub fn order_params(order: &OrderRequest, timestamp_ms: u64) -> (r: Vec<(String, String)>)
    ensures
        pairs_view(r@) == order_params_of(*order, timestamp_ms),
{
    let mut r: Vec<(String, String)> = Vec::new();
    r.push((String::from_str("symbol"), order.symbol.clone()));
    r.push((String::from_str("side"), order.side.as_text()));
    r.push((String::from_str("type"), order.kind.as_text()));
    r.push((String::from_str("timeInForce"), String::from_str("GTC")));
    r.push((String::from_str("quantity"), format_fixed(order.quantity)));
    r.push((String::from_str("price"), format_fixed(order.price)));
    r.push((String::from_str("timestamp"), decimal_text(timestamp_ms)));
    assert(pairs_view(r@) =~= order_params_of(*order, timestamp_ms));
    r
}

/// The parameters of an order cancellation, before signing.
pub fn cancel_params(symbol: &str, order_id: &str, timestamp_ms: u64) -> (r: Vec<(String, String)>)
    ensures
        pairs_view(r@) == cancel_params_of(symbol@, order_id@, timestamp_ms),
{
    let mut r: Vec<(String, String)> = Vec::new();
    r.push((String::from_str("symbol"), String::from_str(symbol)));
    r.push((String::from_str("orderId"), String::from_str(order_id)));
    r.push((String::from_str("timestamp"), decimal_text(timestamp_ms)));
    assert(pairs_view(r@) =~= cancel_params_of(symbol@, order_id@, timestamp_ms));
    r
}

} // verus!
