use trade_gate::decimal::{decimal_text, format_fixed, parse_fixed};
use trade_gate::market::parse_snapshot;
use trade_gate::signing::{cancel_params, canonical_query, order_params, sign_request, signed_params};
use trade_gate::types::{Level, OrderKind, OrderRequest, OrderSide};

fn pairs(items: &[(&str, &str)]) -> Vec<(String, String)> {
    items.iter().map(|(k, v)| (k.to_string(), v.to_string())).collect()
}

#[test]
fn fixed_point_formatting() {
    assert_eq!(format_fixed(150_000_000), "1.5");
    assert_eq!(format_fixed(100_000_000), "1");
    assert_eq!(format_fixed(2_000_000_000_000), "20000");
    assert_eq!(format_fixed(30_000_000), "0.3");
    assert_eq!(format_fixed(1), "0.00000001");
    assert_eq!(format_fixed(0), "0");
    assert_eq!(format_fixed(u64::MAX), "184467440737.09551615");
    assert_eq!(decimal_text(0), "0");
    assert_eq!(decimal_text(1499827319559), "1499827319559");
}

#[test]
fn fixed_point_parsing() {
    assert_eq!(parse_fixed("20000.00000000"), Some(2_000_000_000_000));
    assert_eq!(parse_fixed("0.3"), Some(30_000_000));
    assert_eq!(parse_fixed("1"), Some(100_000_000));
    assert_eq!(parse_fixed("1."), Some(100_000_000));
    assert_eq!(parse_fixed("0.00000001"), Some(1));
    assert_eq!(parse_fixed("184467440737.09551615"), Some(u64::MAX));
    assert_eq!(parse_fixed("184467440737.09551616"), None);
    assert_eq!(parse_fixed("99999999999999999999999"), None);
    assert_eq!(parse_fixed("1.123456789"), None);
    assert_eq!(parse_fixed(""), None);
    assert_eq!(parse_fixed(".5"), None);
    assert_eq!(parse_fixed("1.2.3"), None);
    assert_eq!(parse_fixed("-1"), None);
    assert_eq!(parse_fixed("abc"), None);
}

#[test]
fn snapshot_from_exchange_text() {
    let s = parse_snapshot("20000.00000000", &pairs(&[("20000.00", "2.0"), ("19999.5", "0.3")])).unwrap();
    assert_eq!(s.price, 2_000_000_000_000);
    assert_eq!(
        s.bids,
        vec![
            Level { price: 2_000_000_000_000, volume: 200_000_000 },
            Level { price: 1_999_950_000_000, volume: 30_000_000 },
        ]
    );
    assert!(parse_snapshot("20000", &pairs(&[("x", "1")])).is_none());
    assert!(parse_snapshot("", &pairs(&[])).is_none());
    assert_eq!(parse_snapshot("1", &pairs(&[])).unwrap().bids, vec![]);
}

#[test]
fn query_string_keeps_parameter_order() {
    assert_eq!(canonical_query(&pairs(&[])), "");
    assert_eq!(canonical_query(&pairs(&[("a", "1")])), "a=1");
    assert_eq!(canonical_query(&pairs(&[("symbol", "BTCUSDT"), ("limit", "10")])), "symbol=BTCUSDT&limit=10");
}

#[test]
fn signature_matches_known_hmac() {
    let params = pairs(&[
        ("symbol", "LTCBTC"),
        ("side", "BUY"),
        ("type", "LIMIT"),
        ("timeInForce", "GTC"),
        ("quantity", "1"),
        ("price", "0.1"),
        ("recvWindow", "5000"),
        ("timestamp", "1499827319559"),
    ]);
    let secret = "NhqPtmdSJYdKjVHjA7PZj4Mge3R5YNiP1e3UZjInClVN65XAbvqqM6A7H5fATj0j";
    let sig = sign_request(secret, &params);
    assert_eq!(sig, "c8db56825ae71d6d79447849e617115f4a920fa2acdcab2b053c4b2838bd6b71");
    let signed = signed_params(secret, &params);
    assert_eq!(signed.len(), params.len() + 1);
    assert_eq!(signed[..params.len()], params[..]);
    assert_eq!(signed.last().unwrap(), &("signature".to_string(), sig));
}

#[test]
fn signature_is_lower_hex_of_32_bytes() {
    let sig = sign_request("mock_secret_key", &pairs(&[("timestamp", "1")]));
    assert_eq!(sig.len(), 64);
    assert!(sig.chars().all(|c| c.is_ascii_digit() || ('a'..='f').contains(&c)));
    assert_ne!(sig, sign_request("other_secret", &pairs(&[("timestamp", "1")])));
}

#[test]
fn order_parameters() {
    let order = OrderRequest {
        symbol: "BTCUSDT".to_string(),
        side: OrderSide::Buy,
        kind: OrderKind::Limit,
        quantity: 100_000_000,
        price: 2_000_000_000_000,
    };
    assert_eq!(
        order_params(&order, 1499827319559),
        pairs(&[
            ("symbol", "BTCUSDT"),
            ("side", "BUY"),
            ("type", "LIMIT"),
            ("timeInForce", "GTC"),
            ("quantity", "1"),
            ("price", "20000"),
            ("timestamp", "1499827319559"),
        ])
    );
    assert_eq!(
        cancel_params("BTCUSDT", "42", 7),
        pairs(&[("symbol", "BTCUSDT"), ("orderId", "42"), ("timestamp", "7")])
    );
}

#[test]
fn whole_units_to_fixed_point() {
    assert_eq!(trade_gate::decimal::from_whole(20000), Some(2_000_000_000_000));
    assert_eq!(trade_gate::decimal::from_whole(0), Some(0));
    assert_eq!(trade_gate::decimal::from_whole(184467440737), Some(18_446_744_073_700_000_000));
    assert_eq!(trade_gate::decimal::from_whole(184467440738), None);
}

#[test]
fn formatted_amounts_parse_back() {
    for v in [0u64, 1, 10, 30_000_000, 100_000_000, 150_000_000, 2_000_000_000_000, 1_999_950_000_001, u64::MAX] {
        assert_eq!(parse_fixed(&format_fixed(v)), Some(v));
    }
}
