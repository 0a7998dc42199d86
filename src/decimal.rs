use vstd::prelude::*;
use vstd::arithmetic::div_mod::{lemma_breakdown, lemma_fundamental_div_mod, lemma_small_mod};

verus! {

/// `10^8`: the number of fixed-point units in one whole unit.
pub const UNIT: u64 = 100_000_000;

pub open spec fn digit_char(d: nat) -> char {
    seq!['0', '1', '2', '3', '4', '5', '6', '7', '8', '9'][d as int]
}

/// The decimal digits of `n`, without leading zeros.
pub open spec fn digits_of(n: nat) -> Seq<char>
    decreases n,
{
    if n < 10 {
        seq![digit_char(n)]
    } else {
        digits_of(n / 10).push(digit_char(n % 10))
    }
}

/// The last `width` decimal digits of `n`, zero-padded.
pub open spec fn padded_digits(n: nat, width: nat) -> Seq<char>
    decreases width,
{
    if width == 0 {
        seq![]
    } else {
        padded_digits(n / 10, (width - 1) as nat).push(digit_char(n % 10))
    }
}

/// The fractional part `f` of `width` digits, trailing zeros dropped, with its
/// leading point; empty when the fraction is zero.
pub open spec fn fraction_text(f: nat, width: nat) -> Seq<char>
    decreases width,
{
    if width == 0 {
        seq![]
    } else if f % 10 == 0 {
        fraction_text(f / 10, (width - 1) as nat)
    } else {
        seq!['.'] + padded_digits(f, width)
    }
}

/// A fixed-point amount as the exchange expects it: `150000000` is `1.5`.
pub open spec fn fixed_text(v: nat) -> Seq<char> {
    digits_of(v / UNIT as nat) + fraction_text(v % UNIT as nat, 8)
}

fn digit_str(d: u64) -> (r: &'static str)
    requires
        d < 10,
    ensures
        r@ == seq![digit_char(d as nat)],
{
    if d == 0 {
        proof { reveal_strlit("0"); }
        "0"
    } else if d == 1 {
        proof { reveal_strlit("1"); }
        "1"
    } else if d == 2 {
        proof { reveal_strlit("2"); }
        "2"
    } else if d == 3 {
        proof { reveal_strlit("3"); }
        "3"
    } else if d == 4 {
        proof { reveal_strlit("4"); }
        "4"
    } else if d == 5 {
        proof { reveal_strlit("5"); }
        "5"
    } else if d == 6 {
        proof { reveal_strlit("6"); }
        "6"
    } else if d == 7 {
        proof { reveal_strlit("7"); }
        "7"
    } else if d == 8 {
        proof { reveal_strlit("8"); }
        "8"
    } else {
        proof { reveal_strlit("9"); }
        "9"
    }
}

fn push_digits(out: &mut String, n: u64)
    ensures
        final(out)@ == old(out)@ + digits_of(n as nat),
    decreases n,
{
    if n >= 10 {
        push_digits(out, n / 10);
    }
    out.append(digit_str(n % 10));
    proof {
        assert(old(out)@ + digits_of(n as nat) =~= final(out)@);
    }
}

fn push_padded(out: &mut String, n: u64, width: u64)
    ensures
        final(out)@ == old(out)@ + padded_digits(n as nat, width as nat),
    decreases width,
{
    if width > 0 {
        push_padded(out, n / 10, width - 1);
        out.append(digit_str(n % 10));
        proof {
            assert(old(out)@ + padded_digits(n as nat, width as nat) =~= final(out)@);
        }
    } else {
        proof {
            assert(old(out)@ + padded_digits(n as nat, width as nat) =~= old(out)@);
        }
    }
}

fn push_fraction(out: &mut String, f: u64, width: u64)
    ensures
        final(out)@ == old(out)@ + fraction_text(f as nat, width as nat),
    decreases width,
{
    if width == 0 {
        assert(old(out)@ + fraction_text(f as nat, width as nat) =~= old(out)@);
    } else if f % 10 == 0 {
        push_fraction(out, f / 10, width - 1);
    } else {
        proof { reveal_strlit("."); }
        out.append(".");
        push_padded(out, f, width);
        assert(old(out)@ + fraction_text(f as nat, width as nat) =~= final(out)@);
    }
}

/// A count of whole units in fixed-point units, where it fits in a `u64`.
pub fn from_whole(n: u64) -> (r: Option<u64>)
    ensures
        r == (if n * UNIT <= u64::MAX {
            Some((n * UNIT) as u64)
        } else {
            None
        }),
{
    if n <= u64::MAX / UNIT {
        Some(n * UNIT)
    } else {
        None
    }
}

/// The decimal text of an integer.
pub fn decimal_text(n: u64) -> (r: String)
    ensures
        r@ == digits_of(n as nat),
{
    let mut out = String::new();
    push_digits(&mut out, n);
    out
}

/// The decimal text of a fixed-point amount, trailing fractional zeros dropped.
pub fn format_fixed(v: u64) -> (r: String)
    ensures
        r@ == fixed_text(v as nat),
{
    let mut out = String::new();
    push_digits(&mut out, v / UNIT);
    push_fraction(&mut out, v % UNIT, 8);
    out
}

pub open spec fn is_digit(c: char) -> bool {
    '0' <= c && c <= '9'
}

pub open spec fn all_digits(s: Seq<char>) -> bool {
    forall|i: int| 0 <= i < s.len() ==> is_digit(#[trigger] s[i])
}

pub open spec fn digit_value(c: char) -> nat {
    if is_digit(c) {
        (c as u32 - '0' as u32) as nat
    } else {
        0
    }
}

/// The number that a string of decimal digits denotes.
pub open spec fn digits_value(s: Seq<char>) -> nat
    decreases s.len(),
{
    if s.len() == 0 {
        0
    } else {
        digits_value(s.drop_last()) * 10 + digit_value(s.last())
    }
}

pub open spec fn pow10(e: nat) -> nat
    decreases e,
{
    if e == 0 {
        1
    } else {
        10 * pow10((e - 1) as nat)
    }
}

/// Index of the first decimal point, or the length when there is none.
pub open spec fn point_index(s: Seq<char>) -> int
    decreases s.len(),
{
    if s.len() == 0 || s[0] == '.' {
        0
    } else {
        1 + point_index(s.skip(1))
    }
}

/// The fixed-point value of a decimal text: one or more digits, then
/// optionally a point and at most eight digits. `None` for any other text.
pub open spec fn fixed_value(s: Seq<char>) -> Option<nat> {
    let k = point_index(s);
    let whole = s.take(k);
    let frac = if k < s.len() {
        s.skip(k + 1)
    } else {
        seq![]
    };
    if whole.len() > 0 && all_digits(whole) && all_digits(frac) && frac.len() <= 8 {
        Some(digits_value(whole) * UNIT as nat + digits_value(frac) * pow10((8 - frac.len()) as nat))
    } else {
        None
    }
}

/// `fixed_value`, where the value fits in a `u64`.
pub open spec fn fixed_u64(s: Seq<char>) -> Option<u64> {
    match fixed_value(s) {
        Some(v) => if v <= u64::MAX {
            Some(v as u64)
        } else {
            None
        },
        None => None,
    }
}

proof fn lemma_point_index(s: Seq<char>, i: int)
    requires
        0 <= i <= s.len(),
        forall|j: int| 0 <= j < i ==> s[j] != '.',
        i == s.len() || s[i] == '.',
    ensures
        point_index(s) == i,
    decreases i,
{
    if i > 0 {
        assert(s[0] != '.');
        lemma_point_index(s.skip(1), i - 1);
    }
}

proof fn lemma_pow10_positive(e: nat)
    ensures
        pow10(e) >= 1,
    decreases e,
{
    if e > 0 {
        lemma_pow10_positive((e - 1) as nat);
    }
}

proof fn lemma_digits_value_monotone(s: Seq<char>, a: int)
    requires
        0 <= a <= s.len(),
    ensures
        digits_value(s.take(a)) <= digits_value(s),
    decreases s.len(),
{
    if a < s.len() {
        assert(s.take(a) =~= s.drop_last().take(a));
        lemma_digits_value_monotone(s.drop_last(), a);
    } else {
        assert(s.take(a) =~= s);
    }
}

/// The value of the digits of `s` in `[from, to)`, if they are all digits
/// and the value fits in a `u64`.
fn parse_digits(s: &str, from: usize, to: usize) -> (r: Option<u64>)
    requires
        from <= to <= s@.len(),
    ensures
        r == (if all_digits(s@.subrange(from as int, to as int)) && digits_value(
            s@.subrange(from as int, to as int),
        ) <= u64::MAX {
            Some(digits_value(s@.subrange(from as int, to as int)) as u64)
        } else {
            None
        }),
{
    let ghost t = s@.subrange(from as int, to as int);
    let mut acc: u64 = 0;
    let mut i: usize = from;
    while i < to
        invariant
            from <= i <= to <= s@.len(),
            t == s@.subrange(from as int, to as int),
            all_digits(t.take(i - from)),
            acc == digits_value(t.take(i - from)),
        decreases to - i,
    {
        let c = s.get_char(i);
        assert(t[i - from] == c);
        assert(t.take(i - from + 1).drop_last() =~= t.take(i - from));
        if !('0' <= c && c <= '9') {
            return None;
        }
        let d: u64 = (c as u32 - '0' as u32) as u64;
        if acc > (u64::MAX - d) / 10 {
            proof {
                lemma_digits_value_monotone(t, i - from + 1);
            }
            return None;
        }
        acc = acc * 10 + d;
        i += 1;
        assert(all_digits(t.take(i - from)));
    }
    assert(t.take(i - from) =~= t);
    Some(acc)
}

fn scale_for(digits: usize) -> (r: u64)
    requires
        digits <= 8,
    ensures
        r == pow10((8 - digits) as nat),
        1 <= r <= UNIT,
{
    proof {
        reveal_with_fuel(pow10, 9);
    }
    if digits == 8 {
        1
    } else if digits == 7 {
        10
    } else if digits == 6 {
        100
    } else if digits == 5 {
        1000
    } else if digits == 4 {
        10000
    } else if digits == 3 {
        100000
    } else if digits == 2 {
        1000000
    } else if digits == 1 {
        10000000
    } else {
        100000000
    }
}

/// Reads a decimal text such as `20000.00000000` into fixed-point units.
pub fn parse_fixed(s: &str) -> (r: Option<u64>)
    ensures
        r == fixed_u64(s@),
{
    let n = s.unicode_len();
    let mut k: usize = 0;
    while k < n && s.get_char(k) != '.'
        invariant
            k <= n,
            n == s@.len(),
            forall|j: int| 0 <= j < k ==> s@[j] != '.',
        decreases n - k,
    {
        k += 1;
    }
    proof {
        lemma_point_index(s@, k as int);
        assert(s@.take(k as int) =~= s@.subrange(0, k as int));
        if k < n {
            assert(s@.skip(k + 1) =~= s@.subrange(k + 1, n as int));
        } else {
            assert(s@.subrange(n as int, n as int) =~= Seq::<char>::empty());
        }
    }
    if k == 0 {
        return None;
    }
    let frac_from: usize = if k < n {
        k + 1
    } else {
        n
    };
    if n - frac_from > 8 {
        return None;
    }
    let whole = parse_digits(s, 0, k);
    let frac = parse_digits(s, frac_from, n);
    match (whole, frac) {
        (Some(w), Some(f)) => {
            let scale = scale_for(n - frac_from);
            assert(f as u128 * scale as u128 <= 0xffff_ffff_ffff_ffff * 100_000_000)
                by (nonlinear_arith)
                requires
                    f <= 0xffff_ffff_ffff_ffff,
                    scale <= 100_000_000,
            ;
            let total: u128 = w as u128 * UNIT as u128 + f as u128 * scale as u128;
            if total <= u64::MAX as u128 {
                Some(total as u64)
            } else {
                None
            }
        },
        _ => {
            proof {
                if fixed_value(s@) is Some {
                    let v = fixed_value(s@)->0;
                    let wv = digits_value(s@.take(k as int));
                    let fv = digits_value(s@.subrange(frac_from as int, n as int));
                    lemma_pow10_positive((8 - (n - frac_from)) as nat);
                    assert(v >= wv);
                    assert(v >= fv) by (nonlinear_arith)
                        requires
                            v == wv * 100_000_000 + fv * pow10((8 - (n - frac_from)) as nat),
                            pow10((8 - (n - frac_from)) as nat) >= 1,
                    ;
                }
            }
            None
        },
    }
}

proof fn lemma_digit_char(d: nat)
    requires
        d < 10,
    ensures
        is_digit(digit_char(d)),
        digit_value(digit_char(d)) == d,
        digit_char(d) != '.',
{
}

proof fn lemma_digits_value_push(s: Seq<char>, c: char)
    ensures
        digits_value(s.push(c)) == digits_value(s) * 10 + digit_value(c),
{
    assert(s.push(c).drop_last() =~= s);
}

proof fn lemma_digits_of(n: nat)
    ensures
        digits_of(n).len() > 0,
        all_digits(digits_of(n)),
        digits_value(digits_of(n)) == n,
    decreases n,
{
    lemma_digit_char(n % 10);
    if n < 10 {
        assert(digits_value(seq![digit_char(n)]) == digits_value(seq![digit_char(n)].drop_last()) * 10
            + digit_value(digit_char(n)));
        assert(seq![digit_char(n)].drop_last() =~= Seq::<char>::empty());
    } else {
        lemma_digits_of(n / 10);
        lemma_digits_value_push(digits_of(n / 10), digit_char(n % 10));
        lemma_fundamental_div_mod(n as int, 10);
    }
}

proof fn lemma_padded_digits(n: nat, width: nat)
    ensures
        padded_digits(n, width).len() == width,
        all_digits(padded_digits(n, width)),
        digits_value(padded_digits(n, width)) == n % pow10(width),
    decreases width,
{
    lemma_pow10_positive(width);
    if width > 0 {
        let w1 = (width - 1) as nat;
        lemma_padded_digits(n / 10, w1);
        lemma_digit_char(n % 10);
        lemma_digits_value_push(padded_digits(n / 10, w1), digit_char(n % 10));
        lemma_pow10_positive(w1);
        lemma_breakdown(n as int, 10, pow10(w1) as int);
    }
}

/// `fraction_text` of a fraction below `10^width` is empty for zero, and else
/// a point and digits that, scaled back to `width` places, give the fraction.
proof fn lemma_fraction_text(f: nat, width: nat)
    requires
        f < pow10(width),
    ensures
        ({
            let t = fraction_text(f, width);
            &&& t.len() == 0 ==> f == 0
            &&& t.len() > 0 ==> {
                &&& t[0] == '.'
                &&& t.len() - 1 <= width
                &&& all_digits(t.skip(1))
                &&& digits_value(t.skip(1)) * pow10((width - (t.len() - 1)) as nat) == f
            }
        }),
    decreases width,
{
    let t = fraction_text(f, width);
    if width > 0 {
        let w1 = (width - 1) as nat;
        if f % 10 == 0 {
            lemma_fundamental_div_mod(f as int, 10);
            assert(f / 10 < pow10(w1)) by (nonlinear_arith)
                requires
                    f < 10 * pow10(w1),
                    f == 10 * (f / 10) + f % 10,
            ;
            assert(t == fraction_text(f / 10, w1));
            lemma_fraction_text(f / 10, w1);
            if t.len() > 0 {
                let k = (w1 - (t.len() - 1)) as nat;
                let dv = digits_value(t.skip(1));
                assert((width - (t.len() - 1)) as nat == k + 1);
                assert(pow10(k + 1) == 10 * pow10(k));
                assert(dv * pow10(k + 1) == f) by (nonlinear_arith)
                    requires
                        dv * pow10(k) == f / 10,
                        pow10(k + 1) == 10 * pow10(k),
                        f == 10 * (f / 10) + f % 10,
                        f % 10 == 0,
                ;
            }
        } else {
            lemma_padded_digits(f, width);
            lemma_small_mod(f, pow10(width));
            assert(t == seq!['.'] + padded_digits(f, width));
            assert(t.skip(1) =~= padded_digits(f, width));
            assert((width - (t.len() - 1)) as nat == 0);
            assert(pow10(0) == 1);
            assert(digits_value(t.skip(1)) * pow10(0) == f);
        }
    }
}

/// Reading back the text of a fixed-point amount gives the amount.
pub proof fn lemma_parse_format_round_trip(v: u64)
    ensures
        fixed_u64(fixed_text(v as nat)) == Some(v),
{
    let q = v as nat / UNIT as nat;
    let f = v as nat % UNIT as nat;
    let d = digits_of(q);
    let t = fraction_text(f, 8);
    let s = fixed_text(v as nat);
    assert(pow10(8) == UNIT) by {
        reveal_with_fuel(pow10, 9);
    }
    lemma_digits_of(q);
    lemma_fraction_text(f, 8);
    lemma_fundamental_div_mod(v as int, UNIT as int);
    assert(s == d + t);
    assert forall|j: int| 0 <= j < d.len() implies s[j] != '.' by {
        assert(s[j] == d[j]);
        assert(is_digit(d[j]));
    }
    if t.len() > 0 {
        assert(s[d.len() as int] == t[0]);
    }
    lemma_point_index(s, d.len() as int);
    assert(s.take(d.len() as int) =~= d);
    if t.len() > 0 {
        assert(s.skip(d.len() as int + 1) =~= t.skip(1));
    } else {
        assert(digits_value(Seq::<char>::empty()) == 0);
        assert(all_digits(Seq::<char>::empty()));
    }
}

} // verus!
