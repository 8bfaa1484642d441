use vstd::prelude::*;

verus! {

/// The character of a decimal digit.
pub open spec fn digit_char(d: nat) -> char {
    if d == 0 { '0' }
    else if d == 1 { '1' }
    else if d == 2 { '2' }
    else if d == 3 { '3' }
    else if d == 4 { '4' }
    else if d == 5 { '5' }
    else if d == 6 { '6' }
    else if d == 7 { '7' }
    else if d == 8 { '8' }
    else { '9' }
}

/// Decimal digits of `n`, most significant first, without leading zeros.
pub open spec fn digits(n: nat) -> Seq<char>
    decreases n,
{
    if n < 10 {
        seq![digit_char(n)]
    } else {
        digits(n / 10) + seq![digit_char(n % 10)]
    }
}

/// `n` in two digits, with a leading zero below ten.
pub open spec fn two_digits(n: nat) -> Seq<char> {
    seq![digit_char((n / 10) % 10), digit_char(n % 10)]
}

/// `n` in decimal, with a leading `-` when negative.
pub open spec fn decimal(n: int) -> Seq<char> {
    if n < 0 {
        seq!['-'] + digits((-n) as nat)
    } else {
        digits(n as nat)
    }
}

/// A number of tenths written with one decimal place, with a leading `-`
/// when negative: 210 is "21.0", -5 is "-0.5".
pub open spec fn tenths_text(t: int) -> Seq<char> {
    let m: nat = if t < 0 { (-t) as nat } else { t as nat };
    let sign: Seq<char> = if t < 0 { seq!['-'] } else { seq![] };
    sign + digits(m / 10) + seq!['.', digit_char(m % 10)]
}

/// Relies on `u64`'s `to_string` (its `Display`): plain decimal digits
/// without sign or leading zeros.
#[verifier::external_body]
fn decimal_text(n: u64) -> (r: String)
    ensures
        r@ == digits(n as nat),
{
    n.to_string()
}

/// `n` in decimal, with a leading `-` when negative.
pub fn signed_text(n: i64) -> (r: String)
    ensures
        r@ == decimal(n as int),
{
    let m: u64 = if n < 0 {
        ((-(n + 1)) as u64) + 1
    } else {
        n as u64
    };
    let d = decimal_text(m);
    if n < 0 {
        let mut r = "-".to_owned();
        proof {
            reveal_strlit("-");
        }
        r.append(d.as_str());
        r
    } else {
        d
    }
}

/// `n` (below 100) in two digits.
pub fn two_digit_text(n: u32) -> (r: String)
    requires
        n < 100,
    ensures
        r@ == two_digits(n as nat),
{
    let d = decimal_text(n as u64);
    if n < 10 {
        let mut r = "0".to_owned();
        proof {
            reveal_strlit("0");
        }
        r.append(d.as_str());
        assert(digits(n as nat) == seq![digit_char(n as nat)]);
        assert((n as nat) / 10 == 0);
        assert(r@ =~= two_digits(n as nat));
        r
    } else {
        assert(digits(n as nat) == digits((n as nat) / 10) + seq![digit_char((n as nat) % 10)]);
        assert((n as nat) / 10 < 10);
        assert(digits((n as nat) / 10) == seq![digit_char((n as nat) / 10)]);
        assert(((n as nat) / 10) % 10 == (n as nat) / 10);
        assert(d@ =~= two_digits(n as nat));
        d
    }
}

/// A number of tenths with one decimal place.
pub fn tenths_string(t: i64) -> (r: String)
    ensures
        r@ == tenths_text(t as int),
{
    let m: u64 = if t < 0 {
        ((-(t + 1)) as u64) + 1
    } else {
        t as u64
    };
    let whole = decimal_text(m / 10);
    let frac = decimal_text(m % 10);
    assert(digits((m % 10) as nat) == seq![digit_char((m % 10) as nat)]);
    let mut r = if t < 0 {
        "-".to_owned()
    } else {
        "".to_owned()
    };
    proof {
        reveal_strlit("-");
        reveal_strlit("");
        reveal_strlit(".");
    }
    r.append(whole.as_str());
    r.append(".");
    r.append(frac.as_str());
    assert(r@ =~= tenths_text(t as int));
    r
}

} // verus!
