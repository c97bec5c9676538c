//! Decimal rendering of integers.

use vstd::prelude::*;

verus! {

/// The decimal digit for `d < 10`.
pub open spec fn digit_char(d: nat) -> char {
    if d == 0 { '0' }
    else if d == 1 { '1' }
    else if d == 2 { '2' }
    else if d == 3 { '3' }
    else if d == 4 { '4' }
    else if d == 5 { '5' }
    else if d == 6 { '6' }
    else if d == 7 { '7' }
    else if d == 8 { '8' }
    else { '9' }
}

/// The decimal numeral of `n`, without leading zeros.
pub open spec fn nat_decimal(n: nat) -> Seq<char>
    decreases n,
{
    if n < 10 {
        seq![digit_char(n)]
    } else {
        nat_decimal(n / 10).push(digit_char(n % 10))
    }
}

/// The decimal numeral of `i`, with a leading `-` when it is negative.
pub open spec fn int_decimal(i: int) -> Seq<char> {
    if i < 0 {
        seq!['-'] + nat_decimal((-i) as nat)
    } else {
        nat_decimal(i as nat)
    }
}

fn digit_str(d: u128) -> (s: &'static str)
    requires
        d < 10,
    ensures
        s@ == seq![digit_char(d as nat)],
{
    proof {
        reveal_strlit("0");
        reveal_strlit("1");
        reveal_strlit("2");
        reveal_strlit("3");
        reveal_strlit("4");
        reveal_strlit("5");
        reveal_strlit("6");
        reveal_strlit("7");
        reveal_strlit("8");
        reveal_strlit("9");
    }
    if d == 0 { "0" }
    else if d == 1 { "1" }
    else if d == 2 { "2" }
    else if d == 3 { "3" }
    else if d == 4 { "4" }
    else if d == 5 { "5" }
    else if d == 6 { "6" }
    else if d == 7 { "7" }
    else if d == 8 { "8" }
    else { "9" }
}

/// The decimal numeral of `n`.
pub fn u128_decimal(n: u128) -> (s: String)
    ensures
        s@ == nat_decimal(n as nat),
    decreases n,
{
    if n < 10 {
        String::from_str(digit_str(n))
    } else {
        let mut s = u128_decimal(n / 10);
        s.append(digit_str(n % 10));
        s
    }
}

/// The decimal numeral of `n`.
pub fn u64_decimal(n: u64) -> (s: String)
    ensures
        s@ == nat_decimal(n as nat),
{
    u128_decimal(n as u128)
}

/// The decimal numeral of `i`, with a leading `-` when it is negative.
pub fn i128_decimal(i: i128) -> (s: String)
    ensures
        s@ == int_decimal(i as int),
{
    if i < 0 {
        let magnitude: u128 = if i == i128::MIN {
            170141183460469231731687303715884105728u128
        } else {
            (0 - i) as u128
        };
        let digits = u128_decimal(magnitude);
        let mut s = String::from_str("-");
        proof { reveal_strlit("-"); }
        s.append(digits.as_str());
        s
    } else {
        u128_decimal(i as u128)
    }
}

/// The decimal numeral of `i`, with a leading `-` when it is negative.
pub fn i64_decimal(i: i64) -> (s: String)
    ensures
        s@ == int_decimal(i as int),
{
    i128_decimal(i as i128)
}

/// `a` followed by `b`.
pub fn concat(a: String, b: &str) -> (r: String)
    ensures
        r@ == a@ + b@,
{
    let mut r = a;
    r.append(b);
    r
}

} // verus!
