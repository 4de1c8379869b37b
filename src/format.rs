use vstd::prelude::*;

verus! {

/// Number of wei in one ether.
pub const WEI_PER_ETH: u128 = 1_000_000_000_000_000_000;

/// Number of fractional digits in an ether amount.
pub const ETH_DECIMALS: usize = 18;

/// The ASCII character of a decimal digit `d < 10`.
pub open spec fn digit_char(d: nat) -> char {
    if d == 0 { '0' }
    else if d == 1 { '1' }
    else if d == 2 { '2' }
    else if d == 3 { '3' }
    else if d == 4 { '4' }
    else if d == 5 { '5' }
    else if d == 6 { '6' }
    else if d == 7 { '7' }
    else if d == 8 { '8' }
    else { '9' }
}

/// The shortest decimal representation of `n` (no sign, no leading zeros).
pub open spec fn decimal_digits(n: nat) -> Seq<char>
    decreases n,
{
    if n < 10 {
        seq![digit_char(n)]
    } else {
        decimal_digits(n / 10).push(digit_char(n % 10))
    }
}

/// The last `k` decimal digits of `n`, zero-padded on the left to exactly `k` characters.
pub open spec fn fixed_digits(n: nat, k: nat) -> Seq<char>
    decreases k,
{
    if k == 0 {
        Seq::empty()
    } else {
        fixed_digits(n / 10, (k - 1) as nat).push(digit_char(n % 10))
    }
}

/// An amount of wei written in ether: the integer part, a point, and exactly
/// eighteen fractional digits.
pub open spec fn ether_text(wei: nat) -> Seq<char> {
    decimal_digits(wei / WEI_PER_ETH as nat) + seq!['.'] + fixed_digits(
        wei % WEI_PER_ETH as nat,
        ETH_DECIMALS as nat,
    )
}

fn digit_str(d: u128) -> (r: &'static str)
    requires
        d < 10,
    ensures
        r@ == seq![digit_char(d as nat)],
{
    proof {
        reveal_strlit("0");
        reveal_strlit("1");
        reveal_strlit("2");
        reveal_strlit("3");
        reveal_strlit("4");
        reveal_strlit("5");
        reveal_strlit("6");
        reveal_strlit("7");
        reveal_strlit("8");
        reveal_strlit("9");
    }
    if d == 0 {
        "0"
    } else if d == 1 {
        "1"
    } else if d == 2 {
        "2"
    } else if d == 3 {
        "3"
    } else if d == 4 {
        "4"
    } else if d == 5 {
        "5"
    } else if d == 6 {
        "6"
    } else if d == 7 {
        "7"
    } else if d == 8 {
        "8"
    } else {
        "9"
    }
}

/// Writes `n` in decimal.
pub fn decimal_text(n: u128) -> (r: String)
    ensures
        r@ == decimal_digits(n as nat),
    decreases n,
{
    if n < 10 {
        String::from_str(digit_str(n))
    } else {
        let head = decimal_text(n / 10);
        head.concat(digit_str(n % 10))
    }
}

fn fixed_text(n: u128, k: usize) -> (r: String)
    ensures
        r@ == fixed_digits(n as nat, k as nat),
    decreases k,
{
    if k == 0 {
        String::new()
    } else {
        let head = fixed_text(n / 10, k - 1);
        head.concat(digit_str(n % 10))
    }
}

/// Writes an amount of wei in ether, in fixed-point notation with exactly
/// eighteen fractional digits, whatever its magnitude.
pub fn format_ether(wei: u128) -> (r: String)
    ensures
        r@ == ether_text(wei as nat),
{
    proof {
        reveal_strlit(".");
    }
    let whole = decimal_text(wei / WEI_PER_ETH);
    let with_point = whole.concat(".");
    with_point.concat(fixed_text(wei % WEI_PER_ETH, ETH_DECIMALS).as_str())
}

} // verus!
