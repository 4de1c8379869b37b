use vstd::prelude::*;
use vstd::arithmetic::power2::pow2;
use crate::error::{Error, ErrorKind, Result};

verus! {

pub open spec fn is_decimal_digit(c: char) -> bool {
    '0' <= c && c <= '9'
}

pub open spec fn digit_value(c: char) -> nat {
    (c as u32 - '0' as u32) as nat
}

pub open spec fn all_decimal_digits(s: Seq<char>) -> bool {
    forall|i: int| 0 <= i < s.len() ==> #[trigger] is_decimal_digit(s[i])
}

/// The value of a string of decimal digits, most significant first.
pub open spec fn decimal_value(s: Seq<char>) -> nat
    decreases s.len(),
{
    if s.len() == 0 {
        0
    } else {
        decimal_value(s.drop_last()) * 10 + digit_value(s.last())
    }
}

/// What remains of an unsigned integer literal once its optional `+` sign is removed.
pub open spec fn unsigned_digits(s: Seq<char>) -> Seq<char> {
    if s.len() > 0 && s[0] == '+' {
        s.drop_first()
    } else {
        s
    }
}

/// `s` is an unsigned decimal literal (an optional `+`, then one or more
/// digits) whose value fits in 128 bits.
pub open spec fn is_u128_text(s: Seq<char>) -> bool {
    let d = unsigned_digits(s);
    d.len() > 0 && all_decimal_digits(d) && decimal_value(d) <= u128::MAX
}

pub open spec fn u128_text_value(s: Seq<char>) -> nat {
    decimal_value(unsigned_digits(s))
}

pub open spec fn is_hex_digit(c: char) -> bool {
    ('0' <= c && c <= '9') || ('a' <= c && c <= 'f') || ('A' <= c && c <= 'F')
}

pub open spec fn hex_value(c: char) -> nat {
    if '0' <= c && c <= '9' {
        (c as u32 - '0' as u32) as nat
    } else if 'a' <= c && c <= 'f' {
        (c as u32 - 'a' as u32 + 10) as nat
    } else {
        (c as u32 - 'A' as u32 + 10) as nat
    }
}

/// A hex string without its optional `0x` / `0X` prefix.
pub open spec fn hex_body(s: Seq<char>) -> Seq<char> {
    if s.len() >= 2 && s[0] == '0' && (s[1] == 'x' || s[1] == 'X') {
        s.subrange(2, s.len() as int)
    } else {
        s
    }
}

/// `s` is a hex-encoded byte string: an optional prefix, then an even number
/// of hex digits.
pub open spec fn is_hex_text(s: Seq<char>) -> bool {
    let b = hex_body(s);
    b.len() % 2 == 0 && forall|i: int| 0 <= i < b.len() ==> #[trigger] is_hex_digit(b[i])
}

/// The bytes that a hex string encodes, two digits each, high nibble first.
pub open spec fn hex_bytes(s: Seq<char>) -> Seq<u8> {
    let b = hex_body(s);
    Seq::new(
        b.len() / 2,
        |i: int| (hex_value(b[2 * i]) * 16 + hex_value(b[2 * i + 1])) as u8,
    )
}

/// `s` is a 20-byte account address in hex, with or without its prefix.
pub open spec fn is_address_text(s: Seq<char>) -> bool {
    is_hex_text(s) && hex_body(s).len() == 40
}

/// The value of four 64-bit limbs, least significant first.
pub open spec fn limbs_value(l: Seq<u64>) -> nat {
    l[0] as nat + l[1] as nat * pow2(64) + l[2] as nat * pow2(128) + l[3] as nat * pow2(192)
}

/// The base in which a 256-bit amount is written, and its digits: a `0x`,
/// `0o` or `0b` prefix (either case) selects base 16, 8 or 2; any other text
/// is all digits, in base 10.
pub open spec fn u256_radix_digits(s: Seq<char>) -> (nat, Seq<char>) {
    if s.len() >= 2 && s[0] == '0' && (s[1] == 'x' || s[1] == 'X') {
        (16, s.subrange(2, s.len() as int))
    } else if s.len() >= 2 && s[0] == '0' && (s[1] == 'o' || s[1] == 'O') {
        (8, s.subrange(2, s.len() as int))
    } else if s.len() >= 2 && s[0] == '0' && (s[1] == 'b' || s[1] == 'B') {
        (2, s.subrange(2, s.len() as int))
    } else {
        (10, s)
    }
}

/// The value of a digit character: `0`-`9`, then letters of either case from ten.
pub open spec fn radix_digit(c: char) -> Option<nat> {
    if '0' <= c && c <= '9' {
        Some((c as u32 - '0' as u32) as nat)
    } else if 'a' <= c && c <= 'z' {
        Some((c as u32 - 'a' as u32 + 10) as nat)
    } else if 'A' <= c && c <= 'Z' {
        Some((c as u32 - 'A' as u32 + 10) as nat)
    } else {
        None
    }
}

/// Every character of `d` is an underscore (a separator) or a digit below `radix`.
pub open spec fn radix_digits_ok(d: Seq<char>, radix: nat) -> bool {
    forall|i: int|
        0 <= i < d.len() ==> #[trigger] d[i] == '_' || (radix_digit(d[i]) is Some && radix_digit(
            d[i],
        )->0 < radix)
}

/// The value of the digits `d` in base `radix`, underscores skipped.
pub open spec fn radix_value(d: Seq<char>, radix: nat) -> nat
    decreases d.len(),
{
    if d.len() == 0 {
        0
    } else if d.last() == '_' {
        radix_value(d.drop_last(), radix)
    } else {
        radix_value(d.drop_last(), radix) * radix + radix_digit(d.last())->0
    }
}

/// `s` is a 256-bit amount: its digits are valid for its base, and their
/// value fits in 256 bits (no digits at all read as zero).
pub open spec fn is_u256_text(s: Seq<char>) -> bool {
    let (radix, d) = u256_radix_digits(s);
    radix_digits_ok(d, radix) && radix_value(d, radix) < pow2(256)
}

pub open spec fn u256_text_value(s: Seq<char>) -> nat {
    radix_value(u256_radix_digits(s).1, u256_radix_digits(s).0)
}

/// Relies on `alloy_primitives::Address::from_str`, which decodes hex with
/// `const_hex`: an optional `0x`/`0X` prefix, then exactly forty hex digits of
/// either case, two per byte.
#[verifier::external_body]
fn address_from_hex(s: &str) -> (r: Option<[u8; 20]>)
    ensures
        r is Some <==> is_address_text(s@),
        r is Some ==> r->0@ == hex_bytes(s@),
{
    <alloy_primitives::Address as core::str::FromStr>::from_str(s).ok().map(|a| a.0.0)
}

/// Relies on `alloy_primitives::Bytes::from_str`, which is `const_hex::decode`:
/// an optional `0x`/`0X` prefix, then an even number of hex digits.
#[verifier::external_body]
fn bytes_from_hex(s: &str) -> (r: Option<Vec<u8>>)
    ensures
        r is Some <==> is_hex_text(s@),
        r is Some ==> r->0@ == hex_bytes(s@),
{
    <alloy_primitives::Bytes as core::str::FromStr>::from_str(s).ok().map(|b| b.to_vec())
}

/// Relies on `alloy_primitives::U256::from_str` (ruint): a `0x`/`0o`/`0b`
/// prefix selects the base, else base ten; underscores are skipped; it fails
/// on a digit invalid for the base or a value of 2^256 or more.
#[verifier::external_body]
fn u256_from_text(s: &str) -> (r: Option<[u64; 4]>)
    ensures
        r is Some <==> is_u256_text(s@),
        r is Some ==> limbs_value(r->0@) == u256_text_value(s@),
{
    <alloy_primitives::U256 as core::str::FromStr>::from_str(s).ok().map(|v| v.into_limbs())
}

/// Parses a 20-byte account address written in hex.
pub fn parse_address(input: &str) -> (r: Result<[u8; 20]>)
    ensures
        r is Ok <==> is_address_text(input@),
        r is Ok ==> r->Ok_0@ == hex_bytes(input@),
        r is Err ==> r->Err_0.is(ErrorKind::InvalidInput, "Invalid address: "@ + input@),
{
    match address_from_hex(input) {
        Some(a) => Ok(a),
        None => Err(Error::InvalidInput(String::from_str("Invalid address: ").concat(input))),
    }
}

/// Parses hex-encoded transaction data.
pub fn parse_bytes(input: &str) -> (r: Result<Vec<u8>>)
    ensures
        r is Ok <==> is_hex_text(input@),
        r is Ok ==> r->Ok_0@ == hex_bytes(input@),
        r is Err ==> r->Err_0.is(ErrorKind::InvalidInput, "Invalid transaction data"@),
{
    match bytes_from_hex(input) {
        Some(b) => Ok(b),
        None => Err(Error::InvalidInput(String::from_str("Invalid transaction data"))),
    }
}

/// Parses a 256-bit amount, as four 64-bit limbs, least significant first.
pub fn parse_u256(input: &str) -> (r: Result<[u64; 4]>)
    ensures
        r is Ok <==> is_u256_text(input@),
        r is Ok ==> limbs_value(r->Ok_0@) == u256_text_value(input@),
        r is Err ==> r->Err_0.is(ErrorKind::InvalidInput, "Invalid U256 value"@),
{
    match u256_from_text(input) {
        Some(v) => Ok(v),
        None => Err(Error::InvalidInput(String::from_str("Invalid U256 value"))),
    }
}

proof fn lemma_decimal_prefix_le(s: Seq<char>, k: int)
    requires
        0 <= k <= s.len(),
    ensures
        decimal_value(s.subrange(0, k)) <= decimal_value(s),
    decreases s.len() - k,
{
    if k < s.len() {
        lemma_decimal_prefix_le(s.drop_last(), k);
        assert(s.drop_last().subrange(0, k) =~= s.subrange(0, k));
    } else {
        assert(s.subrange(0, k) =~= s);
    }
}

fn invalid_u128() -> (e: Error)
    ensures
        e.is(ErrorKind::InvalidInput, "Invalid u128 value"@),
{
    Error::InvalidInput(String::from_str("Invalid u128 value"))
}

/// Parses an unsigned decimal amount that fits in 128 bits: an optional `+`,
/// then one or more digits.
pub fn parse_u128(input: &str) -> (r: Result<u128>)
    ensures
        r is Ok <==> is_u128_text(input@),
        r is Ok ==> r->Ok_0 == u128_text_value(input@),
        r is Err ==> r->Err_0.is(ErrorKind::InvalidInput, "Invalid u128 value"@),
{
    let n = input.unicode_len();
    let ghost s = input@;
    let start: usize = if n > 0 && input.get_char(0) == '+' { 1 } else { 0 };
    let ghost d = unsigned_digits(s);
    assert(d =~= s.subrange(start as int, n as int));
    if start >= n {
        return Err(invalid_u128());
    }
    let mut acc: u128 = 0;
    let mut i: usize = start;
    while i < n
        invariant
            start <= i <= n,
            n == s.len(),
            s == input@,
            d == s.subrange(start as int, n as int),
            d == unsigned_digits(s),
            all_decimal_digits(d.subrange(0, i - start)),
            acc as nat == decimal_value(d.subrange(0, i - start)),
        decreases n - i,
    {
        let c = input.get_char(i);
        let ghost k = i - start;
        if !('0' <= c && c <= '9') {
            assert(d[k] == c);
            assert(!is_decimal_digit(d[k]));
            return Err(invalid_u128());
        }
        let v = (c as u32 - '0' as u32) as u128;
        let ghost next = d.subrange(0, k + 1);
        assert(next.drop_last() =~= d.subrange(0, k));
        assert(next.last() == c);
        assert(decimal_value(next) == acc * 10 + v);
        assert(all_decimal_digits(next)) by {
            assert forall|j: int| 0 <= j < next.len() implies #[trigger] is_decimal_digit(next[j]) by {
                if j < k {
                    assert(next[j] == d.subrange(0, k)[j]);
                }
            }
        }
        match acc.checked_mul(10) {
            None => {
                proof {
                    lemma_decimal_prefix_le(d, k + 1);
                }
                return Err(invalid_u128());
            },
            Some(m) => match m.checked_add(v) {
                None => {
                    proof {
                        lemma_decimal_prefix_le(d, k + 1);
                    }
                    return Err(invalid_u128());
                },
                Some(total) => {
                    acc = total;
                },
            },
        }
        i = i + 1;
    }
    assert(d.subrange(0, n - start) =~= d);
    Ok(acc)
}

} // verus!
