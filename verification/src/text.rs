//! Decimal and hexadecimal renderings of numbers, used in names and messages.

use vstd::prelude::*;

verus! {

/// The character of a decimal or hexadecimal digit (lower case).
pub open spec fn digit_char(d: nat) -> char {
    if d < 10 {
        ('0' as nat + d) as char
    } else {
        ('a' as nat + (d - 10)) as char
    }
}

/// The character of an upper-case hexadecimal digit.
pub open spec fn upper_digit_char(d: nat) -> char {
    if d < 10 {
        ('0' as nat + d) as char
    } else {
        ('A' as nat + (d - 10)) as char
    }
}

/// The decimal representation of `n`, without leading zeros.
pub open spec fn decimal(n: nat) -> Seq<char>
    decreases n,
{
    if n < 10 {
        seq![digit_char(n)]
    } else {
        decimal(n / 10).push(digit_char(n % 10))
    }
}

/// The upper-case hexadecimal representation of `n` in exactly `width` digits
/// (the low `width` digits of `n`).
pub open spec fn upper_hex_fixed(n: nat, width: nat) -> Seq<char>
    decreases width,
{
    if width == 0 {
        seq![]
    } else {
        upper_hex_fixed(n / 16, (width - 1) as nat).push(upper_digit_char(n % 16))
    }
}

/// A one-character string holding the lower-case digit `d`.
pub fn digit_str(d: u8) -> (r: &'static str)
    requires
        d < 16,
    ensures
        r@ == seq![digit_char(d as nat)],
{
    proof {
        reveal_strlit("0");
        reveal_strlit("1");
        reveal_strlit("2");
        reveal_strlit("3");
        reveal_strlit("4");
        reveal_strlit("5");
        reveal_strlit("6");
        reveal_strlit("7");
        reveal_strlit("8");
        reveal_strlit("9");
        reveal_strlit("a");
        reveal_strlit("b");
        reveal_strlit("c");
        reveal_strlit("d");
        reveal_strlit("e");
        reveal_strlit("f");
    }
    match d {
        0 => "0",
        1 => "1",
        2 => "2",
        3 => "3",
        4 => "4",
        5 => "5",
        6 => "6",
        7 => "7",
        8 => "8",
        9 => "9",
        10 => "a",
        11 => "b",
        12 => "c",
        13 => "d",
        14 => "e",
        _ => "f",
    }
}

/// A one-character string holding the upper-case hexadecimal digit `d`.
pub fn upper_digit_str(d: u8) -> (r: &'static str)
    requires
        d < 16,
    ensures
        r@ == seq![upper_digit_char(d as nat)],
{
    proof {
        reveal_strlit("A");
        reveal_strlit("B");
        reveal_strlit("C");
        reveal_strlit("D");
        reveal_strlit("E");
        reveal_strlit("F");
    }
    if d < 10 {
        digit_str(d)
    } else {
        match d {
            10 => "A",
            11 => "B",
            12 => "C",
            13 => "D",
            14 => "E",
            _ => "F",
        }
    }
}

/// The decimal representation of `n`.
pub fn usize_to_decimal(n: usize) -> (s: String)
    ensures
        s@ == decimal(n as nat),
    decreases n,
{
    if n < 10 {
        String::from_str(digit_str(n as u8))
    } else {
        let mut s = usize_to_decimal(n / 10);
        s.append(digit_str((n % 10) as u8));
        s
    }
}

/// The decimal representation of `n`.
pub fn u64_to_decimal(n: u64) -> (s: String)
    ensures
        s@ == decimal(n as nat),
    decreases n,
{
    if n < 10 {
        String::from_str(digit_str(n as u8))
    } else {
        let mut s = u64_to_decimal(n / 10);
        s.append(digit_str((n % 10) as u8));
        s
    }
}

/// The low `width` upper-case hexadecimal digits of `n`.
fn upper_hex_digits(n: u32, width: u8) -> (s: String)
    ensures
        s@ == upper_hex_fixed(n as nat, width as nat),
    decreases width,
{
    if width == 0 {
        String::new()
    } else {
        let mut s = upper_hex_digits(n / 16, width - 1);
        s.append(upper_digit_str((n % 16) as u8));
        s
    }
}

/// `0x` followed by the eight upper-case hexadecimal digits of `n`.
pub fn u32_to_hex8(n: u32) -> (s: String)
    ensures
        s@ == "0x"@ + upper_hex_fixed(n as nat, 8),
{
    let digits = upper_hex_digits(n, 8);
    String::from_str("0x").concat(digits.as_str())
}

/// Whether two strings hold the same characters.
pub fn str_is(a: &str, b: &str) -> (r: bool)
    ensures
        r == (a@ == b@),
{
    String::from_str(a) == String::from_str(b)
}

/// `String::push`: appends the character `c` to the end of `s`.
#[verifier::external_body]
pub(crate) fn push_char(s: &mut String, c: char)
    ensures
        final(s)@ == old(s)@.push(c),
{
    s.push(c)
}

/// `String::from_utf8` of std: a string exactly when the bytes are
/// well-formed UTF-8, and then the string those bytes encode.
#[verifier::external_body]
pub(crate) fn string_from_utf8(bytes: Vec<u8>) -> (r: Option<String>)
    ensures
        r is Some <==> vstd::utf8::valid_utf8(bytes@),
        r matches Some(s) ==> s@ == vstd::utf8::decode_utf8(bytes@),
{
    String::from_utf8(bytes).ok()
}

} // verus!
