//! String primitives: decimal rendering, character replacement, the form
//! encoding of query parameters, and the few operations that are taken on
//! trust from `std` and `form_urlencoded`.

use vstd::prelude::*;
use vstd::string::*;
use vstd::utf8::{decode_utf8, encode_utf8};

verus! {

/// The character that stands for a digit below ten.
pub open spec fn digit_char(d: int) -> char {
    if d == 0 {
        '0'
    } else if d == 1 {
        '1'
    } else if d == 2 {
        '2'
    } else if d == 3 {
        '3'
    } else if d == 4 {
        '4'
    } else if d == 5 {
        '5'
    } else if d == 6 {
        '6'
    } else if d == 7 {
        '7'
    } else if d == 8 {
        '8'
    } else {
        '9'
    }
}

/// The decimal digits of a natural number, most significant first, without
/// leading zeros.
pub open spec fn decimal_nat(n: nat) -> Seq<char>
    decreases n,
{
    if n < 10 {
        seq![digit_char(n as int)]
    } else {
        decimal_nat(n / 10).push(digit_char((n % 10) as int))
    }
}

/// The decimal rendering of an integer: a minus sign for negative values,
/// then the digits of the magnitude.
pub open spec fn decimal(n: int) -> Seq<char> {
    if n < 0 {
        seq!['-'] + decimal_nat((-n) as nat)
    } else {
        decimal_nat(n as nat)
    }
}

/// The quotient of `a` by the positive `b`, rounded toward zero.
pub open spec fn div_toward_zero(a: int, b: int) -> int {
    if a >= 0 {
        a / b
    } else {
        -((-a) / b)
    }
}

/// `text` with every occurrence of `from` replaced by `to`.
pub open spec fn replaced(text: Seq<char>, from: char, to: char) -> Seq<char> {
    Seq::new(
        text.len(),
        |i: int|
            if text[i] == from {
                to
            } else {
                text[i]
            },
    )
}

/// The lower-case form of a text, as `str::to_lowercase` computes it.
pub uninterp spec fn lowercase(text: Seq<char>) -> Seq<char>;

/// Whether the form encoding leaves a byte as it is: `*`, `-`, `.`, `_`,
/// the digits and the ASCII letters.
pub open spec fn form_byte_unchanged(b: u8) -> bool {
    b == 0x2a || b == 0x2d || b == 0x2e || b == 0x5f || 0x30 <= b <= 0x39 || 0x41 <= b <= 0x5a
        || 0x61 <= b <= 0x7a
}

/// The upper-case hexadecimal digit for a value below sixteen.
pub open spec fn hex_digit_char(d: int) -> char {
    if d < 10 {
        digit_char(d)
    } else if d == 10 {
        'A'
    } else if d == 11 {
        'B'
    } else if d == 12 {
        'C'
    } else if d == 13 {
        'D'
    } else if d == 14 {
        'E'
    } else {
        'F'
    }
}

/// The form encoding of one byte: itself where it is left unchanged, `+`
/// for a space, and otherwise `%` with its two upper-case hexadecimal
/// digits.
pub open spec fn form_byte_encoded(b: u8) -> Seq<char> {
    if form_byte_unchanged(b) {
        seq![b as char]
    } else if b == 0x20 {
        seq!['+']
    } else {
        seq!['%', hex_digit_char(b as int / 16), hex_digit_char(b as int % 16)]
    }
}

/// The form encoding of a sequence of bytes: the encodings of its bytes,
/// in order.
pub open spec fn form_bytes_encoded(bytes: Seq<u8>) -> Seq<char>
    decreases bytes.len(),
{
    if bytes.len() == 0 {
        Seq::empty()
    } else {
        form_bytes_encoded(bytes.drop_last()) + form_byte_encoded(bytes.last())
    }
}

/// The `application/x-www-form-urlencoded` encoding of one name or value:
/// the form encoding of its UTF-8 bytes.
pub open spec fn form_encoded(text: Seq<char>) -> Seq<char> {
    form_bytes_encoded(encode_utf8(text))
}

/// The value of a hexadecimal digit; none for any other character.
pub open spec fn hex_digit_value(c: char) -> Option<int> {
    if '0' <= c <= '9' {
        Some(c as int - '0' as int)
    } else if 'A' <= c <= 'F' {
        Some(c as int - 'A' as int + 10)
    } else if 'a' <= c <= 'f' {
        Some(c as int - 'a' as int + 10)
    } else {
        None
    }
}

/// The bytes that a form-encoded text stands for: `%` with two hexadecimal
/// digits is the byte they give, `+` is a space, and any other character
/// is its own byte.
pub open spec fn form_decoded_bytes(encoded: Seq<char>) -> Seq<u8>
    decreases encoded.len(),
{
    if encoded.len() == 0 {
        Seq::empty()
    } else if encoded[0] == '%' && encoded.len() >= 3 && hex_digit_value(encoded[1]) is Some
        && hex_digit_value(encoded[2]) is Some {
        seq![(16 * hex_digit_value(encoded[1])->0 + hex_digit_value(encoded[2])->0) as u8]
            + form_decoded_bytes(encoded.skip(3))
    } else if encoded[0] == '+' {
        seq![0x20u8] + form_decoded_bytes(encoded.skip(1))
    } else {
        seq![encoded[0] as u8] + form_decoded_bytes(encoded.skip(1))
    }
}

/// The text that a form-encoded name or value stands for.
pub open spec fn form_decoded(encoded: Seq<char>) -> Seq<char> {
    decode_utf8(form_decoded_bytes(encoded))
}

/// Whether a character can occur in a form-encoded name or value: one that
/// is left unchanged, `+`, `%`, or an upper-case hexadecimal digit.
pub open spec fn is_form_safe(c: char) -> bool {
    c == '*' || c == '-' || c == '.' || c == '_' || '0' <= c <= '9' || 'A' <= c <= 'Z' || 'a' <= c
        <= 'z' || c == '+' || c == '%'
}

/// An encoded query string after one more name/value pair has been
/// appended: an `&` where pairs are already present, then the encoded name,
/// `=`, and the encoded value.
pub open spec fn form_pair_appended(encoded: Seq<char>, name: Seq<char>, value: Seq<char>) -> Seq<
    char,
> {
    encoded + (if encoded.len() > 0 {
        seq!['&']
    } else {
        Seq::<char>::empty()
    }) + form_encoded(name) + seq!['='] + form_encoded(value)
}

/// `String::push`: appends one character to the end of the string.
#[verifier::external_body]
pub(crate) fn push_char(s: &mut String, c: char)
    ensures
        final(s)@ == old(s)@.push(c),
{
    s.push(c)
}

/// `str::to_lowercase`: the result is the lower-case form of the argument,
/// a function of the argument's characters alone.
#[verifier::external_body]
pub(crate) fn to_lowercase(s: &str) -> (r: String)
    ensures
        r@ == lowercase(s@),
{
    s.to_lowercase()
}

/// `form_urlencoded::Serializer::new(..).append_pair(..).finish()`: a
/// serializer over `encoded` appends a separating `&` when `encoded` is not
/// empty, then the encoded name, `=`, and the encoded value, and hands the
/// string back. Name and value are encoded byte by byte over their UTF-8
/// form: the bytes of `*-._`, digits and ASCII letters stay, a space
/// becomes `+`, and any other byte becomes `%` and two upper-case
/// hexadecimal digits.
#[verifier::external_body]
pub(crate) fn append_form_pair(encoded: String, name: &str, value: &str) -> (r: String)
    ensures
        r@ == form_pair_appended(encoded@, name@, value@),
{
    url::form_urlencoded::Serializer::new(encoded).append_pair(name, value).finish()
}

/// An owned copy of a string slice.
pub fn owned(s: &str) -> (r: String)
    ensures
        r@ == s@,
{
    s.to_owned()
}

/// The character for a digit below ten.
pub fn digit(d: u64) -> (c: char)
    requires
        d < 10,
    ensures
        c == digit_char(d as int),
{
    if d == 0 {
        '0'
    } else if d == 1 {
        '1'
    } else if d == 2 {
        '2'
    } else if d == 3 {
        '3'
    } else if d == 4 {
        '4'
    } else if d == 5 {
        '5'
    } else if d == 6 {
        '6'
    } else if d == 7 {
        '7'
    } else if d == 8 {
        '8'
    } else {
        '9'
    }
}

/// Renders a natural number in decimal.
pub fn decimal_nat_string(n: u64) -> (r: String)
    ensures
        r@ == decimal_nat(n as nat),
    decreases n,
{
    if n < 10 {
        let mut s = String::new();
        push_char(&mut s, digit(n));
        s
    } else {
        let mut s = decimal_nat_string(n / 10);
        push_char(&mut s, digit(n % 10));
        s
    }
}

/// Renders an integer in decimal, with a leading minus sign when negative.
pub fn decimal_string(n: i64) -> (r: String)
    ensures
        r@ == decimal(n as int),
{
    if n < 0 {
        let magnitude: u64 = (-(n + 1)) as u64 + 1;
        let digits = decimal_nat_string(magnitude);
        let mut s = String::new();
        push_char(&mut s, '-');
        s.append(digits.as_str());
        s
    } else {
        decimal_nat_string(n as u64)
    }
}

/// Divides by a positive divisor, rounding toward zero.
pub fn divide_toward_zero(a: i64, b: i64) -> (q: i64)
    requires
        b > 0,
    ensures
        q == div_toward_zero(a as int, b as int),
{
    if a >= 0 {
        a / b
    } else {
        let magnitude: u64 = (-(a + 1)) as u64 + 1;
        let quotient: u64 = magnitude / (b as u64);
        assert(quotient <= magnitude);
        if quotient > 0x7fff_ffff_ffff_ffff {
            assert(b == 1) by (nonlinear_arith)
                requires
                    quotient == magnitude / (b as u64),
                    magnitude <= 0x8000_0000_0000_0000u64,
                    quotient > 0x7fff_ffff_ffff_ffffu64,
                    b > 0,
            ;
            a
        } else {
            -(quotient as i64)
        }
    }
}

/// Replaces every occurrence of one character by another.
pub fn replace_char(s: &str, from: char, to: char) -> (r: String)
    ensures
        r@ == replaced(s@, from, to),
{
    let n: usize = s.unicode_len();
    let mut out = String::new();
    let mut i: usize = 0;
    while i < n
        invariant
            n == s@.len(),
            i <= n,
            out@ == replaced(s@.take(i as int), from, to),
        decreases n - i,
    {
        let c = s.get_char(i);
        push_char(
            &mut out,
            if c == from {
                to
            } else {
                c
            },
        );
        assert(out@ =~= replaced(s@.take(i + 1), from, to));
        i = i + 1;
    }
    assert(s@.take(n as int) =~= s@);
    out
}

} // verus!
