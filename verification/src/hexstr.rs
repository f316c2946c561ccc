//! Hex text for digests, keys and signatures. The encoding and decoding
//! themselves are done by the `hex` crate; the spec functions here state
//! exactly what that crate documents, so contracts elsewhere can speak of
//! hex text concretely.

use vstd::prelude::*;

verus! {

/// The lowercase hex digit character for a value below sixteen.
pub open spec fn hex_digit_char(d: nat) -> char {
    if d == 0 {
        '0'
    } else if d == 1 {
        '1'
    } else if d == 2 {
        '2'
    } else if d == 3 {
        '3'
    } else if d == 4 {
        '4'
    } else if d == 5 {
        '5'
    } else if d == 6 {
        '6'
    } else if d == 7 {
        '7'
    } else if d == 8 {
        '8'
    } else if d == 9 {
        '9'
    } else if d == 10 {
        'a'
    } else if d == 11 {
        'b'
    } else if d == 12 {
        'c'
    } else if d == 13 {
        'd'
    } else if d == 14 {
        'e'
    } else {
        'f'
    }
}

/// The value of a hex digit character, upper or lower case; sixteen for
/// any character that is no hex digit.
pub open spec fn hex_char_value(c: char) -> nat {
    if c == '0' {
        0
    } else if c == '1' {
        1
    } else if c == '2' {
        2
    } else if c == '3' {
        3
    } else if c == '4' {
        4
    } else if c == '5' {
        5
    } else if c == '6' {
        6
    } else if c == '7' {
        7
    } else if c == '8' {
        8
    } else if c == '9' {
        9
    } else if c == 'a' || c == 'A' {
        10
    } else if c == 'b' || c == 'B' {
        11
    } else if c == 'c' || c == 'C' {
        12
    } else if c == 'd' || c == 'D' {
        13
    } else if c == 'e' || c == 'E' {
        14
    } else if c == 'f' || c == 'F' {
        15
    } else {
        16
    }
}

pub open spec fn is_hex_char(c: char) -> bool {
    hex_char_value(c) < 16
}

/// Whether a text is well-formed hex: an even number of characters, each a
/// hex digit of either case.
pub open spec fn hex_text_ok(s: Seq<char>) -> bool {
    s.len() % 2 == 0 && (forall|i: int| 0 <= i < s.len() ==> is_hex_char(#[trigger] s[i]))
}

/// The lowercase hex text of a byte sequence: two digits per byte.
pub open spec fn hex_text_of(b: Seq<u8>) -> Seq<char>
    decreases b.len(),
{
    if b.len() == 0 {
        Seq::<char>::empty()
    } else {
        seq![
            hex_digit_char((b.first() / 16) as nat),
            hex_digit_char((b.first() % 16) as nat),
        ] + hex_text_of(b.drop_first())
    }
}

/// The bytes a well-formed hex text denotes, one byte per digit pair.
pub open spec fn hex_bytes_of(s: Seq<char>) -> Seq<u8>
    decreases s.len(),
{
    if s.len() < 2 {
        Seq::<u8>::empty()
    } else {
        seq![(hex_char_value(s[0]) * 16 + hex_char_value(s[1])) as u8] + hex_bytes_of(s.skip(2))
    }
}

/// Relies on hex::encode: lowercase hex, exactly two digits per byte.
#[verifier::external_body]
pub(crate) fn hex_encode(data: &Vec<u8>) -> (r: String)
    ensures
        r@ == hex_text_of(data@),
{
    hex::encode(data.as_slice())
}

/// Relies on hex::decode: accepts upper and lower case digits, rejects an
/// odd length and any character that is no hex digit.
#[verifier::external_body]
pub(crate) fn hex_decode(text: &str) -> (r: Option<Vec<u8>>)
    ensures
        r is Some <==> hex_text_ok(text@),
        r is Some ==> r.unwrap()@ == hex_bytes_of(text@),
{
    hex::decode(text).ok()
}

/// Encoding then decoding gives the bytes back: the lowercase hex text of
/// any byte sequence is well-formed and denotes exactly that sequence.
pub proof fn lemma_hex_roundtrip(b: Seq<u8>)
    ensures
        hex_text_of(b).len() == 2 * b.len(),
        hex_text_ok(hex_text_of(b)),
        hex_bytes_of(hex_text_of(b)) == b,
    decreases b.len(),
{
    if b.len() == 0 {
        assert(hex_bytes_of(hex_text_of(b)) =~= b);
    } else {
        lemma_hex_roundtrip(b.drop_first());
        let s = hex_text_of(b);
        let hi = hex_digit_char((b.first() / 16) as nat);
        let lo = hex_digit_char((b.first() % 16) as nat);
        assert(hex_char_value(hi) == b.first() / 16);
        assert(hex_char_value(lo) == b.first() % 16);
        assert(s.skip(2) =~= hex_text_of(b.drop_first()));
        assert forall|i: int| 0 <= i < s.len() implies is_hex_char(#[trigger] s[i]) by {
            if i >= 2 {
                assert(s[i] == hex_text_of(b.drop_first())[i - 2]);
            }
        }
        assert(hex_bytes_of(s) =~= b);
    }
}

} // verus!
