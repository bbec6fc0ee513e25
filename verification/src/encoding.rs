//! Canonical text form of keys and signatures: lowercase hexadecimal, two
//! characters per byte, no separators and no prefix.

use vstd::prelude::*;

verus! {

/// The character that stands for a value of four bits.
pub open spec fn hex_digit(nibble: int) -> char {
    if nibble < 10 {
        ('0' as int + nibble) as char
    } else {
        ('a' as int + (nibble - 10)) as char
    }
}

/// The value of four bits that a character stands for.
pub open spec fn hex_digit_value(digit: char) -> int {
    if digit as int <= '9' as int {
        digit as int - '0' as int
    } else {
        digit as int - 'a' as int + 10
    }
}

/// Whether a character is one of `0` to `9` or `a` to `f`.
pub open spec fn is_lower_hex_char(c: char) -> bool {
    ('0' as int <= c as int <= '9' as int) || ('a' as int <= c as int <= 'f' as int)
}

/// The text form of a byte string: for each byte, in order, the digit of its
/// high four bits and then the digit of its low four bits.
pub open spec fn hex_string(bytes: Seq<u8>) -> Seq<char> {
    Seq::new(
        2 * bytes.len(),
        |i: int|
            if i % 2 == 0 {
                hex_digit(bytes[i / 2] as int / 16)
            } else {
                hex_digit(bytes[i / 2] as int % 16)
            },
    )
}

/// The byte string that a text of hexadecimal digits stands for: each pair of
/// digits gives one byte, high four bits first.
pub open spec fn hex_bytes(text: Seq<char>) -> Seq<u8> {
    Seq::new(
        text.len() / 2,
        |k: int| (hex_digit_value(text[2 * k]) * 16 + hex_digit_value(text[2 * k + 1])) as u8,
    )
}

/// A digit is a lowercase hexadecimal character, and its value is the four
/// bits it was made from.
pub proof fn lemma_hex_digit(nibble: int)
    requires
        0 <= nibble < 16,
    ensures
        is_lower_hex_char(hex_digit(nibble)),
        hex_digit_value(hex_digit(nibble)) == nibble,
        hex_digit(nibble) != '\0',
{
}

/// The text form of a byte string is exactly twice as long as the byte
/// string and holds only the characters `0` to `9` and `a` to `f`; in
/// particular it holds no NUL character.
pub proof fn lemma_hex_string_shape(bytes: Seq<u8>)
    ensures
        hex_string(bytes).len() == 2 * bytes.len(),
        forall|i: int|
            0 <= i < hex_string(bytes).len() ==> is_lower_hex_char(#[trigger] hex_string(bytes)[i]),
        forall|i: int| 0 <= i < hex_string(bytes).len() ==> #[trigger] hex_string(bytes)[i] != '\0',
{
    assert forall|i: int| 0 <= i < hex_string(bytes).len() implies is_lower_hex_char(
        #[trigger] hex_string(bytes)[i],
    ) && hex_string(bytes)[i] != '\0' by {
        let byte = bytes[i / 2] as int;
        lemma_hex_digit(byte / 16);
        lemma_hex_digit(byte % 16);
    }
}

/// Reading the text form of a byte string back, pair of digits by pair of
/// digits, gives the byte string again.
pub proof fn lemma_hex_round_trip(bytes: Seq<u8>)
    ensures
        hex_bytes(hex_string(bytes)) == bytes,
{
    let text = hex_string(bytes);
    assert(text.len() / 2 == bytes.len());
    assert forall|k: int| 0 <= k < bytes.len() implies #[trigger] hex_bytes(text)[k] == bytes[k] by {
        let byte = bytes[k] as int;
        lemma_hex_digit(byte / 16);
        lemma_hex_digit(byte % 16);
        assert(text[2 * k] == hex_digit(byte / 16));
        assert(text[2 * k + 1] == hex_digit(byte % 16));
    }
    assert(hex_bytes(text) =~= bytes);
}

/// Two byte strings have the same text form exactly when they are the same
/// byte string: equal bytes are rendered alike, and the text tells different
/// bytes apart.
pub proof fn lemma_hex_string_injective(a: Seq<u8>, b: Seq<u8>)
    ensures
        hex_string(a) == hex_string(b) <==> a == b,
{
    lemma_hex_round_trip(a);
    lemma_hex_round_trip(b);
}

/// Calls `hex::encode`. The contract claims what that function documents:
/// lowercase digits, two for each byte of the input in the input's order,
/// the high four bits of a byte before its low four bits, and nothing else.
#[verifier::external_body]
fn encode_lower_hex(bytes: &[u8]) -> (text: String)
    ensures
        text@ == hex_string(bytes@),
{
    hex::encode(bytes)
}

/// Renders a byte string as lowercase hexadecimal text.
pub fn to_hex(bytes: &[u8]) -> (text: String)
    ensures
        text@ == hex_string(bytes@),
        text@.len() == 2 * bytes@.len(),
        forall|i: int| 0 <= i < text@.len() ==> is_lower_hex_char(#[trigger] text@[i]),
{
    proof {
        lemma_hex_string_shape(bytes@);
    }
    encode_lower_hex(bytes)
}

} // verus!
