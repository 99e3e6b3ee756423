//! Binary payloads as text: lower-case hexadecimal behind the prefix `0x`.

use vstd::prelude::*;
use crate::text::digit_char;

verus! {

/// The two digits of one byte, high nibble first.
pub open spec fn byte_digits(b: u8) -> Seq<char> {
    seq![digit_char((b / 16) as nat), digit_char((b % 16) as nat)]
}

/// The digits of a byte sequence, two for each byte, in order.
pub open spec fn hex_digits(bytes: Seq<u8>) -> Seq<char>
    decreases bytes.len(),
{
    if bytes.len() == 0 {
        Seq::empty()
    } else {
        hex_digits(bytes.drop_last()) + byte_digits(bytes.last())
    }
}

/// The text form of a binary payload: `0x`, then its digits.
pub open spec fn hex_text(bytes: Seq<u8>) -> Seq<char> {
    seq!['0', 'x'] + hex_digits(bytes)
}

/// Encodes a payload with `ethportal_api::utils::bytes::hex_encode`, which
/// prints `0x` and then, through `hex::encode`, two lower-case digits for each
/// byte, the high nibble first.
#[verifier::external_body]
pub(crate) fn encode_hex(bytes: &Vec<u8>) -> (text: String)
    ensures
        text@ == hex_text(bytes@),
{
    ethportal_api::utils::bytes::hex_encode(bytes)
}

/// The value of a hexadecimal digit, in either case; `None` for any other
/// character.
pub open spec fn digit_value(c: char) -> Option<nat> {
    if '0' <= c && c <= '9' {
        Some((c as nat - '0' as nat) as nat)
    } else if 'a' <= c && c <= 'f' {
        Some((c as nat - 'a' as nat + 10) as nat)
    } else if 'A' <= c && c <= 'F' {
        Some((c as nat - 'A' as nat + 10) as nat)
    } else {
        None
    }
}

/// The bytes that a run of digits stands for: two digits for each byte, the
/// high nibble first. `None` where a digit is left over or a character is no
/// digit.
pub open spec fn parse_digits(digits: Seq<char>) -> Option<Seq<u8>>
    decreases digits.len(),
{
    if digits.len() == 0 {
        Some(Seq::empty())
    } else if digits.len() == 1 {
        None
    } else {
        let front = parse_digits(digits.subrange(0, digits.len() - 2));
        let high = digit_value(digits[digits.len() - 2]);
        let low = digit_value(digits[digits.len() - 1]);
        if front is Some && high is Some && low is Some {
            Some(front->0.push((high->0 * 16 + low->0) as u8))
        } else {
            None
        }
    }
}

/// The payload that a text stands for: what follows the prefix `0x`, read as
/// digits. `None` where the prefix is missing or the rest does not parse.
pub open spec fn parse_hex(text: Seq<char>) -> Option<Seq<u8>> {
    if text.len() >= 2 && text[0] == '0' && text[1] == 'x' {
        parse_digits(text.subrange(2, text.len() as int))
    } else {
        None
    }
}

/// Every digit that encoding prints reads back as the nibble it stands for.
pub proof fn lemma_digit_round_trip(d: nat)
    requires
        d < 16,
    ensures
        digit_value(digit_char(d)) == Some(d),
{
}

/// The digits of a payload read back as that payload.
pub proof fn lemma_digits_round_trip(bytes: Seq<u8>)
    ensures
        hex_digits(bytes).len() == 2 * bytes.len(),
        parse_digits(hex_digits(bytes)) == Some(bytes),
    decreases bytes.len(),
{
    if bytes.len() > 0 {
        let front = bytes.drop_last();
        let last = bytes.last();
        lemma_digits_round_trip(front);
        let digits = hex_digits(bytes);
        assert(digits.subrange(0, digits.len() - 2) =~= hex_digits(front));
        lemma_digit_round_trip((last / 16) as nat);
        lemma_digit_round_trip((last % 16) as nat);
        assert(((last / 16) * 16 + last % 16) as u8 == last);
        assert(front.push(last) =~= bytes);
    }
}

/// Parsing the text of a payload yields that payload, whatever its bytes.
pub proof fn lemma_hex_round_trip(bytes: Seq<u8>)
    ensures
        parse_hex(hex_text(bytes)) == Some(bytes),
{
    lemma_digits_round_trip(bytes);
    let text = hex_text(bytes);
    assert(text.subrange(2, text.len() as int) =~= hex_digits(bytes));
}

/// Two payloads with the same text are the same payload.
pub proof fn lemma_hex_text_injective(a: Seq<u8>, b: Seq<u8>)
    requires
        hex_text(a) == hex_text(b),
    ensures
        a == b,
{
    lemma_hex_round_trip(a);
    lemma_hex_round_trip(b);
}

} // verus!
