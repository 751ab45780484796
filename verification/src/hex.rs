//! Bytes written as hex digits, and read back.

use vstd::prelude::*;
use vstd::utf8::encode_utf8;

use crate::error::HexError;

verus! {

/// The lower-case hex digit of a value below sixteen.
pub open spec fn hex_digit(nibble: int) -> char {
    if nibble < 10 {
        ('0' as u8 + nibble) as char
    } else {
        ('a' as u8 + (nibble - 10)) as char
    }
}

/// `bytes` as lower-case hex digits, two to a byte, the high half first.
pub open spec fn hex_encoded(bytes: Seq<u8>) -> Seq<char> {
    Seq::new(
        2 * bytes.len(),
        |i: int|
            if i % 2 == 0 {
                hex_digit(bytes[i / 2] as int / 16)
            } else {
                hex_digit(bytes[i / 2] as int % 16)
            },
    )
}

/// The value of a hex digit of either case, if `byte` is one.
pub open spec fn hex_value(byte: u8) -> Option<int> {
    if '0' as u8 <= byte <= '9' as u8 {
        Some(byte - '0' as u8)
    } else if 'a' as u8 <= byte <= 'f' as u8 {
        Some(byte - 'a' as u8 + 10)
    } else if 'A' as u8 <= byte <= 'F' as u8 {
        Some(byte - 'A' as u8 + 10)
    } else {
        None
    }
}

/// How many hex digits `digits` starts with.
pub open spec fn hex_run(digits: Seq<u8>) -> nat
    decreases digits.len(),
{
    if digits.len() == 0 || hex_value(digits[0]) is None {
        0
    } else {
        1 + hex_run(digits.drop_first())
    }
}

/// `text` without a leading `0x` or `0X`.
pub open spec fn strip_hex_prefix(text: Seq<u8>) -> Seq<u8> {
    if text.len() >= 2 && text[0] == '0' as u8 && (text[1] == 'x' as u8 || text[1] == 'X' as u8) {
        text.skip(2)
    } else {
        text
    }
}

/// The bytes that the hex digits of `text` stand for, or why they stand for none. The length is
/// looked at before anything else, and the first byte that is no digit is the one reported, each
/// byte of a longer character on its own.
pub open spec fn hex_decoded(text: Seq<u8>) -> Result<Seq<u8>, HexError> {
    let digits = strip_hex_prefix(text);
    let run = hex_run(digits);
    if text.len() % 2 != 0 {
        Err(HexError::OddLength)
    } else if run < digits.len() {
        Err(HexError::InvalidHexCharacter { c: digits[run as int] as char, index: run as usize })
    } else {
        Ok(
            Seq::new(
                digits.len() / 2,
                |i: int|
                    (hex_value(digits[2 * i])->0 * 16 + hex_value(digits[2 * i + 1])->0) as u8,
            ),
        )
    }
}

/// Calls `alloy_primitives::hex::encode`: the digits are lower-case, two to a byte, without a
/// prefix. It panics where the digits would not fit in one allocation.
#[verifier::external_body]
pub(crate) fn encode(bytes: &[u8]) -> (text: String)
    requires
        2 * bytes@.len() <= isize::MAX,
    ensures
        text@ == hex_encoded(bytes@),
{
    alloy_primitives::hex::encode(bytes)
}

/// Calls `alloy_primitives::hex::decode` on the UTF-8 bytes of `text`: it takes digits of either
/// case behind an optional `0x` or `0X`, and rejects an odd number of bytes and anything that is
/// no digit.
#[verifier::external_body]
pub(crate) fn decode(text: &str) -> (bytes: Result<Vec<u8>, HexError>)
    ensures
        match bytes {
            Ok(b) => hex_decoded(encode_utf8(text@)) == Ok::<Seq<u8>, HexError>(b@),
            Err(e) => hex_decoded(encode_utf8(text@)) == Err::<Seq<u8>, HexError>(e),
        },
{
    alloy_primitives::hex::decode(text).map_err(
        |e| match e {
            alloy_primitives::hex::FromHexError::InvalidHexCharacter { c, index } => {
                HexError::InvalidHexCharacter { c, index }
            },
            alloy_primitives::hex::FromHexError::OddLength => HexError::OddLength,
            alloy_primitives::hex::FromHexError::InvalidStringLength => {
                HexError::InvalidStringLength
            },
        },
    )
}

proof fn lemma_hex_run_all(digits: Seq<u8>)
    requires
        forall|i: int| 0 <= i < digits.len() ==> hex_value(#[trigger] digits[i]) is Some,
    ensures
        hex_run(digits) == digits.len(),
    decreases digits.len(),
{
    if digits.len() > 0 {
        assert(hex_value(digits[0]) is Some);
        assert forall|i: int| 0 <= i < digits.drop_first().len() implies hex_value(
            #[trigger] digits.drop_first()[i],
        ) is Some by {
            assert(digits.drop_first()[i] == digits[i + 1]);
        }
        lemma_hex_run_all(digits.drop_first());
    }
}

/// Decoding gives back what was encoded.
pub proof fn decode_inverts_encode(bytes: Seq<u8>)
    ensures
        hex_decoded(encode_utf8(hex_encoded(bytes))) == Ok::<Seq<u8>, HexError>(bytes),
{
    let text = hex_encoded(bytes);
    let raw = encode_utf8(text);
    assert(vstd::utf8::is_ascii_chars(text));
    vstd::utf8::is_ascii_chars_encode_utf8(text);
    assert(raw.len() == 2 * bytes.len());
    assert forall|i: int| 0 <= i < raw.len() implies hex_value(#[trigger] raw[i]) == Some(
        if i % 2 == 0 {
            bytes[i / 2] as int / 16
        } else {
            bytes[i / 2] as int % 16
        },
    ) by {
        assert(text[i] as u8 == raw[i]);
    }
    if raw.len() >= 2 {
        assert(hex_value(raw[1]) is Some);
    }
    assert(strip_hex_prefix(raw) == raw);
    lemma_hex_run_all(raw);
    let decoded = hex_decoded(raw)->Ok_0;
    assert forall|i: int| 0 <= i < bytes.len() implies decoded[i] == bytes[i] by {
        assert(hex_value(raw[2 * i]) == Some(bytes[i] as int / 16));
        assert(hex_value(raw[2 * i + 1]) == Some(bytes[i] as int % 16));
    }
    assert(decoded =~= bytes);
}

/// Every byte becomes two digits out of `0123456789abcdef`, which depend on that byte alone and
/// tell it from every other byte.
pub proof fn encoding_is_lower_case_digits(bytes: Seq<u8>, i: int)
    requires
        0 <= i < bytes.len(),
    ensures
        hex_encoded(bytes).len() == 2 * bytes.len(),
        "0123456789abcdef"@[bytes[i] as int / 16] == hex_encoded(bytes)[2 * i],
        "0123456789abcdef"@[bytes[i] as int % 16] == hex_encoded(bytes)[2 * i + 1],
{
    reveal_strlit("0123456789abcdef");
}

/// Digits have their values, in either case, and nothing else is a digit.
pub proof fn digits_have_their_values(n: int, byte: u8)
    requires
        0 <= n < 16,
    ensures
        byte == "0123456789abcdef"@[n] as u8 || byte == "0123456789ABCDEF"@[n] as u8 <==> hex_value(
            byte,
        ) == Some(n),
        hex_value(byte) matches Some(v) ==> 0 <= v < 16,
{
    reveal_strlit("0123456789abcdef");
    reveal_strlit("0123456789ABCDEF");
}

proof fn lemma_hex_run(digits: Seq<u8>)
    ensures
        hex_run(digits) <= digits.len(),
        forall|i: int| 0 <= i < hex_run(digits) ==> hex_value(#[trigger] digits[i]) is Some,
        hex_run(digits) < digits.len() ==> hex_value(digits[hex_run(digits) as int]) is None,
    decreases digits.len(),
{
    if digits.len() > 0 && hex_value(digits[0]) is Some {
        let rest = digits.drop_first();
        lemma_hex_run(rest);
        assert forall|i: int| 0 <= i < hex_run(digits) implies hex_value(
            #[trigger] digits[i],
        ) is Some by {
            if i > 0 {
                assert(digits[i] == rest[i - 1]);
            }
        }
        if hex_run(rest) < rest.len() {
            assert(digits[hex_run(digits) as int] == rest[hex_run(rest) as int]);
        }
    }
}

/// What a decoded text says of its digits: an odd length is refused as such and only it; a
/// character is refused that is no digit and has only digits before it; and the bytes of a text
/// that is not refused have the values of its digits.
pub proof fn decoding_reads_the_digits(text: Seq<u8>)
    requires
        text.len() <= usize::MAX,
    ensures
        text.len() % 2 != 0 <==> hex_decoded(text) == Err::<Seq<u8>, HexError>(HexError::OddLength),
        hex_decoded(text) != Err::<Seq<u8>, HexError>(HexError::InvalidStringLength),
        hex_decoded(text) matches Err(HexError::InvalidHexCharacter { c, index }) ==> {
            &&& index < strip_hex_prefix(text).len()
            &&& c == strip_hex_prefix(text)[index as int] as char
            &&& hex_value(strip_hex_prefix(text)[index as int]) is None
            &&& forall|i: int|
                0 <= i < index ==> hex_value(#[trigger] strip_hex_prefix(text)[i]) is Some
        },
        hex_decoded(text) matches Ok(bytes) ==> {
            &&& 2 * bytes.len() == strip_hex_prefix(text).len()
            &&& forall|i: int|
                0 <= i < bytes.len() ==> {
                    &&& hex_value(strip_hex_prefix(text)[2 * i]) == Some(
                        #[trigger] bytes[i] as int / 16,
                    )
                    &&& hex_value(strip_hex_prefix(text)[2 * i + 1]) == Some(bytes[i] as int % 16)
                }
        },
{
    let digits = strip_hex_prefix(text);
    lemma_hex_run(digits);
    if let Ok(bytes) = hex_decoded(text) {
        assert forall|i: int| 0 <= i < bytes.len() implies hex_value(digits[2 * i]) == Some(
            #[trigger] bytes[i] as int / 16,
        ) && hex_value(digits[2 * i + 1]) == Some(bytes[i] as int % 16) by {
            assert(hex_value(digits[2 * i]) is Some);
            assert(hex_value(digits[2 * i + 1]) is Some);
            let high = hex_value(digits[2 * i])->0;
            let low = hex_value(digits[2 * i + 1])->0;
            assert(0 <= high < 16 && 0 <= low < 16);
            assert(bytes[i] == high * 16 + low);
        }
    }
}

/// A prefix `0x` or `0X` changes nothing, except before digits that have one themselves, and
/// nothing else is passed over.
pub proof fn decoding_ignores_one_prefix(text: Seq<u8>)
    requires
        text.len() < 2 || text[0] != '0' as u8 || (text[1] != 'x' as u8 && text[1] != 'X' as u8),
    ensures
        strip_hex_prefix(text) == text,
        hex_decoded(seq!['0' as u8, 'x' as u8] + text) == hex_decoded(text),
        hex_decoded(seq!['0' as u8, 'X' as u8] + text) == hex_decoded(text),
{
    let low = seq!['0' as u8, 'x' as u8] + text;
    let high = seq!['0' as u8, 'X' as u8] + text;
    assert(low.skip(2) =~= text);
    assert(high.skip(2) =~= text);
}

} // verus!
