//! Bytes as text: hexadecimal, base64, UTF-8, and the SHA-256 digest.

use base64::Engine;
use vstd::prelude::*;
use vstd::utf8::{decode_utf8, valid_utf8};

verus! {

/// The lower-case character of a hexadecimal digit.
pub open spec fn hex_digit(n: int) -> char {
    if n < 10 {
        ('0' as int + n) as char
    } else {
        ('a' as int + n - 10) as char
    }
}

/// Bytes in lower-case hexadecimal, two digits for each, the high one first.
pub open spec fn lower_hex(bytes: Seq<u8>) -> Seq<char> {
    Seq::new(
        2 * bytes.len(),
        |i: int|
            if i % 2 == 0 {
                hex_digit(bytes[i / 2] as int / 16)
            } else {
                hex_digit(bytes[i / 2] as int % 16)
            },
    )
}

/// The number that a hexadecimal digit of either case stands for.
pub open spec fn hex_value(c: char) -> Option<int> {
    if '0' <= c <= '9' {
        Some(c as int - '0' as int)
    } else if 'a' <= c <= 'f' {
        Some(c as int - 'a' as int + 10)
    } else if 'A' <= c <= 'F' {
        Some(c as int - 'A' as int + 10)
    } else {
        None
    }
}

/// Whether a text is hexadecimal: digits only, and an even number of them.
pub open spec fn is_hex(text: Seq<char>) -> bool {
    text.len() % 2 == 0 && forall|i: int|
        0 <= i < text.len() ==> hex_value(#[trigger] text[i]) is Some
}

/// The bytes that a hexadecimal text stands for.
pub open spec fn hex_bytes(text: Seq<char>) -> Option<Seq<u8>> {
    if is_hex(text) {
        Some(
            Seq::new(
                text.len() / 2,
                |i: int| (hex_value(text[2 * i])->0 * 16 + hex_value(text[2 * i + 1])->0) as u8,
            ),
        )
    } else {
        None
    }
}

/// Bytes written in hexadecimal are read back as they were.
pub proof fn law_hex_round_trip(bytes: Seq<u8>)
    ensures
        hex_bytes(lower_hex(bytes)) == Some(bytes),
{
    let text = lower_hex(bytes);
    assert forall|i: int| 0 <= i < text.len() implies hex_value(#[trigger] text[i]) is Some by {
        let b = bytes[i / 2];
        assert(0 <= b as int / 16 < 16);
    }
    assert(text.len() % 2 == 0);
    let back = hex_bytes(text)->0;
    assert forall|i: int| 0 <= i < bytes.len() implies back[i] == bytes[i] by {
        let b = bytes[i];
        assert((2 * i) / 2 == i && (2 * i + 1) / 2 == i);
        assert((2 * i) % 2 == 0 && (2 * i + 1) % 2 == 1);
        assert(text[2 * i] == hex_digit(b as int / 16));
        assert(text[2 * i + 1] == hex_digit(b as int % 16));
        assert(hex_value(hex_digit(b as int / 16)) == Some(b as int / 16));
        assert(hex_value(hex_digit(b as int % 16)) == Some(b as int % 16));
    }
    assert(back =~= bytes);
}

/// The text of the error that `hex::decode` gives for a text that is not hexadecimal.
pub uninterp spec fn hex_error(text: Seq<char>) -> Seq<char>;

/// What the standard base64 engine writes for some bytes.
pub uninterp spec fn base64_text(bytes: Seq<u8>) -> Seq<char>;

/// What the standard base64 engine reads from a text: bytes, or the text of the error.
pub uninterp spec fn base64_bytes(text: Seq<char>) -> Result<Seq<u8>, Seq<char>>;

/// The text of the error that `String::from_utf8` gives for bytes that are not UTF-8.
pub uninterp spec fn utf8_error(bytes: Seq<u8>) -> Seq<char>;

/// The SHA-256 digest of some bytes.
pub uninterp spec fn sha256_digest(bytes: Seq<u8>) -> Seq<u8>;

/// Whether a text is read as these bytes by the standard base64 engine.
pub open spec fn decodes_as(text: Seq<char>, bytes: Seq<u8>) -> bool {
    base64_bytes(text) matches Ok(found) && found == bytes
}

/// `bitcoin::hex::DisplayHex::to_lower_hex_string`: bytes in lower-case hexadecimal.
#[verifier::external_body]
pub(crate) fn hex_text(bytes: &[u8]) -> (r: String)
    ensures
        r@ == lower_hex(bytes@),
{
    bitcoin::hex::DisplayHex::to_lower_hex_string(bytes)
}

/// `hex::encode`: bytes in lower-case hexadecimal.
#[verifier::external_body]
pub(crate) fn hex_encode(bytes: &[u8]) -> (r: String)
    ensures
        r@ == lower_hex(bytes@),
{
    hex::encode(bytes)
}

/// `hex::decode`: the bytes of a hexadecimal text of either case. Any other text is refused;
/// the text of that error is given the name `hex_error`.
#[verifier::external_body]
pub(crate) fn hex_decode(text: &str) -> (r: Result<Vec<u8>, String>)
    ensures
        match r {
            Ok(bytes) => hex_bytes(text@) == Some(bytes@),
            Err(e) => hex_bytes(text@) is None && e@ == hex_error(text@),
        },
{
    hex::decode(text).map_err(|e| e.to_string())
}

/// `base64::engine::general_purpose::STANDARD.encode`: what is written is given the name
/// `base64_text`, and reading it gives the bytes back.
#[verifier::external_body]
pub(crate) fn base64_encode(bytes: &[u8]) -> (r: String)
    ensures
        r@ == base64_text(bytes@),
        decodes_as(r@, bytes@),
{
    base64::engine::general_purpose::STANDARD.encode(bytes)
}

/// `base64::engine::general_purpose::STANDARD.decode`: what is read, or the text of the error,
/// is given the name `base64_bytes`.
#[verifier::external_body]
pub(crate) fn base64_decode(text: &str) -> (r: Result<Vec<u8>, String>)
    ensures
        match r {
            Ok(bytes) => base64_bytes(text@) == Ok::<_, Seq<char>>(bytes@),
            Err(e) => base64_bytes(text@) == Err::<Seq<u8>, _>(e@),
        },
{
    base64::engine::general_purpose::STANDARD.decode(text).map_err(|e| e.to_string())
}

/// `String::from_utf8`: the text of bytes that are UTF-8. Any other bytes are refused; the text
/// of that error is given the name `utf8_error`.
#[verifier::external_body]
pub(crate) fn utf8_text(bytes: Vec<u8>) -> (r: Result<String, String>)
    ensures
        match r {
            Ok(text) => valid_utf8(bytes@) && text@ == decode_utf8(bytes@),
            Err(e) => !valid_utf8(bytes@) && e@ == utf8_error(bytes@),
        },
{
    String::from_utf8(bytes).map_err(|e| e.to_string())
}

/// `bitcoin::hashes::sha256::Hash::hash`: the 32 bytes of the digest, which is given the name
/// `sha256_digest`.
#[verifier::external_body]
pub(crate) fn sha256(bytes: &[u8]) -> (r: [u8; 32])
    ensures
        r@ == sha256_digest(bytes@),
{
    bitcoin::hashes::Hash::to_byte_array(
        <bitcoin::hashes::sha256::Hash as bitcoin::hashes::Hash>::hash(bytes),
    )
}

/// Each byte is written as two digits, the high half first, in lower case. Bytes behind others are
/// written behind them.
pub proof fn law_hex_digits(a: Seq<u8>, b: Seq<u8>, byte: u8)
    ensures
        lower_hex(a + b) == lower_hex(a) + lower_hex(b),
        lower_hex(Seq::empty()).len() == 0,
        lower_hex(seq![byte]).len() == 2,
        ({
            let digits = seq![
                '0',
                '1',
                '2',
                '3',
                '4',
                '5',
                '6',
                '7',
                '8',
                '9',
                'a',
                'b',
                'c',
                'd',
                'e',
                'f',
            ];
            &&& lower_hex(seq![byte])[0] == digits[byte as int / 16]
            &&& lower_hex(seq![byte])[1] == digits[byte as int % 16]
        }),
{
    assert(lower_hex(a + b) =~= lower_hex(a) + lower_hex(b));
    assert(0 <= byte as int / 16 < 16);
}

/// A text is read as bytes if and only if it has an even number of characters, all of them digits of
/// either case; the two cases are read as the same.
pub proof fn law_hex_read(text: Seq<char>, upper: char, lower: char)
    requires
        'A' <= upper <= 'F',
        lower as int == upper as int + 32,
    ensures
        hex_bytes(text) is Some <==> text.len() % 2 == 0 && forall|i: int|
            0 <= i < text.len() ==> ('0' <= #[trigger] text[i] <= '9' || 'a' <= text[i] <= 'f' || 'A'
                <= text[i] <= 'F'),
        hex_bytes(text) matches Some(bytes) ==> 2 * bytes.len() == text.len(),
        hex_value(upper) == hex_value(lower),
{
    if hex_bytes(text) is Some {
        assert forall|i: int| 0 <= i < text.len() implies ('0' <= #[trigger] text[i] <= '9' || 'a'
            <= text[i] <= 'f' || 'A' <= text[i] <= 'F') by {
            assert(hex_value(text[i]) is Some);
        }
    }
}

} // verus!
