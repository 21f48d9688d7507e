//! Hexadecimal text for frames: the bare form, two digits per byte with the
//! high half first, which is read and written and matched against, and the
//! hex-editor style dump for display.

use vstd::prelude::*;
use vstd::string::StringSliceAdditionalSpecFns;

verus! {

/// The lowercase digit that stands for a value below sixteen.
pub open spec fn hex_digit(value: int) -> char {
    seq!['0', '1', '2', '3', '4', '5', '6', '7', '8', '9', 'a', 'b', 'c', 'd', 'e', 'f'][value]
}

/// The lowercase hex rendering of a frame: byte `k` fills positions `2k`
/// (high half) and `2k + 1` (low half), with nothing in between.
pub open spec fn lower_hex(bytes: Seq<u8>) -> Seq<char> {
    Seq::new(
        2 * bytes.len(),
        |i: int|
            if i % 2 == 0 {
                hex_digit(bytes[i / 2] as int / 16)
            } else {
                hex_digit(bytes[i / 2] as int % 16)
            },
    )
}

/// Renders a byte sequence as lowercase hex text.
///
/// Trusted: calls `hex::encode`, which maps every byte through the table
/// `0123456789abcdef`, high half first, and collects the digits in order.
#[verifier::external_body]
pub(crate) fn encode(bytes: &[u8]) -> (text: String)
    ensures
        text@ == lower_hex(bytes@),
{
    hex::encode(bytes)
}

/// The lowercase hex text of `frame`, the form that filters are matched
/// against and that raw output prints.
pub fn to_hex(frame: &[u8]) -> (text: String)
    ensures
        text@ == lower_hex(frame@),
        text@.len() == 2 * frame@.len(),
{
    encode(frame)
}

/// The hex-editor style dump of a frame, sixteen bytes to a row.
pub uninterp spec fn hex_view(bytes: Seq<u8>) -> Seq<char>;

/// Formats a frame as a hex dump.
///
/// Trusted: builds a `hexplay::HexViewBuilder` over the bytes with a row
/// width of sixteen and formats the finished view, without colours, into a
/// string. The text depends on the bytes alone; `hex_view` names it.
#[verifier::external_body]
pub(crate) fn dump(bytes: &[u8]) -> (text: String)
    ensures
        text@ == hex_view(bytes@),
{
    hexplay::HexViewBuilder::new(bytes).row_width(16).finish().to_string()
}

/// Why a token is not the hex text of a frame.
#[derive(Debug, Clone, Copy, PartialEq, Eq)]
pub enum DecodeError {
    /// The token has an odd number of bytes, so some byte has only one digit.
    OddLength,
    /// The byte at `index` is no hex digit; `c` is that byte read as a character.
    InvalidDigit { c: char, index: usize },
}

/// The value of one hex digit given as a text byte, in either case.
pub open spec fn digit_value(b: u8) -> Option<int> {
    if 0x30 <= b <= 0x39 {
        Some(b - 0x30)
    } else if 0x61 <= b <= 0x66 {
        Some(b - 0x61 + 10)
    } else if 0x41 <= b <= 0x46 {
        Some(b - 0x41 + 10)
    } else {
        None
    }
}

/// A token that decodes: an even number of bytes, every one a hex digit.
pub open spec fn is_hex_token(token: Seq<u8>) -> bool {
    &&& token.len() % 2 == 0
    &&& forall|i: int| 0 <= i < token.len() ==> (#[trigger] digit_value(token[i])) is Some
}

/// `index` is the first position of `token` that holds no hex digit.
pub open spec fn first_invalid(token: Seq<u8>, index: int) -> bool {
    &&& 0 <= index < token.len()
    &&& digit_value(token[index]) is None
    &&& forall|j: int| 0 <= j < index ==> (#[trigger] digit_value(token[j])) is Some
}

/// The frame that a hex token stands for: digits `2k` and `2k + 1` make byte `k`.
pub open spec fn decoded(token: Seq<u8>) -> Seq<u8> {
    Seq::new(
        token.len() / 2,
        |k: int|
            (16 * digit_value(token[2 * k]).unwrap() + digit_value(token[2 * k + 1]).unwrap()) as u8,
    )
}

/// What decoding a token yields: the frame, or the first fault in reading order.
pub open spec fn decodes_to(token: Seq<u8>, outcome: Result<Vec<u8>, DecodeError>) -> bool {
    match outcome {
        Ok(frame) => is_hex_token(token) && frame@ == decoded(token),
        Err(DecodeError::OddLength) => token.len() % 2 == 1,
        Err(DecodeError::InvalidDigit { c, index }) => {
            &&& token.len() % 2 == 0
            &&& first_invalid(token, index as int)
            &&& c == token[index as int] as char
        },
    }
}

/// Decodes hex text given as bytes.
///
/// Trusted: calls `hex::decode`, which refuses an odd length before reading
/// any digit, then reads the digits left to right, stops at the first byte
/// outside `0-9a-fA-F` and reports it with its position, and otherwise
/// returns one byte per pair, high half first. Its third error, a length
/// mismatch, is raised only for fixed-size outputs and shares the arm of
/// the odd length.
#[verifier::external_body]
pub(crate) fn decode(token: &[u8]) -> (outcome: Result<Vec<u8>, DecodeError>)
    ensures
        decodes_to(token@, outcome),
{
    match hex::decode(token) {
        Ok(frame) => Ok(frame),
        Err(hex::FromHexError::InvalidHexCharacter { c, index }) => {
            Err(DecodeError::InvalidDigit { c, index })
        },
        Err(hex::FromHexError::OddLength) | Err(hex::FromHexError::InvalidStringLength) => {
            Err(DecodeError::OddLength)
        },
    }
}

/// Decodes one unit of input, an argument or a line, into a frame.
///
/// The token is read as its UTF-8 bytes, so positions count bytes. Nothing
/// is trimmed and nothing is skipped: any byte that is no hex digit is an
/// error, as is an odd length.
pub fn decode_token(token: &str) -> (outcome: Result<Vec<u8>, DecodeError>)
    ensures
        decodes_to(token.spec_bytes(), outcome),
        outcome is Ok <==> is_hex_token(token.spec_bytes()),
{
    decode(token.as_bytes())
}

/// Every lowercase digit is one byte of text and reads back as its value.
pub proof fn lemma_digit_reads_back(value: int)
    requires
        0 <= value < 16,
    ensures
        '\0' <= hex_digit(value) <= '\u{7f}',
        digit_value(hex_digit(value) as u8) == Some(value),
{
    let digits = seq![
        '0',
        '1',
        '2',
        '3',
        '4',
        '5',
        '6',
        '7',
        '8',
        '9',
        'a',
        'b',
        'c',
        'd',
        'e',
        'f',
    ];
    assert(hex_digit(value) == digits[value]);
    if value < 4 {
        assert(digits[0] == '0' && digits[1] == '1' && digits[2] == '2' && digits[3] == '3');
    } else if value < 8 {
        assert(digits[4] == '4' && digits[5] == '5' && digits[6] == '6' && digits[7] == '7');
    } else if value < 12 {
        assert(digits[8] == '8' && digits[9] == '9' && digits[10] == 'a' && digits[11] == 'b');
    } else {
        assert(digits[12] == 'c' && digits[13] == 'd' && digits[14] == 'e' && digits[15] == 'f');
    }
}

/// Decoding inverts rendering: whatever text holds the lowercase hex of a
/// frame decodes, and decodes to that frame.
pub proof fn lemma_decode_inverts_to_hex(
    frame: Seq<u8>,
    text: &str,
    outcome: Result<Vec<u8>, DecodeError>,
)
    requires
        text@ == lower_hex(frame),
        decodes_to(text.spec_bytes(), outcome),
    ensures
        is_hex_token(text.spec_bytes()),
        decoded(text.spec_bytes()) == frame,
        outcome matches Ok(back) && back@ == frame,
{
    let chars = lower_hex(frame);
    let token = text.spec_bytes();
    assert forall|i: int| 0 <= i < chars.len() implies '\0' <= #[trigger] chars[i] <= '\u{7f}' by {
        lemma_digit_reads_back(frame[i / 2] as int / 16);
        lemma_digit_reads_back(frame[i / 2] as int % 16);
    }
    vstd::utf8::is_ascii_chars_encode_utf8(chars);
    assert forall|i: int| 0 <= i < token.len() implies (#[trigger] digit_value(token[i])) is Some by {
        lemma_digit_reads_back(frame[i / 2] as int / 16);
        lemma_digit_reads_back(frame[i / 2] as int % 16);
        assert(token[i] == chars[i] as u8);
    }
    assert(is_hex_token(token));
    assert forall|k: int| 0 <= k < frame.len() implies #[trigger] decoded(token)[k] == frame[k] by {
        lemma_digit_reads_back(frame[k] as int / 16);
        lemma_digit_reads_back(frame[k] as int % 16);
        assert(token[2 * k] == chars[2 * k] as u8);
        assert(token[2 * k + 1] == chars[2 * k + 1] as u8);
    }
    assert(decoded(token) =~= frame);
}

} // verus!
