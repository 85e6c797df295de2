//! Turning a document's raw bytes into validated text.
use vstd::prelude::*;
use vstd::utf8::*;

verus! {

/// Why a document could not be loaded.
#[derive(Debug, PartialEq, Eq)]
pub enum LoadError {
    /// The path does not exist.
    NotFound,
    /// Reading the file failed; the message describes the failure.
    Io(String),
    /// The bytes hold a sequence that the guessed encoding cannot decode.
    Decode,
}

/// The name of the encoding that chardetng guesses for a complete buffer.
pub uninterp spec fn guessed_encoding(bytes: Seq<u8>) -> Seq<char>;

/// What encoding_rs's `decode` (with BOM sniffing) yields for a buffer under
/// the encoding with the given label: the text and whether any sequence was
/// malformed.
pub uninterp spec fn decoded_as(label: Seq<char>, bytes: Seq<u8>) -> (Seq<char>, bool);

pub open spec fn utf8_label() -> Seq<char> {
    "UTF-8"@
}

pub open spec fn is_ascii_only(bytes: Seq<u8>) -> bool {
    forall|i: int| 0 <= i < bytes.len() ==> bytes[i] < 0x80
}

pub open spec fn has_escape_byte(bytes: Seq<u8>) -> bool {
    exists|i: int| 0 <= i < bytes.len() && bytes[i] == 0x1B
}

pub open spec fn starts_with_utf8_bom(bytes: Seq<u8>) -> bool {
    bytes.len() >= 3 && bytes[0] == 0xEF && bytes[1] == 0xBB && bytes[2] == 0xBF
}

/// Relies on chardetng's `EncodingDetector`: fed the whole buffer as the
/// complete stream, then asked to `guess` with no top-level domain and UTF-8
/// allowed. Its source returns UTF-8 for valid UTF-8 unless the input is
/// ASCII-only and holds an escape byte (then ISO-2022-JP may be guessed).
#[verifier::external_body]
fn detect_encoding(buffer: &[u8]) -> (r: String)
    ensures
        r@ == guessed_encoding(buffer@),
        valid_utf8(buffer@) && !(is_ascii_only(buffer@) && has_escape_byte(buffer@)) ==> r@
            == utf8_label(),
{
    let mut detector = chardetng::EncodingDetector::new();
    detector.feed(buffer, true);
    detector.guess(None, true).name().to_string()
}

/// Relies on encoding_rs's `Encoding::decode`, on the encoding named by
/// `label`: BOM sniffing, then decoding with malformed sequences reported.
/// Valid UTF-8 without a leading BOM decodes under UTF-8 to itself, without
/// errors.
#[verifier::external_body]
fn decode_with(label: &str, bytes: &[u8]) -> (r: (String, bool))
    ensures
        r.0@ == decoded_as(label@, bytes@).0,
        r.1 == decoded_as(label@, bytes@).1,
        label@ == utf8_label() && valid_utf8(bytes@) && !starts_with_utf8_bom(bytes@) ==> r.0@
            == decode_utf8(bytes@) && !r.1,
{
    match encoding_rs::Encoding::for_label(label.as_bytes()) {
        Some(encoding) => {
            let (text, _, had_errors) = encoding.decode(bytes);
            (text.into_owned(), had_errors)
        },
        // Labels come from `Encoding::name`, which `for_label` always
        // recognises; an unknown one would have nothing to decode with and
        // is reported as undecodable.
        None => (String::new(), true),
    }
}

/// The loader's verdict on a decode: the text when no sequence was
/// malformed, a `Decode` error otherwise. Replacement characters never reach
/// the caller.
pub fn decode_outcome(text: String, had_errors: bool) -> (r: Result<String, LoadError>)
    ensures
        had_errors ==> r == Err::<String, LoadError>(LoadError::Decode),
        !had_errors ==> r == Ok::<String, LoadError>(text),
{
    if had_errors {
        Err(LoadError::Decode)
    } else {
        Ok(text)
    }
}

/// Detects the encoding of a whole document and decodes it.
pub fn decode_text(bytes: &[u8]) -> (r: Result<String, LoadError>)
    ensures
        ({
            let (text, had_errors) = decoded_as(guessed_encoding(bytes@), bytes@);
            &&& had_errors ==> r == Err::<String, LoadError>(LoadError::Decode)
            &&& !had_errors ==> r is Ok && r->Ok_0@ == text
        }),
        valid_utf8(bytes@) && !starts_with_utf8_bom(bytes@) && !(is_ascii_only(bytes@)
            && has_escape_byte(bytes@)) ==> r is Ok && r->Ok_0@ == decode_utf8(bytes@),
        guessed_encoding(bytes@) == utf8_label() && valid_utf8(bytes@) && !starts_with_utf8_bom(
            bytes@,
        ) ==> r is Ok && r->Ok_0@ == decode_utf8(bytes@),
{
    let label = detect_encoding(bytes);
    let (text, had_errors) = decode_with(label.as_str(), bytes);
    decode_outcome(text, had_errors)
}

} // verus!
