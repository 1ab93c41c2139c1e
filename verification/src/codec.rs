//! Encodings: hexadecimal digits, ASCII text, UTF-8 and base64.

use vstd::prelude::*;
use vstd::utf8::*;

verus! {

/// The ASCII code of the lower-case hexadecimal digit for `n`, `0 <= n < 16`.
pub open spec fn hex_digit(n: int) -> u8 {
    if n < 10 {
        (48 + n) as u8
    } else {
        (87 + n) as u8
    }
}

/// Two lower-case hexadecimal digits for each byte, the high half first.
pub open spec fn hex_of(bytes: Seq<u8>) -> Seq<u8> {
    Seq::new(
        2 * bytes.len(),
        |i: int|
            if i % 2 == 0 {
                hex_digit(bytes[i / 2] as int / 16)
            } else {
                hex_digit(bytes[i / 2] as int % 16)
            },
    )
}

/// Every byte is below 128.
pub open spec fn is_ascii_bytes(bytes: Seq<u8>) -> bool {
    forall|i: int| 0 <= i < bytes.len() ==> #[trigger] bytes[i] < 128
}

/// The characters that ASCII bytes stand for.
pub open spec fn ascii_chars(bytes: Seq<u8>) -> Seq<char> {
    Seq::new(bytes.len(), |i: int| bytes[i] as char)
}

/// `bytes` without the line feeds and carriage returns.
pub open spec fn without_line_breaks(bytes: Seq<u8>) -> Seq<u8> {
    bytes.filter(|b: u8| b != 10 && b != 13)
}

/// ASCII bytes are the UTF-8 encoding of the characters they stand for.
pub proof fn lemma_ascii_is_utf8(bytes: Seq<u8>)
    requires
        is_ascii_bytes(bytes),
    ensures
        encode_utf8(ascii_chars(bytes)) == bytes,
        valid_utf8(bytes),
        decode_utf8(bytes) == ascii_chars(bytes),
{
    let chars = ascii_chars(bytes);
    is_ascii_chars_encode_utf8(chars);
    encode_utf8_valid_utf8(chars);
    encode_utf8_decode_utf8(chars);
}

/// Hexadecimal digits are ASCII.
pub proof fn lemma_hex_is_ascii(bytes: Seq<u8>)
    ensures
        is_ascii_bytes(hex_of(bytes)),
        hex_of(bytes).len() == 2 * bytes.len(),
{
}

fn hex_digit_of(n: u8) -> (d: u8)
    requires
        n < 16,
    ensures
        d == hex_digit(n as int),
{
    if n < 10 {
        48 + n
    } else {
        87 + n
    }
}

/// Writes `bytes` in lower-case hexadecimal digits.
pub fn hex_encode(bytes: &[u8]) -> (out: Vec<u8>)
    ensures
        out@ == hex_of(bytes@),
{
    let n = bytes.len();
    let mut out: Vec<u8> = Vec::new();
    let mut i: usize = 0;
    while i < n
        invariant
            n == bytes@.len(),
            i <= n,
            out@.len() == 2 * i,
            forall|k: int| 0 <= k < out@.len() ==> out@[k] == hex_of(bytes@)[k],
        decreases n - i,
    {
        let b = bytes[i];
        out.push(hex_digit_of(b / 16));
        out.push(hex_digit_of(b % 16));
        i += 1;
    }
    out
}

/// Copies `bytes`, leaving out line feeds and carriage returns.
pub fn strip_line_breaks(bytes: &[u8]) -> (out: Vec<u8>)
    ensures
        out@ == without_line_breaks(bytes@),
{
    let n = bytes.len();
    let ghost keep = |b: u8| b != 10 && b != 13;
    let mut out: Vec<u8> = Vec::new();
    let mut i: usize = 0;
    proof {
        reveal(Seq::filter);
    }
    while i < n
        invariant
            n == bytes@.len(),
            i <= n,
            keep == (|b: u8| b != 10 && b != 13),
            out@ == bytes@.take(i as int).filter(keep),
        decreases n - i,
    {
        let b = bytes[i];
        proof {
            reveal(Seq::filter);
            assert(bytes@.take(i + 1).drop_last() =~= bytes@.take(i as int));
        }
        if b != 10 && b != 13 {
            out.push(b);
        }
        i += 1;
    }
    assert(bytes@.take(n as int) =~= bytes@);
    out
}

/// What the standard base64 alphabet with padding decodes `input` to; `None`
/// where `input` is no canonical base64 text.
pub uninterp spec fn base64_decoded(input: Seq<u8>) -> Option<Seq<u8>>;

/// The error of the crate `base64` for text that cannot be decoded, carried
/// as it is.
#[verifier::external_type_specification]
#[verifier::external_body]
pub struct ExDecodeError(base64::DecodeError);

/// The error of std for bytes that are no UTF-8, carried as it is.
#[verifier::external_type_specification]
#[verifier::external_body]
pub struct ExFromUtf8Error(std::string::FromUtf8Error);

/// Calls `Engine::decode` of the crate `base64` on its `STANDARD` engine.
///
/// Trusted: the call depends on `input` alone, so its outcome has a name,
/// `base64_decoded`; `Ok` carries the decoded bytes and `Err` stands for
/// `None`.
#[verifier::external_body]
pub(crate) fn base64_decode(input: &[u8]) -> (r: core::result::Result<Vec<u8>, base64::DecodeError>)
    ensures
        match r {
            Ok(bytes) => base64_decoded(input@) == Some(bytes@),
            Err(_) => base64_decoded(input@) is None,
        },
{
    base64::Engine::decode(&base64::engine::general_purpose::STANDARD, input)
}

/// Renders a `base64::DecodeError` through its `Display` impl.
///
/// Trusted: nothing is claimed of the text.
#[verifier::external_body]
pub(crate) fn decode_error_text(e: &base64::DecodeError) -> (text: String) {
    e.to_string()
}

/// Calls `String::from_utf8` of std.
///
/// Trusted: the call succeeds exactly on well-formed UTF-8, and the string
/// that it returns is made of the bytes that it was given.
#[verifier::external_body]
pub(crate) fn string_from_utf8(bytes: Vec<u8>) -> (r: core::result::Result<
    String,
    std::string::FromUtf8Error,
>)
    ensures
        r is Ok <==> valid_utf8(bytes@),
        r matches Ok(s) ==> encode_utf8(s@) == bytes@,
{
    String::from_utf8(bytes)
}

/// Renders a `FromUtf8Error` of std through its `Display` impl.
///
/// Trusted: nothing is claimed of the text.
#[verifier::external_body]
pub(crate) fn utf8_error_text(e: &std::string::FromUtf8Error) -> (text: String) {
    e.to_string()
}

/// The text that well-formed UTF-8 `bytes` encode; `None` where they are
/// malformed.
pub fn text_from_utf8(bytes: Vec<u8>) -> (r: Option<String>)
    ensures
        r is Some <==> valid_utf8(bytes@),
        r matches Some(s) ==> s@ == decode_utf8(bytes@),
{
    match string_from_utf8(bytes) {
        Ok(s) => {
            proof {
                encode_utf8_decode_utf8(s@);
            }
            Some(s)
        },
        Err(_) => None,
    }
}

} // verus!
