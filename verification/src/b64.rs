//! Base64 in the standard and in the URL-safe alphabet, and the text form
//! of signatures.

use crate::error::CliError;
use crate::utils::str_eq;
use base64::Engine;
use vstd::prelude::*;

verus! {

/// Stands for `base64::DecodeError`, which says why a text is no base64.
#[verifier::external_type_specification]
#[verifier::external_body]
pub struct ExDecodeError(base64::DecodeError);

/// The base64 alphabets this library writes and reads.
#[derive(Debug, Clone, Copy, PartialEq, Eq, Structural)]
pub enum Base64Format {
    /// Letters, digits, `+` and `/`, padded with `=` to a multiple of four.
    Standard,
    /// Letters, digits, `-` and `_`, without padding.
    UrlSafe,
}

/// The format that `text` names, if it names one.
pub open spec fn named_base64_format(text: Seq<char>) -> Option<Base64Format> {
    if text == "standard"@ {
        Some(Base64Format::Standard)
    } else if text == "urlsafe"@ {
        Some(Base64Format::UrlSafe)
    } else {
        None
    }
}

impl Base64Format {
    /// Reads a format's name: `standard` or `urlsafe`, in exactly these
    /// letters. Any other text is refused as `InvalidFormat`.
    pub fn from_str(s: &str) -> (r: Result<Base64Format, CliError>)
        ensures
            match named_base64_format(s@) {
                Some(format) => r == Ok::<Base64Format, CliError>(format),
                None => r == Err::<Base64Format, CliError>(CliError::InvalidFormat),
            },
    {
        if str_eq(s, "standard") {
            Ok(Base64Format::Standard)
        } else if str_eq(s, "urlsafe") {
            Ok(Base64Format::UrlSafe)
        } else {
            Err(CliError::InvalidFormat)
        }
    }
}

impl From<Base64Format> for &'static str {
    /// The format's name, as `Base64Format::from_str` reads it.
    fn from(value: Base64Format) -> (name: Self) {
        match value {
            Base64Format::Standard => "standard",
            Base64Format::UrlSafe => "urlsafe",
        }
    }
}

impl vstd::std_specs::convert::FromSpecImpl<Base64Format> for &'static str {
    open spec fn obeys_from_spec() -> bool {
        true
    }

    open spec fn from_spec(value: Base64Format) -> Self {
        match value {
            Base64Format::Standard => "standard",
            Base64Format::UrlSafe => "urlsafe",
        }
    }
}

/// The standard base64 text of `bytes`, padded.
pub uninterp spec fn standard_text(bytes: Seq<u8>) -> Seq<char>;

/// The URL-safe base64 text of `bytes`, without padding.
pub uninterp spec fn url_safe_text(bytes: Seq<u8>) -> Seq<char>;

/// The bytes that the padded standard base64 text `text` stands for, if it
/// is such a text.
pub uninterp spec fn standard_bytes(text: Seq<char>) -> Option<Seq<u8>>;

/// The bytes that the unpadded URL-safe base64 text `text` stands for, if it
/// is such a text.
pub uninterp spec fn url_safe_bytes(text: Seq<char>) -> Option<Seq<u8>>;

/// A letter or a digit of the ASCII range.
pub open spec fn is_ascii_alphanumeric(c: char) -> bool {
    ('A' <= c && c <= 'Z') || ('a' <= c && c <= 'z') || ('0' <= c && c <= '9')
}

/// A character that standard base64 text may hold: a symbol of its alphabet
/// or the padding sign.
pub open spec fn is_standard_char(c: char) -> bool {
    is_ascii_alphanumeric(c) || c == '+' || c == '/' || c == '='
}

/// A symbol of the URL-safe base64 alphabet.
pub open spec fn is_url_safe_char(c: char) -> bool {
    is_ascii_alphanumeric(c) || c == '-' || c == '_'
}

/// Every character of `text` is one that standard base64 may hold.
pub open spec fn is_standard_string(text: Seq<char>) -> bool {
    forall|i: int| 0 <= i < text.len() ==> is_standard_char(#[trigger] text[i])
}

/// Every character of `text` is a symbol of the URL-safe alphabet.
pub open spec fn is_url_safe_string(text: Seq<char>) -> bool {
    forall|i: int| 0 <= i < text.len() ==> is_url_safe_char(#[trigger] text[i])
}

/// The number of characters in the padded base64 text of `n` bytes: four
/// for every three bytes or part of three.
pub open spec fn padded_len(n: nat) -> nat {
    (n + 2) / 3 * 4
}

/// The number of characters in the unpadded base64 text of `n` bytes: four
/// for every three bytes, then two for one byte left over or three for two.
pub open spec fn unpadded_len(n: nat) -> nat {
    n / 3 * 4 + if n % 3 == 0 {
        0nat
    } else {
        n % 3 + 1
    }
}

/// Calls `base64::Engine::encode` on `base64::engine::general_purpose::STANDARD`.
///
/// The contract claims that the text is a function of the bytes, that it
/// holds only symbols of the standard alphabet and `=`, and that its length
/// is what `base64::encoded_len` computes with padding.
#[verifier::external_body]
fn encode_standard(bytes: &[u8]) -> (text: String)
    ensures
        text@ == standard_text(bytes@),
        is_standard_string(text@),
        text@.len() == padded_len(bytes@.len()),
{
    base64::engine::general_purpose::STANDARD.encode(bytes)
}

/// Calls `base64::Engine::encode` on
/// `base64::engine::general_purpose::URL_SAFE_NO_PAD`.
///
/// The contract claims that the text is a function of the bytes, that it
/// holds only symbols of the URL-safe alphabet, and that its length is what
/// `base64::encoded_len` computes without padding.
#[verifier::external_body]
fn encode_url_safe(bytes: &[u8]) -> (text: String)
    ensures
        text@ == url_safe_text(bytes@),
        is_url_safe_string(text@),
        text@.len() == unpadded_len(bytes@.len()),
{
    base64::engine::general_purpose::URL_SAFE_NO_PAD.encode(bytes)
}

/// Calls `base64::Engine::decode` on `base64::engine::general_purpose::STANDARD`.
///
/// The contract claims that the outcome is a function of the text, that a
/// text which `encode_standard` gives for some bytes decodes to those bytes,
/// and that a text with a character outside the standard alphabet and `=`
/// is refused.
#[verifier::external_body]
fn decode_standard(text: &str) -> (r: Result<Vec<u8>, base64::DecodeError>)
    ensures
        r matches Ok(bytes) ==> standard_bytes(text@) == Some(bytes@),
        r is Err ==> standard_bytes(text@) is None,
        forall|bytes: Seq<u8>| (#[trigger] standard_text(bytes)) == text@ ==> r is Ok && r->Ok_0@ == bytes,
        r is Ok ==> is_standard_string(text@),
{
    base64::engine::general_purpose::STANDARD.decode(text)
}

/// Calls `base64::Engine::decode` on
/// `base64::engine::general_purpose::URL_SAFE_NO_PAD`.
///
/// The contract claims that the outcome is a function of the text, that a
/// text which `encode_url_safe` gives for some bytes decodes to those bytes,
/// and that a text with a character outside the URL-safe alphabet is
/// refused.
#[verifier::external_body]
fn decode_url_safe(text: &str) -> (r: Result<Vec<u8>, base64::DecodeError>)
    ensures
        r matches Ok(bytes) ==> url_safe_bytes(text@) == Some(bytes@),
        r is Err ==> url_safe_bytes(text@) is None,
        forall|bytes: Seq<u8>| (#[trigger] url_safe_text(bytes)) == text@ ==> r is Ok && r->Ok_0@ == bytes,
        r is Ok ==> is_url_safe_string(text@),
{
    base64::engine::general_purpose::URL_SAFE_NO_PAD.decode(text)
}

/// Whether `c` is white space: the Unicode property `White_Space`, as
/// `char::is_whitespace` decides it.
pub uninterp spec fn is_white_space(c: char) -> bool;

/// `text` without the white space at its start.
pub open spec fn trim_start(text: Seq<char>) -> Seq<char>
    decreases text.len(),
{
    if text.len() > 0 && is_white_space(text.first()) {
        trim_start(text.drop_first())
    } else {
        text
    }
}

/// `text` without the white space at its end.
pub open spec fn trim_end(text: Seq<char>) -> Seq<char>
    decreases text.len(),
{
    if text.len() > 0 && is_white_space(text.last()) {
        trim_end(text.drop_last())
    } else {
        text
    }
}

/// `text` without the white space at its start and at its end.
pub open spec fn trimmed(text: Seq<char>) -> Seq<char> {
    trim_end(trim_start(text))
}

/// Calls `str::trim`, which returns the text between the leading and the
/// trailing white space. The contract says so, with `char::is_whitespace`
/// left as a name.
#[verifier::external_body]
fn trim(text: &str) -> (inner: &str)
    ensures
        inner@ == trimmed(text@),
        inner@.len() > 0 ==> !is_white_space(inner@.first()) && !is_white_space(inner@.last()),
{
    text.trim()
}

/// The base64 text of `bytes` in the given format.
pub open spec fn encoded(format: Base64Format, bytes: Seq<u8>) -> Seq<char> {
    match format {
        Base64Format::Standard => standard_text(bytes),
        Base64Format::UrlSafe => url_safe_text(bytes),
    }
}

/// The bytes that `text` stands for in the given format, if it is base64
/// text of that format.
pub open spec fn decoded(format: Base64Format, text: Seq<char>) -> Option<Seq<u8>> {
    match format {
        Base64Format::Standard => standard_bytes(text),
        Base64Format::UrlSafe => url_safe_bytes(text),
    }
}

/// Every character of `text` is one that base64 text of the given format
/// may hold.
pub open spec fn is_base64_string(format: Base64Format, text: Seq<char>) -> bool {
    match format {
        Base64Format::Standard => is_standard_string(text),
        Base64Format::UrlSafe => is_url_safe_string(text),
    }
}

/// The number of characters in the base64 text of `n` bytes in the given
/// format.
pub open spec fn encoded_len(format: Base64Format, n: nat) -> nat {
    match format {
        Base64Format::Standard => padded_len(n),
        Base64Format::UrlSafe => unpadded_len(n),
    }
}

/// Encodes the content as base64 text in the given format.
pub fn process_encode(content: &[u8], format: Base64Format) -> (text: String)
    ensures
        text@ == encoded(format, content@),
        is_base64_string(format, text@),
        text@.len() == encoded_len(format, content@.len()),
{
    match format {
        Base64Format::Standard => encode_standard(content),
        Base64Format::UrlSafe => encode_url_safe(content),
    }
}

/// Decodes base64 text in the given format, after the white space around it
/// is taken off.
///
/// Succeeds exactly on base64 text of the format. What `process_encode`
/// gives for some bytes decodes to those bytes; text with a character from
/// outside the format's alphabet is refused.
pub fn process_decode(text: &str, format: Base64Format) -> (r: Result<Vec<u8>, CliError>)
    ensures
        match decoded(format, trimmed(text@)) {
            Some(bytes) => r is Ok && r->Ok_0@ == bytes,
            None => r == Err::<Vec<u8>, CliError>(CliError::InvalidBase64),
        },
        forall|bytes: Seq<u8>|
            (#[trigger] encoded(format, bytes)) == trimmed(text@) ==> r is Ok && r->Ok_0@ == bytes,
        !is_base64_string(format, trimmed(text@)) ==> r == Err::<Vec<u8>, CliError>(
            CliError::InvalidBase64,
        ),
{
    let inner = trim(text);
    let decoded = match format {
        Base64Format::Standard => decode_standard(inner),
        Base64Format::UrlSafe => decode_url_safe(inner),
    };
    match decoded {
        Ok(bytes) => Ok(bytes),
        Err(_) => Err(CliError::InvalidBase64),
    }
}

/// The text form of a signature: URL-safe base64 without padding, so that
/// it can stand in a command line, a file name or a URL as it is.
pub fn encode_signature(signature: &[u8]) -> (token: String)
    ensures
        token@ == url_safe_text(signature@),
        is_url_safe_string(token@),
        token@.len() == unpadded_len(signature@.len()),
{
    encode_url_safe(signature)
}

/// Reads the text form of a signature back into bytes.
///
/// Succeeds exactly on URL-safe base64 text without padding. What
/// `encode_signature` gives for some bytes decodes to those bytes; text
/// with a character from outside the URL-safe alphabet is refused as
/// `MalformedSignatureText`, which is the only error.
pub fn decode_signature(token: &str) -> (r: Result<Vec<u8>, CliError>)
    ensures
        match url_safe_bytes(token@) {
            Some(bytes) => r is Ok && r->Ok_0@ == bytes,
            None => r == Err::<Vec<u8>, CliError>(CliError::MalformedSignatureText),
        },
        forall|bytes: Seq<u8>|
            (#[trigger] url_safe_text(bytes)) == token@ ==> r is Ok && r->Ok_0@ == bytes,
        !is_url_safe_string(token@) ==> r == Err::<Vec<u8>, CliError>(
            CliError::MalformedSignatureText,
        ),
{
    match decode_url_safe(token) {
        Ok(bytes) => Ok(bytes),
        Err(_) => Err(CliError::MalformedSignatureText),
    }
}

} // verus!
