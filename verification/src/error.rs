use vstd::prelude::*;
use vstd::string::StringExecFns;

verus! {

/// Why an operation of this library failed.
///
/// A signature that is well formed but does not match is not an error: the
/// verifying functions report it as `Ok(false)`.
#[derive(Debug, Clone, PartialEq, Eq)]
pub enum CliError {
    /// The text names no output or base64 format.
    InvalidFormat,
    /// The text names no signing scheme.
    UnknownScheme,
    /// The key does not have the length that the scheme fixes.
    InvalidKeyLength,
    /// The operating system's random source could not be read.
    RandomSourceUnavailable,
    /// The content source failed while it was read; the value is the
    /// source's own report.
    ContentReadError(String),
    /// The signature token is not URL-safe base64 without padding.
    MalformedSignatureText,
    /// The text is not base64 in the requested alphabet.
    InvalidBase64,
    /// The table could not be written in the requested format.
    SerializeError,
}

impl CliError {
    /// The text of `message`.
    pub open spec fn spec_message(&self) -> Seq<char> {
        match self {
            CliError::InvalidFormat => "Invalid format"@,
            CliError::UnknownScheme => "Unknown signing scheme"@,
            CliError::InvalidKeyLength => "Invalid key length"@,
            CliError::RandomSourceUnavailable => "Random source unavailable"@,
            CliError::ContentReadError(report) => report@,
            CliError::MalformedSignatureText => "Malformed signature text"@,
            CliError::InvalidBase64 => "Invalid base64 text"@,
            CliError::SerializeError => "Serialization failed"@,
        }
    }

    /// A line of text for the user. A content read failure is reported in
    /// the words of the source.
    pub fn message(&self) -> (text: String)
        ensures
            text@ == self.spec_message(),
    {
        match self {
            CliError::InvalidFormat => String::from_str("Invalid format"),
            CliError::UnknownScheme => String::from_str("Unknown signing scheme"),
            CliError::InvalidKeyLength => String::from_str("Invalid key length"),
            CliError::RandomSourceUnavailable => String::from_str("Random source unavailable"),
            CliError::ContentReadError(report) => report.clone(),
            CliError::MalformedSignatureText => String::from_str("Malformed signature text"),
            CliError::InvalidBase64 => String::from_str("Invalid base64 text"),
            CliError::SerializeError => String::from_str("Serialization failed"),
        }
    }
}

} // verus!
