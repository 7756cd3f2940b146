//! What the file server answers to a request for a file.

use vstd::prelude::*;
use vstd::string::StringExecFns;

verus! {

/// What was found at the path that a request asks for.
#[derive(Debug, Clone, PartialEq, Eq)]
pub enum FileProbe {
    /// Nothing is there.
    Missing,
    /// A file is there, and this is its text.
    Content(String),
    /// Something is there that could not be read as text; the value is the
    /// report of the failed read.
    Unreadable(String),
}

/// The status that answers a file that was read.
pub const STATUS_OK: u16 = 200;

/// The status that answers a path with nothing at it.
pub const STATUS_NOT_FOUND: u16 = 404;

/// The status that answers a file that could not be read.
pub const STATUS_INTERNAL_SERVER_ERROR: u16 = 500;

/// The status and the body that answer a request for `path`.
pub open spec fn response_of(path: Seq<char>, probe: FileProbe) -> (u16, Seq<char>) {
    match probe {
        FileProbe::Missing => (STATUS_NOT_FOUND, "File "@ + path + " not found"@),
        FileProbe::Content(text) => (STATUS_OK, text@),
        FileProbe::Unreadable(report) => (STATUS_INTERNAL_SERVER_ERROR, report@),
    }
}

/// Answers a request for the file at `path`, given what was found there:
/// the file's text with status 200; the report of a failed read with status
/// 500; and with status 404 the sentence that the file was not found.
pub fn file_response(path: &str, probe: &FileProbe) -> (response: (u16, String))
    ensures
        (response.0, response.1@) == response_of(path@, *probe),
{
    match probe {
        FileProbe::Missing => {
            let body = String::from_str("File ").concat(path).concat(" not found");
            (STATUS_NOT_FOUND, body)
        },
        FileProbe::Content(text) => (STATUS_OK, text.clone()),
        FileProbe::Unreadable(report) => (STATUS_INTERNAL_SERVER_ERROR, report.clone()),
    }
}

} // verus!
