//! The descriptive messages under which failures are reported.
//!
//! Each message names the offending path and the underlying cause.

use vstd::prelude::*;

verus! {

/// The message for a file that exists and could not be read.
pub open spec fn read_failure_text(path: Seq<char>, cause: Seq<char>) -> Seq<char> {
    "Unable to read "@ + path + ": "@ + cause
}

/// The message for a file whose content is not a value of the wanted type.
pub open spec fn parse_failure_text(path: Seq<char>, cause: Seq<char>) -> Seq<char> {
    "Unable to parse "@ + path + ": "@ + cause
}

/// The message for a value that could not be turned into the text of its
/// file.
pub open spec fn serialize_failure_text(path: Seq<char>, cause: Seq<char>) -> Seq<char> {
    "Failed serializing value for "@ + path + ": "@ + cause
}

/// The message for content that could not be written to its file.
pub open spec fn write_failure_text(path: Seq<char>, cause: Seq<char>) -> Seq<char> {
    "Failed writing content to "@ + path + ": "@ + cause
}

/// Builds the message for an unreadable file.
pub fn read_failure(path: &str, cause: &str) -> (message: String)
    ensures
        message@ == read_failure_text(path@, cause@),
{
    String::from_str("Unable to read ").concat(path).concat(": ").concat(cause)
}

/// Builds the message for content that does not parse.
pub fn parse_failure(path: &str, cause: &str) -> (message: String)
    ensures
        message@ == parse_failure_text(path@, cause@),
{
    String::from_str("Unable to parse ").concat(path).concat(": ").concat(cause)
}

/// Builds the message for a value that does not serialize.
pub fn serialize_failure(path: &str, cause: &str) -> (message: String)
    ensures
        message@ == serialize_failure_text(path@, cause@),
{
    String::from_str("Failed serializing value for ").concat(path).concat(": ").concat(cause)
}

/// Builds the message for a failed write.
pub fn write_failure(path: &str, cause: &str) -> (message: String)
    ensures
        message@ == write_failure_text(path@, cause@),
{
    String::from_str("Failed writing content to ").concat(path).concat(": ").concat(cause)
}

} // verus!
