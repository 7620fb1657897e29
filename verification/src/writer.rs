//! The serialization writer: persisting a value as text at a path.
//!
//! Persisting takes two steps that can each fail, and the two failures are
//! reported apart. `write_content_helper` takes in what serializing the value
//! gave and, where there is text, says what is to be written where.
//! `PendingWrite::finish` takes in how the write went and hands the value
//! back once its text is on disk.

use vstd::prelude::*;
use crate::engine::described;
use crate::messages::{
    serialize_failure,
    serialize_failure_text,
    write_failure,
    write_failure_text,
};

verus! {

/// A value whose text is to replace, in full, the content of the file at
/// `path`.
#[derive(Debug, PartialEq, Eq)]
pub struct PendingWrite<T> {
    /// The path of the file.
    pub path: String,
    /// The value being persisted.
    pub value: T,
    /// The text that stands for the value.
    pub content: String,
}

/// What persisting returns once the write has been tried: the value where the
/// write went through, the failure otherwise.
pub open spec fn finished<T>(path: Seq<char>, value: T, written: Result<(), Seq<char>>) -> Result<
    T,
    Seq<char>,
> {
    match written {
        Ok(_) => Ok(value),
        Err(cause) => Err(write_failure_text(path, cause)),
    }
}

/// Starts persisting `value` at `path`, `serialized` being the text that
/// serializing the value gave, or the cause for which it has none.
///
/// With text, the result says what to write; without, it is the
/// serialization failure, which names the path and the cause, and nothing is
/// to be written.
pub fn write_content_helper<T>(path: &str, value: T, serialized: Result<String, String>) -> (pending:
    Result<PendingWrite<T>, String>)
    ensures
        match serialized {
            Ok(content) => pending matches Ok(write) && write.path@ == path@ && write.value
                == value && write.content@ == content@,
            Err(cause) => pending matches Err(message) && message@ == serialize_failure_text(
                path@,
                cause@,
            ),
        },
{
    match serialized {
        Ok(content) => Ok(PendingWrite { path: String::from_str(path), value, content }),
        Err(cause) => Err(serialize_failure(path, cause.as_str())),
    }
}

impl<T> PendingWrite<T> {
    /// Ends persisting, `written` being how writing `self.content` to the
    /// file at `self.path` went: success, or the cause of the failure.
    ///
    /// Returns the value that was persisted, or the write failure.
    pub fn finish(self, written: Result<(), String>) -> (value: Result<T, String>)
        ensures
            described(value) == finished(self.path@, self.value, described(written)),
    {
        match written {
            Ok(_) => Ok(self.value),
            Err(cause) => Err(write_failure(self.path.as_str(), cause.as_str())),
        }
    }
}

} // verus!
