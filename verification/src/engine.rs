//! The default-or-load engine: what is returned for each thing that can be
//! found at the path of a configuration file.

use vstd::prelude::*;
use crate::messages::{parse_failure, parse_failure_text, read_failure, read_failure_text};

verus! {

/// What was found at the path of a configuration file.
#[derive(Debug, PartialEq, Eq)]
pub enum Stored<T> {
    /// Nothing exists at the path.
    Absent,
    /// Something exists at the path and could not be read, for the cause given.
    Unreadable(String),
    /// The content was read and is no value of the wanted type, for the cause given.
    Malformed(String),
    /// The content was read and parsed to this value.
    Parsed(T),
}

/// `Stored` with its causes as sequences of characters.
pub enum Found<T> {
    /// Nothing exists at the path.
    Absent,
    /// Something exists at the path and could not be read.
    Unreadable(Seq<char>),
    /// The content was read and is no value of the wanted type.
    Malformed(Seq<char>),
    /// The content was read and parsed to this value.
    Parsed(T),
}

impl<T> View for Stored<T> {
    type V = Found<T>;

    open spec fn view(&self) -> Found<T> {
        match *self {
            Stored::Absent => Found::Absent,
            Stored::Unreadable(cause) => Found::Unreadable(cause@),
            Stored::Malformed(cause) => Found::Malformed(cause@),
            Stored::Parsed(value) => Found::Parsed(value),
        }
    }
}

/// The value that a load settled on, and whether it is on disk already.
#[derive(Debug, PartialEq, Eq)]
pub enum Outcome<T> {
    /// The file held this value. The file is left untouched.
    Loaded(T),
    /// The value is a fresh default, still to be persisted at the path.
    Generated(T),
}

/// A result with its message as a sequence of characters.
pub open spec fn described<V>(result: Result<V, String>) -> Result<V, Seq<char>> {
    match result {
        Ok(value) => Ok(value),
        Err(message) => Err(message@),
    }
}

/// Whether a load consults the default producer: the file is absent, or its
/// content does not parse and falling back to the default was asked for.
pub open spec fn wants_default<T>(found: Found<T>, fallback: bool) -> bool {
    found is Absent || (found is Malformed && fallback)
}

/// What a load returns where the default producer is consulted and answers
/// with `produced`: its value, still to be persisted, or its failure as it is.
pub open spec fn regenerated<T>(produced: Result<T, Seq<char>>) -> Result<Outcome<T>, Seq<char>> {
    match produced {
        Ok(value) => Ok(Outcome::Generated(value)),
        Err(message) => Err(message),
    }
}

/// What a load returns, `produced` being what the default producer answers
/// for the path. The answer counts only where `wants_default` holds.
pub open spec fn decided<T>(
    path: Seq<char>,
    found: Found<T>,
    fallback: bool,
    produced: Result<T, Seq<char>>,
) -> Result<Outcome<T>, Seq<char>> {
    match found {
        Found::Absent => regenerated(produced),
        Found::Unreadable(cause) => Err(read_failure_text(path, cause)),
        Found::Malformed(cause) => if fallback {
            regenerated(produced)
        } else {
            Err(parse_failure_text(path, cause))
        },
        Found::Parsed(value) => Ok(Outcome::Loaded(value)),
    }
}

/// Asks the default producer for a value to persist at `path`.
fn generate_default<T, F>(path: &str, default: F) -> (outcome: Result<Outcome<T>, String>)
    where F: Fn(&str) -> Result<T, String>
    requires
        call_requires(default, (path,)),
    ensures
        exists|produced: Result<T, String>|
            call_ensures(default, (path,), produced) && described(outcome) == regenerated(
                #[trigger] described(produced),
            ),
{
    let produced = default(path);
    let ghost answer = produced;
    let outcome = match produced {
        Ok(value) => Ok(Outcome::Generated(value)),
        Err(message) => Err(message),
    };
    assert(described(outcome) == regenerated(described(answer)));
    outcome
}

/// Decides what loading the configuration file at `path` returns, from what
/// was found there.
///
/// A parsed value is returned as it is. An unreadable file is always an
/// error, whatever `default_on_parse_failure` says. Content that does not
/// parse is an error unless `default_on_parse_failure` is set. Where nothing
/// exists at the path, or the content does not parse and the flag is set,
/// `default` is invoked with the path: its value comes back as
/// `Outcome::Generated`, to be persisted, and its failure comes back
/// unchanged. In every other case `default` is not invoked.
pub fn load_or_generate_default<T, F>(
    path: &str,
    stored: Stored<T>,
    default: F,
    default_on_parse_failure: bool,
) -> (outcome: Result<Outcome<T>, String>)
    where F: Fn(&str) -> Result<T, String>
    requires
        wants_default(stored@, default_on_parse_failure) ==> call_requires(default, (path,)),
    ensures
        exists|produced: Result<T, String>|
            {
                &&& wants_default(stored@, default_on_parse_failure) ==> call_ensures(
                    default,
                    (path,),
                    produced,
                )
                &&& described(outcome) == decided(
                    path@,
                    stored@,
                    default_on_parse_failure,
                    #[trigger] described(produced),
                )
            },
{
    match stored {
        Stored::Absent => generate_default(path, default),
        Stored::Unreadable(cause) => {
            let message = read_failure(path, cause.as_str());
            proof {
                let idle: Result<T, String> = Err(message);
                assert(described(Err::<Outcome<T>, String>(message)) == decided(
                    path@,
                    stored@,
                    default_on_parse_failure,
                    described(idle),
                ));
            }
            Err(message)
        },
        Stored::Malformed(cause) => {
            if default_on_parse_failure {
                generate_default(path, default)
            } else {
                let message = parse_failure(path, cause.as_str());
                proof {
                    let idle: Result<T, String> = Err(message);
                    assert(described(Err::<Outcome<T>, String>(message)) == decided(
                        path@,
                        stored@,
                        default_on_parse_failure,
                        described(idle),
                    ));
                }
                Err(message)
            }
        },
        Stored::Parsed(value) => {
            proof {
                let idle: Result<T, String> = Ok(value);
                assert(described(Ok::<Outcome<T>, String>(Outcome::Loaded(value))) == decided(
                    path@,
                    stored@,
                    default_on_parse_failure,
                    described(idle),
                ));
            }
            Ok(Outcome::Loaded(value))
        },
    }
}

} // verus!
