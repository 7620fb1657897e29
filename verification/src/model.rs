//! A model of the disk, and what the library's rules come to when a caller
//! carries them out on it.
//!
//! The library decides and its caller acts. The model says how the caller is
//! taken to act: what it reports of the disk, and what its steps do to the
//! disk where they go through. A load and a repair are then followed from
//! beginning to end, and the proofs at the bottom state what they achieve.

use vstd::prelude::*;
use crate::directory::{repair_steps, DirectoryStep};
use crate::engine::{decided, wants_default, Found, Outcome};
use crate::messages::{parse_failure_text, read_failure_text, serialize_failure_text};
use crate::writer::finished;

verus! {

/// What stands at the path of a configuration file.
pub enum Disk {
    /// Nothing.
    Missing,
    /// Something that cannot be read, for the cause given.
    Unreadable(Seq<char>),
    /// A file with this text.
    Holds(Seq<char>),
}

/// The textual format of the values of type `T`.
#[verifier::reject_recursive_types(T)]
pub struct Format<T> {
    /// The value that a text stands for, or the cause for which it stands for
    /// none.
    pub parse: spec_fn(Seq<char>) -> Result<T, Seq<char>>,
    /// The text that stands for a value, or the cause for which it has none.
    pub render: spec_fn(T) -> Result<Seq<char>, Seq<char>>,
}

impl<T> Format<T> {
    /// The format has a text for `value`, and that text stands for `value`.
    pub open spec fn gives_back(self, value: T) -> bool {
        (self.render)(value) matches Ok(text) && (self.parse)(text) == Ok::<T, Seq<char>>(value)
    }
}

/// How a write to the file goes.
pub enum Write {
    /// The file then holds what was written, and that only.
    Completes,
    /// The write fails for the cause given, and `leaves` stands at the path.
    Fails { cause: Seq<char>, leaves: Disk },
}

/// What a caller finds at the path: a file that is missing is not read, and
/// only text that was read is parsed.
pub open spec fn found<T>(disk: Disk, format: Format<T>) -> Found<T> {
    match disk {
        Disk::Missing => Found::Absent,
        Disk::Unreadable(cause) => Found::Unreadable(cause),
        Disk::Holds(text) => match (format.parse)(text) {
            Ok(value) => Found::Parsed(value),
            Err(cause) => Found::Malformed(cause),
        },
    }
}

/// Persisting `value` at `path`: what is returned, and what stands at the
/// path afterwards. A value without a text leaves the disk alone.
pub open spec fn persist<T>(
    path: Seq<char>,
    value: T,
    format: Format<T>,
    write: Write,
    disk: Disk,
) -> (Result<T, Seq<char>>, Disk) {
    match (format.render)(value) {
        Err(cause) => (Err(serialize_failure_text(path, cause)), disk),
        Ok(text) => match write {
            Write::Completes => (finished(path, value, Ok(())), Disk::Holds(text)),
            Write::Fails { cause, leaves } => (finished(path, value, Err(cause)), leaves),
        },
    }
}

/// One load of the file at `path`: what is returned, and what stands at the
/// path afterwards. `produced` is what the default producer answers for the
/// path, and `write` how a write goes, should the load come to either.
pub open spec fn load<T>(
    path: Seq<char>,
    disk: Disk,
    format: Format<T>,
    fallback: bool,
    produced: Result<T, Seq<char>>,
    write: Write,
) -> (Result<T, Seq<char>>, Disk) {
    match decided(path, found(disk, format), fallback, produced) {
        Ok(Outcome::Loaded(value)) => (Ok(value), disk),
        Ok(Outcome::Generated(value)) => persist(path, value, format, write, disk),
        Err(message) => (Err(message), disk),
    }
}

/// What stands at the path of the configuration directory.
pub enum Occupant {
    /// Nothing.
    Nothing,
    /// A plain file.
    File,
    /// A directory.
    Directory,
}

impl Occupant {
    /// Whether anything stands at the path.
    pub open spec fn present(self) -> bool {
        !(self is Nothing)
    }

    /// Whether a directory stands at the path.
    pub open spec fn is_dir(self) -> bool {
        self is Directory
    }

    /// What stands at the path after `step`, or nothing where the step fails:
    /// only a plain file can be deleted as one, and a directory is created
    /// only where nothing stands.
    pub open spec fn after(self, step: DirectoryStep) -> Option<Occupant> {
        match (step, self) {
            (DirectoryStep::RemoveFile, Occupant::File) => Some(Occupant::Nothing),
            (DirectoryStep::CreateDir, Occupant::Nothing) => Some(Occupant::Directory),
            _ => None,
        }
    }

    /// What stands at the path after `steps`, carried out in order, or
    /// nothing where one of them fails.
    pub open spec fn after_all(self, steps: Seq<DirectoryStep>) -> Option<Occupant>
        decreases steps.len(),
    {
        if steps.len() == 0 {
            Some(self)
        } else {
            match self.after(steps.first()) {
                Some(next) => next.after_all(steps.drop_first()),
                None => None,
            }
        }
    }
}

/// A value that is written and then loaded comes back as it was, for every
/// value that the format gives back: the load returns it, whatever the
/// fallback policy, consults neither producer nor writer, and leaves the file
/// as written.
pub proof fn lemma_round_trip<T>(
    path: Seq<char>,
    value: T,
    format: Format<T>,
    before: Disk,
    fallback: bool,
    produced: Result<T, Seq<char>>,
    write: Write,
)
    requires
        format.gives_back(value),
    ensures
        ({
            let (written, disk) = persist(path, value, format, Write::Completes, before);
            &&& written == Ok::<T, Seq<char>>(value)
            &&& disk == Disk::Holds((format.render)(value)->Ok_0)
            &&& load(path, disk, format, fallback, produced, write) == (
                Ok::<T, Seq<char>>(value),
                disk,
            )
        }),
{
}

/// Loading a file that does not exist returns the value that the default
/// producer gives, and the file then holds the text of that value. Where the
/// format gives the value back, every later load returns it again and leaves
/// the file alone.
pub proof fn lemma_create_on_absence<T>(
    path: Seq<char>,
    value: T,
    format: Format<T>,
    fallback: bool,
    later_fallback: bool,
    later_produced: Result<T, Seq<char>>,
    later_write: Write,
)
    requires
        (format.render)(value) is Ok,
    ensures
        ({
            let (loaded, disk) = load(
                path,
                Disk::Missing,
                format,
                fallback,
                Ok(value),
                Write::Completes,
            );
            &&& loaded == Ok::<T, Seq<char>>(value)
            &&& disk == Disk::Holds((format.render)(value)->Ok_0)
            &&& format.gives_back(value) ==> load(
                path,
                disk,
                format,
                later_fallback,
                later_produced,
                later_write,
            ) == (Ok::<T, Seq<char>>(value), disk)
        }),
{
}

/// Loading a file whose text does not parse, with the fallback asked for,
/// returns the value that the default producer gives and overwrites the file
/// with the text of that value. Where the format gives the value back, every
/// later load returns it again and leaves the file alone.
pub proof fn lemma_fallback_on_corruption<T>(
    path: Seq<char>,
    text: Seq<char>,
    value: T,
    format: Format<T>,
    later_fallback: bool,
    later_produced: Result<T, Seq<char>>,
    later_write: Write,
)
    requires
        (format.parse)(text) is Err,
        (format.render)(value) is Ok,
    ensures
        ({
            let (loaded, disk) = load(
                path,
                Disk::Holds(text),
                format,
                true,
                Ok(value),
                Write::Completes,
            );
            &&& loaded == Ok::<T, Seq<char>>(value)
            &&& disk == Disk::Holds((format.render)(value)->Ok_0)
            &&& format.gives_back(value) ==> load(
                path,
                disk,
                format,
                later_fallback,
                later_produced,
                later_write,
            ) == (Ok::<T, Seq<char>>(value), disk)
        }),
{
}

/// Loading a file whose text does not parse, without the fallback, returns
/// the parse failure with the path and the cause, and leaves the file as it
/// was. Neither the producer nor the writer is consulted.
pub proof fn lemma_strict_on_corruption<T>(
    path: Seq<char>,
    text: Seq<char>,
    format: Format<T>,
    produced: Result<T, Seq<char>>,
    write: Write,
)
    requires
        (format.parse)(text) is Err,
    ensures
        load(path, Disk::Holds(text), format, false, produced, write) == (
            Err::<T, Seq<char>>(parse_failure_text(path, (format.parse)(text)->Err_0)),
            Disk::Holds(text),
        ),
{
}

/// A file that cannot be read is reported as such under either policy, and
/// stays as it is: it is never taken for a missing file.
pub proof fn lemma_unreadable_is_reported<T>(
    path: Seq<char>,
    cause: Seq<char>,
    format: Format<T>,
    fallback: bool,
    produced: Result<T, Seq<char>>,
    write: Write,
)
    ensures
        load(path, Disk::Unreadable(cause), format, fallback, produced, write) == (
            Err::<T, Seq<char>>(read_failure_text(path, cause)),
            Disk::Unreadable(cause),
        ),
{
}

/// A failing producer is reported in its own words, before anything is
/// written: the disk stays as it was.
pub proof fn lemma_producer_failure_writes_nothing<T>(
    path: Seq<char>,
    disk: Disk,
    format: Format<T>,
    fallback: bool,
    message: Seq<char>,
    write: Write,
)
    requires
        wants_default(found(disk, format), fallback),
    ensures
        load(path, disk, format, fallback, Err(message), write) == (
            Err::<T, Seq<char>>(message),
            disk,
        ),
{
}

/// A value that has no text is reported as a serialization failure, with the
/// path and the cause, and nothing is written: what stood at the path, if
/// anything, stands there as before.
pub proof fn lemma_serialization_failure_writes_nothing<T>(
    path: Seq<char>,
    disk: Disk,
    value: T,
    format: Format<T>,
    fallback: bool,
    write: Write,
)
    requires
        wants_default(found(disk, format), fallback),
        (format.render)(value) is Err,
    ensures
        load(path, disk, format, fallback, Ok(value), write) == (
            Err::<T, Seq<char>>(serialize_failure_text(path, (format.render)(value)->Err_0)),
            disk,
        ),
{
}

/// Whatever stands at the path of the configuration directory, carrying out
/// the steps of the repair on the model meets no step that the model lets
/// fail, and ends with a directory at the path. A step that fails on a real
/// disk is the caller's to report.
pub proof fn lemma_repair_leaves_directory(occupant: Occupant)
    ensures
        occupant.after_all(repair_steps(occupant.present(), occupant.is_dir())) == Some(
            Occupant::Directory,
        ),
{
    let steps = repair_steps(occupant.present(), occupant.is_dir());
    reveal_with_fuel(Occupant::after_all, 3);
    match occupant {
        Occupant::File => {
            assert(steps.drop_first() =~= seq![DirectoryStep::CreateDir]);
            assert(steps.drop_first().drop_first() =~= Seq::<DirectoryStep>::empty());
        },
        Occupant::Nothing => {
            assert(steps.drop_first() =~= Seq::<DirectoryStep>::empty());
        },
        Occupant::Directory => {},
    }
}

/// A plain file in the place of the configuration directory is deleted and a
/// directory created in its place: the repair is these two steps, and on the
/// model the first leaves nothing at the path and the second a directory.
pub proof fn lemma_stray_file_is_replaced()
    ensures
        repair_steps(Occupant::File.present(), Occupant::File.is_dir()) == seq![
            DirectoryStep::RemoveFile,
            DirectoryStep::CreateDir,
        ],
        Occupant::File.after(DirectoryStep::RemoveFile) == Some(Occupant::Nothing),
        Occupant::Nothing.after(DirectoryStep::CreateDir) == Some(Occupant::Directory),
        Occupant::File.after_all(repair_steps(true, false)) == Some(Occupant::Directory),
{
    lemma_repair_leaves_directory(Occupant::File);
}

} // verus!
