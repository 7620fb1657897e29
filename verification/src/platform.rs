//! What the library takes from the platform: the conventional location of
//! an application's configuration, and the joining of paths.
//!
//! Nothing in this file is proved. Each function states what is relied on.

use vstd::prelude::*;

verus! {

/// `directories::ProjectDirs`: the standard directories of one application.
/// A value is carried from `project_dirs_from` to `project_config_dir` as it
/// is, and nothing is known of what it holds.
#[verifier::external_type_specification]
#[verifier::external_body]
pub struct ExProjectDirs(directories::ProjectDirs);

/// The path that `std::path::Path::join` gives for `file` joined onto `dir`,
/// both as text, on the platform that the library is built for.
pub uninterp spec fn joined_path(dir: Seq<char>, file: Seq<char>) -> Seq<char>;

/// `directories::ProjectDirs::from`: the standard directories of the
/// application so described, or nothing where the system gives no home
/// directory to derive them from. The answer depends on the user and the
/// environment of the process, so nothing is claimed of it.
#[verifier::external_body]
pub(crate) fn project_dirs_from(qualifier: &str, organization: &str, application: &str) -> (dirs:
    Option<directories::ProjectDirs>) {
    directories::ProjectDirs::from(qualifier, organization, application)
}

/// `directories::ProjectDirs::config_dir`: the configuration directory among
/// the standard directories, as text; nothing where the path is not valid
/// Unicode. Nothing is claimed of the text.
#[verifier::external_body]
pub(crate) fn project_config_dir(dirs: &directories::ProjectDirs) -> (dir: Option<String>) {
    dirs.config_dir().to_str().map(String::from)
}

/// `std::path::Path::join`, on text: the result is the path that `joined_path`
/// names. Joining depends on the two paths alone.
#[verifier::external_body]
pub(crate) fn join_path(dir: &str, file: &str) -> (joined: String)
    ensures
        joined@ == joined_path(dir@, file@),
{
    std::path::Path::new(dir).join(file).to_string_lossy().into_owned()
}

} // verus!
