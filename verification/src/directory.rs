//! The directory resolver and the path builder: where a configuration file
//! lives, and what has to be done to its directory before the file can be
//! used.

use vstd::prelude::*;
use crate::platform::{join_path, joined_path, project_config_dir, project_dirs_from};

verus! {

/// The qualifier under which the application is known to the platform.
pub const QUALIFIER: &'static str = "org";

/// The organization under which the application is known to the platform.
pub const ORGANIZATION: &'static str = "affekt";

/// The name under which the application is known to the platform.
pub const APPLICATION: &'static str = "ncspot";

/// A configuration file's place: the configuration directory and, inside it,
/// the file.
#[derive(Debug, PartialEq, Eq)]
pub struct ConfigFile {
    /// The configuration directory.
    pub dir: String,
    /// The file's path: its name joined onto the directory.
    pub path: String,
}

impl ConfigFile {
    /// The place of the file named `file` in the configuration directory
    /// `dir`.
    pub fn in_dir(dir: String, file: &str) -> (place: ConfigFile)
        ensures
            place.dir == dir,
            place.path@ == joined_path(dir@, file@),
    {
        let path = join_path(dir.as_str(), file);
        ConfigFile { dir, path }
    }
}

/// The standard directories that the platform gives for the application, as
/// far as the resolver reads them.
#[derive(Debug, PartialEq, Eq)]
pub struct StandardDirs {
    /// The configuration directory as text, or nothing where its path is not
    /// valid Unicode.
    pub config_dir: Option<String>,
}

/// Why a configuration directory has no text to resolve to.
#[derive(Clone, Copy, Debug, PartialEq, Eq)]
pub enum Unresolved {
    /// The platform offers no convention to derive the directory from.
    NoConvention,
    /// The platform has a directory, and its path is not valid Unicode.
    NotText,
}

/// One change to what stands at the path of the configuration directory.
#[derive(Clone, Copy, Debug, PartialEq, Eq)]
pub enum DirectoryStep {
    /// Delete the plain file that stands there.
    RemoveFile,
    /// Create the directory, a single level.
    CreateDir,
}

/// The steps that make a directory of what stands at the configuration
/// directory's path, in order. A plain file in the directory's place is
/// deleted and the directory created instead; a missing directory is
/// created; a directory is left as it is.
pub open spec fn repair_steps(present: bool, is_dir: bool) -> Seq<DirectoryStep> {
    if present && !is_dir {
        seq![DirectoryStep::RemoveFile, DirectoryStep::CreateDir]
    } else if !present {
        seq![DirectoryStep::CreateDir]
    } else {
        Seq::empty()
    }
}

/// The configuration directory that the platform's answer stands for,
/// `found` being the standard directories that the platform gave for the
/// application, if it gave any.
///
/// Without an answer there is no directory, and nothing takes its place.
/// With one, the directory is the configuration directory among those given,
/// and that only; where it has no text, there is no directory either.
pub fn platform_dir(found: Option<StandardDirs>) -> (dir: Result<String, Unresolved>)
    ensures
        found is None ==> dir == Err::<String, Unresolved>(Unresolved::NoConvention),
        found matches Some(given) ==> dir == match given.config_dir {
            Some(text) => Ok::<String, Unresolved>(text),
            None => Err(Unresolved::NotText),
        },
{
    match found {
        None => Err(Unresolved::NoConvention),
        Some(given) => match given.config_dir {
            Some(text) => Ok(text),
            None => Err(Unresolved::NotText),
        },
    }
}

/// Resolves the configuration directory.
///
/// With a base path, the directory is that path and the platform is not
/// consulted. Without one, the platform is asked for the standard directories
/// of the application, and the directory is what `platform_dir` makes of its
/// answer.
pub fn config_dir(base_path: Option<&str>) -> (dir: Result<String, Unresolved>)
    ensures
        base_path matches Some(root) ==> dir matches Ok(resolved) && resolved@ == root@,
{
    match base_path {
        Some(root) => Ok(String::from_str(root)),
        None => {
            let found = match project_dirs_from(QUALIFIER, ORGANIZATION, APPLICATION) {
                Some(dirs) => Some(StandardDirs { config_dir: project_config_dir(&dirs) }),
                None => None,
            };
            platform_dir(found)
        },
    }
}

/// Resolves the path of the configuration file named `file`: the name joined
/// onto the configuration directory, and no more checked than that.
///
/// There is a place exactly where the configuration directory resolves, so
/// always where a base path is given; where it does not, the reason is
/// handed on.
pub fn config_path(base_path: Option<&str>, file: &str) -> (place: Result<ConfigFile, Unresolved>)
    ensures
        base_path matches Some(root) ==> place matches Ok(found) && found.dir@ == root@,
        place matches Ok(found) ==> found.path@ == joined_path(found.dir@, file@),
{
    match config_dir(base_path) {
        Ok(dir) => Ok(ConfigFile::in_dir(dir, file)),
        Err(reason) => Err(reason),
    }
}

/// Says what to do to the configuration directory before a file in it is
/// used, `present` and `is_dir` being whether anything stands at the
/// directory's path and whether that is a directory.
pub fn directory_repair(present: bool, is_dir: bool) -> (steps: Vec<DirectoryStep>)
    ensures
        steps@ == repair_steps(present, is_dir),
{
    let mut steps: Vec<DirectoryStep> = Vec::new();
    if present && !is_dir {
        steps.push(DirectoryStep::RemoveFile);
    }
    if !present || !is_dir {
        steps.push(DirectoryStep::CreateDir);
    }
    assert(steps@ =~= repair_steps(present, is_dir));
    steps
}

} // verus!
