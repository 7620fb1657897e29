//! Locating and loading configuration files.
//!
//! The crate holds the rules of a "load the configuration file, or create and
//! persist a default" routine: where a configuration file lives, what has to
//! happen to its directory before it can be used, what is returned for each
//! thing that can be found at the file's path, and what is reported when
//! persisting a value fails. Touching the disk and turning text into values
//! is left to the caller, which hands over what it observed.

pub mod directory;
pub mod engine;
pub mod messages;
pub mod model;
pub mod platform;
pub mod writer;

pub use directory::{
    config_dir, config_path, directory_repair, platform_dir, ConfigFile, DirectoryStep,
    StandardDirs, Unresolved,
};
pub use engine::{load_or_generate_default, Outcome, Stored};
pub use writer::{write_content_helper, PendingWrite};
