//! Verified core of `sgma`, a tool that keeps a repository of source packages:
//! it splits the command line, checks the repository configuration, lays out
//! the paths each command works on, fills in the metadata of new packages and
//! compresses built packages.

pub mod cli;
pub mod compress;
pub mod config;
pub mod layout;
pub mod package;
pub mod scripts;

pub use cli::{is_flag, parse_invocation, Invocation, Operation};
pub use compress::{compress_package, finish_compression, CompressError, PACKAGE_COMPRESSION_LEVEL};
pub use config::{contains_string, ConfigFile, RepoError};
pub use layout::{concat3, join_path, BuildLayout, InitRepoLayout, SourceLayout};
pub use package::PackageMetadata;
