use vstd::prelude::*;
use vstd::string::*;

use crate::layout::{join_path, spec_join};

verus! {

/// The repository configuration, kept in `sgma.toml` at the repository root.
#[derive(Debug)]
pub struct ConfigFile {
    /// Directory (relative to the repository root) that holds the package database.
    pub outpath: String,
    /// Directory (relative to the repository root) that holds the source packages.
    pub srcpath: String,
    /// Packages that are built but never added to the database.
    pub exclude: Vec<String>,
}

impl Default for ConfigFile {
    /// The configuration written by `init-repo`: `out`, `src`, nothing excluded.
    fn default() -> (r: Self)
        ensures
            r.outpath@ == seq!['o', 'u', 't'],
            r.srcpath@ == seq!['s', 'r', 'c'],
            r.exclude@.len() == 0,
    {
        let outpath = String::from_str("out");
        let srcpath = String::from_str("src");
        proof {
            reveal_strlit("out");
            reveal_strlit("src");
        }
        ConfigFile { outpath, srcpath, exclude: Vec::new() }
    }
}

/// Why a command that needs a repository refuses to run.
#[derive(PartialEq, Eq, Structural, Debug, Clone, Copy)]
pub enum RepoError {
    /// There is no `sgma.toml` in the current directory.
    NoConfigFile,
    /// `srcpath` is empty in `sgma.toml`.
    NoSrcpath,
    /// `outpath` is empty in `sgma.toml`.
    NoOutpath,
}

impl RepoError {
    /// The message printed when a command refuses to run for this reason.
    pub fn message(&self) -> (r: &'static str)
        ensures
            r@ == (match *self {
                RepoError::NoConfigFile => "Could not find sgma.toml, have you initialised a repository?"@,
                RepoError::NoSrcpath => "No srcpath specified in sgma.toml"@,
                RepoError::NoOutpath => "No outpath specified in sgma.toml"@,
            }),
    {
        match self {
            RepoError::NoConfigFile => "Could not find sgma.toml, have you initialised a repository?",
            RepoError::NoSrcpath => "No srcpath specified in sgma.toml",
            RepoError::NoOutpath => "No outpath specified in sgma.toml",
        }
    }
}

/// The checks made, in this order, before `new-srcpkg`, `query` and `remove`.
pub open spec fn spec_check_repository(config_present: bool, srcpath: Seq<char>, outpath: Seq<char>) -> Result<(), RepoError> {
    if !config_present {
        Err(RepoError::NoConfigFile)
    } else if srcpath.len() == 0 {
        Err(RepoError::NoSrcpath)
    } else if outpath.len() == 0 {
        Err(RepoError::NoOutpath)
    } else {
        Ok(())
    }
}

/// With `sgma.toml` present, a repository is usable exactly when both paths
/// are non-empty, whatever they hold; each refusal names a condition that
/// truly holds.
pub proof fn lemma_check_repository_refuses_only_for_cause(config_present: bool, srcpath: Seq<char>, outpath: Seq<char>)
    ensures
        (config_present && srcpath.len() > 0 && outpath.len() > 0) <==> spec_check_repository(config_present, srcpath, outpath) == Ok::<(), RepoError>(()),
        spec_check_repository(config_present, srcpath, outpath) == Err::<(), RepoError>(RepoError::NoConfigFile) ==> !config_present,
        spec_check_repository(config_present, srcpath, outpath) == Err::<(), RepoError>(RepoError::NoSrcpath) ==> srcpath.len() == 0,
        spec_check_repository(config_present, srcpath, outpath) == Err::<(), RepoError>(RepoError::NoOutpath) ==> outpath.len() == 0,
{
}

impl ConfigFile {
    /// Checks that a repository is usable: `sgma.toml` is present (as the
    /// caller found it) and names both a source and an output directory.
    pub fn check_repository(&self, config_present: bool) -> (r: Result<(), RepoError>)
        ensures
            r == spec_check_repository(config_present, self.srcpath@, self.outpath@),
    {
        if !config_present {
            Err(RepoError::NoConfigFile)
        } else if self.srcpath.as_str().is_empty() {
            Err(RepoError::NoSrcpath)
        } else if self.outpath.as_str().is_empty() {
            Err(RepoError::NoOutpath)
        } else {
            Ok(())
        }
    }

    /// `<outpath>/db.sqlite`, the database that `query` and `remove` use.
    pub fn database_path(&self) -> (r: String)
        ensures
            r@ == spec_join(self.outpath@, "db.sqlite"@),
    {
        join_path(self.outpath.as_str(), "db.sqlite")
    }

    /// Whether a successful build of `pkg` is added to the database: not when
    /// the command line has the flag `--dry`, and not when the configuration
    /// excludes `pkg`.
    pub fn adds_to_database(&self, flags: &Vec<String>, pkg: &String) -> (r: bool)
        ensures
            r == (!flags.deep_view().contains("--dry"@) && !self.exclude.deep_view().contains(pkg@)),
    {
        let dry = String::from_str("--dry");
        !contains_string(flags, &dry) && !contains_string(&self.exclude, pkg)
    }
}

/// Whether `v` holds a string equal to `s`.
pub fn contains_string(v: &Vec<String>, s: &String) -> (r: bool)
    ensures
        r == v.deep_view().contains(s@),
{
    let mut i: usize = 0;
    while i < v.len()
        invariant
            i <= v@.len(),
            forall|j: int| 0 <= j < i ==> v.deep_view()[j] != s@,
        decreases v@.len() - i,
    {
        if v[i] == *s {
            assert(v.deep_view()[i as int] == s@);
            return true;
        }
        i = i + 1;
    }
    proof {
        if v.deep_view().contains(s@) {
            let k = choose|k: int| 0 <= k < v.deep_view().len() && v.deep_view()[k] == s@;
            assert(v.deep_view()[k] != s@);
        }
    }
    false
}

} // verus!
