use vstd::prelude::*;
use vstd::string::*;

verus! {

/// The metadata of a package, as `md.toml` holds it.
pub struct PackageMetadata {
    pub name: String,
    pub version: String,
    pub description: Option<String>,
    pub authors: Vec<String>,
    pub license: Option<String>,
    pub tracked_files: Vec<String>,
    pub dependencies: Option<Vec<String>>,
    pub provides: Option<Vec<String>>,
    pub conflicts: Option<Vec<String>>,
    pub reccomendations: Option<Vec<String>>,
    pub arch: String,
}

/// `s` is present and holds the empty string.
pub open spec fn is_some_empty_string(s: Option<String>) -> bool {
    s matches Some(t) && t@.len() == 0
}

/// `v` is present and holds the empty list.
pub open spec fn is_some_empty_list(v: Option<Vec<String>>) -> bool {
    v matches Some(l) && l@.len() == 0
}

impl PackageMetadata {
    /// The metadata that `new-srcpkg` writes for a new source package `name`:
    /// version `0.1.0`, architecture `any`, empty description and license,
    /// no authors, no tracked files, and empty dependency, provides, conflicts
    /// and recommendation lists.
    pub fn new_source_package(name: &str) -> (r: PackageMetadata)
        ensures
            r.name@ == name@,
            r.version@ == "0.1.0"@,
            r.arch@ == "any"@,
            is_some_empty_string(r.description),
            is_some_empty_string(r.license),
            r.authors@.len() == 0,
            r.tracked_files@.len() == 0,
            is_some_empty_list(r.dependencies),
            is_some_empty_list(r.provides),
            is_some_empty_list(r.conflicts),
            is_some_empty_list(r.reccomendations),
    {
        PackageMetadata {
            name: String::from_str(name),
            version: String::from_str("0.1.0"),
            description: Some(String::new()),
            authors: Vec::new(),
            license: Some(String::new()),
            tracked_files: Vec::new(),
            dependencies: Some(Vec::new()),
            provides: Some(Vec::new()),
            conflicts: Some(Vec::new()),
            reccomendations: Some(Vec::new()),
            arch: String::from_str("any"),
        }
    }
}

} // verus!
