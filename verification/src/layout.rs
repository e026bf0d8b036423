use vstd::prelude::*;
use vstd::string::*;

verus! {

/// `a`, `b` and `c` written one after the other.
pub fn concat3(a: &str, b: &str, c: &str) -> (r: String)
    ensures
        r@ == a@ + b@ + c@,
{
    let mut r = String::from_str(a);
    r.append(b);
    r.append(c);
    r
}

/// The path of `name` inside the directory `dir`.
pub open spec fn spec_join(dir: Seq<char>, name: Seq<char>) -> Seq<char> {
    dir + "/"@ + name
}

/// Joining never drops, adds or alters a character of either part: the result
/// is the whole directory text, then exactly one `/`, then the whole name, for
/// every directory (with or without a trailing `/`) and every name (whatever
/// characters it holds).
pub proof fn lemma_join_keeps_both_parts(dir: Seq<char>, name: Seq<char>)
    ensures
        spec_join(dir, name).len() == dir.len() + 1 + name.len(),
        spec_join(dir, name).subrange(0, dir.len() as int) == dir,
        spec_join(dir, name)[dir.len() as int] == '/',
        spec_join(dir, name).subrange(dir.len() + 1int, dir.len() + 1int + name.len()) == name,
{
    reveal_strlit("/");
    let j = spec_join(dir, name);
    assert(j.subrange(0, dir.len() as int) =~= dir);
    assert(j.subrange(dir.len() + 1int, dir.len() + 1int + name.len()) =~= name);
}

/// Joins a directory and a name with a `/`.
pub fn join_path(dir: &str, name: &str) -> (r: String)
    ensures
        r@ == spec_join(dir@, name@),
{
    concat3(dir, "/", name)
}

/// What `init-repo <path>` creates.
pub struct InitRepoLayout {
    /// `<path>/sgma.toml`, holding the default configuration.
    pub config_file: String,
    /// `<path>/out`.
    pub out_dir: String,
    /// `<path>/src`.
    pub src_dir: String,
    /// `<path>/out/db.sqlite`, the new package database.
    pub database: String,
}

impl InitRepoLayout {
    /// The files and directories of a new repository at `path`.
    pub fn new(path: &str) -> (r: InitRepoLayout)
        ensures
            r.config_file@ == spec_join(path@, "sgma.toml"@),
            r.out_dir@ == spec_join(path@, "out"@),
            r.src_dir@ == spec_join(path@, "src"@),
            r.database@ == spec_join(path@, "out/db.sqlite"@),
    {
        InitRepoLayout {
            config_file: join_path(path, "sgma.toml"),
            out_dir: join_path(path, "out"),
            src_dir: join_path(path, "src"),
            database: join_path(path, "out/db.sqlite"),
        }
    }
}

/// What `new-srcpkg <package>` creates, below the configured source directory.
pub struct SourceLayout {
    /// `<srcpath>/<package>`.
    pub root: String,
    /// `<srcpath>/<package>/scripts`.
    pub scripts_dir: String,
    /// `<srcpath>/<package>/config`.
    pub config_dir: String,
    /// `<srcpath>/<package>/build.sh`, from the build script template.
    pub build_script: String,
    /// `<srcpath>/<package>/scripts/pre.sh`, from the pre-install template.
    pub pre_script: String,
    /// `<srcpath>/<package>/scripts/post.sh`, from the post-install template.
    pub post_script: String,
    /// `<srcpath>/<package>/scripts/hook.sh`, from the hook template.
    pub hook_script: String,
    /// `<srcpath>/<package>/md.toml`, holding the package metadata.
    pub metadata: String,
}

impl SourceLayout {
    /// The files and directories of the source package `pkg` below `srcpath`.
    pub fn new(srcpath: &str, pkg: &str) -> (r: SourceLayout)
        ensures
            r.root@ == spec_join(srcpath@, pkg@),
            r.scripts_dir@ == spec_join(r.root@, "scripts"@),
            r.config_dir@ == spec_join(r.root@, "config"@),
            r.build_script@ == spec_join(r.root@, "build.sh"@),
            r.pre_script@ == spec_join(r.root@, "scripts/pre.sh"@),
            r.post_script@ == spec_join(r.root@, "scripts/post.sh"@),
            r.hook_script@ == spec_join(r.root@, "scripts/hook.sh"@),
            r.metadata@ == spec_join(r.root@, "md.toml"@),
    {
        let root = join_path(srcpath, pkg);
        let scripts_dir = join_path(root.as_str(), "scripts");
        let config_dir = join_path(root.as_str(), "config");
        let build_script = join_path(root.as_str(), "build.sh");
        let pre_script = join_path(root.as_str(), "scripts/pre.sh");
        let post_script = join_path(root.as_str(), "scripts/post.sh");
        let hook_script = join_path(root.as_str(), "scripts/hook.sh");
        let metadata = join_path(root.as_str(), "md.toml");
        SourceLayout {
            root,
            scripts_dir,
            config_dir,
            build_script,
            pre_script,
            post_script,
            hook_script,
            metadata,
        }
    }
}

/// The paths that `build <package>` works on. The first two are used from the
/// repository root; the next three from inside the package's source directory;
/// the last four from the repository root again, which the build reaches by
/// going two directories up from the source directory.
pub struct BuildLayout {
    /// `<srcpath>/<package>`, the directory the build runs in.
    pub source_dir: String,
    /// The directories created in it first: `out`, `src`, `built`,
    /// `built/overlay`, `built/scripts`.
    pub work_dirs: Vec<String>,
    /// `out/<package>.tar`, the archive of `built`.
    pub tarball: String,
    /// `out/<package>.tar.zst`, the compressed archive.
    pub compressed: String,
    /// `built/md.toml`, the metadata copied into the archive.
    pub staged_metadata: String,
    /// `src/<package>/out/<package>.tar.zst`, the compressed archive seen from the root.
    pub package_file: String,
    /// `src/<package>/built`, removed after the build.
    pub built_dir: String,
    /// `src/<package>/out`, emptied after the build.
    pub out_dir: String,
    /// `out/db.sqlite`, the database the package is added to.
    pub database: String,
}

/// The directories a build creates inside the package's source directory.
pub open spec fn spec_work_dirs() -> Seq<Seq<char>> {
    seq!["out"@, "src"@, "built"@, "built/overlay"@, "built/scripts"@]
}

impl BuildLayout {
    /// The paths of a build of `pkg` whose sources lie below `srcpath`.
    pub fn new(srcpath: &str, pkg: &str) -> (r: BuildLayout)
        ensures
            r.source_dir@ == spec_join(srcpath@, pkg@),
            r.work_dirs.deep_view() == spec_work_dirs(),
            r.tarball@ == "out/"@ + pkg@ + ".tar"@,
            r.compressed@ == "out/"@ + pkg@ + ".tar.zst"@,
            r.staged_metadata@ == "built/md.toml"@,
            r.package_file@ == "src/"@ + pkg@ + "/out/"@ + pkg@ + ".tar.zst"@,
            r.built_dir@ == "src/"@ + pkg@ + "/built"@,
            r.out_dir@ == "src/"@ + pkg@ + "/out"@,
            r.database@ == "out/db.sqlite"@,
    {
        let mut work_dirs: Vec<String> = Vec::new();
        work_dirs.push(String::from_str("out"));
        work_dirs.push(String::from_str("src"));
        work_dirs.push(String::from_str("built"));
        work_dirs.push(String::from_str("built/overlay"));
        work_dirs.push(String::from_str("built/scripts"));
        let mut package_file = concat3("src/", pkg, "/out/");
        package_file.append(pkg);
        package_file.append(".tar.zst");
        let r = BuildLayout {
            source_dir: join_path(srcpath, pkg),
            work_dirs,
            tarball: concat3("out/", pkg, ".tar"),
            compressed: concat3("out/", pkg, ".tar.zst"),
            staged_metadata: String::from_str("built/md.toml"),
            package_file,
            built_dir: concat3("src/", pkg, "/built"),
            out_dir: concat3("src/", pkg, "/out"),
            database: String::from_str("out/db.sqlite"),
        };
        assert(r.work_dirs.deep_view() =~= spec_work_dirs());
        r
    }
}

} // verus!
