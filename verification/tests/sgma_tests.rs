use sgma::scripts::{BUILD_SH, HOOK_SH, POST_SH, PRE_SH};
use sgma::{
    compress_package, concat3, contains_string, finish_compression, is_flag, join_path,
    parse_invocation, BuildLayout, CompressError, ConfigFile, InitRepoLayout, Operation,
    PackageMetadata, RepoError, SourceLayout, PACKAGE_COMPRESSION_LEVEL,
};

fn strings(items: &[&str]) -> Vec<String> {
    items.iter().map(|s| s.to_string()).collect()
}

fn config(outpath: &str, srcpath: &str, exclude: &[&str]) -> ConfigFile {
    ConfigFile {
        outpath: outpath.to_string(),
        srcpath: srcpath.to_string(),
        exclude: strings(exclude),
    }
}

#[test]
fn default_config_values() {
    let c = ConfigFile::default();
    assert_eq!(c.outpath, "out");
    assert_eq!(c.srcpath, "src");
    assert!(c.exclude.is_empty());
}

#[test]
fn default_config_is_a_usable_repository() {
    assert_eq!(ConfigFile::default().check_repository(true), Ok(()));
}

#[test]
fn check_repository_missing_config_file() {
    assert_eq!(config("out", "src", &[]).check_repository(false), Err(RepoError::NoConfigFile));
    // the missing file is reported before empty paths
    assert_eq!(config("", "", &[]).check_repository(false), Err(RepoError::NoConfigFile));
}

#[test]
fn check_repository_empty_srcpath() {
    assert_eq!(config("out", "", &[]).check_repository(true), Err(RepoError::NoSrcpath));
    // an empty srcpath is reported before an empty outpath
    assert_eq!(config("", "", &[]).check_repository(true), Err(RepoError::NoSrcpath));
}

#[test]
fn check_repository_empty_outpath() {
    assert_eq!(config("", "src", &[]).check_repository(true), Err(RepoError::NoOutpath));
}

#[test]
fn database_path_follows_outpath() {
    assert_eq!(config("out", "src", &[]).database_path(), "out/db.sqlite");
    assert_eq!(config("repo/pkgs", "src", &[]).database_path(), "repo/pkgs/db.sqlite");
}

#[test]
fn default_database_is_the_one_build_adds_to() {
    let from_config = ConfigFile::default().database_path();
    let from_build = BuildLayout::new("src", "hello").database;
    assert_eq!(from_config, from_build);
}

#[test]
fn adds_to_database_normal_build() {
    let c = config("out", "src", &["other"]);
    assert!(c.adds_to_database(&strings(&["-v"]), &"hello".to_string()));
    assert!(c.adds_to_database(&Vec::new(), &"hello".to_string()));
}

#[test]
fn adds_to_database_dry_run() {
    let c = config("out", "src", &[]);
    assert!(!c.adds_to_database(&strings(&["-v", "--dry"]), &"hello".to_string()));
    // only the exact flag counts
    assert!(c.adds_to_database(&strings(&["--dryrun", "-dry"]), &"hello".to_string()));
}

#[test]
fn adds_to_database_excluded_package() {
    let c = config("out", "src", &["a", "hello"]);
    assert!(!c.adds_to_database(&Vec::new(), &"hello".to_string()));
    assert!(c.adds_to_database(&Vec::new(), &"hell".to_string()));
}

#[test]
fn contains_string_cases() {
    let v = strings(&["a", "bc", ""]);
    assert!(contains_string(&v, &"bc".to_string()));
    assert!(contains_string(&v, &"".to_string()));
    assert!(!contains_string(&v, &"b".to_string()));
    assert!(!contains_string(&Vec::new(), &"a".to_string()));
}

#[test]
fn is_flag_cases() {
    assert!(is_flag("-v"));
    assert!(is_flag("--dry"));
    assert!(is_flag("-"));
    assert!(!is_flag("foo"));
    assert!(!is_flag("a-b"));
    assert!(!is_flag(""));
}

#[test]
fn parse_invocation_empty_command_line() {
    assert!(parse_invocation(&Vec::new()).is_none());
}

#[test]
fn parse_invocation_splits_flags_and_modifiers() {
    let args = strings(&["build", "--dry", "foo", "-v", "bar"]);
    let inv = parse_invocation(&args).unwrap();
    assert_eq!(inv.oper, "build");
    assert_eq!(inv.flags, strings(&["--dry", "-v"]));
    assert_eq!(inv.modifiers, strings(&["foo", "bar"]));
}

#[test]
fn parse_invocation_operation_that_looks_like_a_flag() {
    // the first argument is the operation even when it starts with '-'
    let args = strings(&["-x", "-y", "z"]);
    let inv = parse_invocation(&args).unwrap();
    assert_eq!(inv.oper, "-x");
    assert_eq!(inv.flags, strings(&["-y"]));
    assert_eq!(inv.modifiers, strings(&["z"]));
}

#[test]
fn parse_invocation_operation_alone() {
    let inv = parse_invocation(&strings(&["query"])).unwrap();
    assert_eq!(inv.oper, "query");
    assert!(inv.flags.is_empty());
    assert!(inv.modifiers.is_empty());
}

#[test]
fn parse_invocation_keeps_every_argument() {
    let args = strings(&["remove", "a", "-b", "", "-", "c", "a"]);
    let inv = parse_invocation(&args).unwrap();
    assert_eq!(inv.flags.len() + inv.modifiers.len(), args.len() - 1);
    assert!(inv.flags.iter().all(|f| f.starts_with('-')));
    assert!(inv.modifiers.iter().all(|m| !m.starts_with('-')));
    let mut all: Vec<String> = inv.flags.iter().chain(inv.modifiers.iter()).cloned().collect();
    let mut rest: Vec<String> = args[1..].to_vec();
    all.sort();
    rest.sort();
    assert_eq!(all, rest);
}

#[test]
fn operation_names() {
    assert_eq!(Operation::from_name(&"init-repo".to_string()), Operation::InitRepo);
    assert_eq!(Operation::from_name(&"build".to_string()), Operation::Build);
    assert_eq!(Operation::from_name(&"new-srcpkg".to_string()), Operation::NewSrcPkg);
    assert_eq!(Operation::from_name(&"query".to_string()), Operation::Query);
    assert_eq!(Operation::from_name(&"remove".to_string()), Operation::Remove);
    assert_eq!(Operation::from_name(&"help".to_string()), Operation::Help);
    assert_eq!(Operation::from_name(&"Build".to_string()), Operation::Help);
    assert_eq!(Operation::from_name(&"".to_string()), Operation::Help);
}

#[test]
fn join_and_concat() {
    assert_eq!(join_path("a", "b"), "a/b");
    assert_eq!(join_path("", "b"), "/b");
    assert_eq!(concat3("x", "", "z"), "xz");
}

#[test]
fn init_repo_layout() {
    let l = InitRepoLayout::new("myrepo");
    assert_eq!(l.config_file, "myrepo/sgma.toml");
    assert_eq!(l.out_dir, "myrepo/out");
    assert_eq!(l.src_dir, "myrepo/src");
    assert_eq!(l.database, "myrepo/out/db.sqlite");
}

#[test]
fn source_layout() {
    let l = SourceLayout::new("src", "hello");
    assert_eq!(l.root, "src/hello");
    assert_eq!(l.scripts_dir, "src/hello/scripts");
    assert_eq!(l.config_dir, "src/hello/config");
    assert_eq!(l.build_script, "src/hello/build.sh");
    assert_eq!(l.pre_script, "src/hello/scripts/pre.sh");
    assert_eq!(l.post_script, "src/hello/scripts/post.sh");
    assert_eq!(l.hook_script, "src/hello/scripts/hook.sh");
    assert_eq!(l.metadata, "src/hello/md.toml");
}

#[test]
fn build_layout() {
    let l = BuildLayout::new("src", "hello");
    assert_eq!(l.source_dir, "src/hello");
    assert_eq!(l.work_dirs, strings(&["out", "src", "built", "built/overlay", "built/scripts"]));
    assert_eq!(l.tarball, "out/hello.tar");
    assert_eq!(l.compressed, "out/hello.tar.zst");
    assert_eq!(l.staged_metadata, "built/md.toml");
    assert_eq!(l.package_file, "src/hello/out/hello.tar.zst");
    assert_eq!(l.built_dir, "src/hello/built");
    assert_eq!(l.out_dir, "src/hello/out");
    assert_eq!(l.database, "out/db.sqlite");
}

#[test]
fn new_source_package_metadata() {
    let m = PackageMetadata::new_source_package("hello");
    assert_eq!(m.name, "hello");
    assert_eq!(m.version, "0.1.0");
    assert_eq!(m.arch, "any");
    assert_eq!(m.description, Some(String::new()));
    assert_eq!(m.license, Some(String::new()));
    assert!(m.authors.is_empty());
    assert!(m.tracked_files.is_empty());
    assert_eq!(m.dependencies, Some(Vec::new()));
    assert_eq!(m.provides, Some(Vec::new()));
    assert_eq!(m.conflicts, Some(Vec::new()));
    assert_eq!(m.reccomendations, Some(Vec::new()));
}

#[test]
fn templates_are_bash_scripts() {
    for t in [BUILD_SH, PRE_SH, POST_SH, HOOK_SH] {
        assert!(t.starts_with("#!/usr/bin/env bash\n"));
        assert!(t.ends_with("main\n"));
    }
    assert!(BUILD_SH.contains("git clone xyz ${src}"));
    assert!(PRE_SH.contains("mkdir -p \"/opt/$pkgname\""));
    assert!(POST_SH.contains("rm -r \"/opt/$pkgname\""));
    assert!(HOOK_SH.contains("hookname=\"wasting time\""));
}

#[test]
fn compression_level() {
    assert_eq!(PACKAGE_COMPRESSION_LEVEL, 11);
}

#[test]
fn compress_package_round_trip() {
    let data: Vec<u8> = b"a tarball, a tarball, a tarball, a tarball".repeat(50);
    let compressed = match compress_package(&data) {
        Ok(c) => c,
        Err(CompressError::Zstd(e)) => panic!("compression failed: {}", e),
    };
    assert_ne!(compressed, data);
    // a zstd frame starts with its magic number
    assert_eq!(&compressed[..4], &[0x28, 0xb5, 0x2f, 0xfd]);
    assert!(compressed.len() < data.len());
    let mut ctx = zstd_util::ZstdContext::new(11, Some(&[]));
    assert_eq!(ctx.decompress(&compressed).unwrap(), data);
}

#[test]
fn compress_package_is_deterministic() {
    let data: Vec<u8> = (0u32..5000).map(|i| (i % 251) as u8).collect();
    let a = compress_package(&data).ok().unwrap();
    let b = compress_package(&data).ok().unwrap();
    assert_eq!(a, b);
}

#[test]
fn compress_package_empty_input() {
    let compressed = compress_package(&[]).ok().unwrap();
    assert_eq!(&compressed[..4], &[0x28, 0xb5, 0x2f, 0xfd]);
}

#[test]
fn finish_compression_passes_bytes_through() {
    let r = finish_compression(Ok(vec![1, 2, 3]));
    assert!(matches!(r, Ok(ref v) if v == &vec![1, 2, 3]));
}

#[test]
fn finish_compression_wraps_the_error() {
    let raw = Err(zstd_util::Error::ZSTDError { message: "Destination buffer is too small", error_code: 70 });
    match finish_compression(raw) {
        Err(CompressError::Zstd(zstd_util::Error::ZSTDError { error_code, .. })) => assert_eq!(error_code, 70),
        Ok(_) => panic!("an error must stay an error"),
    }
}

#[test]
fn repo_error_messages() {
    assert_eq!(RepoError::NoConfigFile.message(), "Could not find sgma.toml, have you initialised a repository?");
    assert_eq!(RepoError::NoSrcpath.message(), "No srcpath specified in sgma.toml");
    assert_eq!(RepoError::NoOutpath.message(), "No outpath specified in sgma.toml");
}

#[test]
fn config_debug_names_its_fields() {
    let text = format!("{:?}", ConfigFile::default());
    assert!(text.contains("outpath") && text.contains("srcpath") && text.contains("exclude"));
}
