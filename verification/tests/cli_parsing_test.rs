use cargo_crusader::cli::{ArgumentFault, CliArgs, DEFAULT_JOBS, DEFAULT_TOP_DEPENDENTS};
use cargo_crusader::config::{
    base_staging_path, check_crate_name, counts_as_dirty, crate_cache_path, default_manifest,
    join_path, manifest_path_for, staging_path, Config, CrateOverride, MANIFEST_BACKUP,
};

fn args() -> CliArgs {
    CliArgs {
        path: None,
        crate_name: None,
        top_dependents: 5,
        dependents: vec![],
        dependent_paths: vec![],
        test_versions: vec![],
        force_versions: vec![],
        jobs: 1,
        output: "report.html".to_string(),
        staging_dir: ".crusader/staging".to_string(),
        no_check: false,
        no_test: false,
        json: false,
    }
}

#[test]
fn test_cli_parsing_smoke_test() {
    assert!(true);
    assert!(args().validate(true).is_ok());
}

#[test]
fn test_default_top_dependents() {
    assert_eq!(DEFAULT_TOP_DEPENDENTS, 5);
    assert_eq!(DEFAULT_JOBS, 1);
    assert_eq!(args().top_dependents, DEFAULT_TOP_DEPENDENTS);
}

#[test]
fn test_explicit_dependents_parsing() {
    let mut a = args();
    a.top_dependents = 0;
    a.dependents = vec!["serde".to_string(), "tokio".to_string(), "async-std".to_string()];
    assert!(a.validate(true).is_ok());
    assert!(!a.is_offline_mode());
}

#[test]
fn test_dependent_paths_parsing() {
    let mut a = args();
    a.top_dependents = 0;
    a.dependent_paths = vec!["./foo".to_string(), "./bar".to_string()];
    assert!(a.validate(true).is_ok());
    assert!(a.is_offline_mode());
}

#[test]
fn test_both_no_flags_rejected() {
    let mut a = args();
    a.no_check = true;
    a.no_test = true;
    assert_eq!(a.check(true), Err(ArgumentFault::BothStepsSkipped));
    assert_eq!(
        a.validate(true),
        Err("Cannot specify both --no-check and --no-test".to_string())
    );
}

#[test]
fn test_validate_both_no_flags_fails() {
    let args = CliArgs {
        path: None,
        crate_name: None,
        top_dependents: 5,
        dependents: vec![],
        dependent_paths: vec![],
        test_versions: vec![],
        force_versions: vec![],
        jobs: 1,
        output: "report.html".to_string(),
        staging_dir: ".crusader/staging".to_string(),
        no_check: true,
        no_test: true,
        json: false,
    };
    assert!(args.validate(true).is_err());
    assert!(args.validate(false).is_err());
}

#[test]
fn test_validate_zero_jobs_fails() {
    let args = CliArgs {
        path: None,
        crate_name: None,
        top_dependents: 5,
        dependents: vec![],
        dependent_paths: vec![],
        test_versions: vec![],
        force_versions: vec![],
        jobs: 0,
        output: "report.html".to_string(),
        staging_dir: ".crusader/staging".to_string(),
        no_check: false,
        no_test: false,
        json: false,
    };
    assert!(args.validate(true).is_err());
    assert_eq!(args.validate(true), Err("--jobs must be at least 1".to_string()));
}

#[test]
fn test_validate_valid_config_succeeds() {
    let args = CliArgs {
        path: Some("./Cargo.toml.test".to_string()),
        crate_name: None,
        top_dependents: 5,
        dependents: vec![],
        dependent_paths: vec![],
        test_versions: vec![],
        force_versions: vec![],
        jobs: 1,
        output: "report.html".to_string(),
        staging_dir: ".crusader/staging".to_string(),
        no_check: false,
        no_test: false,
        json: false,
    };
    assert!(args.validate(false).is_ok());
}

#[test]
fn test_is_offline_mode() {
    let args = CliArgs {
        path: None,
        crate_name: None,
        top_dependents: 0,
        dependents: vec![],
        dependent_paths: vec!["/tmp/crate".to_string()],
        test_versions: vec![],
        force_versions: vec![],
        jobs: 1,
        output: "report.html".to_string(),
        staging_dir: ".crusader/staging".to_string(),
        no_check: false,
        no_test: false,
        json: false,
    };
    assert!(args.is_offline_mode());
}

#[test]
fn test_not_offline_mode_with_dependents() {
    let args = CliArgs {
        path: None,
        crate_name: None,
        top_dependents: 0,
        dependents: vec!["serde".to_string()],
        dependent_paths: vec![],
        test_versions: vec![],
        force_versions: vec![],
        jobs: 1,
        output: "report.html".to_string(),
        staging_dir: ".crusader/staging".to_string(),
        no_check: false,
        no_test: false,
        json: false,
    };
    assert!(!args.is_offline_mode());
}

#[test]
fn test_faults_in_order() {
    let mut a = args();
    a.no_check = true;
    a.no_test = true;
    a.top_dependents = 0;
    a.jobs = 0;
    assert_eq!(a.check(false), Err(ArgumentFault::BothStepsSkipped));
    a.no_test = false;
    assert_eq!(a.check(false), Err(ArgumentFault::NoDependents));
    assert_eq!(
        a.validate(false),
        Err("Must specify at least one of: --top-dependents, --dependents, or --dependent-paths".to_string())
    );
    a.dependent_paths = vec!["x".to_string()];
    assert_eq!(a.check(false), Err(ArgumentFault::NoJobs));
    a.jobs = 4;
    assert_eq!(a.check(false), Err(ArgumentFault::NoSubject));
    assert_eq!(
        a.validate(false),
        Err("Cannot determine which crate to test. Please specify --path <PATH>, --crate <NAME>, or run from a crate directory with ./Cargo.toml".to_string())
    );
    assert_eq!(a.check(true), Ok(()));
    a.crate_name = Some("rgb".to_string());
    assert_eq!(a.check(false), Ok(()));
    a.crate_name = None;
    a.path = Some("/work/rgb".to_string());
    assert_eq!(a.check(false), Ok(()));
}

#[test]
fn test_parse_args_splits_version_lists() {
    let mut raw = args();
    raw.test_versions = vec!["0.8.51 0.8.91-alpha.3".to_string(), "latest".to_string(), "  ".to_string(), "\t1.0.0\u{a0}\n2.0.0 ".to_string()];
    raw.force_versions = vec!["".to_string(), "0.9.0".to_string()];
    raw.dependents = vec!["a b".to_string()];
    let parsed = CliArgs::parse_args(raw);
    assert_eq!(parsed.test_versions, vec!["0.8.51", "0.8.91-alpha.3", "latest", "1.0.0", "2.0.0"]);
    assert_eq!(parsed.force_versions, vec!["0.9.0"]);
    assert_eq!(parsed.dependents, vec!["a b"]);
    assert_eq!(parsed.top_dependents, 5);
    assert_eq!(parsed.output, "report.html");
}

#[test]
fn test_validate_rejects_requirements_in_version_lists() {
    let mut a = args();
    a.crate_name = Some("rgb".to_string());
    a.test_versions = vec!["0.8.50".to_string(), "^0.8".to_string(), "~1".to_string()];
    assert_eq!(
        a.validate(false),
        Err("Version requirement '^0.8' not allowed in --test-versions. Use concrete versions like '0.8.52'".to_string())
    );

    let mut a = args();
    a.crate_name = Some("rgb".to_string());
    a.test_versions = vec!["latest".to_string(), "0.8.50".to_string()];
    a.force_versions = vec!["latest-preview".to_string(), "=0.8.51".to_string()];
    assert_eq!(
        a.validate(false),
        Err("Version requirement '=0.8.51' not allowed in --force-versions. Use concrete versions like '0.8.52'".to_string())
    );

    // The list of versions to test is looked at before the forced ones.
    let mut a = args();
    a.test_versions = vec!["~1.2".to_string()];
    a.force_versions = vec!["^2".to_string()];
    assert_eq!(
        a.validate(true),
        Err("Version requirement '~1.2' not allowed in --test-versions. Use concrete versions like '0.8.52'".to_string())
    );

    // The faults of the other arguments come first.
    let mut a = args();
    a.jobs = 0;
    a.test_versions = vec!["^1".to_string()];
    assert_eq!(a.validate(true), Err("--jobs must be at least 1".to_string()));

    let mut a = args();
    a.test_versions = vec!["latest".to_string(), "1.0.0-rc.1".to_string(), "".to_string()];
    a.force_versions = vec!["latest-prerelease".to_string(), "2.0.0".to_string()];
    assert_eq!(a.validate(true), Ok(()));
}

fn config(hash: Option<&str>, dirty: bool) -> Config {
    Config {
        crate_name: "rgb".to_string(),
        version: "1.0.0".to_string(),
        git_hash: hash.map(|h| h.to_string()),
        is_dirty: dirty,
        staging_dir: ".crusader/staging".to_string(),
        base_override: CrateOverride::Default,
        next_override: CrateOverride::Source("/work/rgb/Cargo.toml".to_string()),
        limit: None,
        force_versions: vec![],
    }
}

#[test]
fn test_display_version() {
    assert_eq!(config(Some("abc123f"), true).display_version(), "1.0.0 abc123f*");
    assert_eq!(config(Some("abc123f"), false).display_version(), "1.0.0 abc123f");
    assert_eq!(config(None, true).display_version(), "1.0.0*");
    assert_eq!(config(None, false).display_version(), "1.0.0");
    assert_eq!(config(None, false).local_source(), Some("/work/rgb/Cargo.toml".to_string()));
    let mut published = config(None, false);
    published.next_override = CrateOverride::Default;
    assert_eq!(published.local_source(), None);
}

#[test]
fn test_dirty() {
    assert!(counts_as_dirty(&None, false));
    assert!(counts_as_dirty(&None, true));
    assert!(counts_as_dirty(&Some("abc".to_string()), true));
    assert!(!counts_as_dirty(&Some("abc".to_string()), false));
}

#[test]
fn test_paths() {
    assert_eq!(join_path("/work/rgb", "Cargo.toml"), "/work/rgb/Cargo.toml");
    assert_eq!(join_path("/work/rgb/", "Cargo.toml"), "/work/rgb/Cargo.toml");
    assert_eq!(join_path("", "Cargo.toml"), "Cargo.toml");
    assert_eq!(join_path("/", "x"), "/x");
    assert_eq!(manifest_path_for("/work/rgb", true), "/work/rgb/Cargo.toml");
    assert_eq!(manifest_path_for("/work/rgb/Other.toml", false), "/work/rgb/Other.toml");
    assert_eq!(default_manifest(None), "./Cargo.toml");
    assert_eq!(default_manifest(Some("/m/Cargo.toml".to_string())), "/m/Cargo.toml");
    assert_eq!(staging_path(".crusader/staging", "load_image", "3.3.1"), ".crusader/staging/load_image-3.3.1");
    assert_eq!(base_staging_path(".crusader/staging", "rgb", "0.8.52"), ".crusader/staging/base-rgb-0.8.52");
    assert_eq!(crate_cache_path("serde", "1.0.0"), "./.crusader/crate-cache/serde/serde-1.0.0.crate");
    assert_eq!(MANIFEST_BACKUP, "Cargo.toml.original.txt");
}

#[test]
fn test_check_crate_name() {
    assert!(check_crate_name("rgb", "/work/rgb/Cargo.toml", "rgb").is_ok());
    let e = check_crate_name("rgb", "/work/x/Cargo.toml", "rgba").unwrap_err();
    assert_eq!(
        e.message(),
        "process error: Crate name mismatch: --crate specifies 'rgb' but /work/x/Cargo.toml contains 'rgba'"
    );
}
