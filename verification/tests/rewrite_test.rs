use cargo_crusader::compile::{init_failure_log, log_failure, no_failure_log};
use cargo_crusader::config::{absolute_path, resolve_subject, CrateOverride};
use cargo_crusader::results::Error;
use cargo_crusader::rewrite::force_dependency_spec;

const MANIFEST: &str = r#"# a dependent
[package]
name = "load_image"   # keeps its comment
version = "3.3.1"

[dependencies]
rgb = "^0.8.52"
imgref = { version = "1.9", features = ["x"] }

[dev-dependencies]
rgb = { version = "0.8", default-features = false }

[build-dependencies]
cc = "1"

[features]
rgb = []
"#;

#[test]
fn test_force_replaces_the_subject_in_every_section() {
    let forced = force_dependency_spec(MANIFEST, "rgb", "/work/rgb").unwrap();
    let expected = r#"# a dependent
[package]
name = "load_image"   # keeps its comment
version = "3.3.1"

[dependencies]
rgb = { path = "/work/rgb" }
imgref = { version = "1.9", features = ["x"] }

[dev-dependencies]
rgb = { path = "/work/rgb" }

[build-dependencies]
cc = "1"

[features]
rgb = []
"#;
    assert_eq!(forced, expected);
    let doc: toml::Value = toml::from_str(&forced).unwrap();
    assert_eq!(doc["dependencies"]["rgb"]["path"].as_str(), Some("/work/rgb"));
    assert!(doc["dependencies"]["rgb"].get("version").is_none());
    assert_eq!(doc["dev-dependencies"]["rgb"]["path"].as_str(), Some("/work/rgb"));
    assert_eq!(doc["build-dependencies"]["cc"].as_str(), Some("1"));
}

#[test]
fn test_force_leaves_other_manifests_alone() {
    assert_eq!(force_dependency_spec(MANIFEST, "serde", "/work/serde").unwrap(), MANIFEST);
    assert_eq!(force_dependency_spec("", "rgb", "/work/rgb").unwrap(), "");
    // A section that is written as an inline table is no table with a
    // header and is left as it is.
    let inline = "dependencies = { rgb = \"1\" }\n";
    assert_eq!(force_dependency_spec(inline, "rgb", "/work/rgb").unwrap(), inline);
    let build_only = "[build-dependencies]\nrgb = \"1\"\n";
    assert_eq!(
        force_dependency_spec(build_only, "rgb", "/w").unwrap(),
        "[build-dependencies]\nrgb = { path = \"/w\" }\n"
    );
}

#[test]
fn test_force_fails_on_what_is_no_manifest() {
    let e = force_dependency_spec("[dependencies\nrgb = 1", "rgb", "/work/rgb").unwrap_err();
    let expected = "[dependencies\nrgb = 1".parse::<toml_edit::DocumentMut>().unwrap_err().to_string();
    assert_eq!(e, format!("Failed to parse Cargo.toml: {}", expected));
}

#[test]
fn test_failure_log() {
    assert!(no_failure_log().path.is_none());
    assert!(log_failure(&no_failure_log(), "t", "d", "1", "s", "l", "c", None, "o", "e").is_none());
    let log = init_failure_log("failures.log".to_string());
    assert_eq!(log.path.as_deref(), Some("failures.log"));
    let (path, record) = log_failure(&log, "2024-01-02 03:04:05", "image", "0.25.8", "rgb", "0.9.0", "cargo test", Some(101), "o", "e").unwrap();
    assert_eq!(path, "failures.log");
    assert!(record.starts_with(&format!("\n{}\n[2024-01-02 03:04:05] FAILURE: image 0.25.8 testing rgb 0.9.0\n", "=".repeat(100))));
    assert!(record.contains("\nCommand: cargo test\nExit code: 101\n\n--- STDOUT ---\no\n\n--- STDERR ---\ne\n"));
    assert!(record.ends_with(&format!("{}\n", "=".repeat(100))));
}

#[test]
fn test_absolute_path() {
    assert_eq!(absolute_path("/work/rgb", "/home/me"), "/work/rgb");
    assert_eq!(absolute_path("rgb", "/home/me"), "/home/me/rgb");
    assert_eq!(absolute_path("../rgb", "/home/me/"), "/home/me/../rgb");
    assert_eq!(absolute_path("", "/home/me"), "/home/me/");
}

#[test]
fn test_resolve_subject() {
    let text = |s: &str| s.to_string();
    let manifest = || Some((text("/work/rgb/Cargo.toml"), text("rgb"), text("0.8.91")));

    let s = resolve_subject(None, manifest(), None).unwrap();
    assert_eq!((s.name.as_str(), s.version.as_str()), ("rgb", "0.8.91"));
    assert!(matches!(s.source, CrateOverride::Source(ref p) if p == "/work/rgb/Cargo.toml"));

    let s = resolve_subject(Some(text("rgb")), manifest(), Some(text("0.8.52"))).unwrap();
    assert_eq!((s.name.as_str(), s.version.as_str()), ("rgb", "0.8.91"));

    let e = resolve_subject(Some(text("rgba")), manifest(), None).unwrap_err();
    assert_eq!(
        e.message(),
        "process error: Crate name mismatch: --crate specifies 'rgba' but /work/rgb/Cargo.toml contains 'rgb'"
    );

    let s = resolve_subject(Some(text("rgb")), None, Some(text("0.8.52"))).unwrap();
    assert_eq!((s.name.as_str(), s.version.as_str()), ("rgb", "0.8.52"));
    assert!(matches!(s.source, CrateOverride::Default));

    let s = resolve_subject(Some(text("rgb")), None, None).unwrap();
    assert_eq!(s.version, "0.0.0");

    assert!(matches!(resolve_subject(None, None, Some(text("1.0.0"))), Err(Error::ManifestName)));
}
