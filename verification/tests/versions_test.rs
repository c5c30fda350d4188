use cargo_crusader::manifest::{
    check_requirement, extract_requirement_string, get_crate_name, requirement_in_document,
    self_identity, subject_requirement,
};
use cargo_crusader::results::Error;
use cargo_crusader::versions::{
    check_version, latest_version, requirement_satisfied, resolve_latest_version, valid_version,
};

fn texts(list: &[&str]) -> Vec<String> {
    list.iter().map(|s| s.to_string()).collect()
}

fn string_value(s: &str) -> toml::Value {
    toml::Value::String(s.to_string())
}

#[test]
fn test_check_requirement_string_exact_version() {
    let req = toml::Value::String("0.2.0".to_string());
    assert!(check_requirement(&req, "0.2.0").unwrap());
}

#[test]
fn test_check_requirement_string_caret() {
    let req = toml::Value::String("^0.1.0".to_string());
    assert!(check_requirement(&req, "0.1.5").unwrap());
    assert!(!check_requirement(&req, "0.2.0").unwrap());
}

#[test]
fn test_check_requirement_string_tilde() {
    let req = toml::Value::String("~0.1.0".to_string());
    assert!(check_requirement(&req, "0.1.9").unwrap());
    assert!(!check_requirement(&req, "0.2.0").unwrap());
}

#[test]
fn test_check_requirement_wildcard() {
    let req = toml::Value::String("*".to_string());
    assert!(check_requirement(&req, "999.999.999").unwrap());
}

#[test]
fn test_check_requirement_table_with_version() {
    let mut table = toml::map::Map::new();
    table.insert("version".to_string(), toml::Value::String("^0.1.0".to_string()));
    table.insert("features".to_string(), toml::Value::Array(vec![]));
    let req = toml::Value::Table(table);

    assert!(check_requirement(&req, "0.1.5").unwrap());
    assert!(!check_requirement(&req, "0.2.0").unwrap());
}

#[test]
fn test_check_requirement_table_without_version() {
    let mut table = toml::map::Map::new();
    table.insert("path".to_string(), toml::Value::String("../local".to_string()));
    let req = toml::Value::Table(table);

    assert!(check_requirement(&req, "999.999.999").unwrap());
}

#[test]
fn test_check_requirement_gte_operator() {
    let req = toml::Value::String(">=0.1.0".to_string());
    assert!(check_requirement(&req, "0.2.0").unwrap());
    assert!(!check_requirement(&req, "0.0.9").unwrap());
}

#[test]
fn test_check_requirement_complex_range() {
    let req = toml::Value::String(">=0.1.0, <0.3.0".to_string());
    assert!(check_requirement(&req, "0.1.5").unwrap());
    assert!(check_requirement(&req, "0.2.9").unwrap());
    assert!(!check_requirement(&req, "0.3.0").unwrap());
}

#[test]
fn test_check_requirement_errors() {
    let e = check_requirement(&string_value("not a requirement"), "1.0.0").unwrap_err();
    assert_eq!(
        e.message(),
        format!("semver error: {}", semver::VersionReq::parse("not a requirement").unwrap_err())
    );
    let e = check_requirement(&string_value("^1"), "1.0").unwrap_err();
    assert_eq!(e.message(), format!("semver error: {}", semver::Version::parse("1.0").unwrap_err()));
    // The version is read first.
    let e = check_requirement(&string_value("@"), "x").unwrap_err();
    assert_eq!(e.message(), format!("semver error: {}", semver::Version::parse("x").unwrap_err()));
}

#[test]
fn test_requirement_string_of_other_shapes() {
    assert_eq!(extract_requirement_string(&string_value("^1.2")), "^1.2");
    assert_eq!(extract_requirement_string(&toml::Value::Integer(3)), "*");
    assert_eq!(extract_requirement_string(&toml::Value::Boolean(true)), "*");
    assert_eq!(extract_requirement_string(&toml::Value::Array(vec![string_value("1")])), "*");
    let mut table = toml::map::Map::new();
    table.insert("version".to_string(), toml::Value::Integer(1));
    assert_eq!(extract_requirement_string(&toml::Value::Table(table)), "*");
}

#[test]
fn test_valid_version() {
    for v in ["0.0.0", "1.2.3", "1.0.0-alpha.1", "1.0.0+build.5", "10.20.30-rc.1+x"] {
        assert!(valid_version(v), "{}", v);
        assert!(check_version(v).is_ok());
    }
    for v in ["", "1", "1.0", "1.0.0.0", "v1.0.0", "^1.0.0", "1.0.0 ", "01.0.0", "*"] {
        assert!(!valid_version(v), "{:?}", v);
        let e = check_version(v).unwrap_err();
        assert!(matches!(e, Error::SemverError(_)));
        assert_eq!(e.message(), format!("semver error: {}", semver::Version::parse(v).unwrap_err()));
    }
}

#[test]
fn test_requirement_satisfied() {
    assert_eq!(requirement_satisfied("^0.8.52", "0.8.91").unwrap(), true);
    assert_eq!(requirement_satisfied("^0.8", "0.9.0").unwrap(), false);
    assert_eq!(requirement_satisfied("=1.2.3", "1.2.3").unwrap(), true);
    assert_eq!(requirement_satisfied("1.2", "1.2.9").unwrap(), true);
    assert_eq!(requirement_satisfied("^1.0", "1.1.0-beta").unwrap(), false);
    assert!(requirement_satisfied("", "1.0.0").is_err());
    assert!(requirement_satisfied("^1", "").is_err());
}

#[test]
fn test_latest_version() {
    let listed = texts(&["0.8.9", "0.8.52", "garbage", "0.9.0-alpha.1", "0.8.10", "0.1.0"]);
    assert_eq!(latest_version(&listed, false), Some("0.8.52".to_string()));
    assert_eq!(latest_version(&listed, true), Some("0.9.0-alpha.1".to_string()));
    assert_eq!(latest_version(&vec![], true), None);
    assert_eq!(latest_version(&texts(&["nothing", "1.0"]), true), None);
    assert_eq!(latest_version(&texts(&["1.0.0-rc.1", "2.0.0-beta"]), false), None);
    assert_eq!(
        latest_version(&texts(&["1.0.0-alpha", "1.0.0-alpha.1", "1.0.0-beta.11", "1.0.0-beta.2", "1.0.0-rc.1"]), true),
        Some("1.0.0-rc.1".to_string())
    );
    assert_eq!(latest_version(&texts(&["1.0.0-rc.1", "1.0.0"]), true), Some("1.0.0".to_string()));
    assert_eq!(latest_version(&texts(&["2.0.0", "10.0.0", "9.0.0"]), false), Some("10.0.0".to_string()));
    assert_eq!(resolve_latest_version(&listed, false).unwrap(), "0.8.52");
    assert!(matches!(resolve_latest_version(&vec![], false), Err(Error::NoCrateVersions)));
}

const MANIFEST: &str = r#"
[package]
name = "load_image"
version = "3.3.1"

[dependencies]
rgb = "^0.8.52"
imgref = { version = "1.9", features = ["x"] }
local = { path = "../local" }

[dev-dependencies]
rgb = "0.7"
quickcheck = "1"

[build-dependencies]
cc = { version = "1.0" }
"#;

#[test]
fn test_subject_requirement() {
    assert_eq!(subject_requirement(MANIFEST, "rgb"), Some("^0.8.52".to_string()));
    assert_eq!(subject_requirement(MANIFEST, "imgref"), Some("1.9".to_string()));
    assert_eq!(subject_requirement(MANIFEST, "local"), Some("*".to_string()));
    assert_eq!(subject_requirement(MANIFEST, "quickcheck"), Some("1".to_string()));
    assert_eq!(subject_requirement(MANIFEST, "cc"), Some("1.0".to_string()));
    assert_eq!(subject_requirement(MANIFEST, "serde"), None);
    assert_eq!(subject_requirement("this is [not toml", "rgb"), None);
    assert_eq!(subject_requirement("", "rgb"), None);
    assert_eq!(subject_requirement("dependencies = 3\n[dev-dependencies]\nrgb = 5", "rgb"), Some("*".to_string()));

    let doc: toml::Value = toml::from_str(MANIFEST).unwrap();
    assert_eq!(requirement_in_document(&doc, "rgb"), Some("^0.8.52".to_string()));
}

#[test]
fn test_self_identity() {
    assert_eq!(self_identity(MANIFEST).unwrap(), ("load_image".to_string(), "3.3.1".to_string()));
    assert_eq!(get_crate_name(MANIFEST).unwrap(), "load_image");
    assert_eq!(
        self_identity("[package]\nname = \"rgb\"\n").unwrap(),
        ("rgb".to_string(), "0.0.0".to_string())
    );
    assert_eq!(
        self_identity("[package]\nname = \"rgb\"\nversion = { workspace = true }\n").unwrap(),
        ("rgb".to_string(), "0.0.0".to_string())
    );
    assert!(matches!(self_identity("[package]\nversion = \"1.0.0\"\n"), Err(Error::ManifestName)));
    assert!(matches!(self_identity("[package]\nname = 7\n"), Err(Error::ManifestName)));
    assert!(matches!(self_identity("package = \"rgb\"\n"), Err(Error::ManifestName)));
    assert!(matches!(self_identity("[workspace]\nmembers = []\n"), Err(Error::ManifestName)));
    assert!(matches!(get_crate_name(""), Err(Error::ManifestName)));
    let e = self_identity("name = ").unwrap_err();
    let expected = toml::from_str::<toml::Value>("name = ").unwrap_err().to_string();
    assert!(matches!(e, Error::TomlError(ref m) if *m == expected));
}
