//! Reading manifests: what a dependent requires of the subject, and what a
//! package calls itself.
//!
//! Manifests are parsed by the `toml` crate. A parsed value is carried
//! through as it is; what is asked of it has a name here: the value under a
//! key of a table, the text of a string, and whether a value is a table.

use vstd::prelude::*;
use vstd::string::*;
use crate::error_extract::text_of;
use crate::results::{Error, ErrorView};
use crate::text::owned;
use crate::versions::{requirement_satisfied, satisfaction};

verus! {

/// A value of a parsed manifest.
#[verifier::external_type_specification]
#[verifier::external_body]
pub struct ExTomlValue(toml::Value);

/// What `toml::from_str` makes of `text`: the document, or the message of
/// the error.
pub uninterp spec fn toml_parsed(text: Seq<char>) -> Result<toml::Value, Seq<char>>;

/// The value under `key` if `value` is a table that has the key, as
/// `toml::Value::get` yields it.
pub uninterp spec fn toml_field(value: toml::Value, key: Seq<char>) -> Option<toml::Value>;

/// The text of `value` if it is a string, as `toml::Value::as_str` yields
/// it.
pub uninterp spec fn toml_text(value: toml::Value) -> Option<Seq<char>>;

/// Whether `value` is a table, as `toml::Value::is_table` says.
pub uninterp spec fn toml_is_table(value: toml::Value) -> bool;

/// Parses a manifest.
///
/// Wraps `toml::from_str` at the type `toml::Value` and hands back the
/// error's message when it fails. The outcome depends on the text alone.
#[verifier::external_body]
fn parse_toml(text: &str) -> (r: Result<toml::Value, String>)
    ensures
        match r {
            Ok(v) => toml_parsed(text@) == Ok::<toml::Value, Seq<char>>(v),
            Err(m) => toml_parsed(text@) == Err::<toml::Value, Seq<char>>(m@),
        },
{
    match toml::from_str::<toml::Value>(text) {
        Ok(v) => Ok(v),
        Err(e) => Err(e.to_string()),
    }
}

/// Looks up a key.
///
/// Wraps `toml::Value::get` with a string index, which yields the value
/// under the key if `value` is a table that has it and `None` otherwise.
#[verifier::external_body]
fn field<'a>(value: &'a toml::Value, key: &str) -> (r: Option<&'a toml::Value>)
    ensures
        match r {
            Some(v) => toml_field(*value, key@) == Some(*v),
            None => toml_field(*value, key@) is None,
        },
{
    value.get(key)
}

/// The text of a string value.
///
/// Wraps `toml::Value::as_str`.
#[verifier::external_body]
fn text(value: &toml::Value) -> (r: Option<String>)
    ensures
        text_of(r) == toml_text(*value),
{
    value.as_str().map(|s| s.to_string())
}

/// Whether a value is a table.
///
/// Wraps `toml::Value::is_table`.
#[verifier::external_body]
fn is_table(value: &toml::Value) -> (r: bool)
    ensures
        r == toml_is_table(*value),
{
    value.is_table()
}

/// The requirement that an entry of a dependency section states: the
/// entry itself if it is a string; the `version` of the entry if it is a
/// table that has one as a string; any version otherwise.
pub open spec fn requirement_text(entry: toml::Value) -> Seq<char> {
    match toml_text(entry) {
        Some(s) => s,
        None => if toml_is_table(entry) {
            match toml_field(entry, "version"@) {
                Some(v) => match toml_text(v) {
                    Some(s) => s,
                    None => "*"@,
                },
                None => "*"@,
            }
        } else {
            "*"@
        },
    }
}

/// The requirement on `subject` that a section of a manifest states, if
/// the section is there, is a table and names the subject.
pub open spec fn requirement_in(doc: toml::Value, section: Seq<char>, subject: Seq<char>) -> Option<
    Seq<char>,
> {
    match toml_field(doc, section) {
        Some(t) => if toml_is_table(t) {
            match toml_field(t, subject) {
                Some(entry) => Some(requirement_text(entry)),
                None => None,
            }
        } else {
            None
        },
        None => None,
    }
}

/// The requirement on `subject` that a manifest states: that of the first
/// of the sections `dependencies`, `dev-dependencies` and
/// `build-dependencies` that names the subject.
pub open spec fn requirement_of(doc: toml::Value, subject: Seq<char>) -> Option<Seq<char>> {
    match requirement_in(doc, "dependencies"@, subject) {
        Some(r) => Some(r),
        None => match requirement_in(doc, "dev-dependencies"@, subject) {
            Some(r) => Some(r),
            None => requirement_in(doc, "build-dependencies"@, subject),
        },
    }
}

/// The requirement that an entry of a dependency section states.
pub fn extract_requirement_string(entry: &toml::Value) -> (r: String)
    ensures
        r@ == requirement_text(*entry),
{
    match text(entry) {
        Some(s) => s,
        None => {
            if is_table(entry) {
                match field(entry, "version") {
                    Some(v) => match text(v) {
                        Some(s) => s,
                        None => owned("*"),
                    },
                    None => owned("*"),
                }
            } else {
                owned("*")
            }
        },
    }
}

fn requirement_in_section(doc: &toml::Value, section: &str, subject: &str) -> (r: Option<String>)
    ensures
        text_of(r) == requirement_in(*doc, section@, subject@),
{
    match field(doc, section) {
        Some(t) => {
            if is_table(t) {
                match field(t, subject) {
                    Some(entry) => Some(extract_requirement_string(entry)),
                    None => None,
                }
            } else {
                None
            }
        },
        None => None,
    }
}

/// The requirement on `subject_name` that a parsed manifest states.
pub fn requirement_in_document(doc: &toml::Value, subject_name: &str) -> (r: Option<String>)
    ensures
        text_of(r) == requirement_of(*doc, subject_name@),
{
    match requirement_in_section(doc, "dependencies", subject_name) {
        Some(r) => Some(r),
        None => match requirement_in_section(doc, "dev-dependencies", subject_name) {
            Some(r) => Some(r),
            None => requirement_in_section(doc, "build-dependencies", subject_name),
        },
    }
}

/// What a dependent requires of the subject, as its manifest states it.
/// `None` when the manifest cannot be parsed or does not name the subject.
pub fn subject_requirement(manifest: &str, subject_name: &str) -> (r: Option<String>)
    ensures
        text_of(r) == match toml_parsed(manifest@) {
            Ok(doc) => requirement_of(doc, subject_name@),
            Err(_) => None,
        },
{
    match parse_toml(manifest) {
        Ok(doc) => requirement_in_document(&doc, subject_name),
        Err(_) => None,
    }
}

/// Name and version of the package of a parsed manifest: the name must be
/// there as a string in the `package` table; the version is `0.0.0` when
/// it is not.
pub open spec fn identity_of(doc: toml::Value) -> Option<(Seq<char>, Seq<char>)> {
    match toml_field(doc, "package"@) {
        Some(p) => if toml_is_table(p) {
            match toml_field(p, "name"@) {
                Some(n) => match toml_text(n) {
                    Some(name) => Some(
                        (
                            name,
                            match toml_field(p, "version"@) {
                                Some(v) => match toml_text(v) {
                                    Some(version) => version,
                                    None => "0.0.0"@,
                                },
                                None => "0.0.0"@,
                            },
                        ),
                    ),
                    None => None,
                },
                None => None,
            }
        } else {
            None
        },
        None => None,
    }
}

/// What reading the identity off a manifest comes to.
pub open spec fn identity(manifest: Seq<char>) -> Result<(Seq<char>, Seq<char>), ErrorView> {
    match toml_parsed(manifest) {
        Err(m) => Err(ErrorView::TomlError(m)),
        Ok(doc) => match identity_of(doc) {
            Some(pair) => Ok(pair),
            None => Err(ErrorView::ManifestName),
        },
    }
}

/// Name and version of the package that a manifest describes.
pub fn self_identity(manifest: &str) -> (r: Result<(String, String), Error>)
    ensures
        match r {
            Ok(pair) => identity(manifest@) == Ok::<(Seq<char>, Seq<char>), ErrorView>(
                (pair.0@, pair.1@),
            ),
            Err(e) => identity(manifest@) == Err::<(Seq<char>, Seq<char>), ErrorView>(e@),
        },
{
    let doc = match parse_toml(manifest) {
        Ok(doc) => doc,
        Err(m) => {
            return Err(Error::TomlError(m));
        },
    };
    let package = match field(&doc, "package") {
        Some(p) => p,
        None => {
            return Err(Error::ManifestName);
        },
    };
    if !is_table(package) {
        return Err(Error::ManifestName);
    }
    let name = match field(package, "name") {
        Some(n) => match text(n) {
            Some(name) => name,
            None => {
                return Err(Error::ManifestName);
            },
        },
        None => {
            return Err(Error::ManifestName);
        },
    };
    let version = match field(package, "version") {
        Some(v) => match text(v) {
            Some(version) => version,
            None => owned("0.0.0"),
        },
        None => owned("0.0.0"),
    };
    Ok((name, version))
}

/// The name of the package that a manifest describes.
pub fn get_crate_name(manifest: &str) -> (r: Result<String, Error>)
    ensures
        match r {
            Ok(name) => identity(manifest@) is Ok && identity(manifest@)->Ok_0.0 == name@,
            Err(e) => identity(manifest@) == Err::<(Seq<char>, Seq<char>), ErrorView>(e@),
        },
{
    match self_identity(manifest) {
        Ok(pair) => Ok(pair.0),
        Err(e) => Err(e),
    }
}

/// Whether `version` meets the requirement that an entry of a dependency
/// section states.
pub fn check_requirement(entry: &toml::Value, version: &str) -> (r: Result<bool, Error>)
    ensures
        match r {
            Ok(b) => satisfaction(requirement_text(*entry), version@) == Ok::<bool, Seq<char>>(b),
            Err(Error::SemverError(m)) => satisfaction(requirement_text(*entry), version@) == Err::<
                bool,
                Seq<char>,
            >(m@),
            Err(_) => false,
        },
{
    let requirement = extract_requirement_string(entry);
    requirement_satisfied(requirement.as_str(), version)
}

} // verus!
