//! Forcing a version on a dependent by rewriting its manifest.
//!
//! Where a version is to be tested whatever the dependent requires, the
//! entries for the subject in the dependency sections of the dependent's
//! manifest are replaced by an entry that names nothing but a path. The
//! manifest is edited with the `toml_edit` crate, which keeps everything
//! else as it was written. Reading and writing the file is left to the
//! caller, and so is restoring the manifest afterwards.

use vstd::prelude::*;
use vstd::string::*;
use crate::text::owned;

verus! {

/// A manifest as `toml_edit` holds it.
#[verifier::external_type_specification]
#[verifier::external_body]
pub struct ExDocumentMut(toml_edit::DocumentMut);

/// An item of a manifest.
#[verifier::external_type_specification]
#[verifier::external_body]
pub struct ExItem(toml_edit::Item);

/// A table of a manifest.
#[verifier::external_type_specification]
#[verifier::external_body]
pub struct ExTable(toml_edit::Table);

/// What parsing `text` as a `toml_edit::DocumentMut` gives: the document,
/// or the message of the error.
pub uninterp spec fn edit_parsed(text: Seq<char>) -> Result<toml_edit::DocumentMut, Seq<char>>;

/// The item under `key` at the top of the document, as
/// `toml_edit::Table::get` yields it for the document's root table.
pub uninterp spec fn edit_item(doc: toml_edit::DocumentMut, key: Seq<char>) -> Option<
    toml_edit::Item,
>;

/// The table that an item is, if it is one, as `toml_edit::Item::as_table`
/// yields it.
pub uninterp spec fn edit_table(item: toml_edit::Item) -> Option<toml_edit::Table>;

/// Whether a table has an entry under `key`, as
/// `toml_edit::Table::contains_key` says.
pub uninterp spec fn edit_contains(table: toml_edit::Table, key: Seq<char>) -> bool;

/// The document with the entry `name` of the table `section` replaced by
/// an inline table that holds the string `value` under `key` and nothing
/// else.
pub uninterp spec fn edit_with_entry(
    doc: toml_edit::DocumentMut,
    section: Seq<char>,
    name: Seq<char>,
    key: Seq<char>,
    value: Seq<char>,
) -> toml_edit::DocumentMut;

/// The text of the document, as its `Display` writes it.
pub uninterp spec fn edit_rendered(doc: toml_edit::DocumentMut) -> Seq<char>;

/// Parses a manifest for editing.
///
/// Wraps the `FromStr` of `toml_edit::DocumentMut` and hands back the
/// error's message when it fails. The outcome depends on the text alone.
#[verifier::external_body]
fn parse_document(text: &str) -> (r: Result<toml_edit::DocumentMut, String>)
    ensures
        match r {
            Ok(d) => edit_parsed(text@) == Ok::<toml_edit::DocumentMut, Seq<char>>(d),
            Err(m) => edit_parsed(text@) == Err::<toml_edit::DocumentMut, Seq<char>>(m@),
        },
{
    match text.parse::<toml_edit::DocumentMut>() {
        Ok(d) => Ok(d),
        Err(e) => Err(e.to_string()),
    }
}

/// The item under a key at the top of a document.
///
/// Wraps `toml_edit::Table::get`, which a document offers for its root
/// table.
#[verifier::external_body]
fn top_item<'a>(doc: &'a toml_edit::DocumentMut, key: &str) -> (r: Option<&'a toml_edit::Item>)
    ensures
        match r {
            Some(i) => edit_item(*doc, key@) == Some(*i),
            None => edit_item(*doc, key@) is None,
        },
{
    doc.get(key)
}

/// An item as a table.
///
/// Wraps `toml_edit::Item::as_table`, which yields the table for an item
/// that is a table written with a header, and nothing for any other item.
#[verifier::external_body]
fn as_table<'a>(item: &'a toml_edit::Item) -> (r: Option<&'a toml_edit::Table>)
    ensures
        match r {
            Some(t) => edit_table(*item) == Some(*t),
            None => edit_table(*item) is None,
        },
{
    item.as_table()
}

/// Whether a table has an entry.
///
/// Wraps `toml_edit::Table::contains_key`.
#[verifier::external_body]
fn contains(table: &toml_edit::Table, key: &str) -> (r: bool)
    ensures
        r == edit_contains(*table, key@),
{
    table.contains_key(key)
}

/// The section `section` of the document is a table with an entry for
/// `name`.
pub open spec fn names_dependency(
    doc: toml_edit::DocumentMut,
    section: Seq<char>,
    name: Seq<char>,
) -> bool {
    match edit_item(doc, section) {
        Some(item) => match edit_table(item) {
            Some(table) => edit_contains(table, name),
            None => false,
        },
        None => false,
    }
}

/// Replaces an entry of a section by an inline table of one key.
///
/// Assigns `Item::Value(Value::InlineTable(..))`, made by
/// `InlineTable::new` and one `InlineTable::insert` of `key` and the string
/// `value`, to the entry that `Table::get_mut` yields for `name` in the
/// table that `Table::get_mut` and `Item::as_table_mut` yield for
/// `section`. The section must be a table that has the entry.
#[verifier::external_body]
fn set_entry(doc: &mut toml_edit::DocumentMut, section: &str, name: &str, key: &str, value: &str)
    requires
        names_dependency(*old(doc), section@, name@),
    ensures
        *final(doc) == edit_with_entry(*old(doc), section@, name@, key@, value@),
{
    let mut entry = toml_edit::InlineTable::new();
    entry.insert(key, value.into());
    let table = doc.get_mut(section).unwrap().as_table_mut().unwrap();
    *table.get_mut(name).unwrap() = toml_edit::Item::Value(toml_edit::Value::InlineTable(entry));
}

/// The text of a document.
///
/// Wraps the `Display` of `toml_edit::DocumentMut`.
#[verifier::external_body]
fn render(doc: &toml_edit::DocumentMut) -> (r: String)
    ensures
        r@ == edit_rendered(*doc),
{
    doc.to_string()
}

/// The key under which a forced entry names where the subject is taken
/// from.
pub open spec fn path_key() -> Seq<char> {
    "path"@
}

/// The document with the subject's entry in one section replaced, if the
/// section has one, by an entry that holds the path and no version.
pub open spec fn forced_in(
    doc: toml_edit::DocumentMut,
    section: Seq<char>,
    name: Seq<char>,
    path: Seq<char>,
) -> toml_edit::DocumentMut {
    if names_dependency(doc, section, name) {
        edit_with_entry(doc, section, name, path_key(), path)
    } else {
        doc
    }
}

/// The document with the subject's entries replaced in the sections
/// `dependencies`, `dev-dependencies` and `build-dependencies`, in this
/// order.
pub open spec fn forced_document(
    doc: toml_edit::DocumentMut,
    name: Seq<char>,
    path: Seq<char>,
) -> toml_edit::DocumentMut {
    forced_in(
        forced_in(forced_in(doc, "dependencies"@, name, path), "dev-dependencies"@, name, path),
        "build-dependencies"@,
        name,
        path,
    )
}

/// The manifest with the subject forced to a path, or the message for a
/// manifest that does not parse.
pub open spec fn forced_manifest(manifest: Seq<char>, name: Seq<char>, path: Seq<char>) -> Result<
    Seq<char>,
    Seq<char>,
> {
    match edit_parsed(manifest) {
        Ok(doc) => Ok(edit_rendered(forced_document(doc, name, path))),
        Err(m) => Err("Failed to parse Cargo.toml: "@ + m),
    }
}

fn names(doc: &toml_edit::DocumentMut, section: &str, name: &str) -> (b: bool)
    ensures
        b == names_dependency(*doc, section@, name@),
{
    match top_item(doc, section) {
        Some(item) => match as_table(item) {
            Some(table) => contains(table, name),
            None => false,
        },
        None => false,
    }
}

fn force_in(doc: &mut toml_edit::DocumentMut, section: &str, name: &str, path: &str)
    ensures
        *final(doc) == forced_in(*old(doc), section@, name@, path@),
{
    if names(doc, section, name) {
        set_entry(doc, section, name, "path", path);
    }
}

/// Rewrites a manifest so that the dependency `dep_name` is taken from
/// `override_path`, whatever version the manifest asked for. Every entry
/// for the dependency in the three dependency sections is replaced by
/// `{ path = "<override_path>" }`; a manifest without such an entry comes
/// back as `toml_edit` writes it. The path should be absolute.
pub fn force_dependency_spec(manifest: &str, dep_name: &str, override_path: &str) -> (r: Result<
    String,
    String,
>)
    ensures
        match r {
            Ok(text) => forced_manifest(manifest@, dep_name@, override_path@) == Ok::<
                Seq<char>,
                Seq<char>,
            >(text@),
            Err(m) => forced_manifest(manifest@, dep_name@, override_path@) == Err::<
                Seq<char>,
                Seq<char>,
            >(m@),
        },
{
    let mut doc = match parse_document(manifest) {
        Ok(doc) => doc,
        Err(m) => {
            let mut message = owned("Failed to parse Cargo.toml: ");
            message.append(m.as_str());
            return Err(message);
        },
    };
    force_in(&mut doc, "dependencies", dep_name, override_path);
    force_in(&mut doc, "dev-dependencies", dep_name, override_path);
    force_in(&mut doc, "build-dependencies", dep_name, override_path);
    Ok(render(&doc))
}

} // verus!
