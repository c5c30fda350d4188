//! Which version of the subject the build tool resolved, read off the
//! metadata that it prints.
//!
//! The metadata is one JSON document. Its resolver graph lists, for every
//! package, the dependencies that were chosen for it, each under its name
//! and with a package id. The version is taken from the package id of the
//! first dependency that goes by the subject's name.

use vstd::prelude::*;
use vstd::string::*;
use crate::error_extract::text_of;
use crate::json::{
    items_at,
    items_field,
    json_parsed,
    parse,
    text_at,
    text_field,
};
use crate::text::{piece_after, same_text, second_piece, second_word, word_after_first};

verus! {

/// The version that a package id names. An id of the form
/// `source#name@version` names the version behind the `@`. An id of the
/// older form `name version (source)` names it as its second word.
pub open spec fn version_in_package_id(id: Seq<char>) -> Option<Seq<char>> {
    match second_piece(id, '#') {
        Some(fragment) => match second_piece(fragment, '@') {
            Some(v) => Some(v),
            None => second_word(id),
        },
        None => second_word(id),
    }
}

/// Reads the version off a package id.
pub fn package_id_version(id: &str) -> (r: Option<String>)
    ensures
        text_of(r) == version_in_package_id(id@),
{
    match piece_after(id, '#') {
        Some(fragment) => match piece_after(fragment.as_str(), '@') {
            Some(v) => Some(v),
            None => word_after_first(id),
        },
        None => word_after_first(id),
    }
}

/// The version that an entry of a `deps` list yields for the subject: that
/// of its package id, if it goes by the subject's name.
pub open spec fn dependency_version(dep: serde_json::Value, subject: Seq<char>) -> Option<Seq<char>> {
    if text_field(dep, "name"@) == Some(subject) {
        match text_field(dep, "pkg"@) {
            Some(id) => version_in_package_id(id),
            None => None,
        }
    } else {
        None
    }
}

/// The first version that the entries from `from` on yield.
pub open spec fn first_dependency_version(
    deps: Seq<serde_json::Value>,
    subject: Seq<char>,
    from: int,
) -> Option<Seq<char>>
    decreases deps.len() - from,
{
    if from < 0 || from >= deps.len() {
        None
    } else {
        match dependency_version(deps[from], subject) {
            Some(v) => Some(v),
            None => first_dependency_version(deps, subject, from + 1),
        }
    }
}

/// The version that a node of the resolver graph yields: the first that
/// its `deps` yield.
pub open spec fn node_version(node: serde_json::Value, subject: Seq<char>) -> Option<Seq<char>> {
    match items_field(node, "deps"@) {
        Some(deps) => first_dependency_version(deps, subject, 0),
        None => None,
    }
}

/// The first version that the nodes from `from` on yield.
pub open spec fn first_node_version(
    nodes: Seq<serde_json::Value>,
    subject: Seq<char>,
    from: int,
) -> Option<Seq<char>>
    decreases nodes.len() - from,
{
    if from < 0 || from >= nodes.len() {
        None
    } else {
        match node_version(nodes[from], subject) {
            Some(v) => Some(v),
            None => first_node_version(nodes, subject, from + 1),
        }
    }
}

/// The version that the resolver graph of a metadata document yields.
pub open spec fn graph_version(doc: serde_json::Value, subject: Seq<char>) -> Option<Seq<char>> {
    match crate::json::json_field(doc, "resolve"@) {
        Some(resolve) => match items_field(resolve, "nodes"@) {
            Some(nodes) => first_node_version(nodes, subject, 0),
            None => None,
        },
        None => None,
    }
}

/// The version that an entry of the `packages` list yields: its own, if it
/// goes by the subject's name.
pub open spec fn package_version(package: serde_json::Value, subject: Seq<char>) -> Option<Seq<char>> {
    if text_field(package, "name"@) == Some(subject) {
        text_field(package, "version"@)
    } else {
        None
    }
}

/// The first version that the packages from `from` on yield.
pub open spec fn first_package_version(
    packages: Seq<serde_json::Value>,
    subject: Seq<char>,
    from: int,
) -> Option<Seq<char>>
    decreases packages.len() - from,
{
    if from < 0 || from >= packages.len() {
        None
    } else {
        match package_version(packages[from], subject) {
            Some(v) => Some(v),
            None => first_package_version(packages, subject, from + 1),
        }
    }
}

/// The version of the subject that a metadata document yields: that of the
/// resolver graph; failing that, the version of the first package that goes
/// by the subject's name.
pub open spec fn document_version(doc: serde_json::Value, subject: Seq<char>) -> Option<Seq<char>> {
    match graph_version(doc, subject) {
        Some(v) => Some(v),
        None => match items_field(doc, "packages"@) {
            Some(packages) => first_package_version(packages, subject, 0),
            None => None,
        },
    }
}

/// The version of the subject that the text of a metadata document yields;
/// `None` if the text is no JSON.
pub open spec fn metadata_version(text: Seq<char>, subject: Seq<char>) -> Option<Seq<char>> {
    match json_parsed(text) {
        Some(doc) => document_version(doc, subject),
        None => None,
    }
}

fn named(value: &serde_json::Value, subject: &str) -> (b: bool)
    ensures
        b == (text_field(*value, "name"@) == Some(subject@)),
{
    match text_at(value, "name") {
        Some(name) => same_text(name.as_str(), subject),
        None => false,
    }
}

fn version_of_dependency(dep: &serde_json::Value, subject: &str) -> (r: Option<String>)
    ensures
        text_of(r) == dependency_version(*dep, subject@),
{
    if named(dep, subject) {
        match text_at(dep, "pkg") {
            Some(id) => package_id_version(id.as_str()),
            None => None,
        }
    } else {
        None
    }
}

fn version_of_node(node: &serde_json::Value, subject: &str) -> (r: Option<String>)
    ensures
        text_of(r) == node_version(*node, subject@),
{
    let deps = match items_at(node, "deps") {
        Some(deps) => deps,
        None => {
            return None;
        },
    };
    let mut i: usize = 0;
    while i < deps.len()
        invariant
            i <= deps.len(),
            items_field(*node, "deps"@) == Some(deps@),
            first_dependency_version(deps@, subject@, 0) == first_dependency_version(
                deps@,
                subject@,
                i as int,
            ),
        decreases deps.len() - i,
    {
        match version_of_dependency(&deps[i], subject) {
            Some(v) => {
                return Some(v);
            },
            None => {},
        }
        i = i + 1;
    }
    None
}

fn version_in_graph(doc: &serde_json::Value, subject: &str) -> (r: Option<String>)
    ensures
        text_of(r) == graph_version(*doc, subject@),
{
    let resolve = match crate::json::field(doc, "resolve") {
        Some(r) => r,
        None => {
            return None;
        },
    };
    let nodes = match items_at(resolve, "nodes") {
        Some(nodes) => nodes,
        None => {
            return None;
        },
    };
    let mut i: usize = 0;
    while i < nodes.len()
        invariant
            i <= nodes.len(),
            crate::json::json_field(*doc, "resolve"@) == Some(*resolve),
            items_field(*resolve, "nodes"@) == Some(nodes@),
            first_node_version(nodes@, subject@, 0) == first_node_version(
                nodes@,
                subject@,
                i as int,
            ),
        decreases nodes.len() - i,
    {
        match version_of_node(&nodes[i], subject) {
            Some(v) => {
                return Some(v);
            },
            None => {},
        }
        i = i + 1;
    }
    None
}

fn version_in_packages(doc: &serde_json::Value, subject: &str) -> (r: Option<String>)
    ensures
        text_of(r) == match items_field(*doc, "packages"@) {
            Some(packages) => first_package_version(packages, subject@, 0),
            None => None,
        },
{
    let packages = match items_at(doc, "packages") {
        Some(p) => p,
        None => {
            return None;
        },
    };
    let mut i: usize = 0;
    while i < packages.len()
        invariant
            i <= packages.len(),
            items_field(*doc, "packages"@) == Some(packages@),
            first_package_version(packages@, subject@, 0) == first_package_version(
                packages@,
                subject@,
                i as int,
            ),
        decreases packages.len() - i,
    {
        if named(&packages[i], subject) {
            match text_at(&packages[i], "version") {
                Some(v) => {
                    return Some(v);
                },
                None => {},
            }
        }
        i = i + 1;
    }
    None
}

/// Reads the version of the subject that the build tool resolved off the
/// metadata that it printed. `None` when the metadata cannot be read or
/// does not name the subject; the run goes on without the version then.
pub fn verify_dependency_version(metadata: &str, subject_name: &str) -> (r: Option<String>)
    ensures
        text_of(r) == metadata_version(metadata@, subject_name@),
{
    let doc = match parse(metadata) {
        Some(doc) => doc,
        None => {
            return None;
        },
    };
    match version_in_graph(&doc, subject_name) {
        Some(v) => Some(v),
        None => version_in_packages(&doc, subject_name),
    }
}

} // verus!
