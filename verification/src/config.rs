//! What a run knows of the subject, and the names of what it keeps on
//! disk.

use vstd::prelude::*;
use vstd::string::*;
use crate::results::{Error, ErrorView};
use crate::text::{chars_of, owned, same_text};

verus! {

/// Where a version of the subject is taken from.
#[derive(Debug, Clone)]
pub enum CrateOverride {
    /// From the registry.
    Default,
    /// From the manifest at this path.
    Source(String),
}

/// The configuration of a run.
#[derive(Debug, Clone)]
pub struct Config {
    pub crate_name: String,
    pub version: String,
    /// Short hash of the commit that the work in progress stands on.
    pub git_hash: Option<String>,
    /// Whether the work in progress has changes that are not committed.
    pub is_dirty: bool,
    pub staging_dir: String,
    pub base_override: CrateOverride,
    pub next_override: CrateOverride,
    /// The most dependents to test.
    pub limit: Option<usize>,
    /// Versions to test whatever the dependents require.
    pub force_versions: Vec<String>,
}

/// The version of the work in progress as it is shown: the version, the
/// commit hash if there is one, and a star if there are changes that are
/// not committed.
pub open spec fn shown_version(version: Seq<char>, git_hash: Option<Seq<char>>, is_dirty: bool) -> Seq<
    char,
> {
    version + (match git_hash {
        Some(h) => " "@ + h,
        None => Seq::<char>::empty(),
    }) + (if is_dirty {
        "*"@
    } else {
        Seq::<char>::empty()
    })
}

impl Config {
    /// The version of the work in progress for display, as in
    /// `1.0.0 abc123f*`.
    pub fn display_version(&self) -> (s: String)
        ensures
            s@ == shown_version(
                self.version@,
                match self.git_hash {
                    Some(h) => Some(h@),
                    None => None,
                },
                self.is_dirty,
            ),
    {
        let mut s = self.version.clone();
        match &self.git_hash {
            Some(h) => {
                let ghost head = s@;
                s.append(" ");
                s.append(h.as_str());
                assert(s@ =~= head + (" "@ + h@));
            },
            None => {
                assert(s@ =~= s@ + Seq::<char>::empty());
            },
        }
        if self.is_dirty {
            s.append("*");
        } else {
            assert(s@ =~= s@ + Seq::<char>::empty());
        }
        s
    }

    /// The local source of the work in progress, if the run has one.
    pub fn local_source(&self) -> (r: Option<String>)
        ensures
            r == match self.next_override {
                CrateOverride::Source(p) => Some(p),
                CrateOverride::Default => None,
            },
    {
        match &self.next_override {
            CrateOverride::Source(p) => Some(p.clone()),
            CrateOverride::Default => None,
        }
    }
}

/// Whether the work in progress counts as changed: always outside of a
/// repository, and inside one when the repository says so.
pub fn counts_as_dirty(git_hash: &Option<String>, repository_dirty: bool) -> (b: bool)
    ensures
        b == (*git_hash is None || repository_dirty),
{
    git_hash.is_none() || repository_dirty
}

/// `name` under the directory `dir`.
pub open spec fn joined_path(dir: Seq<char>, name: Seq<char>) -> Seq<char> {
    if dir.len() == 0 {
        name
    } else if dir.last() == '/' {
        dir + name
    } else {
        dir + "/"@ + name
    }
}

/// The path of `name` under the directory `dir`.
pub fn join_path(dir: &str, name: &str) -> (s: String)
    ensures
        s@ == joined_path(dir@, name@),
{
    let v = chars_of(dir);
    let mut s = owned(dir);
    if v.len() == 0 {
        return owned(name);
    }
    if v[v.len() - 1] != '/' {
        s.append("/");
    }
    s.append(name);
    s
}

/// The path made absolute: as it is if it begins at the root, under the
/// current directory otherwise.
pub open spec fn absolute(path: Seq<char>, current_dir: Seq<char>) -> Seq<char> {
    if path.len() > 0 && path[0] == '/' {
        path
    } else {
        joined_path(current_dir, path)
    }
}

/// Makes a path absolute, given the current directory.
pub fn absolute_path(path: &str, current_dir: &str) -> (s: String)
    ensures
        s@ == absolute(path@, current_dir@),
{
    let v = chars_of(path);
    if v.len() > 0 && v[0] == '/' {
        owned(path)
    } else {
        join_path(current_dir, path)
    }
}

/// What a run takes for its subject.
#[derive(Debug, Clone)]
pub struct Subject {
    pub name: String,
    pub version: String,
    pub source: CrateOverride,
}

/// The version that stands for a subject of which no version is known.
pub open spec fn unknown_version() -> Seq<char> {
    "0.0.0"@
}

/// The subject of a run, from what the user named and what was found.
/// `named` is the crate that the user named, `manifest` the path of the
/// manifest of the work in progress with the name and version that it
/// states, and `latest` the latest version that the registry lists.
///
/// With a manifest, the subject is what the manifest describes, which must
/// be the crate that was named if one was. Without a manifest, the subject
/// is the crate that was named, at the latest version of the registry if
/// that is known. With neither there is no subject.
pub fn resolve_subject(
    named: Option<String>,
    manifest: Option<(String, String, String)>,
    latest: Option<String>,
) -> (r: Result<Subject, Error>)
    ensures
        match (named, manifest) {
            (_, Some(m)) => if named matches Some(n) && n@ != m.1@ {
                r matches Err(e) && e@ == ErrorView::ProcessError(
                    mismatch_message(named->0@, m.0@, m.1@),
                )
            } else {
                r matches Ok(s) && s.name == m.1 && s.version == m.2 && s.source
                    == CrateOverride::Source(m.0)
            },
            (Some(n), None) => r matches Ok(s) && s.name == n && s.source is Default && s.version@
                == match latest {
                Some(v) => v@,
                None => unknown_version(),
            },
            (None, None) => r matches Err(e) && e@ == ErrorView::ManifestName,
        },
{
    match manifest {
        Some(m) => {
            match &named {
                Some(n) => {
                    match check_crate_name(n.as_str(), m.0.as_str(), m.1.as_str()) {
                        Ok(_) => {},
                        Err(e) => {
                            return Err(e);
                        },
                    }
                },
                None => {},
            }
            Ok(Subject { name: m.1, version: m.2, source: CrateOverride::Source(m.0) })
        },
        None => match named {
            Some(n) => {
                let version = match latest {
                    Some(v) => v,
                    None => owned("0.0.0"),
                };
                Ok(Subject { name: n, version, source: CrateOverride::Default })
            },
            None => Err(Error::ManifestName),
        },
    }
}

/// The manifest that a path given by the user stands for: the manifest in
/// the directory if the path is a directory, the path itself otherwise.
pub fn manifest_path_for(path: &str, is_directory: bool) -> (s: String)
    ensures
        s@ == if is_directory {
            joined_path(path@, "Cargo.toml"@)
        } else {
            path@
        },
{
    if is_directory {
        join_path(path, "Cargo.toml")
    } else {
        owned(path)
    }
}

/// The manifest of a run that names none: the one that the environment
/// names, else the one in the directory of the run.
pub fn default_manifest(from_environment: Option<String>) -> (s: String)
    ensures
        s@ == match from_environment {
            Some(p) => p@,
            None => "./Cargo.toml"@,
        },
{
    match from_environment {
        Some(p) => p,
        None => owned("./Cargo.toml"),
    }
}

/// The message for a manifest that describes another crate than the one
/// that was named.
pub open spec fn mismatch_message(named: Seq<char>, manifest: Seq<char>, found: Seq<char>) -> Seq<
    char,
> {
    "Crate name mismatch: --crate specifies '"@ + named + "' but "@ + manifest + " contains '"@
        + found + "'"@
}

/// Checks that the manifest at `manifest` describes the crate that was
/// named.
pub fn check_crate_name(named: &str, manifest: &str, found: &str) -> (r: Result<(), Error>)
    ensures
        match r {
            Ok(_) => named@ == found@,
            Err(e) => named@ != found@ && e@ == ErrorView::ProcessError(
                mismatch_message(named@, manifest@, found@),
            ),
        },
{
    if same_text(named, found) {
        Ok(())
    } else {
        let mut m = owned("Crate name mismatch: --crate specifies '");
        m.append(named);
        m.append("' but ");
        m.append(manifest);
        m.append(" contains '");
        m.append(found);
        m.append("'");
        Err(Error::ProcessError(m))
    }
}

/// Name of the backup of a manifest, beside the manifest.
pub const MANIFEST_BACKUP: &'static str = "Cargo.toml.original.txt";

/// Name of the directory of a dependent in the staging directory.
pub open spec fn entry_name(name: Seq<char>, version: Seq<char>) -> Seq<char> {
    name + "-"@ + version
}

/// The directory in which a version of a dependent is unpacked.
pub fn staging_path(staging_dir: &str, name: &str, version: &str) -> (s: String)
    ensures
        s@ == joined_path(staging_dir@, entry_name(name@, version@)),
{
    let mut entry = owned(name);
    entry.append("-");
    entry.append(version);
    join_path(staging_dir, entry.as_str())
}

/// The directory in which a published version of the subject is unpacked
/// to serve as an override.
pub fn base_staging_path(staging_dir: &str, subject: &str, version: &str) -> (s: String)
    ensures
        s@ == joined_path(staging_dir@, "base-"@ + entry_name(subject@, version@)),
{
    let mut entry = owned("base-");
    entry.append(subject);
    entry.append("-");
    entry.append(version);
    assert(entry@ =~= "base-"@ + entry_name(subject@, version@));
    join_path(staging_dir, entry.as_str())
}

/// The file in which the download of a version of a crate is kept.
pub fn crate_cache_path(name: &str, version: &str) -> (s: String)
    ensures
        s@ == joined_path(
            joined_path("./.crusader/crate-cache"@, name@),
            entry_name(name@, version@) + ".crate"@,
        ),
{
    let dir = join_path("./.crusader/crate-cache", name);
    let mut file = owned(name);
    file.append("-");
    file.append(version);
    file.append(".crate");
    join_path(dir.as_str(), file.as_str())
}

} // verus!
