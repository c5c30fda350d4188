//! Version numbers and version requirements, read with the `semver` crate.
//!
//! Versions and requirements are held as text. What the `semver` crate says
//! of a text has a name here: whether it is a version, whether it is a
//! requirement, whether a version is a pre-release, which of two versions
//! comes first, and whether a version meets a requirement.

use vstd::prelude::*;
use vstd::string::*;
use crate::error_extract::text_of;
use crate::results::Error;

verus! {

/// The message with which `semver::Version::parse` rejects `text`; `None`
/// if it accepts it.
pub uninterp spec fn semver_version_error(text: Seq<char>) -> Option<Seq<char>>;

/// The message with which `semver::VersionReq::parse` rejects `text`;
/// `None` if it accepts it.
pub uninterp spec fn semver_requirement_error(text: Seq<char>) -> Option<Seq<char>>;

/// Whether the version that `version` parses to meets the requirement that
/// `requirement` parses to, as `semver::VersionReq::matches` says.
pub uninterp spec fn semver_matches(requirement: Seq<char>, version: Seq<char>) -> bool;

/// Whether the pre-release part of the version that `text` parses to is
/// empty, as `semver::Prerelease::is_empty` says.
pub uninterp spec fn semver_release(text: Seq<char>) -> bool;

/// Whether the version that `text` parses to has a pre-release part.
pub open spec fn semver_is_prerelease(text: Seq<char>) -> bool {
    !semver_release(text)
}

/// Whether the version that `a` parses to is less than the one that `b`
/// parses to, in the order of `semver::Version`.
pub uninterp spec fn semver_less(a: Seq<char>, b: Seq<char>) -> bool;

/// `text` is a version number.
pub open spec fn is_version(text: Seq<char>) -> bool {
    semver_version_error(text) is None
}

/// `text` is a version requirement.
pub open spec fn is_requirement(text: Seq<char>) -> bool {
    semver_requirement_error(text) is None
}

/// Tries `text` as a version.
///
/// Wraps `semver::Version::parse` and hands back the error's message when
/// it fails. The outcome depends on the text alone.
#[verifier::external_body]
fn version_error(text: &str) -> (r: Option<String>)
    ensures
        text_of(r) == semver_version_error(text@),
{
    match semver::Version::parse(text) {
        Ok(_) => None,
        Err(e) => Some(e.to_string()),
    }
}

/// Tries `text` as a requirement.
///
/// Wraps `semver::VersionReq::parse` and hands back the error's message
/// when it fails. The outcome depends on the text alone.
#[verifier::external_body]
fn requirement_error(text: &str) -> (r: Option<String>)
    ensures
        text_of(r) == semver_requirement_error(text@),
{
    match semver::VersionReq::parse(text) {
        Ok(_) => None,
        Err(e) => Some(e.to_string()),
    }
}

/// Holds a version against a requirement.
///
/// Wraps `semver::VersionReq::matches` on the parsed texts. Both texts must
/// parse; the answer depends on them alone.
#[verifier::external_body]
fn matches_requirement(requirement: &str, version: &str) -> (r: bool)
    requires
        is_requirement(requirement@),
        is_version(version@),
    ensures
        r == semver_matches(requirement@, version@),
{
    let req = semver::VersionReq::parse(requirement).unwrap();
    req.matches(&semver::Version::parse(version).unwrap())
}

/// Whether a version has no pre-release part.
///
/// Wraps `semver::Prerelease::is_empty` on the `pre` field of the parsed
/// version. The text must parse.
#[verifier::external_body]
fn release(text: &str) -> (r: bool)
    requires
        is_version(text@),
    ensures
        r == semver_release(text@),
{
    semver::Version::parse(text).unwrap().pre.is_empty()
}

fn prerelease(text: &str) -> (r: bool)
    requires
        is_version(text@),
    ensures
        r == semver_is_prerelease(text@),
{
    !release(text)
}

/// Whether version `a` comes before version `b`.
///
/// Wraps the `<` of `semver::Version` on the parsed texts. Both texts must
/// parse.
#[verifier::external_body]
fn version_less(a: &str, b: &str) -> (r: bool)
    requires
        is_version(a@),
        is_version(b@),
    ensures
        r == semver_less(a@, b@),
{
    semver::Version::parse(a).unwrap() < semver::Version::parse(b).unwrap()
}

/// Whether `text` is a version number.
pub fn valid_version(text: &str) -> (b: bool)
    ensures
        b == is_version(text@),
{
    version_error(text).is_none()
}

/// Checks that `text` is a version number.
pub fn check_version(text: &str) -> (r: Result<(), Error>)
    ensures
        match r {
            Ok(_) => is_version(text@),
            Err(Error::SemverError(m)) => semver_version_error(text@) == Some(m@),
            Err(_) => false,
        },
{
    match version_error(text) {
        None => Ok(()),
        Some(m) => Err(Error::SemverError(m)),
    }
}

/// What holding `version` against `requirement` comes to: an error if the
/// version does not parse, else an error if the requirement does not
/// parse, else whether the version meets the requirement.
pub open spec fn satisfaction(requirement: Seq<char>, version: Seq<char>) -> Result<
    bool,
    Seq<char>,
> {
    match semver_version_error(version) {
        Some(m) => Err(m),
        None => match semver_requirement_error(requirement) {
            Some(m) => Err(m),
            None => Ok(semver_matches(requirement, version)),
        },
    }
}

/// Whether `version` meets `requirement`, by the rules of semantic
/// versioning. Fails when either text cannot be read.
pub fn requirement_satisfied(requirement: &str, version: &str) -> (r: Result<bool, Error>)
    ensures
        match r {
            Ok(b) => satisfaction(requirement@, version@) == Ok::<bool, Seq<char>>(b),
            Err(Error::SemverError(m)) => satisfaction(requirement@, version@) == Err::<
                bool,
                Seq<char>,
            >(m@),
            Err(_) => false,
        },
{
    match version_error(version) {
        Some(m) => Err(Error::SemverError(m)),
        None => match requirement_error(requirement) {
            Some(m) => Err(Error::SemverError(m)),
            None => Ok(matches_requirement(requirement, version)),
        },
    }
}

/// A candidate for the latest version: a version number, and not a
/// pre-release unless those are asked for.
pub open spec fn eligible(text: Seq<char>, include_prerelease: bool) -> bool {
    is_version(text) && (include_prerelease || !semver_is_prerelease(text))
}

/// Index of the latest among the first `n` candidates: the greatest of the
/// eligible ones, and of two that are not less than each other the later.
pub open spec fn latest_index(
    candidates: Seq<String>,
    include_prerelease: bool,
    n: int,
) -> Option<int>
    decreases n,
{
    if n <= 0 {
        None
    } else {
        let before = latest_index(candidates, include_prerelease, n - 1);
        if !eligible(candidates[n - 1]@, include_prerelease) {
            before
        } else {
            match before {
                None => Some(n - 1),
                Some(b) => if semver_less(candidates[n - 1]@, candidates[b]@) {
                    before
                } else {
                    Some(n - 1)
                },
            }
        }
    }
}

/// The latest index, if any, is that of an eligible candidate.
pub proof fn lemma_latest_is_eligible(candidates: Seq<String>, include_prerelease: bool, n: int)
    requires
        0 <= n <= candidates.len(),
    ensures
        match latest_index(candidates, include_prerelease, n) {
            Some(k) => 0 <= k < n && eligible(candidates[k]@, include_prerelease),
            None => forall|i: int| 0 <= i < n ==> !eligible(#[trigger] candidates[i]@, include_prerelease),
        },
    decreases n,
{
    if n > 0 {
        lemma_latest_is_eligible(candidates, include_prerelease, n - 1);
    }
}

/// The latest of the versions that a registry lists for a crate: the
/// greatest version number among them, pre-releases left out unless
/// `include_prerelease`. Entries that are no version numbers are passed
/// over. `None` when nothing is left.
pub fn latest_version(candidates: &Vec<String>, include_prerelease: bool) -> (r: Option<String>)
    ensures
        match latest_index(candidates@, include_prerelease, candidates@.len() as int) {
            Some(k) => r == Some(candidates@[k]),
            None => r is None,
        },
{
    let mut best: Option<usize> = None;
    let mut i: usize = 0;
    while i < candidates.len()
        invariant
            i <= candidates.len(),
            match best {
                Some(b) => latest_index(candidates@, include_prerelease, i as int) == Some(
                    b as int,
                ) && b < i,
                None => latest_index(candidates@, include_prerelease, i as int) is None,
            },
        decreases candidates.len() - i,
    {
        proof {
            lemma_latest_is_eligible(candidates@, include_prerelease, i as int);
        }
        let text = candidates[i].as_str();
        if valid_version(text) && (include_prerelease || !prerelease(text)) {
            match best {
                None => {
                    best = Some(i);
                },
                Some(b) => {
                    if !version_less(text, candidates[b].as_str()) {
                        best = Some(i);
                    }
                },
            }
        }
        i = i + 1;
    }
    match best {
        Some(b) => Some(candidates[b].clone()),
        None => None,
    }
}

/// The latest version of a crate, or the error that the registry lists no
/// version of it.
pub fn resolve_latest_version(candidates: &Vec<String>, include_prerelease: bool) -> (r: Result<
    String,
    Error,
>)
    ensures
        match latest_index(candidates@, include_prerelease, candidates@.len() as int) {
            Some(k) => r == Ok::<String, Error>(candidates@[k]),
            None => r == Err::<String, Error>(Error::NoCrateVersions),
        },
{
    match latest_version(candidates, include_prerelease) {
        Some(v) => Ok(v),
        None => Err(Error::NoCrateVersions),
    }
}

} // verus!
