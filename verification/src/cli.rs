//! The arguments of a run and what makes them acceptable.
//!
//! Reading the command line is left to the caller; it hands over the
//! arguments as it found them.

use vstd::prelude::*;
use vstd::string::*;
use crate::planner::{
    is_requirement_like, looks_like_requirement, planned, requirement_message,
    requirement_rejection, version_plan,
};
use crate::results::ErrorView;
use crate::text::{owned, split_all, texts_of, words_of_all};

verus! {

/// The arguments of a run.
#[derive(Debug, Clone)]
pub struct CliArgs {
    /// Path to the work in progress: a directory or a manifest.
    pub path: Option<String>,
    /// Name of the subject, for a run without local source.
    pub crate_name: Option<String>,
    /// How many of the most downloaded dependents to test.
    pub top_dependents: usize,
    /// Dependents to test, as `name` or `name:version`.
    pub dependents: Vec<String>,
    /// Dependents on disk.
    pub dependent_paths: Vec<String>,
    /// Versions of the subject to test against.
    pub test_versions: Vec<String>,
    /// Number of workers.
    pub jobs: usize,
    /// Where the HTML report goes.
    pub output: String,
    /// Where dependents are unpacked and kept between runs.
    pub staging_dir: String,
    /// Leave out the check step.
    pub no_check: bool,
    /// Leave out the test step.
    pub no_test: bool,
    /// Write results as JSON.
    pub json: bool,
    /// Versions of the subject to test against whatever the dependent
    /// requires.
    pub force_versions: Vec<String>,
}

/// How many dependents are tested when nothing else is said.
pub const DEFAULT_TOP_DEPENDENTS: usize = 5;

/// How many workers run when nothing else is said.
pub const DEFAULT_JOBS: usize = 1;

/// Why arguments are not acceptable.
#[derive(Debug, Clone, Copy, PartialEq, Eq, Structural)]
pub enum ArgumentFault {
    /// Both steps after the fetch are left out.
    BothStepsSkipped,
    /// No dependent is selected in any way.
    NoDependents,
    /// No worker.
    NoJobs,
    /// Nothing says which crate is the subject.
    NoSubject,
}

impl ArgumentFault {
    pub open spec fn message_text(self) -> Seq<char> {
        match self {
            ArgumentFault::BothStepsSkipped => "Cannot specify both --no-check and --no-test"@,
            ArgumentFault::NoDependents => "Must specify at least one of: --top-dependents, --dependents, or --dependent-paths"@,
            ArgumentFault::NoJobs => "--jobs must be at least 1"@,
            ArgumentFault::NoSubject => "Cannot determine which crate to test. Please specify --path <PATH>, --crate <NAME>, or run from a crate directory with ./Cargo.toml"@,
        }
    }

    /// The fault in words.
    pub fn message(&self) -> (s: String)
        ensures
            s@ == self.message_text(),
    {
        match self {
            ArgumentFault::BothStepsSkipped => owned("Cannot specify both --no-check and --no-test"),
            ArgumentFault::NoDependents => owned(
                "Must specify at least one of: --top-dependents, --dependents, or --dependent-paths",
            ),
            ArgumentFault::NoJobs => owned("--jobs must be at least 1"),
            ArgumentFault::NoSubject => owned(
                "Cannot determine which crate to test. Please specify --path <PATH>, --crate <NAME>, or run from a crate directory with ./Cargo.toml",
            ),
        }
    }
}

/// The first of the first `n` entries that is written like a requirement.
pub open spec fn first_requirement(entries: Seq<String>, n: int) -> Option<Seq<char>>
    decreases n,
{
    if n <= 0 {
        None
    } else {
        match first_requirement(entries, n - 1) {
            Some(e) => Some(e),
            None => if looks_like_requirement(entries[n - 1]@) {
                Some(entries[n - 1]@)
            } else {
                None
            },
        }
    }
}

/// A requirement among the first entries is the first among more of them.
proof fn lemma_first_requirement_sticks(entries: Seq<String>, n: int, m: int)
    requires
        0 <= n <= m,
        first_requirement(entries, n) is Some,
    ensures
        first_requirement(entries, m) == first_requirement(entries, n),
    decreases m - n,
{
    if n < m {
        lemma_first_requirement_sticks(entries, n, m - 1);
    }
}

/// The place of the first entry that is written like a requirement.
fn find_requirement(entries: &Vec<String>) -> (r: Option<usize>)
    ensures
        match r {
            Some(i) => i < entries@.len() && first_requirement(
                entries@,
                entries@.len() as int,
            ) == Some(entries@[i as int]@),
            None => first_requirement(entries@, entries@.len() as int) is None,
        },
{
    let mut i: usize = 0;
    while i < entries.len()
        invariant
            i <= entries.len(),
            first_requirement(entries@, i as int) is None,
        decreases entries.len() - i,
    {
        if is_requirement_like(entries[i].as_str()) {
            proof {
                lemma_first_requirement_sticks(entries@, i as int + 1, entries@.len() as int);
            }
            return Some(i);
        }
        i = i + 1;
    }
    None
}

impl CliArgs {
    /// The first fault of the arguments, if they have one.
    /// `has_local_manifest` says whether the directory of the run holds a
    /// manifest.
    pub open spec fn fault(self, has_local_manifest: bool) -> Option<ArgumentFault> {
        if self.no_check && self.no_test {
            Some(ArgumentFault::BothStepsSkipped)
        } else if self.top_dependents == 0 && self.dependents@.len() == 0
            && self.dependent_paths@.len() == 0 {
            Some(ArgumentFault::NoDependents)
        } else if self.jobs == 0 {
            Some(ArgumentFault::NoJobs)
        } else if self.path is None && self.crate_name is None && !has_local_manifest {
            Some(ArgumentFault::NoSubject)
        } else {
            None
        }
    }

    /// The message for the first requirement that stands where a version
    /// is called for, in the versions to test or else in those to force.
    pub open spec fn version_fault(self) -> Option<Seq<char>> {
        match first_requirement(self.test_versions@, self.test_versions@.len() as int) {
            Some(e) => Some(requirement_message(e, "--test-versions"@)),
            None => match first_requirement(
                self.force_versions@,
                self.force_versions@.len() as int,
            ) {
                Some(e) => Some(requirement_message(e, "--force-versions"@)),
                None => None,
            },
        }
    }

    /// Why the arguments are rejected, if they are: the message for their
    /// first fault, or else for the first requirement among their versions.
    pub open spec fn rejection(self, has_local_manifest: bool) -> Option<Seq<char>> {
        match self.fault(has_local_manifest) {
            Some(f) => Some(f.message_text()),
            None => self.version_fault(),
        }
    }

    /// Only dependents on disk are tested, so that the registry is not
    /// needed.
    pub open spec fn offline(self) -> bool {
        self.dependents@.len() == 0 && self.top_dependents == 0 && self.dependent_paths@.len() > 0
    }

    /// The arguments with the version lists split at white space, so that
    /// several versions given as one argument count one by one.
    pub fn parse_args(raw: CliArgs) -> (args: CliArgs)
        ensures
            texts_of(args.test_versions@) == words_of_all(
                texts_of(raw.test_versions@),
                raw.test_versions@.len() as int,
            ),
            texts_of(args.force_versions@) == words_of_all(
                texts_of(raw.force_versions@),
                raw.force_versions@.len() as int,
            ),
            args.path == raw.path,
            args.crate_name == raw.crate_name,
            args.top_dependents == raw.top_dependents,
            args.dependents == raw.dependents,
            args.dependent_paths == raw.dependent_paths,
            args.jobs == raw.jobs,
            args.output == raw.output,
            args.staging_dir == raw.staging_dir,
            args.no_check == raw.no_check,
            args.no_test == raw.no_test,
            args.json == raw.json,
    {
        let test_versions = split_all(&raw.test_versions);
        let force_versions = split_all(&raw.force_versions);
        CliArgs {
            path: raw.path,
            crate_name: raw.crate_name,
            top_dependents: raw.top_dependents,
            dependents: raw.dependents,
            dependent_paths: raw.dependent_paths,
            test_versions,
            jobs: raw.jobs,
            output: raw.output,
            staging_dir: raw.staging_dir,
            no_check: raw.no_check,
            no_test: raw.no_test,
            json: raw.json,
            force_versions,
        }
    }

    /// Finds the first fault of the arguments.
    pub fn check(&self, has_local_manifest: bool) -> (r: Result<(), ArgumentFault>)
        ensures
            match r {
                Ok(_) => self.fault(has_local_manifest) is None,
                Err(f) => self.fault(has_local_manifest) == Some(f),
            },
    {
        if self.no_check && self.no_test {
            return Err(ArgumentFault::BothStepsSkipped);
        }
        if self.top_dependents == 0 && self.dependents.len() == 0 && self.dependent_paths.len()
            == 0 {
            return Err(ArgumentFault::NoDependents);
        }
        if self.jobs == 0 {
            return Err(ArgumentFault::NoJobs);
        }
        if self.path.is_none() && self.crate_name.is_none() && !has_local_manifest {
            return Err(ArgumentFault::NoSubject);
        }
        Ok(())
    }

    /// Checks the arguments against each other, and that no requirement
    /// stands where a version is called for. `has_local_manifest` says
    /// whether the directory of the run holds a manifest. The error is the
    /// message for what was found first.
    pub fn validate(&self, has_local_manifest: bool) -> (r: Result<(), String>)
        ensures
            match r {
                Ok(_) => self.rejection(has_local_manifest) is None,
                Err(m) => self.rejection(has_local_manifest) == Some(m@),
            },
    {
        match self.check(has_local_manifest) {
            Ok(_) => {},
            Err(f) => {
                return Err(f.message());
            },
        }
        match find_requirement(&self.test_versions) {
            Some(i) => {
                return Err(requirement_rejection(self.test_versions[i].as_str(), "--test-versions"));
            },
            None => {},
        }
        match find_requirement(&self.force_versions) {
            Some(i) => Err(
                requirement_rejection(self.force_versions[i].as_str(), "--force-versions"),
            ),
            None => Ok(()),
        }
    }

    /// Whether the run needs no registry.
    pub fn is_offline_mode(&self) -> (b: bool)
        ensures
            b == self.offline(),
    {
        self.dependents.len() == 0 && self.top_dependents == 0 && self.dependent_paths.len() > 0
    }
}

/// Entries none of which is written like a requirement are not refused as
/// requirements when the plan is made.
proof fn lemma_planned_without_requirement(
    entries: Seq<String>,
    n: int,
    forced: bool,
    option: Seq<char>,
    latest_stable: Option<Seq<char>>,
    latest_preview: Option<Seq<char>>,
)
    requires
        0 <= n <= entries.len(),
        first_requirement(entries, n) is None,
    ensures
        !(planned(entries, n, forced, option, latest_stable, latest_preview) matches Err(
            ErrorView::InvalidVersion(_),
        )),
    decreases n,
{
    if n > 0 {
        lemma_planned_without_requirement(
            entries,
            n - 1,
            forced,
            option,
            latest_stable,
            latest_preview,
        );
    }
}

/// Arguments that are not rejected hold no requirement in place of a
/// version: whatever the keywords stand for, the plan made of their versions
/// is not refused on that account.
pub proof fn lemma_accepted_versions_plan(
    args: CliArgs,
    has_local_manifest: bool,
    latest_stable: Option<Seq<char>>,
    latest_preview: Option<Seq<char>>,
    local_source: Option<Seq<char>>,
)
    requires
        args.rejection(has_local_manifest) is None,
    ensures
        !(version_plan(
            args.test_versions@,
            args.force_versions@,
            latest_stable,
            latest_preview,
            local_source,
        ) matches Err(ErrorView::InvalidVersion(_))),
{
    lemma_planned_without_requirement(
        args.test_versions@,
        args.test_versions@.len() as int,
        false,
        "--test-versions"@,
        latest_stable,
        latest_preview,
    );
    lemma_planned_without_requirement(
        args.force_versions@,
        args.force_versions@.len() as int,
        true,
        "--force-versions"@,
        latest_stable,
        latest_preview,
    );
}

} // verus!
