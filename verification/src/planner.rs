//! Which versions of the subject a dependent is built against, and in what
//! order.
//!
//! The plan is made once from what the user asked for. For each dependent
//! it is then put in order: the version that the dependent resolves to by
//! itself comes first, as the baseline, and is taken out of the rest.

use vstd::prelude::*;
use vstd::string::*;
use crate::compile::{
    CompileResult, CompileResultView, CompileStep, SourceView, ThreeStepResult,
    ThreeStepResultView, VersionSource,
};
use crate::error_extract::{text_of, DiagnosticView};
use crate::results::{Error, ErrorView, VersionTestOutcome, VersionTestOutcomeView};
use crate::rows::views;
use crate::text::{chars_of, owned, same_text, string_of_range};
use crate::versions::{
    check_version,
    is_version,
    requirement_satisfied,
    satisfaction,
    semver_version_error,
    valid_version,
};

verus! {

/// A version to build a dependent against.
#[derive(Debug, Clone)]
pub struct TestedVersion {
    pub source: VersionSource,
    /// Whether the dependent's requirement is bypassed for this version.
    pub forced: bool,
}

/// Mathematical value of a [`TestedVersion`].
pub struct TestedVersionView {
    pub source: SourceView,
    pub forced: bool,
}

impl View for TestedVersion {
    type V = TestedVersionView;

    open spec fn view(&self) -> TestedVersionView {
        TestedVersionView { source: self.source@, forced: self.forced }
    }
}

/// Position of the first colon of `s` at or after `from`; `s.len()` if
/// there is none.
pub open spec fn first_colon(s: Seq<char>, from: int) -> int
    decreases s.len() - from,
{
    if from >= s.len() {
        s.len() as int
    } else if from >= 0 && s[from] == ':' {
        from
    } else {
        first_colon(s, from + 1)
    }
}

/// What a dependent given as `name` or `name:version` names: the text
/// before the first colon, and the text after it if there is a colon.
pub open spec fn dependent_spec(s: Seq<char>) -> (Seq<char>, Option<Seq<char>>) {
    let at = first_colon(s, 0);
    if at >= s.len() {
        (s, None)
    } else {
        (s.subrange(0, at), Some(s.subrange(at + 1, s.len() as int)))
    }
}

/// Reads a dependent given as `name` or `name:version`.
pub fn parse_dependent_spec(spec: &str) -> (r: (String, Option<String>))
    ensures
        (r.0@, text_of(r.1)) == dependent_spec(spec@),
{
    let v = chars_of(spec);
    let mut at: usize = 0;
    while at < v.len() && v[at] != ':'
        invariant
            at <= v.len(),
            first_colon(v@, 0) == first_colon(v@, at as int),
        decreases v.len() - at,
    {
        at = at + 1;
    }
    if at >= v.len() {
        let name = string_of_range(&v, 0, v.len());
        assert(v@.subrange(0, v.len() as int) =~= v@);
        (name, None)
    } else {
        (string_of_range(&v, 0, at), Some(string_of_range(&v, at + 1, v.len())))
    }
}

/// What an entry of a version list is read as.
pub enum EntryReading {
    /// A keyword that could not be resolved: the entry is passed over.
    Skip,
    /// A version to test.
    Take(Seq<char>),
    /// A requirement where a version is called for.
    Requirement,
    /// Neither a keyword nor a version; with the reason.
    Unreadable(Seq<char>),
}

/// Whether `entry` is written like a requirement: it begins with `^`, `~`
/// or `=`.
pub open spec fn looks_like_requirement(entry: Seq<char>) -> bool {
    entry.len() > 0 && (entry[0] == '^' || entry[0] == '~' || entry[0] == '=')
}

/// Reads one entry of a version list. `latest` stands for the latest
/// version that is no pre-release, `latest-preview` and `latest-prerelease`
/// for the latest version of all; either is passed over when it is not
/// known. Anything else must be a version number.
pub open spec fn read_entry(
    entry: Seq<char>,
    latest_stable: Option<Seq<char>>,
    latest_preview: Option<Seq<char>>,
) -> EntryReading {
    if entry == "latest"@ {
        match latest_stable {
            Some(v) => EntryReading::Take(v),
            None => EntryReading::Skip,
        }
    } else if entry == "latest-preview"@ || entry == "latest-prerelease"@ {
        match latest_preview {
            Some(v) => EntryReading::Take(v),
            None => EntryReading::Skip,
        }
    } else if looks_like_requirement(entry) {
        EntryReading::Requirement
    } else {
        match semver_version_error(entry) {
            Some(m) => EntryReading::Unreadable(m),
            None => EntryReading::Take(entry),
        }
    }
}

/// The message for a requirement found in the list of the option `option`.
pub open spec fn requirement_message(entry: Seq<char>, option: Seq<char>) -> Seq<char> {
    "Version requirement '"@ + entry + "' not allowed in "@ + option
        + ". Use concrete versions like '0.8.52'"@
}

/// The versions that the first `n` entries of a list call for, in order, or
/// the error for the first entry that cannot be used.
pub open spec fn planned(
    entries: Seq<String>,
    n: int,
    forced: bool,
    option: Seq<char>,
    latest_stable: Option<Seq<char>>,
    latest_preview: Option<Seq<char>>,
) -> Result<Seq<TestedVersionView>, ErrorView>
    decreases n,
{
    if n <= 0 {
        Ok(Seq::<TestedVersionView>::empty())
    } else {
        match planned(entries, n - 1, forced, option, latest_stable, latest_preview) {
            Err(e) => Err(e),
            Ok(head) => match read_entry(entries[n - 1]@, latest_stable, latest_preview) {
                EntryReading::Skip => Ok(head),
                EntryReading::Take(v) => Ok(
                    head.push(TestedVersionView { source: SourceView::Published(v), forced }),
                ),
                EntryReading::Requirement => Err(
                    ErrorView::InvalidVersion(requirement_message(entries[n - 1]@, option)),
                ),
                EntryReading::Unreadable(m) => Err(ErrorView::SemverError(m)),
            },
        }
    }
}

/// What closes every plan: the work in progress, forced, when there is a
/// local source; otherwise the latest version that is no pre-release, when
/// that is known.
pub open spec fn plan_tail(
    local_source: Option<Seq<char>>,
    latest_stable: Option<Seq<char>>,
) -> Seq<TestedVersionView> {
    match local_source {
        Some(p) => seq![TestedVersionView { source: SourceView::Local(p), forced: true }],
        None => match latest_stable {
            Some(v) => seq![TestedVersionView { source: SourceView::Published(v), forced: false }],
            None => Seq::<TestedVersionView>::empty(),
        },
    }
}

/// The plan: the versions to test, those to force, and the tail.
pub open spec fn version_plan(
    test_versions: Seq<String>,
    force_versions: Seq<String>,
    latest_stable: Option<Seq<char>>,
    latest_preview: Option<Seq<char>>,
    local_source: Option<Seq<char>>,
) -> Result<Seq<TestedVersionView>, ErrorView> {
    match planned(
        test_versions,
        test_versions.len() as int,
        false,
        "--test-versions"@,
        latest_stable,
        latest_preview,
    ) {
        Err(e) => Err(e),
        Ok(tested) => match planned(
            force_versions,
            force_versions.len() as int,
            true,
            "--force-versions"@,
            latest_stable,
            latest_preview,
        ) {
            Err(e) => Err(e),
            Ok(forced) => Ok(tested + forced + plan_tail(local_source, latest_stable)),
        },
    }
}

/// The value of a plan or of the error in its place.
pub open spec fn plan_view(r: Result<Vec<TestedVersion>, Error>) -> Result<
    Seq<TestedVersionView>,
    ErrorView,
> {
    match r {
        Ok(p) => Ok(views(p@)),
        Err(e) => Err(e@),
    }
}

/// Once an entry fails the plan, the rest of the list does not matter.
pub proof fn lemma_planned_error_sticks(
    entries: Seq<String>,
    i: int,
    n: int,
    forced: bool,
    option: Seq<char>,
    latest_stable: Option<Seq<char>>,
    latest_preview: Option<Seq<char>>,
)
    requires
        0 <= i <= n,
        planned(entries, i, forced, option, latest_stable, latest_preview) is Err,
    ensures
        planned(entries, n, forced, option, latest_stable, latest_preview) == planned(
            entries,
            i,
            forced,
            option,
            latest_stable,
            latest_preview,
        ),
    decreases n - i,
{
    if i < n {
        lemma_planned_error_sticks(
            entries,
            i,
            n - 1,
            forced,
            option,
            latest_stable,
            latest_preview,
        );
    }
}

/// Whether `entry` is written like a requirement.
pub fn is_requirement_like(entry: &str) -> (b: bool)
    ensures
        b == looks_like_requirement(entry@),
{
    let chars = chars_of(entry);
    chars.len() > 0 && (chars[0] == '^' || chars[0] == '~' || chars[0] == '=')
}

/// The message for a requirement found in the list of the option `option`.
pub fn requirement_rejection(entry: &str, option: &str) -> (message: String)
    ensures
        message@ == requirement_message(entry@, option@),
{
    let mut message = owned("Version requirement '");
    message.append(entry);
    message.append("' not allowed in ");
    message.append(option);
    message.append(". Use concrete versions like '0.8.52'");
    assert(message@ =~= requirement_message(entry@, option@));
    message
}

fn push_planned(
    plan: &mut Vec<TestedVersion>,
    entries: &Vec<String>,
    forced: bool,
    option: &str,
    latest_stable: &Option<String>,
    latest_preview: &Option<String>,
) -> (r: Result<(), Error>)
    ensures
        match planned(
            entries@,
            entries@.len() as int,
            forced,
            option@,
            text_of(*latest_stable),
            text_of(*latest_preview),
        ) {
            Ok(p) => r is Ok && views(final(plan)@) == views(old(plan)@) + p,
            Err(e) => r is Err && r->Err_0@ == e,
        },
{
    let ghost ls = text_of(*latest_stable);
    let ghost lp = text_of(*latest_preview);
    let ghost start = views(plan@);
    let mut i: usize = 0;
    assert(views(plan@) =~= start + Seq::<TestedVersionView>::empty());
    while i < entries.len()
        invariant
            i <= entries.len(),
            ls == text_of(*latest_stable),
            lp == text_of(*latest_preview),
            planned(entries@, i as int, forced, option@, ls, lp) is Ok,
            views(plan@) == start + planned(entries@, i as int, forced, option@, ls, lp)->Ok_0,
        decreases entries.len() - i,
    {
        let entry = entries[i].as_str();
        let ghost head = planned(entries@, i as int, forced, option@, ls, lp)->Ok_0;
        let ghost before = views(plan@);
        let taken: Option<String> = if same_text(entry, "latest") {
            match latest_stable {
                Some(v) => Some(v.clone()),
                None => None,
            }
        } else if same_text(entry, "latest-preview") || same_text(entry, "latest-prerelease") {
            match latest_preview {
                Some(v) => Some(v.clone()),
                None => None,
            }
        } else {
            if is_requirement_like(entry) {
                let message = requirement_rejection(entry, option);
                proof {
                    lemma_planned_error_sticks(
                        entries@,
                        i as int + 1,
                        entries@.len() as int,
                        forced,
                        option@,
                        ls,
                        lp,
                    );
                }
                return Err(Error::InvalidVersion(message));
            }
            match check_version(entry) {
                Err(e) => {
                    proof {
                        lemma_planned_error_sticks(
                            entries@,
                            i as int + 1,
                            entries@.len() as int,
                            forced,
                            option@,
                            ls,
                            lp,
                        );
                    }
                    return Err(e);
                },
                Ok(_) => {},
            }
            Some(entries[i].clone())
        };
        match taken {
            Some(v) => {
                let item = TestedVersion { source: VersionSource::Published(v), forced };
                plan.push(item);
                assert(views(plan@) =~= before.push(item@));
                assert(views(plan@) =~= start + head.push(item@));
            },
            None => {},
        }
        i = i + 1;
    }
    Ok(())
}

/// Makes the plan of versions to test.
///
/// `test_versions` and `force_versions` are the lists that the user gave;
/// the versions of the second are forced. `latest_stable` and
/// `latest_preview` are what the keywords of the lists stand for, when that
/// could be found out. `local_source` is the path of the work in progress,
/// when there is one. A requirement in place of a version, or an entry that
/// is no version number, fails the plan.
pub fn plan_versions(
    test_versions: &Vec<String>,
    force_versions: &Vec<String>,
    latest_stable: &Option<String>,
    latest_preview: &Option<String>,
    local_source: &Option<String>,
) -> (r: Result<Vec<TestedVersion>, Error>)
    ensures
        plan_view(r) == version_plan(
            test_versions@,
            force_versions@,
            text_of(*latest_stable),
            text_of(*latest_preview),
            text_of(*local_source),
        ),
{
    let mut plan: Vec<TestedVersion> = Vec::new();
    assert(views(plan@) =~= Seq::<TestedVersionView>::empty());
    match push_planned(
        &mut plan,
        test_versions,
        false,
        "--test-versions",
        latest_stable,
        latest_preview,
    ) {
        Err(e) => {
            return Err(e);
        },
        Ok(_) => {},
    }
    match push_planned(
        &mut plan,
        force_versions,
        true,
        "--force-versions",
        latest_stable,
        latest_preview,
    ) {
        Err(e) => {
            return Err(e);
        },
        Ok(_) => {},
    }
    let ghost body = views(plan@);
    match local_source {
        Some(p) => {
            let item = TestedVersion { source: VersionSource::Local(p.clone()), forced: true };
            plan.push(item);
            assert(views(plan@) =~= body + seq![item@]);
        },
        None => match latest_stable {
            Some(v) => {
                let item = TestedVersion {
                    source: VersionSource::Published(v.clone()),
                    forced: false,
                };
                plan.push(item);
                assert(views(plan@) =~= body + seq![item@]);
            },
            None => {
                assert(views(plan@) =~= body + Seq::<TestedVersionView>::empty());
            },
        },
    }
    Ok(plan)
}

/// Whether a resolved version can serve as the baseline: it is there, it
/// is not empty, it is no wildcard, and it is a version number.
pub open spec fn usable_baseline(baseline: Option<Seq<char>>) -> bool {
    baseline matches Some(b) && b.len() > 0 && b != "*"@ && is_version(b)
}

/// The entry stands for the published version `version`.
pub open spec fn names_version(entry: TestedVersionView, version: Seq<char>) -> bool {
    entry.source == SourceView::Published(version)
}

/// The entries among the first `n` that do not stand for `version`, in
/// order.
pub open spec fn without_version(plan: Seq<TestedVersionView>, n: int, version: Seq<char>) -> Seq<
    TestedVersionView,
>
    decreases n,
{
    if n <= 0 {
        Seq::<TestedVersionView>::empty()
    } else if names_version(plan[n - 1], version) {
        without_version(plan, n - 1, version)
    } else {
        without_version(plan, n - 1, version).push(plan[n - 1])
    }
}

/// The plan for one dependent: with a usable baseline, the baseline first
/// and then the plan without it; otherwise the plan as it is.
pub open spec fn ordered_plan(plan: Seq<TestedVersionView>, baseline: Option<Seq<char>>) -> Seq<
    TestedVersionView,
> {
    if usable_baseline(baseline) {
        seq![TestedVersionView { source: SourceView::Published(baseline->0), forced: false }]
            + without_version(plan, plan.len() as int, baseline->0)
    } else {
        plan
    }
}

/// Nothing that is left after a version was taken out stands for it.
pub proof fn lemma_without_version(plan: Seq<TestedVersionView>, n: int, version: Seq<char>)
    requires
        0 <= n <= plan.len(),
    ensures
        without_version(plan, n, version).len() <= n,
        forall|i: int|
            0 <= i < without_version(plan, n, version).len() ==> !names_version(
                #[trigger] without_version(plan, n, version)[i],
                version,
            ),
    decreases n,
{
    if n > 0 {
        lemma_without_version(plan, n - 1, version);
    }
}

/// With a usable baseline, the first entry of the ordered plan is the
/// baseline and no later entry stands for the same version.
pub proof fn lemma_baseline_first_and_once(
    plan: Seq<TestedVersionView>,
    baseline: Option<Seq<char>>,
)
    requires
        usable_baseline(baseline),
    ensures
        ordered_plan(plan, baseline).len() >= 1,
        names_version(ordered_plan(plan, baseline)[0], baseline->0),
        forall|i: int|
            1 <= i < ordered_plan(plan, baseline).len() ==> !names_version(
                #[trigger] ordered_plan(plan, baseline)[i],
                baseline->0,
            ),
        forall|i: int|
            1 <= i < ordered_plan(plan, baseline).len() ==> (#[trigger] ordered_plan(
                plan,
                baseline,
            )[i]).source != ordered_plan(plan, baseline)[0].source,
{
    lemma_without_version(plan, plan.len() as int, baseline->0);
    let rest = without_version(plan, plan.len() as int, baseline->0);
    assert forall|i: int| 1 <= i < ordered_plan(plan, baseline).len() implies !names_version(
        #[trigger] ordered_plan(plan, baseline)[i],
        baseline->0,
    ) by {
        assert(ordered_plan(plan, baseline)[i] == rest[i - 1]);
    }
}

/// Whether a resolved version can serve as the baseline.
pub fn baseline_is_usable(baseline: &Option<String>) -> (b: bool)
    ensures
        b == usable_baseline(text_of(*baseline)),
{
    match baseline {
        None => false,
        Some(v) => {
            let n = v.as_str().unicode_len();
            n > 0 && !same_text(v.as_str(), "*") && valid_version(v.as_str())
        },
    }
}

/// A plan put in order for one dependent.
#[derive(Debug, Clone)]
pub struct DependentPlan {
    /// The versions to build against, in order.
    pub entries: Vec<TestedVersion>,
    /// Whether the first entry is the baseline, to be built without
    /// override.
    pub has_baseline: bool,
}

/// Puts the plan in order for a dependent whose own resolution of the
/// subject is `baseline`. A usable baseline comes first and is taken out of
/// the rest of the plan, so that it is built exactly once. Without a usable
/// baseline the plan stays as it is, and its first entry takes the place of
/// the baseline when the outcomes are classified.
pub fn reorder_plan(plan: &Vec<TestedVersion>, baseline: &Option<String>) -> (r: DependentPlan)
    ensures
        views(r.entries@) == ordered_plan(views(plan@), text_of(*baseline)),
        r.has_baseline == usable_baseline(text_of(*baseline)),
{
    let mut entries: Vec<TestedVersion> = Vec::new();
    let ghost vs = views(plan@);
    if !baseline_is_usable(baseline) {
        let mut i: usize = 0;
        while i < plan.len()
            invariant
                i <= plan.len(),
                vs == views(plan@),
                views(entries@) == vs.take(i as int),
            decreases plan.len() - i,
        {
            let ghost before = views(entries@);
            let item = copy_entry(&plan[i]);
            entries.push(item);
            assert(views(entries@) =~= before.push(item@));
            i = i + 1;
            assert(views(entries@) =~= vs.take(i as int));
        }
        assert(vs.take(plan.len() as int) =~= vs);
        return DependentPlan { entries, has_baseline: false };
    }
    let version = match baseline {
        Some(v) => v,
        None => {
            return DependentPlan { entries, has_baseline: false };
        },
    };
    let first = TestedVersion { source: VersionSource::Published(version.clone()), forced: false };
    entries.push(first);
    let ghost head = seq![first@];
    assert(views(entries@) =~= head + without_version(vs, 0, version@));
    let mut i: usize = 0;
    while i < plan.len()
        invariant
            i <= plan.len(),
            vs == views(plan@),
            views(entries@) == head + without_version(vs, i as int, version@),
        decreases plan.len() - i,
    {
        let ghost before = views(entries@);
        assert(vs[i as int] == plan@[i as int]@);
        let same = match &plan[i].source {
            VersionSource::Published(v) => same_text(v.as_str(), version.as_str()),
            VersionSource::Local(_) => false,
        };
        if !same {
            let item = copy_entry(&plan[i]);
            entries.push(item);
            assert(views(entries@) =~= before.push(item@));
        }
        i = i + 1;
        assert(views(entries@) =~= head + without_version(vs, i as int, version@));
    }
    DependentPlan { entries, has_baseline: true }
}

fn copy_entry(entry: &TestedVersion) -> (r: TestedVersion)
    ensures
        r == *entry,
{
    let source = match &entry.source {
        VersionSource::Published(v) => VersionSource::Published(v.clone()),
        VersionSource::Local(p) => VersionSource::Local(p.clone()),
    };
    TestedVersion { source, forced: entry.forced }
}

/// How the subject is to be redirected for one entry of a plan.
#[derive(Debug, Clone)]
pub enum OverrideSource {
    /// Not at all: the baseline.
    Baseline,
    /// To the directory of the work in progress.
    LocalDirectory(String),
    /// To the published version, which has to be downloaded and unpacked.
    Published(String),
}

/// Mathematical value of an [`OverrideSource`].
pub enum OverrideView {
    Baseline,
    LocalDirectory(Seq<char>),
    Published(Seq<char>),
}

impl View for OverrideSource {
    type V = OverrideView;

    open spec fn view(&self) -> OverrideView {
        match *self {
            OverrideSource::Baseline => OverrideView::Baseline,
            OverrideSource::LocalDirectory(d) => OverrideView::LocalDirectory(d@),
            OverrideSource::Published(v) => OverrideView::Published(v@),
        }
    }
}

/// What a pipeline run for one entry of a plan is given.
#[derive(Debug, Clone)]
pub struct RunRequest {
    pub source: OverrideSource,
    /// The version that the build tool is expected to resolve, when the
    /// entry names one.
    pub expected_version: Option<String>,
    /// Whether the dependent's requirement is bypassed.
    pub forced: bool,
}

/// Whether `s` ends with `tail`.
pub open spec fn ends_with(s: Seq<char>, tail: Seq<char>) -> bool {
    s.len() >= tail.len() && s.subrange(s.len() - tail.len(), s.len() as int) == tail
}

/// The directory that a path to a manifest lies in; a path that does not
/// end in the manifest's file name is taken for the directory itself.
pub open spec fn manifest_directory(path: Seq<char>) -> Seq<char> {
    if path == "Cargo.toml"@ {
        Seq::<char>::empty()
    } else if path == "/Cargo.toml"@ {
        "/"@
    } else if ends_with(path, "/Cargo.toml"@) {
        path.subrange(0, path.len() - "/Cargo.toml"@.len())
    } else {
        path
    }
}

/// The request for entry `i` of an ordered plan. The baseline runs without
/// override and is never forced. A local source is always forced and has
/// no expected version. A published version is forced when its entry says
/// so.
pub open spec fn request_for(entry: TestedVersionView, is_baseline: bool) -> (
    OverrideView,
    Option<Seq<char>>,
    bool,
) {
    match entry.source {
        SourceView::Published(v) => (
            if is_baseline {
                OverrideView::Baseline
            } else {
                OverrideView::Published(v)
            },
            Some(v),
            !is_baseline && entry.forced,
        ),
        SourceView::Local(p) => (OverrideView::LocalDirectory(manifest_directory(p)), None, true),
    }
}

fn has_suffix(v: &Vec<char>, tail: &Vec<char>) -> (b: bool)
    ensures
        b == ends_with(v@, tail@),
{
    if v.len() < tail.len() {
        return false;
    }
    let start = v.len() - tail.len();
    let ghost end = v@.subrange(start as int, v@.len() as int);
    let mut i: usize = 0;
    while i < tail.len()
        invariant
            i <= tail.len(),
            start + tail.len() == v.len(),
            end == v@.subrange(start as int, v@.len() as int),
            forall|k: int| 0 <= k < i ==> end[k] == tail@[k],
        decreases tail.len() - i,
    {
        if v[start + i] != tail[i] {
            assert(end[i as int] != tail@[i as int]);
            return false;
        }
        i = i + 1;
    }
    assert(end =~= tail@);
    true
}

/// The directory of a manifest path.
pub fn manifest_dir(path: &str) -> (r: String)
    ensures
        r@ == manifest_directory(path@),
{
    if same_text(path, "Cargo.toml") {
        return String::new();
    }
    if same_text(path, "/Cargo.toml") {
        return owned("/");
    }
    let v = chars_of(path);
    let tail = chars_of("/Cargo.toml");
    if has_suffix(&v, &tail) {
        return string_of_range(&v, 0, v.len() - tail.len());
    }
    let r = string_of_range(&v, 0, v.len());
    assert(v@.subrange(0, v.len() as int) =~= v@);
    r
}

/// What the pipeline run for an entry of an ordered plan is given.
/// `is_baseline` says that the entry is the baseline of its plan.
pub fn run_request(entry: &TestedVersion, is_baseline: bool) -> (r: RunRequest)
    ensures
        (r.source@, text_of(r.expected_version), r.forced) == request_for(entry@, is_baseline),
{
    match &entry.source {
        VersionSource::Published(v) => RunRequest {
            source: if is_baseline {
                OverrideSource::Baseline
            } else {
                OverrideSource::Published(v.clone())
            },
            expected_version: Some(v.clone()),
            forced: !is_baseline && entry.forced,
        },
        VersionSource::Local(p) => RunRequest {
            source: OverrideSource::LocalDirectory(manifest_dir(p.as_str())),
            expected_version: None,
            forced: true,
        },
    }
}

/// The outcome that stands for a published version that could not be
/// downloaded: a failed fetch that carries the reason, and nothing else.
pub open spec fn failed_download(
    version: Seq<char>,
    forced: bool,
    original_requirement: Option<Seq<char>>,
    reason: Seq<char>,
) -> VersionTestOutcomeView {
    VersionTestOutcomeView {
        version_source: SourceView::Published(version),
        result: ThreeStepResultView {
            fetch: CompileResultView {
                step: CompileStep::Fetch,
                success: false,
                stdout: Seq::<char>::empty(),
                stderr: "Failed to download base crate: "@ + reason,
                duration_ms: 0,
                diagnostics: Seq::<DiagnosticView>::empty(),
            },
            check: None,
            test: None,
            actual_version: None,
            expected_version: Some(version),
            forced_version: forced,
            original_requirement,
        },
    }
}

/// The outcome for a published version that could not be downloaded.
pub fn failed_download_outcome(
    version: &str,
    forced: bool,
    original_requirement: Option<String>,
    reason: &str,
) -> (o: VersionTestOutcome)
    ensures
        o@ == failed_download(version@, forced, text_of(original_requirement), reason@),
        !o.result.succeeded(),
        o.result.well_formed(),
{
    let mut stderr = owned("Failed to download base crate: ");
    stderr.append(reason);
    let o = VersionTestOutcome {
        version_source: VersionSource::Published(owned(version)),
        result: ThreeStepResult {
            fetch: CompileResult {
                step: CompileStep::Fetch,
                success: false,
                stdout: String::new(),
                stderr,
                duration_ms: 0,
                diagnostics: Vec::new(),
            },
            check: None,
            test: None,
            actual_version: None,
            expected_version: Some(owned(version)),
            forced_version: forced,
            original_requirement,
        },
    };
    assert(o@.result.fetch.diagnostics =~= Seq::<DiagnosticView>::empty());
    o
}

/// Whether an entry may pass the compatibility gate: it is forced, or it is
/// a published version that meets the requirement, or it cannot be told.
pub open spec fn entry_may_build(entry: TestedVersionView, requirement: Seq<char>) -> bool {
    entry.forced || match entry.source {
        SourceView::Local(_) => true,
        SourceView::Published(v) => satisfaction(requirement, v) != Ok::<bool, Seq<char>>(false),
    }
}

/// Whether a plan is worth running against a dependent with the given
/// requirement: some entry may build. A dependent without a known
/// requirement is always worth it.
pub open spec fn worth_running(plan: Seq<TestedVersionView>, requirement: Option<Seq<char>>) -> bool {
    match requirement {
        None => true,
        Some(r) => exists|i: int| 0 <= i < plan.len() && entry_may_build(#[trigger] plan[i], r),
    }
}

/// The compatibility gate: whether any entry of the plan can build for a
/// dependent that states `requirement`. When it answers no, the dependent
/// may be reported as left out for incompatibility instead of being built.
pub fn compatibility_gate(plan: &Vec<TestedVersion>, requirement: &Option<String>) -> (open: bool)
    ensures
        open == worth_running(views(plan@), text_of(*requirement)),
{
    let req = match requirement {
        None => {
            return true;
        },
        Some(r) => r,
    };
    let ghost vs = views(plan@);
    let mut i: usize = 0;
    while i < plan.len()
        invariant
            i <= plan.len(),
            vs == views(plan@),
            *requirement == Some(*req),
            forall|k: int| 0 <= k < i ==> !entry_may_build(#[trigger] vs[k], req@),
        decreases plan.len() - i,
    {
        assert(vs[i as int] == plan@[i as int]@);
        let may = plan[i].forced || match &plan[i].source {
            VersionSource::Local(_) => true,
            VersionSource::Published(v) => match requirement_satisfied(req.as_str(), v.as_str()) {
                Ok(b) => b,
                Err(_) => true,
            },
        };
        if may {
            assert(entry_may_build(vs[i as int], req@));
            return true;
        }
        i = i + 1;
    }
    false
}

/// The reason given for a dependent that is left out as incompatible.
pub open spec fn incompatible_reason(subject: Seq<char>, version: Seq<char>) -> Seq<char> {
    "Dependent requires version incompatible with "@ + subject + " v"@ + version
}

/// The reason given for a dependent that is left out as incompatible.
pub fn incompatibility_reason(subject: &str, version: &str) -> (s: String)
    ensures
        s@ == incompatible_reason(subject@, version@),
{
    let mut s = owned("Dependent requires version incompatible with ");
    s.append(subject);
    s.append(" v");
    s.append(version);
    s
}

} // verus!
