//! Fetching a package: where it is put, what is cloned, and which step
//! follows which.
//!
//! Nothing here touches the disk or the network. A driver performs each step
//! that the plan asks for and reports what happened; `next_step` decides what
//! follows.
use crate::package_index::{
    GitCloneError, GitSource, GitSourceView, GitSpecifier, GitSpecifierView, PackageSourceView,
    ESCAPED_NAMESPACE, LOCAL_NAMESPACE,
};
use vstd::prelude::*;
use vstd::string::*;

verus! {

/// The directory that takes the repositories of `user`: the user's name,
/// but for the one name that is reserved for local packages, which is
/// written twice.
pub open spec fn escaped_user(user: Seq<char>) -> Seq<char> {
    if user == LOCAL_NAMESPACE@ {
        LOCAL_NAMESPACE@ + LOCAL_NAMESPACE@
    } else {
        user
    }
}

/// The escaped directory is the reserved name written twice.
pub proof fn lemma_escaped_namespace()
    ensures
        ESCAPED_NAMESPACE@ == LOCAL_NAMESPACE@ + LOCAL_NAMESPACE@,
{
    reveal_strlit("_local");
    reveal_strlit("_local_local");
    assert(ESCAPED_NAMESPACE@ =~= LOCAL_NAMESPACE@ + LOCAL_NAMESPACE@);
}

/// The address that a repository is cloned from.
pub open spec fn clone_url_of(source: GitSourceView) -> Seq<char> {
    "https://"@ + source.domain + seq!['/'] + source.user + seq!['/'] + source.name
}

/// The name by which a clone knows what a specifier pins: a branch as the
/// remote's branch, a tag under `refs/tags/`, a commit by its hash.
pub open spec fn reference_of(spec: GitSpecifierView) -> Seq<char> {
    match spec {
        GitSpecifierView::Branch(name) => "origin/"@ + name,
        GitSpecifierView::Tag(name) => "refs/tags/"@ + name,
        GitSpecifierView::Commit(hash) => hash,
    }
}

impl GitSpecifier {
    /// The name to check out in a clone.
    pub fn reference(&self) -> (name: String)
        ensures
            name@ == reference_of(self@),
    {
        match self {
            GitSpecifier::Branch(branch) => {
                let mut name: String = "origin/".to_owned();
                name.append(branch.as_str());
                name
            },
            GitSpecifier::Tag(tag) => {
                let mut name: String = "refs/tags/".to_owned();
                name.append(tag.as_str());
                name
            },
            GitSpecifier::Commit(hash) => hash.clone(),
        }
    }
}

/// Where under the packages' root a repository is put: `<user_dir>/<name>`.
#[derive(Debug, PartialEq, Eq)]
pub struct Destination {
    pub user_dir: String,
    pub name: String,
}

/// A `Destination` as a mathematical value.
pub struct DestinationView {
    pub user_dir: Seq<char>,
    pub name: Seq<char>,
}

impl View for Destination {
    type V = DestinationView;

    open spec fn view(&self) -> DestinationView {
        DestinationView { user_dir: self.user_dir@, name: self.name@ }
    }
}

/// All that a driver needs to fetch one package.
#[derive(Debug, PartialEq, Eq)]
pub enum FetchPlan {
    /// Clone `url` into `destination`, then check out `spec` if there is one.
    Git { destination: Destination, url: String, spec: Option<GitSpecifier> },
    /// Copy the file or directory at `from`.
    Local { from: std::path::PathBuf },
}

/// A `FetchPlan` as a mathematical value.
pub enum FetchPlanView {
    Git { destination: DestinationView, url: Seq<char>, spec: Option<GitSpecifierView> },
    Local { from: std::path::PathBuf },
}

impl View for FetchPlan {
    type V = FetchPlanView;

    open spec fn view(&self) -> FetchPlanView {
        match self {
            FetchPlan::Git { destination, url, spec } => FetchPlanView::Git {
                destination: destination@,
                url: url@,
                spec: crate::package_index::spec_view(*spec),
            },
            FetchPlan::Local { from } => FetchPlanView::Local { from: *from },
        }
    }
}

/// The plan for a source: a repository goes to the directory of its user and
/// name and is cloned over https; a local package is copied.
pub open spec fn plan_of(source: PackageSourceView) -> FetchPlanView {
    match source {
        PackageSourceView::Git(g) => FetchPlanView::Git {
            destination: DestinationView { user_dir: escaped_user(g.user), name: g.name },
            url: clone_url_of(g),
            spec: g.spec,
        },
        PackageSourceView::Local(p) => FetchPlanView::Local { from: p },
    }
}

/// The directory that takes the repositories of `user`.
pub fn effective_user(user: &str) -> (dir: String)
    ensures
        dir@ == escaped_user(user@),
{
    let given: String = user.to_owned();
    let reserved: String = LOCAL_NAMESPACE.to_owned();
    if given == reserved {
        proof {
            lemma_escaped_namespace();
        }
        ESCAPED_NAMESPACE.to_owned()
    } else {
        given
    }
}

/// No repository is put into the directory reserved for local packages.
pub proof fn lemma_escaped_user_not_reserved(user: Seq<char>)
    ensures
        escaped_user(user) != LOCAL_NAMESPACE@,
{
    reveal_strlit("_local");
    assert(LOCAL_NAMESPACE@.len() == 6);
}

impl GitSource {
    /// The address that the repository is cloned from:
    /// `https://<domain>/<user>/<name>`.
    pub fn clone_url(&self) -> (url: String)
        ensures
            url@ == clone_url_of(self@),
    {
        proof {
            reveal_strlit("/");
        }
        let mut url: String = "https://".to_owned();
        url.append(self.domain());
        url.append("/");
        url.append(self.user());
        url.append("/");
        url.append(self.name());
        url
    }

    /// Where under the packages' root the repository is put.
    pub fn destination(&self) -> (dest: Destination)
        ensures
            dest@ == (DestinationView { user_dir: escaped_user(self@.user), name: self@.name }),
    {
        Destination { user_dir: effective_user(self.user()), name: self.name().to_owned() }
    }
}

/// What the driver reports of the step it was asked to perform.
#[derive(Debug, PartialEq, Eq)]
pub enum FetchEvent {
    /// The destination was looked for, and is there or is not.
    Exists(bool),
    /// The step was performed.
    Done,
    /// The step failed.
    Failed(GitCloneError),
}

/// What the driver is asked to do next, or how the fetch ended.
#[derive(Debug, PartialEq, Eq)]
pub enum FetchStep {
    /// See whether the destination exists, and report `Exists`.
    Probe,
    /// Remove the destination with all that it holds.
    Remove,
    /// Clone the plan's address into the destination.
    Clone,
    /// Check out the plan's branch, tag or commit in the destination.
    Checkout,
    /// Copy the plan's file or directory.
    Copy,
    /// Nothing is left to do. `Ok(true)` where the package was fetched,
    /// `Ok(false)` where it was there already and was left as it was.
    Finished(Result<bool, GitCloneError>),
}

/// How a failure of `step` is reported. A failed clone keeps the kind that
/// the driver gave it; a checkout that fails counts as a failed clone; every
/// other failure is one of this machine's files.
pub open spec fn failure_of(step: FetchStep, error: GitCloneError) -> GitCloneError {
    match step {
        FetchStep::Clone => error,
        FetchStep::Checkout => GitCloneError::CannotClone(error.detail()),
        _ => GitCloneError::Io(error.detail()),
    }
}

/// The first step of a plan.
pub open spec fn first_step(plan: FetchPlanView) -> FetchStep {
    match plan {
        FetchPlanView::Git { .. } => FetchStep::Probe,
        FetchPlanView::Local { .. } => FetchStep::Copy,
    }
}

/// The plan pins a branch, tag or commit.
pub open spec fn is_pinned(plan: FetchPlanView) -> bool {
    plan matches FetchPlanView::Git { spec, .. } && spec is Some
}

/// The step that follows `step` once the driver reports `event`.
///
/// A destination that exists is left alone unless `force` is set, and is
/// removed before the clone if it is. A report that does not answer the
/// step is ignored: the step is asked for again.
pub open spec fn step_after(pinned: bool, force: bool, step: FetchStep, event: FetchEvent)
    -> FetchStep {
    match (step, event) {
        (FetchStep::Finished(r), _) => FetchStep::Finished(r),
        (s, FetchEvent::Failed(e)) => FetchStep::Finished(Err(failure_of(s, e))),
        (FetchStep::Probe, FetchEvent::Exists(true)) => if force {
            FetchStep::Remove
        } else {
            FetchStep::Finished(Ok(false))
        },
        (FetchStep::Probe, FetchEvent::Exists(false)) => FetchStep::Clone,
        (FetchStep::Remove, FetchEvent::Done) => FetchStep::Clone,
        (FetchStep::Clone, FetchEvent::Done) => if pinned {
            FetchStep::Checkout
        } else {
            FetchStep::Finished(Ok(true))
        },
        (FetchStep::Checkout, FetchEvent::Done) => FetchStep::Finished(Ok(true)),
        (FetchStep::Copy, FetchEvent::Done) => FetchStep::Finished(Ok(true)),
        (s, _) => s,
    }
}

/// The step that a fetch begins with.
pub fn begin(plan: &FetchPlan) -> (step: FetchStep)
    ensures
        step == first_step(plan@),
{
    match plan {
        FetchPlan::Git { .. } => FetchStep::Probe,
        FetchPlan::Local { .. } => FetchStep::Copy,
    }
}

/// The step that follows `step` once the driver reports `event`.
pub fn next_step(plan: &FetchPlan, force: bool, step: FetchStep, event: FetchEvent) -> (next:
    FetchStep)
    ensures
        next == step_after(is_pinned(plan@), force, step, event),
{
    let pinned = match plan {
        FetchPlan::Git { spec, .. } => spec.is_some(),
        FetchPlan::Local { .. } => false,
    };
    match (step, event) {
        (FetchStep::Finished(r), _) => FetchStep::Finished(r),
        (FetchStep::Clone, FetchEvent::Failed(e)) => FetchStep::Finished(Err(e)),
        (FetchStep::Checkout, FetchEvent::Failed(e)) => FetchStep::Finished(
            Err(GitCloneError::CannotClone(e.into_detail())),
        ),
        (_, FetchEvent::Failed(e)) => FetchStep::Finished(Err(GitCloneError::Io(e.into_detail()))),
        (FetchStep::Probe, FetchEvent::Exists(true)) => if force {
            FetchStep::Remove
        } else {
            FetchStep::Finished(Ok(false))
        },
        (FetchStep::Probe, FetchEvent::Exists(false)) => FetchStep::Clone,
        (FetchStep::Remove, FetchEvent::Done) => FetchStep::Clone,
        (FetchStep::Clone, FetchEvent::Done) => if pinned {
            FetchStep::Checkout
        } else {
            FetchStep::Finished(Ok(true))
        },
        (FetchStep::Checkout, FetchEvent::Done) => FetchStep::Finished(Ok(true)),
        (FetchStep::Copy, FetchEvent::Done) => FetchStep::Finished(Ok(true)),
        (s, _) => s,
    }
}

/// The step that is reached from `step` once the driver has reported
/// `events`, one after the other.
pub open spec fn step_after_all(pinned: bool, force: bool, step: FetchStep, events: Seq<FetchEvent>)
    -> FetchStep
    decreases events.len(),
{
    if events.len() == 0 {
        step
    } else {
        step_after_all(
            pinned,
            force,
            step_after(pinned, force, step, events[0]),
            events.drop_first(),
        )
    }
}

/// A step that changes what is on disk.
pub open spec fn is_change(step: FetchStep) -> bool {
    step is Remove || step is Clone || step is Checkout || step is Copy
}

/// A fetch that has finished stays finished, with the same result, whatever
/// is reported afterwards.
pub proof fn lemma_finished_is_final(
    pinned: bool,
    force: bool,
    result: Result<bool, GitCloneError>,
    events: Seq<FetchEvent>,
)
    ensures
        step_after_all(pinned, force, FetchStep::Finished(result), events) == FetchStep::Finished(
            result,
        ),
    decreases events.len(),
{
    if events.len() > 0 {
        lemma_finished_is_final(pinned, force, result, events.drop_first());
    }
}

/// Without `force`, a repository whose destination exists is left as it is:
/// the fetch ends at once with `Ok(false)`, and no report that follows makes
/// it ask for a change.
pub proof fn lemma_present_is_kept(pinned: bool, later: Seq<FetchEvent>)
    ensures
        step_after(pinned, false, FetchStep::Probe, FetchEvent::Exists(true))
            == FetchStep::Finished(Ok(false)),
        step_after_all(pinned, false, FetchStep::Probe, seq![FetchEvent::Exists(true)] + later)
            == FetchStep::Finished(Ok(false)),
        !is_change(
            step_after_all(pinned, false, FetchStep::Probe, seq![FetchEvent::Exists(true)] + later),
        ),
{
    let events = seq![FetchEvent::Exists(true)] + later;
    assert(events.drop_first() =~= later);
    lemma_finished_is_final(pinned, false, Ok(false), later);
}

/// With `force`, a repository whose destination exists is replaced: the
/// destination is removed, then the repository is cloned, then the pinned
/// branch, tag or commit is checked out if there is one; where each of these
/// is performed the fetch ends with `Ok(true)`.
pub proof fn lemma_forced_replaces(pinned: bool)
    ensures
        step_after(pinned, true, FetchStep::Probe, FetchEvent::Exists(true)) == FetchStep::Remove,
        step_after(pinned, true, FetchStep::Remove, FetchEvent::Done) == FetchStep::Clone,
        pinned ==> step_after(pinned, true, FetchStep::Clone, FetchEvent::Done)
            == FetchStep::Checkout && step_after(
            pinned,
            true,
            FetchStep::Checkout,
            FetchEvent::Done,
        ) == FetchStep::Finished(Ok(true)),
        !pinned ==> step_after(pinned, true, FetchStep::Clone, FetchEvent::Done)
            == FetchStep::Finished(Ok(true)),
{
}

/// A repository whose destination does not exist is cloned, with or without
/// `force`, and nothing is removed first.
pub proof fn lemma_absent_is_cloned(pinned: bool, force: bool)
    ensures
        step_after(pinned, force, FetchStep::Probe, FetchEvent::Exists(false)) == FetchStep::Clone,
{
}

/// Nothing is ever removed unless `force` is set and the destination was
/// found to exist.
pub proof fn lemma_removed_only_when_forced(
    pinned: bool,
    force: bool,
    step: FetchStep,
    event: FetchEvent,
)
    requires
        !(step is Remove),
        step_after(pinned, force, step, event) is Remove,
    ensures
        step is Probe,
        event == FetchEvent::Exists(true),
        force,
{
}

/// A fetch ends with `Ok(false)` in one way only: the destination was found
/// to exist and `force` was not set.
pub proof fn lemma_kept_only_when_present(
    pinned: bool,
    force: bool,
    step: FetchStep,
    event: FetchEvent,
)
    requires
        !(step is Finished),
        step_after(pinned, force, step, event) == FetchStep::Finished(Ok(false)),
    ensures
        step is Probe,
        event == FetchEvent::Exists(true),
        !force,
{
}

} // verus!
