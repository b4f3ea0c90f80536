use vstd::prelude::*;
use crate::repo::{RepoDescriptor, target_of, clone_target, needs_parent_lookup};

verus! {

/// Where a repository's job stands.
#[derive(Clone, Copy, PartialEq, Eq, Structural, Debug)]
pub enum Stage {
    Ready,
    AwaitParent,
    AwaitTarget,
    AwaitClone,
    AwaitRemote,
    Done,
}

/// Why a repository could not be cloned.
#[derive(Clone, Copy, PartialEq, Eq, Structural, Debug)]
pub enum Failure {
    /// The repository carries no connection URL.
    MissingUrl,
    /// The clone process failed to start or exited non-zero.
    CloneFailed,
}

/// What became of the upstream remote of a cloned repository.
#[derive(Clone, Copy, PartialEq, Eq, Structural, Debug)]
pub enum Upstream {
    /// No fork, or a fork whose parent is unknown: nothing to link.
    NotLinked,
    Linked,
    LinkFailed,
}

/// The result reported for one repository.
#[derive(Clone, Copy, PartialEq, Eq, Structural, Debug)]
pub enum Outcome {
    /// The target was present: no clone was attempted.
    Skipped,
    Failed(Failure),
    Cloned(Upstream),
}

/// What the caller reports back after carrying out an action.
pub enum Event {
    /// Starts the job.
    Begin,
    /// The parent's URL, or `None` where the lookup failed or found none.
    ParentFound(Option<String>),
    /// Whether the clone target exists.
    TargetChecked(bool),
    /// Whether the clone process exited with status zero.
    CloneFinished(bool),
    /// Whether the remote-add process exited with status zero.
    RemoteFinished(bool),
}

/// What the job asks the caller to do next.
pub enum Action {
    /// Fetch the metadata of the repository `name` and report its parent's URL.
    LookupParent { name: String },
    /// Report whether the entry `name` exists in the directory `dir`.
    CheckTarget { dir: String, name: String },
    /// Run a clone of `url` into `target`, in the directory `cwd`.
    Clone { url: String, target: String, cwd: String },
    /// Add the remote `remote` pointing at `url`, in the directory `cwd`.
    AddRemote { remote: String, url: String, cwd: String },
    /// The job is over, with this outcome.
    Finish { outcome: Outcome },
}

/// An event as plain values.
pub enum EventView {
    Begin,
    ParentFound(Option<Seq<char>>),
    TargetChecked(bool),
    CloneFinished(bool),
    RemoteFinished(bool),
}

/// An action as plain values.
pub enum ActionView {
    LookupParent(Seq<char>),
    CheckTarget(Seq<char>, Seq<char>),
    Clone(Seq<char>, Seq<char>, Seq<char>),
    AddRemote(Seq<char>, Seq<char>, Seq<char>),
    Finish(Outcome),
}

pub open spec fn opt_view(o: Option<String>) -> Option<Seq<char>> {
    match o {
        Some(s) => Some(s@),
        None => None,
    }
}

impl View for Event {
    type V = EventView;

    open spec fn view(&self) -> EventView {
        match self {
            Event::Begin => EventView::Begin,
            Event::ParentFound(p) => EventView::ParentFound(opt_view(*p)),
            Event::TargetChecked(b) => EventView::TargetChecked(*b),
            Event::CloneFinished(b) => EventView::CloneFinished(*b),
            Event::RemoteFinished(b) => EventView::RemoteFinished(*b),
        }
    }
}

impl View for Action {
    type V = ActionView;

    open spec fn view(&self) -> ActionView {
        match self {
            Action::LookupParent { name } => ActionView::LookupParent(name@),
            Action::CheckTarget { dir, name } => ActionView::CheckTarget(dir@, name@),
            Action::Clone { url, target, cwd } => ActionView::Clone(url@, target@, cwd@),
            Action::AddRemote { remote, url, cwd } => ActionView::AddRemote(remote@, url@, cwd@),
            Action::Finish { outcome } => ActionView::Finish(*outcome),
        }
    }
}

/// The state of a job, as plain values.
pub struct JobView {
    pub name: Seq<char>,
    pub url: Option<Seq<char>>,
    pub is_fork: bool,
    pub parent: Option<Seq<char>>,
    pub base: Seq<char>,
    pub stage: Stage,
}

/// The name of the remote that points at a fork's parent.
pub open spec fn upstream_name() -> Seq<char> {
    seq!['u', 'p', 's', 't', 'r', 'e', 'a', 'm']
}

/// Which event each stage waits for.
pub open spec fn accepts_spec(stage: Stage, e: EventView) -> bool {
    match (stage, e) {
        (Stage::Ready, EventView::Begin) => true,
        (Stage::AwaitParent, EventView::ParentFound(_)) => true,
        (Stage::AwaitTarget, EventView::TargetChecked(_)) => true,
        (Stage::AwaitClone, EventView::CloneFinished(_)) => true,
        (Stage::AwaitRemote, EventView::RemoteFinished(_)) => true,
        _ => false,
    }
}

/// One transition of a job: the next state and the action asked for.
/// Forks resolve their parent first; then the target is checked, the clone
/// made where it is absent, and the upstream remote linked for a fork whose
/// parent is known.
pub open spec fn step_spec(j: JobView, e: EventView) -> (JobView, ActionView) {
    let target = target_of(j.base, j.name);
    match e {
        EventView::Begin => if j.is_fork {
            (JobView { stage: Stage::AwaitParent, ..j }, ActionView::LookupParent(j.name))
        } else {
            (JobView { stage: Stage::AwaitTarget, parent: None, ..j }, ActionView::CheckTarget(j.base, j.name))
        },
        EventView::ParentFound(p) => (
            JobView { stage: Stage::AwaitTarget, parent: p, ..j },
            ActionView::CheckTarget(j.base, j.name),
        ),
        EventView::TargetChecked(exists) => if exists {
            (JobView { stage: Stage::Done, ..j }, ActionView::Finish(Outcome::Skipped))
        } else {
            match j.url {
                None => (
                    JobView { stage: Stage::Done, ..j },
                    ActionView::Finish(Outcome::Failed(Failure::MissingUrl)),
                ),
                Some(u) => (
                    JobView { stage: Stage::AwaitClone, ..j },
                    ActionView::Clone(u, target, j.base),
                ),
            }
        },
        EventView::CloneFinished(ok) => if !ok {
            (JobView { stage: Stage::Done, ..j }, ActionView::Finish(Outcome::Failed(Failure::CloneFailed)))
        } else {
            match j.parent {
                Some(p) if j.is_fork => (
                    JobView { stage: Stage::AwaitRemote, ..j },
                    ActionView::AddRemote(upstream_name(), p, target),
                ),
                _ => (
                    JobView { stage: Stage::Done, ..j },
                    ActionView::Finish(Outcome::Cloned(Upstream::NotLinked)),
                ),
            }
        },
        EventView::RemoteFinished(ok) => (
            JobView { stage: Stage::Done, ..j },
            ActionView::Finish(Outcome::Cloned(if ok { Upstream::Linked } else { Upstream::LinkFailed })),
        ),
    }
}

/// The work for one repository under one base path.
pub struct CloneJob {
    pub repo: RepoDescriptor,
    pub base: String,
    pub stage: Stage,
}

impl View for CloneJob {
    type V = JobView;

    open spec fn view(&self) -> JobView {
        JobView {
            name: self.repo.name@,
            url: opt_view(self.repo.connection_url),
            is_fork: self.repo.is_fork,
            parent: opt_view(self.repo.parent_connection_url),
            base: self.base@,
            stage: self.stage,
        }
    }
}

fn copy_opt(o: &Option<String>) -> (r: Option<String>)
    ensures
        opt_view(r) == opt_view(*o),
{
    match o {
        Some(s) => Some(s.clone()),
        None => None,
    }
}

impl CloneJob {
    /// A job that has not started.
    pub fn new(repo: RepoDescriptor, base: String) -> (r: Self)
        ensures
            r.repo == repo,
            r.base == base,
            r.stage == Stage::Ready,
    {
        CloneJob { repo, base, stage: Stage::Ready }
    }

    /// Whether the job waits for `e` now.
    pub fn accepts(&self, e: &Event) -> (r: bool)
        ensures
            r == accepts_spec(self.stage, e@),
    {
        match (self.stage, e) {
            (Stage::Ready, Event::Begin) => true,
            (Stage::AwaitParent, Event::ParentFound(_)) => true,
            (Stage::AwaitTarget, Event::TargetChecked(_)) => true,
            (Stage::AwaitClone, Event::CloneFinished(_)) => true,
            (Stage::AwaitRemote, Event::RemoteFinished(_)) => true,
            _ => false,
        }
    }

    /// Takes the event that the job waits for and returns the next action.
    pub fn step(&mut self, e: Event) -> (a: Action)
        requires
            accepts_spec(old(self).stage, e@),
        ensures
            (final(self)@, a@) == step_spec(old(self)@, e@),
    {
        match e {
            Event::Begin => {
                if needs_parent_lookup(&self.repo) {
                    self.stage = Stage::AwaitParent;
                    Action::LookupParent { name: self.repo.name.clone() }
                } else {
                    self.stage = Stage::AwaitTarget;
                    self.repo.parent_connection_url = None;
                    Action::CheckTarget { dir: self.base.clone(), name: self.repo.name.clone() }
                }
            },
            Event::ParentFound(p) => {
                self.repo.parent_connection_url = p;
                self.stage = Stage::AwaitTarget;
                Action::CheckTarget { dir: self.base.clone(), name: self.repo.name.clone() }
            },
            Event::TargetChecked(exists) => {
                if exists {
                    self.stage = Stage::Done;
                    Action::Finish { outcome: Outcome::Skipped }
                } else {
                    match &self.repo.connection_url {
                        None => {
                            self.stage = Stage::Done;
                            Action::Finish { outcome: Outcome::Failed(Failure::MissingUrl) }
                        },
                        Some(u) => {
                            let url = u.clone();
                            self.stage = Stage::AwaitClone;
                            Action::Clone {
                                url,
                                target: clone_target(self.base.as_str(), self.repo.name.as_str()),
                                cwd: self.base.clone(),
                            }
                        },
                    }
                }
            },
            Event::CloneFinished(ok) => {
                if !ok {
                    self.stage = Stage::Done;
                    Action::Finish { outcome: Outcome::Failed(Failure::CloneFailed) }
                } else {
                    let parent = copy_opt(&self.repo.parent_connection_url);
                    match parent {
                        Some(p) if self.repo.is_fork => {
                            self.stage = Stage::AwaitRemote;
                            let remote = "upstream".to_owned();
                            proof {
                                reveal_strlit("upstream");
                                assert(remote@ =~= upstream_name());
                            }
                            Action::AddRemote {
                                remote,
                                url: p,
                                cwd: clone_target(self.base.as_str(), self.repo.name.as_str()),
                            }
                        },
                        _ => {
                            self.stage = Stage::Done;
                            Action::Finish { outcome: Outcome::Cloned(Upstream::NotLinked) }
                        },
                    }
                }
            },
            Event::RemoteFinished(ok) => {
                self.stage = Stage::Done;
                Action::Finish {
                    outcome: Outcome::Cloned(if ok { Upstream::Linked } else { Upstream::LinkFailed }),
                }
            },
        }
    }
}

} // verus!
