use vstd::prelude::*;
use crate::repo::{RepoDescriptor, target_of};
use crate::orchestrate::{accepts_spec, ActionView, EventView, JobView, Outcome, Stage, opt_view, step_spec};

verus! {

/// The outside world as the jobs meet it, in plain values: the paths that are
/// present, the parent URL of each fork whose lookup succeeds, the URLs whose
/// clone fails, and whether adding a remote fails.
pub struct World {
    pub existing: Set<Seq<char>>,
    pub parents: Map<Seq<char>, Seq<char>>,
    pub unreachable: Set<Seq<char>>,
    pub remote_fails: bool,
}

/// How the world answers an action: a successful clone creates its target.
pub open spec fn react(w: World, a: ActionView) -> (World, EventView) {
    match a {
        ActionView::LookupParent(n) => (
            w,
            EventView::ParentFound(
                if w.parents.contains_key(n) {
                    Some(w.parents[n])
                } else {
                    None
                },
            ),
        ),
        ActionView::CheckTarget(d, n) => (w, EventView::TargetChecked(w.existing.contains(target_of(d, n)))),
        ActionView::Clone(u, t, _) => if w.unreachable.contains(u) {
            (w, EventView::CloneFinished(false))
        } else {
            (World { existing: w.existing.insert(t), ..w }, EventView::CloneFinished(true))
        },
        ActionView::AddRemote(_, _, _) => (w, EventView::RemoteFinished(!w.remote_fails)),
        ActionView::Finish(_) => (w, EventView::Begin),
    }
}

/// How many transitions a job has left at most.
pub open spec fn rank(s: Stage) -> nat {
    match s {
        Stage::Ready => 5,
        Stage::AwaitParent => 4,
        Stage::AwaitTarget => 3,
        Stage::AwaitClone => 2,
        Stage::AwaitRemote => 1,
        Stage::Done => 0,
    }
}

/// Runs a job against the world from event `e` to its end: the world after it
/// and every action it asked for, in order.
pub open spec fn run_from(j: JobView, w: World, e: EventView) -> (World, Seq<ActionView>)
    decreases rank(j.stage),
{
    let next = step_spec(j, e);
    if next.0.stage != Stage::Done && rank(next.0.stage) < rank(j.stage) {
        let r = react(w, next.1);
        let rest = run_from(next.0, r.0, r.1);
        (rest.0, seq![next.1] + rest.1)
    } else {
        (w, seq![next.1])
    }
}

/// The job for `repo` under `base`, not started.
pub open spec fn job_of(repo: RepoDescriptor, base: Seq<char>) -> JobView {
    JobView {
        name: repo.name@,
        url: opt_view(repo.connection_url),
        is_fork: repo.is_fork,
        parent: opt_view(repo.parent_connection_url),
        base,
        stage: Stage::Ready,
    }
}

/// The whole job for `repo` under `base`, run against `w`.
pub open spec fn run_job(repo: RepoDescriptor, base: Seq<char>, w: World) -> (World, Seq<ActionView>) {
    run_from(job_of(repo, base), w, EventView::Begin)
}

/// How many actions of `s` satisfy `p`.
pub open spec fn count(s: Seq<ActionView>, p: spec_fn(ActionView) -> bool) -> nat
    decreases s.len(),
{
    if s.len() == 0 {
        0
    } else {
        (if p(s[0]) { 1nat } else { 0nat }) + count(s.drop_first(), p)
    }
}

pub open spec fn is_lookup(a: ActionView) -> bool {
    a is LookupParent
}

pub open spec fn is_clone(a: ActionView) -> bool {
    a is Clone
}

pub open spec fn is_remote_add(a: ActionView) -> bool {
    a is AddRemote
}

proof fn lemma_count_cons(a: ActionView, rest: Seq<ActionView>, p: spec_fn(ActionView) -> bool)
    ensures
        count(seq![a] + rest, p) == (if p(a) { 1nat } else { 0nat }) + count(rest, p),
{
    assert((seq![a] + rest).drop_first() =~= rest);
    assert((seq![a] + rest)[0] == a);
}

proof fn lemma_count_one(a: ActionView, p: spec_fn(ActionView) -> bool)
    ensures
        count(seq![a], p) == (if p(a) { 1nat } else { 0nat }),
{
    lemma_count_cons(a, Seq::empty(), p);
    assert(seq![a] + Seq::<ActionView>::empty() =~= seq![a]);
    assert(count(Seq::<ActionView>::empty(), p) == 0);
}

proof fn lemma_no_lookup_from(j: JobView, w: World, e: EventView)
    requires
        !j.is_fork,
    ensures
        count(run_from(j, w, e).1, |a: ActionView| is_lookup(a)) == 0,
    decreases rank(j.stage),
{
    let p = |a: ActionView| is_lookup(a);
    let next = step_spec(j, e);
    if next.0.stage != Stage::Done && rank(next.0.stage) < rank(j.stage) {
        let r = react(w, next.1);
        lemma_no_lookup_from(next.0, r.0, r.1);
        lemma_count_cons(next.1, run_from(next.0, r.0, r.1).1, p);
    } else {
        lemma_count_one(next.1, p);
    }
}

proof fn lemma_lookup_only_when_ready(j: JobView, w: World, e: EventView)
    requires
        accepts_spec(j.stage, e),
    ensures
        count(run_from(j, w, e).1, |a: ActionView| is_lookup(a)) <= (if j.stage == Stage::Ready { 1nat } else { 0nat }),
    decreases rank(j.stage),
{
    let p = |a: ActionView| is_lookup(a);
    let next = step_spec(j, e);
    if next.0.stage != Stage::Done && rank(next.0.stage) < rank(j.stage) {
        let r = react(w, next.1);
        lemma_lookup_only_when_ready(next.0, r.0, r.1);
        lemma_count_cons(next.1, run_from(next.0, r.0, r.1).1, p);
    } else {
        lemma_count_one(next.1, p);
    }
}

/// A job resolves the parent of its repository at most once.
pub proof fn lemma_at_most_one_lookup(repo: RepoDescriptor, base: Seq<char>, w: World)
    ensures
        count(run_job(repo, base, w).1, |a: ActionView| is_lookup(a)) <= 1,
{
    lemma_lookup_only_when_ready(job_of(repo, base), w, EventView::Begin);
}

/// A repository that is no fork never causes a parent lookup, whatever the
/// world answers.
pub proof fn lemma_non_fork_never_looks_up(repo: RepoDescriptor, base: Seq<char>, w: World)
    requires
        !repo.is_fork,
    ensures
        count(run_job(repo, base, w).1, |a: ActionView| is_lookup(a)) == 0,
{
    lemma_no_lookup_from(job_of(repo, base), w, EventView::Begin);
}

/// From the target check on, a present target ends the job at once, skipped.
proof fn lemma_present_from_check(j: JobView, w: World)
    requires
        j.stage == Stage::AwaitTarget,
        w.existing.contains(target_of(j.base, j.name)),
    ensures
        run_from(j, w, EventView::TargetChecked(true)) == (w, seq![ActionView::Finish(Outcome::Skipped)]),
{
}

/// A job whose target is present performs no clone, leaves the world as it
/// was and reports that it skipped; so a second run, which finds the target
/// present again, does the same.
pub proof fn lemma_present_target_skips(repo: RepoDescriptor, base: Seq<char>, w: World)
    requires
        w.existing.contains(target_of(base, repo.name@)),
    ensures
        run_job(repo, base, w).0 == w,
        run_job(repo, base, w).1.last() == ActionView::Finish(Outcome::Skipped),
        count(run_job(repo, base, w).1, |a: ActionView| is_clone(a)) == 0,
        run_job(repo, base, run_job(repo, base, w).0) == run_job(repo, base, w),
{
    let p = |a: ActionView| is_clone(a);
    let j0 = job_of(repo, base);
    let s1 = step_spec(j0, EventView::Begin);
    let r1 = react(w, s1.1);
    if repo.is_fork {
        let s2 = step_spec(s1.0, r1.1);
        lemma_present_from_check(s2.0, w);
        let t2 = run_from(s2.0, w, EventView::TargetChecked(true)).1;
        assert(run_from(s1.0, r1.0, r1.1).1 == seq![s2.1] + t2);
        lemma_count_one(ActionView::Finish(Outcome::Skipped), p);
        lemma_count_cons(s2.1, t2, p);
        lemma_count_cons(s1.1, seq![s2.1] + t2, p);
    } else {
        lemma_present_from_check(s1.0, w);
        lemma_count_one(ActionView::Finish(Outcome::Skipped), p);
        lemma_count_cons(s1.1, seq![ActionView::Finish(Outcome::Skipped)], p);
    }
}

/// A fork whose parent lookup fails is still cloned where its target is
/// absent, and no remote is added for it.
pub proof fn lemma_failed_lookup_still_clones(repo: RepoDescriptor, base: Seq<char>, w: World)
    requires
        repo.is_fork,
        repo.connection_url is Some,
        !w.parents.contains_key(repo.name@),
        !w.existing.contains(target_of(base, repo.name@)),
    ensures
        count(run_job(repo, base, w).1, |a: ActionView| is_clone(a)) == 1,
        count(run_job(repo, base, w).1, |a: ActionView| is_remote_add(a)) == 0,
{
    let pc = |a: ActionView| is_clone(a);
    let pr = |a: ActionView| is_remote_add(a);
    let j0 = job_of(repo, base);
    let s1 = step_spec(j0, EventView::Begin);
    let r1 = react(w, s1.1);
    let s2 = step_spec(s1.0, r1.1);
    assert(s2.0.parent is None);
    let r2 = react(r1.0, s2.1);
    let s3 = step_spec(s2.0, r2.1);
    assert(s3.1 is Clone);
    let r3 = react(r2.0, s3.1);
    let s4 = step_spec(s3.0, r3.1);
    assert(s4.1 is Finish);
    assert(run_from(s3.0, r3.0, r3.1).1 == seq![s4.1]);
    let t3 = seq![s3.1] + seq![s4.1];
    assert(run_from(s2.0, r2.0, r2.1).1 == t3);
    let t2 = seq![s2.1] + t3;
    assert(run_from(s1.0, r1.0, r1.1).1 == t2);
    assert(run_job(repo, base, w).1 == seq![s1.1] + t2);
    lemma_count_one(s4.1, pc);
    lemma_count_one(s4.1, pr);
    lemma_count_cons(s3.1, seq![s4.1], pc);
    lemma_count_cons(s3.1, seq![s4.1], pr);
    lemma_count_cons(s2.1, t3, pc);
    lemma_count_cons(s2.1, t3, pr);
    lemma_count_cons(s1.1, t2, pc);
    lemma_count_cons(s1.1, t2, pr);
}

} // verus!
