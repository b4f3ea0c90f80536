use std::collections::{HashMap, HashSet};

use repo_mirror::enumerate::Enumerator;
use repo_mirror::filter::{filter_repos, is_requested};
use repo_mirror::orchestrate::{Action, CloneJob, Event, Failure, Outcome, Upstream};
use repo_mirror::repo::{already_cloned, clone_target, needs_parent_lookup, RepoDescriptor};

fn repo(name: &str, url: Option<&str>, is_fork: bool) -> RepoDescriptor {
    RepoDescriptor {
        name: name.to_string(),
        connection_url: url.map(|u| u.to_string()),
        is_fork,
        parent_connection_url: None,
    }
}

/// A stand-in for the network, the filesystem and git.
struct FakeWorld {
    existing: HashSet<String>,
    parents: HashMap<String, String>,
    unreachable: HashSet<String>,
    remote_fails: bool,
    lookups: Vec<String>,
    clones: Vec<(String, String, String)>,
    remotes: Vec<(String, String, String)>,
    checks: Vec<String>,
}

impl FakeWorld {
    fn new() -> FakeWorld {
        FakeWorld {
            existing: HashSet::new(),
            parents: HashMap::new(),
            unreachable: HashSet::new(),
            remote_fails: false,
            lookups: vec![],
            clones: vec![],
            remotes: vec![],
            checks: vec![],
        }
    }

    fn run(&mut self, r: RepoDescriptor, base: &str) -> Outcome {
        let mut job = CloneJob::new(r, base.to_string());
        let mut ev = Event::Begin;
        loop {
            assert!(job.accepts(&ev));
            match job.step(ev) {
                Action::LookupParent { name } => {
                    ev = Event::ParentFound(self.parents.get(&name).cloned());
                    self.lookups.push(name);
                }
                Action::CheckTarget { dir, name } => {
                    let target = clone_target(&dir, &name);
                    ev = Event::TargetChecked(self.existing.contains(&target));
                    self.checks.push(target);
                }
                Action::Clone { url, target, cwd } => {
                    let ok = !self.unreachable.contains(&url);
                    if ok {
                        self.existing.insert(target.clone());
                    }
                    self.clones.push((url, target, cwd));
                    ev = Event::CloneFinished(ok);
                }
                Action::AddRemote { remote, url, cwd } => {
                    self.remotes.push((remote, url, cwd));
                    ev = Event::RemoteFinished(!self.remote_fails);
                }
                Action::Finish { outcome } => return outcome,
            }
        }
    }
}

#[test]
fn enumeration_concatenates_pages_in_order() {
    let pages = vec![
        vec![repo("a", Some("u/a"), false), repo("b", Some("u/b"), false)],
        vec![repo("c", Some("u/c"), true)],
        vec![],
        vec![repo("never", Some("u/never"), false)],
    ];
    let mut en = Enumerator::new();
    let mut fetched: Vec<u64> = vec![];
    let mut pages = pages.into_iter();
    while let Some(p) = en.page_to_fetch() {
        fetched.push(p);
        en.accept_page(pages.next().unwrap());
    }
    assert_eq!(fetched, vec![1, 2, 3]);
    let names: Vec<String> = en.into_repos().into_iter().map(|r| r.name).collect();
    assert_eq!(names, vec!["a", "b", "c"]);
}

#[test]
fn enumeration_of_empty_account_fetches_once() {
    let mut en = Enumerator::new();
    assert_eq!(en.page_to_fetch(), Some(1));
    en.accept_page(vec![]);
    assert_eq!(en.page_to_fetch(), None);
    assert!(en.into_repos().is_empty());
}

#[test]
fn second_run_skips_present_target() {
    let mut w = FakeWorld::new();
    w.existing.insert("/base/proj".to_string());
    let first = w.run(repo("proj", Some("git@host:alice/proj"), false), "/base");
    let second = w.run(repo("proj", Some("git@host:alice/proj"), false), "/base");
    assert_eq!(first, Outcome::Skipped);
    assert_eq!(second, Outcome::Skipped);
    assert!(w.clones.is_empty());
}

#[test]
fn clone_then_rerun_is_skipped() {
    let mut w = FakeWorld::new();
    let first = w.run(repo("proj", Some("git@host:alice/proj"), false), "/base");
    let second = w.run(repo("proj", Some("git@host:alice/proj"), false), "/base");
    assert_eq!(first, Outcome::Cloned(Upstream::NotLinked));
    assert_eq!(second, Outcome::Skipped);
    assert_eq!(w.clones.len(), 1);
}

#[test]
fn failed_parent_lookup_still_clones_without_remote() {
    let mut w = FakeWorld::new();
    let out = w.run(repo("fork1", Some("git@host:alice/fork1"), true), "/base");
    assert_eq!(out, Outcome::Cloned(Upstream::NotLinked));
    assert_eq!(w.lookups, vec!["fork1"]);
    assert_eq!(w.clones.len(), 1);
    assert!(w.remotes.is_empty());
}

#[test]
fn non_fork_never_looks_up_parent() {
    let mut w = FakeWorld::new();
    w.parents.insert("proj".to_string(), "git@host:bob/proj".to_string());
    let out = w.run(repo("proj", Some("git@host:alice/proj"), false), "/base");
    assert_eq!(out, Outcome::Cloned(Upstream::NotLinked));
    assert!(w.lookups.is_empty());
    assert!(w.remotes.is_empty());
    assert!(!needs_parent_lookup(&repo("proj", None, false)));
    assert!(needs_parent_lookup(&repo("fork1", None, true)));
}

#[test]
fn filter_keeps_requested_in_order() {
    let repos = vec![
        repo("A", Some("u/A"), false),
        repo("B", Some("u/B"), false),
        repo("C", Some("u/C"), false),
    ];
    let requested = Some(vec!["C".to_string(), "A".to_string()]);
    let kept = filter_repos(repos, &requested);
    let mut w = FakeWorld::new();
    for r in kept {
        w.run(r, "/base");
    }
    let cloned: Vec<String> = w.clones.iter().map(|c| c.0.clone()).collect();
    assert_eq!(cloned, vec!["u/A", "u/C"]);
    assert_eq!(w.checks, vec!["/base/A", "/base/C"]);
}

#[test]
fn filter_without_list_passes_all() {
    let repos = vec![repo("A", None, false), repo("B", None, false)];
    let kept = filter_repos(repos, &None);
    let names: Vec<String> = kept.into_iter().map(|r| r.name).collect();
    assert_eq!(names, vec!["A", "B"]);
}

#[test]
fn filter_is_case_sensitive_and_drops_unknown_names() {
    let repos = vec![repo("Proj", None, false), repo("other", None, false)];
    let requested = Some(vec!["proj".to_string(), "missing".to_string(), "other".to_string()]);
    let names: Vec<String> = filter_repos(repos, &requested).into_iter().map(|r| r.name).collect();
    assert_eq!(names, vec!["other"]);
    assert!(is_requested(&"other".to_string(), &vec!["x".to_string(), "other".to_string()]));
    assert!(!is_requested(&"Other".to_string(), &vec!["other".to_string()]));
}

#[test]
fn end_to_end_two_repositories() {
    let mut en = Enumerator::new();
    let mut pages = vec![
        vec![repo("proj", Some("git@host:alice/proj"), false), repo("fork1", Some("git@host:alice/fork1"), true)],
        vec![],
    ]
    .into_iter();
    while en.page_to_fetch().is_some() {
        en.accept_page(pages.next().unwrap());
    }
    let repos = filter_repos(en.into_repos(), &None);
    let mut w = FakeWorld::new();
    w.parents.insert("fork1".to_string(), "git@host:bob/fork1".to_string());
    let outcomes: Vec<Outcome> = repos.into_iter().map(|r| w.run(r, "/dest")).collect();
    assert_eq!(outcomes, vec![Outcome::Cloned(Upstream::NotLinked), Outcome::Cloned(Upstream::Linked)]);
    assert_eq!(
        w.clones,
        vec![
            ("git@host:alice/proj".to_string(), "/dest/proj".to_string(), "/dest".to_string()),
            ("git@host:alice/fork1".to_string(), "/dest/fork1".to_string(), "/dest".to_string()),
        ]
    );
    assert_eq!(
        w.remotes,
        vec![("upstream".to_string(), "git@host:bob/fork1".to_string(), "/dest/fork1".to_string())]
    );
    assert!(w.existing.contains("/dest/proj"));
    assert!(w.existing.contains("/dest/fork1"));
}

#[test]
fn missing_url_fails_without_clone() {
    let mut w = FakeWorld::new();
    let out = w.run(repo("hidden", None, false), "/base");
    assert_eq!(out, Outcome::Failed(Failure::MissingUrl));
    assert!(w.clones.is_empty());
}

#[test]
fn clone_failure_is_reported_and_batch_goes_on() {
    let mut w = FakeWorld::new();
    w.unreachable.insert("git@host:alice/gone".to_string());
    let a = w.run(repo("gone", Some("git@host:alice/gone"), false), "/base");
    let b = w.run(repo("next", Some("git@host:alice/next"), false), "/base");
    assert_eq!(a, Outcome::Failed(Failure::CloneFailed));
    assert_eq!(b, Outcome::Cloned(Upstream::NotLinked));
    assert!(!w.existing.contains("/base/gone"));
}

#[test]
fn remote_failure_keeps_clone_successful() {
    let mut w = FakeWorld::new();
    w.remote_fails = true;
    w.parents.insert("fork1".to_string(), "git@host:bob/fork1".to_string());
    let out = w.run(repo("fork1", Some("git@host:alice/fork1"), true), "/base");
    assert_eq!(out, Outcome::Cloned(Upstream::LinkFailed));
    assert!(w.existing.contains("/base/fork1"));
}

#[test]
fn fork_clone_failure_adds_no_remote() {
    let mut w = FakeWorld::new();
    w.unreachable.insert("u/f".to_string());
    w.parents.insert("f".to_string(), "u/parent".to_string());
    let out = w.run(repo("f", Some("u/f"), true), "/base");
    assert_eq!(out, Outcome::Failed(Failure::CloneFailed));
    assert!(w.remotes.is_empty());
}

#[test]
fn step_rejects_unexpected_event() {
    let job = CloneJob::new(repo("p", Some("u/p"), false), "/b".to_string());
    assert!(job.accepts(&Event::Begin));
    assert!(!job.accepts(&Event::CloneFinished(true)));
}

#[test]
fn clone_target_joins_with_slash() {
    assert_eq!(clone_target("/home/alice/src", "proj"), "/home/alice/src/proj");
    assert_eq!(clone_target("", "x"), "/x");
}

#[test]
fn already_cloned_matches_entry_names_exactly() {
    let entries = vec!["proj".to_string(), "fork1".to_string()];
    assert!(already_cloned("fork1", &entries));
    assert!(already_cloned("proj", &entries));
    assert!(!already_cloned("Proj", &entries));
    assert!(!already_cloned("pro", &entries));
    assert!(!already_cloned("proj", &vec![]));
}
