use vstd::prelude::*;

verus! {

/// One repository visible to the account.
pub struct RepoDescriptor {
    /// Unique within the account.
    pub name: String,
    /// The URL that a clone is made from; absent where the token's scope hides it.
    pub connection_url: Option<String>,
    pub is_fork: bool,
    /// The parent's URL, once resolved; always `None` for a repository that is no fork.
    pub parent_connection_url: Option<String>,
}

/// The directory that a repository is cloned into: `base/name`.
pub open spec fn target_of(base: Seq<char>, name: Seq<char>) -> Seq<char> {
    base + seq!['/'] + name
}

/// Builds the clone target of `name` under `base`.
pub fn clone_target(base: &str, name: &str) -> (r: String)
    ensures
        r@ == target_of(base@, name@),
{
    let s = base.to_owned();
    proof {
        reveal_strlit("/");
    }
    let s = s.concat("/");
    s.concat(name)
}

/// Whether `repo_name` has already been cloned, given the names of the
/// entries of the base directory: its clone target exists exactly when an
/// entry of that name is there. Names match exactly, case included.
pub fn already_cloned(repo_name: &str, entries: &Vec<String>) -> (r: bool)
    ensures
        r == (exists|k: int| 0 <= k < entries@.len() && #[trigger] entries@[k]@ == repo_name@),
{
    let name = repo_name.to_owned();
    let mut i: usize = 0;
    while i < entries.len()
        invariant
            name@ == repo_name@,
            i <= entries@.len(),
            forall|k: int| 0 <= k < i ==> #[trigger] entries@[k]@ != repo_name@,
        decreases entries@.len() - i,
    {
        if entries[i] == name {
            return true;
        }
        i = i + 1;
    }
    false
}

/// Whether the parent of `repo` is to be looked up: only forks have one.
pub fn needs_parent_lookup(repo: &RepoDescriptor) -> (r: bool)
    ensures
        r == repo.is_fork,
{
    repo.is_fork
}

} // verus!
