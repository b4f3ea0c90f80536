use vstd::prelude::*;
use crate::repo::RepoDescriptor;

verus! {

/// The names of `names`, as plain values.
pub open spec fn names_of(names: Seq<String>) -> Seq<Seq<char>> {
    names.map_values(|n: String| n@)
}

/// The repositories of `repos` whose name is in `names`, in the order they
/// have in `repos`.
pub open spec fn kept(repos: Seq<RepoDescriptor>, names: Seq<Seq<char>>) -> Seq<RepoDescriptor>
    decreases repos.len(),
{
    if repos.len() == 0 {
        Seq::empty()
    } else {
        let prev = kept(repos.drop_last(), names);
        if names.contains(repos.last().name@) {
            prev.push(repos.last())
        } else {
            prev
        }
    }
}

/// Filtering keeps exactly the requested repositories: each one kept is
/// requested, each requested one is kept, and the kept ones stand in the
/// order they have in `repos` (an order-preserving sub-sequence).
pub proof fn lemma_kept_exactly_requested(repos: Seq<RepoDescriptor>, names: Seq<Seq<char>>)
    ensures
        forall|i: int| 0 <= i < kept(repos, names).len() ==> names.contains(#[trigger] kept(repos, names)[i].name@),
        forall|i: int| 0 <= i < repos.len() && names.contains(#[trigger] repos[i].name@) ==> kept(repos, names).contains(repos[i]),
        exists|idx: Seq<int>| #[trigger] idx.len() == kept(repos, names).len()
            && (forall|k: int| 0 <= k < idx.len() ==> 0 <= #[trigger] idx[k] < repos.len() && kept(repos, names)[k] == repos[idx[k]])
            && (forall|k: int, l: int| 0 <= k < l < idx.len() ==> #[trigger] idx[k] < #[trigger] idx[l]),
    decreases repos.len(),
{
    if repos.len() > 0 {
        let init = repos.drop_last();
        let prev = kept(init, names);
        lemma_kept_exactly_requested(init, names);
        let idx0 = choose|idx: Seq<int>| #[trigger] idx.len() == prev.len()
            && (forall|k: int| 0 <= k < idx.len() ==> 0 <= #[trigger] idx[k] < init.len() && prev[k] == init[idx[k]])
            && (forall|k: int, l: int| 0 <= k < l < idx.len() ==> #[trigger] idx[k] < #[trigger] idx[l]);
        let cur = kept(repos, names);
        assert forall|i: int| 0 <= i < repos.len() && names.contains(#[trigger] repos[i].name@) implies cur.contains(repos[i]) by {
            if i < repos.len() - 1 {
                assert(repos[i] == init[i]);
                let j = choose|j: int| 0 <= j < prev.len() && prev[j] == init[i];
                assert(cur[j] == prev[j]);
            } else {
                assert(cur[cur.len() - 1] == repos.last());
            }
        }
        if names.contains(repos.last().name@) {
            let idx = idx0.push(repos.len() - 1);
            assert(idx.len() == cur.len());
            assert forall|k: int| 0 <= k < idx.len() implies 0 <= #[trigger] idx[k] < repos.len() && cur[k] == repos[idx[k]] by {
                if k < idx0.len() {
                    assert(init[idx0[k]] == repos[idx0[k]]);
                }
            }
            assert(forall|k: int, l: int| 0 <= k < l < idx.len() ==> #[trigger] idx[k] < #[trigger] idx[l]);
        } else {
            assert forall|k: int| 0 <= k < idx0.len() implies 0 <= #[trigger] idx0[k] < repos.len() && cur[k] == repos[idx0[k]] by {
                assert(init[idx0[k]] == repos[idx0[k]]);
            }
        }
    } else {
        let idx = Seq::<int>::empty();
        assert(idx.len() == kept(repos, names).len());
    }
}

/// Whether `name` is one of `names`; names match exactly, case included.
pub fn is_requested(name: &String, names: &Vec<String>) -> (r: bool)
    ensures
        r == names_of(names@).contains(name@),
{
    let mut i: usize = 0;
    while i < names.len()
        invariant
            i <= names@.len(),
            forall|k: int| 0 <= k < i ==> names@[k]@ != name@,
        decreases names@.len() - i,
    {
        if names[i] == *name {
            assert(names_of(names@)[i as int] == name@);
            return true;
        }
        i = i + 1;
    }
    assert forall|k: int| 0 <= k < names_of(names@).len() implies names_of(names@)[k] != name@ by {
        assert(names_of(names@)[k] == names@[k]@);
    }
    false
}

/// Narrows `repos` to the requested names where a list is given; without one
/// every repository passes. Names that match nothing are ignored.
pub fn filter_repos(repos: Vec<RepoDescriptor>, requested: &Option<Vec<String>>) -> (r: Vec<RepoDescriptor>)
    ensures
        requested is None ==> r@ == repos@,
        requested matches Some(names) ==> r@ == kept(repos@, names_of(names@)),
{
    match requested {
        None => repos,
        Some(names) => {
            let mut out: Vec<RepoDescriptor> = Vec::new();
            let mut rest = repos;
            let ghost all = rest@;
            let n = rest.len();
            let mut i: usize = 0;
            while i < n
                invariant
                    n == all.len(),
                    i <= n,
                    rest@ == all.subrange(i as int, n as int),
                    out@ == kept(all.subrange(0, i as int), names_of(names@)),
                decreases n - i,
            {
                let r = rest.remove(0);
                proof {
                    assert(r == all[i as int]);
                    assert(all.subrange(0, i + 1).drop_last() =~= all.subrange(0, i as int));
                    assert(rest@ =~= all.subrange(i + 1, n as int));
                }
                if is_requested(&r.name, names) {
                    out.push(r);
                }
                i = i + 1;
            }
            assert(all.subrange(0, all.len() as int) =~= all);
            out
        },
    }
}

} // verus!
