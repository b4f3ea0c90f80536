use vstd::prelude::*;
use crate::repo::RepoDescriptor;

verus! {

/// The state of a paginated listing, as plain values.
pub struct EnumState {
    /// The next page to fetch, counted from one.
    pub page: int,
    /// Every repository of the pages fetched so far, in page order.
    pub collected: Seq<RepoDescriptor>,
    /// Set by the first empty page.
    pub finished: bool,
}

/// The state before the first fetch.
pub open spec fn initial() -> EnumState {
    EnumState { page: 1, collected: Seq::empty(), finished: false }
}

/// Takes one fetched page: an empty page ends the listing, any other is
/// appended and moves the cursor on.
pub open spec fn accept_spec(s: EnumState, items: Seq<RepoDescriptor>) -> EnumState {
    if items.len() == 0 {
        EnumState { finished: true, ..s }
    } else {
        EnumState { page: s.page + 1, collected: s.collected + items, finished: s.finished }
    }
}

/// Feeds `pages` to the listing while it is not finished: the state reached
/// and how many pages were fetched.
pub open spec fn run_pages(s: EnumState, pages: Seq<Seq<RepoDescriptor>>) -> (EnumState, nat)
    decreases pages.len(),
{
    if s.finished || pages.len() == 0 {
        (s, 0)
    } else {
        let r = run_pages(accept_spec(s, pages[0]), pages.drop_first());
        (r.0, r.1 + 1)
    }
}

/// Walks the listing of an account page by page.
pub struct Enumerator {
    pub page: u64,
    pub collected: Vec<RepoDescriptor>,
    pub finished: bool,
}

impl View for Enumerator {
    type V = EnumState;

    open spec fn view(&self) -> EnumState {
        EnumState { page: self.page as int, collected: self.collected@, finished: self.finished }
    }
}

impl Enumerator {
    pub fn new() -> (r: Self)
        ensures
            r@ == initial(),
    {
        Enumerator { page: 1, collected: Vec::new(), finished: false }
    }

    /// The page to fetch next, or `None` once the listing is complete.
    pub fn page_to_fetch(&self) -> (r: Option<u64>)
        ensures
            r == (if self.finished { None } else { Some(self.page) }),
    {
        if self.finished {
            None
        } else {
            Some(self.page)
        }
    }

    /// Takes the items of the page that `page_to_fetch` named.
    pub fn accept_page(&mut self, items: Vec<RepoDescriptor>)
        requires
            !old(self).finished,
            items@.len() > 0 ==> old(self).page < u64::MAX,
        ensures
            final(self)@ == accept_spec(old(self)@, items@),
    {
        if items.len() == 0 {
            self.finished = true;
        } else {
            let mut items = items;
            self.collected.append(&mut items);
            self.page = self.page + 1;
        }
    }

    /// Every repository collected, in page order.
    pub fn into_repos(self) -> (r: Vec<RepoDescriptor>)
        ensures
            r@ == self.collected@,
    {
        self.collected
    }
}

/// Generalises the listing law to any unfinished start.
proof fn lemma_run_from(s: EnumState, pages: Seq<Seq<RepoDescriptor>>)
    requires
        !s.finished,
        forall|i: int| 0 <= i < pages.len() ==> #[trigger] pages[i].len() > 0,
    ensures
        run_pages(s, pages.push(Seq::empty())) == (
            EnumState {
                page: s.page + pages.len(),
                collected: s.collected + pages.flatten(),
                finished: true,
            },
            pages.len() + 1,
        ),
    decreases pages.len(),
{
    let all = pages.push(Seq::empty());
    if pages.len() == 0 {
        assert(all[0].len() == 0);
        assert(all.drop_first().len() == 0);
        assert(s.collected + pages.flatten() =~= s.collected);
        let s1 = accept_spec(s, all[0]);
        assert(run_pages(s1, all.drop_first()) == (s1, 0nat));
    } else {
        let rest = pages.drop_first();
        assert(all.drop_first() =~= rest.push(Seq::empty()));
        assert(all[0] == pages[0]);
        assert(all[0].len() > 0);
        assert forall|i: int| 0 <= i < rest.len() implies #[trigger] rest[i].len() > 0 by {
            assert(rest[i] == pages[i + 1]);
        }
        let s1 = accept_spec(s, pages[0]);
        lemma_run_from(s1, rest);
        assert(pages.flatten() == pages[0] + rest.flatten());
        assert(s.collected + pages.flatten() =~= s1.collected + rest.flatten());
    }
}

/// K non-empty pages followed by an empty one: the listing collects the
/// concatenation of the K pages in page order, and fetches K + 1 pages.
pub proof fn lemma_listing_concatenates_pages(pages: Seq<Seq<RepoDescriptor>>)
    requires
        forall|i: int| 0 <= i < pages.len() ==> #[trigger] pages[i].len() > 0,
    ensures
        run_pages(initial(), pages.push(Seq::empty())).0.collected == pages.flatten(),
        run_pages(initial(), pages.push(Seq::empty())).0.finished,
        run_pages(initial(), pages.push(Seq::empty())).1 == pages.len() + 1,
{
    lemma_run_from(initial(), pages);
    assert(initial().collected + pages.flatten() =~= pages.flatten());
}

} // verus!
