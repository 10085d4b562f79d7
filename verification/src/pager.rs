//! The Pager: drains a cursor-paged repository listing into one ordered,
//! complete sequence of repositories.
//!
//! A listing is modelled as the responses the platform returns for each
//! cursor, a run starting at cursor `0`. The meaning of a drain is the spec
//! function [`walk`]: follow cursors from the start, concatenating each
//! page's items, until a page arrives without a next cursor; a response that
//! cannot be understood, a dangling cursor, or an endless chain is fatal,
//! because an audit over a partial repository set would be misleading.

use vstd::prelude::*;
use vstd::string::StringExecFns;
use crate::records::Repository;
use crate::records::RepositoryV;
use crate::records::clone_repositories;

verus! {

/// One well-formed page of the repository listing: the page's items and,
/// when more pages follow, the cursor of the page after it.
#[derive(Debug, PartialEq)]
pub struct Page {
    pub items: Vec<Repository>,
    pub next: Option<usize>,
}

/// What one page request produced: a page, or a response that could not be
/// understood (transport failure, authentication rejected, malformed body).
#[derive(Debug, PartialEq)]
pub enum PageResponse {
    Page(Page),
    Malformed,
}

/// The distinct error of a run whose repository listing could not be drained
/// completely. It is fatal to the run and never confused with a
/// per-repository enrichment failure.
#[derive(Clone, Copy, PartialEq, Eq, Structural, Debug)]
pub struct ListingIncomplete;

impl ListingIncomplete {
    /// A short diagnostic for the operator.
    pub fn message(&self) -> (r: String)
        ensures
            r@ == "repository listing incomplete"@,
    {
        String::from_str("repository listing incomplete")
    }
}

/// The items of one page response; a malformed response contributes none.
pub open spec fn response_items(p: PageResponse) -> Seq<RepositoryV> {
    match p {
        PageResponse::Page(pg) => pg.items.deep_view(),
        PageResponse::Malformed => Seq::empty(),
    }
}

/// The cursor a well-formed listing's page `i` of `len` carries.
pub open spec fn chain_cursor(i: int, len: int) -> Option<usize> {
    if i + 1 < len {
        Some((i + 1) as usize)
    } else {
        None
    }
}

/// Position `i` holds a page whose cursor is the one a well-formed chain
/// carries there.
pub open spec fn chained_page_at(pages: Seq<PageResponse>, i: int) -> bool {
    pages[i] matches PageResponse::Page(pg) && pg.next == chain_cursor(i, pages.len() as int)
}

/// Position `i` holds a page whose cursor points at position `i + 1`.
pub open spec fn linked_page_at(pages: Seq<PageResponse>, i: int) -> bool {
    pages[i] matches PageResponse::Page(pg) && pg.next == Some((i + 1) as usize)
}

/// A complete, well-formed listing: at least the first page arrived, every
/// response parses, and each page's cursor points at the page after it, the
/// last page carrying none.
pub open spec fn listing_wf(pages: Seq<PageResponse>) -> bool {
    &&& pages.len() >= 1
    &&& forall|i: int| 0 <= i < pages.len() ==> #[trigger] chained_page_at(pages, i)
}

/// A listing whose chain is well formed up to position `k`, where the
/// response could not be understood.
pub open spec fn listing_malformed_at(pages: Seq<PageResponse>, k: int) -> bool {
    &&& 0 <= k < pages.len()
    &&& forall|i: int| 0 <= i < k ==> #[trigger] linked_page_at(pages, i)
    &&& pages[k] matches PageResponse::Malformed
}

/// The items of all responses from position `i` on, concatenated in order.
pub open spec fn tail_items(pages: Seq<PageResponse>, i: int) -> Seq<RepositoryV>
    decreases pages.len() - i,
{
    if i < 0 || i >= pages.len() {
        Seq::empty()
    } else {
        response_items(pages[i]) + tail_items(pages, i + 1)
    }
}

/// The complete ordered repository listing a well-formed set of pages holds.
pub open spec fn listing_items(pages: Seq<PageResponse>) -> Seq<RepositoryV> {
    tail_items(pages, 0)
}

/// The meaning of draining a listing: start at cursor `c` with `fuel`
/// permitted page fetches, follow cursors, and concatenate items. Exhausted
/// fuel (an endless chain), a dangling cursor, and a malformed response all
/// end the drain with [`ListingIncomplete`].
pub open spec fn walk(pages: Seq<PageResponse>, c: int, fuel: nat) -> Result<
    Seq<RepositoryV>,
    ListingIncomplete,
>
    decreases fuel,
{
    if fuel == 0 {
        Err(ListingIncomplete)
    } else if c < 0 || c >= pages.len() {
        Err(ListingIncomplete)
    } else {
        match pages[c] {
            PageResponse::Malformed => Err(ListingIncomplete),
            PageResponse::Page(pg) => match pg.next {
                None => Ok(pg.items.deep_view()),
                Some(n) => match walk(pages, n as int, (fuel - 1) as nat) {
                    Ok(rest) => Ok(pg.items.deep_view() + rest),
                    Err(e) => Err(e),
                },
            },
        }
    }
}

/// `w` with `acc` prepended to its item sequence when it succeeded.
pub open spec fn with_prefix(
    acc: Seq<RepositoryV>,
    w: Result<Seq<RepositoryV>, ListingIncomplete>,
) -> Result<Seq<RepositoryV>, ListingIncomplete> {
    match w {
        Ok(rest) => Ok(acc + rest),
        Err(e) => Err(e),
    }
}

/// The result of a drain, seen mathematically.
pub open spec fn drained(r: Result<Vec<Repository>, ListingIncomplete>) -> Result<
    Seq<RepositoryV>,
    ListingIncomplete,
> {
    match r {
        Ok(v) => Ok(v.deep_view()),
        Err(e) => Err(e),
    }
}

proof fn lemma_with_prefix_empty(w: Result<Seq<RepositoryV>, ListingIncomplete>)
    ensures
        with_prefix(Seq::empty(), w) == w,
{
    match w {
        Ok(rest) => {
            assert(Seq::<RepositoryV>::empty() + rest =~= rest);
        },
        Err(_) => {},
    }
}

proof fn lemma_with_prefix_assoc(
    a: Seq<RepositoryV>,
    b: Seq<RepositoryV>,
    w: Result<Seq<RepositoryV>, ListingIncomplete>,
)
    ensures
        with_prefix(a, with_prefix(b, w)) == with_prefix(a + b, w),
{
    match w {
        Ok(rest) => {
            assert(a + (b + rest) =~= (a + b) + rest);
        },
        Err(_) => {},
    }
}

/// Accumulates the pages of the repository listing, in listing order. One
/// value walks one listing: pages are absorbed as they arrive, and the
/// listing is finished when a page arrives without a next cursor.
pub struct Pager {
    pub repos: Vec<Repository>,
    pub finished: bool,
}

impl Pager {
    /// A pager that has seen no page yet.
    pub fn new() -> (p: Pager)
        ensures
            p.repos.deep_view() == Seq::<RepositoryV>::empty(),
            !p.finished,
    {
        let p = Pager { repos: Vec::new(), finished: false };
        proof {
            assert(p.repos.deep_view() =~= Seq::<RepositoryV>::empty());
        }
        p
    }

    /// Appends one page's items to the accumulated listing; the listing is
    /// finished exactly when the page carried no next cursor.
    pub fn absorb(&mut self, items: Vec<Repository>, has_next: bool)
        requires
            !old(self).finished,
        ensures
            final(self).repos.deep_view() == old(self).repos.deep_view() + items.deep_view(),
            final(self).finished == !has_next,
    {
        let ghost old_view = self.repos.deep_view();
        let ghost items_view = items.deep_view();
        let mut items = items;
        self.repos.append(&mut items);
        self.finished = !has_next;
        proof {
            assert(self.repos.deep_view() =~= old_view + items_view);
        }
    }

    /// The complete listing, once draining finished.
    pub fn into_repos(self) -> (r: Vec<Repository>)
        requires
            self.finished,
        ensures
            r == self.repos,
    {
        self.repos
    }
}

/// A paged listing as one run observes it: the response each cursor
/// produces, the run starting at cursor `0`.
#[derive(Debug, PartialEq)]
pub struct Listing {
    pub pages: Vec<PageResponse>,
}

/// Drains a listing completely: follows cursors from the first page,
/// accumulating every page's items in order, and fails with the distinct
/// listing error if any page cannot be fetched whole or the chain does not
/// end. The result is exactly the [`walk`] of the listing.
pub fn drain_listing(l: &Listing) -> (r: Result<Vec<Repository>, ListingIncomplete>)
    ensures
        drained(r) == walk(l.pages@, 0, l.pages@.len() as nat),
{
    let n: usize = l.pages.len();
    let mut pager = Pager::new();
    let mut cursor: usize = 0;
    let mut fuel: usize = n;
    proof {
        lemma_with_prefix_empty(walk(l.pages@, 0, n as nat));
    }
    loop
        invariant
            n == l.pages@.len(),
            !pager.finished,
            walk(l.pages@, 0, n as nat) == with_prefix(
                pager.repos.deep_view(),
                walk(l.pages@, cursor as int, fuel as nat),
            ),
        decreases fuel,
    {
        if fuel == 0 {
            return Err(ListingIncomplete);
        }
        if cursor >= n {
            return Err(ListingIncomplete);
        }
        match &l.pages[cursor] {
            PageResponse::Malformed => {
                return Err(ListingIncomplete);
            },
            PageResponse::Page(pg) => {
                let items = clone_repositories(&pg.items);
                let ghost acc0 = pager.repos.deep_view();
                match pg.next {
                    None => {
                        pager.absorb(items, false);
                        proof {
                            assert(walk(l.pages@, cursor as int, fuel as nat) == Ok::<
                                Seq<RepositoryV>,
                                ListingIncomplete,
                            >(pg.items.deep_view()));
                        }
                        return Ok(pager.into_repos());
                    },
                    Some(nx) => {
                        pager.absorb(items, true);
                        proof {
                            assert(walk(l.pages@, cursor as int, fuel as nat) == with_prefix(
                                pg.items.deep_view(),
                                walk(l.pages@, nx as int, (fuel - 1) as nat),
                            ));
                            lemma_with_prefix_assoc(
                                acc0,
                                pg.items.deep_view(),
                                walk(l.pages@, nx as int, (fuel - 1) as nat),
                            );
                        }
                        cursor = nx;
                        fuel = fuel - 1;
                    },
                }
            },
        }
    }
}

/// A well-formed listing drains completely: the walk succeeds and returns
/// every page's items in listing order. In particular the drain terminates
/// as soon as a page arrives without a next cursor.
pub proof fn lemma_complete_listing_drained(pages: Seq<PageResponse>)
    requires
        listing_wf(pages),
        pages.len() <= usize::MAX,
    ensures
        walk(pages, 0, pages.len() as nat) == Ok::<Seq<RepositoryV>, ListingIncomplete>(
            listing_items(pages),
        ),
{
    lemma_wf_walk(pages, 0);
}

/// In a well-formed listing, walking from position `i` with the remaining
/// fuel yields exactly the items from `i` on.
proof fn lemma_wf_walk(pages: Seq<PageResponse>, i: int)
    requires
        listing_wf(pages),
        pages.len() <= usize::MAX,
        0 <= i < pages.len(),
    ensures
        forall|fuel: nat|
            fuel >= pages.len() - i ==> #[trigger] walk(pages, i, fuel) == Ok::<
                Seq<RepositoryV>,
                ListingIncomplete,
            >(tail_items(pages, i)),
    decreases pages.len() - i,
{
    assert forall|fuel: nat| fuel >= pages.len() - i implies #[trigger] walk(pages, i, fuel) == Ok::<
        Seq<RepositoryV>,
        ListingIncomplete,
    >(tail_items(pages, i)) by {
        assert(chained_page_at(pages, i));
        match pages[i] {
            PageResponse::Page(pg) => {
                if i + 1 < pages.len() {
                    assert(pg.next == Some((i + 1) as usize));
                    lemma_wf_walk(pages, i + 1);
                    let f1 = (fuel - 1) as nat;
                    assert(f1 >= pages.len() - (i + 1));
                    assert(walk(pages, i + 1, f1) == Ok::<Seq<RepositoryV>, ListingIncomplete>(
                        tail_items(pages, i + 1),
                    ));
                    assert(walk(pages, i, fuel) == Ok::<Seq<RepositoryV>, ListingIncomplete>(
                        pg.items.deep_view() + tail_items(pages, i + 1),
                    ));
                    assert(tail_items(pages, i) == response_items(pages[i]) + tail_items(
                        pages,
                        i + 1,
                    ));
                } else {
                    assert(pg.next is None);
                    assert(walk(pages, i, fuel) == Ok::<Seq<RepositoryV>, ListingIncomplete>(
                        pg.items.deep_view(),
                    ));
                    assert(tail_items(pages, i + 1) == Seq::<RepositoryV>::empty());
                    assert(pg.items.deep_view() + Seq::<RepositoryV>::empty()
                        =~= pg.items.deep_view());
                }
            },
            PageResponse::Malformed => {
                assert(false);
            },
        }
    }
}

/// A listing whose chain reaches a response that cannot be understood
/// aborts the drain with the distinct listing error, whatever came before.
pub proof fn lemma_malformed_listing_fails(pages: Seq<PageResponse>, k: int)
    requires
        listing_malformed_at(pages, k),
        pages.len() <= usize::MAX,
    ensures
        walk(pages, 0, pages.len() as nat) == Err::<Seq<RepositoryV>, ListingIncomplete>(
            ListingIncomplete,
        ),
{
    lemma_malformed_walk(pages, 0, k, pages.len() as nat);
}

proof fn lemma_malformed_walk(pages: Seq<PageResponse>, i: int, k: int, fuel: nat)
    requires
        listing_malformed_at(pages, k),
        pages.len() <= usize::MAX,
        0 <= i <= k,
        fuel >= k - i + 1,
    ensures
        walk(pages, i, fuel) == Err::<Seq<RepositoryV>, ListingIncomplete>(ListingIncomplete),
    decreases k - i,
{
    if i == k {
        assert(pages[i] matches PageResponse::Malformed);
        assert(walk(pages, i, fuel) == Err::<Seq<RepositoryV>, ListingIncomplete>(
            ListingIncomplete,
        ));
    } else {
        assert(linked_page_at(pages, i));
        match pages[i] {
            PageResponse::Page(pg) => {
                assert(pg.next == Some((i + 1) as usize));
                lemma_malformed_walk(pages, i + 1, k, (fuel - 1) as nat);
                assert(walk(pages, i + 1, (fuel - 1) as nat) == Err::<
                    Seq<RepositoryV>,
                    ListingIncomplete,
                >(ListingIncomplete));
                assert(walk(pages, i, fuel) == Err::<Seq<RepositoryV>, ListingIncomplete>(
                    ListingIncomplete,
                ));
            },
            PageResponse::Malformed => {
                assert(false);
            },
        }
    }
}


/// Splits a repository sequence into pages of `p` items each, the last page
/// holding the remainder; an empty sequence still yields one (empty) page,
/// as the platform answers for an organization without repositories.
pub open spec fn chunks(s: Seq<RepositoryV>, p: int) -> Seq<Seq<RepositoryV>>
    decreases s.len() when p >= 1
{
    if s.len() <= p {
        seq![s]
    } else {
        seq![s.take(p)] + chunks(s.skip(p), p)
    }
}

/// The item sequences of a listing's responses, page by page.
pub open spec fn page_items_seq(pages: Seq<PageResponse>) -> Seq<Seq<RepositoryV>> {
    Seq::new(pages.len(), |j: int| response_items(pages[j]))
}

/// Chunking loses nothing: the pages of `chunks(s, p)`, concatenated in
/// order, are exactly `s` again, whatever page size `p >= 1` was chosen.
pub proof fn lemma_chunks_flatten(s: Seq<RepositoryV>, p: int)
    requires
        p >= 1,
    ensures
        chunks(s, p).flatten() == s,
    decreases s.len(),
{
    if s.len() <= p {
        let cs = chunks(s, p);
        assert(cs == seq![s]);
        assert(cs.len() == 1);
        assert(cs.first() == s);
        assert(cs.drop_first() =~= Seq::<Seq<RepositoryV>>::empty());
        assert(Seq::<Seq<RepositoryV>>::empty().flatten() == Seq::<RepositoryV>::empty());
        assert(cs.flatten() == s + Seq::<RepositoryV>::empty());
        assert(s + Seq::<RepositoryV>::empty() =~= s);
    } else {
        lemma_chunks_flatten(s.skip(p), p);
        let cs = chunks(s, p);
        assert(cs == seq![s.take(p)] + chunks(s.skip(p), p));
        assert(cs.len() >= 1);
        assert(cs.first() == s.take(p));
        assert(cs.drop_first() =~= chunks(s.skip(p), p));
        assert(cs.flatten() == s.take(p) + chunks(s.skip(p), p).flatten());
        assert(s.take(p) + s.skip(p) =~= s);
    }
}

/// A listing whose pages hold the item sequences `ss` holds, from position
/// `i` on, exactly the flattening of `ss` from `i` on.
proof fn lemma_tail_items_pagewise(pages: Seq<PageResponse>, ss: Seq<Seq<RepositoryV>>, i: int)
    requires
        pages.len() == ss.len(),
        forall|j: int| 0 <= j < pages.len() ==> response_items(pages[j]) == ss[j],
        0 <= i <= pages.len(),
    ensures
        tail_items(pages, i) == ss.skip(i).flatten(),
    decreases pages.len() - i,
{
    if i == pages.len() {
        assert(ss.skip(i) =~= Seq::<Seq<RepositoryV>>::empty());
        assert(Seq::<Seq<RepositoryV>>::empty().flatten() == Seq::<RepositoryV>::empty());
        assert(tail_items(pages, i) == Seq::<RepositoryV>::empty());
    } else {
        lemma_tail_items_pagewise(pages, ss, i + 1);
        let t = ss.skip(i);
        assert(t.len() >= 1);
        assert(t.first() == ss[i]);
        assert(t.drop_first() =~= ss.skip(i + 1));
        assert(t.flatten() == ss[i] + ss.skip(i + 1).flatten());
        assert(tail_items(pages, i) == response_items(pages[i]) + tail_items(pages, i + 1));
    }
}

/// The page size is immaterial: draining a well-formed listing whose pages
/// chunk the repository sequence `s` with any page size `p >= 1` yields
/// exactly `s` — every repository exactly once, in listing order.
pub proof fn lemma_page_size_immaterial(pages: Seq<PageResponse>, s: Seq<RepositoryV>, p: int)
    requires
        p >= 1,
        listing_wf(pages),
        pages.len() <= usize::MAX,
        page_items_seq(pages) == chunks(s, p),
    ensures
        walk(pages, 0, pages.len() as nat) == Ok::<Seq<RepositoryV>, ListingIncomplete>(s),
{
    lemma_complete_listing_drained(pages);
    let ss = chunks(s, p);
    assert(pages.len() == ss.len()) by {
        assert(page_items_seq(pages).len() == pages.len());
    }
    assert forall|j: int| 0 <= j < pages.len() implies response_items(pages[j]) == ss[j] by {
        assert(page_items_seq(pages)[j] == response_items(pages[j]));
    }
    lemma_tail_items_pagewise(pages, ss, 0);
    assert(ss.skip(0) =~= ss);
    lemma_chunks_flatten(s, p);
}

/// Builds the well-formed synthetic listing that serves `repos` in pages of
/// `page_size` items: what the platform would return for this repository
/// set, split at this page size.
pub fn paginate(repos: Vec<Repository>, page_size: usize) -> (l: Listing)
    requires
        page_size >= 1,
    ensures
        listing_wf(l.pages@),
        page_items_seq(l.pages@) == chunks(repos.deep_view(), page_size as int),
{
    let ghost s = repos.deep_view();
    let ghost p_int = page_size as int;
    let ghost cs = chunks(s, p_int);
    let total: usize = repos.len();
    let ghost n0 = total as int;
    let mut pages: Vec<PageResponse> = Vec::new();
    let mut rest = repos;
    proof {
        assert(page_items_seq(pages@) =~= Seq::<Seq<RepositoryV>>::empty());
        assert(Seq::<Seq<RepositoryV>>::empty() + chunks(rest.deep_view(), p_int) =~= chunks(
            rest.deep_view(),
            p_int,
        ));
    }
    while rest.len() > page_size
        invariant
            page_size >= 1,
            p_int == page_size as int,
            n0 == total as int,
            cs == chunks(s, p_int),
            cs == page_items_seq(pages@) + chunks(rest.deep_view(), p_int),
            pages@.len() + rest@.len() <= n0,
            forall|j: int| 0 <= j < pages@.len() ==> #[trigger] linked_page_at(pages@, j),
        decreases rest.len(),
    {
        let ghost rest0 = rest.deep_view();
        let ghost pages0 = pages@;
        let tail = rest.split_off(page_size);
        proof {
            assert(rest.deep_view() =~= rest0.take(p_int));
            assert(tail.deep_view() =~= rest0.skip(p_int));
        }
        let np = pages.len();
        proof {
            assert(rest0.len() > page_size);
            assert(pages0.len() + rest0.len() <= n0);
            assert(np == pages0.len());
            assert(np < total);
        }
        let nx = np + 1;
        pages.push(PageResponse::Page(Page { items: rest, next: Some(nx) }));
        rest = tail;
        proof {
            assert(chunks(rest0, p_int) == seq![rest0.take(p_int)] + chunks(
                rest0.skip(p_int),
                p_int,
            ));
            assert(page_items_seq(pages@) =~= page_items_seq(pages0) + seq![rest0.take(p_int)]);
            assert((page_items_seq(pages0) + seq![rest0.take(p_int)]) + chunks(
                rest0.skip(p_int),
                p_int,
            ) =~= page_items_seq(pages0) + (seq![rest0.take(p_int)] + chunks(
                rest0.skip(p_int),
                p_int,
            )));
            assert forall|j: int| 0 <= j < pages@.len() implies #[trigger] linked_page_at(
                pages@,
                j,
            ) by {
                if j < pages0.len() {
                    assert(linked_page_at(pages0, j));
                    assert(pages@[j] == pages0[j]);
                }
            }
        }
    }
    let ghost rest1 = rest.deep_view();
    let ghost pages1 = pages@;
    pages.push(PageResponse::Page(Page { items: rest, next: None }));
    proof {
        assert(chunks(rest1, p_int) == seq![rest1]);
        assert(page_items_seq(pages@) =~= page_items_seq(pages1) + seq![rest1]);
        let n = pages@.len() as int;
        assert forall|i: int| 0 <= i < n implies #[trigger] chained_page_at(pages@, i) by {
            if i < n - 1 {
                assert(linked_page_at(pages1, i));
                assert(pages@[i] == pages1[i]);
            } else {
                assert(pages@[i] matches PageResponse::Page(pg) && pg.next == None::<usize>);
            }
        }
    }
    Listing { pages }
}

} // verus!
