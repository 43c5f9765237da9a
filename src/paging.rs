//! Paging through a listing of the service.
//!
//! A listing is fetched page by page: the first request asks for
//! `PAGE_LIMIT` items at offset 0, each page's items are appended to what
//! was gathered, and the next request starts where the page ends, with the
//! page's own limit, until as many items were gathered as the page reports
//! in total. The fetching itself is left to the caller, which hands each
//! page to `Paging::receive` and follows the request it returns.

use vstd::prelude::*;

verus! {

/// The number of items asked for by the first request of a listing.
pub const PAGE_LIMIT: usize = 50;

/// A request for at most `limit` items of a listing, from position `offset`.
#[derive(Clone, Copy, Debug, PartialEq, Eq, Structural)]
pub struct PageRequest {
    pub limit: usize,
    pub offset: usize,
}

/// A page of a listing: its items, the limit and offset it was served
/// with, and the size of the whole listing.
pub struct Page<T> {
    pub items: Vec<T>,
    pub limit: usize,
    pub offset: usize,
    pub total: usize,
}

/// What follows a page served with `limit` and `offset` of a listing of
/// `total` items, once `have` items are gathered: a request of `limit`
/// items after the page while fewer than `total` items are gathered,
/// as a pair (limit, offset); else none.
pub open spec fn next_request(have: nat, total: nat, limit: nat, offset: nat) -> Option<(nat, nat)> {
    if total > have {
        Some((limit, offset + limit))
    } else {
        None
    }
}

/// The state of a paged fetch: the items gathered so far and the request
/// to make next.
pub struct Paging<T> {
    results: Vec<T>,
    request: PageRequest,
}

impl<T> Paging<T> {
    /// The items gathered so far, in the order received.
    pub closed spec fn collected(&self) -> Seq<T> {
        self.results@
    }

    /// The request to make next.
    pub closed spec fn pending(&self) -> PageRequest {
        self.request
    }

    /// A fetch that has gathered nothing and asks first for `PAGE_LIMIT`
    /// items at offset 0.
    pub fn new() -> (r: Paging<T>)
        ensures
            r.collected() == Seq::<T>::empty(),
            r.pending() == (PageRequest { limit: PAGE_LIMIT, offset: 0 }),
    {
        Paging { results: Vec::new(), request: PageRequest { limit: PAGE_LIMIT, offset: 0 } }
    }

    /// The request to make next.
    pub fn request(&self) -> (r: PageRequest)
        ensures
            r == self.pending(),
    {
        self.request
    }

    /// The number of items gathered so far.
    pub fn gathered(&self) -> (r: usize)
        ensures
            r == self.collected().len(),
    {
        self.results.len()
    }

    /// Takes in a page: appends its items to those gathered, and returns the
    /// request to make next, or `None` where the listing is complete.
    pub fn receive(&mut self, page: Page<T>) -> (step: Option<PageRequest>)
        requires
            page.total > old(self).collected().len() + page.items@.len() ==> page.offset
                + page.limit <= usize::MAX,
        ensures
            final(self).collected() == old(self).collected() + page.items@,
            step is Some <==> next_request(
                final(self).collected().len(),
                page.total as nat,
                page.limit as nat,
                page.offset as nat,
            ) is Some,
            step matches Some(q) ==> {
                &&& next_request(
                    final(self).collected().len(),
                    page.total as nat,
                    page.limit as nat,
                    page.offset as nat,
                ) == Some((q.limit as nat, q.offset as nat))
                &&& final(self).pending() == q
            },
            step is None ==> final(self).pending() == old(self).pending(),
    {
        let mut items = page.items;
        self.results.append(&mut items);
        if page.total > self.results.len() {
            let next = PageRequest { limit: page.limit, offset: page.offset + page.limit };
            self.request = next;
            Some(next)
        } else {
            None
        }
    }

    /// The items gathered, in the order received.
    pub fn into_results(self) -> (r: Vec<T>)
        ensures
            r@ == self.collected(),
    {
        self.results
    }
}

/// The number of items that a listing of `total` items serves for a request
/// of `limit` items at `offset`: those that lie between `offset` and the end,
/// at most `limit`.
pub open spec fn served(total: nat, limit: nat, offset: nat) -> nat {
    if offset >= total {
        0
    } else if total - offset < limit {
        (total - offset) as nat
    } else {
        limit
    }
}

/// The number of items gathered when paging ends against a listing of
/// `total` items that serves every request as asked, starting with `have`
/// items gathered and a request of `limit` items at `offset`.
pub open spec fn gathered_at_end(total: nat, limit: nat, offset: nat, have: nat) -> nat
    decreases total - offset,
{
    let got = have + served(total, limit, offset);
    match next_request(got, total, limit, offset) {
        Some((l, o)) => if 0 < l && o < total {
            gathered_at_end(total, l, o, got)
        } else {
            got
        },
        None => got,
    }
}

proof fn lemma_gathered_from(total: nat, limit: nat, offset: nat)
    requires
        limit > 0,
        offset <= total,
    ensures
        gathered_at_end(total, limit, offset, offset) == total,
    decreases total - offset,
{
    if offset < total && offset + limit < total {
        lemma_gathered_from(total, limit, offset + limit);
    }
}

/// Paging ends, against a listing of `total` items that serves every request
/// with the limit and offset asked for and the items between them, holding
/// exactly `total` items, whatever positive limit it starts with.
pub proof fn paging_gathers_total(total: nat, limit: nat)
    requires
        limit > 0,
    ensures
        gathered_at_end(total, limit, 0, 0) == total,
{
    lemma_gathered_from(total, limit, 0);
}

} // verus!
