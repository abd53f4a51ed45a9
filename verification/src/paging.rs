//! Fetching a whole collection page by page.
//!
//! A [`PageCollector`] decides which page to ask for next and what to keep
//! of each page that comes back. The caller performs the requests, one at a
//! time and in order. A page of two or more items is kept whole and the
//! next page is asked for; a page of one item or none ends the fetch, and
//! its one item is kept unless an item with the same identifier is already
//! there. That last rule is the controller's end-of-collection signal and
//! is taken at its word, also where a page in the middle of a collection
//! happens to hold a single item.

use vstd::prelude::*;
use vstd::arithmetic::div_mod::lemma_div_plus_one;
use vstd::arithmetic::div_mod::lemma_basic_div;
use crate::dnac::DNAC;
use crate::dnac::DNACValue;
use crate::pagination::Page;
use crate::pagination::Pagination;
use crate::pagination::DEFAULT_LIMIT;
use crate::transport::Reply;
use crate::transport::ReplyValue;
use crate::transport::Request;
use crate::transport::RequestValue;

verus! {

/// An item of a collection, found again by its identifier.
pub trait Identified {
    spec fn ident(&self) -> u128;

    fn id(&self) -> (r: u128)
        ensures
            r == self.ident(),
    ;
}

/// Model of a fetch in progress.
pub struct CollectorState<T> {
    /// One-based offset of the next page.
    pub offset: nat,
    /// Size of each page.
    pub limit: nat,
    /// What has been kept so far, in the order of arrival.
    pub items: Seq<T>,
    /// Whether the last page has been seen.
    pub finished: bool,
}

/// No two items of `items` share an identifier.
pub open spec fn distinct_ids<T: Identified>(items: Seq<T>) -> bool {
    forall|i: int, j: int| 0 <= i < j < items.len() ==> items[i].ident() != items[j].ident()
}

/// Whether an item with identifier `id` is among `items`.
pub open spec fn has_id<T: Identified>(items: Seq<T>, id: u128) -> bool {
    exists|i: int| 0 <= i < items.len() && (#[trigger] items[i]).ident() == id
}

/// The page of `collection` that a stable backend returns for `offset`
/// (counted from one) and `limit`.
pub open spec fn window<T>(collection: Seq<T>, offset: nat, limit: nat) -> Seq<T> {
    if offset == 0 || offset > collection.len() {
        Seq::empty()
    } else if offset - 1 + limit >= collection.len() {
        collection.subrange(offset - 1, collection.len() as int)
    } else {
        collection.subrange(offset - 1, offset - 1 + limit)
    }
}

/// The number of pages of size `limit` that hold `n` items.
pub open spec fn page_count(n: nat, limit: nat) -> nat {
    ((n + limit - 1) / (limit as int)) as nat
}

impl<T: Identified> CollectorState<T> {
    /// The state a fetch with pages of `limit` items starts in.
    pub open spec fn start(limit: nat) -> Self {
        CollectorState { offset: 1, limit, items: Seq::empty(), finished: false }
    }

    /// The state after `page` has come back for the page last asked for.
    pub open spec fn accept(self, page: Seq<T>) -> Self {
        if self.finished {
            self
        } else if page.len() <= 1 {
            CollectorState {
                offset: self.offset,
                limit: self.limit,
                items: if page.len() == 1 && !has_id(self.items, page[0].ident()) {
                    self.items.push(page[0])
                } else {
                    self.items
                },
                finished: true,
            }
        } else if self.offset + self.limit > u64::MAX {
            CollectorState {
                offset: self.offset,
                limit: self.limit,
                items: self.items + page,
                finished: true,
            }
        } else {
            CollectorState {
                offset: self.offset + self.limit,
                limit: self.limit,
                items: self.items + page,
                finished: false,
            }
        }
    }

    /// A bound on the pages still to come from a collection of `n` items.
    pub open spec fn budget(self, n: nat) -> nat {
        if self.finished {
            0
        } else if self.offset > n + 1 {
            1
        } else {
            (n + 2 - self.offset) as nat
        }
    }

    /// The fetch run to its end against a backend that holds `collection`
    /// and does not change: the final state, and the number of pages asked
    /// for on the way.
    pub open spec fn run(self, collection: Seq<T>) -> (Self, nat)
        decreases self.budget(collection.len()),
    {
        if self.finished || self.limit == 0 {
            (self, 0)
        } else {
            let next = self.accept(window(collection, self.offset, self.limit));
            let rest = next.run(collection);
            (rest.0, rest.1 + 1)
        }
    }
}

/// A whole fetch. Against a backend that holds `collection`, whose items
/// have distinct identifiers, and that does not change meanwhile, a fetch
/// with pages of `limit >= 2` items ends, returns exactly the collection,
/// in order, and asks for at most one page more than the collection fills.
/// (With pages of one item every page looks like the last, and the fetch
/// ends after the first.)
pub proof fn lemma_fetch_complete<T: Identified>(collection: Seq<T>, limit: nat)
    requires
        limit >= 2,
        distinct_ids(collection),
        collection.len() + limit <= u64::MAX,
    ensures
        CollectorState::<T>::start(limit).run(collection).0.finished,
        CollectorState::<T>::start(limit).run(collection).0.items == collection,
        distinct_ids(CollectorState::<T>::start(limit).run(collection).0.items),
        CollectorState::<T>::start(limit).run(collection).1 <= page_count(collection.len(), limit)
            + 1,
{
    let s = CollectorState::<T>::start(limit);
    assert(s.items =~= collection.take(0));
    lemma_run(s, collection);
}

/// A fetch that has kept the first `offset - 1` items of the collection
/// ends with the whole of it.
proof fn lemma_run<T: Identified>(s: CollectorState<T>, collection: Seq<T>)
    requires
        !s.finished,
        s.limit >= 2,
        s.offset >= 1,
        distinct_ids(collection),
        collection.len() + s.limit <= u64::MAX,
        s.offset <= collection.len() + s.limit,
        s.items == collection.take(
            if s.offset - 1 <= collection.len() {
                s.offset - 1
            } else {
                collection.len() as int
            },
        ),
    ensures
        s.run(collection).0.finished,
        s.run(collection).0.items == collection,
        s.run(collection).1 <= page_count(
            if s.offset - 1 <= collection.len() {
                (collection.len() - (s.offset - 1)) as nat
            } else {
                0
            },
            s.limit,
        ) + 1,
    decreases s.budget(collection.len()),
{
    let n = collection.len() as int;
    let l = s.limit as int;
    let kept = s.offset - 1;
    let page = window(collection, s.offset, s.limit);
    let next = s.accept(page);
    if kept >= n {
        assert(page.len() == 0);
        assert(next.finished);
        assert(next.run(collection) == (next, 0nat));
        assert(collection.take(n) =~= collection);
    } else if n - kept == 1 {
        assert(page.len() == 1);
        assert(page[0] == collection[kept]);
        assert(!has_id(s.items, page[0].ident())) by {
            if has_id(s.items, page[0].ident()) {
                let i = choose|i: int|
                    0 <= i < s.items.len() && (#[trigger] s.items[i]).ident() == page[0].ident();
                assert(s.items[i] == collection[i]);
                assert(collection[i].ident() != collection[kept].ident());
            }
        }
        assert(next.items =~= collection);
        assert(next.finished);
        assert(next.run(collection) == (next, 0nat));
    } else if n - kept < l {
        let r = n - kept;
        assert(page.len() == r);
        assert(next.items =~= collection.take(n));
        assert(collection.take(n) =~= collection);
        assert(!next.finished);
        assert(next.offset == s.offset + l);
        lemma_run(next, collection);
        assert(page_count(0, s.limit) == 0) by {
            lemma_basic_div(l - 1, l);
        }
        assert(page_count(r as nat, s.limit) == 1) by {
            lemma_div_plus_one(r - 1, l);
            lemma_basic_div(r - 1, l);
        }
    } else {
        let r = n - kept;
        assert(page.len() == l);
        assert(next.items =~= collection.take(kept + l));
        assert(!next.finished);
        lemma_run(next, collection);
        assert(page_count((r - l) as nat, s.limit) + 1 == page_count(r as nat, s.limit)) by {
            lemma_div_plus_one(r - 1, l);
        }
    }
}

/// The tail rule keeps a collection free of repeats. Where the last page
/// holds one item or none, the fetch ends; an item whose identifier is
/// already there is dropped, so that the result holds as many items as
/// before, and any other is kept, with no identifier occurring twice.
pub proof fn lemma_tail<T: Identified>(s: CollectorState<T>, page: Seq<T>)
    requires
        !s.finished,
        page.len() <= 1,
        distinct_ids(s.items),
    ensures
        s.accept(page).finished,
        distinct_ids(s.accept(page).items),
        page.len() == 1 && has_id(s.items, page[0].ident()) ==> s.accept(page).items == s.items,
        page.len() == 1 && !has_id(s.items, page[0].ident()) ==> s.accept(page).items
            == s.items.push(page[0]),
        page.len() == 0 ==> s.accept(page).items == s.items,
{
    if page.len() == 1 && !has_id(s.items, page[0].ident()) {
        let after = s.items.push(page[0]);
        assert forall|i: int, j: int| 0 <= i < j < after.len() implies after[i].ident()
            != after[j].ident() by {
            if j == s.items.len() {
                assert(s.items[i].ident() != page[0].ident());
            }
        }
    }
}

/// A fetch in progress: the pages kept so far and the place of the next.
#[derive(Debug)]
pub struct PageCollector<T> {
    next: Pagination,
    items: Vec<T>,
    finished: bool,
}

impl<T> View for PageCollector<T> {
    type V = CollectorState<T>;

    closed spec fn view(&self) -> CollectorState<T> {
        CollectorState {
            offset: self.next@.offset as nat,
            limit: self.next@.limit as nat,
            items: self.items@,
            finished: self.finished,
        }
    }
}

impl<T: Identified> PageCollector<T> {
    /// A fetch from the first item on, in pages of 500.
    pub fn new() -> (c: Self)
        ensures
            c@ == CollectorState::<T>::start(DEFAULT_LIMIT as nat),
    {
        PageCollector { next: Pagination::default(), items: Vec::new(), finished: false }
    }

    /// A fetch from the first item on, in pages of `limit`.
    pub fn with_page_size(limit: u64) -> (c: Self)
        requires
            limit >= 1,
        ensures
            c@ == CollectorState::<T>::start(limit as nat),
    {
        PageCollector {
            next: Pagination::builder().with_limit(limit).build(),
            items: Vec::new(),
            finished: false,
        }
    }

    /// The page to ask for next, or `None` once the fetch has ended.
    pub fn next_page(&self) -> (p: Option<Pagination>)
        ensures
            self@.finished <==> p is None,
            p matches Some(page) ==> page@.offset == self@.offset && page@.limit == self@.limit,
    {
        if self.finished {
            None
        } else {
            Some(self.next)
        }
    }

    /// Whether the last page has been seen.
    pub fn finished(&self) -> (r: bool)
        ensures
            r == self@.finished,
    {
        self.finished
    }

    /// What has been kept so far.
    pub fn items(&self) -> (r: &Vec<T>)
        ensures
            r@ == self@.items,
    {
        &self.items
    }

    /// Ends the fetch and hands out what was kept.
    pub fn into_items(self) -> (r: Vec<T>)
        ensures
            r@ == self@.items,
    {
        self.items
    }

    /// Whether an item with identifier `id` has been kept.
    pub fn holds(&self, id: u128) -> (r: bool)
        ensures
            r == has_id(self@.items, id),
    {
        let mut i: usize = 0;
        while i < self.items.len()
            invariant
                i <= self.items.len(),
                forall|k: int| 0 <= k < i ==> (#[trigger] self.items@[k]).ident() != id,
            decreases self.items.len() - i,
        {
            if self.items[i].id() == id {
                return true;
            }
            i += 1;
        }
        false
    }

    /// Takes the page that came back for [`Self::next_page`] and says
    /// whether another page is wanted. A page handed to a fetch that has
    /// ended is dropped.
    pub fn accept(&mut self, page: Vec<T>) -> (more: bool)
        ensures
            final(self)@ == old(self)@.accept(page@),
            more == !final(self)@.finished,
    {
        let mut page = page;
        if self.finished {
            return false;
        }
        if page.len() <= 1 {
            if page.len() == 1 {
                let known = self.holds(page[0].id());
                if !known {
                    let ghost only = page@[0];
                    self.items.append(&mut page);
                    assert(self.items@ =~= old(self).items@.push(only));
                }
            }
            self.finished = true;
            return false;
        }
        self.items.append(&mut page);
        match self.next.offset().checked_add(self.next.limit()) {
            Some(offset) => {
                self.next.set_offset(offset);
                true
            },
            None => {
                self.finished = true;
                false
            },
        }
    }
}

/// The value behind an optional reference.
pub open spec fn owned<F>(filter: Option<&F>) -> Option<F> {
    match filter {
        Some(f) => Some(*f),
        None => None,
    }
}

/// A resource that the controller lists page by page. `fetch_list`
/// describes the request for one page and `read_list` reads the reply to
/// it; the two spec functions say what they compute.
pub trait FetchableType: Sized + Identified + DeepView {
    type Filter;

    type Error;

    spec fn list_request(
        dnac: DNACValue,
        filter: Option<Self::Filter>,
        pagination: Option<Page>,
    ) -> RequestValue;

    spec fn listed(reply: ReplyValue) -> Result<Seq<<Self as DeepView>::V>, Self::Error>;

    fn fetch_list(
        dnac: &DNAC,
        filter: Option<&Self::Filter>,
        pagination: Option<Pagination>,
    ) -> (r: Request)
        ensures
            r.deep_view() == Self::list_request(
                dnac.deep_view(),
                owned(filter),
                crate::pagination::page_of(pagination),
            ),
    ;

    fn read_list(reply: &Reply) -> (r: Result<Vec<Self>, Self::Error>)
        ensures
            match r {
                Ok(items) => Self::listed(reply.deep_view()) == Ok::<
                    Seq<<Self as DeepView>::V>,
                    Self::Error,
                >(items.deep_view()),
                Err(e) => Self::listed(reply.deep_view()) == Err::<
                    Seq<<Self as DeepView>::V>,
                    Self::Error,
                >(e),
            },
    ;
}

/// The fetch of a whole collection of `T`, with one filter for all pages.
/// The caller asks for [`FetchAll::next_request`], performs it, reads the
/// reply with `T::read_list` and hands the page to [`FetchAll::accept`],
/// until no request is left; a reply that cannot be read ends the fetch
/// with that error.
pub struct FetchAll<T: FetchableType> {
    filter: Option<T::Filter>,
    collector: PageCollector<T>,
}

impl<T: FetchableType> FetchAll<T> {
    /// The filter that every page is asked with.
    pub closed spec fn spec_filter(&self) -> Option<T::Filter> {
        self.filter
    }

    /// The state of the fetch.
    pub closed spec fn state(&self) -> CollectorState<T> {
        self.collector@
    }

    /// A fetch from the first item on, in pages of 500.
    pub fn new(filter: Option<T::Filter>) -> (f: Self)
        ensures
            f.spec_filter() == filter,
            f.state() == CollectorState::<T>::start(DEFAULT_LIMIT as nat),
    {
        FetchAll { filter, collector: PageCollector::new() }
    }

    /// The request for the next page, or `None` once the fetch has ended.
    pub fn next_request(&self, dnac: &DNAC) -> (r: Option<Request>)
        ensures
            r.deep_view() == if self.state().finished {
                None
            } else {
                Some(
                    T::list_request(
                        dnac.deep_view(),
                        self.spec_filter(),
                        Some(
                            Page {
                                offset: self.state().offset as u64,
                                limit: self.state().limit as u64,
                            },
                        ),
                    ),
                )
            },
    {
        match self.collector.next_page() {
            Some(page) => Some(T::fetch_list(dnac, self.filter.as_ref(), Some(page))),
            None => None,
        }
    }

    /// Takes the page read from the reply to [`Self::next_request`] and
    /// says whether another page is wanted.
    pub fn accept(&mut self, page: Vec<T>) -> (more: bool)
        ensures
            final(self).state() == old(self).state().accept(page@),
            final(self).spec_filter() == old(self).spec_filter(),
            more == !final(self).state().finished,
    {
        self.collector.accept(page)
    }

    /// Whether the last page has been seen.
    pub fn finished(&self) -> (r: bool)
        ensures
            r == self.state().finished,
    {
        self.collector.finished()
    }

    /// Ends the fetch and hands out what was kept.
    pub fn into_items(self) -> (r: Vec<T>)
        ensures
            r@ == self.state().items,
    {
        self.collector.into_items()
    }
}

} // verus!
