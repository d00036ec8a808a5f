//! Iteration over every item of a paginated listing.
//!
//! `PaginatedStream` holds the decisions of the iteration: which item comes
//! next, when to fetch a page and with which cursor, and when the listing
//! is exhausted. Whoever drives it performs the fetches and hands back each
//! page (or the failure of a fetch).
use vstd::prelude::*;

use crate::types::{opt_text, PaginatedResponse};

verus! {

/// The abstract state of an iteration.
pub struct StreamModel<T> {
    /// Items of the last page not yielded yet, in order.
    pub items: Seq<T>,
    /// The cursor of the next page, if the server gave one and it was not
    /// used yet.
    pub token: Option<Seq<char>>,
    /// Whether the server said that more pages follow.
    pub has_more: bool,
    /// Whether no fetch has completed yet.
    pub first: bool,
}

/// A page as the iteration sees it.
pub struct PageModel<T> {
    pub items: Seq<T>,
    pub next_page_token: Option<Seq<char>>,
    pub has_more: bool,
}

/// What to do next when no fetch is under way.
#[derive(Debug)]
pub enum PollStep<T> {
    /// Yield this item.
    Item(T),
    /// The listing is exhausted.
    Done,
    /// Fetch the page with this cursor (`None`: the first page).
    Fetch(Option<String>),
}

/// What to do once a fetched page has arrived.
#[derive(Debug)]
pub enum PageStep<T> {
    /// Yield this item.
    Item(T),
    /// The page was empty but more follow: ask again.
    Again,
    /// The listing is exhausted.
    Done,
}

/// The view of a page.
pub open spec fn page_model<T>(p: PaginatedResponse<T>) -> PageModel<T> {
    PageModel { items: p.items@, next_page_token: opt_text(p.next_page_token), has_more: p.has_more }
}

/// Whether an iteration in state `s` is over.
pub open spec fn is_exhausted<T>(s: StreamModel<T>) -> bool {
    s.items.len() == 0 && !s.has_more && !s.first
}

/// The state after asking for the next step, when no fetch is under way.
pub open spec fn poll_state<T>(s: StreamModel<T>) -> StreamModel<T> {
    if s.items.len() > 0 {
        StreamModel { items: s.items.drop_first(), ..s }
    } else if is_exhausted(s) {
        s
    } else {
        StreamModel { token: None, ..s }
    }
}

/// The state once page `p` has arrived.
pub open spec fn page_state<T>(s: StreamModel<T>, p: PageModel<T>) -> StreamModel<T> {
    StreamModel {
        items: if p.items.len() > 0 { p.items.drop_first() } else { p.items },
        token: p.next_page_token,
        has_more: p.has_more,
        first: false,
    }
}

/// An iteration that has fetched nothing yet.
pub open spec fn fresh_model<T>() -> StreamModel<T> {
    StreamModel { items: Seq::empty(), token: None, has_more: true, first: true }
}

/// A step as the iteration sees it.
pub enum StepModel<T> {
    Item(T),
    Done,
    Fetch(Option<Seq<char>>),
    Again,
}

/// The step taken when no fetch is under way, in state `s`.
pub open spec fn poll_outcome<T>(s: StreamModel<T>) -> StepModel<T> {
    if s.items.len() > 0 {
        StepModel::Item(s.items[0])
    } else if is_exhausted(s) {
        StepModel::Done
    } else {
        StepModel::Fetch(s.token)
    }
}

/// The step taken once page `p` has arrived.
pub open spec fn page_outcome<T>(p: PageModel<T>) -> StepModel<T> {
    if p.items.len() > 0 {
        StepModel::Item(p.items[0])
    } else if p.has_more {
        StepModel::Again
    } else {
        StepModel::Done
    }
}

/// The view of a poll step.
pub open spec fn poll_step_model<T>(step: PollStep<T>) -> StepModel<T> {
    match step {
        PollStep::Item(x) => StepModel::Item(x),
        PollStep::Done => StepModel::Done,
        PollStep::Fetch(t) => StepModel::Fetch(opt_text(t)),
    }
}

/// The view of a page step.
pub open spec fn page_step_model<T>(step: PageStep<T>) -> StepModel<T> {
    match step {
        PageStep::Item(x) => StepModel::Item(x),
        PageStep::Again => StepModel::Again,
        PageStep::Done => StepModel::Done,
    }
}

/// The decisions of an iteration over a paginated listing.
pub struct PaginatedStream<T> {
    current_items: Vec<T>,
    next_page_token: Option<String>,
    has_more: bool,
    is_first_fetch: bool,
}

impl<T> PaginatedStream<T> {
    /// The abstract state of the iteration.
    pub closed spec fn model(&self) -> StreamModel<T> {
        StreamModel {
            items: self.current_items@,
            token: opt_text(self.next_page_token),
            has_more: self.has_more,
            first: self.is_first_fetch,
        }
    }

    /// An iteration that will start with the first page.
    pub fn new() -> (s: Self)
        ensures
            s.model() == fresh_model::<T>(),
    {
        let s = PaginatedStream {
            current_items: Vec::new(),
            next_page_token: None,
            has_more: true,
            is_first_fetch: true,
        };
        assert(s.model().items =~= Seq::<T>::empty());
        s
    }

    /// The next step when no fetch is under way: the next buffered item;
    /// else the end if the last page said no more follow; else a fetch
    /// with the cursor of the next page (which is used up).
    pub fn poll_step(&mut self) -> (step: PollStep<T>)
        ensures
            final(self).model() == poll_state(old(self).model()),
            poll_step_model(step) == poll_outcome(old(self).model()),
    {
        if self.current_items.len() > 0 {
            let item = self.current_items.remove(0);
            return PollStep::Item(item);
        }
        if !self.has_more && !self.is_first_fetch {
            return PollStep::Done;
        }
        let token = self.next_page_token.take();
        PollStep::Fetch(token)
    }

    /// Takes in a fetched page: its first item is yielded and the rest is
    /// buffered; an empty page asks to poll again if more pages follow, and
    /// ends the iteration otherwise.
    pub fn page_received(&mut self, page: PaginatedResponse<T>) -> (step: PageStep<T>)
        ensures
            final(self).model() == page_state(old(self).model(), page_model(page)),
            page_step_model(step) == page_outcome(page_model(page)),
    {
        let PaginatedResponse { items, next_page_token, has_more } = page;
        self.current_items = items;
        self.next_page_token = next_page_token;
        self.has_more = has_more;
        self.is_first_fetch = false;
        if self.current_items.len() > 0 {
            PageStep::Item(self.current_items.remove(0))
        } else if self.has_more {
            PageStep::Again
        } else {
            PageStep::Done
        }
    }

    /// Takes in the failure of a fetch; the error is the caller's to
    /// report. The cursor was used up by the fetch, so asking again starts
    /// over from the first page.
    pub fn fetch_failed(&mut self)
        ensures
            final(self).model() == (StreamModel { first: false, ..old(self).model() }),
    {
        self.is_first_fetch = false;
    }
}

/// What a driver of the iteration observes when it answers every fetch
/// with the next of `pages`, for at most `fuel` steps: the items yielded,
/// the cursors the fetches asked for, and whether the iteration ended.
pub open spec fn run<T>(s: StreamModel<T>, pages: Seq<PageModel<T>>, fuel: nat) -> (Seq<T>, Seq<Option<Seq<char>>>, bool)
    decreases fuel,
{
    if fuel == 0 {
        (Seq::empty(), Seq::empty(), false)
    } else {
        match poll_outcome(s) {
            StepModel::Item(x) => {
                let r = run(poll_state(s), pages, (fuel - 1) as nat);
                (seq![x] + r.0, r.1, r.2)
            },
            StepModel::Fetch(t) => {
                if pages.len() == 0 {
                    (Seq::empty(), seq![t], false)
                } else {
                    let next = page_state(poll_state(s), pages[0]);
                    match page_outcome(pages[0]) {
                        StepModel::Item(x) => {
                            let r = run(next, pages.drop_first(), (fuel - 1) as nat);
                            (seq![x] + r.0, seq![t] + r.1, r.2)
                        },
                        StepModel::Again => {
                            let r = run(next, pages.drop_first(), (fuel - 1) as nat);
                            (r.0, seq![t] + r.1, r.2)
                        },
                        _ => (Seq::empty(), seq![t], true),
                    }
                }
            },
            _ => (Seq::empty(), Seq::empty(), true),
        }
    }
}

/// The pages form a listing: while a page says more follow, there is a
/// next page.
pub open spec fn pages_chained<T>(has_more: bool, pages: Seq<PageModel<T>>) -> bool
    decreases pages.len(),
{
    has_more ==> pages.len() > 0 && pages_chained(pages[0].has_more, pages.drop_first())
}

/// The items of the listing's pages, in order, up to the page that says no
/// more follow.
pub open spec fn listing_items<T>(has_more: bool, pages: Seq<PageModel<T>>) -> Seq<T>
    decreases pages.len(),
{
    if has_more && pages.len() > 0 {
        pages[0].items + listing_items(pages[0].has_more, pages.drop_first())
    } else {
        Seq::empty()
    }
}

/// The cursors with which the listing's pages are fetched: `token` for the
/// first, then each page's `next_page_token` for the page after it.
pub open spec fn listing_cursors<T>(token: Option<Seq<char>>, has_more: bool, pages: Seq<PageModel<T>>) -> Seq<Option<Seq<char>>>
    decreases pages.len(),
{
    if has_more && pages.len() > 0 {
        seq![token] + listing_cursors(pages[0].next_page_token, pages[0].has_more, pages.drop_first())
    } else {
        Seq::empty()
    }
}

/// An upper bound on the steps needed to go through the listing.
pub open spec fn listing_steps<T>(has_more: bool, pages: Seq<PageModel<T>>) -> nat
    decreases pages.len(),
{
    if has_more && pages.len() > 0 {
        pages[0].items.len() + 1 + listing_steps(pages[0].has_more, pages.drop_first())
    } else {
        0
    }
}

/// From any state, a driver sees the buffered items, then every item of
/// the remaining pages in order; page after page is fetched with the cursor
/// that the page before it gave; and the iteration ends.
pub proof fn lemma_run_listing<T>(s: StreamModel<T>, pages: Seq<PageModel<T>>, fuel: nat)
    requires
        s.first ==> s.has_more,
        pages_chained(s.has_more, pages),
        fuel >= s.items.len() + listing_steps(s.has_more, pages) + 1,
    ensures
        run(s, pages, fuel) == (s.items + listing_items(s.has_more, pages), listing_cursors(
            s.token,
            s.has_more,
            pages,
        ), true),
    decreases fuel,
{
    if s.items.len() > 0 {
        lemma_run_listing(poll_state(s), pages, (fuel - 1) as nat);
        assert(seq![s.items[0]] + (s.items.drop_first() + listing_items(s.has_more, pages)) =~= s.items
            + listing_items(s.has_more, pages));
    } else if is_exhausted(s) {
        assert(s.items + listing_items(s.has_more, pages) =~= Seq::<T>::empty());
    } else {
        let p = pages[0];
        let rest = pages.drop_first();
        let next = page_state(poll_state(s), p);
        if p.items.len() > 0 {
            lemma_run_listing(next, rest, (fuel - 1) as nat);
            assert(seq![p.items[0]] + (p.items.drop_first() + listing_items(p.has_more, rest)) =~= s.items
                + listing_items(s.has_more, pages));
        } else if p.has_more {
            lemma_run_listing(next, rest, (fuel - 1) as nat);
            assert(p.items + listing_items(p.has_more, rest) =~= listing_items(p.has_more, rest));
            assert(next.items + listing_items(p.has_more, rest) =~= s.items + listing_items(
                s.has_more,
                pages,
            ));
        } else {
            assert(s.items + listing_items(s.has_more, pages) =~= Seq::<T>::empty());
            assert(listing_cursors(s.token, s.has_more, pages) =~= seq![s.token]);
        }
    }
}

/// A new iteration over a listing yields every item of every page in
/// order, fetches the first page without a cursor and each later page with
/// the `next_page_token` of the page before it, and then ends.
pub proof fn lemma_listing_iterated_in_order<T>(pages: Seq<PageModel<T>>, fuel: nat)
    requires
        pages_chained(true, pages),
        fuel >= listing_steps(true, pages) + 1,
    ensures
        run(fresh_model::<T>(), pages, fuel) == (listing_items(true, pages), listing_cursors(
            None,
            true,
            pages,
        ), true),
{
    lemma_run_listing(fresh_model::<T>(), pages, fuel);
    assert(fresh_model::<T>().items + listing_items(true, pages) =~= listing_items(true, pages));
}

/// Once the iteration has ended, it stays ended: asking again changes
/// nothing and says the same.
pub proof fn lemma_exhausted_is_final<T>(s: StreamModel<T>)
    requires
        poll_outcome(s) is Done,
    ensures
        poll_state(s) == s,
        poll_outcome(poll_state(s)) is Done,
{
}

} // verus!
