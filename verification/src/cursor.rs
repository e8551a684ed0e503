//! The pagination cursor: an explicit state machine over the buffered items
//! of the current page and the optional next-page URL, whose steps tell the
//! driving loop what to do next.

use vstd::prelude::*;

verus! {

/// The pagination cursor: a forward-only, non-restartable walk over a
/// paginated resource.  It buffers one page of items and keeps at most one
/// next-page URL; the blocking fetches happen outside, driven by the actions
/// this state machine hands out.
pub struct PageCursor<T> {
    /// The items of the current page not yet handed out, front first
    buffer: Vec<T>,
    /// The URL of the next page, when one is known
    next_url: Option<String>,
}

/// The mathematical view of a pagination cursor
pub struct PageCursorView<T> {
    pub buffer: Seq<T>,
    pub next_url: Option<Seq<char>>,
}

/// What the driving loop must do next
pub enum CursorAction<T> {
    /// Hand this item to the caller
    Yield(T),
    /// Fetch this URL with a GET request, decode the page, and report back
    /// through `supply_page`; on failure, surface the error and leave the
    /// cursor as it is — it is exhausted
    Fetch(String),
    /// The walk is over; nothing further will ever be produced
    Done,
}

/// The mathematical view of a cursor action
pub enum CursorActionView<T> {
    Yield(T),
    Fetch(Seq<char>),
    Done,
}

impl<T> View for PageCursor<T> {
    type V = PageCursorView<T>;

    closed spec fn view(&self) -> PageCursorView<T> {
        PageCursorView {
            buffer: self.buffer@,
            next_url: match self.next_url {
                Some(ref u) => Some(u@),
                None => None,
            },
        }
    }
}

impl<T> View for CursorAction<T> {
    type V = CursorActionView<T>;

    open spec fn view(&self) -> CursorActionView<T> {
        match self {
            CursorAction::Yield(t) => CursorActionView::Yield(*t),
            CursorAction::Fetch(u) => CursorActionView::Fetch(u@),
            CursorAction::Done => CursorActionView::Done,
        }
    }
}

/// The cursor state after one step: a buffered item is consumed first; an
/// empty buffer gives up its next-page URL; an exhausted cursor stays as it
/// is
pub open spec fn spec_step_state<T>(v: PageCursorView<T>) -> PageCursorView<T> {
    if v.buffer.len() > 0 {
        PageCursorView { buffer: v.buffer.drop_first(), next_url: v.next_url }
    } else if v.next_url is Some {
        PageCursorView { buffer: v.buffer, next_url: None }
    } else {
        v
    }
}

/// The action one step hands out: the first buffered item while any remain,
/// then a fetch of the next-page URL if one is set, and otherwise the end of
/// the walk
pub open spec fn spec_step_action<T>(v: PageCursorView<T>) -> CursorActionView<T> {
    if v.buffer.len() > 0 {
        CursorActionView::Yield(v.buffer[0])
    } else {
        match v.next_url {
            Some(u) => CursorActionView::Fetch(u),
            None => CursorActionView::Done,
        }
    }
}

impl<T> PageCursor<T> {
    /// Begin a walk at `start_url`, with nothing buffered yet
    pub fn new(start_url: String) -> (r: PageCursor<T>)
        ensures
            r@.buffer.len() == 0,
            r@.next_url == Some(start_url@),
    {
        PageCursor { buffer: Vec::new(), next_url: Some(start_url) }
    }

    /// Take one step of the walk
    pub fn step(&mut self) -> (action: CursorAction<T>)
        ensures
            final(self)@ == spec_step_state(old(self)@),
            action@ == spec_step_action(old(self)@),
    {
        if self.buffer.len() > 0 {
            let item = self.buffer.remove(0);
            proof {
                assert(self.buffer@ =~= old(self)@.buffer.drop_first());
            }
            CursorAction::Yield(item)
        } else {
            match self.next_url.take() {
                Some(url) => CursorAction::Fetch(url),
                None => CursorAction::Done,
            }
        }
    }

    /// Report the result of a fetch: the decoded items of the page, and the
    /// next-page URL taken from the response's `Link` header, when there was
    /// one
    pub fn supply_page(&mut self, items: Vec<T>, next_url: Option<String>)
        ensures
            final(self)@.buffer == items@,
            final(self)@.next_url == match next_url {
                Some(u) => Some(u@),
                None => None::<Seq<char>>,
            },
    {
        self.buffer = items;
        self.next_url = next_url;
    }
}

/// The cursor state after `k` steps
pub open spec fn spec_run_steps<T>(v: PageCursorView<T>, k: int) -> PageCursorView<T>
    decreases k,
{
    if k <= 0 {
        v
    } else {
        spec_run_steps(spec_step_state(v), k - 1)
    }
}

/// Once a page arrives whose response named no next page, the cursor hands
/// out exactly the buffered items, in order, and is then done — and stays
/// done — forever after.
pub proof fn lemma_no_next_page_exhausts<T>(v: PageCursorView<T>, k: int)
    requires
        0 <= k,
        v.next_url is None,
    ensures
        k < v.buffer.len() ==> spec_step_action(spec_run_steps(v, k)) == CursorActionView::Yield(
            v.buffer[k],
        ),
        k >= v.buffer.len() ==> spec_step_action(spec_run_steps(v, k)) == (
        CursorActionView::Done::<T>),
        k >= v.buffer.len() ==> spec_run_steps(v, k) == (PageCursorView {
            buffer: Seq::<T>::empty(),
            next_url: None::<Seq<char>>,
        }),
    decreases k,
{
    if k == 0 {
        if v.buffer.len() == 0 {
            assert(v.buffer =~= Seq::<T>::empty());
        }
    } else {
        lemma_no_next_page_exhausts(spec_step_state(v), k - 1);
        if v.buffer.len() > 0 {
            assert(spec_step_state(v).buffer == v.buffer.drop_first());
            assert(k - 1 < v.buffer.drop_first().len() ==> v.buffer.drop_first()[k - 1]
                == v.buffer[k]);
        }
    }
}

} // verus!
