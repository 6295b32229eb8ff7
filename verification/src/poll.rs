use vstd::prelude::*;

verus! {

use crate::response::Response;
use crate::status::spec_pending;

/// Whether a page outcome keeps the polling loop going: only a page whose
/// status is `New` or `Running` does. A missing page (no more pages) and
/// every settled status end the loop.
pub open spec fn spec_page_pending<T>(p: Option<Response<T>>) -> bool {
    match p {
        Some(resp) => spec_pending(resp.status),
        None => false,
    }
}

/// The decision the polling loop takes after one page request.
#[derive(Debug, PartialEq)]
pub enum PollDecision<T> {
    /// The page reported `New` or `Running`: suspend for the poll interval,
    /// then request the page again.
    Retry,
    /// Any other outcome ends the loop with this value: `None` for "no more
    /// pages", or the page itself — the caller must inspect its settled
    /// status, since a `Failed` page is a normal outcome here (the page
    /// fetch itself succeeded).
    Done(Option<Response<T>>),
}

/// Decide what the polling loop does with one page outcome.
pub fn next_page_step<T>(page: Option<Response<T>>) -> (r: PollDecision<T>)
    ensures
        spec_page_pending(page) ==> r is Retry,
        !spec_page_pending(page) ==> r == PollDecision::Done(page),
{
    match page {
        None => PollDecision::Done(None),
        Some(resp) => {
            if resp.status.is_pending() {
                PollDecision::Retry
            } else {
                PollDecision::Done(Some(resp))
            }
        },
    }
}

/// The index of the first outcome in `s` that ends the polling loop, or
/// `s.len()` when every outcome keeps it going.
pub open spec fn spec_first_settled<T>(s: Seq<Option<Response<T>>>) -> int
    decreases s.len(),
{
    if s.len() == 0 {
        0
    } else if !spec_page_pending(s[0]) {
        0
    } else {
        1 + spec_first_settled(s.drop_first())
    }
}

/// `spec_first_settled(s)` is the index `i` exactly when everything before
/// `i` keeps the loop going and `i` (if in range) ends it.
pub proof fn lemma_first_settled_at<T>(s: Seq<Option<Response<T>>>, i: int)
    requires
        0 <= i <= s.len(),
        forall|j: int| 0 <= j < i ==> spec_page_pending(#[trigger] s[j]),
        i < s.len() ==> !spec_page_pending(s[i]),
    ensures
        spec_first_settled(s) == i,
    decreases i,
{
    if i == 0 {
    } else {
        let t = s.drop_first();
        assert forall|j: int| 0 <= j < i - 1 implies spec_page_pending(#[trigger] t[j]) by {
            assert(t[j] == s[j + 1]);
        }
        if i - 1 < t.len() {
            assert(t[i - 1] == s[i]);
        }
        lemma_first_settled_at(t, i - 1);
    }
}

/// What a polling loop run over a fixed script reports.
#[derive(Debug, PartialEq)]
pub enum PollResult<T> {
    /// The loop ended: `None` for "no more pages", or the first page whose
    /// status was settled.
    Finished(Option<Response<T>>),
    /// The script ran out while every page still reported `New` or
    /// `Running`; a live transport would have been polled again.
    Exhausted,
}

/// Run the polling loop over a script of page outcomes, as if a transport
/// had answered the successive page requests with them, and count the
/// requests made and the suspensions taken. The loop consumes outcomes in
/// order, suspending once after each pending page, and returns the first
/// outcome that is not pending; every outcome after it goes unrequested.
#[verifier::loop_isolation(false)]
pub fn next_page_script<T>(mut pages: Vec<Option<Response<T>>>) -> (r: (PollResult<T>, usize, usize))
    ensures
        ({
            let k = spec_first_settled(pages@);
            if k < pages@.len() {
                &&& r.0 == PollResult::Finished(pages@[k])
                &&& r.1 as int == k + 1
                &&& r.2 as int == k
            } else {
                &&& r.0 == PollResult::<T>::Exhausted
                &&& r.1 as int == pages@.len()
                &&& r.2 as int == pages@.len()
            }
        }),
{
    let ghost full = pages@;
    let mut i: usize = 0;
    while i < pages.len()
        invariant
            pages@ == full,
            i <= full.len(),
            forall|j: int| 0 <= j < i ==> spec_page_pending(#[trigger] full[j]),
        decreases pages.len() - i,
    {
        let pending = match &pages[i] {
            Option::None => false,
            Option::Some(resp) => resp.status.is_pending(),
        };
        if !pending {
            proof {
                lemma_first_settled_at(full, i as int);
            }
            let page = pages.remove(i);
            return (PollResult::Finished(page), i + 1, i);
        }
        i += 1;
    }
    proof {
        lemma_first_settled_at(full, full.len() as int);
    }
    (PollResult::Exhausted, i, i)
}

} // verus!
