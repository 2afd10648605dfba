//! The cursor pagination walker. Fetching is the caller's business: the
//! walker says which cursor to request next and digests one fetched page at
//! a time, so every decision it takes is verified.

use vstd::prelude::*;
use vstd::string::*;
use crate::envelope::spec_envelope_verdict;
use crate::errors::ScrapeError;
use crate::timeline::{spec_filter_cursor, UserTweetAndRepliesRequest};

verus! {

/// The walker's state: the cursor to request next, whether the next fed
/// page is the one-step lookahead after a page without a bottom cursor,
/// and the pages so far in semantic-continuation order (most recently
/// fetched first).
pub struct TimelineWalker {
    pub cursor: String,
    pub break_on_next: bool,
    pub pages: Vec<UserTweetAndRepliesRequest>,
}

/// The walker's state as contracts speak of it.
pub struct WalkState {
    pub cursor: Seq<char>,
    pub break_on_next: bool,
    pub pages: Seq<UserTweetAndRepliesRequest>,
}

/// One usable page's effect on the walker: the page goes in front of the
/// accumulated pages; the walk is over when the flag was already set; else
/// the page's bottom cursor, when present, becomes the next cursor, and
/// when absent the flag asks for the single lookahead fetch.
pub open spec fn spec_feed(s: WalkState, page: UserTweetAndRepliesRequest) -> (WalkState, bool) {
    let pages = seq![page] + s.pages;
    if s.break_on_next {
        (WalkState { cursor: s.cursor, break_on_next: true, pages }, true)
    } else {
        match spec_filter_cursor(page) {
            Some(c) => (WalkState { cursor: c, break_on_next: false, pages }, false),
            None => (WalkState { cursor: s.cursor, break_on_next: true, pages }, false),
        }
    }
}

/// The state after feeding a sequence of usable pages in order.
pub open spec fn spec_run(s: WalkState, fed: Seq<UserTweetAndRepliesRequest>) -> WalkState
    decreases fed.len(),
{
    if fed.len() == 0 {
        s
    } else {
        spec_run(spec_feed(s, fed[0]).0, fed.drop_first())
    }
}

impl TimelineWalker {
    /// The walker's state as contracts speak of it.
    pub open spec fn abs(self) -> WalkState {
        WalkState { cursor: self.cursor@, break_on_next: self.break_on_next, pages: self.pages@ }
    }

    /// Start a walk from the first continuation cursor.
    pub fn start(first_cursor: String) -> (w: TimelineWalker)
        ensures
            w.cursor == first_cursor,
            !w.break_on_next,
            w.pages@ == Seq::<UserTweetAndRepliesRequest>::empty(),
    {
        TimelineWalker { cursor: first_cursor, break_on_next: false, pages: Vec::new() }
    }

    /// Digest the page fetched for `cursor`. A fatal envelope aborts the
    /// walk with that error, the walker unchanged. Otherwise the page goes
    /// in front of the accumulated pages, and the result says whether the
    /// walk is over — it is when the previous page already lacked a bottom
    /// cursor, this page being the one-step lookahead. Else the page's
    /// bottom cursor, when present, names the next page; when absent,
    /// exactly one further fetch with the unchanged cursor is asked for.
    pub fn feed(&mut self, page: UserTweetAndRepliesRequest) -> (r: Result<bool, ScrapeError>)
        ensures
            ({
                match r {
                    Err(e) => {
                        &&& spec_envelope_verdict(page.errors@) == Err::<(), ScrapeError>(e)
                        &&& *final(self) == *old(self)
                    },
                    Ok(done) => {
                        &&& spec_envelope_verdict(page.errors@) is Ok
                        &&& done == old(self).break_on_next
                        &&& final(self).abs() == spec_feed(old(self).abs(), page).0
                        &&& final(self).pages@ == seq![page] + old(self).pages@
                        &&& if old(self).break_on_next {
                            final(self).cursor == old(self).cursor && final(self).break_on_next
                        } else {
                            match spec_filter_cursor(page) {
                                Some(c) => final(self).cursor@ == c && !final(self).break_on_next,
                                None => final(self).cursor == old(self).cursor
                                    && final(self).break_on_next,
                            }
                        }
                    },
                }
            }),
    {
        match page.json_request_filter_errors() {
            Err(e) => {
                return Err(e);
            }
            Ok(_) => {}
        }
        let done = self.break_on_next;
        if !done {
            let next = match page.filter_cursor() {
                Some(b) => Some(String::from_str(b)),
                None => None,
            };
            match next {
                Some(c) => {
                    self.cursor = c;
                }
                None => {
                    self.break_on_next = true;
                }
            }
        }
        self.pages.insert(0, page);
        proof {
            assert(self.pages@ =~= seq![page] + old(self).pages@);
        }
        Ok(done)
    }
}

#[verifier::rlimit(100)]
proof fn lemma_run_snoc(
    s: WalkState,
    fed: Seq<UserTweetAndRepliesRequest>,
    p: UserTweetAndRepliesRequest,
)
    ensures
        spec_run(s, fed.push(p)) == spec_feed(spec_run(s, fed), p).0,
    decreases fed.len(),
{
    reveal_with_fuel(spec_run, 3);
    if fed.len() == 0 {
        assert(fed.push(p)[0] == p);
        assert(fed.push(p).drop_first() =~= Seq::<UserTweetAndRepliesRequest>::empty());
    } else {
        assert(fed.push(p)[0] == fed[0]);
        assert(fed.push(p).drop_first() =~= fed.drop_first().push(p));
        assert(spec_run(s, fed.push(p)) == spec_run(
            spec_feed(s, fed[0]).0,
            fed.drop_first().push(p),
        ));
        lemma_run_snoc(spec_feed(s, fed[0]).0, fed.drop_first(), p);
        assert(spec_run(s, fed) == spec_run(spec_feed(s, fed[0]).0, fed.drop_first()));
    }
}

#[verifier::rlimit(100)]
proof fn lemma_walk_prefix(s0: WalkState, script: Seq<UserTweetAndRepliesRequest>, k: int)
    requires
        !s0.break_on_next,
        0 <= k <= script.len(),
        forall|j: int| 0 <= j < k ==> spec_filter_cursor(#[trigger] script[j]) is Some,
    ensures
        !spec_run(s0, script.take(k)).break_on_next,
        spec_run(s0, script.take(k)).pages == script.take(k).reverse() + s0.pages,
    decreases k,
{
    if k == 0 {
        assert(script.take(0) =~= Seq::<UserTweetAndRepliesRequest>::empty());
        assert(script.take(0).reverse() + s0.pages =~= s0.pages);
    } else {
        lemma_walk_prefix(s0, script, k - 1);
        assert(script.take(k) =~= script.take(k - 1).push(script[k - 1]));
        lemma_run_snoc(s0, script.take(k - 1), script[k - 1]);
        assert(spec_filter_cursor(script[k - 1]) is Some);
        assert(script.take(k).reverse() =~= seq![script[k - 1]] + script.take(k - 1).reverse());
        assert(spec_run(s0, script.take(k)).pages =~= script.take(k).reverse() + s0.pages);
    }
}

/// Law: fed a linear script — every page usable, each page but the last
/// carrying a bottom cursor, and the last carrying none — the walker asks
/// for exactly one fetch per script page plus the single lookahead: no
/// feed before the lookahead reports the walk over, the lookahead's feed
/// does, and the pages then stand in reverse fetch order, the lookahead
/// page in front.
#[verifier::rlimit(100)]
pub proof fn lemma_walk_linear_script(
    s0: WalkState,
    script: Seq<UserTweetAndRepliesRequest>,
    lookahead: UserTweetAndRepliesRequest,
)
    requires
        !s0.break_on_next,
        script.len() > 0,
        forall|k: int|
            0 <= k < script.len() - 1 ==> spec_filter_cursor(#[trigger] script[k]) is Some,
        spec_filter_cursor(script[script.len() - 1]) is None,
    ensures
        forall|k: int|
            0 <= k < script.len() ==> !spec_feed(
                spec_run(s0, script.take(k)),
                #[trigger] script[k],
            ).1,
        spec_feed(spec_run(s0, script), lookahead).1,
        spec_feed(spec_run(s0, script), lookahead).0.pages == seq![lookahead] + script.reverse()
            + s0.pages,
{
    let m = script.len() as int;
    assert forall|k: int| 0 <= k < m implies !spec_feed(
        spec_run(s0, script.take(k)),
        #[trigger] script[k],
    ).1 by {
        lemma_walk_prefix(s0, script, k);
    }
    lemma_walk_prefix(s0, script, m - 1);
    assert(script.take(m) =~= script);
    assert(script =~= script.take(m - 1).push(script[m - 1]));
    lemma_run_snoc(s0, script.take(m - 1), script[m - 1]);
    assert(spec_run(s0, script).break_on_next);
    assert(script.reverse() =~= seq![script[m - 1]] + script.take(m - 1).reverse());
    assert(spec_run(s0, script).pages =~= script.reverse() + s0.pages);
    assert(spec_feed(spec_run(s0, script), lookahead).0.pages =~= seq![lookahead]
        + script.reverse() + s0.pages);
}

} // verus!
