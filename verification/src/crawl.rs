//! The orchestrator's decisions: which thread ids each page asks the
//! external thread expander for, in order, with the tombstone and
//! duplicate-boundary skip rules. The expander itself and the fetch loop
//! live outside; every decision here is verified.

use vstd::prelude::*;
use crate::timeline::{Entry, Instruction, TweetResult, UserTweetAndRepliesRequest};

verus! {

/// The expansion a single entry asks for: nothing for a cursor entry or a
/// tombstoned tweet; a tweet entry names its tweet; a conversation entry
/// names its first boundary item and, when the last boundary differs, that
/// one too. A tombstoned first boundary skips the whole entry; a
/// tombstoned last boundary skips only itself. When the first expansion of
/// a pair fails, the second is skipped too.
pub open spec fn spec_entry_targets(e: Entry) -> Option<(String, Option<String>)> {
    match e {
        Entry::Tweet(tr) => match tr {
            TweetResult::Resolved { rest_id } => Some((rest_id, None)),
            TweetResult::Tombstone => None,
        },
        Entry::HomeConversation(items) => if items@.len() == 0 {
            None
        } else {
            match items@[0] {
                TweetResult::Tombstone => None,
                TweetResult::Resolved { rest_id: fid } => match items@[items@.len() - 1] {
                    TweetResult::Tombstone => Some((fid, None)),
                    TweetResult::Resolved { rest_id: lid } => if lid@ == fid@ {
                        Some((fid, None))
                    } else {
                        Some((fid, Some(lid)))
                    },
                },
            }
        },
        Entry::Cursor(_) => None,
    }
}

/// The expansion one entry asks for, exactly as `spec_entry_targets` says.
pub fn entry_targets(e: &Entry) -> (r: Option<(String, Option<String>)>)
    ensures
        r == spec_entry_targets(*e),
{
    match e {
        Entry::Tweet(tr) => match tr {
            TweetResult::Resolved { rest_id } => Some((rest_id.clone(), None)),
            TweetResult::Tombstone => None,
        },
        Entry::HomeConversation(items) => {
            if items.len() == 0 {
                return None;
            }
            let first = &items[0];
            let last = &items[items.len() - 1];
            match first {
                TweetResult::Tombstone => None,
                TweetResult::Resolved { rest_id: fid } => match last {
                    TweetResult::Tombstone => Some((fid.clone(), None)),
                    TweetResult::Resolved { rest_id: lid } => {
                        if crate::strutil::str_eq(lid.as_str(), fid.as_str()) {
                            Some((fid.clone(), None))
                        } else {
                            Some((fid.clone(), Some(lid.clone())))
                        }
                    }
                },
            }
        }
        Entry::Cursor(_) => None,
    }
}

/// The expansions a list of entries asks for, in order.
pub open spec fn spec_entries_targets(es: Seq<Entry>) -> Seq<(String, Option<String>)>
    decreases es.len(),
{
    if es.len() == 0 {
        Seq::empty()
    } else {
        spec_entries_targets(es.drop_last()) + (match spec_entry_targets(es.last()) {
            Some(t) => seq![t],
            None => Seq::empty(),
        })
    }
}

/// The expansions a list of instructions asks for: only "add entries"
/// instructions contribute, in order.
pub open spec fn spec_insts_targets(insts: Seq<Instruction>) -> Seq<(String, Option<String>)>
    decreases insts.len(),
{
    if insts.len() == 0 {
        Seq::empty()
    } else {
        spec_insts_targets(insts.drop_last()) + (match insts.last() {
            Instruction::TimelineAddEntries(add) => spec_entries_targets(add.entries@),
            _ => Seq::empty(),
        })
    }
}

/// The expansions one page asks for.
pub open spec fn spec_page_targets(req: UserTweetAndRepliesRequest) -> Seq<
    (String, Option<String>),
> {
    spec_insts_targets(req.instructions@)
}

/// Collect the expansions one page asks for, exactly as
/// `spec_page_targets` says.
pub fn page_targets(req: &UserTweetAndRepliesRequest) -> (r: Vec<(String, Option<String>)>)
    ensures
        r@ == spec_page_targets(*req),
{
    let mut out: Vec<(String, Option<String>)> = Vec::new();
    let n = req.instructions.len();
    let mut i: usize = 0;
    proof {
        assert(req.instructions@.take(0) =~= Seq::<Instruction>::empty());
    }
    while i < n
        invariant
            i <= n,
            n == req.instructions@.len(),
            out@ == spec_insts_targets(req.instructions@.take(i as int)),
        decreases n - i,
    {
        proof {
            assert(req.instructions@.take(i as int + 1).drop_last() =~= req.instructions@.take(
                i as int,
            ));
            assert(req.instructions@.take(i as int + 1).last() == req.instructions@[i as int]);
        }
        match &req.instructions[i] {
            Instruction::TimelineAddEntries(add) => {
                let ne = add.entries.len();
                let mut j: usize = 0;
                proof {
                    assert(add.entries@.take(0) =~= Seq::<Entry>::empty());
                    assert(out@ + Seq::<(String, Option<String>)>::empty() =~= out@);
                }
                while j < ne
                    invariant
                        j <= ne,
                        ne == add.entries@.len(),
                        out@ == spec_insts_targets(req.instructions@.take(i as int))
                            + spec_entries_targets(add.entries@.take(j as int)),
                    decreases ne - j,
                {
                    proof {
                        assert(add.entries@.take(j as int + 1).drop_last() =~= add.entries@.take(
                            j as int,
                        ));
                        assert(add.entries@.take(j as int + 1).last() == add.entries@[j as int]);
                    }
                    match entry_targets(&add.entries[j]) {
                        Some(t) => {
                            out.push(t);
                            proof {
                                assert(out@ =~= spec_insts_targets(req.instructions@.take(i as int))
                                    + spec_entries_targets(add.entries@.take(j as int + 1)));
                            }
                        }
                        None => {
                            proof {
                                assert(out@ =~= spec_insts_targets(req.instructions@.take(i as int))
                                    + spec_entries_targets(add.entries@.take(j as int + 1)));
                            }
                        }
                    }
                    j = j + 1;
                }
                proof {
                    assert(add.entries@.take(ne as int) =~= add.entries@);
                    assert(out@ =~= spec_insts_targets(req.instructions@.take(i as int + 1)));
                }
            }
            _ => {
                proof {
                    assert(out@ + Seq::<(String, Option<String>)>::empty() =~= out@);
                    assert(out@ =~= spec_insts_targets(req.instructions@.take(i as int + 1)));
                }
            }
        }
        i = i + 1;
    }
    proof {
        assert(req.instructions@.take(n as int) =~= req.instructions@);
    }
    out
}

} // verus!
