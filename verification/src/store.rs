//! The cross-page dedup store: the users and tweets accumulated over a
//! whole crawl, each set keyed by the entities' platform-assigned ids.
//! Membership is idempotent; first-seen order is kept.

use vstd::prelude::*;
use std::collections::HashSet;
use ahash::HashSetExt;
use crate::user::{ProfileStats, User};

verus! {

/// One tweet as the external thread expander returns it.
#[derive(Clone, Debug, PartialEq, Eq)]
pub struct Tweet {
    pub id: u64,
    pub text: String,
}

#[verifier::external_type_specification]
#[verifier::external_body]
pub struct ExRandomState(ahash::RandomState);

/// The identifiers an ahash id-set holds.
pub uninterp spec fn id_set_elems(s: HashSet<u64, ahash::RandomState>) -> Set<u64>;

/// Relies on ahash::HashSetExt::with_capacity: a freshly made set is empty.
#[verifier::external_body]
fn id_set_with_capacity(capacity: usize) -> (s: HashSet<u64, ahash::RandomState>)
    ensures
        id_set_elems(s) == Set::<u64>::empty(),
{
    ahash::HashSet::with_capacity(capacity)
}

/// Relies on std's HashSet::insert, here with ahash's hasher: the value is
/// added, nothing else changes, and the result says whether it was absent.
#[verifier::external_body]
fn id_set_insert(s: &mut HashSet<u64, ahash::RandomState>, id: u64) -> (added: bool)
    ensures
        id_set_elems(*final(s)) == id_set_elems(*old(s)).insert(id),
        added == !id_set_elems(*old(s)).contains(id),
{
    s.insert(id)
}

/// The set of tweet ids a sequence holds.
pub open spec fn tweet_id_set(s: Seq<Tweet>) -> Set<u64> {
    Set::new(|id: u64| exists|i: int| 0 <= i < s.len() && s[i].id == id)
}

/// The set of user ids a sequence holds.
pub open spec fn user_id_set(s: Seq<User>) -> Set<u64> {
    Set::new(|id: u64| exists|i: int| 0 <= i < s.len() && s[i].id == id)
}

/// No two tweets share an id.
pub open spec fn tweet_ids_unique(s: Seq<Tweet>) -> bool {
    forall|i: int, j: int| 0 <= i < j < s.len() ==> #[trigger] s[i].id != #[trigger] s[j].id
}

/// No two users share an id.
pub open spec fn user_ids_unique(s: Seq<User>) -> bool {
    forall|i: int, j: int| 0 <= i < j < s.len() ==> #[trigger] s[i].id != #[trigger] s[j].id
}

/// Adding one tweet: a no-op when its id is already present, else appended.
pub open spec fn spec_insert_tweet(s: Seq<Tweet>, t: Tweet) -> Seq<Tweet> {
    if tweet_id_set(s).contains(t.id) {
        s
    } else {
        s.push(t)
    }
}

/// Adding one user: a no-op when its id is already present, else appended.
pub open spec fn spec_insert_user(s: Seq<User>, u: User) -> Seq<User> {
    if user_id_set(s).contains(u.id) {
        s
    } else {
        s.push(u)
    }
}

/// Merging a batch of tweets, in order, keeping first occurrences.
pub open spec fn spec_merge_tweets(s: Seq<Tweet>, add: Seq<Tweet>) -> Seq<Tweet>
    decreases add.len(),
{
    if add.len() == 0 {
        s
    } else {
        spec_merge_tweets(spec_insert_tweet(s, add[0]), add.drop_first())
    }
}

/// Merging a batch of users, in order, keeping first occurrences.
pub open spec fn spec_merge_users(s: Seq<User>, add: Seq<User>) -> Seq<User>
    decreases add.len(),
{
    if add.len() == 0 {
        s
    } else {
        spec_merge_users(spec_insert_user(s, add[0]), add.drop_first())
    }
}

proof fn lemma_insert_tweet_ids(s: Seq<Tweet>, t: Tweet)
    ensures
        tweet_id_set(spec_insert_tweet(s, t)) =~= tweet_id_set(s).insert(t.id),
        tweet_ids_unique(s) ==> tweet_ids_unique(spec_insert_tweet(s, t)),
{
    if tweet_id_set(s).contains(t.id) {
        assert(tweet_id_set(s).insert(t.id) =~= tweet_id_set(s));
    } else {
        let post = s.push(t);
        assert forall|id: u64| tweet_id_set(post).contains(id) implies tweet_id_set(s).insert(
            t.id,
        ).contains(id) by {
            let i = choose|i: int| 0 <= i < post.len() && post[i].id == id;
            if i < s.len() {
                assert(tweet_id_set(s).contains(id));
            }
        }
        assert forall|id: u64| tweet_id_set(s).insert(t.id).contains(id) implies tweet_id_set(
            post,
        ).contains(id) by {
            if id == t.id {
                assert(post[post.len() - 1].id == id);
            } else {
                let i = choose|i: int| 0 <= i < s.len() && s[i].id == id;
                assert(post[i].id == id);
            }
        }
        if tweet_ids_unique(s) {
            assert forall|i: int| 0 <= i < s.len() implies s[i].id != t.id by {
                if s[i].id == t.id {
                    assert(tweet_id_set(s).contains(t.id));
                }
            }
            assert(tweet_ids_unique(post));
        }
    }
}

/// Law: after a merge the kept tweet ids are exactly the union of the old
/// ids and the batch's ids, and a store without duplicate ids stays
/// without them.
pub proof fn lemma_merge_tweets_ids(s: Seq<Tweet>, add: Seq<Tweet>)
    ensures
        tweet_id_set(spec_merge_tweets(s, add)) =~= tweet_id_set(s).union(tweet_id_set(add)),
        tweet_ids_unique(s) ==> tweet_ids_unique(spec_merge_tweets(s, add)),
    decreases add.len(),
{
    if add.len() == 0 {
        assert(tweet_id_set(add) =~= Set::<u64>::empty());
        assert(tweet_id_set(s).union(tweet_id_set(add)) =~= tweet_id_set(s));
    } else {
        let s2 = spec_insert_tweet(s, add[0]);
        lemma_insert_tweet_ids(s, add[0]);
        lemma_merge_tweets_ids(s2, add.drop_first());
        assert(tweet_id_set(add) =~= tweet_id_set(add.drop_first()).insert(add[0].id)) by {
            assert forall|id: u64| tweet_id_set(add).contains(id) implies tweet_id_set(
                add.drop_first(),
            ).insert(add[0].id).contains(id) by {
                let i = choose|i: int| 0 <= i < add.len() && add[i].id == id;
                if i > 0 {
                    assert(add.drop_first()[i - 1].id == id);
                    assert(tweet_id_set(add.drop_first()).contains(id));
                }
            }
            assert forall|id: u64| tweet_id_set(add.drop_first()).insert(add[0].id).contains(id)
                implies tweet_id_set(add).contains(id) by {
                if id != add[0].id {
                    let i = choose|i: int|
                        0 <= i < add.drop_first().len() && add.drop_first()[i].id == id;
                    assert(add[i + 1].id == id);
                }
            }
        }
        assert(tweet_id_set(spec_merge_tweets(s, add)) =~= tweet_id_set(s).union(
            tweet_id_set(add),
        ));
    }
}

proof fn lemma_merge_tweets_subsumed(t: Seq<Tweet>, add: Seq<Tweet>)
    requires
        tweet_id_set(add).subset_of(tweet_id_set(t)),
    ensures
        spec_merge_tweets(t, add) == t,
    decreases add.len(),
{
    if add.len() > 0 {
        assert(tweet_id_set(add).contains(add[0].id)) by {
            assert(add[0].id == add[0].id);
        }
        assert(spec_insert_tweet(t, add[0]) == t);
        assert(tweet_id_set(add.drop_first()).subset_of(tweet_id_set(t))) by {
            assert forall|id: u64| tweet_id_set(add.drop_first()).contains(id)
                implies tweet_id_set(t).contains(id) by {
                let i = choose|i: int|
                    0 <= i < add.drop_first().len() && add.drop_first()[i].id == id;
                assert(add[i + 1].id == id);
                assert(tweet_id_set(add).contains(id));
            }
        }
        lemma_merge_tweets_subsumed(t, add.drop_first());
    }
}

/// Law: the dedup union is idempotent. Merging a batch a second time — as
/// when two pages' thread expansions reference the same tweet ids — leaves
/// the store exactly as the first merge left it.
pub proof fn lemma_merge_tweets_idempotent(s: Seq<Tweet>, add: Seq<Tweet>)
    ensures
        spec_merge_tweets(spec_merge_tweets(s, add), add) == spec_merge_tweets(s, add),
{
    lemma_merge_tweets_ids(s, add);
    assert(tweet_id_set(add).subset_of(tweet_id_set(spec_merge_tweets(s, add))));
    lemma_merge_tweets_subsumed(spec_merge_tweets(s, add), add);
}

/// The deduplicated result of one crawl.
pub struct UserTweetsAndReplies {
    users: Vec<User>,
    tweets: Vec<Tweet>,
    user_ids: HashSet<u64, ahash::RandomState>,
    tweet_ids: HashSet<u64, ahash::RandomState>,
}

impl UserTweetsAndReplies {
    pub closed spec fn tweets_seq(self) -> Seq<Tweet> {
        self.tweets@
    }

    pub closed spec fn users_seq(self) -> Seq<User> {
        self.users@
    }

    /// The store's invariant: no duplicate ids, and each id-set holds
    /// exactly the ids of the kept entities.
    pub closed spec fn wf(self) -> bool {
        &&& tweet_ids_unique(self.tweets@)
        &&& user_ids_unique(self.users@)
        &&& id_set_elems(self.tweet_ids) == tweet_id_set(self.tweets@)
        &&& id_set_elems(self.user_ids) == user_id_set(self.users@)
    }

    /// An empty store, pre-sized from the profile's counters: the tweet
    /// count capped at the deepest retrievable timeline, the following
    /// count at a fixed small bound. The hints are an optimization and
    /// never a bound.
    pub fn with_capacity_for(stats: &ProfileStats) -> (s: UserTweetsAndReplies)
        ensures
            s.wf(),
            s.tweets_seq() == Seq::<Tweet>::empty(),
            s.users_seq() == Seq::<User>::empty(),
    {
        let max: u32 = if stats.tweets > 3200 {
            3200
        } else {
            stats.tweets
        };
        let ucap: u32 = if stats.following > 200 {
            200
        } else {
            stats.following
        };
        let s = UserTweetsAndReplies {
            users: Vec::new(),
            tweets: Vec::new(),
            user_ids: id_set_with_capacity(ucap as usize),
            tweet_ids: id_set_with_capacity((max as usize) * 2),
        };
        proof {
            assert(tweet_id_set(s.tweets@) =~= Set::<u64>::empty());
            assert(user_id_set(s.users@) =~= Set::<u64>::empty());
        }
        s
    }

    /// The kept tweets, first-seen order.
    pub fn tweets(&self) -> (r: &Vec<Tweet>)
        ensures
            r@ == self.tweets_seq(),
    {
        &self.tweets
    }

    /// The kept users, first-seen order.
    pub fn users(&self) -> (r: &Vec<User>)
        ensures
            r@ == self.users_seq(),
    {
        &self.users
    }

    /// Add one tweet; re-adding an already-present id is a no-op.
    pub fn insert_tweet(&mut self, t: Tweet)
        requires
            old(self).wf(),
        ensures
            final(self).wf(),
            final(self).tweets_seq() == spec_insert_tweet(old(self).tweets_seq(), t),
            final(self).users_seq() == old(self).users_seq(),
    {
        let added = id_set_insert(&mut self.tweet_ids, t.id);
        if added {
            proof {
                assert forall|i: int| 0 <= i < self.tweets@.len() implies self.tweets@[i].id
                    != t.id by {
                    if self.tweets@[i].id == t.id {
                        assert(tweet_id_set(self.tweets@).contains(t.id));
                    }
                }
            }
            self.tweets.push(t);
            proof {
                assert(tweet_id_set(self.tweets@) =~= tweet_id_set(old(self).tweets@).insert(
                    t.id,
                )) by {
                    let post = self.tweets@;
                    let pre = old(self).tweets@;
                    assert forall|id: u64| tweet_id_set(post).contains(id) implies tweet_id_set(
                        pre,
                    ).insert(t.id).contains(id) by {
                        let i = choose|i: int| 0 <= i < post.len() && post[i].id == id;
                        if i < pre.len() {
                            assert(tweet_id_set(pre).contains(id));
                        }
                    }
                    assert forall|id: u64| tweet_id_set(pre).insert(t.id).contains(id)
                        implies tweet_id_set(post).contains(id) by {
                        if id == t.id {
                            assert(post[post.len() - 1].id == id);
                        } else {
                            let i = choose|i: int| 0 <= i < pre.len() && pre[i].id == id;
                            assert(post[i].id == id);
                        }
                    }
                }
            }
        } else {
            proof {
                assert(tweet_id_set(self.tweets@).insert(t.id) =~= tweet_id_set(self.tweets@));
            }
        }
    }

    /// Add one user; re-adding an already-present id is a no-op.
    pub fn insert_user(&mut self, u: User)
        requires
            old(self).wf(),
        ensures
            final(self).wf(),
            final(self).users_seq() == spec_insert_user(old(self).users_seq(), u),
            final(self).tweets_seq() == old(self).tweets_seq(),
    {
        let added = id_set_insert(&mut self.user_ids, u.id);
        if added {
            proof {
                assert forall|i: int| 0 <= i < self.users@.len() implies self.users@[i].id
                    != u.id by {
                    if self.users@[i].id == u.id {
                        assert(user_id_set(self.users@).contains(u.id));
                    }
                }
            }
            self.users.push(u);
            proof {
                assert(user_id_set(self.users@) =~= user_id_set(old(self).users@).insert(
                    u.id,
                )) by {
                    let post = self.users@;
                    let pre = old(self).users@;
                    assert forall|id: u64| user_id_set(post).contains(id) implies user_id_set(
                        pre,
                    ).insert(u.id).contains(id) by {
                        let i = choose|i: int| 0 <= i < post.len() && post[i].id == id;
                        if i < pre.len() {
                            assert(user_id_set(pre).contains(id));
                        }
                    }
                    assert forall|id: u64| user_id_set(pre).insert(u.id).contains(id)
                        implies user_id_set(post).contains(id) by {
                        if id == u.id {
                            assert(post[post.len() - 1].id == id);
                        } else {
                            let i = choose|i: int| 0 <= i < pre.len() && pre[i].id == id;
                            assert(post[i].id == id);
                        }
                    }
                }
            }
        } else {
            proof {
                assert(user_id_set(self.users@).insert(u.id) =~= user_id_set(self.users@));
            }
        }
    }

    /// Union one thread expansion's tweets and users into the store, in
    /// order, keeping the first occurrence of each id.
    pub fn merge(&mut self, tweets: Vec<Tweet>, users: Vec<User>)
        requires
            old(self).wf(),
        ensures
            final(self).wf(),
            final(self).tweets_seq() == spec_merge_tweets(old(self).tweets_seq(), tweets@),
            final(self).users_seq() == spec_merge_users(old(self).users_seq(), users@),
    {
        let mut trest = tweets;
        let mut urest = users;
        while trest.len() > 0
            invariant
                self.wf(),
                self.users_seq() == old(self).users_seq(),
                spec_merge_tweets(old(self).tweets_seq(), tweets@) == spec_merge_tweets(
                    self.tweets_seq(),
                    trest@,
                ),
            decreases trest@.len(),
        {
            let ghost pre = trest@;
            let t = trest.remove(0);
            proof {
                assert(pre.remove(0) =~= pre.drop_first());
            }
            self.insert_tweet(t);
        }
        while urest.len() > 0
            invariant
                self.wf(),
                self.tweets_seq() == spec_merge_tweets(old(self).tweets_seq(), tweets@),
                spec_merge_users(old(self).users_seq(), users@) == spec_merge_users(
                    self.users_seq(),
                    urest@,
                ),
            decreases urest@.len(),
        {
            let ghost pre = urest@;
            let u = urest.remove(0);
            proof {
                assert(pre.remove(0) =~= pre.drop_first());
            }
            self.insert_user(u);
        }
    }
}

} // verus!
