use twtscrape::crawl::page_targets;
use twtscrape::envelope::ApiError;
use twtscrape::errors::ScrapeError;
use twtscrape::store::{Tweet, UserTweetsAndReplies};
use twtscrape::timeline::{
    Cursor, Entry, Instruction, TimelineAddEntry, TweetResult, UserTweetAndRepliesRequest,
};
use twtscrape::user::{
    Avatar, LookupResult, ProfileAdditionalInfo, ProfileName, ProfileStats, User, UserRequest,
};

fn stats(tweets: u32, following: u32) -> ProfileStats {
    ProfileStats {
        tweets,
        following,
        followers: 0,
        likes: 0,
        media_tweets: 0,
        verified: false,
        blue_verified: false,
    }
}

fn mk_user(id: u64) -> User {
    User {
        id,
        avatar: Avatar { url: String::new(), banner: String::new(), is_nft: false },
        name: ProfileName { display: format!("user{}", id), handle: format!("User {}", id) },
        profile_stats: stats(0, 0),
        additional_info: ProfileAdditionalInfo {
            affiliation: None,
            profession: None,
            location: None,
            website: None,
            joined: 0,
            birthday: None,
        },
        bio: String::new(),
        pinned_tweet_id: None,
        is_sensitive: false,
        is_protected: false,
    }
}

fn mk_tweet(id: u64) -> Tweet {
    Tweet { id, text: format!("tweet {}", id) }
}

fn resolved(id: &str) -> TweetResult {
    TweetResult::Resolved { rest_id: id.to_string() }
}

#[test]
fn merging_the_same_ids_twice_keeps_one_entry_each() {
    let mut store = UserTweetsAndReplies::with_capacity_for(&stats(10, 5));
    store.merge(vec![mk_tweet(1), mk_tweet(2)], vec![mk_user(10)]);
    store.merge(vec![mk_tweet(2), mk_tweet(3)], vec![mk_user(10), mk_user(11)]);
    let tweet_ids: Vec<u64> = store.tweets().iter().map(|t| t.id).collect();
    let user_ids: Vec<u64> = store.users().iter().map(|u| u.id).collect();
    assert_eq!(tweet_ids, vec![1, 2, 3]);
    assert_eq!(user_ids, vec![10, 11]);
}

#[test]
fn the_first_occurrence_of_an_id_wins() {
    let mut store = UserTweetsAndReplies::with_capacity_for(&stats(10, 5));
    store.merge(vec![Tweet { id: 1, text: "first".to_string() }], Vec::new());
    store.merge(vec![Tweet { id: 1, text: "second".to_string() }], Vec::new());
    assert_eq!(store.tweets().len(), 1);
    assert_eq!(store.tweets()[0].text, "first");
}

#[test]
fn capacity_hints_are_never_a_bound() {
    let mut store = UserTweetsAndReplies::with_capacity_for(&stats(0, 0));
    for id in 0..300u64 {
        store.merge(vec![mk_tweet(id)], vec![mk_user(id)]);
    }
    assert_eq!(store.tweets().len(), 300);
    assert_eq!(store.users().len(), 300);
}

#[test]
fn page_targets_follow_the_skip_rules() {
    let entries = vec![
        Entry::Tweet(resolved("5")),
        Entry::Tweet(TweetResult::Tombstone),
        Entry::HomeConversation(vec![resolved("7"), TweetResult::Tombstone, resolved("9")]),
        Entry::HomeConversation(vec![resolved("8")]),
        Entry::HomeConversation(vec![resolved("6"), resolved("6")]),
        Entry::HomeConversation(vec![TweetResult::Tombstone, resolved("4")]),
        Entry::HomeConversation(vec![resolved("3"), TweetResult::Tombstone]),
        Entry::HomeConversation(Vec::new()),
        Entry::Cursor(Cursor { cursor_type: "Bottom".to_string(), value: "t".to_string() }),
    ];
    let page = UserTweetAndRepliesRequest {
        errors: Vec::new(),
        instructions: vec![
            Instruction::TimelinePinEntry,
            Instruction::TimelineAddEntries(TimelineAddEntry { entries }),
        ],
    };
    let targets = page_targets(&page);
    assert_eq!(
        targets,
        vec![
            ("5".to_string(), None),
            ("7".to_string(), Some("9".to_string())),
            ("8".to_string(), None),
            ("6".to_string(), None),
            ("3".to_string(), None),
        ]
    );
}

/// The whole single-page crawl: profile, no continuation cursor, expansion
/// of the first page's entries, dedup of the merged threads.
#[test]
fn single_page_crawl_expands_only_the_first_page() {
    // profile lookup: handle "alice", rest_id "42", ten tweets
    let lookup = UserRequest {
        errors: Vec::new(),
        result: LookupResult::Available(twtscrape::user::AvailableUser {
            rest_id: "42".to_string(),
            has_nft_avatar: false,
            is_blue_verified: false,
            legacy: twtscrape::user::Legacy {
                created: "Fri Oct 09 08:16:38 +0000 2015".to_string(),
                description: String::new(),
                favourites_count: 0,
                followers_count: 0,
                friends_count: 2,
                location: String::new(),
                media_count: 0,
                name: "Alice".to_string(),
                pinned_tweet_ids_str: Vec::new(),
                possibly_sensitive: false,
                profile_banner_url: String::new(),
                profile_image_url_https: String::new(),
                protected: false,
                screen_name: "alice".to_string(),
                statuses_count: 10,
                url: String::new(),
                verified: false,
            },
            birthday: None,
            professional: None,
            affiliation: None,
        }),
    };
    let profile = User::new(lookup, String::new()).unwrap();
    assert_eq!(profile.id, 42);

    // first page: two expandable entries, no bottom cursor
    let first_page = UserTweetAndRepliesRequest {
        errors: Vec::new(),
        instructions: vec![Instruction::TimelineAddEntries(TimelineAddEntry {
            entries: vec![
                Entry::Tweet(resolved("100")),
                Entry::HomeConversation(vec![resolved("200"), resolved("300")]),
            ],
        })],
    };
    assert_eq!(first_page.json_request_filter_errors(), Ok(()));
    // no continuation: the walker is never started
    assert_eq!(first_page.filter_cursor(), None);

    // a scripted thread expander: id -> (tweets, users) of the thread
    let expand = |id: &str| -> Result<(Vec<Tweet>, Vec<User>), ScrapeError> {
        match id {
            "100" => Ok((vec![mk_tweet(100)], vec![mk_user(42)])),
            "200" => Ok((vec![mk_tweet(200), mk_tweet(201)], vec![mk_user(42)])),
            "300" => Ok((vec![mk_tweet(300)], vec![mk_user(43)])),
            _ => Err(ScrapeError::BadShape),
        }
    };

    let mut store = UserTweetsAndReplies::with_capacity_for(&profile.profile_stats);
    for (first, second) in page_targets(&first_page) {
        match expand(&first) {
            Ok((tweets, users)) => store.merge(tweets, users),
            Err(_) => continue,
        }
        if let Some(second) = second {
            match expand(&second) {
                Ok((tweets, users)) => store.merge(tweets, users),
                Err(_) => continue,
            }
        }
    }

    let tweet_ids: Vec<u64> = store.tweets().iter().map(|t| t.id).collect();
    let user_ids: Vec<u64> = store.users().iter().map(|u| u.id).collect();
    assert_eq!(tweet_ids, vec![100, 200, 201, 300]);
    assert_eq!(user_ids, vec![42, 43]);
}

#[test]
fn a_failing_expansion_is_skipped_not_fatal() {
    let page = UserTweetAndRepliesRequest {
        errors: vec![ApiError { code: 37, message: "partial".to_string() }],
        instructions: vec![Instruction::TimelineAddEntries(TimelineAddEntry {
            entries: vec![Entry::Tweet(resolved("1")), Entry::Tweet(resolved("2"))],
        })],
    };
    assert_eq!(page.json_request_filter_errors(), Ok(()));
    let expand = |id: &str| -> Result<(Vec<Tweet>, Vec<User>), ScrapeError> {
        match id {
            "2" => Ok((vec![mk_tweet(2)], Vec::new())),
            _ => Err(ScrapeError::BadShape),
        }
    };
    let mut store = UserTweetsAndReplies::with_capacity_for(&stats(2, 0));
    for (first, _) in page_targets(&page) {
        if let Ok((tweets, users)) = expand(&first) {
            store.merge(tweets, users);
        }
    }
    let tweet_ids: Vec<u64> = store.tweets().iter().map(|t| t.id).collect();
    assert_eq!(tweet_ids, vec![2]);
}
