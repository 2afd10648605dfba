use twtscrape::envelope::{filter_errors, ApiError};
use twtscrape::errors::ScrapeError;
use twtscrape::json::JsonValue;
use twtscrape::timeline::{
    decode_entry, decode_instruction, twitter_request_url_user_tweet_and_replies, Cursor, Entry,
    Instruction, TimelineAddEntry, TweetResult, UserTweetAndRepliesRequest,
};

fn jstr(s: &str) -> JsonValue {
    JsonValue::Str(s.to_string())
}

fn obj(fields: Vec<(&str, JsonValue)>) -> JsonValue {
    JsonValue::Obj(fields.into_iter().map(|(k, v)| (k.to_string(), v)).collect())
}

fn tweet_results(rest_id: Option<&str>) -> JsonValue {
    let result = match rest_id {
        Some(id) => obj(vec![("__typename", jstr("Tweet")), ("rest_id", jstr(id))]),
        None => obj(vec![("__typename", jstr("TweetTombstone"))]),
    };
    obj(vec![("result", result)])
}

fn tweet_content(rest_id: Option<&str>) -> JsonValue {
    obj(vec![("itemContent", obj(vec![("tweet_results", tweet_results(rest_id))]))])
}

fn conversation_content(rest_ids: Vec<Option<&str>>) -> JsonValue {
    let items: Vec<JsonValue> = rest_ids
        .into_iter()
        .map(|id| obj(vec![("item", obj(vec![("tweet_results", tweet_results(id))]))]))
        .collect();
    obj(vec![("items", JsonValue::Arr(items))])
}

fn cursor_content(cursor_type: &str, value: &str) -> JsonValue {
    obj(vec![(
        "itemContent",
        obj(vec![("cursorType", jstr(cursor_type)), ("value", jstr(value))]),
    )])
}

fn fields(pairs: Vec<(&str, JsonValue)>) -> Vec<(String, JsonValue)> {
    pairs.into_iter().map(|(k, v)| (k.to_string(), v)).collect()
}

#[test]
fn envelope_filter_accepts_empty_and_ignorable_lists() {
    assert_eq!(filter_errors(&Vec::new()), Ok(()));
    let soft = vec![ApiError { code: 37, message: "partial".to_string() }];
    assert_eq!(filter_errors(&soft), Ok(()));
    let soft_then_hard = vec![
        ApiError { code: 37, message: "partial".to_string() },
        ApiError { code: 99, message: "later".to_string() },
    ];
    assert_eq!(filter_errors(&soft_then_hard), Ok(()));
}

#[test]
fn envelope_filter_reports_the_first_error_verbatim() {
    let hard = vec![
        ApiError { code: 99, message: "rate limited".to_string() },
        ApiError { code: 37, message: "partial".to_string() },
    ];
    assert_eq!(
        filter_errors(&hard),
        Err(ScrapeError::TwitterJSONError(99, "rate limited".to_string()))
    );
}

#[test]
fn tweet_entry_decodes_to_its_rest_id() {
    let entry = decode_entry(&fields(vec![
        ("entryId", jstr("tweet-77")),
        ("content", tweet_content(Some("77"))),
    ]))
    .unwrap();
    assert_eq!(entry, Entry::Tweet(TweetResult::Resolved { rest_id: "77".to_string() }));
}

#[test]
fn tombstone_tweet_entry_decodes_without_error() {
    let entry = decode_entry(&fields(vec![
        ("entryId", jstr("tweet-9")),
        ("content", tweet_content(None)),
    ]))
    .unwrap();
    assert_eq!(entry, Entry::Tweet(TweetResult::Tombstone));
}

#[test]
fn identifier_after_content_is_tolerated_by_neither_side() {
    let err = decode_entry(&fields(vec![
        ("content", tweet_content(Some("1"))),
        ("entryId", jstr("tweet-1")),
    ]))
    .unwrap_err();
    assert_eq!(err, ScrapeError::ContentBeforeId);
}

#[test]
fn sort_id_is_buffered_and_ignored() {
    let entry = decode_entry(&fields(vec![
        ("entryId", jstr("tweet-5")),
        ("sortId", jstr("5")),
        ("content", tweet_content(Some("5"))),
    ]))
    .unwrap();
    assert_eq!(entry, Entry::Tweet(TweetResult::Resolved { rest_id: "5".to_string() }));
}

#[test]
fn conversation_entry_decodes_all_items_in_order() {
    let entry = decode_entry(&fields(vec![
        ("entryId", jstr("homeConversation-1")),
        ("content", conversation_content(vec![Some("10"), None, Some("12")])),
    ]))
    .unwrap();
    assert_eq!(
        entry,
        Entry::HomeConversation(vec![
            TweetResult::Resolved { rest_id: "10".to_string() },
            TweetResult::Tombstone,
            TweetResult::Resolved { rest_id: "12".to_string() },
        ])
    );
}

#[test]
fn unknown_identifier_prefix_names_the_identifier() {
    let err = decode_entry(&fields(vec![
        ("entryId", jstr("weird-3")),
        ("content", tweet_content(Some("3"))),
    ]))
    .unwrap_err();
    assert_eq!(err, ScrapeError::UnknownEntryKind("weird-3".to_string()));
}

#[test]
fn unknown_field_names_the_field() {
    let err = decode_entry(&fields(vec![("surprise", jstr("x"))])).unwrap_err();
    assert_eq!(err, ScrapeError::UnknownField("surprise".to_string()));
}

#[test]
fn entry_without_content_is_missing_content() {
    let err = decode_entry(&fields(vec![("entryId", jstr("tweet-1"))])).unwrap_err();
    assert_eq!(err, ScrapeError::MissingContent);
}

fn one_entry_page(entry: Entry) -> UserTweetAndRepliesRequest {
    UserTweetAndRepliesRequest {
        errors: Vec::new(),
        instructions: vec![
            Instruction::TimelineClearCache,
            Instruction::TimelineAddEntries(TimelineAddEntry { entries: vec![entry] }),
        ],
    }
}

#[test]
fn bottom_cursor_entry_is_found_by_the_lookup() {
    let entry = decode_entry(&fields(vec![
        ("entryId", jstr("cursor-bottom-1")),
        ("content", cursor_content("Bottom", "next-token")),
    ]))
    .unwrap();
    assert_eq!(
        entry,
        Entry::Cursor(Cursor { cursor_type: "Bottom".to_string(), value: "next-token".to_string() })
    );
    let page = one_entry_page(entry);
    assert_eq!(page.filter_cursor(), Some("next-token"));
}

#[test]
fn non_bottom_cursor_decodes_but_is_excluded_from_continuation() {
    let entry = decode_entry(&fields(vec![
        ("entryId", jstr("cursor-top-1")),
        ("content", cursor_content("Top", "prev-token")),
    ]))
    .unwrap();
    assert_eq!(
        entry,
        Entry::Cursor(Cursor { cursor_type: "Top".to_string(), value: "prev-token".to_string() })
    );
    let page = one_entry_page(entry);
    assert_eq!(page.filter_cursor(), None);
}

#[test]
fn instructions_decode_by_their_type_tag() {
    assert_eq!(
        decode_instruction(&obj(vec![("type", jstr("TimelineClearCache"))])),
        Ok(Instruction::TimelineClearCache)
    );
    assert_eq!(
        decode_instruction(&obj(vec![("type", jstr("TimelinePinEntry"))])),
        Ok(Instruction::TimelinePinEntry)
    );
    let add = decode_instruction(&obj(vec![
        ("type", jstr("TimelineAddEntries")),
        (
            "entries",
            JsonValue::Arr(vec![obj(vec![
                ("entryId", jstr("tweet-44")),
                ("content", tweet_content(Some("44"))),
            ])]),
        ),
    ]))
    .unwrap();
    assert_eq!(
        add,
        Instruction::TimelineAddEntries(TimelineAddEntry {
            entries: vec![Entry::Tweet(TweetResult::Resolved { rest_id: "44".to_string() })],
        })
    );
    assert_eq!(
        decode_instruction(&obj(vec![("type", jstr("TimelineWhatever"))])),
        Err(ScrapeError::BadShape)
    );
}

#[test]
fn timeline_url_without_cursor_is_built_verbatim() {
    let url = twitter_request_url_user_tweet_and_replies(42, None);
    let expected = format!(
        "{}{}{}{}",
        "https://twitter.com/i/api/graphql/s0hG9oAmWEYVBqOLJP-TBQ/UserTweetsAndReplies?variables=%7B%22userId%22%3A%22",
        "42",
        "%22%2C%22count%22%3A40%2C",
        "%22includePromotedContent%22%3Afalse%2C%22withCommunity%22%3Atrue%2C%22withSuperFollowsUserFields%22%3Atrue%2C%22withDownvotePerspective%22%3Afalse%2C%22withReactionsMetadata%22%3Afalse%2C%22withReactionsPerspective%22%3Afalse%2C%22withSuperFollowsTweetFields%22%3Atrue%2C%22withVoice%22%3Atrue%2C%22withV2Timeline%22%3Atrue%7D&features=%7B%22responsive_web_twitter_blue_verified_badge_is_enabled%22%3Atrue%2C%22verified_phone_label_enabled%22%3Afalse%2C%22responsive_web_graphql_timeline_navigation_enabled%22%3Atrue%2C%22unified_cards_ad_metadata_container_dynamic_card_content_query_enabled%22%3Atrue%2C%22tweetypie_unmention_optimization_enabled%22%3Atrue%2C%22responsive_web_uc_gql_enabled%22%3Atrue%2C%22vibe_api_enabled%22%3Atrue%2C%22responsive_web_edit_tweet_api_enabled%22%3Atrue%2C%22graphql_is_translatable_rweb_tweet_is_translatable_enabled%22%3Atrue%2C%22standardized_nudges_misinfo%22%3Atrue%2C%22tweet_with_visibility_results_prefer_gql_limited_actions_policy_enabled%22%3Afalse%2C%22interactive_text_enabled%22%3Atrue%2C%22responsive_web_text_conversations_enabled%22%3Afalse%2C%22responsive_web_enhance_cards_enabled%22%3Atrue%7D",
    );
    assert_eq!(url, expected);
}

#[test]
fn timeline_url_percent_encodes_the_cursor() {
    let url = twitter_request_url_user_tweet_and_replies(7, Some("a+b c/d"));
    assert!(url.contains("%22cursor%22%3A%22a%2Bb%20c%2Fd%22%2C"));
    let unencoded = twitter_request_url_user_tweet_and_replies(7, Some("plain"));
    assert!(unencoded.contains("%22cursor%22%3A%22plain%22%2C"));
}
