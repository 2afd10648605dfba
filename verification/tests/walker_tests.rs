use twtscrape::envelope::ApiError;
use twtscrape::errors::ScrapeError;
use twtscrape::timeline::{
    Cursor, Entry, Instruction, TimelineAddEntry, TweetResult, UserTweetAndRepliesRequest,
};
use twtscrape::walker::TimelineWalker;

fn page_with_cursor(tweet_id: &str, bottom: Option<&str>) -> UserTweetAndRepliesRequest {
    let mut entries = vec![Entry::Tweet(TweetResult::Resolved { rest_id: tweet_id.to_string() })];
    if let Some(value) = bottom {
        entries.push(Entry::Cursor(Cursor {
            cursor_type: "Bottom".to_string(),
            value: value.to_string(),
        }));
    }
    UserTweetAndRepliesRequest {
        errors: Vec::new(),
        instructions: vec![Instruction::TimelineAddEntries(TimelineAddEntry { entries })],
    }
}

/// Drive a walk over a scripted cursor-to-page mapping, counting fetches.
fn run_scripted(
    script: &[(&str, UserTweetAndRepliesRequest)],
    first_cursor: &str,
) -> (TimelineWalker, usize) {
    let mut walker = TimelineWalker::start(first_cursor.to_string());
    let mut fetches: usize = 0;
    loop {
        let cursor = walker.cursor.clone();
        let page = script
            .iter()
            .find(|(c, _)| *c == cursor)
            .map(|(_, p)| p.clone())
            .expect("the walker asked for a cursor outside the script");
        fetches += 1;
        match walker.feed(page) {
            Ok(true) => break,
            Ok(false) => {}
            Err(e) => panic!("unexpected walk abort: {:?}", e),
        }
    }
    (walker, fetches)
}

#[test]
fn linear_script_takes_one_fetch_per_page_plus_the_lookahead() {
    let p1 = page_with_cursor("1", Some("c2"));
    let p2 = page_with_cursor("2", Some("c3"));
    let p3 = page_with_cursor("3", None);
    let script = [("c1", p1.clone()), ("c2", p2.clone()), ("c3", p3.clone())];
    let (walker, fetches) = run_scripted(&script, "c1");
    // three scripted pages and exactly one lookahead re-fetch of the last
    assert_eq!(fetches, 4);
    // semantic-continuation order: latest fetch first
    assert_eq!(walker.pages, vec![p3.clone(), p3, p2, p1]);
}

#[test]
fn single_page_script_still_does_the_lookahead() {
    let p1 = page_with_cursor("1", None);
    let script = [("c1", p1.clone())];
    let (walker, fetches) = run_scripted(&script, "c1");
    assert_eq!(fetches, 2);
    assert_eq!(walker.pages, vec![p1.clone(), p1]);
}

#[test]
fn fatal_envelope_aborts_the_walk_and_keeps_the_state() {
    let mut walker = TimelineWalker::start("c1".to_string());
    let good = page_with_cursor("1", Some("c2"));
    assert_eq!(walker.feed(good), Ok(false));
    assert_eq!(walker.cursor, "c2");

    let mut bad = page_with_cursor("2", Some("c3"));
    bad.errors.push(ApiError { code: 88, message: "broken".to_string() });
    let err = walker.feed(bad).unwrap_err();
    assert_eq!(err, ScrapeError::TwitterJSONError(88, "broken".to_string()));
    assert_eq!(walker.cursor, "c2");
    assert_eq!(walker.pages.len(), 1);
    assert!(!walker.break_on_next);
}

#[test]
fn ignorable_envelope_code_keeps_the_page() {
    let mut walker = TimelineWalker::start("c1".to_string());
    let mut soft = page_with_cursor("1", None);
    soft.errors.push(ApiError { code: 37, message: "partial".to_string() });
    assert_eq!(walker.feed(soft), Ok(false));
    assert!(walker.break_on_next);
    assert_eq!(walker.pages.len(), 1);
}
