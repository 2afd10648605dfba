//! Error taxonomy of the crawl engine.

use vstd::prelude::*;

verus! {

/// Everything that can go wrong while building a profile snapshot or
/// decoding a timeline page.
#[derive(Clone, Debug, PartialEq, Eq)]
pub enum ScrapeError {
    /// The response envelope carried a fatal error: its code and message,
    /// verbatim.
    TwitterJSONError(i32, String),
    /// The `rest_id` was empty, the sentinel `"0"`, or not numeric; the
    /// offending identifier is carried verbatim.
    TwitterBadRestId(String),
    /// The join timestamp did not match the fixed format; carries the
    /// rejected timestamp string.
    TwitterBadTimeParse(String),
    /// The user lookup returned the "unavailable" variant where an
    /// available user was required.
    UserResultError,
    /// A timeline-entry object held a field other than the three known ones;
    /// carries the field name.
    UnknownField(String),
    /// A timeline-entry identifier had none of the recognized prefixes;
    /// carries the identifier.
    UnknownEntryKind(String),
    /// A timeline-entry object ended without a content field.
    MissingContent,
    /// A timeline-entry object presented its content before any identifier
    /// was recorded, so no variant could be chosen.
    ContentBeforeId,
    /// A content payload did not have the shape its variant requires.
    BadShape,
}

} // verus!
