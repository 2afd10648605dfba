//! Crawl engine for a social-media platform's internal GraphQL timeline API:
//! the response-envelope soft-error filter, the polymorphic timeline-entry
//! decoder, the cursor pagination walker, the cross-page dedup store, and the
//! profile snapshot builder.

pub mod crawl;
pub mod envelope;
pub mod errors;
pub mod json;
pub mod store;
pub mod strutil;
pub mod timeline;
pub mod user;
pub mod walker;

use vstd::prelude::*;

verus! {

/// The platform emits this error code for benign size/partial-result
/// conditions; a response carrying it is still usable.
pub const TWITTER_IGNORE_ERROR_CODE: i32 = 37;

} // verus!
