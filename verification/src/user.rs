//! The normalized profile snapshot and its builder: envelope check, the
//! "available user" requirement, identifier validation, join-timestamp
//! parsing, and the field mapping.

use vstd::prelude::*;
use vstd::string::*;
use crate::envelope::{filter_errors, spec_envelope_verdict, ApiError};
use crate::errors::ScrapeError;
use crate::strutil::{parse_u64, spec_parse_u64, str_eq};

verus! {

/// Profile images and the NFT-avatar flag.
#[derive(Clone, Debug, PartialEq, Eq)]
pub struct Avatar {
    pub url: String,
    pub banner: String,
    pub is_nft: bool,
}

/// The profile's two names.
#[derive(Clone, Debug, PartialEq, Eq)]
pub struct ProfileName {
    pub display: String,
    pub handle: String,
}

/// The profile's public counters and verification flags.
#[derive(Clone, Debug, PartialEq, Eq)]
pub struct ProfileStats {
    pub tweets: u32,
    pub following: u32,
    pub followers: u32,
    pub likes: u32,
    pub media_tweets: u32,
    pub verified: bool,
    pub blue_verified: bool,
}

/// An affiliation badge: its image, its link, and its description, verbatim.
#[derive(Clone, Debug, PartialEq, Eq)]
pub struct UserAffiliation {
    pub badge: String,
    pub url: String,
    pub description: String,
}

/// The professional block, passed through verbatim.
#[derive(Clone, Debug, PartialEq, Eq)]
pub struct Professional {
    pub rest_id: String,
    pub professional_type: String,
    pub category: Vec<ProfessionalCategory>,
}

#[derive(Clone, Debug, PartialEq, Eq)]
pub struct ProfessionalCategory {
    pub id: u64,
    pub name: String,
    pub icon_name: String,
}

/// A birthday from the extended-profile block: day and month only.
#[derive(Clone, Debug, PartialEq, Eq)]
pub struct Birthday {
    pub day: u8,
    pub month: u8,
}

/// The optional extras of a profile. The join instant is kept as Unix
/// seconds, as the fixed-format join timestamp parses to.
#[derive(Clone, Debug, PartialEq, Eq)]
pub struct ProfileAdditionalInfo {
    pub affiliation: Option<UserAffiliation>,
    pub profession: Option<Professional>,
    pub location: Option<String>,
    pub website: Option<String>,
    pub joined: i64,
    pub birthday: Option<Birthday>,
}

/// The normalized profile snapshot.
#[derive(Clone, Debug, PartialEq, Eq)]
pub struct User {
    pub id: u64,
    pub avatar: Avatar,
    pub name: ProfileName,
    pub profile_stats: ProfileStats,
    pub additional_info: ProfileAdditionalInfo,
    pub bio: String,
    pub pinned_tweet_id: Option<u64>,
    pub is_sensitive: bool,
    pub is_protected: bool,
}

/// The raw legacy block of a user-lookup response, as far as the snapshot
/// reads it.
#[derive(Clone, Debug, PartialEq, Eq)]
pub struct Legacy {
    pub created: String,
    pub description: String,
    pub favourites_count: u32,
    pub followers_count: u32,
    pub friends_count: u32,
    pub location: String,
    pub media_count: u32,
    pub name: String,
    pub pinned_tweet_ids_str: Vec<String>,
    pub possibly_sensitive: bool,
    pub profile_banner_url: String,
    pub profile_image_url_https: String,
    pub protected: bool,
    pub screen_name: String,
    pub statuses_count: u32,
    pub url: String,
    pub verified: bool,
}

/// The "available user" payload of a user-lookup response.
#[derive(Clone, Debug, PartialEq, Eq)]
pub struct AvailableUser {
    pub rest_id: String,
    pub has_nft_avatar: bool,
    pub is_blue_verified: bool,
    pub legacy: Legacy,
    pub birthday: Option<Birthday>,
    pub professional: Option<Professional>,
    pub affiliation: Option<UserAffiliation>,
}

/// The result variant of a user lookup: the user, or the unavailable
/// placeholder.
#[derive(Clone, Debug, PartialEq, Eq)]
pub enum LookupResult {
    Available(AvailableUser),
    Unavailable,
}

/// A decoded user-lookup response: its envelope error list and its result.
#[derive(Clone, Debug, PartialEq, Eq)]
pub struct UserRequest {
    pub errors: Vec<ApiError>,
    pub result: LookupResult,
}

/// What parsing the join timestamp yields, as Unix seconds. The platform's
/// fixed format is "%a %b %d %T %z %Y" (e.g. "Fri Oct 09 08:16:38 +0000
/// 2015").
pub uninterp spec fn parsed_join_date(s: Seq<char>) -> Option<i64>;

/// Relies on chrono's DateTime::parse_from_str with the fixed join-date
/// format "%a %b %d %T %z %Y", and on DateTime::timestamp, which converts
/// the parsed instant to Unix seconds; both depend on the input string
/// alone.
#[verifier::external_body]
fn parse_join_date(s: &str) -> (r: Option<i64>)
    ensures
        r == parsed_join_date(s@),
{
    match chrono::DateTime::parse_from_str(s, "%a %b %d %T %z %Y") {
        Ok(dt) => Some(dt.timestamp()),
        Err(_) => None,
    }
}

/// An empty string becomes an absent value.
pub open spec fn spec_opt_non_empty(s: String) -> Option<String> {
    if s@.len() == 0 {
        None
    } else {
        Some(s)
    }
}

fn opt_non_empty(s: String) -> (r: Option<String>)
    ensures
        r == spec_opt_non_empty(s),
{
    if s.as_str().unicode_len() == 0 {
        None
    } else {
        Some(s)
    }
}

/// An empty or "0" location becomes an absent value.
pub open spec fn spec_opt_location(s: String) -> Option<String> {
    if s@.len() == 0 || s@ == "0"@ {
        None
    } else {
        Some(s)
    }
}

fn opt_location(s: String) -> (r: Option<String>)
    ensures
        r == spec_opt_location(s),
{
    if s.as_str().unicode_len() == 0 || str_eq(s.as_str(), "0") {
        None
    } else {
        Some(s)
    }
}

/// The snapshot an available user maps to, given the resolved website and
/// the parsed join instant.
pub open spec fn spec_snapshot(u: AvailableUser, website: String, joined: i64) -> User {
    User {
        id: spec_parse_u64(u.rest_id@).unwrap(),
        avatar: Avatar {
            url: u.legacy.profile_image_url_https,
            banner: u.legacy.profile_banner_url,
            is_nft: u.has_nft_avatar,
        },
        name: ProfileName { display: u.legacy.screen_name, handle: u.legacy.name },
        profile_stats: ProfileStats {
            tweets: u.legacy.statuses_count,
            following: u.legacy.friends_count,
            followers: u.legacy.followers_count,
            likes: u.legacy.favourites_count,
            media_tweets: u.legacy.media_count,
            verified: u.legacy.verified,
            blue_verified: u.is_blue_verified,
        },
        additional_info: ProfileAdditionalInfo {
            affiliation: u.affiliation,
            profession: u.professional,
            location: spec_opt_location(u.legacy.location),
            website: spec_opt_non_empty(website),
            joined,
            birthday: u.birthday,
        },
        bio: u.legacy.description,
        pinned_tweet_id: if u.legacy.pinned_tweet_ids_str@.len() == 0 {
            None
        } else {
            spec_parse_u64(u.legacy.pinned_tweet_ids_str@[0]@)
        },
        is_sensitive: u.legacy.possibly_sensitive,
        is_protected: u.legacy.protected,
    }
}

impl User {
    /// Build the normalized snapshot from a decoded lookup response and the
    /// website its declared URL resolved to. Succeeds exactly when the
    /// envelope is usable, the result is an available user, the `rest_id`
    /// is a non-empty, non-"0" numeric identifier, and the join timestamp
    /// parses; each failure carries its own error.
    pub fn new(req: UserRequest, resolved_website: String) -> (r: Result<User, ScrapeError>)
        ensures
            ({
                match spec_envelope_verdict(req.errors@) {
                    Err(e) => r == Err::<User, ScrapeError>(e),
                    Ok(_) => match req.result {
                        LookupResult::Unavailable => r == Err::<User, ScrapeError>(
                            ScrapeError::UserResultError,
                        ),
                        LookupResult::Available(u) => if u.rest_id@.len() == 0 || u.rest_id@
                            == "0"@ || spec_parse_u64(u.rest_id@) is None {
                            r == Err::<User, ScrapeError>(ScrapeError::TwitterBadRestId(u.rest_id))
                        } else {
                            match parsed_join_date(u.legacy.created@) {
                                None => r == Err::<User, ScrapeError>(
                                    ScrapeError::TwitterBadTimeParse(u.legacy.created),
                                ),
                                Some(j) => r == Ok::<User, ScrapeError>(
                                    spec_snapshot(u, resolved_website, j),
                                ),
                            }
                        },
                    },
                }
            }),
    {
        match filter_errors(&req.errors) {
            Err(e) => {
                return Err(e);
            }
            Ok(_) => {}
        }
        let user = match req.result {
            LookupResult::Unavailable => {
                return Err(ScrapeError::UserResultError);
            }
            LookupResult::Available(u) => u,
        };
        if user.rest_id.as_str().unicode_len() == 0 || str_eq(user.rest_id.as_str(), "0") {
            return Err(ScrapeError::TwitterBadRestId(user.rest_id));
        }
        let id = match parse_u64(user.rest_id.as_str()) {
            Some(v) => v,
            None => {
                return Err(ScrapeError::TwitterBadRestId(user.rest_id));
            }
        };
        let joined = match parse_join_date(user.legacy.created.as_str()) {
            Some(j) => j,
            None => {
                return Err(ScrapeError::TwitterBadTimeParse(user.legacy.created));
            }
        };
        let pinned = if user.legacy.pinned_tweet_ids_str.len() == 0 {
            None
        } else {
            parse_u64(user.legacy.pinned_tweet_ids_str[0].as_str())
        };
        Ok(User {
            id,
            avatar: Avatar {
                url: user.legacy.profile_image_url_https,
                banner: user.legacy.profile_banner_url,
                is_nft: user.has_nft_avatar,
            },
            name: ProfileName { display: user.legacy.screen_name, handle: user.legacy.name },
            profile_stats: ProfileStats {
                tweets: user.legacy.statuses_count,
                following: user.legacy.friends_count,
                followers: user.legacy.followers_count,
                likes: user.legacy.favourites_count,
                media_tweets: user.legacy.media_count,
                verified: user.legacy.verified,
                blue_verified: user.is_blue_verified,
            },
            additional_info: ProfileAdditionalInfo {
                affiliation: user.affiliation,
                profession: user.professional,
                location: opt_location(user.legacy.location),
                website: opt_non_empty(resolved_website),
                joined,
                birthday: user.birthday,
            },
            bio: user.legacy.description,
            pinned_tweet_id: pinned,
            is_sensitive: user.legacy.possibly_sensitive,
            is_protected: user.legacy.protected,
        })
    }
}

/// The user-lookup request URL for one handle: the fixed query id, the
/// screen name, and the fixed feature toggles.
pub open spec fn spec_handle_url(handle: Seq<char>) -> Seq<char> {
    "https://twitter.com/i/api/graphql/ptQPCD7NrFS_TW71Lq07nw/UserByScreenName?variables%3D%7B%22screen_name%22%3A%22"@
        + handle
        + "%22%2C%22withSafetyModeUserFields%22%3Atrue%2C%22withSuperFollowsUserFields%22%3Atrue%7D%26features%3D%7B%22responsive_web_twitter_blue_verified_badge_is_enabled%22%3Atrue%2C%22verified_phone_label_enabled%22%3Afalse%2C%22responsive_web_graphql_timeline_navigation_enabled%22%3Atrue%7D"@
}

/// Build the user-lookup request URL, exactly as `spec_handle_url` says.
pub fn twitter_request_url_handle(handle: &str) -> (r: String)
    ensures
        r@ == spec_handle_url(handle@),
{
    let mut s = String::from_str(
        "https://twitter.com/i/api/graphql/ptQPCD7NrFS_TW71Lq07nw/UserByScreenName?variables%3D%7B%22screen_name%22%3A%22",
    );
    s.append(handle);
    s.append(
        "%22%2C%22withSafetyModeUserFields%22%3Atrue%2C%22withSuperFollowsUserFields%22%3Atrue%7D%26features%3D%7B%22responsive_web_twitter_blue_verified_badge_is_enabled%22%3Atrue%2C%22verified_phone_label_enabled%22%3Afalse%2C%22responsive_web_graphql_timeline_navigation_enabled%22%3Atrue%7D",
    );
    proof {
        assert(s@ =~= spec_handle_url(handle@));
    }
    s
}

} // verus!
