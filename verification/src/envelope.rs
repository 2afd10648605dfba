//! The response envelope's error list and its soft-error filter: the
//! platform's designated ignorable code leaves a response usable, any other
//! first code is fatal.

use vstd::prelude::*;
use crate::errors::ScrapeError;
use crate::TWITTER_IGNORE_ERROR_CODE;

verus! {

/// One (code, message) item of a response envelope's error list.
#[derive(Clone, Debug, PartialEq, Eq)]
pub struct ApiError {
    pub code: i32,
    pub message: String,
}

/// The verdict on an envelope's error list: usable when the list is empty or
/// its first code is the ignorable one, otherwise the first error verbatim.
pub open spec fn spec_envelope_verdict(errors: Seq<ApiError>) -> Result<(), ScrapeError> {
    if errors.len() == 0 {
        Ok(())
    } else if errors[0].code == TWITTER_IGNORE_ERROR_CODE {
        Ok(())
    } else {
        Err(ScrapeError::TwitterJSONError(errors[0].code, errors[0].message))
    }
}

/// Classify an envelope's error list, exactly as `spec_envelope_verdict`
/// says.
pub fn filter_errors(errors: &Vec<ApiError>) -> (r: Result<(), ScrapeError>)
    ensures
        r == spec_envelope_verdict(errors@),
{
    if errors.len() > 0 {
        let first = &errors[0];
        if first.code != TWITTER_IGNORE_ERROR_CODE {
            return Err(ScrapeError::TwitterJSONError(first.code, first.message.clone()));
        }
    }
    Ok(())
}

} // verus!
