use vstd::prelude::*;
use crate::media::{OMDSearchResult, OMDSearchResultMedia};

verus! {

/// Why a call to the upstream service gave no usable answer.
#[derive(Debug, Clone, Copy, PartialEq, Eq, Structural)]
pub enum FetchError {
    /// The request could not be sent or its answer not read.
    Transport,
    /// The service answered with this status, which is not a success.
    Status(u16),
    /// The body is not a search result.
    Malformed,
}

/// An HTTP status in the success class, `200` to `299`.
pub open spec fn is_success_status(code: u16) -> bool {
    200 <= code && code < 300
}

pub fn status_is_success(code: u16) -> (r: bool)
    ensures
        r == is_success_status(code),
{
    200 <= code && code < 300
}

/// What the status of the upstream's answer decides: go on and read the body
/// after a success, stop with the status otherwise.
pub open spec fn status_check(code: u16) -> Result<(), FetchError> {
    if is_success_status(code) {
        Ok(())
    } else {
        Err(FetchError::Status(code))
    }
}

pub fn check_status(code: u16) -> (r: Result<(), FetchError>)
    ensures
        r == status_check(code),
{
    if status_is_success(code) {
        Ok(())
    } else {
        Err(FetchError::Status(code))
    }
}

/// The upstream's own flag says that it found something.
pub open spec fn is_found(result: OMDSearchResult) -> bool {
    result.response@ == "True"@
}

/// The matches of a search: the upstream's list, untouched, when the call
/// succeeded and the flag says found; nothing otherwise.
pub open spec fn found_media(fetched: Result<OMDSearchResult, FetchError>) -> Option<Seq<OMDSearchResultMedia>> {
    match fetched {
        Ok(result) => if is_found(result) {
            Some(result.search@)
        } else {
            None
        },
        Err(_) => None,
    }
}

/// The matches of a finished upstream call, as `found_media` describes them.
pub fn search_outcome(fetched: Result<OMDSearchResult, FetchError>) -> (r: Option<Vec<OMDSearchResultMedia>>)
    ensures
        r is Some <==> found_media(fetched) is Some,
        r is Some ==> r->0@ == found_media(fetched)->0,
{
    match fetched {
        Ok(result) => {
            if result.response == String::from_str("True") {
                Some(result.search)
            } else {
                None
            }
        },
        Err(_) => None,
    }
}

} // verus!
