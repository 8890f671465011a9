use vstd::prelude::*;
use crate::media::{MediaType, OMDSearchParams, OMDSearchResult, OMDSearchResultMedia, wire_name_of};
use crate::query::{UpstreamConfig, form_encoded, search_url};
use crate::upstream::{FetchError, found_media, search_outcome, status_check, is_success_status};

verus! {

/// The status of every reply of the local service.
pub const OK_STATUS: u16 = 200;

/// A reply with a JSON list of matches.
#[derive(Debug, Clone, PartialEq, Eq)]
pub struct SearchReply {
    pub status: u16,
    pub media: Vec<OMDSearchResultMedia>,
}

/// A reply with a plain text body.
#[derive(Debug, Clone, PartialEq, Eq)]
pub struct TextReply {
    pub status: u16,
    pub body: String,
}

/// The reply to `GET /`: a fixed acknowledgement, whatever the state of the
/// upstream service.
pub fn root_reply() -> (r: TextReply)
    ensures
        r.status == OK_STATUS,
        r.body@ == "Hello world"@,
{
    TextReply { status: OK_STATUS, body: String::from_str("Hello world") }
}

/// The `query` parameter as the handler reads it: an empty value counts as
/// no value.
pub open spec fn nonempty_query(value: Option<String>) -> Option<String> {
    match value {
        Some(s) => if s@.len() == 0 {
            None
        } else {
            Some(s)
        },
        None => None,
    }
}

/// The search term of a request: the `query` parameter, or the empty term
/// where it is absent or empty.
pub open spec fn term_of(query: Option<String>) -> Seq<char> {
    match query {
        Some(s) => s@,
        None => seq![],
    }
}

pub fn empty_string_as_none(value: Option<String>) -> (r: Option<String>)
    ensures
        r == nonempty_query(value),
{
    match value {
        Some(s) => if s.as_str().unicode_len() == 0 {
            None
        } else {
            Some(s)
        },
        None => None,
    }
}

pub fn search_term(query: Option<String>) -> (r: String)
    ensures
        r@ == term_of(query),
{
    match empty_string_as_none(query) {
        Some(s) => s,
        None => String::new(),
    }
}

/// The upstream search that a request makes: its term, always restricted to
/// movies.
pub fn search_params(query: Option<String>) -> (r: OMDSearchParams)
    ensures
        r.search@ == term_of(query),
        r.type_ == Some(MediaType::Movie),
        r.year is None,
        r.page is None,
        r.version is None,
{
    OMDSearchParams::new(search_term(query), Some(MediaType::Movie))
}

/// The upstream query of a request with `query`: the key, the term and the
/// movie filter, nothing else.
pub open spec fn request_url_of(config: UpstreamConfig, query: Option<String>) -> Seq<char> {
    config.base_url@ + "?"@ + form_encoded(
        seq![
            ("apikey"@, config.api_key@),
            ("s"@, term_of(query)),
            ("type"@, wire_name_of(MediaType::Movie)),
        ],
    )
}

/// The address that a request with `query` fetches upstream.
pub fn request_url(config: &UpstreamConfig, query: Option<String>) -> (r: String)
    ensures
        r@ == request_url_of(*config, query),
{
    let params = search_params(query);
    let url = search_url(config, &params);
    assert(crate::query::query_pairs(config.api_key@, params) =~= seq![
        ("apikey"@, config.api_key@),
        ("s"@, term_of(query)),
        ("type"@, wire_name_of(MediaType::Movie)),
    ]);
    url
}

/// The matches that the local reply lists for an upstream call that ended
/// in `fetched`.
pub open spec fn reply_media(fetched: Result<OMDSearchResult, FetchError>) -> Seq<OMDSearchResultMedia> {
    match found_media(fetched) {
        Some(media) => media,
        None => seq![],
    }
}

/// The reply to `GET /search` once the upstream call has ended in
/// `fetched`: always a success, with the matches or an empty list.
pub fn search_reply(fetched: Result<OMDSearchResult, FetchError>) -> (r: SearchReply)
    ensures
        r.status == OK_STATUS,
        r.media@ == reply_media(fetched),
{
    let media = match search_outcome(fetched) {
        Some(media) => media,
        None => Vec::new(),
    };
    SearchReply { status: OK_STATUS, media }
}

/// When the upstream flags its answer as found, the reply lists exactly its
/// matches, in its order, none left out.
pub proof fn lemma_found_media_listed_verbatim(result: OMDSearchResult)
    requires
        result.response@ == "True"@,
    ensures
        reply_media(Ok(result)) == result.search@,
{
}

/// When the upstream's flag says anything but found, the reply lists nothing,
/// whatever the other fields hold.
pub proof fn lemma_not_found_lists_nothing(result: OMDSearchResult)
    requires
        result.response@ != "True"@,
    ensures
        reply_media(Ok(result)) == Seq::<OMDSearchResultMedia>::empty(),
{
}

/// An upstream answer whose status is not a success stops the call with
/// that status, and the reply lists nothing.
pub proof fn lemma_failed_status_lists_nothing(code: u16)
    requires
        !is_success_status(code),
    ensures
        status_check(code) == Err::<(), FetchError>(FetchError::Status(code)),
        reply_media(Err(FetchError::Status(code))) == Seq::<OMDSearchResultMedia>::empty(),
{
}

/// Any failed upstream call, a body that is not a search result among them,
/// leaves the reply with nothing listed.
pub proof fn lemma_failed_call_lists_nothing(error: FetchError)
    ensures
        reply_media(Err(error)) == Seq::<OMDSearchResultMedia>::empty(),
{
}

/// A request without `query` is the same request as one with an empty
/// `query`: same term, same upstream address.
pub proof fn lemma_absent_query_is_empty_query(config: UpstreamConfig, empty: String)
    requires
        empty@.len() == 0,
    ensures
        term_of(nonempty_query(None)) == term_of(nonempty_query(Some(empty))),
        request_url_of(config, None) == request_url_of(config, Some(empty)),
{
    assert(term_of(Some(empty)) =~= term_of(None));
}

} // verus!
