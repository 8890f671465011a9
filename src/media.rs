use vstd::prelude::*;

verus! {

/// The three kinds of title that the upstream service knows.
#[derive(Debug, Clone, Copy, PartialEq, Eq, Structural)]
pub enum MediaType {
    Movie,
    Series,
    Episode,
}

/// The wire name of each kind, as the upstream service writes it.
pub open spec fn wire_name_of(t: MediaType) -> Seq<char> {
    match t {
        MediaType::Movie => "movie"@,
        MediaType::Series => "series"@,
        MediaType::Episode => "episode"@,
    }
}

/// The kind whose wire name is `s`, if any.
pub open spec fn media_type_named(s: Seq<char>) -> Option<MediaType> {
    if s == "movie"@ {
        Some(MediaType::Movie)
    } else if s == "series"@ {
        Some(MediaType::Series)
    } else if s == "episode"@ {
        Some(MediaType::Episode)
    } else {
        None
    }
}

impl MediaType {
    /// The wire name of this kind.
    pub fn wire_name(&self) -> (r: String)
        ensures
            r@ == wire_name_of(*self),
    {
        match self {
            MediaType::Movie => String::from_str("movie"),
            MediaType::Series => String::from_str("series"),
            MediaType::Episode => String::from_str("episode"),
        }
    }

    /// The kind with the wire name `s`; `None` for any other text.
    pub fn from_wire(s: &str) -> (r: Option<MediaType>)
        ensures
            r == media_type_named(s@),
    {
        let s = String::from_str(s);
        if s == String::from_str("movie") {
            Some(MediaType::Movie)
        } else if s == String::from_str("series") {
            Some(MediaType::Series)
        } else if s == String::from_str("episode") {
            Some(MediaType::Episode)
        } else {
            None
        }
    }
}

/// The names are pairwise distinct, so the table reads both ways: the name of
/// a kind leads back to that kind, and a name that is recognised is the name
/// of the kind it gives.
pub proof fn lemma_wire_names_round_trip(t: MediaType, s: Seq<char>)
    ensures
        media_type_named(wire_name_of(t)) == Some(t),
        media_type_named(s) == Some(t) ==> s == wire_name_of(t),
{
    reveal_strlit("movie");
    reveal_strlit("series");
    reveal_strlit("episode");
    assert("movie"@ != "series"@ && "movie"@ != "episode"@ && "series"@ != "episode"@) by {
        assert("movie"@.len() != "series"@.len());
        assert("movie"@.len() != "episode"@.len());
        assert("series"@.len() != "episode"@.len());
    }
}

/// One match of an upstream search.
#[derive(Debug, Clone, PartialEq, Eq)]
pub struct OMDSearchResultMedia {
    pub title: String,
    pub year: String,
    pub imdb_id: String,
    pub type_: MediaType,
    pub poster: String,
}

/// The upstream's answer to a search: its matches, its count of all matches,
/// and its own success flag (`"True"` or `"False"`).
#[derive(Debug, Clone)]
pub struct OMDSearchResult {
    pub search: Vec<OMDSearchResultMedia>,
    pub total_results: String,
    pub response: String,
}

/// The parameters of an upstream search. Absent fields are left out of the
/// query altogether.
#[derive(Debug, Clone)]
pub struct OMDSearchParams {
    /// Title to search for.
    pub search: String,
    /// Kind of title to return.
    pub type_: Option<MediaType>,
    /// Year of release.
    pub year: Option<String>,
    /// Page of the results to return.
    pub page: Option<u8>,
    /// Version of the upstream interface.
    pub version: Option<u8>,
}

impl OMDSearchParams {
    /// A search for `search`, of the kind `media_type` if one is given, with
    /// no year, page or version.
    pub fn new(search: String, media_type: Option<MediaType>) -> (r: OMDSearchParams)
        ensures
            r.search@ == search@,
            r.type_ == media_type,
            r.year is None,
            r.page is None,
            r.version is None,
    {
        OMDSearchParams { search, type_: media_type, year: None, page: None, version: None }
    }
}

} // verus!
