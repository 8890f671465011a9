use vstd::prelude::*;
use crate::media::{MediaType, OMDSearchParams, wire_name_of};

verus! {

/// Where the upstream service lives and the key it is called with.
#[derive(Debug, Clone)]
pub struct UpstreamConfig {
    /// Address of the service, without a query string.
    pub base_url: String,
    pub api_key: String,
}

/// Keys and values of a query, as text.
pub open spec fn pair_views(pairs: Seq<(String, String)>) -> Seq<(Seq<char>, Seq<char>)> {
    pairs.map_values(|p: (String, String)| (p.0@, p.1@))
}

/// The `application/x-www-form-urlencoded` text of a sequence of pairs.
pub uninterp spec fn form_encoded(pairs: Seq<(Seq<char>, Seq<char>)>) -> Seq<char>;

/// Relies on `serde_urlencoded::to_string` to encode a sequence of
/// `(String, String)` pairs in order. Such a sequence cannot fail there: each
/// element is a two-field tuple whose key and value are strings, which the
/// pair serializer accepts, so the error arm is never taken.
#[verifier::external_body]
fn encode_pairs(pairs: &Vec<(String, String)>) -> (r: String)
    ensures
        r@ == form_encoded(pair_views(pairs@)),
{
    serde_urlencoded::to_string(pairs).unwrap_or_default()
}

/// The digit `d`, as text.
pub open spec fn digit(d: nat) -> Seq<char> {
    "0123456789"@.subrange(d as int, d as int + 1)
}

/// The decimal digits of `n`, most significant first, without leading zeros.
pub open spec fn decimal(n: nat) -> Seq<char>
    decreases n,
{
    if n < 10 {
        digit(n)
    } else {
        decimal(n / 10) + digit(n % 10)
    }
}

fn digit_text(d: u8) -> (r: &'static str)
    requires
        d < 10,
    ensures
        r@ == digit(d as nat),
{
    proof {
        reveal_strlit("0123456789");
    }
    "0123456789".substring_char(d as usize, d as usize + 1)
}

fn decimal_text(n: u8) -> (r: String)
    ensures
        r@ == decimal(n as nat),
{
    let mut s = String::new();
    if n >= 100 {
        s.append(digit_text(n / 100));
    }
    if n >= 10 {
        s.append(digit_text((n / 10) % 10));
    }
    s.append(digit_text(n % 10));
    proof {
        reveal_with_fuel(decimal, 3);
        let m = n as nat;
        if m >= 100 {
            assert(m / 10 / 10 == m / 100);
            assert((m / 10) / 10 < 10);
            assert(decimal(m / 10) == decimal(m / 100) + digit((m / 10) % 10));
        }
        assert(s@ =~= decimal(m));
    }
    s
}

/// A pair `(key, v)` where a value `v` is present, nothing where it is not.
pub open spec fn optional_pair(key: Seq<char>, value: Option<Seq<char>>) -> Seq<(Seq<char>, Seq<char>)> {
    match value {
        Some(v) => seq![(key, v)],
        None => seq![],
    }
}

pub open spec fn type_value(t: Option<MediaType>) -> Option<Seq<char>> {
    match t {
        Some(t) => Some(wire_name_of(t)),
        None => None,
    }
}

/// A year is sent only when it is given and not empty.
pub open spec fn year_value(year: Option<String>) -> Option<Seq<char>> {
    match year {
        Some(y) => if y@.len() > 0 { Some(y@) } else { None },
        None => None,
    }
}

pub open spec fn number_value(n: Option<u8>) -> Option<Seq<char>> {
    match n {
        Some(n) => Some(decimal(n as nat)),
        None => None,
    }
}

/// The query sent upstream: the key and the search term always, then each
/// optional parameter that is present, in a fixed order. No parameter is
/// ever sent with an empty value in place of an absent one.
pub open spec fn query_pairs(api_key: Seq<char>, p: OMDSearchParams) -> Seq<(Seq<char>, Seq<char>)> {
    seq![("apikey"@, api_key), ("s"@, p.search@)]
        + optional_pair("type"@, type_value(p.type_))
        + optional_pair("y"@, year_value(p.year))
        + optional_pair("page"@, number_value(p.page))
        + optional_pair("v"@, number_value(p.version))
}

/// The address of the upstream search for `params`.
pub open spec fn search_url_of(config: UpstreamConfig, params: OMDSearchParams) -> Seq<char> {
    config.base_url@ + "?"@ + form_encoded(query_pairs(config.api_key@, params))
}

fn push_pair(pairs: &mut Vec<(String, String)>, key: &str, value: String)
    ensures
        pair_views(final(pairs)@) == pair_views(old(pairs)@).push((key@, value@)),
{
    pairs.push((String::from_str(key), value));
    assert(pair_views(pairs@) =~= pair_views(old(pairs)@).push((key@, value@)));
}

fn push_optional(pairs: &mut Vec<(String, String)>, key: &str, value: Option<String>)
    ensures
        pair_views(final(pairs)@) == pair_views(old(pairs)@) + optional_pair(
            key@,
            match value {
                Some(v) => Some(v@),
                None => None,
            },
        ),
{
    match value {
        Some(v) => push_pair(pairs, key, v),
        None => {},
    }
    assert(pair_views(pairs@) =~= pair_views(old(pairs)@) + optional_pair(
        key@,
        match value {
            Some(v) => Some(v@),
            None => None,
        },
    ));
}

/// The pairs of the upstream query for `params`, called with `api_key`.
pub fn query_pairs_for(api_key: &String, params: &OMDSearchParams) -> (r: Vec<(String, String)>)
    ensures
        pair_views(r@) == query_pairs(api_key@, *params),
{
    let mut pairs: Vec<(String, String)> = Vec::new();
    push_pair(&mut pairs, "apikey", api_key.clone());
    push_pair(&mut pairs, "s", params.search.clone());
    let type_text = match params.type_ {
        Some(t) => Some(t.wire_name()),
        None => None,
    };
    push_optional(&mut pairs, "type", type_text);
    let year_text = match &params.year {
        Some(y) => if y.as_str().unicode_len() > 0 { Some(y.clone()) } else { None },
        None => None,
    };
    push_optional(&mut pairs, "y", year_text);
    let page_text = match params.page {
        Some(n) => Some(decimal_text(n)),
        None => None,
    };
    push_optional(&mut pairs, "page", page_text);
    let version_text = match params.version {
        Some(n) => Some(decimal_text(n)),
        None => None,
    };
    push_optional(&mut pairs, "v", version_text);
    assert(pair_views(pairs@) =~= query_pairs(api_key@, *params));
    pairs
}

/// The address of the upstream search for `params`: the base address, `?`,
/// then the encoded query.
pub fn search_url(config: &UpstreamConfig, params: &OMDSearchParams) -> (r: String)
    ensures
        r@ == search_url_of(*config, *params),
{
    let pairs = query_pairs_for(&config.api_key, params);
    let encoded = encode_pairs(&pairs);
    let mut url = config.base_url.clone();
    url.append("?");
    url.append(encoded.as_str());
    url
}

} // verus!
