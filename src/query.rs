use vstd::prelude::*;
use vstd::string::*;

use itertools::Itertools;

verus! {

/// The parts joined into one text, `sep` between each two neighbours.
pub open spec fn joined(parts: Seq<Seq<char>>, sep: Seq<char>) -> Seq<char>
    decreases parts.len(),
{
    if parts.len() == 0 {
        Seq::empty()
    } else if parts.len() == 1 {
        parts[0]
    } else {
        joined(parts.drop_last(), sep) + sep + parts.last()
    }
}

/// `key=value`.
pub open spec fn pair_text(key: Seq<char>, value: Seq<char>) -> Seq<char> {
    key + seq!['='] + value
}

/// The query string of a parameter list: `k1=v1&k2=v2&...`, in list order,
/// with keys and values written as given.
pub open spec fn query_text(params: Seq<(String, String)>) -> Seq<char> {
    joined(params.map_values(|p: (String, String)| pair_text(p.0@, p.1@)), seq!['&'])
}

/// The address of an endpoint of the service's JSON API, with its query.
pub open spec fn uri_text(endpoint: Seq<char>, query: Seq<char>) -> Seq<char> {
    "http://voiceboxpdx.com/api/v1/"@ + endpoint + ".json?"@ + query
}

/// Relies on itertools' `Itertools::join`: the items' `Display` output (for a
/// `String`, its text) with `sep` between each two neighbours, and the empty
/// string for no items.
#[verifier::external_body]
fn join_with(parts: &Vec<String>, sep: &str) -> (r: String)
    ensures
        r@ == joined(parts@.map_values(|s: String| s@), sep@),
{
    parts.iter().join(sep)
}

/// `key=value` as a string.
pub fn pair_string(key: &str, value: &str) -> (r: String)
    ensures
        r@ == pair_text(key@, value@),
{
    let mut s = String::from_str(key);
    s.append("=");
    s.append(value);
    proof {
        reveal_strlit("=");
        assert("="@ =~= seq!['=']);
    }
    s
}

/// The query string of a parameter list.
pub fn query_string(params: &Vec<(String, String)>) -> (r: String)
    ensures
        r@ == query_text(params@),
{
    let mut parts: Vec<String> = Vec::new();
    let mut i: usize = 0;
    while i < params.len()
        invariant
            i <= params.len(),
            parts@.len() == i,
            forall|j: int| 0 <= j < i ==> (#[trigger] parts@[j])@ == pair_text(params@[j].0@, params@[j].1@),
        decreases params.len() - i,
    {
        let s = pair_string(params[i].0.as_str(), params[i].1.as_str());
        parts.push(s);
        i = i + 1;
    }
    let r = join_with(&parts, "&");
    proof {
        reveal_strlit("&");
        assert("&"@ =~= seq!['&']);
        let a = parts@.map_values(|s: String| s@);
        let b = params@.map_values(|p: (String, String)| pair_text(p.0@, p.1@));
        assert forall|j: int| 0 <= j < a.len() implies a[j] == b[j] by {
            assert(parts@[j]@ == pair_text(params@[j].0@, params@[j].1@));
        }
        assert(a =~= b);
    }
    r
}

/// The full address of a call to `endpoint` with `params` as its query.
pub fn request_uri(endpoint: &str, params: &Vec<(String, String)>) -> (r: String)
    ensures
        r@ == uri_text(endpoint@, query_text(params@)),
{
    let query = query_string(params);
    let mut s = String::from_str("http://voiceboxpdx.com/api/v1/");
    s.append(endpoint);
    s.append(".json?");
    s.append(query.as_str());
    s
}

} // verus!
