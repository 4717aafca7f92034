//! The requests sent to the logs API: their address, query parameters and
//! headers, and the query filters that select the lines of one script or one
//! journey node.

use vstd::prelude::*;
use vstd::string::StringExecFns;

verus! {

/// A GET request to the logs API, ready to be sent.
pub struct ApiRequest {
    pub url: String,
    pub query: Vec<(String, String)>,
    pub headers: Vec<(String, String)>,
}

/// A list of name/value pairs as character sequences.
pub open spec fn pairs_view(v: Seq<(String, String)>) -> Seq<(Seq<char>, Seq<char>)> {
    Seq::new(v.len(), |i: int| (v[i].0@, v[i].1@))
}

/// The characters of an optional string, the empty sequence for `None`.
pub open spec fn or_empty(s: Option<&str>) -> Seq<char> {
    match s {
        Some(t) => t@,
        None => Seq::empty(),
    }
}

/// The log sources that every request asks for.
pub open spec fn sources() -> Seq<char> {
    "am-everything,idm-everything"@
}

/// The headers that authenticate a request with the API key and secret.
pub open spec fn auth_headers(key: Seq<char>, secret: Seq<char>) -> Seq<(Seq<char>, Seq<char>)> {
    seq![("x-api-key"@, key), ("x-api-secret"@, secret)]
}

/// `(name, value)` as owned strings.
fn pair(name: &str, value: &str) -> (r: (String, String))
    ensures
        r.0@ == name@,
        r.1@ == value@,
{
    (name.to_owned(), value.to_owned())
}

/// `Some(s)` as itself, `None` as the empty string.
fn str_or_empty<'a>(s: Option<&'a str>) -> (r: &'a str)
    ensures
        r@ == or_empty(s),
{
    match s {
        Some(t) => t,
        None => {
            proof {
                reveal_strlit("");
            }
            ""
        },
    }
}

/// The request that tails the logs: `{endpoint}/tail`, asking for both
/// sources, with the query filter and the paging cookie (each empty when
/// absent), authenticated by key and secret.
pub fn tail_request(
    endpoint: &str,
    key: &str,
    secret: &str,
    cookie: Option<&str>,
    query_filter: Option<&str>,
) -> (r: ApiRequest)
    ensures
        r.url@ == endpoint@ + "/tail"@,
        pairs_view(r.query@) == seq![
            ("source"@, sources()),
            ("_queryFilter"@, or_empty(query_filter)),
            ("_pagedResultCookie"@, or_empty(cookie)),
        ],
        pairs_view(r.headers@) == auth_headers(key@, secret@),
{
    let mut url = endpoint.to_owned();
    url.append("/tail");
    let mut query: Vec<(String, String)> = Vec::new();
    query.push(pair("source", "am-everything,idm-everything"));
    query.push(pair("_queryFilter", str_or_empty(query_filter)));
    query.push(pair("_pagedResultCookie", str_or_empty(cookie)));
    let mut headers: Vec<(String, String)> = Vec::new();
    headers.push(pair("x-api-key", key));
    headers.push(pair("x-api-secret", secret));
    let r = ApiRequest { url, query, headers };
    assert(pairs_view(r.query@) =~= seq![
        ("source"@, sources()),
        ("_queryFilter"@, or_empty(query_filter)),
        ("_pagedResultCookie"@, or_empty(cookie)),
    ]);
    assert(pairs_view(r.headers@) =~= auth_headers(key@, secret@));
    r
}

/// The request for the logs of one transaction: `endpoint` itself, asking
/// for both sources, with the transaction id and the query filter (empty when
/// absent), authenticated by key and secret.
pub fn transaction_request(
    endpoint: &str,
    key: &str,
    secret: &str,
    transaction_id: &str,
    query_filter: Option<&str>,
) -> (r: ApiRequest)
    ensures
        r.url@ == endpoint@,
        pairs_view(r.query@) == seq![
            ("source"@, sources()),
            ("transactionId"@, transaction_id@),
            ("_queryFilter"@, or_empty(query_filter)),
        ],
        pairs_view(r.headers@) == auth_headers(key@, secret@),
{
    let url = endpoint.to_owned();
    let mut query: Vec<(String, String)> = Vec::new();
    query.push(pair("source", "am-everything,idm-everything"));
    query.push(pair("transactionId", transaction_id));
    query.push(pair("_queryFilter", str_or_empty(query_filter)));
    let mut headers: Vec<(String, String)> = Vec::new();
    headers.push(pair("x-api-key", key));
    headers.push(pair("x-api-secret", secret));
    let r = ApiRequest { url, query, headers };
    assert(pairs_view(r.query@) =~= seq![
        ("source"@, sources()),
        ("transactionId"@, transaction_id@),
        ("_queryFilter"@, or_empty(query_filter)),
    ]);
    assert(pairs_view(r.headers@) =~= auth_headers(key@, secret@));
    r
}

/// The query filter that selects the lines logged by one decision-node
/// script.
pub open spec fn script_filter_text(script_id: Seq<char>) -> Seq<char> {
    "/payload/logger sw \"scripts.AUTHENTICATION_TREE_DECISION_NODE."@ + script_id + "\""@
}

/// The query filter that selects the lines of the node with a given display
/// name.
pub open spec fn node_filter_text(script_name: Seq<char>) -> Seq<char> {
    "/payload/entries/info/displayName eq \""@ + script_name + "\""@
}

/// The query filter that selects the lines logged by one decision-node
/// script.
pub fn script_filter(script_id: &str) -> (r: String)
    ensures
        r@ == script_filter_text(script_id@),
{
    let mut r = "/payload/logger sw \"scripts.AUTHENTICATION_TREE_DECISION_NODE.".to_owned();
    r.append(script_id);
    r.append("\"");
    r
}

/// The query filter that selects the lines of the node with a given display
/// name.
pub fn node_filter(script_name: &str) -> (r: String)
    ensures
        r@ == node_filter_text(script_name@),
{
    let mut r = "/payload/entries/info/displayName eq \"".to_owned();
    r.append(script_name);
    r.append("\"");
    r
}

/// `parts` with `sep` between each two of them.
pub open spec fn joined(parts: Seq<Seq<char>>, sep: Seq<char>) -> Seq<char>
    decreases parts.len(),
{
    if parts.len() == 0 {
        Seq::empty()
    } else if parts.len() == 1 {
        parts[0]
    } else {
        joined(parts.drop_last(), sep) + sep + parts.last()
    }
}

/// The strings of `v` as character sequences.
pub open spec fn strings_view(v: Seq<String>) -> Seq<Seq<char>> {
    Seq::new(v.len(), |i: int| v[i]@)
}

/// Joins `parts` with `sep` between each two of them.
pub fn join(parts: &Vec<String>, sep: &str) -> (r: String)
    ensures
        r@ == joined(strings_view(parts@), sep@),
{
    let ghost all = strings_view(parts@);
    let mut r = String::new();
    let n: usize = parts.len();
    let mut i: usize = 0;
    while i < n
        invariant
            n == parts@.len(),
            all == strings_view(parts@),
            i <= n,
            r@ == joined(all.take(i as int), sep@),
        decreases n - i,
    {
        if i > 0 {
            r.append(sep);
        }
        r.append(parts[i].as_str());
        assert(all.take(i + 1).drop_last() =~= all.take(i as int));
        i += 1;
    }
    assert(all.take(n as int) =~= all);
    r
}

/// The filters that a request for the logs of one transaction carries: the
/// node filter when a script name is given, then the script filter when a
/// script id is given.
pub open spec fn defined_filters(script_id: Option<&str>, script_name: Option<&str>) -> Seq<
    Seq<char>,
> {
    let node = match script_name {
        Some(n) => seq![node_filter_text(n@)],
        None => Seq::empty(),
    };
    let script = match script_id {
        Some(s) => seq![script_filter_text(s@)],
        None => Seq::empty(),
    };
    node + script
}

/// The combined filter is empty when neither filter is defined, the one
/// defined filter when only one is, and the node filter, `" or "` and the
/// script filter when both are.
pub proof fn combined_filter_cases(script_id: Option<&str>, script_name: Option<&str>)
    ensures
        ({
            let r = joined(defined_filters(script_id, script_name), " or "@);
            &&& script_id is None && script_name is None ==> r.len() == 0
            &&& script_id is Some && script_name is None ==> r == script_filter_text(
                script_id.unwrap()@,
            )
            &&& script_id is None && script_name is Some ==> r == node_filter_text(
                script_name.unwrap()@,
            )
            &&& script_id is Some && script_name is Some ==> r == node_filter_text(
                script_name.unwrap()@,
            ) + " or "@ + script_filter_text(script_id.unwrap()@)
        }),
{
    let d = defined_filters(script_id, script_name);
    match (script_id, script_name) {
        (None, None) => {
            assert(d =~= Seq::<Seq<char>>::empty());
        },
        (Some(s), None) => {
            assert(d =~= seq![script_filter_text(s@)]);
        },
        (None, Some(n)) => {
            assert(d =~= seq![node_filter_text(n@)]);
        },
        (Some(s), Some(n)) => {
            assert(d =~= seq![node_filter_text(n@), script_filter_text(s@)]);
            assert(d.drop_last() =~= seq![d[0]]);
            assert(joined(d.drop_last(), " or "@) == d[0]);
        },
    }
}

/// The query filter for the logs of one transaction: the filters that are
/// defined, joined by `" or "`; empty when neither is.
pub fn combined_filter(script_id: Option<&str>, script_name: Option<&str>) -> (r: String)
    ensures
        r@ == joined(defined_filters(script_id, script_name), " or "@),
{
    let mut filters: Vec<String> = Vec::new();
    if let Some(n) = script_name {
        filters.push(node_filter(n));
    }
    if let Some(s) = script_id {
        filters.push(script_filter(s));
    }
    assert(strings_view(filters@) =~= defined_filters(script_id, script_name));
    join(&filters, " or ")
}

} // verus!
