//! The request side: the span name and the attributes written when a span
//! is begun for an outbound HTTP request.

use vstd::prelude::*;
use vstd::string::StringExecFns;

verus! {

/// The closed set of protocol versions that the annotation distinguishes.
/// Every version outside the four named ones is `Other`.
#[derive(Clone, Copy, PartialEq, Eq, Structural, Debug)]
pub enum HttpVersion {
    V10,
    V11,
    V2,
    V3,
    Other,
}

/// What the annotation reads off an outbound request: the method token,
/// the full serialized URI, its optional host, path-and-query and scheme
/// components, and the protocol version.
pub struct RequestDesc {
    pub method: String,
    pub url: String,
    pub host: Option<String>,
    pub path_and_query: Option<String>,
    pub scheme: Option<String>,
    pub version: HttpVersion,
}

/// The view of an optional string.
pub open spec fn opt_view(o: Option<String>) -> Option<Seq<char>> {
    match o {
        Option::Some(s) => Option::Some(s@),
        Option::None => Option::None,
    }
}

/// The span name: `"HTTP <METHOD> <HOST>"`, with the literal token
/// `<unknown>` standing in when the request has no resolvable host.
pub open spec fn span_name_spec(method: Seq<char>, host: Option<Seq<char>>) -> Seq<char> {
    "HTTP "@ + method + " "@ + (if host is Some {
        host->0
    } else {
        "<unknown>"@
    })
}

pub fn span_name(req: &RequestDesc) -> (r: String)
    ensures
        r@ == span_name_spec(req.method@, opt_view(req.host)),
{
    let mut s = "HTTP ".to_owned();
    s.append(req.method.as_str());
    s.append(" ");
    match &req.host {
        Option::Some(h) => s.append(h.as_str()),
        Option::None => s.append("<unknown>"),
    }
    proof {
        assert(s@ =~= span_name_spec(req.method@, opt_view(req.host)));
    }
    s
}

/// The `http.flavor` value for each protocol version: one of exactly
/// `"1.0"`, `"1.1"`, `"2"`, `"3"` and `"unknown"`.
pub open spec fn flavor_spec(v: HttpVersion) -> Seq<char> {
    match v {
        HttpVersion::V10 => "1.0"@,
        HttpVersion::V11 => "1.1"@,
        HttpVersion::V2 => "2"@,
        HttpVersion::V3 => "3"@,
        HttpVersion::Other => "unknown"@,
    }
}

pub fn flavor_string(v: HttpVersion) -> (r: &'static str)
    ensures
        r@ == flavor_spec(v),
{
    match v {
        HttpVersion::V10 => "1.0",
        HttpVersion::V11 => "1.1",
        HttpVersion::V2 => "2",
        HttpVersion::V3 => "3",
        HttpVersion::Other => "unknown",
    }
}

/// `v` spells out `s`: same length, and each value is the view of the
/// executable pair at the same position.
pub open spec fn attrs_match(v: Seq<(String, String)>, s: Seq<(Seq<char>, Seq<char>)>) -> bool {
    &&& v.len() == s.len()
    &&& forall|i: int|
        0 <= i < v.len() ==> (#[trigger] v[i]).0@ == s[i].0 && v[i].1@ == s[i].1
}

/// The exact attribute list written when a span is begun for `req`:
/// `span.kind`, `http.method` and `http.url` always, then `http.target`,
/// `http.host` and `http.scheme` each exactly when the URI has that
/// component, and `http.flavor` always, in that order.
pub open spec fn request_attrs_spec(req: RequestDesc) -> Seq<(Seq<char>, Seq<char>)> {
    seq![
        ("span.kind"@, "client"@),
        ("http.method"@, req.method@),
        ("http.url"@, req.url@),
    ] + (match req.path_and_query {
        Option::Some(p) => seq![("http.target"@, p@)],
        Option::None => Seq::empty(),
    }) + (match req.host {
        Option::Some(h) => seq![("http.host"@, h@)],
        Option::None => Seq::empty(),
    }) + (match req.scheme {
        Option::Some(s) => seq![("http.scheme"@, s@)],
        Option::None => Seq::empty(),
    }) + seq![("http.flavor"@, flavor_spec(req.version))]
}

pub fn request_attributes(req: &RequestDesc) -> (r: Vec<(String, String)>)
    ensures
        attrs_match(r@, request_attrs_spec(*req)),
{
    let mut r: Vec<(String, String)> = Vec::new();
    r.push(("span.kind".to_owned(), "client".to_owned()));
    r.push(("http.method".to_owned(), req.method.clone()));
    r.push(("http.url".to_owned(), req.url.clone()));
    match &req.path_and_query {
        Option::Some(p) => r.push(("http.target".to_owned(), p.clone())),
        Option::None => (),
    }
    match &req.host {
        Option::Some(h) => r.push(("http.host".to_owned(), h.clone())),
        Option::None => (),
    }
    match &req.scheme {
        Option::Some(s) => r.push(("http.scheme".to_owned(), s.clone())),
        Option::None => (),
    }
    r.push(("http.flavor".to_owned(), flavor_string(req.version).to_owned()));
    r
}

/// Some attribute in `s` bears the key `k`.
pub open spec fn has_key(s: Seq<(Seq<char>, Seq<char>)>, k: Seq<char>) -> bool {
    exists|i: int| 0 <= i < s.len() && (#[trigger] s[i]).0 == k
}

/// For a request with a resolvable host, the span name is exactly
/// `"HTTP <METHOD> <HOST>"`; without one, the host segment is the literal
/// token `<unknown>`.
pub proof fn lemma_span_name(method: Seq<char>, host: Option<Seq<char>>)
    ensures
        host is Some ==> span_name_spec(method, host) == "HTTP "@ + method + " "@ + host->0,
        host is None ==> span_name_spec(method, host) == "HTTP "@ + method + " "@ + "<unknown>"@,
{
}

/// The unconditional attributes: `span.kind` is always exactly `"client"`,
/// `http.method` always carries the method token verbatim, `http.url` the
/// full serialized URI, and `http.flavor` the protocol version's fixed
/// string, at fixed positions.
pub proof fn lemma_request_attrs_fixed(req: RequestDesc)
    ensures
        request_attrs_spec(req).len() >= 4,
        request_attrs_spec(req)[0] == ("span.kind"@, "client"@),
        request_attrs_spec(req)[1] == ("http.method"@, req.method@),
        request_attrs_spec(req)[2] == ("http.url"@, req.url@),
        request_attrs_spec(req).last() == ("http.flavor"@, flavor_spec(req.version)),
{
}

/// The value of `http.flavor` is always one of exactly five fixed strings,
/// with versions 1.0, 1.1, 2 and 3 mapping to their own string and every
/// other version to `"unknown"`.
pub proof fn lemma_flavor_closed(v: HttpVersion)
    ensures
        flavor_spec(v) == "1.0"@ || flavor_spec(v) == "1.1"@ || flavor_spec(v) == "2"@
            || flavor_spec(v) == "3"@ || flavor_spec(v) == "unknown"@,
        flavor_spec(HttpVersion::V10) == "1.0"@,
        flavor_spec(HttpVersion::V11) == "1.1"@,
        flavor_spec(HttpVersion::V2) == "2"@,
        flavor_spec(HttpVersion::V3) == "3"@,
        flavor_spec(HttpVersion::Other) == "unknown"@,
{
}

/// No key is written twice while a span is begun: the request-side
/// attribute list bears pairwise-distinct keys, so no attribute is
/// overwritten within that phase.
pub proof fn lemma_request_keys_distinct(req: RequestDesc)
    ensures
        forall|i: int, j: int|
            0 <= i < j < request_attrs_spec(req).len() ==> (#[trigger] request_attrs_spec(req)[i]).0
                != (#[trigger] request_attrs_spec(req)[j]).0,
{
    reveal_strlit("span.kind");
    reveal_strlit("http.method");
    reveal_strlit("http.url");
    reveal_strlit("http.target");
    reveal_strlit("http.host");
    reveal_strlit("http.scheme");
    reveal_strlit("http.flavor");
    assert("span.kind"@.len() == 9);
    assert("http.method"@.len() == 11);
    assert("http.url"@.len() == 8);
    assert("http.target"@.len() == 11);
    assert("http.host"@.len() == 9);
    assert("http.scheme"@.len() == 11);
    assert("http.flavor"@.len() == 11);
    assert("span.kind"@[0] == 's' && "http.host"@[0] == 'h');
    assert("http.method"@[5] == 'm');
    assert("http.target"@[5] == 't');
    assert("http.scheme"@[5] == 's');
    assert("http.flavor"@[5] == 'f');
    let s = request_attrs_spec(req);
    assert forall|i: int, j: int| 0 <= i < j < s.len() implies (#[trigger] s[i]).0 != (
    #[trigger] s[j]).0 by {
        assert("span.kind"@ != "http.method"@);
        assert("span.kind"@ != "http.url"@);
        assert("span.kind"@ != "http.target"@);
        assert("span.kind"@ != "http.host"@);
        assert("span.kind"@ != "http.scheme"@);
        assert("span.kind"@ != "http.flavor"@);
        assert("http.method"@ != "http.url"@);
        assert("http.method"@ != "http.target"@);
        assert("http.method"@ != "http.host"@);
        assert("http.method"@ != "http.scheme"@);
        assert("http.method"@ != "http.flavor"@);
        assert("http.url"@ != "http.target"@);
        assert("http.url"@ != "http.host"@);
        assert("http.url"@ != "http.scheme"@);
        assert("http.url"@ != "http.flavor"@);
        assert("http.target"@ != "http.host"@);
        assert("http.target"@ != "http.scheme"@);
        assert("http.target"@ != "http.flavor"@);
        assert("http.host"@ != "http.scheme"@);
        assert("http.host"@ != "http.flavor"@);
        assert("http.scheme"@ != "http.flavor"@);
    }
}

/// `http.target` is present exactly when the URI has a path-and-query
/// component, and then equals that component verbatim, immediately after
/// the three unconditional attributes.
pub proof fn lemma_target_presence(req: RequestDesc)
    ensures
        has_key(request_attrs_spec(req), "http.target"@) <==> req.path_and_query is Some,
        req.path_and_query is Some ==> request_attrs_spec(req)[3] == (
            "http.target"@,
            req.path_and_query->0@,
        ),
{
    reveal_strlit("span.kind");
    reveal_strlit("http.method");
    reveal_strlit("http.url");
    reveal_strlit("http.target");
    reveal_strlit("http.host");
    reveal_strlit("http.scheme");
    reveal_strlit("http.flavor");
    let s = request_attrs_spec(req);
    if req.path_and_query is Some {
        assert(s[3].0 == "http.target"@);
        assert(has_key(s, "http.target"@));
    } else {
        assert("http.target"@.len() == 11);
        assert("http.target"@[5] == 't');
        assert("span.kind"@.len() == 9);
        assert("http.method"@[5] == 'm');
        assert("http.url"@.len() == 8);
        assert("http.host"@.len() == 9);
        assert("http.scheme"@[5] == 's');
        assert("http.flavor"@[5] == 'f');
        assert forall|i: int| 0 <= i < s.len() implies (#[trigger] s[i]).0 != "http.target"@ by {
            assert("span.kind"@ != "http.target"@);
            assert("http.method"@ != "http.target"@);
            assert("http.url"@ != "http.target"@);
            assert("http.host"@ != "http.target"@);
            assert("http.scheme"@ != "http.target"@);
            assert("http.flavor"@ != "http.target"@);
        }
    }
}

} // verus!
