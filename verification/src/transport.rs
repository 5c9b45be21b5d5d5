//! The Cloudflare Workers HTTP transport of the Maps client: how a request is
//! prepared (URL, headers, body) and how the answer's status is judged. The
//! fetch itself is I/O and stays with the caller.

use vstd::prelude::*;

use crate::header::{header_text, header_value_to_str, is_header_text};

verus! {

/// `s` without the leading `c` characters.
pub open spec fn trim_start_matches(s: Seq<char>, c: char) -> Seq<char>
    decreases s.len(),
{
    if s.len() > 0 && s[0] == c {
        trim_start_matches(s.drop_first(), c)
    } else {
        s
    }
}

/// `s` without the trailing `c` characters.
pub open spec fn trim_end_matches(s: Seq<char>, c: char) -> Seq<char>
    decreases s.len(),
{
    if s.len() > 0 && s.last() == c {
        trim_end_matches(s.drop_last(), c)
    } else {
        s
    }
}

/// `s` without `c` at either end, as `str::trim_matches(c)` gives it.
pub open spec fn trim_matches(s: Seq<char>, c: char) -> Seq<char> {
    trim_end_matches(trim_start_matches(s, c), c)
}

/// The URL that is fetched: the query URL without `?` at either end.
pub fn request_url(query_url: &str) -> (url: String)
    ensures
        url@ == trim_matches(query_url@, '?'),
{
    let n = query_url.unicode_len();
    let mut a: usize = 0;
    assert(query_url@.subrange(0, n as int) =~= query_url@);
    while a < n && query_url.get_char(a) == '?'
        invariant
            n == query_url@.len(),
            a <= n,
            trim_start_matches(query_url@, '?') == trim_start_matches(
                query_url@.subrange(a as int, n as int),
                '?',
            ),
        decreases n - a,
    {
        assert(query_url@.subrange(a as int, n as int).drop_first() =~= query_url@.subrange(
            a + 1,
            n as int,
        ));
        a = a + 1;
    }
    let ghost rest = query_url@.subrange(a as int, n as int);
    assert(trim_start_matches(rest, '?') == rest);
    let mut b: usize = n;
    while b > a && query_url.get_char(b - 1) == '?'
        invariant
            n == query_url@.len(),
            a <= b <= n,
            trim_end_matches(rest, '?') == trim_end_matches(
                query_url@.subrange(a as int, b as int),
                '?',
            ),
        decreases b - a,
    {
        assert(query_url@.subrange(a as int, b as int).drop_last() =~= query_url@.subrange(
            a as int,
            b - 1,
        ));
        b = b - 1;
    }
    let url = query_url.substring_char(a, b);
    url.to_owned()
}

/// The name of the header that carries the API key.
pub open spec fn api_key_header() -> Seq<char> {
    "X-Goog-Api-Key"@
}

/// The name and the value of the header that marks a JSON body.
pub open spec fn content_type_header() -> (Seq<char>, Seq<char>) {
    ("Content-Type"@, "application/json"@)
}

/// Name and value of each header, as text.
pub open spec fn header_views(h: Seq<(String, String)>) -> Seq<(Seq<char>, Seq<char>)> {
    h.map_values(|p: (String, String)| (p.0@, p.1@))
}

/// Name and text of each header value, for values that are all text.
pub open spec fn header_texts(map: Seq<(String, Vec<u8>)>) -> Seq<(Seq<char>, Seq<char>)> {
    map.map_values(|p: (String, Vec<u8>)| (p.0@, header_text(p.1@)))
}

/// Every header value reads as text.
pub open spec fn all_header_text(map: Seq<(String, Vec<u8>)>) -> bool {
    forall|i: int| 0 <= i < map.len() ==> is_header_text(#[trigger] map[i].1@)
}

/// `i` is the first header whose value is not text.
pub open spec fn is_first_bad_header(map: Seq<(String, Vec<u8>)>, i: int) -> bool {
    &&& 0 <= i < map.len()
    &&& !is_header_text(map[i].1@)
    &&& forall|j: int| 0 <= j < i ==> is_header_text(#[trigger] map[j].1@)
}

/// The errors of the transport that the library decides.
#[derive(Debug)]
pub enum TransportError {
    /// A request header value is not text.
    InvalidHeaderValue { header_name: String },
    /// The server answered with a status outside 200..300.
    WorkerHttp { status: u16, body: String },
}

/// The request headers to set, in order: each header of the map (name and
/// value), then the API key when one is given. Fails on the first header
/// whose value is not text, naming it.
pub fn build_headers(map: &Vec<(String, Vec<u8>)>, api_key: Option<&str>) -> (r: Result<
    Vec<(String, String)>,
    TransportError,
>)
    ensures
        r is Ok <==> all_header_text(map@),
        r matches Ok(h) ==> header_views(h@) == header_texts(map@) + (match api_key {
            Some(k) => seq![(api_key_header(), k@)],
            None => Seq::empty(),
        }),
        r matches Err(e) ==> (e matches TransportError::InvalidHeaderValue { header_name } && exists|
            i: int,
        | is_first_bad_header(map@, i) && header_name@ == map@[i].0@),
{
    let mut out: Vec<(String, String)> = Vec::new();
    let mut i: usize = 0;
    while i < map.len()
        invariant
            i <= map@.len(),
            forall|j: int| 0 <= j < i ==> is_header_text(#[trigger] map@[j].1@),
            header_views(out@) == header_texts(map@.take(i as int)),
        decreases map@.len() - i,
    {
        let (name, value) = &map[i];
        match header_value_to_str(value.as_slice()) {
            Some(text) => {
                let ghost before = out@;
                out.push((name.clone(), text));
                assert(header_views(out@) =~= header_views(before).push((map@[i as int].0@, text@)));
                assert(header_texts(map@.take(i + 1)) =~= header_texts(map@.take(i as int)).push(
                    (map@[i as int].0@, header_text(map@[i as int].1@)),
                ));
            },
            None => {
                assert(is_first_bad_header(map@, i as int));
                return Err(TransportError::InvalidHeaderValue { header_name: name.clone() });
            },
        }
        i = i + 1;
    }
    assert(map@.take(map@.len() as int) =~= map@);
    match api_key {
        Some(key) => {
            let ghost before = out@;
            out.push(("X-Goog-Api-Key".to_owned(), key.to_owned()));
            assert(header_views(out@) =~= header_views(before) + seq![(api_key_header(), key@)]);
        },
        None => {
            assert(header_views(out@) =~= header_views(out@) + Seq::empty());
        },
    }
    Ok(out)
}

/// The HTTP methods the transport uses.
#[derive(Clone, Copy, Debug, PartialEq, Eq, Structural)]
pub enum HttpMethod {
    Get,
    Post,
}

/// A request ready to be fetched: the headers are set in order.
#[derive(Debug)]
pub struct OutgoingRequest {
    pub method: HttpMethod,
    pub url: String,
    pub headers: Vec<(String, String)>,
    pub body: Option<String>,
}

/// The request with the given method, URL, headers and optional body.
pub fn build_request(
    method: HttpMethod,
    url: &str,
    headers: Vec<(String, String)>,
    body: Option<String>,
) -> (r: OutgoingRequest)
    ensures
        r.method == method,
        r.url@ == url@,
        r.headers == headers,
        r.body == body,
{
    OutgoingRequest { method, url: url.to_owned(), headers, body }
}

/// The key to send, if the endpoint takes it in a header.
pub open spec fn sent_key(sends_api_key: bool, key: &str) -> Option<Seq<char>> {
    if sends_api_key {
        Some(key@)
    } else {
        None
    }
}

/// The headers of a prepared request: the map's, then the key's if sent.
pub open spec fn request_headers(
    map: Seq<(String, Vec<u8>)>,
    key: Option<Seq<char>>,
) -> Seq<(Seq<char>, Seq<char>)> {
    header_texts(map) + (match key {
        Some(k) => seq![(api_key_header(), k)],
        None => Seq::empty(),
    })
}

/// Prepares a `GET` for the query URL: the URL without `?` at its ends, the
/// request's headers, and the API key when the endpoint takes it in a header.
pub fn prepare_get(
    query_url: &str,
    headers: &Vec<(String, Vec<u8>)>,
    sends_api_key: bool,
    key: &str,
) -> (r: Result<OutgoingRequest, TransportError>)
    ensures
        r is Ok <==> all_header_text(headers@),
        r matches Ok(req) ==> {
            &&& req.method == HttpMethod::Get
            &&& req.url@ == trim_matches(query_url@, '?')
            &&& header_views(req.headers@) == request_headers(
                headers@,
                sent_key(sends_api_key, key),
            )
            &&& req.body is None
        },
        r matches Err(e) ==> (e matches TransportError::InvalidHeaderValue { header_name } && exists|
            i: int,
        | is_first_bad_header(headers@, i) && header_name@ == headers@[i].0@),
{
    let url = request_url(query_url);
    let api_key = if sends_api_key {
        Some(key)
    } else {
        None
    };
    let built = build_headers(headers, api_key);
    match built {
        Ok(h) => Ok(build_request(HttpMethod::Get, url.as_str(), h, None)),
        Err(e) => Err(e),
    }
}

/// Prepares a `POST` of a JSON body: as `prepare_get`, then the
/// `Content-Type: application/json` header, set last.
pub fn prepare_post(
    query_url: &str,
    body: String,
    headers: &Vec<(String, Vec<u8>)>,
    sends_api_key: bool,
    key: &str,
) -> (r: Result<OutgoingRequest, TransportError>)
    ensures
        r is Ok <==> all_header_text(headers@),
        r matches Ok(req) ==> {
            &&& req.method == HttpMethod::Post
            &&& req.url@ == trim_matches(query_url@, '?')
            &&& header_views(req.headers@) == request_headers(
                headers@,
                sent_key(sends_api_key, key),
            ).push(content_type_header())
            &&& req.body == Some(body)
        },
        r matches Err(e) ==> (e matches TransportError::InvalidHeaderValue { header_name } && exists|
            i: int,
        | is_first_bad_header(headers@, i) && header_name@ == headers@[i].0@),
{
    let url = request_url(query_url);
    let api_key = if sends_api_key {
        Some(key)
    } else {
        None
    };
    let built = build_headers(headers, api_key);
    match built {
        Ok(h) => {
            let mut h = h;
            let ghost before = h@;
            h.push(("Content-Type".to_owned(), "application/json".to_owned()));
            assert(header_views(h@) =~= header_views(before).push(content_type_header()));
            Ok(build_request(HttpMethod::Post, url.as_str(), h, Some(body)))
        },
        Err(e) => Err(e),
    }
}

/// A status of success: 200 to 299.
pub open spec fn is_success(status: u16) -> bool {
    200 <= status < 300
}

/// Whether the status is one of success.
pub fn is_success_status(status: u16) -> (r: bool)
    ensures
        r == is_success(status),
        r == (200 <= status && status < 300),
{
    200 <= status && status < 300
}

/// Judges an answer by its status: a success hands the body on; any other
/// status is the error `WorkerHttp` with the status and the body.
pub fn check_response(status: u16, body: String) -> (r: Result<String, TransportError>)
    ensures
        is_success(status) ==> r == Ok::<String, TransportError>(body),
        !is_success(status) ==> r == Err::<String, TransportError>(
            TransportError::WorkerHttp { status, body },
        ),
        r is Ok <==> 200 <= status && status < 300,
        !(200 <= status && status < 300) ==> (r matches Err(TransportError::WorkerHttp { status: s, body: b }) && s == status && b@ == body@),
{
    if is_success_status(status) {
        Ok(body)
    } else {
        Err(TransportError::WorkerHttp { status, body })
    }
}

/// Law: an answer is a success exactly when its status lies in 200..300;
/// every other status, client errors such as 403 included, is a failure.
pub proof fn lemma_success_is_2xx(status: u16)
    ensures
        is_success(status) <==> 200 <= status && status < 300,
        400 <= status && status < 500 ==> !is_success(status),
{
}

} // verus!
