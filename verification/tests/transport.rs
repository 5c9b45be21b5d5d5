use google_maps_connectrpc::transport::{
    build_headers, build_request, check_response, prepare_get, prepare_post, request_url,
    HttpMethod, TransportError,
};

fn pair(name: &str, value: &[u8]) -> (String, Vec<u8>) {
    (name.to_string(), value.to_vec())
}

#[test]
fn request_url_drops_question_marks_at_both_ends() {
    assert_eq!(request_url("https://x/y?a=1&b=2"), "https://x/y?a=1&b=2");
    assert_eq!(request_url("https://x/y?"), "https://x/y");
    assert_eq!(request_url("??https://x/y??"), "https://x/y");
    assert_eq!(request_url("???"), "");
    assert_eq!(request_url(""), "");
}

#[test]
fn headers_are_copied_then_the_api_key_added() {
    let map = vec![pair("accept", b"application/json"), pair("x-a", b"1\t2")];
    let h = build_headers(&map, Some("KEY")).ok().expect("all text");
    assert_eq!(
        h,
        vec![
            ("accept".to_string(), "application/json".to_string()),
            ("x-a".to_string(), "1\t2".to_string()),
            ("X-Goog-Api-Key".to_string(), "KEY".to_string()),
        ]
    );
    let h = build_headers(&map, None).ok().expect("all text");
    assert_eq!(h.len(), 2);
}

#[test]
fn first_header_that_is_not_text_is_named() {
    let map = vec![pair("ok", b"fine"), pair("bad-1", b"\xff"), pair("bad-2", b"\x7f")];
    match build_headers(&map, Some("KEY")) {
        Err(TransportError::InvalidHeaderValue { header_name }) => assert_eq!(header_name, "bad-1"),
        _ => panic!("a header value that is not text must be refused"),
    }
}

#[test]
fn get_is_prepared_with_trimmed_url_and_key() {
    let map = vec![pair("accept", b"*/*")];
    let req = prepare_get("https://maps/x?q=1?", &map, true, "K").ok().unwrap();
    assert_eq!(req.method, HttpMethod::Get);
    assert_eq!(req.url, "https://maps/x?q=1");
    assert_eq!(req.headers.last().unwrap(), &("X-Goog-Api-Key".to_string(), "K".to_string()));
    assert!(req.body.is_none());
    let req = prepare_get("https://maps/x", &map, false, "K").ok().unwrap();
    assert_eq!(req.headers.len(), 1);
}

#[test]
fn post_sets_the_json_content_type_last() {
    let map = vec![pair("x-goog-fieldmask", b"*")];
    let req = prepare_post("https://places/search?", "{}".to_string(), &map, true, "K").ok().unwrap();
    assert_eq!(req.method, HttpMethod::Post);
    assert_eq!(req.url, "https://places/search");
    assert_eq!(
        req.headers,
        vec![
            ("x-goog-fieldmask".to_string(), "*".to_string()),
            ("X-Goog-Api-Key".to_string(), "K".to_string()),
            ("Content-Type".to_string(), "application/json".to_string()),
        ]
    );
    assert_eq!(req.body.as_deref(), Some("{}"));
    let bad = vec![pair("x", b"\x00")];
    assert!(prepare_post("u", "{}".to_string(), &bad, true, "K").is_err());
}

#[test]
fn build_request_keeps_its_parts() {
    let req = build_request(HttpMethod::Post, "u", vec![("a".into(), "b".into())], Some("x".into()));
    assert_eq!(req.method, HttpMethod::Post);
    assert_eq!(req.url, "u");
    assert_eq!(req.headers, vec![("a".to_string(), "b".to_string())]);
    assert_eq!(req.body.as_deref(), Some("x"));
}

#[test]
fn only_2xx_is_a_success() {
    assert_eq!(check_response(200, "ok".into()).ok().as_deref(), Some("ok"));
    assert_eq!(check_response(299, "ok".into()).ok().as_deref(), Some("ok"));
    for status in [199u16, 300, 404, 500] {
        match check_response(status, "body".into()) {
            Err(TransportError::WorkerHttp { status: s, body }) => {
                assert_eq!(s, status);
                assert_eq!(body, "body");
            }
            _ => panic!("{status} is not a success"),
        }
    }
}
