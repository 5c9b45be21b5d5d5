use google_maps_connectrpc::rpc_error::{RpcCode, RpcError};
use google_maps_connectrpc::text::white_space;
use google_maps_connectrpc::token_auth::{deny, Admission, TokenAuthFuture, TokenAuthLayer, TokenAuthService};

const DENIAL_BODY: &[u8] = br#"{"code":"unauthenticated","message":"missing or invalid bearer token"}"#;

fn service(layer: &TokenAuthLayer) -> TokenAuthService<()> {
    layer.layer(())
}

fn passes(svc: &TokenAuthService<()>, header: Option<&[u8]>) -> bool {
    matches!(svc.screen(header), Admission::Pass)
}

#[test]
fn from_list_splits_on_commas_spaces_newlines_and_tabs() {
    let svc = service(&TokenAuthLayer::from_list("alpha,beta gamma\ndelta\tepsilon"));
    for t in ["alpha", "beta", "gamma", "delta", "epsilon"] {
        let header = format!("Bearer {t}");
        assert!(passes(&svc, Some(header.as_bytes())), "{t} should pass");
    }
    assert!(!passes(&svc, Some(b"Bearer alpha,beta")));
    assert!(!passes(&svc, Some(b"Bearer zeta")));
}

#[test]
fn from_list_trims_and_skips_blank_entries() {
    let svc = service(&TokenAuthLayer::from_list(" , ,\r\nkey-1\r,,\u{a0}key-2\u{3000} "));
    assert!(passes(&svc, Some(b"Bearer key-1")));
    assert!(passes(&svc, Some(b"Bearer key-2")));
    assert!(!passes(&svc, Some(b"Bearer ")));
    assert!(!passes(&svc, Some(b"Bearer key-1\r")));
}

#[test]
fn empty_list_denies_all() {
    for list in ["", "   ", ",,,", "\n\t, \r"] {
        let svc = service(&TokenAuthLayer::from_list(list));
        assert!(!passes(&svc, Some(b"Bearer ")));
        assert!(!passes(&svc, Some(b"Bearer x")));
        assert!(!passes(&svc, None));
    }
}

#[test]
fn joined_lists_accept_the_tokens_of_both() {
    let a = "one two";
    let b = "three";
    let joined = format!("{a},{b}");
    let svc = service(&TokenAuthLayer::from_list(&joined));
    for t in ["one", "two", "three"] {
        let header = format!("Bearer {t}");
        assert!(passes(&svc, Some(header.as_bytes())));
    }
}

#[test]
fn new_takes_tokens_as_given() {
    let svc = service(&TokenAuthLayer::new(vec!["abc".to_string(), " padded ".to_string()]));
    assert!(passes(&svc, Some(b"Bearer abc")));
    // the header's token is trimmed, so a padded entry can never match
    assert!(!passes(&svc, Some(b"Bearer  padded ")));
    assert!(!passes(&svc, Some(b"Bearer padded")));
}

#[test]
fn bearer_token_with_white_space_around_passes() {
    let svc = service(&TokenAuthLayer::from_list("secret"));
    assert!(passes(&svc, Some(b"Bearer secret")));
    assert!(passes(&svc, Some(b"Bearer   secret \t ")));
    assert!(passes(&svc, Some(b"Bearer \tsecret")));
}

#[test]
fn wrong_scheme_or_missing_header_is_denied() {
    let svc = service(&TokenAuthLayer::from_list("secret"));
    assert!(!passes(&svc, None));
    assert!(!passes(&svc, Some(b"")));
    assert!(!passes(&svc, Some(b"secret")));
    assert!(!passes(&svc, Some(b"bearer secret")));
    assert!(!passes(&svc, Some(b"Bearer")));
    assert!(!passes(&svc, Some(b"Bearersecret")));
    assert!(!passes(&svc, Some(b"Basic secret")));
    assert!(!passes(&svc, Some(b" Bearer secret")));
}

#[test]
fn header_value_that_is_not_text_is_denied() {
    let svc = service(&TokenAuthLayer::from_list("secret"));
    assert!(!passes(&svc, Some(b"Bearer secret\x7f")));
    assert!(!passes(&svc, Some(b"Bearer secret\x01")));
    assert!(!passes(&svc, Some("Bearer s\u{e9}cret".as_bytes())));
    let svc = service(&TokenAuthLayer::from_list("s\u{e9}cret"));
    assert!(!passes(&svc, Some("Bearer s\u{e9}cret".as_bytes())));
}

#[test]
fn denial_is_a_connect_unauthenticated_error() {
    let svc = service(&TokenAuthLayer::from_list("secret"));
    match svc.screen(Some(b"Bearer other")) {
        Admission::Deny(d) => {
            assert_eq!(d.status, 401);
            assert_eq!(d.content_type, "application/json");
            assert_eq!(d.body, DENIAL_BODY.to_vec());
        }
        Admission::Pass => panic!("an unknown token must be denied"),
    }
}

#[test]
fn denied_future_yields_its_response_once() {
    let svc = service(&TokenAuthLayer::from_list(""));
    let denial = match svc.screen(None) {
        Admission::Deny(d) => d,
        Admission::Pass => panic!("no token may pass an empty list"),
    };
    let mut fut: TokenAuthFuture<()> = TokenAuthFuture::denied(denial);
    let first = fut.take_denial().expect("first poll answers");
    assert_eq!(first.status, 401);
    assert!(fut.take_denial().is_none());
    let mut pass: TokenAuthFuture<u8> = TokenAuthFuture::pass(7);
    assert!(pass.take_denial().is_none());
    assert!(matches!(pass, TokenAuthFuture::Pass { inner: 7 }));
}

#[test]
fn inner_service_is_reachable() {
    let layer = TokenAuthLayer::from_list("t");
    let mut svc = layer.layer(41u32);
    *svc.inner_mut() += 1;
    assert_eq!(*svc.inner_mut(), 42);
    assert!(matches!(svc.screen(Some(b"Bearer t")), Admission::Pass));
}

#[test]
fn white_space_is_the_unicode_white_space_set() {
    for code in 0u32..=0x10FFFF {
        if let Some(c) = char::from_u32(code) {
            assert_eq!(white_space(c), c.is_whitespace(), "U+{code:04X}");
        }
    }
}

#[test]
fn internal_errors_answer_500_with_their_message() {
    let err = RpcError::internal("upstream said no");
    assert_eq!(err.code, RpcCode::Internal);
    let d = deny(&err);
    assert_eq!(d.status, 500);
    assert_eq!(d.content_type, "application/json");
    assert_eq!(d.body, br#"{"code":"internal","message":"upstream said no"}"#.to_vec());
    let d = deny(&RpcError::unauthenticated("a \"quoted\" word"));
    assert_eq!(d.status, 401);
    assert_eq!(d.body, br#"{"code":"unauthenticated","message":"a \"quoted\" word"}"#.to_vec());
}

#[test]
fn list_of_joined_tokens_acts_as_new() {
    let tokens = vec!["a1".to_string(), "b-2".to_string(), "c_3".to_string()];
    let from_new = service(&TokenAuthLayer::new(tokens.clone()));
    let from_list = service(&TokenAuthLayer::from_list(&tokens.join(",")));
    for header in [
        &b"Bearer a1"[..],
        b"Bearer b-2",
        b"Bearer c_3",
        b"Bearer a1,b-2",
        b"Bearer d4",
        b"Bearer ",
    ] {
        assert_eq!(passes(&from_new, Some(header)), passes(&from_list, Some(header)));
    }
}

#[test]
fn cloned_layer_keeps_the_allow_list() {
    let layer = TokenAuthLayer::from_list("k");
    let copy = layer.clone();
    assert!(passes(&service(&copy), Some(b"Bearer k")));
    let svc = layer.layer(3u8);
    let svc2 = svc.clone();
    assert!(matches!(svc2.screen(Some(b"Bearer k")), Admission::Pass));
}
