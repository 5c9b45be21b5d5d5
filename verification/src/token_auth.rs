//! Bearer-token authentication for the maps Connect service: only callers that
//! present `Authorization: Bearer <token>` with a token of the allow-list are
//! let through to the inner service; all others get a Connect `unauthenticated`
//! error, and the inner service is never touched.

use std::sync::Arc;

use vstd::hash_set::StringHashSet;
use vstd::prelude::*;

use crate::header::{header_text, header_value_to_str, is_header_text};
use crate::rpc_error::{
    connect_error_body, connect_error_json, connect_http_status, is_plain_json_char,
    plain_error_json, RpcCode, RpcError,
};
use crate::text::{chars_of, is_white_space, lemma_trim_padded, trim, trim_bounds};
use crate::token_list::{
    add_piece_token, is_list_separator, lemma_blank_list_has_no_tokens, lemma_filter_map_push,
    lemma_list_tokens_are_clean, lemma_to_set_push, list_pieces, list_separator, list_tokens,
    piece_token, piece_tokens,
};

verus! {

/// Layer that rejects requests without a valid `Authorization: Bearer <token>`;
/// its view is the set of accepted tokens.
pub struct TokenAuthLayer {
    allowed: Arc<StringHashSet>,
}

impl View for TokenAuthLayer {
    type V = Set<Seq<char>>;

    closed spec fn view(&self) -> Set<Seq<char>> {
        self.allowed@
    }
}

impl TokenAuthLayer {
    /// Builds the layer from an explicit collection of tokens, taken as given.
    pub fn new(tokens: Vec<String>) -> (layer: Self)
        ensures
            layer@ == tokens@.map_values(|t: String| t@).to_set(),
    {
        let mut set = StringHashSet::new();
        let mut i: usize = 0;
        while i < tokens.len()
            invariant
                i <= tokens@.len(),
                set@ == tokens@.take(i as int).map_values(|t: String| t@).to_set(),
            decreases tokens@.len() - i,
        {
            proof {
                let prev = tokens@.take(i as int).map_values(|t: String| t@);
                assert(tokens@.take(i + 1).map_values(|t: String| t@) =~= prev.push(tokens@[i as int]@));
                lemma_to_set_push(prev, tokens@[i as int]@);
            }
            set.insert(tokens[i].clone());
            i = i + 1;
        }
        assert(tokens@.take(tokens@.len() as int) =~= tokens@);
        TokenAuthLayer { allowed: Arc::new(set) }
    }

    /// Builds the layer from a list of tokens separated by commas, spaces,
    /// newlines or tabs, each trimmed of white space; blank entries are skipped.
    /// A list with no token in it accepts no request.
    pub fn from_list(list: &str) -> (layer: Self)
        ensures
            layer@ == list_tokens(list@).to_set(),
    {
        let v = chars_of(list);
        let n = v.len();
        let mut set = StringHashSet::new();
        let mut start: usize = 0;
        let mut i: usize = 0;
        let ghost mut done: Seq<Seq<char>> = Seq::empty();
        assert(v@.take(0) =~= Seq::<char>::empty());
        assert(done.push(v@.subrange(0, 0)) =~= seq![Seq::<char>::empty()]);
        while i < n
            invariant
                n == v@.len(),
                v@ == list@,
                start <= i <= n,
                list_pieces(v@.take(i as int)) == done.push(v@.subrange(start as int, i as int)),
                set@ == piece_tokens(done).to_set(),
            decreases n - i,
        {
            let ghost piece = v@.subrange(start as int, i as int);
            assert(v@.take(i + 1).drop_last() =~= v@.take(i as int));
            assert(v@.take(i + 1).last() == v@[i as int]);
            if list_separator(v[i]) {
                proof {
                    lemma_filter_map_push(done, piece);
                    match piece_token(piece) {
                        Some(t) => lemma_to_set_push(piece_tokens(done), t),
                        None => {},
                    }
                }
                add_piece_token(&mut set, list, &v, start, i);
                proof {
                    assert(done.push(piece).push(v@.subrange(i + 1, i + 1)) =~~= done.push(
                        piece,
                    ).push(Seq::empty()));
                    done = done.push(piece);
                }
                start = i + 1;
            } else {
                proof {
                    let p = done.push(piece);
                    assert(p.update(p.len() - 1, p.last().push(v@[i as int])) =~~= done.push(
                        v@.subrange(start as int, i + 1),
                    ));
                }
            }
            i = i + 1;
        }
        proof {
            let piece = v@.subrange(start as int, n as int);
            assert(v@.take(n as int) =~= v@);
            lemma_filter_map_push(done, piece);
            match piece_token(piece) {
                Some(t) => lemma_to_set_push(piece_tokens(done), t),
                None => {},
            }
        }
        add_piece_token(&mut set, list, &v, start, n);
        TokenAuthLayer { allowed: Arc::new(set) }
    }
}

/// The authentication scheme that opens the header: `Bearer ` (with its space).
pub open spec fn bearer_scheme() -> Seq<char> {
    seq!['B', 'e', 'a', 'r', 'e', 'r', ' ']
}

/// The token that an `Authorization` header value presents: the text after
/// `Bearer `, trimmed; none when the value is not text or lacks the scheme.
pub open spec fn bearer_token(value: Seq<u8>) -> Option<Seq<char>> {
    let text = header_text(value);
    if is_header_text(value) && text.len() >= 7 && text.take(7) == bearer_scheme() {
        Some(trim(text.skip(7)))
    } else {
        None
    }
}

/// The bytes of an optional header value.
pub open spec fn header_bytes(header: Option<&[u8]>) -> Option<Seq<u8>> {
    match header {
        Some(b) => Some(b@),
        None => None,
    }
}

/// A request with this `Authorization` header (if any) is let through: it
/// presents a bearer token of the allow-list.
pub open spec fn accepts(header: Option<Seq<u8>>, allowed: Set<Seq<char>>) -> bool {
    match header {
        Some(value) => match bearer_token(value) {
            Some(t) => allowed.contains(t),
            None => false,
        },
        None => false,
    }
}

/// Whether `v` opens with `Bearer `.
fn has_bearer_scheme(v: &Vec<char>) -> (r: bool)
    ensures
        r == (v@.len() >= 7 && v@.take(7) == bearer_scheme()),
{
    if v.len() >= 7 && v[0] == 'B' && v[1] == 'e' && v[2] == 'a' && v[3] == 'r' && v[4] == 'e'
        && v[5] == 'r' && v[6] == ' ' {
        assert(v@.take(7) =~= bearer_scheme());
        true
    } else {
        proof {
            if v@.len() >= 7 && v@.take(7) == bearer_scheme() {
                assert(v@[0] == v@.take(7)[0]);
                assert(v@[1] == v@.take(7)[1]);
                assert(v@[2] == v@.take(7)[2]);
                assert(v@[3] == v@.take(7)[3]);
                assert(v@[4] == v@.take(7)[4]);
                assert(v@[5] == v@.take(7)[5]);
                assert(v@[6] == v@.take(7)[6]);
            }
        }
        false
    }
}

/// Whether the `Authorization` header value (if any) presents an allowed
/// bearer token.
pub fn token_ok(authorization: Option<&[u8]>, allowed: &StringHashSet) -> (ok: bool)
    ensures
        ok == accepts(header_bytes(authorization), allowed@),
{
    match authorization {
        None => false,
        Some(value) => match header_value_to_str(value) {
            None => false,
            Some(text) => {
                let v = chars_of(text.as_str());
                if has_bearer_scheme(&v) {
                    let (a, b) = trim_bounds(&v, 7, v.len());
                    assert(v@.subrange(7, v@.len() as int) =~= header_text(value@).skip(7));
                    let token = text.as_str().substring_char(a, b);
                    allowed.contains(token)
                } else {
                    false
                }
            },
        },
    }
}

/// `Arc::clone`: another handle on the same allow-list.
#[verifier::external_body]
fn share_allow_list(allowed: &Arc<StringHashSet>) -> (r: Arc<StringHashSet>)
    ensures
        r == *allowed,
{
    Arc::clone(allowed)
}

/// The message of the error that answers a refused request.
pub open spec fn denial_message() -> Seq<char> {
    "missing or invalid bearer token"@
}

/// The HTTP answer to a refused request: status, content type and body.
#[derive(Debug)]
pub struct Denial {
    pub status: u16,
    pub content_type: String,
    pub body: Vec<u8>,
}

/// `d` answers with the Connect error of this code and message: the code's
/// HTTP status, and the error as JSON.
pub open spec fn is_error_response(d: Denial, code: RpcCode, message: Seq<char>) -> bool {
    &&& d.status == code.http_status()
    &&& d.content_type@ == "application/json"@
    &&& d.body@ == connect_error_json(code, message)
}

/// The HTTP response that carries the Connect error `err`: status from
/// `connectrpc`, `Content-Type: application/json`, and the error's JSON.
pub fn deny(err: &RpcError) -> (d: Denial)
    ensures
        is_error_response(d, err.code, err.message@),
        (forall|i: int| 0 <= i < err.message@.len() ==> is_plain_json_char(#[trigger] err.message@[i]))
            ==> d.body@ == plain_error_json(err.code, err.message@),
{
    Denial {
        status: connect_http_status(err.code),
        content_type: "application/json".to_owned(),
        body: connect_error_body(err.code, err.message.as_str()),
    }
}

/// What the service does with a request.
#[derive(Debug)]
pub enum Admission {
    /// Hand the request to the inner service.
    Pass,
    /// Answer it at once with this response; the inner service is not called.
    Deny(Denial),
}

/// Per-request service produced by `TokenAuthLayer::layer`.
pub struct TokenAuthService<S> {
    inner: S,
    allowed: Arc<StringHashSet>,
}

impl<S> TokenAuthService<S> {
    /// The accepted tokens.
    pub closed spec fn allowed(&self) -> Set<Seq<char>> {
        self.allowed@
    }

    /// The wrapped service.
    pub closed spec fn inner(&self) -> S {
        self.inner
    }

    /// The wrapped service, to call it.
    pub fn inner_mut(&mut self) -> (inner: &mut S)
        ensures
            *inner == old(self).inner(),
            final(self).inner() == *final(inner),
            final(self).allowed() == old(self).allowed(),
    {
        &mut self.inner
    }

    /// Decides a request from its `Authorization` header value, if any: let
    /// through when it presents an allowed bearer token, else answered with
    /// the Connect `unauthenticated` error "missing or invalid bearer token".
    pub fn screen(&self, authorization: Option<&[u8]>) -> (a: Admission)
        ensures
            accepts(header_bytes(authorization), self.allowed()) ==> a is Pass,
            !accepts(header_bytes(authorization), self.allowed()) ==> (a matches Admission::Deny(
                d,
            ) && is_error_response(d, RpcCode::Unauthenticated, denial_message()) && d.body@
                == plain_error_json(RpcCode::Unauthenticated, denial_message())),
    {
        if token_ok(authorization, &self.allowed) {
            Admission::Pass
        } else {
            let err = RpcError::unauthenticated("missing or invalid bearer token");
            proof {
                reveal_strlit("missing or invalid bearer token");
            }
            Admission::Deny(deny(&err))
        }
    }
}

impl TokenAuthLayer {
    /// Wraps `inner` in a service that shares this layer's allow-list.
    pub fn layer<S>(&self, inner: S) -> (svc: TokenAuthService<S>)
        ensures
            svc.allowed() == self@,
            svc.inner() == inner,
    {
        TokenAuthService { inner, allowed: share_allow_list(&self.allowed) }
    }
}

impl Clone for TokenAuthLayer {
    /// Another layer on the same allow-list.
    fn clone(&self) -> (layer: Self)
        ensures
            layer@ == self@,
    {
        TokenAuthLayer { allowed: share_allow_list(&self.allowed) }
    }
}

impl<S: Clone> Clone for TokenAuthService<S> {
    /// A clone of the inner service behind the same allow-list.
    fn clone(&self) -> (svc: Self)
        ensures
            svc.allowed() == self.allowed(),
            cloned::<S>(self.inner(), svc.inner()),
    {
        TokenAuthService { inner: self.inner.clone(), allowed: share_allow_list(&self.allowed) }
    }
}

/// The pending answer of `TokenAuthService`: the inner service's future, or a
/// denial made in advance.
pub enum TokenAuthFuture<F> {
    Pass { inner: F },
    Denied { response: Option<Denial> },
}

impl<F> TokenAuthFuture<F> {
    /// Waits on the inner service.
    pub fn pass(inner: F) -> (f: Self)
        ensures
            f == (TokenAuthFuture::Pass { inner }),
    {
        TokenAuthFuture::Pass { inner }
    }

    /// Answers with the denial.
    pub fn denied(response: Denial) -> (f: Self)
        ensures
            f == (TokenAuthFuture::<F>::Denied { response: Some(response) }),
    {
        TokenAuthFuture::Denied { response: Some(response) }
    }

    /// Takes the denial out, once: a denied future yields its response on the
    /// first call and nothing after; a passing one yields nothing.
    pub fn take_denial(&mut self) -> (r: Option<Denial>)
        ensures
            match *old(self) {
                TokenAuthFuture::Denied { response } => r == response && *final(self) == (
                TokenAuthFuture::<F>::Denied { response: None }),
                TokenAuthFuture::Pass { .. } => r is None && *final(self) == *old(self),
            },
    {
        match self {
            TokenAuthFuture::Denied { response } => response.take(),
            TokenAuthFuture::Pass { .. } => None,
        }
    }
}

/// Law: a layer built from a list with no token in it (blank, or separators
/// only) lets no request through.
pub proof fn lemma_blank_list_denies_all(list: Seq<char>, header: Option<Seq<u8>>)
    requires
        forall|j: int| 0 <= j < list.len() ==> is_list_separator(#[trigger] list[j]) || is_white_space(
            list[j],
        ),
    ensures
        !accepts(header, list_tokens(list).to_set()),
{
    lemma_blank_list_has_no_tokens(list);
    match header {
        Some(value) => match bearer_token(value) {
            Some(t) => {
                if list_tokens(list).contains(t) {
                    let i = choose|i: int| 0 <= i < list_tokens(list).len() && list_tokens(list)[i] == t;
                }
            },
            None => {},
        },
        None => {},
    }
}

/// Law: a request whose `Authorization` header reads `Bearer ` and then a
/// token of the list, with any white space around the token, is let through.
pub proof fn lemma_listed_token_accepted(
    list: Seq<char>,
    t: Seq<char>,
    before: Seq<char>,
    after: Seq<char>,
    value: Seq<u8>,
)
    requires
        list_tokens(list).contains(t),
        forall|j: int| 0 <= j < before.len() ==> is_white_space(#[trigger] before[j]),
        forall|j: int| 0 <= j < after.len() ==> is_white_space(#[trigger] after[j]),
        is_header_text(value),
        header_text(value) == bearer_scheme() + before + t + after,
    ensures
        accepts(Some(value), list_tokens(list).to_set()),
{
    let k = choose|k: int| 0 <= k < list_tokens(list).len() && list_tokens(list)[k] == t;
    lemma_list_tokens_are_clean(list);
    let text = header_text(value);
    assert(text.take(7) =~= bearer_scheme());
    assert(text.skip(7) =~= before + t + after);
    lemma_trim_padded(before, t, after);
}

} // verus!
