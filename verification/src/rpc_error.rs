//! Connect errors as plain values, and what the Connect protocol makes of them:
//! the HTTP status and the JSON body.

use vstd::prelude::*;

verus! {

/// The Connect error codes that this service answers with.
#[derive(Clone, Copy, Debug, PartialEq, Eq, Structural)]
pub enum RpcCode {
    Internal,
    Unauthenticated,
}

impl RpcCode {
    /// The HTTP status that the Connect protocol gives the code.
    pub open spec fn http_status(self) -> u16 {
        match self {
            RpcCode::Internal => 500,
            RpcCode::Unauthenticated => 401,
        }
    }

    /// The code's name on the wire.
    pub open spec fn name(self) -> Seq<char> {
        match self {
            RpcCode::Internal => seq!['i', 'n', 't', 'e', 'r', 'n', 'a', 'l'],
            RpcCode::Unauthenticated => seq![
                'u', 'n', 'a', 'u', 't', 'h', 'e', 'n', 't', 'i', 'c', 'a', 't', 'e', 'd',
            ],
        }
    }
}

/// A Connect error: a code and a human-readable message.
#[derive(Debug)]
pub struct RpcError {
    pub code: RpcCode,
    pub message: String,
}

impl RpcError {
    /// An `internal` error with the given message.
    pub fn internal(message: &str) -> (e: RpcError)
        ensures
            e.code == RpcCode::Internal,
            e.message@ == message@,
    {
        RpcError { code: RpcCode::Internal, message: message.to_owned() }
    }

    /// An `unauthenticated` error with the given message.
    pub fn unauthenticated(message: &str) -> (e: RpcError)
        ensures
            e.code == RpcCode::Unauthenticated,
            e.message@ == message@,
    {
        RpcError { code: RpcCode::Unauthenticated, message: message.to_owned() }
    }
}

/// Characters that a JSON string holds as they are, with no escape: printable
/// ASCII other than the quote and the backslash.
pub open spec fn is_plain_json_char(c: char) -> bool {
    ' ' <= c && c <= '~' && c != '"' && c != '\\'
}

/// The ASCII bytes of a text whose characters are all ASCII.
pub open spec fn ascii_bytes(s: Seq<char>) -> Seq<u8> {
    s.map_values(|c: char| c as u8)
}

/// The Connect JSON error body for a message made of plain characters only:
/// `{"code":"<code>","message":"<message>"}`.
pub open spec fn plain_error_json(code: RpcCode, message: Seq<char>) -> Seq<u8> {
    ascii_bytes(
        seq!['{', '"', 'c', 'o', 'd', 'e', '"', ':', '"'] + code.name() + seq![
            '"',
            ',',
            '"',
            'm',
            'e',
            's',
            's',
            'a',
            'g',
            'e',
            '"',
            ':',
            '"',
        ] + message + seq!['"', '}'],
    )
}

/// The bytes that `connectrpc::ConnectError::to_json` gives for an error with
/// this code and message and nothing else.
pub uninterp spec fn connect_error_json(code: RpcCode, message: Seq<char>) -> Seq<u8>;

/// `connectrpc::ErrorCode::http_status`, as a number. The crate's source maps
/// `unauthenticated` to 401 and `internal` to 500.
#[verifier::external_body]
pub fn connect_http_status(code: RpcCode) -> (status: u16)
    ensures
        status == code.http_status(),
{
    let code = match code {
        RpcCode::Internal => connectrpc::ErrorCode::Internal,
        RpcCode::Unauthenticated => connectrpc::ErrorCode::Unauthenticated,
    };
    code.http_status().as_u16()
}

/// `connectrpc::ConnectError::to_json` on `ConnectError::new(code, message)`.
/// The result is named; the crate's source serializes the error with
/// `serde_json` as an object with the fields `code` and `message`, so for a
/// message of plain characters the bytes are exactly `plain_error_json`.
#[verifier::external_body]
pub fn connect_error_body(code: RpcCode, message: &str) -> (body: Vec<u8>)
    ensures
        body@ == connect_error_json(code, message@),
        (forall|i: int| 0 <= i < message@.len() ==> is_plain_json_char(#[trigger] message@[i]))
            ==> body@ == plain_error_json(code, message@),
{
    let code = match code {
        RpcCode::Internal => connectrpc::ErrorCode::Internal,
        RpcCode::Unauthenticated => connectrpc::ErrorCode::Unauthenticated,
    };
    connectrpc::ConnectError::new(code, message).to_json().to_vec()
}

} // verus!
