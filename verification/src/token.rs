//! Turning the token endpoint's reply into a bearer token.
//!
//! The transport issues the GET and, only on HTTP 200, decodes the one-field
//! JSON body `{ access_token?: string }`; everything it observed is handed
//! over as a [`TokenReply`], and the decision of what the reply means is
//! made here. A missing or null `access_token` on a 200 reply counts as the
//! empty token, not as an error; any other status is an error that carries
//! the literal code, with the body left undecoded.

use vstd::prelude::*;

use crate::text::{dec_str, fmt_u16};

verus! {

/// Why no token came back.
#[derive(Debug, PartialEq)]
pub enum TokenError {
    /// The request never completed: DNS, connection or timeout failure.
    Transport(String),
    /// The endpoint replied with a status other than 200; the body was not
    /// decoded.
    UnexpectedStatus(u16),
    /// The endpoint replied with 200 but the body did not decode as the
    /// expected JSON shape.
    Decode(String),
}

/// Everything the transport observed when calling the token endpoint.
#[derive(Debug, PartialEq)]
pub enum TokenReply {
    /// The request itself failed, with the transport's message.
    TransportFailed(String),
    /// A reply arrived with a status other than 200; its body is not looked
    /// at.
    HttpError(u16),
    /// A 200 reply whose body decoded; the value of `access_token`, absent
    /// or null read as `None`.
    DecodedOk(Option<String>),
    /// A 200 reply whose body did not decode, with the decoder's message.
    DecodeFailed(String),
}

/// The meaning of a token-endpoint reply: the raw token on success — empty
/// when the field was absent — and the reason of the failure otherwise.
pub fn acquire_token(reply: TokenReply) -> (r: Result<String, TokenError>)
    ensures
        reply matches TokenReply::TransportFailed(m) ==> r == Result::<String, TokenError>::Err(
            TokenError::Transport(m),
        ),
        reply matches TokenReply::HttpError(s) ==> r == Result::<String, TokenError>::Err(
            TokenError::UnexpectedStatus(s),
        ),
        reply matches TokenReply::DecodedOk(Some(t)) ==> r == Result::<String, TokenError>::Ok(t),
        reply matches TokenReply::DecodedOk(None) ==> (r matches Ok(t) && t@ == Seq::<
            char,
        >::empty()),
        reply matches TokenReply::DecodeFailed(m) ==> r == Result::<String, TokenError>::Err(
            TokenError::Decode(m),
        ),
{
    match reply {
        TokenReply::TransportFailed(m) => Err(TokenError::Transport(m)),
        TokenReply::HttpError(s) => Err(TokenError::UnexpectedStatus(s)),
        TokenReply::DecodedOk(Some(t)) => Ok(t),
        TokenReply::DecodedOk(None) => Ok(String::new()),
        TokenReply::DecodeFailed(m) => Err(TokenError::Decode(m)),
    }
}

/// A human-readable account of a token failure, used when an operation has
/// to synthesize a response instead of calling the gateway.
pub fn token_error_message(e: &TokenError) -> (r: String)
    ensures
        e matches TokenError::Transport(m) ==> r@ == m@,
        e matches TokenError::UnexpectedStatus(s) ==> r@ == "Request failed processing, status code: "@
            + dec_str(s as nat),
        e matches TokenError::Decode(m) ==> r@ == m@,
{
    match e {
        TokenError::Transport(m) => m.clone(),
        TokenError::UnexpectedStatus(s) => String::from_str(
            "Request failed processing, status code: ",
        ).concat(fmt_u16(*s).as_str()),
        TokenError::Decode(m) => m.clone(),
    }
}

} // verus!
