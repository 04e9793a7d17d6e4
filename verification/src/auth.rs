//! HTTP refusals and the review-token check.
//!
//! Approvers authenticate with `Authorization: Bearer <token>`; the server
//! stores only the SHA-256 of each token, so a request is admitted when the
//! digest of its bearer token names an active token row.

use crate::digest::{hash_token, sha256_hex};
use crate::json::opt_view;
use crate::text::owned;
use vstd::prelude::*;

verus! {

pub const STATUS_OK: u16 = 200;
pub const STATUS_BAD_REQUEST: u16 = 400;
pub const STATUS_UNAUTHORIZED: u16 = 401;
pub const STATUS_NOT_FOUND: u16 = 404;
pub const STATUS_CONFLICT: u16 = 409;
pub const STATUS_PAYLOAD_TOO_LARGE: u16 = 413;
pub const STATUS_INTERNAL_SERVER_ERROR: u16 = 500;

/// A refused request: the HTTP status and the plain-text body.
#[derive(Debug)]
pub struct HttpError {
    pub status: u16,
    pub message: String,
}

/// Whether `e` is the refusal with this status and message.
pub open spec fn is_refusal(e: HttpError, status: u16, message: Seq<char>) -> bool {
    e.status == status && e.message@ == message
}

/// The refusal with this status and message.
pub fn refusal(status: u16, message: &str) -> (e: HttpError)
    ensures
        is_refusal(e, status, message@),
{
    HttpError { status, message: owned(message) }
}

/// `bad_request(msg)`: a 400 refusal.
pub fn bad_request(message: &str) -> (e: HttpError)
    ensures
        is_refusal(e, STATUS_BAD_REQUEST, message@),
{
    refusal(STATUS_BAD_REQUEST, message)
}

/// The text after `Bearer ` in an `Authorization` header value, when the
/// value starts with it.
pub open spec fn bearer_of(header: Option<Seq<char>>) -> Option<Seq<char>> {
    match header {
        Some(h) => if h.len() >= 7 && h.take(7) == "Bearer "@ { Some(h.skip(7)) } else { None },
        None => None,
    }
}

/// The bearer token of an `Authorization` header value
/// (`strip_prefix("Bearer ")`); `None` when the header is absent or has
/// another scheme.
pub fn bearer_token(authorization: Option<&str>) -> (r: Option<&str>)
    ensures
        opt_view(r) == bearer_of(opt_view(authorization)),
{
    match authorization {
        None => None,
        Some(h) => {
            let n = h.unicode_len();
            proof {
                reveal_strlit("Bearer ");
            }
            if n < 7 {
                return None;
            }
            let prefix = h.substring_char(0, 7);
            if crate::text::str_eq(prefix, "Bearer ") {
                Some(h.substring_char(7, n))
            } else {
                None
            }
        },
    }
}

/// What a request's `Authorization` header yields: the digest to look the
/// token up by, or 401 `missing bearer token`.
pub fn bearer_digest(authorization: Option<&str>) -> (r: Result<String, HttpError>)
    ensures
        bearer_of(opt_view(authorization)) is None <==> r is Err,
        r matches Err(e) ==> is_refusal(e, STATUS_UNAUTHORIZED, "missing bearer token"@),
        r matches Ok(d) ==> d@ == sha256_hex(bearer_of(opt_view(authorization))->0),
{
    match bearer_token(authorization) {
        None => Err(refusal(STATUS_UNAUTHORIZED, "missing bearer token")),
        Some(token) => Ok(hash_token(token)),
    }
}

/// A request that presents an issued token as `Bearer <token>` is looked
/// up by the very digest the token was stored under (`hash_token`).
pub proof fn lemma_issued_token_is_found(token: Seq<char>)
    ensures
        bearer_of(Some("Bearer "@ + token)) == Some(token),
        sha256_hex(bearer_of(Some("Bearer "@ + token))->0) == sha256_hex(token),
{
    reveal_strlit("Bearer ");
    let h = "Bearer "@ + token;
    assert(h.take(7) =~= "Bearer "@);
    assert(h.skip(7) =~= token);
}

/// The outcome of looking a token digest up among the active tokens.
pub enum TokenLookup {
    /// The lookup itself failed.
    Failed,
    /// No active token has this digest.
    Unknown,
    /// The active token with this id has this digest.
    Active(u128),
}

/// The decision once the digest was looked up: the token id, 500
/// `internal error` when the lookup failed, 401 `invalid token` when no
/// active token matches.
pub fn token_decision(lookup: TokenLookup) -> (r: Result<u128, HttpError>)
    ensures
        match lookup {
            TokenLookup::Failed => r matches Err(e) && is_refusal(e, STATUS_INTERNAL_SERVER_ERROR, "internal error"@),
            TokenLookup::Unknown => r matches Err(e) && is_refusal(e, STATUS_UNAUTHORIZED, "invalid token"@),
            TokenLookup::Active(id) => r == Ok::<u128, HttpError>(id),
        },
{
    match lookup {
        TokenLookup::Failed => Err(refusal(STATUS_INTERNAL_SERVER_ERROR, "internal error")),
        TokenLookup::Unknown => Err(refusal(STATUS_UNAUTHORIZED, "invalid token")),
        TokenLookup::Active(id) => Ok(id),
    }
}

} // verus!
