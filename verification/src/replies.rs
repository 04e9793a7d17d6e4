//! The plain-text replies of the write endpoints and the small decisions
//! around them.

use crate::auth::{is_refusal, refusal, HttpError, STATUS_INTERNAL_SERVER_ERROR, STATUS_NOT_FOUND, STATUS_OK};
use crate::json::opt_view;
use crate::text::{owned, push_str, str_eq};
use vstd::prelude::*;

verus! {

broadcast use vstd::string::group_string_axioms;

/// How `Display` renders a `bool`.
pub open spec fn bool_text(b: bool) -> Seq<char> {
    if b { "true"@ } else { "false"@ }
}

/// 404 `not found: <what>`, the public API's answer for a missing entry.
pub fn not_found(what: &str) -> (e: HttpError)
    ensures
        is_refusal(e, STATUS_NOT_FOUND, "not found: "@ + what@),
{
    let mut message = owned("not found: ");
    push_str(&mut message, what);
    HttpError { status: STATUS_NOT_FOUND, message }
}

/// 500 `internal error`, the answer whenever the database fails.
pub fn internal_error() -> (e: HttpError)
    ensures
        is_refusal(e, STATUS_INTERNAL_SERVER_ERROR, "internal error"@),
{
    refusal(STATUS_INTERNAL_SERVER_ERROR, "internal error")
}

/// `<subject> active=<true|false>`: the reply to an activation switch.
pub fn activation_message(subject: &str, active: bool) -> (m: String)
    ensures
        m@ == subject@ + " active="@ + bool_text(active),
{
    let mut m = owned(subject);
    push_str(&mut m, " active=");
    push_str(&mut m, if active { "true" } else { "false" });
    m
}

/// `<prefix><subject><suffix>`: the replies to deletes and config writes
/// (`<slug> deleted`, `config '<key>' set`, `element <id> deleted`, ...).
pub fn subject_message(prefix: &str, subject: &str, suffix: &str) -> (m: String)
    ensures
        m@ == prefix@ + subject@ + suffix@,
{
    let mut m = owned(prefix);
    push_str(&mut m, subject);
    push_str(&mut m, suffix);
    m
}

/// The outcome of a write that targets one row.
pub enum RowWrite {
    /// The database call failed.
    Failed,
    /// No row had that slug or id.
    Missing,
    /// The row was written.
    Written,
}

/// The reply to a write that targets one row: 200 with `done`, 404 with
/// `missing` when no row matched, 500 `internal error` when the call
/// failed.
pub fn row_write_reply(outcome: RowWrite, done: String, missing: &str) -> (r: (u16, String))
    ensures
        match outcome {
            RowWrite::Written => r.0 == STATUS_OK && r.1 == done,
            RowWrite::Missing => r.0 == STATUS_NOT_FOUND && r.1@ == missing@,
            RowWrite::Failed => r.0 == STATUS_INTERNAL_SERVER_ERROR && r.1@ == "internal error"@,
        },
{
    match outcome {
        RowWrite::Written => (STATUS_OK, done),
        RowWrite::Missing => (STATUS_NOT_FOUND, owned(missing)),
        RowWrite::Failed => (STATUS_INTERNAL_SERVER_ERROR, owned("internal error")),
    }
}

/// The media type an element's media is served with: its stored type, or
/// `application/octet-stream`.
pub fn media_type<'a>(stored: Option<&'a str>) -> (r: &'a str)
    ensures
        r@ == match opt_view(stored) {
            Some(t) => t,
            None => "application/octet-stream"@,
        },
{
    match stored {
        Some(t) => t,
        None => "application/octet-stream",
    }
}

/// The delivery mode an imported legacy prompt keeps: `keyword_injection`
/// stays, every other mode becomes `always`.
pub fn import_delivery_mode(legacy: &str) -> (r: &'static str)
    ensures
        r@ == (if legacy@ == "keyword_injection"@ { "keyword_injection"@ } else { "always"@ }),
{
    if str_eq(legacy, "keyword_injection") {
        "keyword_injection"
    } else {
        "always"
    }
}

} // verus!
