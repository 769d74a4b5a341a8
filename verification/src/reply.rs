//! What is sent back: a status, two headers and a body.

use crate::sanitize::SanitizeError;
use vstd::prelude::*;

verus! {

/// The request was served.
pub const STATUS_OK: u16 = 200;

/// The request cannot be understood.
pub const STATUS_BAD_REQUEST: u16 = 400;

/// The request is not allowed.
pub const STATUS_FORBIDDEN: u16 = 403;

/// The request names nothing that can be served.
pub const STATUS_NOT_FOUND: u16 = 404;

/// The server failed to serve the request.
pub const STATUS_SERVER_ERROR: u16 = 500;

/// The body of a reply.
#[derive(Debug, PartialEq, Eq)]
pub enum ReplyBody {
    /// This text, which may be empty.
    Text(String),
    /// The output of the script, as it is written.
    ScriptOutput,
}

/// What is sent back. Where the body is the output of a script, the reply
/// holds all but the bytes of it.
#[derive(Debug, PartialEq, Eq)]
pub struct Reply {
    pub status: u16,
    /// The value of the `Content-Type` header, where one is sent.
    pub content_type: Option<&'static str>,
    /// Whether `X-Content-Type-Options: nosniff` is sent.
    pub nosniff: bool,
    pub body: ReplyBody,
}

/// Why a script could not be started.
#[derive(Clone, Copy, Debug, PartialEq, Eq, Structural)]
pub enum SpawnError {
    /// The process could not be started.
    SpawnFailed,
    /// The process was started without a pipe for its output.
    NoStdoutHandle,
}

/// Whether `reply` has this status and this text as its body, is sent as
/// `content_type` and without the `nosniff` header.
pub open spec fn is_text_reply(
    reply: Reply,
    status: u16,
    content_type: Seq<char>,
    text: Seq<char>,
) -> bool {
    &&& reply.status == status
    &&& reply.content_type matches Some(sent_as)
    &&& sent_as@ == content_type
    &&& !reply.nosniff
    &&& reply.body matches ReplyBody::Text(body)
    &&& body@ == text
}

/// The status that tells the client of `error`: 400 for a path that cannot
/// be decoded, and 404 for every other error.
pub open spec fn status_of(error: SanitizeError) -> u16 {
    match error {
        SanitizeError::DecodeError(_) => STATUS_BAD_REQUEST,
        SanitizeError::PathEscape => STATUS_NOT_FOUND,
        SanitizeError::NotFound => STATUS_NOT_FOUND,
        SanitizeError::NotExecutable => STATUS_NOT_FOUND,
    }
}

/// The text that tells the client of a path that cannot be taken:
/// `Invalid path: `, then the reason or the path.
pub open spec fn invalid_path(reason: Seq<char>) -> Seq<char> {
    "Invalid path: "@ + reason
}

/// Whether `reply` is the one that tells the client of `error`. The three
/// errors other than `DecodeError` have one and the same reply, so that a
/// client cannot tell them apart.
pub open spec fn is_rejection(reply: Reply, error: SanitizeError) -> bool {
    match error {
        SanitizeError::DecodeError(reason) => is_text_reply(
            reply,
            STATUS_BAD_REQUEST,
            "text/plain; charset=utf-8"@,
            invalid_path(reason@),
        ),
        _ => is_text_reply(reply, STATUS_NOT_FOUND, "text/plain"@, "Not Found"@),
    }
}

/// Whether `reply` announces the output of a script: status 200, sent as
/// UTF-8 text that the client is told not to sniff.
pub open spec fn is_script_reply(reply: Reply) -> bool {
    &&& reply.status == STATUS_OK
    &&& reply.content_type matches Some(sent_as)
    &&& sent_as@ == "text/plain; charset=utf-8"@
    &&& reply.nosniff
    &&& reply.body is ScriptOutput
}

/// Whether `reply` is the one that tells the client of `error`: status 500
/// and a text that names the error.
pub open spec fn is_spawn_failure(reply: Reply, error: SpawnError) -> bool {
    match error {
        SpawnError::SpawnFailed => is_text_reply(
            reply,
            STATUS_SERVER_ERROR,
            "text/plain; charset=utf-8"@,
            "Spawn cmd error"@,
        ),
        SpawnError::NoStdoutHandle => is_text_reply(
            reply,
            STATUS_SERVER_ERROR,
            "text/plain; charset=utf-8"@,
            "Child did not have a handle to stdout"@,
        ),
    }
}

/// Whether `reply` has status 200, no body and no header.
pub open spec fn is_empty_reply(reply: Reply) -> bool {
    &&& reply.status == STATUS_OK
    &&& reply.content_type is None
    &&& !reply.nosniff
    &&& reply.body matches ReplyBody::Text(body)
    &&& body@.len() == 0
}

/// The reply with status 200, no body and no header.
pub fn empty_reply() -> (reply: Reply)
    ensures
        is_empty_reply(reply),
{
    Reply {
        status: STATUS_OK,
        content_type: None,
        nosniff: false,
        body: ReplyBody::Text(String::new()),
    }
}

/// A reply with a text as its body.
pub fn text_reply(status: u16, content_type: &'static str, text: String) -> (reply: Reply)
    ensures
        is_text_reply(reply, status, content_type@, text@),
{
    Reply { status, content_type: Some(content_type), nosniff: false, body: ReplyBody::Text(text) }
}

/// `detail` after `what` and `: `.
pub fn with_detail(what: &str, detail: &str) -> (text: String)
    ensures
        text@ == what@ + ": "@ + detail@,
{
    let mut text = what.to_owned();
    text.append(": ");
    text.append(detail);
    text
}

/// The text that tells the client of a path that cannot be taken.
pub fn invalid_path_text(reason: &str) -> (text: String)
    ensures
        text@ == invalid_path(reason@),
{
    proof {
        reveal_strlit("Invalid path");
        reveal_strlit(": ");
        reveal_strlit("Invalid path: ");
    }
    with_detail("Invalid path", reason)
}

/// The reply that tells the client of `error`.
pub fn rejection(error: SanitizeError) -> (reply: Reply)
    ensures
        is_rejection(reply, error),
        reply.status == status_of(error),
{
    match error {
        SanitizeError::DecodeError(reason) => text_reply(
            STATUS_BAD_REQUEST,
            "text/plain; charset=utf-8",
            invalid_path_text(reason.as_str()),
        ),
        _ => text_reply(STATUS_NOT_FOUND, "text/plain", "Not Found".to_owned()),
    }
}

/// The reply that announces the output of a script.
pub fn script_reply() -> (reply: Reply)
    ensures
        is_script_reply(reply),
{
    Reply {
        status: STATUS_OK,
        content_type: Some("text/plain; charset=utf-8"),
        nosniff: true,
        body: ReplyBody::ScriptOutput,
    }
}

/// The reply that tells the client that the script could not be started.
pub fn spawn_failure(error: SpawnError) -> (reply: Reply)
    ensures
        is_spawn_failure(reply, error),
        reply.status == STATUS_SERVER_ERROR,
{
    match error {
        SpawnError::SpawnFailed => text_reply(
            STATUS_SERVER_ERROR,
            "text/plain; charset=utf-8",
            "Spawn cmd error".to_owned(),
        ),
        SpawnError::NoStdoutHandle => text_reply(
            STATUS_SERVER_ERROR,
            "text/plain; charset=utf-8",
            "Child did not have a handle to stdout".to_owned(),
        ),
    }
}

} // verus!
