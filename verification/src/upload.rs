//! Where the body of an upload request is written.
//!
//! Uploads go below their own directory, and only requests whose cleaned
//! path starts with the upload prefix are taken. The caller writes the file
//! and reports how that went.

use crate::decode::{outcome_view, percent_decode, percent_decoded};
use crate::path::{
    all_plain, backslash_free, below, clean_segments, join, join_segments, path_segments, split,
    strip_segments,
};
use crate::reply::{
    empty_reply, invalid_path, invalid_path_text, is_empty_reply, is_text_reply, text_reply,
    with_detail, Reply, STATUS_BAD_REQUEST, STATUS_FORBIDDEN, STATUS_SERVER_ERROR,
};
use crate::sandbox::{candidate, within, SandboxRoot};
use crate::path_laws::{lemma_clean_segments_plain, lemma_join_backslash_free, lemma_split_join};
use crate::sandbox_laws::lemma_plain_segments_within;
use vstd::prelude::*;

verus! {

/// Why an upload was not stored.
#[derive(Debug, PartialEq, Eq)]
pub enum UploadError {
    /// Uploads are switched off.
    Disabled,
    /// The path is not the percent-encoding of a text. What the decoder
    /// said of it is kept.
    DecodeError(String),
    /// The path, held here as decoded, does not lie below the upload prefix.
    OutsidePrefix(String),
    /// The directories above the file could not be made, for the reason
    /// held here.
    CreateDirectories(String),
    /// The file could not be made, for the reason held here.
    CreateFile(String),
    /// The body could not be written to the file, for the reason held here.
    WriteFile(String),
}

/// Where below the upload directory an upload to `path` is written: what
/// follows the segments of `prefix` in the kept segments of `path`, joined;
/// or `None` where the kept segments of `path` do not start with those of
/// `prefix`.
pub open spec fn upload_relative(prefix: Seq<char>, path: Seq<char>) -> Option<Seq<char>> {
    match below(clean_segments(prefix), clean_segments(path)) {
        Some(rest) => Some(join(rest)),
        None => None,
    }
}

/// The file that an upload to `path` is written to, if any: its place below
/// the upload directory, put below `dir`.
pub open spec fn upload_target(prefix: Seq<char>, dir: Seq<char>, path: Seq<char>) -> Option<
    Seq<char>,
> {
    match upload_relative(prefix, path) {
        Some(relative) => Some(candidate(dir, relative)),
        None => None,
    }
}

/// The file that an upload is written to lies in the upload directory, and
/// the way to it from there holds no `\` and no segment that leads upwards,
/// whatever the request path held.
pub proof fn lemma_upload_target_confined(prefix: Seq<char>, dir: Seq<char>, path: Seq<char>)
    ensures
        upload_target(prefix, dir, path) matches Some(target) ==> within(dir, target),
        upload_relative(prefix, path) matches Some(relative) ==> backslash_free(relative) && (
        relative.len() == 0 || all_plain(split(relative))),
{
    let base = clean_segments(prefix);
    let all = clean_segments(path);
    if below(base, all) is Some {
        let rest = all.skip(base.len() as int);
        lemma_clean_segments_plain(path);
        lemma_plain_segments_within(dir, rest);
        lemma_join_backslash_free(rest);
        if rest.len() > 0 {
            lemma_split_join(rest);
        }
    }
}

/// Whether `plan` is right for an upload whose path the decoder made
/// `decoded` of. These are tested in this order: uploads are switched off;
/// the path cannot be decoded, which the error tells with what the decoder
/// said; the cleaned path does not start with the cleaned prefix, which the
/// error tells with the decoded path. Otherwise the plan is the file.
pub open spec fn is_plan(
    plan: Result<String, UploadError>,
    enabled: bool,
    prefix: Seq<char>,
    dir: Seq<char>,
    decoded: Result<Seq<char>, Seq<char>>,
) -> bool {
    if !enabled {
        plan matches Err(UploadError::Disabled)
    } else {
        match decoded {
            Err(reason) => plan matches Err(UploadError::DecodeError(said)) && said@ == reason,
            Ok(path) => match upload_target(prefix, dir, path) {
                Some(target) => plan matches Ok(file) && file@ == target,
                None => plan matches Err(UploadError::OutsidePrefix(refused)) && refused@
                    == path,
            },
        }
    }
}

/// The file for an upload whose path has been through the decoder, where
/// uploads are switched on.
pub fn plan_upload_decoded(prefix: &str, dir: &SandboxRoot, decoded: Result<String, String>) -> (plan:
    Result<String, UploadError>)
    ensures
        is_plan(plan, true, prefix@, dir@, outcome_view(decoded)),
        plan matches Ok(file) ==> within(dir@, file@),
        plan is Ok ==> decoded is Ok && upload_relative(prefix@, decoded->Ok_0@) is Some
            && backslash_free(upload_relative(prefix@, decoded->Ok_0@)->0),
{
    match decoded {
        Err(reason) => Err(UploadError::DecodeError(reason)),
        Ok(path) => {
            proof {
                lemma_upload_target_confined(prefix@, dir@, path@);
            }
            let base = path_segments(prefix);
            let all = path_segments(path.as_str());
            match strip_segments(&all, &base) {
                Some(rest) => {
                    let relative = join_segments(&rest);
                    Ok(dir.candidate(relative.as_str()))
                },
                None => Err(UploadError::OutsidePrefix(path)),
            }
        },
    }
}

/// The file that the body of an upload request is written to.
///
/// There is none where uploads are switched off, where the path cannot be
/// decoded, and where the cleaned path does not start with the cleaned
/// prefix; these are tested in that order. Otherwise the file is what
/// follows the prefix, put below `dir`.
pub fn plan_upload(enabled: bool, prefix: &str, dir: &SandboxRoot, request_path: &str) -> (plan:
    Result<String, UploadError>)
    ensures
        is_plan(plan, enabled, prefix@, dir@, percent_decoded(request_path@)),
        !request_path@.contains('%') ==> is_plan(
            plan,
            enabled,
            prefix@,
            dir@,
            Ok(request_path@),
        ),
        plan matches Ok(file) ==> within(dir@, file@),
{
    if !enabled {
        return Err(UploadError::Disabled);
    }
    let decoded = percent_decode(request_path);
    plan_upload_decoded(prefix, dir, decoded)
}

/// The status that tells the client of `error`.
pub open spec fn upload_status(error: UploadError) -> u16 {
    match error {
        UploadError::Disabled => STATUS_FORBIDDEN,
        UploadError::DecodeError(_) => STATUS_BAD_REQUEST,
        UploadError::OutsidePrefix(_) => STATUS_FORBIDDEN,
        UploadError::CreateDirectories(_) => STATUS_SERVER_ERROR,
        UploadError::CreateFile(_) => STATUS_SERVER_ERROR,
        UploadError::WriteFile(_) => STATUS_SERVER_ERROR,
    }
}

/// The text that tells the client of `error`: what went wrong and, but for
/// uploads switched off, `: ` and the detail that the error holds (what the
/// decoder said, the decoded path, or the reason of the failure).
pub open spec fn upload_message(error: UploadError) -> Seq<char> {
    match error {
        UploadError::Disabled => "Upload is disabled"@,
        UploadError::DecodeError(reason) => invalid_path(reason@),
        UploadError::OutsidePrefix(path) => invalid_path(path@),
        UploadError::CreateDirectories(reason) => "Failed to create directories"@ + ": "@
            + reason@,
        UploadError::CreateFile(reason) => "Failed to create file"@ + ": "@ + reason@,
        UploadError::WriteFile(reason) => "Failed to write file"@ + ": "@ + reason@,
    }
}

/// The reply to an upload request: status 200 and nothing else where the
/// file was written, and otherwise the status and the text of the error.
pub fn upload_reply(outcome: Result<(), UploadError>) -> (reply: Reply)
    ensures
        match outcome {
            Ok(_) => is_empty_reply(reply),
            Err(error) => is_text_reply(
                reply,
                upload_status(error),
                "text/plain; charset=utf-8"@,
                upload_message(error),
            ),
        },
{
    let sent_as = "text/plain; charset=utf-8";
    match outcome {
        Ok(_) => empty_reply(),
        Err(UploadError::Disabled) => text_reply(
            STATUS_FORBIDDEN,
            sent_as,
            "Upload is disabled".to_owned(),
        ),
        Err(UploadError::DecodeError(reason)) => text_reply(
            STATUS_BAD_REQUEST,
            sent_as,
            invalid_path_text(reason.as_str()),
        ),
        Err(UploadError::OutsidePrefix(path)) => text_reply(
            STATUS_FORBIDDEN,
            sent_as,
            invalid_path_text(path.as_str()),
        ),
        Err(UploadError::CreateDirectories(reason)) => text_reply(
            STATUS_SERVER_ERROR,
            sent_as,
            with_detail("Failed to create directories", reason.as_str()),
        ),
        Err(UploadError::CreateFile(reason)) => text_reply(
            STATUS_SERVER_ERROR,
            sent_as,
            with_detail("Failed to create file", reason.as_str()),
        ),
        Err(UploadError::WriteFile(reason)) => text_reply(
            STATUS_SERVER_ERROR,
            sent_as,
            with_detail("Failed to write file", reason.as_str()),
        ),
    }
}

} // verus!
