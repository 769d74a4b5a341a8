//! The course of a request for a script.
//!
//! A request is answered in three steps, and after each the caller is told
//! what to do next: look at the file system, start the process, or send a
//! reply. Only a step that found the script in its root asks for a process.

use crate::args::{argument_vector, extract_args};
use crate::decode::{outcome_view, percent_decode, percent_decoded};
use crate::reply::{
    invalid_path, is_rejection, is_script_reply, is_spawn_failure, is_text_reply, rejection,
    script_reply, spawn_failure, Reply, SpawnError, STATUS_BAD_REQUEST, STATUS_NOT_FOUND,
};
use crate::path::{clean_path, path_clean};
use crate::sanitize::{accept, verdict, FileProbe, ResolvedScriptPath, SanitizeError};
use crate::sandbox::{candidate, within, SandboxRoot};
use crate::sandbox_laws::lemma_clean_path_confined;
use vstd::prelude::*;

verus! {

/// A request that was understood: the cleaned form of its path, where its
/// script should lie, and what the script is to be started with.
#[derive(Debug)]
pub struct ScriptRequest {
    pub clean_path: String,
    pub candidate: String,
    pub args: Vec<String>,
}

/// A script that may be started, and what it is to be started with.
pub struct Invocation {
    pub script: ResolvedScriptPath,
    pub args: Vec<String>,
}

/// What the caller is to do next.
pub enum Step {
    /// Resolve the candidate path and report what is there.
    Probe(ScriptRequest),
    /// Start the script and report whether that worked.
    Spawn(Invocation),
    /// Send this reply: the request is done.
    Respond(Reply),
}

/// Whether `step` is the right one for a request whose path the decoder
/// made `decoded` of: a probe of the cleaned path below `root`, with the
/// arguments of the request; or, for a path that cannot be decoded, status
/// 400 with `Invalid path: ` and what the decoder said.
pub open spec fn is_first_step(
    step: Step,
    root: Seq<char>,
    decoded: Result<Seq<char>, Seq<char>>,
    args: Seq<Seq<char>>,
) -> bool {
    match decoded {
        Ok(text) => {
            &&& step matches Step::Probe(request)
            &&& request.clean_path@ == clean_path(text)
            &&& request.candidate@ == candidate(root, clean_path(text))
            &&& request.args.deep_view() == args
        },
        Err(reason) => {
            &&& step matches Step::Respond(reply)
            &&& is_text_reply(
                reply,
                STATUS_BAD_REQUEST,
                "text/plain; charset=utf-8"@,
                invalid_path(reason),
            )
        },
    }
}

/// The first step for a request whose path has been through the decoder.
pub fn on_request_decoded(
    root: &SandboxRoot,
    decoded: Result<String, String>,
    query: &Vec<(String, String)>,
    form: &Vec<(String, String)>,
) -> (step: Step)
    ensures
        is_first_step(
            step,
            root@,
            outcome_view(decoded),
            argument_vector(query.deep_view(), form.deep_view()),
        ),
        step matches Step::Probe(request) ==> within(root@, request.candidate@),
        !(step is Spawn),
{
    match decoded {
        Ok(text) => {
            let clean_path = path_clean(text.as_str());
            let candidate = root.candidate(clean_path.as_str());
            proof {
                lemma_clean_path_confined(root@, text@);
            }
            Step::Probe(ScriptRequest { clean_path, candidate, args: extract_args(query, form) })
        },
        Err(reason) => Step::Respond(rejection(SanitizeError::DecodeError(reason))),
    }
}

/// The first step for a request: its path is decoded, cleaned and put below
/// `root`, and its arguments are gathered from `query` and `form`.
///
/// A path that the decoder refuses is answered with status 400 and what the
/// decoder said; a path without `%` never is.
pub fn on_request(
    root: &SandboxRoot,
    request_path: &str,
    query: &Vec<(String, String)>,
    form: &Vec<(String, String)>,
) -> (step: Step)
    ensures
        is_first_step(
            step,
            root@,
            percent_decoded(request_path@),
            argument_vector(query.deep_view(), form.deep_view()),
        ),
        !request_path@.contains('%') ==> is_first_step(
            step,
            root@,
            Ok(request_path@),
            argument_vector(query.deep_view(), form.deep_view()),
        ),
        step matches Step::Probe(request) ==> within(root@, request.candidate@),
        !(step is Spawn),
{
    let decoded = percent_decode(request_path);
    on_request_decoded(root, decoded, query, form)
}

/// The step after the probe: the script is started where it was accepted,
/// with the arguments of the request; otherwise the client is told so, and
/// no process is asked for. Where nothing exists at the candidate path, and
/// where what exists lies outside `root`, the reply has status 404.
pub fn on_probe(root: &SandboxRoot, request: ScriptRequest, probe: FileProbe) -> (step: Step)
    ensures
        match verdict(root@, probe) {
            Ok(path) => step matches Step::Spawn(invocation) && invocation.script@ == path
                && invocation.script.root() == root@ && invocation.args == request.args,
            Err(error) => step matches Step::Respond(reply) && is_rejection(reply, error),
        },
        !(step is Probe),
        step is Spawn ==> probe.resolved is Some && within(root@, probe.resolved->0@),
        probe.resolved is None ==> (step matches Step::Respond(reply) && reply.status
            == STATUS_NOT_FOUND),
        probe.resolved is Some && !within(root@, probe.resolved->0@) ==> (step matches Step::Respond(
            reply,
        ) && reply.status == STATUS_NOT_FOUND),
{
    match accept(root, probe) {
        Ok(script) => Step::Spawn(Invocation { script, args: request.args }),
        Err(error) => Step::Respond(rejection(error)),
    }
}

/// The reply after the attempt to start the script: the announcement of its
/// output where it runs, and status 500 where it does not.
pub fn on_spawn(outcome: Result<(), SpawnError>) -> (reply: Reply)
    ensures
        match outcome {
            Ok(_) => is_script_reply(reply),
            Err(error) => is_spawn_failure(reply, error),
        },
{
    match outcome {
        Ok(_) => script_reply(),
        Err(error) => spawn_failure(error),
    }
}

} // verus!
