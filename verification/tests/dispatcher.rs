use script_bridge::dispatch::{on_probe, on_request, on_request_decoded, on_spawn, ScriptRequest, Step};
use script_bridge::reply::{rejection, Reply, ReplyBody, SpawnError};
use script_bridge::sandbox::SandboxRoot;
use script_bridge::sanitize::{FileProbe, SanitizeError};
use script_bridge::stream::{Frame, Pull, ReadOutcome};
use script_bridge::OwnedResourceStream;

fn root() -> SandboxRoot {
    SandboxRoot::new("/srv/scripts".to_string()).expect("a root with a name")
}

fn pairs(items: &[(&str, &str)]) -> Vec<(String, String)> {
    items.iter().map(|(k, v)| (k.to_string(), v.to_string())).collect()
}

fn request(candidate: &str, args: &[&str]) -> ScriptRequest {
    ScriptRequest {
        clean_path: candidate.trim_start_matches("/srv/scripts/").to_string(),
        candidate: candidate.to_string(),
        args: args.iter().map(|a| a.to_string()).collect(),
    }
}

fn not_found() -> Reply {
    Reply {
        status: 404,
        content_type: Some("text/plain"),
        nosniff: false,
        body: ReplyBody::Text("Not Found".to_string()),
    }
}

fn reply_of(step: Step) -> Reply {
    match step {
        Step::Respond(reply) => reply,
        Step::Probe(_) => panic!("asked for a probe"),
        Step::Spawn(_) => panic!("asked for a process"),
    }
}

#[test]
fn request_asks_for_a_probe_of_the_cleaned_path() {
    let query = pairs(&[("args", "1"), ("other", "x")]);
    let form = pairs(&[("args[]", "2")]);
    match on_request(&root(), "/tools/../run%20me.sh", &query, &form) {
        Step::Probe(found) => {
            assert_eq!(found.clean_path, "run me.sh");
            assert_eq!(found.candidate, "/srv/scripts/run me.sh");
            assert_eq!(found.args, vec!["1", "2"]);
        }
        _ => panic!("no probe"),
    }
}

#[test]
fn undecodable_path_is_answered_with_400_and_what_the_decoder_said() {
    let reply = reply_of(on_request(&root(), "/%ff", &pairs(&[]), &pairs(&[])));
    let said = String::from_utf8(vec![b'/', 0xff]).unwrap_err().to_string();
    assert_eq!(reply.status, 400);
    assert_eq!(reply.content_type, Some("text/plain; charset=utf-8"));
    assert_eq!(reply.body, ReplyBody::Text(format!("Invalid path: {}", said)));
    assert_eq!(
        reply.body,
        ReplyBody::Text("Invalid path: invalid utf-8 sequence of 1 bytes from index 1".to_string())
    );
    assert!(!reply.nosniff);
}

#[test]
fn decoder_failure_handed_in_is_answered_with_400() {
    let step = on_request_decoded(&root(), Err("no text".to_string()), &pairs(&[]), &pairs(&[]));
    let reply = reply_of(step);
    assert_eq!(reply.status, 400);
    assert_eq!(reply.body, ReplyBody::Text("Invalid path: no text".to_string()));
}

#[test]
fn backslashes_in_the_request_path_do_not_lead_upwards() {
    match on_request(&root(), "/tools\\..\\..\\run.sh", &pairs(&[]), &pairs(&[])) {
        Step::Probe(found) => {
            assert_eq!(found.clean_path, "run.sh");
            assert_eq!(found.candidate, "/srv/scripts/run.sh");
        }
        _ => panic!("no probe"),
    }
}

#[test]
fn missing_script_is_answered_with_404_and_no_process() {
    let probe = FileProbe { resolved: None, is_file: false, executable: false };
    let step = on_probe(&root(), request("/srv/scripts/nope.sh", &["a"]), probe);
    assert!(!matches!(step, Step::Spawn(_)));
    assert_eq!(reply_of(step), not_found());
}

#[test]
fn absolute_path_override_is_answered_with_404_and_no_process() {
    for resolved in ["/etc/passwd", "C:/Windows/System32/cmd.exe", "//server/share/x.bat", "/srv/scripts/../x"] {
        let probe = FileProbe { resolved: Some(resolved.to_string()), is_file: true, executable: true };
        let step = on_probe(&root(), request("/srv/scripts/x", &[]), probe);
        assert!(!matches!(step, Step::Spawn(_)), "{}", resolved);
        assert_eq!(reply_of(step), not_found());
    }
}

#[test]
fn link_that_leads_outside_is_answered_with_404() {
    let probe = FileProbe { resolved: Some("/home/user/secret.sh".to_string()), is_file: true, executable: true };
    let step = on_probe(&root(), request("/srv/scripts/link.sh", &[]), probe);
    assert_eq!(reply_of(step), not_found());
}

#[test]
fn refusals_other_than_decoding_look_the_same() {
    let escape = rejection(SanitizeError::PathEscape);
    assert_eq!(escape, not_found());
    assert_eq!(rejection(SanitizeError::NotFound), escape);
    assert_eq!(rejection(SanitizeError::NotExecutable), escape);
    assert_eq!(rejection(SanitizeError::DecodeError("x".to_string())).status, 400);
}

#[test]
fn directory_and_plain_file_are_answered_with_404() {
    let directory = FileProbe { resolved: Some("/srv/scripts/d".to_string()), is_file: false, executable: true };
    assert_eq!(reply_of(on_probe(&root(), request("/srv/scripts/d", &[]), directory)), not_found());
    let plain = FileProbe { resolved: Some("/srv/scripts/f".to_string()), is_file: true, executable: false };
    assert_eq!(reply_of(on_probe(&root(), request("/srv/scripts/f", &[]), plain)), not_found());
}

#[test]
fn accepted_script_is_started_with_the_arguments_of_the_request() {
    let probe = FileProbe { resolved: Some("/srv/scripts/real/run.sh".to_string()), is_file: true, executable: true };
    match on_probe(&root(), request("/srv/scripts/link/run.sh", &["-v", "x y"]), probe) {
        Step::Spawn(invocation) => {
            assert_eq!(invocation.script.as_str(), "/srv/scripts/real/run.sh");
            assert_eq!(invocation.args, vec!["-v", "x y"]);
        }
        _ => panic!("not started"),
    }
}

#[test]
fn running_script_is_announced_with_200() {
    let reply = on_spawn(Ok(()));
    assert_eq!(
        reply,
        Reply {
            status: 200,
            content_type: Some("text/plain; charset=utf-8"),
            nosniff: true,
            body: ReplyBody::ScriptOutput,
        }
    );
}

#[test]
fn failed_start_is_answered_with_500() {
    let reply = on_spawn(Err(SpawnError::SpawnFailed));
    assert_eq!(reply.status, 500);
    assert_eq!(reply.body, ReplyBody::Text("Spawn cmd error".to_string()));
    assert_eq!(reply.content_type, Some("text/plain; charset=utf-8"));
    assert!(!reply.nosniff);
}

#[test]
fn missing_output_pipe_is_answered_with_500() {
    let reply = on_spawn(Err(SpawnError::NoStdoutHandle));
    assert_eq!(reply.status, 500);
    assert_eq!(
        reply.body,
        ReplyBody::Text("Child did not have a handle to stdout".to_string())
    );
}

#[test]
fn whole_course_of_a_request_for_a_script_that_says_hello() {
    let scripts = root();
    let found = match on_request(&scripts, "/hello.sh", &pairs(&[]), &pairs(&[])) {
        Step::Probe(found) => found,
        _ => panic!("no probe"),
    };
    assert_eq!(found.candidate, "/srv/scripts/hello.sh");
    let probe = FileProbe { resolved: Some(found.candidate.clone()), is_file: true, executable: true };
    let invocation = match on_probe(&scripts, found, probe) {
        Step::Spawn(invocation) => invocation,
        _ => panic!("not started"),
    };
    assert!(invocation.args.is_empty());
    let reply = on_spawn(Ok(()));
    assert_eq!(reply.status, 200);
    assert_eq!(reply.body, ReplyBody::ScriptOutput);

    let mut stream = OwnedResourceStream::new("hello.sh".to_string(), (), ());
    let mut body = Vec::new();
    let mut reads = vec![ReadOutcome::Bytes(b"hello".to_vec()), ReadOutcome::Bytes(Vec::new())].into_iter();
    while let Pull::Read { .. } = stream.pull() {
        if let Frame::Chunk(chunk) = stream.on_read(reads.next().expect("a read")).frame {
            body.extend(chunk);
        }
    }
    assert_eq!(body, b"hello");
}
