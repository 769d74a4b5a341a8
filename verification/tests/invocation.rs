use script_bridge::dispatch::{on_probe, Invocation, ScriptRequest, Step};
use script_bridge::invoke::{ends_in_sh, spawn_plan, through_interpreter, StderrPolicy, Wiring};
use script_bridge::sandbox::SandboxRoot;
use script_bridge::sanitize::FileProbe;

fn invocation(path: &str, args: &[&str]) -> Invocation {
    let root = SandboxRoot::new("/srv/scripts".to_string()).expect("a root with a name");
    let request = ScriptRequest {
        clean_path: path.to_string(),
        candidate: path.to_string(),
        args: args.iter().map(|a| a.to_string()).collect(),
    };
    let probe = FileProbe { resolved: Some(path.to_string()), is_file: true, executable: true };
    match on_probe(&root, request, probe) {
        Step::Spawn(invocation) => invocation,
        _ => panic!("not started"),
    }
}

#[test]
fn plan_runs_the_script_with_its_arguments() {
    let plan = spawn_plan(invocation("/srv/scripts/run.sh", &["a", "b c"]), StderrPolicy::Inherit);
    assert_eq!(plan.program, "/srv/scripts/run.sh");
    assert_eq!(plan.args, vec!["a", "b c"]);
}

#[test]
fn plan_closes_input_and_pipes_output() {
    let plan = spawn_plan(invocation("/srv/scripts/run.sh", &[]), StderrPolicy::Inherit);
    assert_eq!(plan.stdin, Wiring::Null);
    assert_eq!(plan.stdout, Wiring::Piped);
    assert!(plan.kill_on_abandon);
}

#[test]
fn error_output_follows_the_policy() {
    let kept = spawn_plan(invocation("/srv/scripts/run.sh", &[]), StderrPolicy::Inherit);
    assert_eq!(kept.stderr, Wiring::Inherited);
    let dropped = spawn_plan(invocation("/srv/scripts/run.sh", &[]), StderrPolicy::Discard);
    assert_eq!(dropped.stderr, Wiring::Null);
    assert_eq!(dropped.stdout, Wiring::Piped);
}

#[test]
fn shell_scripts_are_known_by_their_ending() {
    assert!(ends_in_sh("run.sh"));
    assert!(ends_in_sh("/srv/scripts/a.b.sh"));
    assert!(ends_in_sh(".sh"));
    assert!(!ends_in_sh("run.sh "));
    assert!(!ends_in_sh("run.SH"));
    assert!(!ends_in_sh("sh"));
    assert!(!ends_in_sh(""));
    assert!(!ends_in_sh("run.bash"));
    assert!(ends_in_sh("é.sh"));
}

#[test]
fn interpreter_takes_the_script_as_its_first_argument() {
    let plan = spawn_plan(invocation("/srv/scripts/run.sh", &["a", "b"]), StderrPolicy::Discard);
    let wrapped = through_interpreter(plan, "/bin/bash".to_string());
    assert_eq!(wrapped.program, "/bin/bash");
    assert_eq!(wrapped.args, vec!["/srv/scripts/run.sh", "a", "b"]);
    assert_eq!(wrapped.stdin, Wiring::Null);
    assert_eq!(wrapped.stdout, Wiring::Piped);
    assert_eq!(wrapped.stderr, Wiring::Null);
    assert!(wrapped.kill_on_abandon);
}
