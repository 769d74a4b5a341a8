//! How a script is started: the program, its arguments, and what its three
//! standard streams are connected to.

use crate::dispatch::Invocation;
use vstd::prelude::*;

verus! {

/// What becomes of the error output of a script. The client sees it in
/// neither case.
#[derive(Clone, Copy, Debug, PartialEq, Eq, Structural)]
pub enum StderrPolicy {
    /// It goes where the error output of the server goes.
    Inherit,
    /// It is thrown away.
    Discard,
}

/// What a standard stream of the process is connected to.
#[derive(Clone, Copy, Debug, PartialEq, Eq, Structural)]
pub enum Wiring {
    /// Nothing: reads find the end at once, and writes are thrown away.
    Null,
    /// A pipe whose other end the server holds.
    Piped,
    /// The stream of the same name of the server.
    Inherited,
}

/// All that is needed to start a process.
#[derive(Debug)]
pub struct SpawnPlan {
    pub program: String,
    pub args: Vec<String>,
    pub stdin: Wiring,
    pub stdout: Wiring,
    pub stderr: Wiring,
    /// Whether the process is to be ended when whoever holds it lets go of
    /// it before it has exited.
    pub kill_on_abandon: bool,
}

/// What the error output is connected to under `policy`.
pub open spec fn stderr_wiring(policy: StderrPolicy) -> Wiring {
    match policy {
        StderrPolicy::Inherit => Wiring::Inherited,
        StderrPolicy::Discard => Wiring::Null,
    }
}

/// Whether `plan` runs `program` with `args`, gives it no input, takes its
/// output through a pipe, treats its error output as `policy` says, and has
/// it ended when it is abandoned.
pub open spec fn is_plan_for(
    plan: SpawnPlan,
    program: Seq<char>,
    args: Seq<Seq<char>>,
    policy: StderrPolicy,
) -> bool {
    &&& plan.program@ == program
    &&& plan.args.deep_view() == args
    &&& plan.stdin == Wiring::Null
    &&& plan.stdout == Wiring::Piped
    &&& plan.stderr == stderr_wiring(policy)
    &&& plan.kill_on_abandon
}

/// The plan that starts the script of `invocation` with its arguments.
pub fn spawn_plan(invocation: Invocation, policy: StderrPolicy) -> (plan: SpawnPlan)
    ensures
        is_plan_for(plan, invocation.script@, invocation.args.deep_view(), policy),
{
    let stderr = match policy {
        StderrPolicy::Inherit => Wiring::Inherited,
        StderrPolicy::Discard => Wiring::Null,
    };
    SpawnPlan {
        program: invocation.script.as_str().to_owned(),
        args: invocation.args,
        stdin: Wiring::Null,
        stdout: Wiring::Piped,
        stderr,
        kill_on_abandon: true,
    }
}

/// Whether `path` ends in `.sh`.
pub open spec fn is_shell_script(path: Seq<char>) -> bool {
    path.len() >= 3 && path.subrange(path.len() - 3, path.len() as int) == ".sh"@
}

/// Whether `path` ends in `.sh`.
pub fn ends_in_sh(path: &str) -> (shell: bool)
    ensures
        shell == is_shell_script(path@),
{
    let n: usize = path.unicode_len();
    if n < 3 {
        return false;
    }
    let ending = path.substring_char(n - 3, n).to_owned();
    let wanted = ".sh".to_owned();
    ending == wanted
}

/// The plan that has `interpreter` run the program of `plan`: the program
/// becomes the first argument, and the arguments follow it.
pub fn through_interpreter(plan: SpawnPlan, interpreter: String) -> (wrapped: SpawnPlan)
    ensures
        wrapped.program@ == interpreter@,
        wrapped.args.deep_view() == seq![plan.program@] + plan.args.deep_view(),
        wrapped.stdin == plan.stdin,
        wrapped.stdout == plan.stdout,
        wrapped.stderr == plan.stderr,
        wrapped.kill_on_abandon == plan.kill_on_abandon,
{
    let mut args = plan.args;
    args.insert(0, plan.program);
    SpawnPlan {
        program: interpreter,
        args,
        stdin: plan.stdin,
        stdout: plan.stdout,
        stderr: plan.stderr,
        kill_on_abandon: plan.kill_on_abandon,
    }
}

} // verus!
