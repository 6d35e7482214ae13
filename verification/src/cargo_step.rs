//! Steps for a Rust project: running clippy and the tests through cargo.
use crate::extra::command::{BaseEnv, CommandSpec};
use crate::step_result::{command_result, is_step_error, StepResult};
use vstd::prelude::*;

verus! {

/// A cargo task a step runs.
#[derive(Clone, Copy, PartialEq, Eq, Structural)]
pub enum CargoTask {
    Clippy,
    Test,
}

pub open spec fn task_name(t: CargoTask) -> Seq<char> {
    match t {
        CargoTask::Clippy => "clippy"@,
        CargoTask::Test => "test"@,
    }
}

pub open spec fn task_failure(t: CargoTask) -> Seq<char> {
    match t {
        CargoTask::Clippy => "Cargo lint error"@,
        CargoTask::Test => "Cargo test failure"@,
    }
}

pub open spec fn task_unrunnable(t: CargoTask) -> Seq<char> {
    match t {
        CargoTask::Clippy => "Could not run cargo clippy. Is `cargo` in PATH?"@,
        CargoTask::Test => "Could not run cargo test. Is `cargo` in PATH?"@,
    }
}

/// `cargo clippy` or `cargo test`.
pub fn cargo_command(t: CargoTask) -> (r: CommandSpec)
    ensures
        r@.program == "cargo"@,
        r@.args == seq![task_name(t)],
        r@.envs == Seq::<(Seq<char>, Seq<char>)>::empty(),
        r@.dir is None,
        r@.base_env == BaseEnv::Inherited,
{
    let mut cmd = CommandSpec {
        program: "cargo".to_owned(),
        args: Vec::new(),
        envs: Vec::new(),
        dir: None,
        base_env: BaseEnv::Inherited,
    };
    assert(cmd@.args =~= Seq::<Seq<char>>::empty());
    assert(cmd@.envs =~= Seq::<(Seq<char>, Seq<char>)>::empty());
    match t {
        CargoTask::Clippy => cmd.arg("clippy"),
        CargoTask::Test => cmd.arg("test"),
    }
    assert(cmd@.args =~= seq![task_name(t)]);
    cmd
}

/// What a cargo task reports, given whether cargo could be run and, if so,
/// whether it succeeded and what it wrote; the output is kept only when
/// `with_output` (it is not when cargo wrote to the terminal itself).
pub fn cargo_result(t: CargoTask, ran: Option<(bool, String, String)>, with_output: bool) -> (r: StepResult)
    ensures
        match ran {
            Some((true, _, _)) => r is StepOk,
            Some((false, out, err)) => if with_output {
                is_step_error(r, task_failure(t), Some(out@), Some(err@))
            } else {
                is_step_error(r, task_failure(t), None, None)
            },
            None => is_step_error(r, task_unrunnable(t), None, None),
        },
{
    let (failed, unrunnable) = match t {
        CargoTask::Clippy => ("Cargo lint error", "Could not run cargo clippy. Is `cargo` in PATH?"),
        CargoTask::Test => ("Cargo test failure", "Could not run cargo test. Is `cargo` in PATH?"),
    };
    command_result(ran, failed, with_output, unrunnable)
}

} // verus!
