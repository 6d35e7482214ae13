//! Steps that run git: pulling with rebase and pushing.
use crate::extra::command::{BaseEnv, CommandSpec};
use crate::step_result::{command_result, is_step_error, StepResult};
use vstd::prelude::*;

verus! {

/// The command line of the git step program: the step to run.
pub struct CliArgs {
    pub command: Command,
}

/// The steps of the git step program.
#[derive(Clone, Copy, PartialEq, Eq, Structural)]
pub enum Command {
    /// Run git pull with rebase.
    Pull,
    /// Run git push.
    Push,
}

/// The arguments of `git` for a step.
pub open spec fn git_args(c: Command) -> Seq<Seq<char>> {
    match c {
        Command::Pull => seq!["pull"@, "--rebase"@],
        Command::Push => seq!["push"@, "origin"@, "HEAD"@],
    }
}

/// The command a step runs: `git pull --rebase` or `git push origin HEAD`.
pub fn git_command(c: Command) -> (r: CommandSpec)
    ensures
        r@.program == "git"@,
        r@.args == git_args(c),
        r@.envs == Seq::<(Seq<char>, Seq<char>)>::empty(),
        r@.dir is None,
        r@.base_env == BaseEnv::Inherited,
{
    let mut cmd = CommandSpec {
        program: "git".to_owned(),
        args: Vec::new(),
        envs: Vec::new(),
        dir: None,
        base_env: BaseEnv::Inherited,
    };
    assert(cmd@.args =~= Seq::<Seq<char>>::empty());
    assert(cmd@.envs =~= Seq::<(Seq<char>, Seq<char>)>::empty());
    match c {
        Command::Pull => {
            cmd.arg("pull");
            cmd.arg("--rebase");
        },
        Command::Push => {
            cmd.arg("push");
            cmd.arg("origin");
            cmd.arg("HEAD");
        },
    }
    assert(cmd@.args =~= git_args(c));
    cmd
}

/// What a git step reports, given whether git could be run and, if so,
/// whether it succeeded and what it wrote. (Both steps say `git pull` when
/// git cannot be run.)
pub fn git_result(c: Command, ran: Option<(bool, String, String)>) -> (r: StepResult)
    ensures
        match ran {
            Some((true, _, _)) => r is StepOk,
            Some((false, out, err)) => is_step_error(
                r,
                if c == Command::Pull { "Git pull error"@ } else { "Git push error"@ },
                Some(out@),
                Some(err@),
            ),
            None => is_step_error(r, "Could not run git pull. Is `git` in PATH?"@, None, None),
        },
{
    let failed = match c {
        Command::Pull => "Git pull error",
        Command::Push => "Git push error",
    };
    command_result(ran, failed, true, "Could not run git pull. Is `git` in PATH?")
}

} // verus!
