//! Steps for an Elixir project: reading `mix deps`, and what each mix task
//! reports.
pub mod cli;
pub mod deps;

use crate::extra::command::{BaseEnv, CommandSpec};
use crate::step_result::{command_result, is_step_error, StepResult};
use crate::text::debug_quoted;
use vstd::prelude::*;

verus! {

/// A mix task a step runs.
#[derive(Clone, Copy, PartialEq, Eq, Structural)]
pub enum MixTask {
    /// `mix deps.audit`
    Audit,
    /// `mix credo --strict`
    Credo,
    /// `mix dialyzer`
    Dialyzer,
    /// `mix deps.get`
    GetDeps,
}

/// The arguments of `mix` for a task.
pub open spec fn task_args(t: MixTask) -> Seq<Seq<char>> {
    match t {
        MixTask::Audit => seq!["deps.audit"@],
        MixTask::Credo => seq!["credo"@, "--strict"@],
        MixTask::Dialyzer => seq!["dialyzer"@],
        MixTask::GetDeps => seq!["deps.get"@],
    }
}

/// What a task that failed reports.
pub open spec fn task_failure(t: MixTask) -> Seq<char> {
    match t {
        MixTask::Audit => "Vulnerabilities have been detected in deps."@,
        MixTask::Credo => "Credo has detected errors."@,
        MixTask::Dialyzer => "Dialyzer has detected errors."@,
        MixTask::GetDeps => "Mix was unable get deps."@,
    }
}

/// What a task that could not be run reports.
pub open spec fn task_unrunnable(t: MixTask) -> Seq<char> {
    match t {
        MixTask::Audit => "Unable to run deps.audit."@,
        MixTask::Credo => "Unable to run credo."@,
        MixTask::Dialyzer => "Unable to run dialyzer."@,
        MixTask::GetDeps => "Unable to get deps."@,
    }
}

/// `mix` with the task's arguments, in the project's directory.
pub fn task_command(t: MixTask, dir: String) -> (r: CommandSpec)
    ensures
        r@.program == "mix"@,
        r@.args == task_args(t),
        r@.envs == Seq::<(Seq<char>, Seq<char>)>::empty(),
        r@.dir == Some(dir@),
        r@.base_env == BaseEnv::Inherited,
{
    let mut c = CommandSpec {
        program: "mix".to_owned(),
        args: Vec::new(),
        envs: Vec::new(),
        dir: Some(dir),
        base_env: BaseEnv::Inherited,
    };
    assert(c@.args =~= Seq::<Seq<char>>::empty());
    assert(c@.envs =~= Seq::<(Seq<char>, Seq<char>)>::empty());
    match t {
        MixTask::Audit => c.arg("deps.audit"),
        MixTask::Credo => {
            c.arg("credo");
            c.arg("--strict");
        },
        MixTask::Dialyzer => c.arg("dialyzer"),
        MixTask::GetDeps => c.arg("deps.get"),
    }
    assert(c@.args =~= task_args(t));
    c
}

/// What a task reports, given whether it could be run and, if so, whether
/// it succeeded and what it wrote.
pub fn task_result(t: MixTask, ran: Option<(bool, String, String)>) -> (r: StepResult)
    ensures
        match ran {
            Some((true, _, _)) => r is StepOk,
            Some((false, out, err)) => is_step_error(r, task_failure(t), Some(out@), Some(err@)),
            None => is_step_error(r, task_unrunnable(t), None, None),
        },
{
    let (failed, unrunnable) = match t {
        MixTask::Audit => ("Vulnerabilities have been detected in deps.", "Unable to run deps.audit."),
        MixTask::Credo => ("Credo has detected errors.", "Unable to run credo."),
        MixTask::Dialyzer => ("Dialyzer has detected errors.", "Unable to run dialyzer."),
        MixTask::GetDeps => ("Mix was unable get deps.", "Unable to get deps."),
    };
    command_result(ran, failed, true, unrunnable)
}

/// What looking for `mix` reports, given whether `which mix` could be run
/// and, if so, whether it found mix and what it wrote.
pub fn mix_installed_result(ran: Option<(bool, String, String)>) -> (r: StepResult)
    ensures
        match ran {
            Some((true, _, _)) => r is StepOk,
            Some((false, out, err)) => is_step_error(r, "Unable to find mix."@, Some(out@), Some(err@)),
            None => is_step_error(r, "Unable to search for mix. Is `which` in your PATH?"@, None, None),
        },
{
    command_result(ran, "Unable to find mix.", true, "Unable to search for mix. Is `which` in your PATH?")
}

/// `name` in directory `dir`: joined with a `/` unless `dir` ends with one.
pub open spec fn join_path(dir: Seq<char>, name: Seq<char>) -> Seq<char> {
    if dir.len() > 0 && dir.last() == '/' {
        dir + name
    } else {
        dir + "/"@ + name
    }
}

/// What looking for the mix project in `path` reports, given its canonical
/// path (`None` when it does not exist) and whether a `mix.exs` file is
/// there.
pub fn mix_project_result(path: &str, resolved: Option<String>, has_mix_exs: bool) -> (r: StepResult)
    ensures
        match resolved {
            None => is_step_error(
                r,
                "Could not find mix project. Path does not exist."@,
                None,
                Some("Expected path: `"@ + path@ + "/mix.exs`"@),
            ),
            Some(dir) => if has_mix_exs {
                r is StepOk
            } else {
                is_step_error(
                    r,
                    "Could not find mix project. Please run from a directory with a mix.exs file."@,
                    None,
                    Some("Expected file: "@ + debug_quoted(join_path(dir@, "mix.exs"@))),
                )
            },
        },
{
    match resolved {
        None => {
            let mut expected = "Expected path: `".to_owned();
            expected.append(path);
            expected.append("/mix.exs`");
            StepResult::StepError(
                "Could not find mix project. Path does not exist.".to_owned(),
                None,
                Some(expected),
            )
        },
        Some(dir) => {
            if has_mix_exs {
                StepResult::StepOk
            } else {
                let cs = crate::text::chars_of(dir.as_str());
                let mut file = dir;
                if !(cs.len() > 0 && cs[cs.len() - 1] == '/') {
                    file.append("/");
                }
                file.append("mix.exs");
                assert(file@ =~= join_path(cs@, "mix.exs"@));
                let mut expected = "Expected file: ".to_owned();
                expected.append(crate::text::debug_string(&file).as_str());
                StepResult::StepError(
                    "Could not find mix project. Please run from a directory with a mix.exs file.".to_owned(),
                    None,
                    Some(expected),
                )
            }
        },
    }
}

/// `mix deps.compile` with the names of the deps to compile, in the
/// project's directory, with `MIX_ENV` set when given.
pub fn compile_command(names: &Vec<String>, dir: String, mix_env: &Option<String>) -> (r: CommandSpec)
    ensures
        r@.program == "mix"@,
        r@.args == seq!["deps.compile"@] + crate::extra::command::strings_view(names@),
        r@.envs == (match *mix_env {
            Some(e) => seq![("MIX_ENV"@, e@)],
            None => Seq::empty(),
        }),
        r@.dir == Some(dir@),
        r@.base_env == BaseEnv::Inherited,
{
    let mut c = CommandSpec {
        program: "mix".to_owned(),
        args: Vec::new(),
        envs: Vec::new(),
        dir: Some(dir),
        base_env: BaseEnv::Inherited,
    };
    assert(c@.args =~= Seq::<Seq<char>>::empty());
    assert(c@.envs =~= Seq::<(Seq<char>, Seq<char>)>::empty());
    c.arg("deps.compile");
    if let Some(e) = mix_env {
        c.env("MIX_ENV", e.as_str());
    }
    c.args_from(names);
    assert(c@.args =~= seq!["deps.compile"@] + crate::extra::command::strings_view(names@));
    assert(c@.envs =~= (match *mix_env {
        Some(e) => seq![("MIX_ENV"@, e@)],
        None => Seq::empty(),
    }));
    c
}

/// What compiling the deps runs: nothing when no dependency is left to
/// compile, else `mix deps.compile` with the names of those that are, in
/// order.
pub fn compile_plan(deps: &Vec<crate::elixir::deps::Dep>, dir: String, mix_env: &Option<String>) -> (r: Option<
    CommandSpec,
>)
    ensures
        crate::elixir::deps::outdated_names(crate::elixir::deps::dep_views(deps@)).len() == 0
            ==> r is None,
        crate::elixir::deps::outdated_names(crate::elixir::deps::dep_views(deps@)).len() > 0
            ==> (r matches Some(c) && c@.program == "mix"@ && c@.args == seq!["deps.compile"@]
            + crate::elixir::deps::outdated_names(crate::elixir::deps::dep_views(deps@))
            && c@.envs == (match *mix_env {
            Some(e) => seq![("MIX_ENV"@, e@)],
            None => Seq::empty(),
        }) && c@.dir == Some(dir@) && c@.base_env == BaseEnv::Inherited),
{
    let names = crate::elixir::deps::outdated_dep_names(deps);
    if names.len() == 0 {
        assert(crate::extra::command::strings_view(names@).len() == 0);
        return None;
    }
    Some(compile_command(&names, dir, mix_env))
}

/// `mix deps` in the project's directory, with `MIX_ENV` set when given.
pub fn deps_command(dir: String, mix_env: &Option<String>) -> (r: CommandSpec)
    ensures
        r@.program == "mix"@,
        r@.args == seq!["deps"@],
        r@.envs == (match *mix_env {
            Some(e) => seq![("MIX_ENV"@, e@)],
            None => Seq::empty(),
        }),
        r@.dir == Some(dir@),
{
    let mut c = CommandSpec {
        program: "mix".to_owned(),
        args: Vec::new(),
        envs: Vec::new(),
        dir: Some(dir),
        base_env: BaseEnv::Inherited,
    };
    assert(c@.args =~= Seq::<Seq<char>>::empty());
    assert(c@.envs =~= Seq::<(Seq<char>, Seq<char>)>::empty());
    c.arg("deps");
    if let Some(e) = mix_env {
        c.env("MIX_ENV", e.as_str());
    }
    assert(c@.args =~= seq!["deps"@]);
    assert(c@.envs =~= (match *mix_env {
        Some(e) => seq![("MIX_ENV"@, e@)],
        None => Seq::empty(),
    }));
    c
}

/// What compiling the deps reports: nothing to do, or whether `mix
/// deps.compile` succeeded (`None`: it could not be run).
pub fn compile_result(outdated: usize, compiled: Option<bool>) -> (r: StepResult)
    ensures
        outdated == 0 ==> r is StepOk,
        outdated != 0 ==> (if compiled == Some(true) {
            r is StepOk
        } else {
            is_step_error(r, "Unable to compile deps."@, None, None)
        }),
{
    if outdated == 0 {
        return StepResult::StepOk;
    }
    match compiled {
        Some(true) => StepResult::StepOk,
        _ => StepResult::StepError("Unable to compile deps.".to_owned(), None, None),
    }
}

/// What reading the deps reports when `mix deps` failed, with what it
/// wrote to standard error.
pub fn unreadable_deps(reason: String) -> (r: StepResult)
    ensures
        is_step_error(r, "Unable to check for uncompiled deps."@, None, Some(reason@)),
{
    StepResult::StepError("Unable to check for uncompiled deps.".to_owned(), None, Some(reason))
}

} // verus!
