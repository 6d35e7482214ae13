//! A step that runs a `medic-step-<name>` program.
use crate::args::{arg_entries, build_flag_args, flag_args};
use crate::check::{args_suffix, args_suffix_text, cd_suffix, cd_suffix_text, executable_in_path};
use crate::error::MedicError;
use crate::extra::command::{new as new_command, opt_string_view, pairs_view, BaseEnv, CommandSpec};
use crate::keyed::KeyedList;
use crate::recoverable::Recoverable;
use crate::style::{paint, styled, Color, TextStyle};
use crate::util::StringOrList;
use vstd::prelude::*;

verus! {

/// A step: runs `medic-step-<step>` with an optional subcommand, a
/// `--flag value` pair per argument value, and the given environment.
pub struct StepConfig {
    pub args: Option<KeyedList<StringOrList>>,
    pub cd: Option<String>,
    pub command: Option<String>,
    pub env: KeyedList<String>,
    pub name: Option<String>,
    pub platform: Option<Vec<String>>,
    pub step: String,
    pub verbose: bool,
    /// Whether medic goes on when the step's command fails.
    pub allow_failure: bool,
}

pub open spec fn cyan() -> TextStyle {
    TextStyle { fg: Some(Color::Cyan), bright: false, bold: false, underlined: false }
}

pub open spec fn yellow() -> TextStyle {
    TextStyle { fg: Some(Color::Yellow), bright: false, bold: false, underlined: false }
}

pub open spec fn green() -> TextStyle {
    TextStyle { fg: Some(Color::Green), bright: false, bold: false, underlined: false }
}

/// The title of a step with no name: `<step>`, then `: <command>!` when it
/// has a subcommand.
pub open spec fn step_title(s: StepConfig) -> Seq<char> {
    match s.command {
        Some(cmd) => s.step@ + ": "@ + cmd@ + "!"@,
        None => s.step@,
    }
}

/// How a step is shown: its name in cyan when it has one; else its title
/// in cyan, its arguments in yellow, its directory in green.
pub open spec fn step_text(s: StepConfig) -> Seq<char> {
    match s.name {
        Some(n) => styled(cyan(), n@),
        None => styled(cyan(), step_title(s)) + args_suffix(s.args, yellow()) + cd_suffix(
            s.cd,
            green(),
        ),
    }
}

/// The program a step runs.
pub open spec fn step_program(s: StepConfig) -> Seq<char> {
    "medic-step-"@ + s.step@
}

/// The arguments a step runs with: the subcommand, if any, then the flags.
pub open spec fn step_args(s: StepConfig) -> Seq<Seq<char>> {
    (match s.command {
        Some(cmd) => seq![cmd@],
        None => Seq::empty(),
    }) + match s.args {
        Some(a) => flag_args(arg_entries(a.view())),
        None => Seq::empty(),
    }
}

/// Whether `r` may be the command of step `s`: `medic-step-<step>` with
/// its arguments and variables, or the error that it is not in the `PATH`.
pub open spec fn step_command_result(s: StepConfig, r: Result<CommandSpec, MedicError>) -> bool {
    match r {
        Ok(cmd) => cmd@.program == step_program(s) && cmd@.args == step_args(s) && cmd@.envs
            == pairs_view(s.env.view()) && cmd@.dir == opt_string_view(s.cd) && cmd@.base_env
            == BaseEnv::Filtered,
        Err(e) => e matches MedicError::Message(m) && m@ == "executable "@ + step_program(s)
            + " not found in PATH"@,
    }
}

impl StepConfig {
    /// Whether medic goes on when the step's command fails.
    pub fn allow_failure(&self) -> (r: bool)
        ensures
            r == self.allow_failure,
    {
        self.allow_failure
    }

    /// The program the step runs: `medic-step-<step>`.
    pub fn program(&self) -> (r: String)
        ensures
            r@ == step_program(*self),
    {
        let mut program = "medic-step-".to_owned();
        program.append(self.step.as_str());
        program
    }

    pub fn platform(&self) -> (r: &Option<Vec<String>>)
        ensures
            *r == self.platform,
    {
        &self.platform
    }

    pub fn verbose(&self) -> (r: bool)
        ensures
            r == self.verbose,
    {
        self.verbose
    }

    /// How the step is shown in progress output.
    pub fn to_string(&self) -> (r: String)
        ensures
            r@ == step_text(*self),
    {
        let cyan = TextStyle::color(Color::Cyan);
        match &self.name {
            Some(n) => paint(&cyan, n.as_str()),
            None => {
                let mut title = self.step.clone();
                if let Some(command) = &self.command {
                    title.append(": ");
                    title.append(command.as_str());
                    title.append("!");
                }
                let mut r = paint(&cyan, title.as_str());
                let args = args_suffix_text(&self.args, TextStyle::color(Color::Yellow));
                let cd = cd_suffix_text(&self.cd, TextStyle::color(Color::Green));
                r.append(args.as_str());
                r.append(cd.as_str());
                r
            },
        }
    }

    /// The command that runs the step, when `medic-step-<step>` was found
    /// (`found`); else the error that says it was not.
    pub fn command_given(&self, found: bool) -> (r: Result<CommandSpec, MedicError>)
        ensures
            found ==> (r matches Ok(cmd) && cmd@.program == step_program(*self) && cmd@.args
                == step_args(*self) && cmd@.envs == pairs_view(self.env.view()) && cmd@.dir
                == opt_string_view(self.cd) && cmd@.base_env == BaseEnv::Filtered),
            !found ==> (r matches Err(MedicError::Message(m)) && m@ == "executable "@
                + step_program(*self) + " not found in PATH"@),
    {
        let program = self.program();
        if !found {
            let mut msg = "executable ".to_owned();
            msg.append(program.as_str());
            msg.append(" not found in PATH");
            return Err(MedicError::Message(msg));
        }
        let empty: KeyedList<String> = KeyedList::new();
        let mut command = new_command(program.as_str(), &self.cd, &empty);
        assert(pairs_view(empty.view()) =~= Seq::<(Seq<char>, Seq<char>)>::empty());
        if let Some(subcmd) = &self.command {
            command.arg(subcmd.as_str());
        }
        if let Some(args) = &self.args {
            let flags = build_flag_args(args);
            command.args_from(&flags);
        }
        command.envs_from(&self.env);
        assert(command@.args =~= step_args(*self));
        assert(command@.envs =~= pairs_view(self.env.view()));
        Ok(command)
    }

    /// The command that runs the step, or the error that
    /// `medic-step-<step>` is not in the `PATH`.
    pub fn to_command(&self) -> (r: Result<CommandSpec, MedicError>)
        ensures
            step_command_result(*self, r),
    {
        let program = self.program();
        let found = executable_in_path(program.as_str());
        self.command_given(found)
    }

    /// The outcome of running the step: success when its command
    /// succeeded; else, where its failure is allowed, an optional outcome
    /// with no remedy, and otherwise a failure with no error and no remedy.
    pub fn outcome(&self, success: bool) -> (r: Recoverable<()>)
        ensures
            success ==> r == Recoverable::<()>::Success(()),
            !success && self.allow_failure ==> r == Recoverable::<()>::Optional((), None),
            !success && !self.allow_failure ==> r == Recoverable::<()>::Error(None, None),
    {
        if success {
            Recoverable::Success(())
        } else if self.allow_failure {
            Recoverable::Optional((), None)
        } else {
            Recoverable::Error(None, None)
        }
    }
}

} // verus!
