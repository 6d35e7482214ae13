//! Checks: programs named `medic-check-<name>` that report whether a
//! dependency is met, and how to meet it.
pub mod check_output;
pub mod output_format;

pub use self::output_format::OutputFormat;

use crate::args::{arg_entries, args_body, build_args_body, build_flag_args, flag_args};
use crate::check::check_output::CheckOutput;
use crate::error::MedicError;
use crate::recoverable::{Recoverable, Remedy};
use crate::extra::command::{new as new_command, pairs_view, BaseEnv, CommandSpec};
use crate::keyed::KeyedList;
use crate::style::{paint, styled, Color, OptionalStyled, TextStyle};
use crate::util::StringOrList;
use vstd::prelude::*;

verus! {

/// Whether an executable of this name is found in the `PATH`
/// (`which::which` succeeds). The answer depends on the environment and
/// the file system, so nothing is stated of it.
#[verifier::external_body]
pub(crate) fn executable_in_path(name: &str) -> (found: bool) {
    which::which(name).is_ok()
}

/// A check: runs `medic-check-<check>` with an optional subcommand, a
/// `--flag value` pair per argument value, and the given environment.
pub struct Check {
    pub args: Option<KeyedList<StringOrList>>,
    pub cd: Option<String>,
    pub check: String,
    pub command: Option<String>,
    pub env: KeyedList<String>,
    pub output: OutputFormat,
    pub platform: Option<Vec<String>>,
    pub verbose: bool,
}

/// The text shown after a name for an optional argument map, in `style`:
/// ` (<key>: <value>, ...)`, or nothing.
pub open spec fn args_suffix(args: Option<KeyedList<StringOrList>>, style: TextStyle) -> Seq<char> {
    match args {
        Some(a) => " "@ + styled(style, "("@ + args_body(arg_entries(a.view())) + ")"@),
        None => Seq::empty(),
    }
}

/// The text shown for an optional directory, in `style`: ` (<dir>)`, or
/// nothing.
pub open spec fn cd_suffix(cd: Option<String>, style: TextStyle) -> Seq<char> {
    match cd {
        Some(d) => " "@ + styled(style, "("@ + d@ + ")"@),
        None => Seq::empty(),
    }
}

/// The optional argument map, shown after a name.
pub fn args_suffix_text(args: &Option<KeyedList<StringOrList>>, style: TextStyle) -> (r: String)
    ensures
        r@ == args_suffix(*args, style),
{
    let mut s = OptionalStyled::with_style(style).prefixed(" ");
    if let Some(a) = args {
        s.push('(');
        let body = build_args_body(a);
        s.push_str(body.as_str());
        s.push(')');
        assert(s.content@ =~= "("@ + args_body(arg_entries(a.view())) + ")"@) by {
            reveal_strlit("(");
            reveal_strlit(")");
        }
    }
    s.to_string()
}

/// The optional directory, shown after a name.
pub fn cd_suffix_text(cd: &Option<String>, style: TextStyle) -> (r: String)
    ensures
        r@ == cd_suffix(*cd, style),
{
    let mut s = OptionalStyled::with_style(style).prefixed(" ");
    if let Some(d) = cd {
        s.push('(');
        s.push_str(d.as_str());
        s.push(')');
        assert(s.content@ =~= "("@ + d@ + ")"@) by {
            reveal_strlit("(");
            reveal_strlit(")");
        }
    }
    s.to_string()
}

/// The name a check is shown with: `<check>`, then `: <command>?` when it
/// has a subcommand.
pub open spec fn check_title(c: Check) -> Seq<char> {
    match c.command {
        Some(cmd) => c.check@ + ": "@ + cmd@ + "?"@,
        None => c.check@,
    }
}

/// How a check is shown: its title in cyan, its arguments in yellow, its
/// directory in green.
pub open spec fn check_text(c: Check) -> Seq<char> {
    styled(TextStyle { fg: Some(Color::Cyan), bright: false, bold: false, underlined: false }, check_title(c))
        + args_suffix(c.args, TextStyle { fg: Some(Color::Yellow), bright: false, bold: false, underlined: false })
        + cd_suffix(c.cd, TextStyle { fg: Some(Color::Green), bright: false, bold: false, underlined: false })
}

/// The program a check runs.
pub open spec fn check_program(c: Check) -> Seq<char> {
    "medic-check-"@ + c.check@
}

/// The arguments a check runs with: the subcommand, if any, then the flags.
pub open spec fn check_args(c: Check) -> Seq<Seq<char>> {
    (match c.command {
        Some(cmd) => seq![cmd@],
        None => Seq::empty(),
    }) + match c.args {
        Some(a) => flag_args(arg_entries(a.view())),
        None => Seq::empty(),
    }
}

/// The output-format variable, then the check's own variables in the
/// order they were written.
pub open spec fn check_envs(c: Check) -> Seq<(Seq<char>, Seq<char>)> {
    seq![(
        "MEDIC_OUTPUT_FORMAT"@,
        match c.output {
            OutputFormat::Json => "json"@,
            OutputFormat::Stdio => "stdio"@,
        },
    )] + pairs_view(c.env.view())
}

/// Whether `r` may be the command of check `c`: `medic-check-<check>` with
/// its arguments and variables, or the error that it is not in the `PATH`.
pub open spec fn check_command_result(c: Check, r: Result<CommandSpec, MedicError>) -> bool {
    match r {
        Ok(cmd) => cmd@.program == check_program(c) && cmd@.args == check_args(c) && cmd@.envs
            == check_envs(c) && cmd@.dir == crate::extra::command::opt_string_view(c.cd)
            && cmd@.base_env == BaseEnv::Filtered,
        Err(e) => e matches MedicError::Message(m) && m@ == "executable "@ + check_program(c)
            + " not found in PATH"@,
    }
}

impl Check {
    pub fn allow_failure(&self) -> (r: bool)
        ensures
            !r,
    {
        false
    }

    pub fn verbose(&self) -> (r: bool)
        ensures
            r == self.verbose,
    {
        self.verbose
    }

    pub fn platform(&self) -> (r: &Option<Vec<String>>)
        ensures
            *r == self.platform,
    {
        &self.platform
    }

    /// How the check is shown in progress output.
    pub fn to_string(&self) -> (r: String)
        ensures
            r@ == check_text(*self),
    {
        let mut title = self.check.clone();
        if let Some(command) = &self.command {
            title.append(": ");
            title.append(command.as_str());
            title.append("?");
        }
        let mut r = paint(&TextStyle::color(Color::Cyan), title.as_str());
        let args = args_suffix_text(&self.args, TextStyle::color(Color::Yellow));
        let cd = cd_suffix_text(&self.cd, TextStyle::color(Color::Green));
        r.append(args.as_str());
        r.append(cd.as_str());
        r
    }

    /// The command that runs the check, when `medic-check-<check>` was found
    /// (`found`); else the error that says it was not.
    pub fn command_given(&self, found: bool) -> (r: Result<CommandSpec, MedicError>)
        ensures
            found ==> (r matches Ok(cmd) && cmd@.program == check_program(*self) && cmd@.args
                == check_args(*self) && cmd@.envs == check_envs(*self) && cmd@.dir
                == crate::extra::command::opt_string_view(self.cd) && cmd@.base_env
                == BaseEnv::Filtered),
            !found ==> (r matches Err(MedicError::Message(m)) && m@ == "executable "@
                + check_program(*self) + " not found in PATH"@),
    {
        let program = self.program();
        if !found {
            let mut msg = "executable ".to_owned();
            msg.append(program.as_str());
            msg.append(" not found in PATH");
            return Err(MedicError::Message(msg));
        }
        let empty: KeyedList<String> = KeyedList::new();
        let mut command = new_command(program.as_str(), &self.cd, &empty);
        assert(pairs_view(empty.view()) =~= Seq::<(Seq<char>, Seq<char>)>::empty());
        let format = self.output.to_string();
        command.env("MEDIC_OUTPUT_FORMAT", format.as_str());
        if let Some(subcmd) = &self.command {
            command.arg(subcmd.as_str());
        }
        if let Some(args) = &self.args {
            let flags = build_flag_args(args);
            command.args_from(&flags);
        }
        command.envs_from(&self.env);
        Ok(command)
    }

    /// The command that runs the check, or the error that
    /// `medic-check-<check>` is not in the `PATH`.
    pub fn to_command(&self) -> (r: Result<CommandSpec, MedicError>)
        ensures
            check_command_result(*self, r),
    {
        let program = self.program();
        let found = executable_in_path(program.as_str());
        self.command_given(found)
    }

    /// The program the check runs: `medic-check-<check>`.
    pub fn program(&self) -> (r: String)
        ensures
            r@ == check_program(*self),
    {
        let mut program = "medic-check-".to_owned();
        program.append(self.check.as_str());
        program
    }

    /// The outcome of running the check: success when it succeeded; else a
    /// failure with no error, offering the remedy of its report (run where
    /// medic runs) when it has one.
    pub fn outcome(&self, success: bool, report: &Option<CheckOutput>) -> (r: Recoverable<()>)
        ensures
            success ==> r == Recoverable::<()>::Success(()),
            !success ==> r == Recoverable::<()>::Error(
                None,
                match *report {
                    Some(o) => match o.remedy {
                        Some(c) => Some(Remedy { command: c, cd: None }),
                        None => None,
                    },
                    None => None,
                },
            ),
    {
        if success {
            return Recoverable::Success(());
        }
        match report {
            Some(o) => self.failure_outcome(o),
            None => Recoverable::Error(None, None),
        }
    }

    /// The failure of a check whose command could not be made.
    pub fn unparsed(&self) -> (r: Recoverable<()>)
        ensures
            r matches Recoverable::Error(Some(MedicError::Message(m)), None) && m@
                == "Unable to parse check"@,
    {
        Recoverable::Error(Some(MedicError::from_message("Unable to parse check")), None)
    }

    /// The outcome of the check once it failed and its report was read: a
    /// failure with no error, offering the reported remedy (run where medic
    /// runs) when there is one.
    pub fn failure_outcome(&self, output: &CheckOutput) -> (r: Recoverable<()>)
        ensures
            r == Recoverable::<()>::Error(
                None,
                match output.remedy {
                    Some(c) => Some(Remedy { command: c, cd: None }),
                    None => None,
                },
            ),
    {
        match &output.remedy {
            Some(c) => Recoverable::Error(None, Some(Remedy::new(c.clone(), None))),
            None => Recoverable::Error(None, None),
        }
    }
}

/// A check is told, in `MEDIC_OUTPUT_FORMAT` (the first variable of its
/// command), the name of its own output format: `json` for JSON and
/// `stdio` for stdio, so two checks that read their output differently are
/// told different formats.
pub proof fn lemma_check_told_its_format(c: Check, d: Check)
    ensures
        check_envs(c)[0] == ("MEDIC_OUTPUT_FORMAT"@, crate::check::output_format::format_name(c.output)),
        c.output == OutputFormat::Json ==> check_envs(c)[0].1 == "json"@,
        c.output == OutputFormat::Stdio ==> check_envs(c)[0].1 == "stdio"@,
        c.output != d.output ==> check_envs(c)[0].1 != check_envs(d)[0].1,
{
    reveal_strlit("json");
    reveal_strlit("stdio");
    assert("json"@.len() != "stdio"@.len());
}

} // verus!
