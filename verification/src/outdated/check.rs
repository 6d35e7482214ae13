//! Outdated checks: programs named `medic-outdated-<name>` that print a
//! summary of a project's outdated dependencies.
use crate::args::{arg_entries, build_flag_args, flag_args};
use crate::check::{args_suffix, args_suffix_text, cd_suffix, cd_suffix_text, executable_in_path};
use crate::error::MedicError;
use crate::extra::command::{command_text, opt_string_view, BaseEnv, CommandSpec};
use crate::keyed::KeyedList;
use crate::outdated::summary::{
    deps_view, failure_message, opt_view, summary_panics, summary_parse, OutdatedSummary,
};
use crate::outdated::table::title_style;
use crate::recoverable::{Recoverable, Remedy};
use crate::style::{paint, styled, Color, OptionalStyled, TextStyle};
use crate::text::lines_seq;
use crate::theme::ColorTheme;
use crate::util::StringOrList;
use vstd::prelude::*;

verus! {

/// An outdated check: runs `medic-outdated-<check>` in `cd` with a
/// `--flag value` pair per argument value.
pub struct OutdatedCheck {
    pub args: Option<KeyedList<StringOrList>>,
    pub cd: Option<String>,
    pub check: String,
    pub name: Option<String>,
    pub platform: Option<Vec<String>>,
    pub remedy: Option<String>,
}

/// How an outdated check is shown: its name in the text style when it has
/// one; else `outdated:` in the text style, the check in the highlight
/// style, its directory in the cd style and its arguments in the args
/// style.
pub open spec fn outdated_check_text(c: OutdatedCheck, theme: ColorTheme) -> Seq<char> {
    match c.name {
        Some(n) => styled(theme.text_style, n@),
        None => styled(theme.text_style, "outdated:"@) + " "@ + styled(theme.highlight_style, c.check@)
            + cd_suffix(c.cd, theme.cd_style) + args_suffix(c.args, theme.args_style),
    }
}

/// Whether `r` is the command that runs `medic-outdated-<check>`, given
/// whether that program was found and the canonical path of the directory
/// `cd`: an error when the program is not in the `PATH`, an error when the
/// directory does not exist, else the program with the flags for `args`,
/// in that path, on the inherited environment.
pub open spec fn outdated_command_spec(
    check: Seq<char>,
    cd: Option<String>,
    args: Option<KeyedList<StringOrList>>,
    found: bool,
    resolved_dir: Option<String>,
    r: Result<CommandSpec, MedicError>,
) -> bool {
    if !found {
        r matches Err(MedicError::Message(m)) && m@ == "executable "@ + "medic-outdated-"@ + check
            + " not found in PATH"@
    } else if cd is Some && resolved_dir is None {
        r matches Err(MedicError::Message(m)) && m@ == "directory "@ + cd->0@ + " does not exist"@
    } else {
        r matches Ok(cmd) && cmd@.program == "medic-outdated-"@ + check && cmd@.args == (match args {
            Some(a) => flag_args(arg_entries(a.view())),
            None => Seq::empty(),
        }) && cmd@.envs == Seq::<(Seq<char>, Seq<char>)>::empty() && cmd@.dir == (if cd is Some {
            opt_string_view(resolved_dir)
        } else {
            None
        }) && cmd@.base_env == BaseEnv::Inherited
    }
}

/// The command of outdated check `c` (see `outdated_command_spec`).
pub open spec fn outdated_command_result(
    c: OutdatedCheck,
    found: bool,
    resolved_dir: Option<String>,
    r: Result<CommandSpec, MedicError>,
) -> bool {
    outdated_command_spec(c.check@, c.cd, c.args, found, resolved_dir, r)
}

/// The program an outdated check named `check` runs:
/// `medic-outdated-<check>`.
pub fn outdated_program(check: &String) -> (r: String)
    ensures
        r@ == "medic-outdated-"@ + check@,
{
    let mut program = "medic-outdated-".to_owned();
    program.append(check.as_str());
    program
}

/// The command that runs `medic-outdated-<check>` (see
/// `outdated_command_spec`).
pub fn outdated_command(
    check: &String,
    cd: &Option<String>,
    args: &Option<KeyedList<StringOrList>>,
    found: bool,
    resolved_dir: Option<String>,
) -> (r: Result<CommandSpec, MedicError>)
    ensures
        outdated_command_spec(check@, *cd, *args, found, resolved_dir, r),
{
    let program = outdated_program(check);
    if !found {
        let mut msg = "executable ".to_owned();
        msg.append(program.as_str());
        msg.append(" not found in PATH");
        assert(msg@ =~= "executable "@ + "medic-outdated-"@ + check@ + " not found in PATH"@);
        return Err(MedicError::Message(msg));
    }
    let dir = match cd {
        Some(directory) => match resolved_dir {
            Some(d) => Some(d),
            None => {
                let mut msg = "directory ".to_owned();
                msg.append(directory.as_str());
                msg.append(" does not exist");
                return Err(MedicError::Message(msg));
            },
        },
        None => None,
    };
    let mut command = CommandSpec {
        program,
        args: Vec::new(),
        envs: Vec::new(),
        dir,
        base_env: BaseEnv::Inherited,
    };
    assert(command@.args =~= Seq::<Seq<char>>::empty());
    assert(command@.envs =~= Seq::<(Seq<char>, Seq<char>)>::empty());
    if let Some(a) = args {
        let flags = build_flag_args(a);
        command.args_from(&flags);
    }
    Ok(command)
}

/// The prefix of the error reported for output that cannot be read.
pub open spec fn unreadable_prefix() -> Seq<char> {
    "Unable to parse outdated output:\r\n"@
}

/// The remedy an outdated check offers for the summary's remedy command:
/// that command, run in the check's directory.
pub open spec fn summary_remedy(c: OutdatedCheck, s: OutdatedSummary) -> Option<Remedy> {
    match s.remedy {
        Some(cmd) => Some(Remedy { command: cmd, cd: c.cd }),
        None => None,
    }
}

/// The line that shows a remedy: indented, `Remedy:` in bold underline and
/// the command line (in the directory) in yellow, styled when colours are
/// on.
pub open spec fn remedy_line_text(command: Seq<char>, cd: Option<Seq<char>>, colors: bool) -> Seq<char> {
    "    "@ + (if colors {
        styled(title_style(), "Remedy:"@)
    } else {
        "Remedy:"@
    }) + " "@ + (if colors {
        styled(TextStyle { fg: Some(Color::Yellow), bright: false, bold: false, underlined: false }, command_text(command, cd))
    } else {
        command_text(command, cd)
    })
}

impl OutdatedCheck {
    pub fn platform(&self) -> (r: &Option<Vec<String>>)
        ensures
            *r == self.platform,
    {
        &self.platform
    }

    /// An outdated check's output is always shown as it runs.
    pub fn verbose(&self) -> (r: bool)
        ensures
            r,
    {
        true
    }

    /// How the check is shown in progress output.
    pub fn to_string(&self, theme: &ColorTheme) -> (r: String)
        ensures
            r@ == outdated_check_text(*self, *theme),
    {
        match &self.name {
            Some(n) => OptionalStyled::new(n.as_str(), theme.text_style).to_string(),
            None => {
                let mut r = OptionalStyled::new("outdated:", theme.text_style).to_string();
                r.append(" ");
                let check = OptionalStyled::new(self.check.as_str(), theme.highlight_style).to_string();
                r.append(check.as_str());
                let cd = cd_suffix_text(&self.cd, theme.cd_style);
                r.append(cd.as_str());
                let args = args_suffix_text(&self.args, theme.args_style);
                r.append(args.as_str());
                r
            },
        }
    }

    /// The command that runs the check, given whether
    /// `medic-outdated-<check>` was found and the canonical path of its
    /// directory (`None` when it does not exist).
    pub fn command_given(&self, found: bool, resolved_dir: Option<String>) -> (r: Result<CommandSpec, MedicError>)
        ensures
            outdated_command_result(*self, found, resolved_dir, r),
    {
        outdated_command(&self.check, &self.cd, &self.args, found, resolved_dir)
    }

    /// The command that runs the check, given the canonical path of its
    /// directory; whether the program is in the `PATH` is looked up.
    pub fn to_command(&self, resolved_dir: Option<String>) -> (r: Result<CommandSpec, MedicError>)
        ensures
            outdated_command_result(*self, true, resolved_dir, r) || outdated_command_result(
                *self,
                false,
                resolved_dir,
                r,
            ),
    {
        let program = outdated_program(&self.check);
        let found = executable_in_path(program.as_str());
        self.command_given(found, resolved_dir)
    }

    /// The outcome of running the check, given whether it succeeded and
    /// what it wrote, with the summary it printed when that names
    /// dependencies: a failure when it failed or its summary cannot be
    /// read, success when no dependency is outdated, else a success that
    /// offers the summary's remedy.
    pub fn outcome(&self, success: bool, stdout: &str, stderr: &str) -> (r: (Recoverable<()>, Option<OutdatedSummary>))
        requires
            success ==> !summary_panics(lines_seq(stdout@), true),
        ensures
            !success ==> r.1 is None && (r.0 matches Recoverable::Error(Some(MedicError::Message(m)), None)
                && m@ == unreadable_prefix() + stderr@),
            success ==> match summary_parse(lines_seq(stdout@), true) {
                Err((t, f)) => r.1 is None && (r.0 matches Recoverable::Error(Some(MedicError::Message(m)), None)
                    && m@.len() >= unreadable_prefix().len()
                    && m@.take(unreadable_prefix().len() as int) == unreadable_prefix()
                    && failure_message(f, t, m@.skip(unreadable_prefix().len() as int))),
                Ok((deps, remedy)) => if deps.len() == 0 {
                    r.1 is None && r.0 == Recoverable::<()>::Success(())
                } else {
                    r.1 matches Some(s) && deps_view(s.deps@) == deps && opt_view(s.remedy) == remedy
                        && r.0 == Recoverable::Optional((), summary_remedy(*self, s))
                },
            },
    {
        if !success {
            let mut msg = "Unable to parse outdated output:\r\n".to_owned();
            msg.append(stderr);
            return (Recoverable::Error(Some(MedicError::Message(msg)), None), None);
        }
        match OutdatedSummary::from_str(stdout) {
            Err(e) => {
                let mut msg = "Unable to parse outdated output:\r\n".to_owned();
                let ghost prefix = msg@;
                msg.append(e.0.as_str());
                assert(msg@.take(prefix.len() as int) =~= prefix);
                assert(msg@.skip(prefix.len() as int) =~= e.0@);
                (Recoverable::Error(Some(MedicError::Message(msg)), None), None)
            },
            Ok(summary) => {
                if summary.deps.len() == 0 {
                    (Recoverable::Success(()), None)
                } else {
                    let remedy = match &summary.remedy {
                        Some(cmd) => Some(Remedy::new(cmd.clone(), crate::extra::command::clone_opt(&self.cd))),
                        None => None,
                    };
                    (Recoverable::Optional((), remedy), Some(summary))
                }
            },
        }
    }

    /// The line that shows the remedy `command`, run in the check's
    /// directory, styled when `colors`.
    pub fn remedy_line(&self, command: &String, colors: bool) -> (r: String)
        ensures
            r@ == remedy_line_text(command@, opt_string_view(self.cd), colors),
    {
        let mut r = "    ".to_owned();
        if colors {
            r.append(paint(&TextStyle { fg: None, bright: false, bold: true, underlined: true }, "Remedy:").as_str());
        } else {
            r.append("Remedy:");
        }
        r.append(" ");
        let line = crate::extra::command::to_string(command, &self.cd);
        if colors {
            r.append(paint(&TextStyle::color(Color::Yellow), line.as_str()).as_str());
        } else {
            r.append(line.as_str());
        }
        r
    }
}

} // verus!
