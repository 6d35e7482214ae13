//! A step that runs a line of shell, with an optional remedy to offer
//! when it fails.
use crate::check::cd_suffix_text;
use crate::check::cd_suffix;
use crate::error::MedicError;
use crate::extra::command::{clone_opt, opt_string_view, pairs_view, BaseEnv, CommandSpec};
use crate::keyed::KeyedList;
use crate::recoverable::{Recoverable, Remedy};
use crate::style::{styled, OptionalStyled};
use crate::theme::ColorTheme;
use vstd::prelude::*;

verus! {

/// A shell step: `shell` is run by `sh -c` in `cd` with `env` set. A
/// failure may be allowed, or left to be fixed by hand (`manual`); `inline`
/// runs it on the terminal itself.
pub struct ShellConfig {
    pub allow_failure: bool,
    pub cd: Option<String>,
    pub env: KeyedList<String>,
    pub inline: bool,
    pub manual: bool,
    pub name: String,
    pub platform: Option<Vec<String>>,
    pub remedy: Option<String>,
    pub shell: String,
    pub verbose: bool,
}

/// How a shell step is shown: its name in the theme's text style, its
/// command line in parentheses in the args style, its directory in the cd
/// style.
pub open spec fn shell_text(s: ShellConfig, theme: ColorTheme) -> Seq<char> {
    styled(theme.text_style, s.name@) + " "@ + styled(theme.args_style, "("@ + s.shell@ + ")"@)
        + cd_suffix(s.cd, theme.cd_style)
}

/// The remedy a failed shell step offers: its remedy command, run in its
/// directory.
pub open spec fn shell_remedy(s: ShellConfig) -> Option<Remedy> {
    match s.remedy {
        Some(c) => Some(Remedy { command: c, cd: s.cd }),
        None => None,
    }
}

/// Whether `r` is the command of shell step `s`, given the canonical path
/// of its directory: an error for an empty command line, an error for a
/// directory that does not exist, else `sh -c <shell>` in that path with the
/// step's variables set on the inherited environment.
pub open spec fn shell_command_result(
    s: ShellConfig,
    resolved_dir: Option<String>,
    r: Result<CommandSpec, MedicError>,
) -> bool {
    if s.shell@.len() == 0 {
        r matches Err(MedicError::Message(m)) && m@ == "No shell command specified"@
    } else if s.cd is Some && resolved_dir is None {
        r matches Err(MedicError::Message(m)) && m@ == "directory "@ + s.cd->0@ + " does not exist"@
    } else {
        r matches Ok(cmd) && cmd@.program == "sh"@ && cmd@.args == seq!["-c"@, s.shell@]
            && cmd@.envs == pairs_view(s.env.view()) && cmd@.dir == (if s.cd is Some {
            opt_string_view(resolved_dir)
        } else {
            None
        }) && cmd@.base_env == BaseEnv::Inherited
    }
}

/// The outcome of a shell step whose command failed, `stderr` being what
/// it wrote: left to be fixed by hand with that output as the error when
/// manual, else allowed when failures are, else a failure; each offering
/// the step's remedy.
pub open spec fn shell_failure(s: ShellConfig, stderr: String) -> Recoverable<()> {
    if s.manual {
        Recoverable::Manual(Some(MedicError::Message(stderr)), shell_remedy(s))
    } else if s.allow_failure {
        Recoverable::Optional((), shell_remedy(s))
    } else {
        Recoverable::Error(None, shell_remedy(s))
    }
}

impl ShellConfig {
    /// A step named `name` running `shell` in `cd`, offering `remedy`; no
    /// variables, on every platform, failures neither allowed nor manual,
    /// not inline.
    pub fn new(name: String, shell: String, cd: Option<String>, remedy: Option<String>, verbose: bool) -> (r: Self)
        ensures
            r.name == name,
            r.shell == shell,
            r.cd == cd,
            r.remedy == remedy,
            r.verbose == verbose,
            r.env@ == Seq::<(String, String)>::empty(),
            !r.manual,
            r.platform is None,
            !r.allow_failure,
            !r.inline,
    {
        ShellConfig {
            cd,
            env: KeyedList::new(),
            manual: false,
            name,
            platform: None,
            shell,
            remedy,
            verbose,
            allow_failure: false,
            inline: false,
        }
    }

    pub fn allow_failure(&self) -> (r: bool)
        ensures
            r == self.allow_failure,
    {
        self.allow_failure
    }

    pub fn platform(&self) -> (r: &Option<Vec<String>>)
        ensures
            *r == self.platform,
    {
        &self.platform
    }

    /// Whether the step's output is shown as it runs: when asked for, and
    /// the step does not run on the terminal itself.
    pub fn verbose(&self) -> (r: bool)
        ensures
            r == (self.verbose && !self.inline),
    {
        self.verbose && !self.inline
    }

    /// How the step is shown in progress output.
    pub fn to_string(&self, theme: &ColorTheme) -> (r: String)
        ensures
            r@ == shell_text(*self, *theme),
    {
        let mut r = OptionalStyled::new(self.name.as_str(), theme.text_style).to_string();
        r.append(" ");
        let mut line = "(".to_owned();
        line.append(self.shell.as_str());
        line.append(")");
        let args = OptionalStyled::new(line.as_str(), theme.args_style).to_string();
        r.append(args.as_str());
        let cd = cd_suffix_text(&self.cd, theme.cd_style);
        r.append(cd.as_str());
        r
    }

    /// The command that runs the step, given the canonical path of its
    /// directory (`resolved_dir`, `None` when the directory does not
    /// exist; not looked at when the step has none). An empty command line
    /// and a missing directory are errors.
    pub fn command_given(&self, resolved_dir: Option<String>) -> (r: Result<CommandSpec, MedicError>)
        ensures
            shell_command_result(*self, resolved_dir, r),
    {
        if self.shell.as_str().unicode_len() == 0 {
            return Err(MedicError::Message("No shell command specified".to_owned()));
        }
        let dir = match &self.cd {
            Some(directory) => match resolved_dir {
                Some(d) => Some(d),
                None => {
                    let mut msg = "directory ".to_owned();
                    msg.append(directory.as_str());
                    msg.append(" does not exist");
                    return Err(MedicError::Message(msg));
                },
            },
            None => None,
        };
        let mut command = CommandSpec {
            program: "sh".to_owned(),
            args: Vec::new(),
            envs: Vec::new(),
            dir,
            base_env: BaseEnv::Inherited,
        };
        assert(command@.args =~= Seq::<Seq<char>>::empty());
        assert(command@.envs =~= Seq::<(Seq<char>, Seq<char>)>::empty());
        command.arg("-c");
        command.arg(self.shell.as_str());
        command.envs_from(&self.env);
        assert(command@.args =~= seq!["-c"@, self.shell@]);
        assert(command@.envs =~= pairs_view(self.env.view()));
        Ok(command)
    }

    /// The outcome of the step once its command failed (see
    /// `shell_failure`).
    pub fn failure_outcome(&self, stderr: String) -> (r: Recoverable<()>)
        ensures
            r == shell_failure(*self, stderr),
    {
        let remedy = match &self.remedy {
            Some(c) => Some(Remedy::new(c.clone(), clone_opt(&self.cd))),
            None => None,
        };
        if self.manual {
            Recoverable::Manual(Some(MedicError::Message(stderr)), remedy)
        } else if self.allow_failure {
            Recoverable::Optional((), remedy)
        } else {
            Recoverable::Error(None, remedy)
        }
    }

    /// The outcome of running the step: success when its command
    /// succeeded, else as `failure_outcome` says.
    pub fn outcome(&self, success: bool, stderr: String) -> (r: Recoverable<()>)
        ensures
            success ==> r == Recoverable::<()>::Success(()),
            !success ==> r == shell_failure(*self, stderr),
    {
        if success {
            Recoverable::Success(())
        } else {
            self.failure_outcome(stderr)
        }
    }
}

/// A failed shell step lets medic go on (`?` continues past its outcome)
/// exactly when its failure is allowed and it is not left to be fixed by
/// hand.
pub proof fn lemma_allowed_failure_continues(s: ShellConfig, stderr: String)
    ensures
        (crate::recoverable::recoverable_branch(shell_failure(s, stderr)) is Continue) <==> (
        !s.manual && s.allow_failure),
{
}

/// Whatever kind of failure a shell step's is, it offers the step's own
/// remedy command, to run in the step's own directory, and no remedy when
/// the step has none; the kind is manual (carrying what the step wrote to
/// standard error) when the step is manual, else allowed when its failure
/// is allowed, else a plain failure with no error.
pub proof fn lemma_failure_remedy_runs_in_step_dir(s: ShellConfig, stderr: String)
    ensures
        match shell_failure(s, stderr) {
            Recoverable::Manual(_, r) => r == (match s.remedy {
                Some(c) => Some(Remedy { command: c, cd: s.cd }),
                None => None,
            }),
            Recoverable::Optional(_, r) => r == (match s.remedy {
                Some(c) => Some(Remedy { command: c, cd: s.cd }),
                None => None,
            }),
            Recoverable::Error(_, r) => r == (match s.remedy {
                Some(c) => Some(Remedy { command: c, cd: s.cd }),
                None => None,
            }),
            _ => false,
        },
        s.manual ==> (shell_failure(s, stderr) matches Recoverable::Manual(Some(MedicError::Message(m)), _)
            && m == stderr),
        !s.manual && s.allow_failure ==> shell_failure(s, stderr) is Optional,
        !s.manual && !s.allow_failure ==> shell_failure(s, stderr) matches Recoverable::Error(None, _),
        forall|r: Remedy| #[trigger] shell_failure(s, stderr) == Recoverable::<()>::Optional((), Some(r))
            ==> r.cd == s.cd,
{
}

} // verus!
