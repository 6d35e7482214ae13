//! The outcome of running a check or step, and the remedy it may suggest.
use crate::error::{error_text, MedicError};
use crate::extra::command::{command_text, from_string, opt_string_view, CommandSpec};
use crate::keyed::KeyedList;
use crate::style::{styled, OptionalStyled};
use crate::theme::ColorTheme;
use vstd::prelude::*;

verus! {

/// A shell command suggested to fix a failure, and the directory to run it
/// in.
pub struct Remedy {
    pub command: String,
    pub cd: Option<String>,
}

impl Remedy {
    pub fn new(command: String, cd: Option<String>) -> (r: Self)
        ensures
            r.command == command,
            r.cd == cd,
    {
        Remedy { command, cd }
    }

    /// The command that applies the remedy: `sh -c <command>` in its
    /// directory.
    pub fn to_command(&self) -> (r: CommandSpec)
        ensures
            r@.program == "sh"@,
            r@.args == seq!["-c"@, self.command@],
            r@.envs == Seq::<(Seq<char>, Seq<char>)>::empty(),
            r@.dir == opt_string_view(self.cd),
            r@.base_env == crate::extra::command::BaseEnv::Filtered,
    {
        let env: KeyedList<String> = KeyedList::new();
        let r = from_string(self.command.as_str(), &self.cd, &env);
        assert(crate::extra::command::pairs_view(env.view()) =~= Seq::<
            (Seq<char>, Seq<char>),
        >::empty());
        r
    }

    /// How the remedy is shown: `(cd <dir> && <command>)`, or the command.
    pub fn to_string(&self) -> (r: String)
        ensures
            r@ == command_text(self.command@, opt_string_view(self.cd)),
    {
        crate::extra::command::to_string(&self.command, &self.cd)
    }
}

/// The outcome of running a check or step.
pub enum Recoverable<T> {
    /// A failure, maybe with a remedy to apply.
    Error(Option<MedicError>, Option<Remedy>),
    /// A failure to be fixed by hand.
    Manual(Option<MedicError>, Option<Remedy>),
    /// A failure after which medic quits.
    Nonrecoverable(MedicError),
    Success(T),
    /// A success with something that could be improved.
    Optional(T, Option<Remedy>),
    /// Medic was asked to quit.
    Quit,
}

/// The failure of a check or step whose command could not be made: its
/// error, behind `Failed to parse command: `, and no remedy.
pub fn unparsed_command(e: &MedicError) -> (r: Recoverable<()>)
    ensures
        r matches Recoverable::Error(Some(MedicError::Message(m)), None) && m@
            == "Failed to parse command: "@ + error_text(*e),
{
    let mut m = "Failed to parse command: ".to_owned();
    let text = e.to_string();
    m.append(text.as_str());
    Recoverable::Error(Some(MedicError::Message(m)), None)
}

/// Whether to go on with a value or stop with a residual (what `?` does).
pub enum Flow<B, C> {
    Continue(C),
    Break(B),
}

/// The error that an outcome that stops carries on.
pub struct ResultCodeResidual(pub Option<MedicError>);

/// What `?` does with an outcome: successes go on with their value,
/// failures stop with their error.
pub open spec fn recoverable_branch<T>(r: Recoverable<T>) -> Flow<ResultCodeResidual, T> {
    match r {
        Recoverable::Error(e, _) => Flow::Break(ResultCodeResidual(e)),
        Recoverable::Manual(e, _) => Flow::Break(ResultCodeResidual(e)),
        Recoverable::Nonrecoverable(e) => Flow::Break(ResultCodeResidual(Some(e))),
        Recoverable::Success(v) => Flow::Continue(v),
        Recoverable::Optional(v, _) => Flow::Continue(v),
        Recoverable::Quit => Flow::Break(ResultCodeResidual(None)),
    }
}

/// The exit status of an outcome.
pub open spec fn recoverable_exit_code<T>(r: Recoverable<T>) -> int {
    match r {
        Recoverable::Error(_, _) => 1,
        Recoverable::Manual(_, _) => 1,
        Recoverable::Nonrecoverable(_) => crate::QUIT_STATUS_CODE as int,
        Recoverable::Success(_) => 0,
        Recoverable::Optional(_, _) => 0,
        Recoverable::Quit => crate::QUIT_STATUS_CODE as int,
    }
}

/// The line reported for an error: `ERROR:` and the message, both in the
/// theme's error style.
pub open spec fn error_line(e: MedicError, theme: ColorTheme) -> Seq<char> {
    styled(theme.error_style, "ERROR:"@) + " "@ + styled(theme.error_style, error_text(e))
}

/// The error line for `e`.
pub fn error_line_text(e: &MedicError, theme: &ColorTheme) -> (r: String)
    ensures
        r@ == error_line(*e, *theme),
{
    let mut r = OptionalStyled::new("ERROR:", theme.error_style).to_string();
    r.append(" ");
    let msg = e.to_string();
    let styled_msg = OptionalStyled::new(msg.as_str(), theme.error_style).to_string();
    r.append(styled_msg.as_str());
    assert(r@ =~= error_line(*e, *theme));
    r
}

impl<T> Recoverable<T> {
    /// What `?` does with the outcome.
    pub fn branch(self) -> (r: Flow<ResultCodeResidual, T>)
        ensures
            r == recoverable_branch(self),
    {
        match self {
            Recoverable::Error(e, _) => Flow::Break(ResultCodeResidual(e)),
            Recoverable::Manual(e, _) => Flow::Break(ResultCodeResidual(e)),
            Recoverable::Nonrecoverable(e) => Flow::Break(ResultCodeResidual(Some(e))),
            Recoverable::Success(v) => Flow::Continue(v),
            Recoverable::Optional(v, _) => Flow::Continue(v),
            Recoverable::Quit => Flow::Break(ResultCodeResidual(None)),
        }
    }

    pub fn from_output(t: T) -> (r: Self)
        ensures
            r == Recoverable::Success(t),
    {
        Recoverable::Success(t)
    }

    /// The outcome a stopped `?` gives: a failure with the error and no
    /// remedy.
    pub fn from_residual(r: ResultCodeResidual) -> (o: Self)
        ensures
            o == Recoverable::<T>::Error(r.0, None),
    {
        Recoverable::Error(r.0, None)
    }

    /// The outcome of `?` on an error: a failure with the error and no
    /// remedy.
    pub fn from_error(e: MedicError) -> (o: Self)
        ensures
            o == Recoverable::<T>::Error(Some(e), None),
    {
        Recoverable::Error(Some(e), None)
    }

    /// The exit status reported for the outcome.
    pub fn exit_code(&self) -> (c: i32)
        ensures
            c == recoverable_exit_code(*self),
    {
        match self {
            Recoverable::Error(_, _) => 1,
            Recoverable::Manual(_, _) => 1,
            Recoverable::Nonrecoverable(_) => crate::QUIT_STATUS_CODE,
            Recoverable::Success(_) => 0,
            Recoverable::Optional(_, _) => 0,
            Recoverable::Quit => crate::QUIT_STATUS_CODE,
        }
    }

    /// The error line reported for the outcome, if any.
    pub fn report_message(&self, theme: &ColorTheme) -> (r: Option<String>)
        ensures
            match *self {
                Recoverable::Error(Some(e), _) => r matches Some(s) && s@ == error_line(e, *theme),
                Recoverable::Nonrecoverable(e) => r matches Some(s) && s@ == error_line(e, *theme),
                _ => r is None,
            },
    {
        match self {
            Recoverable::Error(Some(e), _) => Some(error_line_text(e, theme)),
            Recoverable::Nonrecoverable(e) => Some(error_line_text(e, theme)),
            _ => None,
        }
    }
}

/// `?` goes on exactly with the successes, which are the outcomes that
/// exit with status 0; an outcome that stops carries its error on.
pub proof fn lemma_recoverable_branch<T>(r: Recoverable<T>)
    ensures
        match recoverable_branch(r) {
            Flow::Continue(v) => (r is Success || r is Optional) && recoverable_exit_code(r) == 0,
            Flow::Break(res) => !(r is Success || r is Optional) && res.0 == match r {
                Recoverable::Error(e, _) => e,
                Recoverable::Manual(e, _) => e,
                Recoverable::Nonrecoverable(e) => Some(e),
                _ => None,
            } && recoverable_exit_code(r) != 0,
        },
{
}

} // verus!
