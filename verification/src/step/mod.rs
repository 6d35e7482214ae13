//! Steps of a workflow: checks, shell steps, step programs, a nested run of
//! `medic doctor`, and lists of steps.
pub mod step_config;

pub use self::step_config::StepConfig;

use crate::check::{check_command_result, check_text, Check};
use crate::error::MedicError;
use crate::extra::command::{from_string, CommandSpec};
use crate::keyed::KeyedList;
use crate::noop_config::NoopConfig;
use crate::recoverable::{recoverable_branch, Flow, Recoverable};
use crate::shell::shell_config::{shell_command_result, shell_text};
use crate::shell::ShellConfig;
use crate::style::{styled, OptionalStyled};
use crate::theme::ColorTheme;
use self::step_config::{step_command_result, step_text};
use vstd::prelude::*;

verus! {

/// A step of a workflow.
pub enum Step {
    Check(Check),
    Shell(ShellConfig),
    Step(StepConfig),
    Doctor(DoctorConfig),
    Steps(Vec<Step>),
}

/// A nested run of `medic doctor`.
pub struct DoctorConfig {
    pub doctor: NoopConfig,
}

/// How a nested doctor run is shown: `== Doctor ==` in the text style.
pub open spec fn doctor_text(theme: ColorTheme) -> Seq<char> {
    styled(theme.text_style, "== Doctor =="@)
}

/// What follows a nested doctor run.
pub enum DoctorOutcome {
    /// The step's outcome.
    Done(Recoverable<()>),
    /// Medic exits at once with this status.
    Exit(i32),
}

impl DoctorConfig {
    /// The command of a nested doctor run: `medic doctor`, by the shell.
    pub fn to_command(&self) -> (r: Result<CommandSpec, MedicError>)
        ensures
            r matches Ok(cmd) && cmd@.program == "sh"@ && cmd@.args == seq!["-c"@, "medic doctor"@]
                && cmd@.envs == Seq::<(Seq<char>, Seq<char>)>::empty() && cmd@.dir is None,
    {
        let env: KeyedList<String> = KeyedList::new();
        let cmd = from_string("medic doctor", &None, &env);
        assert(crate::extra::command::pairs_view(env.view()) =~= Seq::<(Seq<char>, Seq<char>)>::empty());
        Ok(cmd)
    }

    pub fn to_string(&self, theme: &ColorTheme) -> (r: String)
        ensures
            r@ == doctor_text(*theme),
    {
        OptionalStyled::new("== Doctor ==", theme.text_style).to_string()
    }

    /// What follows the run, given whether it could be run and, if so,
    /// whether it succeeded and its exit status: success; medic exits when
    /// the nested run quit; any other failure fails the step.
    pub fn outcome(&self, result: Option<(bool, Option<i32>)>) -> (r: DoctorOutcome)
        ensures
            match result {
                None => r matches DoctorOutcome::Done(Recoverable::Error(Some(MedicError::Message(m)), None))
                    && m@ == "Unable to run doctor"@,
                Some((true, _)) => r == DoctorOutcome::Done(Recoverable::Success(())),
                Some((false, code)) => if code == Some(crate::QUIT_STATUS_CODE) {
                    r == DoctorOutcome::Exit(crate::QUIT_STATUS_CODE)
                } else {
                    r == DoctorOutcome::Done(Recoverable::Error(None, None))
                },
            },
    {
        match result {
            None => DoctorOutcome::Done(
                Recoverable::Error(Some(MedicError::Message("Unable to run doctor".to_owned())), None),
            ),
            Some((success, code)) => {
                if success {
                    DoctorOutcome::Done(Recoverable::Success(()))
                } else {
                    match code {
                        Some(c) => if c == crate::QUIT_STATUS_CODE {
                            DoctorOutcome::Exit(crate::QUIT_STATUS_CODE)
                        } else {
                            DoctorOutcome::Done(Recoverable::Error(None, None))
                        },
                        None => DoctorOutcome::Done(Recoverable::Error(None, None)),
                    }
                }
            },
        }
    }
}

/// How a step is shown in progress output.
pub open spec fn step_display(s: Step, theme: ColorTheme) -> Seq<char> {
    match s {
        Step::Check(c) => check_text(c),
        Step::Doctor(_) => doctor_text(theme),
        Step::Shell(c) => shell_text(c, theme),
        Step::Step(c) => step_text(c),
        Step::Steps(_) => styled(theme.text_style, "== Nested Steps =="@),
    }
}

impl Step {
    /// Only shell steps and steps may be allowed to fail.
    pub fn allow_failure(&self) -> (r: bool)
        ensures
            r == ((self matches Step::Shell(c) && c.allow_failure) || (self matches Step::Step(c) && c.allow_failure)),
    {
        match self {
            Step::Check(config) => config.allow_failure(),
            Step::Doctor(_) => false,
            Step::Shell(config) => config.allow_failure(),
            Step::Step(config) => config.allow_failure(),
            Step::Steps(_) => false,
        }
    }

    /// The platforms the step runs on (`None`: all).
    pub fn platform(&self) -> (r: &Option<Vec<String>>)
        ensures
            *r == match *self {
                Step::Check(c) => c.platform,
                Step::Shell(c) => c.platform,
                Step::Step(c) => c.platform,
                _ => None,
            },
    {
        match self {
            Step::Check(config) => config.platform(),
            Step::Doctor(_) => &None,
            Step::Shell(config) => config.platform(),
            Step::Step(config) => config.platform(),
            Step::Steps(_) => &None,
        }
    }

    /// Whether the step's output is shown as it runs: the step's own
    /// setting, always for a nested doctor run, never for a list.
    pub fn verbose(&self) -> (r: bool)
        ensures
            r == match *self {
                Step::Check(c) => c.verbose,
                Step::Doctor(_) => true,
                Step::Shell(c) => c.verbose,
                Step::Step(c) => c.verbose,
                Step::Steps(_) => false,
            },
    {
        match self {
            Step::Check(config) => config.verbose,
            Step::Doctor(_) => true,
            Step::Shell(config) => config.verbose,
            Step::Step(config) => config.verbose,
            Step::Steps(_) => false,
        }
    }

    /// How the step is shown in progress output.
    pub fn to_string(&self, theme: &ColorTheme) -> (r: String)
        ensures
            r@ == step_display(*self, *theme),
    {
        match self {
            Step::Check(config) => config.to_string(),
            Step::Doctor(config) => config.to_string(theme),
            Step::Shell(config) => config.to_string(theme),
            Step::Step(config) => config.to_string(),
            Step::Steps(_) => OptionalStyled::new("== Nested Steps ==", theme.text_style).to_string(),
        }
    }

    /// The command that runs the step, given the canonical path of a shell
    /// step's directory (see `ShellConfig::command_given`). A list of steps
    /// has no single command.
    pub fn to_command(&self, resolved_dir: Option<String>) -> (r: Result<CommandSpec, MedicError>)
        ensures
            match *self {
                Step::Check(c) => check_command_result(c, r),
                Step::Doctor(_) => r matches Ok(cmd) && cmd@.program == "sh"@ && cmd@.args
                    == seq!["-c"@, "medic doctor"@] && cmd@.envs == Seq::<(Seq<char>, Seq<char>)>::empty()
                    && cmd@.dir is None,
                Step::Shell(c) => shell_command_result(c, resolved_dir, r),
                Step::Step(c) => step_command_result(c, r),
                Step::Steps(_) => r matches Err(MedicError::Message(m)) && m@
                    == "Steps cannot be converted to a single command"@,
            },
    {
        match self {
            Step::Check(config) => config.to_command(),
            Step::Doctor(config) => config.to_command(),
            Step::Shell(config) => config.command_given(resolved_dir),
            Step::Step(config) => config.to_command(),
            Step::Steps(_) => Err(
                MedicError::Message("Steps cannot be converted to a single command".to_owned()),
            ),
        }
    }
}

/// How an outcome weighs when the outcomes of steps run side by side are
/// combined: failures most, then failures to fix by hand, then successes
/// with a remedy to offer, then plain successes.
pub open spec fn weight(r: Recoverable<()>) -> int {
    match r {
        Recoverable::Success(_) => 0,
        Recoverable::Optional(_, _) => 1,
        Recoverable::Manual(_, _) => 2,
        _ => 3,
    }
}

/// The last outcome of weight `w` among `rs`.
pub open spec fn last_of(rs: Seq<Recoverable<()>>, w: int) -> Option<Recoverable<()>>
    decreases rs.len(),
{
    if rs.len() == 0 {
        None
    } else if weight(rs.last()) == w {
        Some(rs.last())
    } else {
        last_of(rs.drop_last(), w)
    }
}

/// The outcome of steps run side by side: the last failure, else the last
/// failure to fix by hand, else the last success with a remedy, else
/// success.
pub open spec fn combined(rs: Seq<Recoverable<()>>) -> Recoverable<()> {
    match last_of(rs, 3) {
        Some(f) => f,
        None => match last_of(rs, 2) {
            Some(m) => m,
            None => match last_of(rs, 1) {
                Some(o) => o,
                None => Recoverable::Success(()),
            },
        },
    }
}

/// Combines the outcomes of steps run side by side, in the order they
/// finished.
pub fn combine_parallel_results(results: Vec<Recoverable<()>>) -> (r: Recoverable<()>)
    ensures
        r == combined(results@),
{
    let ghost rs = results@;
    let n = results.len();
    let mut rest = results;
    let mut failure: Option<Recoverable<()>> = None;
    let mut manual: Option<Recoverable<()>> = None;
    let mut optional: Option<Recoverable<()>> = None;
    let mut i: usize = 0;
    while rest.len() > 0
        invariant
            i + rest@.len() == rs.len(),
            rs.len() == n,
            rest@ == rs.skip(i as int),
            failure == last_of(rs.take(i as int), 3),
            manual == last_of(rs.take(i as int), 2),
            optional == last_of(rs.take(i as int), 1),
        decreases rest@.len(),
    {
        let result = rest.remove(0);
        assert(result == rs[i as int]);
        assert(rs.take(i + 1).drop_last() =~= rs.take(i as int));
        assert(rs.take(i + 1).last() == rs[i as int]);
        assert(rest@ =~= rs.skip(i + 1));
        match result {
            Recoverable::Success(_) => {},
            Recoverable::Optional(_, _) => optional = Some(result),
            Recoverable::Manual(_, _) => manual = Some(result),
            _ => failure = Some(result),
        }
        i = i + 1;
    }
    assert(rs.take(i as int) =~= rs);
    if let Some(f) = failure {
        return f;
    }
    if let Some(m) = manual {
        return m;
    }
    if let Some(o) = optional {
        return o;
    }
    Recoverable::Success(())
}

/// Whether a list of steps run one after another stops after a step with
/// this outcome, and with what: it goes on after a success, and stops after
/// anything else with a failure that carries the outcome's error (what `?`
/// does).
pub fn serial_stop(outcome: Recoverable<()>) -> (r: Option<Recoverable<()>>)
    ensures
        match recoverable_branch(outcome) {
            Flow::Continue(_) => r is None,
            Flow::Break(res) => r == Some(Recoverable::<()>::Error(res.0, None)),
        },
{
    match outcome.branch() {
        Flow::Continue(_) => None,
        Flow::Break(res) => Some(Recoverable::from_residual(res)),
    }
}

/// What `last_of` finds is an outcome of that weight from the list, and
/// when it finds none, no outcome has that weight.
pub proof fn lemma_last_of(rs: Seq<Recoverable<()>>, w: int)
    ensures
        last_of(rs, w) matches Some(x) ==> weight(x) == w && exists|i: int|
            0 <= i < rs.len() && rs[i] == x,
        last_of(rs, w) is None ==> forall|i: int| 0 <= i < rs.len() ==> weight(rs[i]) != w,
    decreases rs.len(),
{
    if rs.len() > 0 {
        lemma_last_of(rs.drop_last(), w);
        if weight(rs.last()) == w {
            assert(rs[rs.len() - 1] == rs.last());
        } else {
            if let Some(x) = last_of(rs.drop_last(), w) {
                let i = choose|i: int| 0 <= i < rs.drop_last().len() && rs.drop_last()[i] == x;
                assert(rs[i] == x);
            }
            assert forall|i: int| 0 <= i < rs.len() && last_of(rs, w) is None implies weight(rs[i])
                != w by {
                if i < rs.len() - 1 {
                    assert(rs[i] == rs.drop_last()[i]);
                }
            }
        }
    }
}

/// Steps run side by side succeed together exactly when each of them
/// succeeded; otherwise their combined outcome is one of theirs, and none
/// of them weighs more.
pub proof fn lemma_combined(rs: Seq<Recoverable<()>>)
    ensures
        (combined(rs) is Success) <==> (forall|i: int| 0 <= i < rs.len() ==> rs[i] is Success),
        !(combined(rs) is Success) ==> exists|i: int| 0 <= i < rs.len() && rs[i] == combined(rs),
        forall|i: int| 0 <= i < rs.len() ==> weight(rs[i]) <= weight(combined(rs)),
{
    lemma_last_of(rs, 3);
    lemma_last_of(rs, 2);
    lemma_last_of(rs, 1);
    assert forall|i: int| 0 <= i < rs.len() implies weight(rs[i]) <= weight(combined(rs)) by {
        assert(0 <= weight(rs[i]) <= 3);
    }
    if forall|i: int| 0 <= i < rs.len() ==> rs[i] is Success {
        assert forall|i: int| 0 <= i < rs.len() implies weight(rs[i]) == 0 by {}
    }
}

} // verus!
