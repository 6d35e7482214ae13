//! The steps of `medic shipit` as the stand-alone shipit command runs
//! them: the nested workflows run `medic audit`, `medic test` and `medic
//! update`.
use crate::app_result::AppResult;
use crate::check::{check_command_result, check_text, Check};
use crate::error::MedicError;
use crate::extra::command::{BaseEnv, CommandSpec};
use crate::shell::shell_config::{shell_command_result, shell_text};
use crate::shell::ShellConfig;
use crate::step::step_config::{step_command_result, step_text};
use crate::step::StepConfig;
use crate::theme::ColorTheme;
use vstd::prelude::*;

pub use crate::noop_config::NoopConfig;

verus! {

/// A step of `medic shipit`.
pub enum ShipitStep {
    Check(Check),
    Shell(ShellConfig),
    Step(StepConfig),
    Audit(AuditConfig),
    Test(TestConfig),
    Update(UpdateConfig),
}

/// Runs `medic audit`.
pub struct AuditConfig {
    pub audit: NoopConfig,
}

/// Runs `medic test`.
pub struct TestConfig {
    pub test: NoopConfig,
}

/// Runs `medic update`.
pub struct UpdateConfig {
    pub update: NoopConfig,
}

/// Which nested workflow a step runs.
#[derive(Clone, Copy, PartialEq, Eq, Structural)]
pub enum Workflow {
    Audit,
    Test,
    Update,
}

/// The subcommand of `medic` that runs a workflow.
pub open spec fn workflow_name(w: Workflow) -> Seq<char> {
    match w {
        Workflow::Audit => "audit"@,
        Workflow::Test => "test"@,
        Workflow::Update => "update"@,
    }
}

/// How a workflow step is shown: its title in cyan.
pub open spec fn workflow_text(w: Workflow) -> Seq<char> {
    match w {
        Workflow::Audit => "\x1b[36m== Audit ===\x1b[0m"@,
        Workflow::Test => "\x1b[36m== Test ===\x1b[0m"@,
        Workflow::Update => "\x1b[36m== Update ===\x1b[0m"@,
    }
}

/// The message of a workflow that failed.
pub open spec fn workflow_failure(w: Workflow) -> Seq<char> {
    match w {
        Workflow::Audit => "Audit failure"@,
        Workflow::Test => "Test failure"@,
        Workflow::Update => "Unable to update project"@,
    }
}

/// `medic <workflow>` on the inherited environment.
pub fn workflow_command(w: Workflow) -> (r: CommandSpec)
    ensures
        r@.program == "medic"@,
        r@.args == seq![workflow_name(w)],
        r@.envs == Seq::<(Seq<char>, Seq<char>)>::empty(),
        r@.dir is None,
        r@.base_env == BaseEnv::Inherited,
{
    let mut command = CommandSpec {
        program: "medic".to_owned(),
        args: Vec::new(),
        envs: Vec::new(),
        dir: None,
        base_env: BaseEnv::Inherited,
    };
    assert(command@.args =~= Seq::<Seq<char>>::empty());
    assert(command@.envs =~= Seq::<(Seq<char>, Seq<char>)>::empty());
    let name = match w {
        Workflow::Audit => "audit",
        Workflow::Test => "test",
        Workflow::Update => "update",
    };
    command.arg(name);
    assert(command@.args =~= seq![workflow_name(w)]);
    command
}

/// How a workflow step is shown.
pub fn workflow_title(w: Workflow) -> (r: String)
    ensures
        r@ == workflow_text(w),
{
    match w {
        Workflow::Audit => "\x1b[36m== Audit ===\x1b[0m".to_owned(),
        Workflow::Test => "\x1b[36m== Test ===\x1b[0m".to_owned(),
        Workflow::Update => "\x1b[36m== Update ===\x1b[0m".to_owned(),
    }
}

/// The result of running a workflow, given whether it could be run and
/// whether it succeeded.
pub fn workflow_outcome(w: Workflow, ran: Option<bool>) -> (r: AppResult<()>)
    ensures
        ran == Some(true) ==> r == AppResult::<()>::Success(()),
        ran == Some(false) ==> (r matches AppResult::Error(Some(MedicError::Message(m))) && m@
            == workflow_failure(w)),
        ran is None ==> (r matches AppResult::Error(Some(MedicError::Message(m))) && m@
            == "Unable to run medic "@ + workflow_name(w)),
{
    match ran {
        Some(true) => AppResult::Success(()),
        Some(false) => {
            let msg = match w {
                Workflow::Audit => "Audit failure",
                Workflow::Test => "Test failure",
                Workflow::Update => "Unable to update project",
            };
            AppResult::Error(Some(MedicError::Message(msg.to_owned())))
        },
        None => {
            let mut msg = "Unable to run medic ".to_owned();
            let name = match w {
                Workflow::Audit => "audit",
                Workflow::Test => "test",
                Workflow::Update => "update",
            };
            msg.append(name);
            AppResult::Error(Some(MedicError::Message(msg)))
        },
    }
}

/// The workflow a step runs, if it is one.
pub open spec fn step_workflow(s: ShipitStep) -> Option<Workflow> {
    match s {
        ShipitStep::Audit(_) => Some(Workflow::Audit),
        ShipitStep::Test(_) => Some(Workflow::Test),
        ShipitStep::Update(_) => Some(Workflow::Update),
        _ => None,
    }
}

/// How a step is shown.
pub open spec fn shipit_step_text(s: ShipitStep, theme: ColorTheme) -> Seq<char> {
    match s {
        ShipitStep::Check(c) => check_text(c),
        ShipitStep::Shell(c) => shell_text(c, theme),
        ShipitStep::Step(c) => step_text(c),
        ShipitStep::Audit(_) => workflow_text(Workflow::Audit),
        ShipitStep::Test(_) => workflow_text(Workflow::Test),
        ShipitStep::Update(_) => workflow_text(Workflow::Update),
    }
}

impl ShipitStep {
    /// The workflow the step runs, if it is one.
    pub fn workflow(&self) -> (r: Option<Workflow>)
        ensures
            r == step_workflow(*self),
    {
        match self {
            ShipitStep::Audit(_) => Some(Workflow::Audit),
            ShipitStep::Test(_) => Some(Workflow::Test),
            ShipitStep::Update(_) => Some(Workflow::Update),
            _ => None,
        }
    }

    /// Only shell steps and steps may be allowed to fail.
    pub fn allow_failure(&self) -> (r: bool)
        ensures
            r == ((self matches ShipitStep::Shell(c) && c.allow_failure) || (self matches ShipitStep::Step(c) && c.allow_failure)),
    {
        match self {
            ShipitStep::Check(config) => config.allow_failure(),
            ShipitStep::Shell(config) => config.allow_failure(),
            ShipitStep::Step(config) => config.allow_failure(),
            _ => false,
        }
    }

    /// Whether the step's output is shown as it runs; always for the
    /// workflows.
    pub fn verbose(&self) -> (r: bool)
        ensures
            r == match *self {
                ShipitStep::Check(c) => c.verbose,
                ShipitStep::Shell(c) => c.verbose && !c.inline,
                ShipitStep::Step(c) => c.verbose,
                _ => true,
            },
    {
        match self {
            ShipitStep::Check(config) => config.verbose(),
            ShipitStep::Shell(config) => config.verbose(),
            ShipitStep::Step(config) => config.verbose(),
            _ => true,
        }
    }

    /// How the step is shown in progress output.
    pub fn to_string(&self, theme: &ColorTheme) -> (r: String)
        ensures
            r@ == shipit_step_text(*self, *theme),
    {
        match self {
            ShipitStep::Check(config) => config.to_string(),
            ShipitStep::Shell(config) => config.to_string(theme),
            ShipitStep::Step(config) => config.to_string(),
            ShipitStep::Audit(_) => workflow_title(Workflow::Audit),
            ShipitStep::Test(_) => workflow_title(Workflow::Test),
            ShipitStep::Update(_) => workflow_title(Workflow::Update),
        }
    }

    /// The command that runs the step, if it has one, given the canonical
    /// path of a shell step's directory; a workflow runs `medic
    /// <workflow>`.
    pub fn to_command(&self, resolved_dir: Option<String>) -> (r: Option<CommandSpec>)
        ensures
            match *self {
                ShipitStep::Check(c) => r matches Some(cmd) ==> check_command_result(c, Ok(cmd)),
                ShipitStep::Shell(c) => match r {
                    Some(cmd) => shell_command_result(c, resolved_dir, Ok(cmd)),
                    None => c.shell@.len() == 0 || (c.cd is Some && resolved_dir is None),
                },
                ShipitStep::Step(c) => r matches Some(cmd) ==> step_command_result(c, Ok(cmd)),
                _ => r matches Some(cmd) && cmd@.program == "medic"@ && cmd@.args == seq![
                    workflow_name(step_workflow(*self)->0),
                ] && cmd@.envs == Seq::<(Seq<char>, Seq<char>)>::empty() && cmd@.dir is None,
            },
    {
        match self {
            ShipitStep::Check(config) => config.to_command().ok(),
            ShipitStep::Shell(config) => config.command_given(resolved_dir).ok(),
            ShipitStep::Step(config) => config.to_command().ok(),
            ShipitStep::Audit(_) => Some(workflow_command(Workflow::Audit)),
            ShipitStep::Test(_) => Some(workflow_command(Workflow::Test)),
            ShipitStep::Update(_) => Some(workflow_command(Workflow::Update)),
        }
    }
}

} // verus!
