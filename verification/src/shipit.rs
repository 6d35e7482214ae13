//! The steps `medic shipit` runs: checks, shell steps, step programs, and
//! the audit, test and update workflows of the same project.
use crate::app_result::AppResult;
use crate::check::{check_command_result, check_text, Check};
use crate::error::MedicError;
use crate::extra::command::CommandSpec;
use crate::noop_config::NoopConfig;
use crate::recoverable::Recoverable;
use crate::shell::shell_config::{shell_command_result, shell_text};
use crate::shell::ShellConfig;
use crate::step::step_config::{step_command_result, step_text};
use crate::step::StepConfig;
use crate::style::{styled, OptionalStyled};
use crate::theme::ColorTheme;
use vstd::prelude::*;

verus! {

/// A step of `medic shipit`.
pub enum ShipitStep {
    Check(Check),
    Shell(ShellConfig),
    Step(StepConfig),
    Audit(AuditConfig),
    Test(TestConfig),
    Update(UpdateConfig),
}

/// Runs the audit checks of the manifest.
pub struct AuditConfig {
    pub audit: NoopConfig,
}

/// Runs the test checks of the manifest.
pub struct TestConfig {
    pub test: NoopConfig,
}

/// Runs the update steps of the manifest.
pub struct UpdateConfig {
    pub update: NoopConfig,
}

/// How a shipit step is shown.
pub open spec fn shipit_step_text(s: ShipitStep, theme: ColorTheme) -> Seq<char> {
    match s {
        ShipitStep::Check(c) => check_text(c),
        ShipitStep::Shell(c) => shell_text(c, theme),
        ShipitStep::Step(c) => step_text(c),
        ShipitStep::Audit(_) => styled(theme.text_style, "== Audit =="@),
        ShipitStep::Test(_) => styled(theme.text_style, "== Test =="@),
        ShipitStep::Update(_) => styled(theme.text_style, "== Update =="@),
    }
}

/// The error of a nested workflow that could not read the manifest and
/// did not say why.
pub open spec fn unreadable_manifest(e: MedicError) -> bool {
    e matches MedicError::Message(m) && m@ == "Unable to read manifest"@
}

/// The outcome of a nested workflow (the audit, test or update steps of the
/// manifest), given how reading the manifest went (`Success` once its
/// steps ran) and whether one of its steps asked to quit: quitting quits;
/// a manifest that could not be read stops medic, with its error, or with
/// `Unable to read manifest` when reading it quit. Reading must not have
/// failed without an error.
pub fn nested_outcome(loaded: AppResult<()>, quit: bool) -> (r: Recoverable<()>)
    requires
        !(loaded matches AppResult::Error(None)),
    ensures
        match loaded {
            AppResult::Success(_) => r == (if quit {
                Recoverable::<()>::Quit
            } else {
                Recoverable::<()>::Success(())
            }),
            AppResult::Error(e) => r == Recoverable::<()>::Nonrecoverable(e->0),
            AppResult::Quit => r matches Recoverable::Nonrecoverable(e) && unreadable_manifest(e),
        },
{
    match loaded {
        AppResult::Success(_) => if quit {
            Recoverable::Quit
        } else {
            Recoverable::Success(())
        },
        AppResult::Error(e) => Recoverable::Nonrecoverable(e.unwrap()),
        AppResult::Quit => Recoverable::Nonrecoverable(
            MedicError::Message("Unable to read manifest".to_owned()),
        ),
    }
}

impl ShipitStep {
    /// Only shell steps and steps may be allowed to fail.
    pub fn allow_failure(&self) -> (r: bool)
        ensures
            r == ((self matches ShipitStep::Shell(c) && c.allow_failure) || (self matches ShipitStep::Step(c) && c.allow_failure)),
    {
        match self {
            ShipitStep::Check(config) => config.allow_failure(),
            ShipitStep::Shell(config) => config.allow_failure(),
            ShipitStep::Step(config) => config.allow_failure(),
            ShipitStep::Audit(_) => false,
            ShipitStep::Test(_) => false,
            ShipitStep::Update(_) => false,
        }
    }

    /// The platforms the step runs on (`None`: all).
    pub fn platform(&self) -> (r: &Option<Vec<String>>)
        ensures
            *r == match *self {
                ShipitStep::Check(c) => c.platform,
                ShipitStep::Shell(c) => c.platform,
                ShipitStep::Step(c) => c.platform,
                _ => None,
            },
    {
        match self {
            ShipitStep::Check(config) => config.platform(),
            ShipitStep::Shell(config) => config.platform(),
            ShipitStep::Step(config) => config.platform(),
            ShipitStep::Audit(_) => &None,
            ShipitStep::Test(_) => &None,
            ShipitStep::Update(_) => &None,
        }
    }

    /// Whether the step's output is shown as it runs; always for the
    /// nested workflows.
    pub fn verbose(&self) -> (r: bool)
        ensures
            r == match *self {
                ShipitStep::Check(c) => c.verbose,
                ShipitStep::Shell(c) => c.verbose && !c.inline,
                ShipitStep::Step(c) => c.verbose,
                _ => true,
            },
    {
        match self {
            ShipitStep::Check(config) => config.verbose(),
            ShipitStep::Shell(config) => config.verbose(),
            ShipitStep::Step(config) => config.verbose(),
            ShipitStep::Audit(_) => true,
            ShipitStep::Test(_) => true,
            ShipitStep::Update(_) => true,
        }
    }

    /// How the step is shown in progress output.
    pub fn to_string(&self, theme: &ColorTheme) -> (r: String)
        ensures
            r@ == shipit_step_text(*self, *theme),
    {
        match self {
            ShipitStep::Check(config) => config.to_string(),
            ShipitStep::Shell(config) => config.to_string(theme),
            ShipitStep::Step(config) => config.to_string(),
            ShipitStep::Audit(_) => OptionalStyled::new("== Audit ==", theme.text_style).to_string(),
            ShipitStep::Test(_) => OptionalStyled::new("== Test ==", theme.text_style).to_string(),
            ShipitStep::Update(_) => OptionalStyled::new("== Update ==", theme.text_style).to_string(),
        }
    }

    /// The command that runs the step, given the canonical path of a shell
    /// step's directory; the nested workflows have none.
    pub fn to_command(&self, resolved_dir: Option<String>) -> (r: Result<CommandSpec, MedicError>)
        ensures
            match *self {
                ShipitStep::Check(c) => check_command_result(c, r),
                ShipitStep::Shell(c) => shell_command_result(c, resolved_dir, r),
                ShipitStep::Step(c) => step_command_result(c, r),
                ShipitStep::Audit(_) => r matches Err(MedicError::Message(m)) && m@
                    == "AuditConfig cannot be converted to a Command"@,
                ShipitStep::Test(_) => r matches Err(MedicError::Message(m)) && m@
                    == "TestConfig cannot be converted to a Command"@,
                ShipitStep::Update(_) => r matches Err(MedicError::Message(m)) && m@
                    == "UpdateConfig cannot be converted to a Command"@,
            },
    {
        match self {
            ShipitStep::Check(config) => config.to_command(),
            ShipitStep::Shell(config) => config.command_given(resolved_dir),
            ShipitStep::Step(config) => config.to_command(),
            ShipitStep::Audit(_) => Err(
                MedicError::Message("AuditConfig cannot be converted to a Command".to_owned()),
            ),
            ShipitStep::Test(_) => Err(
                MedicError::Message("TestConfig cannot be converted to a Command".to_owned()),
            ),
            ShipitStep::Update(_) => Err(
                MedicError::Message("UpdateConfig cannot be converted to a Command".to_owned()),
            ),
        }
    }
}

} // verus!
