//! The steps `medic audit` runs.
use crate::check::{check_command_result, check_text, Check};
use crate::error::MedicError;
use crate::extra::command::CommandSpec;
use crate::shell::shell_config::{shell_command_result, shell_text};
use crate::shell::ShellConfig;
use crate::step::step_config::{step_command_result, step_text};
use crate::step::StepConfig;
use crate::theme::ColorTheme;
use vstd::prelude::*;

verus! {

/// A step of `medic audit`: a check, a shell step or a step program.
pub enum AuditStep {
    Check(Check),
    Shell(ShellConfig),
    Step(StepConfig),
}

/// How a doctor step is shown.
pub open spec fn audit_step_text(s: AuditStep, theme: ColorTheme) -> Seq<char> {
    match s {
        AuditStep::Check(c) => check_text(c),
        AuditStep::Shell(c) => shell_text(c, theme),
        AuditStep::Step(c) => step_text(c),
    }
}

impl AuditStep {
    /// Only shell steps and steps may be allowed to fail.
    pub fn allow_failure(&self) -> (r: bool)
        ensures
            r == ((self matches AuditStep::Shell(c) && c.allow_failure) || (self matches AuditStep::Step(c) && c.allow_failure)),
    {
        match self {
            AuditStep::Check(config) => config.allow_failure(),
            AuditStep::Shell(config) => config.allow_failure(),
            AuditStep::Step(config) => config.allow_failure(),
        }
    }

    /// The platforms the step runs on (`None`: all).
    pub fn platform(&self) -> (r: &Option<Vec<String>>)
        ensures
            *r == match *self {
                AuditStep::Check(c) => c.platform,
                AuditStep::Shell(c) => c.platform,
                AuditStep::Step(c) => c.platform,
            },
    {
        match self {
            AuditStep::Check(config) => config.platform(),
            AuditStep::Shell(config) => config.platform(),
            AuditStep::Step(config) => config.platform(),
        }
    }

    /// Whether the step's output is shown as it runs (a shell step that
    /// runs on the terminal itself is not).
    pub fn verbose(&self) -> (r: bool)
        ensures
            r == match *self {
                AuditStep::Check(c) => c.verbose,
                AuditStep::Shell(c) => c.verbose && !c.inline,
                AuditStep::Step(c) => c.verbose,
            },
    {
        match self {
            AuditStep::Check(config) => config.verbose(),
            AuditStep::Shell(config) => config.verbose(),
            AuditStep::Step(config) => config.verbose(),
        }
    }

    /// How the step is shown in progress output.
    pub fn to_string(&self, theme: &ColorTheme) -> (r: String)
        ensures
            r@ == audit_step_text(*self, *theme),
    {
        match self {
            AuditStep::Check(config) => config.to_string(),
            AuditStep::Shell(config) => config.to_string(theme),
            AuditStep::Step(config) => config.to_string(),
        }
    }

    /// The command that runs the step, given the canonical path of a shell
    /// step's directory.
    pub fn to_command(&self, resolved_dir: Option<String>) -> (r: Result<CommandSpec, MedicError>)
        ensures
            match *self {
                AuditStep::Check(c) => check_command_result(c, r),
                AuditStep::Shell(c) => shell_command_result(c, resolved_dir, r),
                AuditStep::Step(c) => step_command_result(c, r),
            },
    {
        match self {
            AuditStep::Check(config) => config.to_command(),
            AuditStep::Shell(config) => config.command_given(resolved_dir),
            AuditStep::Step(config) => config.to_command(),
        }
    }
}

} // verus!
