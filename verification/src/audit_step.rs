//! The steps of `medic audit` as the stand-alone audit command runs them.
use crate::check::{check_command_result, check_text, Check};
use crate::extra::command::CommandSpec;
use crate::shell::shell_config::{shell_command_result, shell_text};
use crate::shell::ShellConfig;
use crate::step::step_config::{step_command_result, step_text};
use crate::step::StepConfig;
use crate::theme::ColorTheme;
use vstd::prelude::*;

verus! {

/// A step of `medic audit`: a check, a shell step or a step program.
pub enum AuditStep {
    Check(Check),
    Shell(ShellConfig),
    Step(StepConfig),
}

/// How an audit step is shown.
pub open spec fn audit_step_text(s: AuditStep, theme: ColorTheme) -> Seq<char> {
    match s {
        AuditStep::Check(c) => check_text(c),
        AuditStep::Shell(c) => shell_text(c, theme),
        AuditStep::Step(c) => step_text(c),
    }
}

impl AuditStep {
    /// Only shell steps and steps may be allowed to fail.
    pub fn allow_failure(&self) -> (r: bool)
        ensures
            r == ((self matches AuditStep::Shell(c) && c.allow_failure) || (self matches AuditStep::Step(c) && c.allow_failure)),
    {
        match self {
            AuditStep::Check(config) => config.allow_failure(),
            AuditStep::Shell(config) => config.allow_failure(),
            AuditStep::Step(config) => config.allow_failure(),
        }
    }

    /// Whether the step's output is shown as it runs.
    pub fn verbose(&self) -> (r: bool)
        ensures
            r == match *self {
                AuditStep::Check(c) => c.verbose,
                AuditStep::Shell(c) => c.verbose && !c.inline,
                AuditStep::Step(c) => c.verbose,
            },
    {
        match self {
            AuditStep::Check(config) => config.verbose(),
            AuditStep::Shell(config) => config.verbose(),
            AuditStep::Step(config) => config.verbose(),
        }
    }

    /// How the step is shown in progress output.
    pub fn to_string(&self, theme: &ColorTheme) -> (r: String)
        ensures
            r@ == audit_step_text(*self, *theme),
    {
        match self {
            AuditStep::Check(config) => config.to_string(),
            AuditStep::Shell(config) => config.to_string(theme),
            AuditStep::Step(config) => config.to_string(),
        }
    }

    /// The command that runs the step, if it can be built, given the
    /// canonical path of a shell step's directory.
    pub fn to_command(&self, resolved_dir: Option<String>) -> (r: Option<CommandSpec>)
        ensures
            match *self {
                AuditStep::Check(c) => r matches Some(cmd) ==> check_command_result(c, Ok(cmd)),
                AuditStep::Shell(c) => match r {
                    Some(cmd) => shell_command_result(c, resolved_dir, Ok(cmd)),
                    None => c.shell@.len() == 0 || (c.cd is Some && resolved_dir is None),
                },
                AuditStep::Step(c) => r matches Some(cmd) ==> step_command_result(c, Ok(cmd)),
            },
    {
        match self {
            AuditStep::Check(config) => config.to_command().ok(),
            AuditStep::Shell(config) => config.command_given(resolved_dir).ok(),
            AuditStep::Step(config) => config.to_command().ok(),
        }
    }
}

} // verus!
