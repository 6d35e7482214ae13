//! The steps `medic doctor` runs.
use crate::check::{check_command_result, check_text, Check};
use crate::error::MedicError;
use crate::extra::command::CommandSpec;
use crate::shell::shell_config::{shell_command_result, shell_text};
use crate::shell::ShellConfig;
use crate::step::step_config::{step_command_result, step_text};
use crate::step::StepConfig;
use crate::theme::ColorTheme;
use vstd::prelude::*;

verus! {

/// A step of `medic doctor`: a check, a shell step or a step program.
pub enum DoctorStep {
    Check(Check),
    Shell(ShellConfig),
    Step(StepConfig),
}

/// How a doctor step is shown.
pub open spec fn doctor_step_text(s: DoctorStep, theme: ColorTheme) -> Seq<char> {
    match s {
        DoctorStep::Check(c) => check_text(c),
        DoctorStep::Shell(c) => shell_text(c, theme),
        DoctorStep::Step(c) => step_text(c),
    }
}

impl DoctorStep {
    /// Only shell steps and steps may be allowed to fail.
    pub fn allow_failure(&self) -> (r: bool)
        ensures
            r == ((self matches DoctorStep::Shell(c) && c.allow_failure) || (self matches DoctorStep::Step(c) && c.allow_failure)),
    {
        match self {
            DoctorStep::Check(config) => config.allow_failure(),
            DoctorStep::Shell(config) => config.allow_failure(),
            DoctorStep::Step(config) => config.allow_failure(),
        }
    }

    /// The platforms the step runs on (`None`: all).
    pub fn platform(&self) -> (r: &Option<Vec<String>>)
        ensures
            *r == match *self {
                DoctorStep::Check(c) => c.platform,
                DoctorStep::Shell(c) => c.platform,
                DoctorStep::Step(c) => c.platform,
            },
    {
        match self {
            DoctorStep::Check(config) => config.platform(),
            DoctorStep::Shell(config) => config.platform(),
            DoctorStep::Step(config) => config.platform(),
        }
    }

    /// The step's own `verbose` setting.
    pub fn verbose(&self) -> (r: bool)
        ensures
            r == match *self {
                DoctorStep::Check(c) => c.verbose,
                DoctorStep::Shell(c) => c.verbose,
                DoctorStep::Step(c) => c.verbose,
            },
    {
        match self {
            DoctorStep::Check(config) => config.verbose,
            DoctorStep::Shell(config) => config.verbose,
            DoctorStep::Step(config) => config.verbose,
        }
    }

    /// How the step is shown in progress output.
    pub fn to_string(&self, theme: &ColorTheme) -> (r: String)
        ensures
            r@ == doctor_step_text(*self, *theme),
    {
        match self {
            DoctorStep::Check(config) => config.to_string(),
            DoctorStep::Shell(config) => config.to_string(theme),
            DoctorStep::Step(config) => config.to_string(),
        }
    }

    /// The command that runs the step, given the canonical path of a shell
    /// step's directory.
    pub fn to_command(&self, resolved_dir: Option<String>) -> (r: Result<CommandSpec, MedicError>)
        ensures
            match *self {
                DoctorStep::Check(c) => check_command_result(c, r),
                DoctorStep::Shell(c) => shell_command_result(c, resolved_dir, r),
                DoctorStep::Step(c) => step_command_result(c, r),
            },
    {
        match self {
            DoctorStep::Check(config) => config.to_command(),
            DoctorStep::Shell(config) => config.command_given(resolved_dir),
            DoctorStep::Step(config) => config.to_command(),
        }
    }
}

} // verus!
