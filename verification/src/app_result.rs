//! The result of a medic command.
use crate::error::MedicError;
use crate::recoverable::{error_line, error_line_text, Flow, Recoverable};
use crate::theme::ColorTheme;
use vstd::prelude::*;

verus! {

/// The result of a medic command: success, failure with an optional
/// error, or a request to quit.
pub enum AppResult<T> {
    Success(T),
    Error(Option<MedicError>),
    Quit,
}

/// The error that a stopped `?` carries, and whether medic should quit
/// altogether (when false, recoverable steps may recover).
pub struct ResultCodeResidual(pub Option<MedicError>, pub bool);

pub open spec fn app_branch<T>(r: AppResult<T>) -> Flow<ResultCodeResidual, T> {
    match r {
        AppResult::Error(e) => Flow::Break(ResultCodeResidual(e, false)),
        AppResult::Quit => Flow::Break(ResultCodeResidual(None, true)),
        AppResult::Success(v) => Flow::Continue(v),
    }
}

pub open spec fn app_from_residual<T>(r: ResultCodeResidual) -> AppResult<T> {
    if r.1 {
        AppResult::Quit
    } else {
        AppResult::Error(r.0)
    }
}

pub open spec fn app_from_recoverable<T>(r: Recoverable<T>) -> AppResult<T> {
    match r {
        Recoverable::Success(v) => AppResult::Success(v),
        Recoverable::Error(e, _) => AppResult::Error(e),
        Recoverable::Manual(e, _) => AppResult::Error(e),
        Recoverable::Optional(v, _) => AppResult::Success(v),
        Recoverable::Nonrecoverable(e) => AppResult::Error(Some(e)),
        Recoverable::Quit => AppResult::Quit,
    }
}

pub open spec fn app_exit_code<T>(r: AppResult<T>) -> int {
    match r {
        AppResult::Success(_) => 0,
        AppResult::Error(_) => 1,
        AppResult::Quit => crate::QUIT_STATUS_CODE as int,
    }
}

impl<T> AppResult<T> {
    /// What `?` does with the result.
    pub fn branch(self) -> (r: Flow<ResultCodeResidual, T>)
        ensures
            r == app_branch(self),
    {
        match self {
            AppResult::Error(e) => Flow::Break(ResultCodeResidual(e, false)),
            AppResult::Quit => Flow::Break(ResultCodeResidual(None, true)),
            AppResult::Success(v) => Flow::Continue(v),
        }
    }

    pub fn from_output(t: T) -> (r: Self)
        ensures
            r == AppResult::Success(t),
    {
        AppResult::Success(t)
    }

    /// The result a stopped `?` gives.
    pub fn from_residual(r: ResultCodeResidual) -> (o: Self)
        ensures
            o == app_from_residual::<T>(r),
    {
        if r.1 {
            AppResult::Quit
        } else {
            AppResult::Error(r.0)
        }
    }

    /// The result of `?` on an error.
    pub fn from_error(e: MedicError) -> (o: Self)
        ensures
            o == AppResult::<T>::Error(Some(e)),
    {
        AppResult::Error(Some(e))
    }

    /// The result for the outcome of a check or step: successes succeed,
    /// failures fail with their error, quitting quits.
    pub fn from_recoverable(r: Recoverable<T>) -> (o: Self)
        ensures
            o == app_from_recoverable(r),
    {
        match r {
            Recoverable::Success(v) => AppResult::Success(v),
            Recoverable::Error(e, _) => AppResult::Error(e),
            Recoverable::Manual(e, _) => AppResult::Error(e),
            Recoverable::Optional(v, _) => AppResult::Success(v),
            Recoverable::Nonrecoverable(e) => AppResult::Error(Some(e)),
            Recoverable::Quit => AppResult::Quit,
        }
    }

    /// The exit status reported for the result.
    pub fn exit_code(&self) -> (c: i32)
        ensures
            c == app_exit_code(*self),
    {
        match self {
            AppResult::Success(_) => 0,
            AppResult::Error(_) => 1,
            AppResult::Quit => crate::QUIT_STATUS_CODE,
        }
    }

    /// The error line reported for the result, if any.
    pub fn report_message(&self, theme: &ColorTheme) -> (r: Option<String>)
        ensures
            match *self {
                AppResult::Error(Some(e)) => r matches Some(s) && s@ == error_line(e, *theme),
                _ => r is None,
            },
    {
        match self {
            AppResult::Error(Some(e)) => Some(error_line_text(e, theme)),
            _ => None,
        }
    }
}

/// `?` on a result and then back gives the same result: a success goes on
/// with its value, and a failure or a quit is rebuilt from what it carried.
pub proof fn lemma_app_branch_roundtrip<T>(r: AppResult<T>)
    ensures
        match app_branch(r) {
            Flow::Continue(v) => AppResult::<T>::Success(v) == r,
            Flow::Break(res) => app_from_residual::<T>(res) == r,
        },
{
}

/// Converting the outcome of a check or step keeps whether it succeeded:
/// the result exits with status 0 exactly when the outcome does.
pub proof fn lemma_from_recoverable_success<T>(r: Recoverable<T>)
    ensures
        (app_exit_code(app_from_recoverable(r)) == 0) == (
        crate::recoverable::recoverable_exit_code(r) == 0),
{
}

} // verus!
