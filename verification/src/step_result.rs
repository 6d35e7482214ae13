//! The result a step program reports.
use vstd::prelude::*;

verus! {

/// The result of a step program: success, or an error message with the
/// output of the command that failed, when there was one.
pub enum StepResult {
    StepOk,
    StepError(String, Option<String>, Option<String>),
}

/// Whether `r` is the error `msg` with the given output.
pub open spec fn is_step_error(r: StepResult, msg: Seq<char>, stdout: Option<Seq<char>>, stderr: Option<Seq<char>>) -> bool {
    r matches StepResult::StepError(m, o, e) && m@ == msg && crate::extra::command::opt_string_view(o)
        == stdout && crate::extra::command::opt_string_view(e) == stderr
}

/// The result of a command a step ran, given whether it could be run and,
/// if so, whether it succeeded and what it wrote: success; the error
/// `failed` with the command's output (when `with_output`); or the error
/// `unrunnable`.
pub fn command_result(
    ran: Option<(bool, String, String)>,
    failed: &str,
    with_output: bool,
    unrunnable: &str,
) -> (r: StepResult)
    ensures
        match ran {
            Some((true, _, _)) => r is StepOk,
            Some((false, out, err)) => if with_output {
                is_step_error(r, failed@, Some(out@), Some(err@))
            } else {
                is_step_error(r, failed@, None, None)
            },
            None => is_step_error(r, unrunnable@, None, None),
        },
{
    match ran {
        Some((success, out, err)) => if success {
            StepResult::StepOk
        } else if with_output {
            StepResult::StepError(failed.to_owned(), Some(out), Some(err))
        } else {
            StepResult::StepError(failed.to_owned(), None, None)
        },
        None => StepResult::StepError(unrunnable.to_owned(), None, None),
    }
}

} // verus!
