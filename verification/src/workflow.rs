//! The update and test workflows: the steps of a manifest run one after
//! another, stopping at the first that stops.
use crate::app_result::{app_branch, AppResult};
use crate::cli::Flags;
use crate::config::Manifest;
use crate::error::MedicError;
use crate::recoverable::Flow;
use crate::step::Step;
use vstd::prelude::*;

verus! {

/// The update steps of the manifest, or the error that it has none.
pub fn update_steps(manifest: Manifest) -> (r: Result<Vec<Step>, MedicError>)
    ensures
        manifest.update is Some ==> r == Ok::<Vec<Step>, MedicError>(manifest.update->0.steps),
        manifest.update is None ==> (r matches Err(MedicError::Message(m)) && m@
            == "No update steps found in medic config."@),
{
    match manifest.update {
        Some(u) => Ok(u.steps),
        None => Err(MedicError::Message("No update steps found in medic config.".to_owned())),
    }
}

/// The test checks of the manifest, or the error that it has none.
pub fn test_checks(manifest: Manifest) -> (r: Result<Vec<Step>, MedicError>)
    ensures
        manifest.test is Some ==> r == Ok::<Vec<Step>, MedicError>(manifest.test->0.checks),
        manifest.test is None ==> (r matches Err(MedicError::Message(m)) && m@
            == "No test checks found in medic config."@),
{
    match manifest.test {
        Some(t) => Ok(t.checks),
        None => Err(MedicError::Message("No test checks found in medic config.".to_owned())),
    }
}

/// The flags tests run with: as given, but failures cannot be recovered
/// from.
pub fn test_flags(flags: Flags) -> (r: Flags)
    ensures
        r.auto_apply_remedy == flags.auto_apply_remedy,
        r.config_path == flags.config_path,
        r.interactive == flags.interactive,
        r.parallel == flags.parallel,
        !r.recoverable,
{
    let mut f = flags;
    f.recoverable = false;
    f
}

/// Whether running the steps stops after a step with this result, and
/// with what: it goes on after a success, and stops with a failure or a
/// quit (what `?` does).
pub fn stop_after(result: AppResult<()>) -> (r: Option<AppResult<()>>)
    ensures
        match app_branch(result) {
            Flow::Continue(_) => r is None,
            Flow::Break(res) => r == Some(crate::app_result::app_from_residual::<()>(res)),
        },
{
    match result.branch() {
        Flow::Continue(_) => None,
        Flow::Break(res) => Some(AppResult::from_residual(res)),
    }
}

} // verus!
