//! The configuration of a step that takes no settings.
use vstd::prelude::*;

verus! {

/// No settings: its presence alone selects a step.
#[derive(Clone, Copy, PartialEq, Eq, Structural)]
pub struct NoopConfig {}

} // verus!
