//! The flags that govern how medic runs checks and steps.
use vstd::prelude::*;

verus! {

/// How medic runs: whether remedies are applied without asking, where the
/// configuration is read from, whether to ask the user on failure, whether
/// nested steps run in parallel, and whether failures may be recovered
/// from.
#[derive(Clone)]
pub struct Flags {
    pub auto_apply_remedy: bool,
    pub config_path: String,
    pub interactive: bool,
    pub parallel: bool,
    pub recoverable: bool,
}

impl Default for Flags {
    /// The configuration at `${PWD}/.config/medic.toml`; nothing applied
    /// without asking, nobody asked, steps run one after another, failures
    /// recoverable.
    fn default() -> (r: Self)
        ensures
            !r.auto_apply_remedy,
            r.config_path@ == "${PWD}/.config/medic.toml"@,
            !r.interactive,
            !r.parallel,
            r.recoverable,
    {
        Flags {
            auto_apply_remedy: false,
            config_path: "${PWD}/.config/medic.toml".to_owned(),
            interactive: false,
            parallel: false,
            recoverable: true,
        }
    }
}

} // verus!
