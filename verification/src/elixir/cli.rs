//! The command line of the Elixir step program.
use vstd::prelude::*;

verus! {

/// The parsed command line: the step to run.
pub struct CliArgs {
    pub command: Command,
}

/// The steps of the Elixir step program.
pub enum Command {
    /// Check for known vulnerabilities in deps.
    AuditDeps(MixArgs),
    /// Compile all (and only) uncompiled dependencies.
    CompileDeps(MixArgs),
    /// Run lints with credo.
    Credo(MixArgs),
    /// Run dialyzer static analysis.
    Dialyzer(MixArgs),
    /// Get new dependencies.
    GetDeps(MixArgs),
}

/// Where the mix project is (`.` by default) and the `MIX_ENV` to use.
pub struct MixArgs {
    pub cd: String,
    pub mix_env: Option<String>,
}

} // verus!
