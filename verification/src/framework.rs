//! Process-level hooks and the per-invocation execution context.
//!
//! The hooks are fixed points the shell calls at process start; the engine
//! itself has nothing to do there, so they are deliberate no-ops kept outside
//! the orchestration surface.

use vstd::prelude::*;

use crate::error::CliError;

verus! {

/// Panic hook installation point.  A deliberate no-op.
pub fn handle_panic() {
}

/// Logging initialisation point.  A deliberate no-op; the shell owns any
/// actual log subscriber.
pub fn init_logging() {
}

/// Signal handler installation point.  A deliberate no-op that always
/// succeeds.
pub fn setup_signal_handlers() -> (r: Result<(), CliError>)
    ensures
        r is Ok,
{
    Ok(())
}

/// Cross-cutting flags carried into one command's execution; created fresh
/// per invocation and discarded after it.
#[derive(Clone, Copy, PartialEq, Eq, Structural, Debug)]
pub struct CliContext {
    /// Enable verbose output.
    pub verbose: bool,
    /// Suppress output.
    pub quiet: bool,
}

impl Default for CliContext {
    /// A fresh context: neither verbose nor quiet.
    fn default() -> (r: Self)
        ensures
            !r.verbose,
            !r.quiet,
    {
        CliContext { verbose: false, quiet: false }
    }
}

} // verus!
