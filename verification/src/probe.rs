//! Toolchain probing model and concrete invocation forms.
//!
//! The shell probes each external tool with a lightweight version query and
//! hands the engine the resulting capability flags; absence of a tool is a
//! normal outcome, not an error, and every decision that depends on it is
//! made here.  Probes are per run; nothing is cached across processes.

use vstd::prelude::*;

verus! {

/// The package-manager program to invoke after probing: the platform
/// variant is preferred where it answered, the generic name otherwise.
pub fn npm_program_probed(windows: bool, npm_cmd_ok: bool) -> (r: &'static str)
    ensures
        windows && npm_cmd_ok ==> r@ == "npm.cmd"@,
        !(windows && npm_cmd_ok) ==> r@ == "npm"@,
{
    if windows && npm_cmd_ok {
        "npm.cmd"
    } else {
        "npm"
    }
}

/// The package-manager program chosen from the platform alone, without a
/// probe: the variant name on a variant platform, the generic name
/// otherwise.
pub fn npm_program_platform(windows: bool) -> (r: &'static str)
    ensures
        windows ==> r@ == "npm.cmd"@,
        !windows ==> r@ == "npm"@,
{
    if windows {
        "npm.cmd"
    } else {
        "npm"
    }
}

/// One concrete child-process invocation: a program and its arguments.
#[derive(Debug)]
pub struct Invocation {
    pub program: String,
    pub args: Vec<String>,
}

/// The argument list of an invocation, as character sequences.
pub open spec fn inv_args_views(inv: Invocation) -> Seq<Seq<char>> {
    inv.args@.map_values(|s: String| s@)
}

/// The short label a failed invocation is reported under: the program name,
/// followed by the first argument when there is one.
pub open spec fn spec_invocation_label(inv: Invocation) -> Seq<char> {
    if inv.args@.len() == 0 {
        inv.program@
    } else {
        inv.program@ + " "@ + inv.args@[0]@
    }
}

impl Invocation {
    /// Render the label a failure of this invocation is reported under.
    pub fn label(&self) -> (r: String)
        ensures
            r@ == spec_invocation_label(*self),
    {
        let mut s = self.program.clone();
        if self.args.len() > 0 {
            s.append(" ");
            s.append(self.args[0].as_str());
            proof {
                assert(s@ =~= spec_invocation_label(*self));
            }
        }
        s
    }
}

/// One delegated step of a command: the invocation, and whether a non-zero
/// exit aborts the whole command or is downgraded to a warning.
#[derive(Debug)]
pub struct Step {
    pub invocation: Invocation,
    pub abort_on_failure: bool,
}

} // verus!
