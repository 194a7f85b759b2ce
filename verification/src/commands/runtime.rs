//! The dev and run commands: entry-point resolution, script-runtime
//! selection, and the optional watch wrapper.
//!
//! The conventional subdirectory entry file takes precedence over a
//! root-level one; neither existing is a structured error.  The preferred
//! native runtime is used when its probe answered, the generic runtime
//! otherwise; absence of both is not a distinct case here, the generic
//! runtime's own failure surfaces naturally.

use vstd::prelude::*;

use crate::classify::DirState;
use crate::error::CliError;
use crate::manifest::{spec_get_in, FieldValue, ManifestDoc};
use crate::probe::{inv_args_views, Invocation};

verus! {

/// The error reported when no entry script exists in either conventional
/// place.
pub open spec fn is_entry_point_error(e: CliError) -> bool {
    &&& e matches CliError::FileOperationError { operation, path, message }
    &&& operation@ == "read JavaScript entry point"@
    &&& path@ == "index.js"@
    &&& message@ == "File not found"@
}

/// Resolve the entry script: the conventional subdirectory entry file wins
/// over the root-level one; neither existing fails with the structured
/// entry-point error.
pub fn entry_point(state: &DirState) -> (r: Result<&'static str, CliError>)
    ensures
        state.has_subdir_entry ==> (r matches Ok(p) && p@ == "js/index.js"@),
        !state.has_subdir_entry && state.has_root_entry ==> (r matches Ok(p) && p@
            == "index.js"@),
        !state.has_subdir_entry && !state.has_root_entry ==> (r matches Err(e)
            && is_entry_point_error(e)),
{
    if state.has_subdir_entry {
        Ok("js/index.js")
    } else if state.has_root_entry {
        Ok("index.js")
    } else {
        Err(
            CliError::FileOperationError {
                operation: "read JavaScript entry point".to_owned(),
                path: "index.js".to_owned(),
                message: "File not found".to_owned(),
            },
        )
    }
}

/// Select the runtime invocation for an entry script: the preferred native
/// runtime's run subcommand when the probe found it, the generic runtime
/// given the script directly otherwise.
pub fn runtime_invocation(native_runtime: bool, entry: &str) -> (r: Invocation)
    ensures
        native_runtime ==> r.program@ == "jetcrab"@ && inv_args_views(r) =~= seq![
            "run"@,
            entry@,
        ],
        !native_runtime ==> r.program@ == "node"@ && inv_args_views(r) =~= seq![entry@],
{
    if native_runtime {
        let mut args: Vec<String> = Vec::new();
        args.push("run".to_owned());
        args.push(entry.to_owned());
        let inv = Invocation { program: "jetcrab".to_owned(), args };
        proof {
            assert(inv_args_views(inv) =~= seq!["run"@, entry@]);
        }
        inv
    } else {
        let mut args: Vec<String> = Vec::new();
        args.push(entry.to_owned());
        let inv = Invocation { program: "node".to_owned(), args };
        proof {
            assert(inv_args_views(inv) =~= seq![entry@]);
        }
        inv
    }
}

/// Wrap a runtime invocation in the watcher's restart-on-change form when
/// watch mode was asked for and the watcher's probe answered.  When watch
/// was asked for but no watcher is available, the invocation runs unwatched
/// and the second result says a warning is owed: degradation is visible,
/// never silent, and never fatal.
pub fn watch_wrapped(watch_requested: bool, watcher: bool, inner: Invocation) -> (r: (
    Invocation,
    bool,
))
    ensures
        watch_requested && watcher ==> {
            &&& r.0.program@ == "watchexec"@
            &&& inv_args_views(r.0) =~= seq!["--restart"@, "--"@, inner.program@]
                + inv_args_views(inner)
            &&& !r.1
        },
        watch_requested && !watcher ==> r.0 == inner && r.1,
        !watch_requested ==> r.0 == inner && !r.1,
{
    if watch_requested && watcher {
        let mut args: Vec<String> = Vec::new();
        args.push("--restart".to_owned());
        args.push("--".to_owned());
        args.push(inner.program.clone());
        let n = inner.args.len();
        let mut i: usize = 0;
        while i < n
            invariant
                i <= n,
                n == inner.args@.len(),
                args@.len() == i + 3,
                args@[0]@ == "--restart"@,
                args@[1]@ == "--"@,
                args@[2]@ == inner.program@,
                forall|j: int| 0 <= j < i ==> args@[j + 3]@ == inner.args@[j]@,
            decreases n - i,
        {
            args.push(inner.args[i].clone());
            i += 1;
        }
        let inv = Invocation { program: "watchexec".to_owned(), args };
        proof {
            assert(inv_args_views(inv) =~= seq!["--restart"@, "--"@, inner.program@]
                + inv_args_views(inner));
        }
        (inv, false)
    } else if watch_requested {
        (inner, true)
    } else {
        (inner, false)
    }
}

/// What the run command resolved its argument to.
#[derive(Debug)]
pub enum RunTarget {
    /// The argument names a script entry in the manifest; delegate to the
    /// package manager's run subcommand.
    Script(Invocation),
    /// The argument is taken as a literal file path for the selected
    /// runtime.
    File(Invocation),
}

/// Resolve the run command's argument: a script-name match in the manifest
/// takes priority over reading the argument as a file path.
pub fn run_plan(
    doc: &ManifestDoc,
    arg: &String,
    native_runtime: bool,
    windows: bool,
) -> (r: RunTarget)
    ensures
        (spec_get_in(*doc, "scripts"@, arg@) matches Some(FieldValue::Text(_))) ==> (
        r matches RunTarget::Script(inv) && {
            &&& inv.program@ == crate::commands::delegate::spec_npm_program(windows)
            &&& inv_args_views(inv) =~= seq!["run"@, arg@]
        }),
        !(spec_get_in(*doc, "scripts"@, arg@) matches Some(FieldValue::Text(_))) ==> (
        r matches RunTarget::File(inv) && (if native_runtime {
            inv.program@ == "jetcrab"@ && inv_args_views(inv) =~= seq!["run"@, arg@]
        } else {
            inv.program@ == "node"@ && inv_args_views(inv) =~= seq![arg@]
        })),
{
    let is_script = match crate::manifest::get_in(doc, "scripts", arg.as_str()) {
        Some(FieldValue::Text(_)) => true,
        _ => false,
    };
    if is_script {
        let npm = crate::probe::npm_program_platform(windows);
        let mut args: Vec<String> = Vec::new();
        args.push("run".to_owned());
        args.push(arg.clone());
        let inv = Invocation { program: npm.to_owned(), args };
        proof {
            assert(inv_args_views(inv) =~= seq!["run"@, arg@]);
        }
        RunTarget::Script(inv)
    } else {
        RunTarget::File(runtime_invocation(native_runtime, arg.as_str()))
    }
}

} // verus!
