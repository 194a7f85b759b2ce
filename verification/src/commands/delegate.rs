//! Toolchain delegation commands: install, test, add, remove, lock, publish,
//! workspace listing, and one-off package execution.
//!
//! Each handler follows one shape: a precondition check against the
//! classifier (no manifest at all is a structured "not in a project" error
//! naming the missing file and the remedial command), then one or more
//! external invocations.  On a hybrid project, install and test run both
//! toolchains' operations; the first aborting failure wins.

use vstd::prelude::*;
use vstd::string::StringExecFns;

use crate::classify::{spec_classify, DirState, ProjectKind};
use crate::error::CliError;
use crate::keyed::spec_lookup;
use crate::manifest::{FieldValue, ManifestDoc, TopValue};
use crate::probe::{inv_args_views, spec_invocation_label, Invocation, Step};

verus! {

/// The structured error every delegation command reports when the working
/// directory holds no manifest at all: it names the missing script manifest
/// and the remedial command.
pub open spec fn is_missing_script_manifest_error(e: CliError) -> bool {
    &&& e matches CliError::FileOperationError { operation, path, message }
    &&& operation@ == "read package.json"@
    &&& path@ == "package.json"@
    &&& message@ == "Not in a JavaScript project. Run 'cpm init' first."@
}

/// Build the "not in a project" error.
pub fn missing_script_manifest_error() -> (r: CliError)
    ensures
        is_missing_script_manifest_error(r),
{
    CliError::FileOperationError {
        operation: "read package.json".to_owned(),
        path: "package.json".to_owned(),
        message: "Not in a JavaScript project. Run 'cpm init' first.".to_owned(),
    }
}

/// The precondition every delegation command checks first: an uninitialized
/// directory refuses the command with the structured error, anything else
/// proceeds.
pub fn delegation_precheck(state: &DirState) -> (r: Result<(), CliError>)
    ensures
        r is Err <==> spec_classify(*state) == ProjectKind::Uninitialized,
        r matches Err(e) ==> is_missing_script_manifest_error(e),
{
    if !state.has_package_json && !state.has_cargo_toml {
        Err(missing_script_manifest_error())
    } else {
        Ok(())
    }
}

/// Decide what one finished delegated step means: success continues; a
/// failure aborts with the step's invocation label and the captured error
/// stream, unless the step was downgraded to a warning.
#[derive(Debug)]
pub enum StepOutcome {
    /// The step succeeded; go on.
    Continue,
    /// The step failed but is non-fatal; warn and go on.
    Warn,
    /// The step failed and the whole command aborts with this error.
    Fail(CliError),
}

/// Map a delegated step's exit to the command's next move.
pub fn step_outcome(step: &Step, exit_ok: bool, stderr: &String) -> (r: StepOutcome)
    ensures
        exit_ok ==> r is Continue,
        !exit_ok && !step.abort_on_failure ==> r is Warn,
        !exit_ok && step.abort_on_failure ==> (r matches StepOutcome::Fail(e) && (
        e matches CliError::ExecutionError { command, message } && command@
            == spec_invocation_label(step.invocation) && message@ == stderr@)),
{
    if exit_ok {
        StepOutcome::Continue
    } else if step.abort_on_failure {
        StepOutcome::Fail(
            CliError::ExecutionError {
                command: step.invocation.label(),
                message: stderr.clone(),
            },
        )
    } else {
        StepOutcome::Warn
    }
}

/// Build an invocation with one fixed argument.
fn make_inv1(program: &str, a0: &str) -> (r: Invocation)
    ensures
        r.program@ == program@,
        inv_args_views(r) =~= seq![a0@],
{
    let mut args: Vec<String> = Vec::new();
    args.push(a0.to_owned());
    Invocation { program: program.to_owned(), args }
}

/// Build an invocation with two fixed arguments.
fn make_inv2(program: &str, a0: &str, a1: &str) -> (r: Invocation)
    ensures
        r.program@ == program@,
        inv_args_views(r) =~= seq![a0@, a1@],
{
    let mut args: Vec<String> = Vec::new();
    args.push(a0.to_owned());
    args.push(a1.to_owned());
    Invocation { program: program.to_owned(), args }
}

/// The package-manager program name the platform uses.
pub open spec fn spec_npm_program(windows: bool) -> Seq<char> {
    if windows {
        "npm.cmd"@
    } else {
        "npm"@
    }
}

/// The install command: install script dependencies where the script
/// manifest exists, then build the compiled project where its manifest
/// exists; on a hybrid project both run, and either failure aborts.
pub fn install_steps(state: &DirState, windows: bool) -> (r: Result<Vec<Step>, CliError>)
    ensures
        r is Err <==> spec_classify(*state) == ProjectKind::Uninitialized,
        r matches Err(e) ==> is_missing_script_manifest_error(e),
        r matches Ok(steps) ==> {
            let npm_part: int = if state.has_package_json { 1 } else { 0 };
            let cargo_part: int = if state.has_cargo_toml { 1 } else { 0 };
            &&& steps@.len() == npm_part + cargo_part
            &&& state.has_package_json ==> {
                &&& steps@[0].invocation.program@ == spec_npm_program(windows)
                &&& inv_args_views(steps@[0].invocation) =~= seq!["install"@]
                &&& steps@[0].abort_on_failure
            }
            &&& state.has_cargo_toml ==> {
                &&& steps@[npm_part].invocation.program@ == "cargo"@
                &&& inv_args_views(steps@[npm_part].invocation) =~= seq!["build"@]
                &&& steps@[npm_part].abort_on_failure
            }
        },
{
    let precheck = delegation_precheck(state);
    if let Err(e) = precheck {
        return Err(e);
    }
    let mut steps: Vec<Step> = Vec::new();
    if state.has_package_json {
        let npm = crate::probe::npm_program_platform(windows);
        steps.push(Step { invocation: make_inv1(npm, "install"), abort_on_failure: true });
    }
    if state.has_cargo_toml {
        steps.push(Step { invocation: make_inv1("cargo", "build"), abort_on_failure: true });
    }
    Ok(steps)
}

/// The test command: run script tests where the script manifest exists,
/// then compiled tests where that manifest exists.  Either failure wraps
/// the captured error stream into the execution error and aborts the whole
/// command: the first failure wins, as for every delegated step.
pub fn test_steps(state: &DirState, windows: bool) -> (r: Result<Vec<Step>, CliError>)
    ensures
        r is Err <==> spec_classify(*state) == ProjectKind::Uninitialized,
        r matches Err(e) ==> is_missing_script_manifest_error(e),
        r matches Ok(steps) ==> {
            let npm_part: int = if state.has_package_json { 1 } else { 0 };
            let cargo_part: int = if state.has_cargo_toml { 1 } else { 0 };
            &&& steps@.len() == npm_part + cargo_part
            &&& state.has_package_json ==> {
                &&& steps@[0].invocation.program@ == spec_npm_program(windows)
                &&& inv_args_views(steps@[0].invocation) =~= seq!["test"@]
                &&& steps@[0].abort_on_failure
            }
            &&& state.has_cargo_toml ==> {
                &&& steps@[npm_part].invocation.program@ == "cargo"@
                &&& inv_args_views(steps@[npm_part].invocation) =~= seq!["test"@]
                &&& steps@[npm_part].abort_on_failure
            }
        },
{
    let precheck = delegation_precheck(state);
    if let Err(e) = precheck {
        return Err(e);
    }
    let mut steps: Vec<Step> = Vec::new();
    if state.has_package_json {
        let npm = crate::probe::npm_program_platform(windows);
        steps.push(Step { invocation: make_inv1(npm, "test"), abort_on_failure: true });
    }
    if state.has_cargo_toml {
        steps.push(Step { invocation: make_inv1("cargo", "test"), abort_on_failure: true });
    }
    Ok(steps)
}

/// The add command: delegate to the package manager's install of the named
/// packages, with the development-dependency flag appended when asked for.
pub fn add_packages_plan(
    state: &DirState,
    packages: &Vec<String>,
    save_dev: bool,
    windows: bool,
) -> (r: Result<Invocation, CliError>)
    ensures
        r is Err <==> spec_classify(*state) == ProjectKind::Uninitialized,
        r matches Err(e) ==> is_missing_script_manifest_error(e),
        r matches Ok(inv) ==> {
            let tail: Seq<Seq<char>> = if save_dev { seq!["--save-dev"@] } else { seq![] };
            &&& inv.program@ == spec_npm_program(windows)
            &&& inv_args_views(inv) =~= seq!["install"@] + packages@.map_values(|s: String| s@)
                + tail
        },
{
    let precheck = delegation_precheck(state);
    if let Err(e) = precheck {
        return Err(e);
    }
    let inv = npm_passthrough(windows, "install", packages, if save_dev {
        Some("--save-dev")
    } else {
        None
    });
    Ok(inv)
}

/// The remove command: delegate to the package manager's uninstall of the
/// named packages.
pub fn remove_packages_plan(state: &DirState, packages: &Vec<String>, windows: bool) -> (r:
    Result<Invocation, CliError>)
    ensures
        r is Err <==> spec_classify(*state) == ProjectKind::Uninitialized,
        r matches Err(e) ==> is_missing_script_manifest_error(e),
        r matches Ok(inv) ==> {
            &&& inv.program@ == spec_npm_program(windows)
            &&& inv_args_views(inv) =~= seq!["uninstall"@] + packages@.map_values(|s: String| s@)
        },
{
    let precheck = delegation_precheck(state);
    if let Err(e) = precheck {
        return Err(e);
    }
    let inv = npm_passthrough(windows, "uninstall", packages, None);
    Ok(inv)
}

/// A package-manager invocation with a fixed subcommand, pass-through
/// package names, and an optional trailing flag.
fn npm_passthrough(windows: bool, sub: &str, packages: &Vec<String>, tail: Option<&str>) -> (r:
    Invocation)
    ensures
        r.program@ == spec_npm_program(windows),
        inv_args_views(r) =~= seq![sub@] + packages@.map_values(|s: String| s@) + (match tail {
            Some(t) => seq![t@],
            None => Seq::<Seq<char>>::empty(),
        }),
{
    let npm = crate::probe::npm_program_platform(windows);
    let mut args: Vec<String> = Vec::new();
    args.push(sub.to_owned());
    let n = packages.len();
    let mut i: usize = 0;
    while i < n
        invariant
            i <= n,
            n == packages@.len(),
            args@.len() == i + 1,
            args@[0]@ == sub@,
            forall|j: int| 0 <= j < i ==> args@[j + 1]@ == packages@[j]@,
        decreases n - i,
    {
        args.push(packages[i].clone());
        i += 1;
    }
    if let Some(t) = tail {
        args.push(t.to_owned());
    }
    let inv = Invocation { program: npm.to_owned(), args };
    proof {
        let want = seq![sub@] + packages@.map_values(|s: String| s@) + (match tail {
            Some(t) => seq![t@],
            None => Seq::<Seq<char>>::empty(),
        });
        assert(inv_args_views(inv) =~= want);
    }
    inv
}

/// The lock command: refresh the script manifest's lock file without
/// installing anything.
pub fn lock_plan(state: &DirState, windows: bool) -> (r: Result<Invocation, CliError>)
    ensures
        r is Err <==> spec_classify(*state) == ProjectKind::Uninitialized,
        r matches Err(e) ==> is_missing_script_manifest_error(e),
        r matches Ok(inv) ==> {
            &&& inv.program@ == spec_npm_program(windows)
            &&& inv_args_views(inv) =~= seq!["install"@, "--package-lock-only"@]
        },
{
    let precheck = delegation_precheck(state);
    if let Err(e) = precheck {
        return Err(e);
    }
    let npm = crate::probe::npm_program_platform(windows);
    Ok(make_inv2(npm, "install", "--package-lock-only"))
}

/// The publish command: delegate to the package manager's publish step.
pub fn publish_plan(state: &DirState, windows: bool) -> (r: Result<Invocation, CliError>)
    ensures
        r is Err <==> spec_classify(*state) == ProjectKind::Uninitialized,
        r matches Err(e) ==> is_missing_script_manifest_error(e),
        r matches Ok(inv) ==> {
            &&& inv.program@ == spec_npm_program(windows)
            &&& inv_args_views(inv) =~= seq!["publish"@]
        },
{
    let precheck = delegation_precheck(state);
    if let Err(e) = precheck {
        return Err(e);
    }
    let npm = crate::probe::npm_program_platform(windows);
    Ok(make_inv1(npm, "publish"))
}

/// The workspace command: refuse an uninitialized directory as every
/// delegation command does, then list the manifest's declared members.
pub fn workspace_plan<'a>(state: &DirState, doc: &'a ManifestDoc) -> (r: Result<
    Option<&'a Vec<String>>,
    CliError,
>)
    ensures
        r is Err <==> spec_classify(*state) == ProjectKind::Uninitialized,
        r matches Err(e) ==> is_missing_script_manifest_error(e),
        r matches Ok(members) ==> match spec_lookup(doc.entries@, "workspaces"@) {
            Some(TopValue::Field(FieldValue::List(v))) => members matches Some(rv) && *rv == v,
            _ => members is None,
        },
{
    let precheck = delegation_precheck(state);
    if let Err(e) = precheck {
        return Err(e);
    }
    Ok(workspace_members(doc))
}

/// The workspace listing: the script manifest's declared member list, or
/// nothing when the manifest declares none (or declares it in a shape the
/// engine does not read).
pub fn workspace_members<'a>(doc: &'a ManifestDoc) -> (r: Option<&'a Vec<String>>)
    ensures
        match spec_lookup(doc.entries@, "workspaces"@) {
            Some(TopValue::Field(FieldValue::List(v))) => r matches Some(rv) && *rv == v,
            _ => r is None,
        },
{
    match crate::manifest::get_top(doc, "workspaces") {
        Some(TopValue::Field(FieldValue::List(v))) => Some(v),
        _ => None,
    }
}

/// What the one-off package execution command decides from its arguments.
#[derive(Debug)]
pub enum NpxPlan {
    /// No package was named: show usage and finish without error.
    Usage,
    /// Run the named package through the one-off runner.
    Run(Invocation),
}

/// The one-off execution command: run the named package with the
/// pass-through arguments; with no package named, show usage instead.
pub fn npx_plan(state: &DirState, package: Option<&String>, extra: &Vec<String>) -> (r: Result<
    NpxPlan,
    CliError,
>)
    ensures
        r is Err <==> spec_classify(*state) == ProjectKind::Uninitialized,
        r matches Err(e) ==> is_missing_script_manifest_error(e),
        r matches Ok(plan) ==> match package {
            None => plan is Usage,
            Some(p) => plan matches NpxPlan::Run(inv) && {
                &&& inv.program@ == "npx"@
                &&& inv_args_views(inv) =~= seq![p@] + extra@.map_values(|s: String| s@)
            },
        },
{
    let precheck = delegation_precheck(state);
    if let Err(e) = precheck {
        return Err(e);
    }
    match package {
        None => Ok(NpxPlan::Usage),
        Some(pkg) => {
            let mut args: Vec<String> = Vec::new();
            args.push(pkg.clone());
            let n = extra.len();
            let mut i: usize = 0;
            while i < n
                invariant
                    i <= n,
                    n == extra@.len(),
                    args@.len() == i + 1,
                    args@[0]@ == pkg@,
                    forall|j: int| 0 <= j < i ==> args@[j + 1]@ == extra@[j]@,
                decreases n - i,
            {
                args.push(extra[i].clone());
                i += 1;
            }
            let inv = Invocation { program: "npx".to_owned(), args };
            proof {
                assert(inv_args_views(inv) =~= seq![pkg@] + extra@.map_values(
                    |s: String| s@,
                ));
            }
            Ok(NpxPlan::Run(inv))
        },
    }
}

/// The error a failed one-off execution reports: the package is named in the
/// command, with a fixed message.
pub fn npx_failure(package: &String) -> (r: CliError)
    ensures
        r matches CliError::ExecutionError { command, message } && command@ == "npx "@ + package@
            && message@ == "npx command failed"@,
{
    let mut cmd = String::new();
    cmd.append("npx ");
    cmd.append(package.as_str());
    proof {
        assert(cmd@ =~= "npx "@ + package@);
    }
    CliError::ExecutionError { command: cmd, message: "npx command failed".to_owned() }
}

} // verus!
