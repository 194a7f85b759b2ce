//! The build command.
//!
//! For a project with a compiled manifest, build delegates to the compiled
//! toolchain, then optionally runs the WebAssembly post-processor when its
//! probe answered; a post-processor failure is a warning, never fatal.
//!
//! For a script-only project, build runs the standalone bundling pipeline:
//! resolve the entry script, derive the output name from the manifest,
//! stage a minimal host program that embeds the script next to a synthesized
//! build manifest, run the compiled toolchain in the staging directory, and
//! copy the produced binary into the project root.  The staging directory is
//! deliberately retained afterwards, success or failure, to aid debugging.

use vstd::prelude::*;
use vstd::string::StringExecFns;

use crate::classify::DirState;
use crate::error::CliError;
use crate::manifest::{FieldValue, ManifestDoc, TopValue};
use crate::probe::{inv_args_views, Invocation, Step};

verus! {

/// The delegated steps of a compiled-project build: the toolchain build
/// (fatal on failure), then the WebAssembly post-processor when available
/// (a warning on failure).  Without a compiled manifest the compiled branch
/// has no steps at all.
pub fn compiled_build_steps(state: &DirState, wasm_pack: bool) -> (r: Vec<Step>)
    ensures
        !state.has_cargo_toml ==> r@.len() == 0,
        state.has_cargo_toml ==> {
            let wasm_part: int = if wasm_pack { 1 } else { 0 };
            &&& r@.len() == 1 + wasm_part
            &&& r@[0].invocation.program@ == "cargo"@
            &&& inv_args_views(r@[0].invocation) =~= seq!["build"@]
            &&& r@[0].abort_on_failure
            &&& wasm_pack ==> {
                &&& r@[1].invocation.program@ == "wasm-pack"@
                &&& inv_args_views(r@[1].invocation) =~= seq![
                    "build"@,
                    "--release"@,
                    "--target"@,
                    "web"@,
                    "--out-dir"@,
                    "pkg"@,
                ]
                &&& !r@[1].abort_on_failure
            }
        },
{
    let mut steps: Vec<Step> = Vec::new();
    if state.has_cargo_toml {
        let mut args: Vec<String> = Vec::new();
        args.push("build".to_owned());
        let inv = Invocation { program: "cargo".to_owned(), args };
        proof {
            assert(inv_args_views(inv) =~= seq!["build"@]);
        }
        steps.push(Step { invocation: inv, abort_on_failure: true });
        if wasm_pack {
            let mut wargs: Vec<String> = Vec::new();
            wargs.push("build".to_owned());
            wargs.push("--release".to_owned());
            wargs.push("--target".to_owned());
            wargs.push("web".to_owned());
            wargs.push("--out-dir".to_owned());
            wargs.push("pkg".to_owned());
            let winv = Invocation { program: "wasm-pack".to_owned(), args: wargs };
            proof {
                assert(inv_args_views(winv) =~= seq![
                    "build"@,
                    "--release"@,
                    "--target"@,
                    "web"@,
                    "--out-dir"@,
                    "pkg"@,
                ]);
            }
            steps.push(Step { invocation: winv, abort_on_failure: false });
        }
    }
    steps
}

/// Everything in the synthesized build manifest before the runtime path.
pub open spec fn spec_bundle_manifest_head() -> Seq<char> {
    r#"
[package]
name = "standalone-app"
version = "0.1.0"
edition = "2021"

[dependencies]
jetcrab = { path = ""#@
}

/// Everything in the synthesized build manifest after the runtime path.
pub open spec fn spec_bundle_manifest_tail() -> Seq<char> {
    r#"" }
tokio = { version = "1.0", features = ["full"] }
"#@
}

/// Synthesize the staging directory's build manifest around the resolved
/// embeddable-runtime path.
pub fn bundle_manifest_source(runtime_path: &String) -> (r: String)
    ensures
        r@ == spec_bundle_manifest_head() + runtime_path@ + spec_bundle_manifest_tail(),
{
    let mut s = String::new();
    s.append(
        r#"
[package]
name = "standalone-app"
version = "0.1.0"
edition = "2021"

[dependencies]
jetcrab = { path = ""#,
    );
    s.append(runtime_path.as_str());
    s.append(
        r#"" }
tokio = { version = "1.0", features = ["full"] }
"#,
    );
    proof {
        assert(s@ =~= spec_bundle_manifest_head() + runtime_path@ + spec_bundle_manifest_tail());
    }
    s
}

/// The derived, ephemeral plan one bundling run works from.
#[derive(Debug)]
pub struct BundleBuildPlan {
    /// Where the entry script was found.
    pub entry_script: String,
    /// The output binary's name in the project root, platform suffix applied.
    pub output_name: String,
    /// The isolated staging directory, relative to the project root.
    pub staging_dir: String,
    /// The resolved embeddable-runtime location written into the build
    /// manifest.
    pub runtime_path: String,
    /// The synthesized build manifest text.
    pub build_manifest: String,
    /// The compiled-toolchain invocation to run inside the staging
    /// directory.
    pub build_invocation: Invocation,
    /// Where the toolchain leaves the binary, relative to the project root.
    pub built_binary: String,
}

/// The fixed name of the host crate the pipeline stages.
pub open spec fn spec_host_crate_name() -> Seq<char> {
    "standalone-app"@
}

/// The platform's executable suffix.
pub open spec fn spec_exe_suffix(windows: bool) -> Seq<char> {
    if windows {
        ".exe"@
    } else {
        Seq::<char>::empty()
    }
}

/// Derive the bundling plan for a script project.
///
/// The entry script resolves as for the dev command, and its absence is the
/// same structured error.  The output name is the manifest's declared
/// project name (a generic default when it is missing or unreadable) with
/// the platform's executable suffix.  The runtime path is the environment
/// override when the shell found one set, else the conventional sibling
/// directory.
pub fn bundle_plan(
    state: &DirState,
    doc: Option<&ManifestDoc>,
    runtime_override: Option<&String>,
    windows: bool,
) -> (r: Result<BundleBuildPlan, CliError>)
    ensures
        !state.has_subdir_entry && !state.has_root_entry ==> (r matches Err(e)
            && crate::commands::runtime::is_entry_point_error(e)),
        state.has_subdir_entry || state.has_root_entry ==> (r matches Ok(plan) && {
            &&& state.has_subdir_entry ==> plan.entry_script@ == "js/index.js"@
            &&& !state.has_subdir_entry ==> plan.entry_script@ == "index.js"@
            &&& plan.output_name@ == spec_project_name(doc) + spec_exe_suffix(windows)
            &&& plan.staging_dir@ == "standalone-build"@
            &&& plan.runtime_path@ == (match runtime_override {
                Some(p) => p@,
                None => "../jetcrab"@,
            })
            &&& plan.build_manifest@ == spec_bundle_manifest_head() + plan.runtime_path@
                + spec_bundle_manifest_tail()
            &&& plan.build_invocation.program@ == "cargo"@
            &&& inv_args_views(plan.build_invocation) =~= seq!["build"@, "--release"@]
            &&& plan.built_binary@ == "standalone-build/target/release/standalone-app"@
                + spec_exe_suffix(windows)
        }),
{
    let entry = crate::commands::runtime::entry_point(state);
    let entry_path = match entry {
        Ok(p) => p,
        Err(e) => {
            return Err(e);
        },
    };
    let base_name = project_name(doc);
    let mut output_name = base_name;
    if windows {
        output_name.append(".exe");
    }
    let runtime_path = match runtime_override {
        Some(p) => p.clone(),
        None => "../jetcrab".to_owned(),
    };
    let build_manifest = bundle_manifest_source(&runtime_path);
    let mut bargs: Vec<String> = Vec::new();
    bargs.push("build".to_owned());
    bargs.push("--release".to_owned());
    let build_invocation = Invocation { program: "cargo".to_owned(), args: bargs };
    let mut built_binary = "standalone-build/target/release/standalone-app".to_owned();
    if windows {
        built_binary.append(".exe");
    }
    let plan = BundleBuildPlan {
        entry_script: entry_path.to_owned(),
        output_name,
        staging_dir: "standalone-build".to_owned(),
        runtime_path,
        build_manifest,
        build_invocation,
        built_binary,
    };
    proof {
        assert(inv_args_views(plan.build_invocation) =~= seq!["build"@, "--release"@]);
        assert(plan.output_name@ =~= spec_project_name(doc) + spec_exe_suffix(windows));
        assert(plan.built_binary@ =~= "standalone-build/target/release/standalone-app"@
            + spec_exe_suffix(windows));
    }
    Ok(plan)
}

/// The project name the output binary is derived from: the manifest's
/// declared name where one is readable, a generic default otherwise.
pub open spec fn spec_project_name(doc: Option<&ManifestDoc>) -> Seq<char> {
    match doc {
        Some(d) => match crate::keyed::spec_lookup(d.entries@, "name"@) {
            Some(TopValue::Field(FieldValue::Text(n))) => n@,
            _ => "standalone-app"@,
        },
        None => "standalone-app"@,
    }
}

/// Read the project name the output binary is derived from.
fn project_name(doc: Option<&ManifestDoc>) -> (r: String)
    ensures
        r@ == spec_project_name(doc),
{
    match doc {
        Some(d) => {
            match crate::manifest::get_top(d, "name") {
                Some(TopValue::Field(FieldValue::Text(n))) => n.clone(),
                _ => "standalone-app".to_owned(),
            }
        },
        None => "standalone-app".to_owned(),
    }
}

/// Judge the pipeline's outcome after the staged build ran and the expected
/// binary path was checked.  A failing build aborts with the build error; a
/// build that reported success without producing the binary is an engine-
/// detected impossible state, reported as such rather than as success.  In
/// both failure cases the staging directory has already been left in place.
pub fn bundle_outcome(exit_ok: bool, stderr: &String, binary_present: bool) -> (r: Result<
    (),
    CliError,
>)
    ensures
        !exit_ok ==> (r matches Err(e) && (e matches CliError::ExecutionError {
            command,
            message,
        } && command@ == "cargo build --release"@ && message@ == stderr@)),
        exit_ok && !binary_present ==> (r matches Err(e) && (
        e matches CliError::InternalError { message } && message@
            == "binary not found after build"@)),
        exit_ok && binary_present ==> r is Ok,
{
    if !exit_ok {
        Err(
            CliError::ExecutionError {
                command: "cargo build --release".to_owned(),
                message: stderr.clone(),
            },
        )
    } else if !binary_present {
        Err(CliError::InternalError { message: "binary not found after build".to_owned() })
    } else {
        Ok(())
    }
}

} // verus!
