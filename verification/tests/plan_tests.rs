use cpm::classify::DirState;
use cpm::commands::bundle::{bundle_outcome, bundle_plan, compiled_build_steps};
use cpm::commands::delegate::{
    add_packages_plan, delegation_precheck, install_steps, lock_plan, npx_failure, npx_plan,
    publish_plan, remove_packages_plan, step_outcome, test_steps, workspace_members,
    workspace_plan, NpxPlan, StepOutcome,
};
use cpm::commands::runtime::{entry_point, run_plan, runtime_invocation, watch_wrapped, RunTarget};
use cpm::error::CliError;
use cpm::manifest::{empty_doc, FieldValue, ManifestDoc, TopValue};
use cpm::probe::{npm_program_platform, npm_program_probed, Invocation, Step};

fn dir(package_json: bool, cargo_toml: bool) -> DirState {
    DirState {
        has_package_json: package_json,
        has_cargo_toml: cargo_toml,
        has_src_dir: false,
        has_src_lib_rs: false,
        has_pkg_dir: false,
        has_subdir_entry: false,
        has_root_entry: false,
    }
}

fn strings(words: &[&str]) -> Vec<String> {
    words.iter().map(|w| w.to_string()).collect()
}

fn assert_missing_manifest(e: CliError) {
    match e {
        CliError::FileOperationError { operation, path, message } => {
            assert_eq!(operation, "read package.json");
            assert_eq!(path, "package.json");
            assert_eq!(message, "Not in a JavaScript project. Run 'cpm init' first.");
        },
        _ => panic!("expected the missing-manifest error"),
    }
}

#[test]
fn npm_program_selection() {
    assert_eq!(npm_program_probed(true, true), "npm.cmd");
    assert_eq!(npm_program_probed(true, false), "npm");
    assert_eq!(npm_program_probed(false, true), "npm");
    assert_eq!(npm_program_platform(true), "npm.cmd");
    assert_eq!(npm_program_platform(false), "npm");
}

#[test]
fn every_delegation_command_refuses_an_uninitialized_directory() {
    let s = dir(false, false);
    assert_missing_manifest(delegation_precheck(&s).unwrap_err());
    assert_missing_manifest(install_steps(&s, false).unwrap_err());
    assert_missing_manifest(test_steps(&s, false).unwrap_err());
    assert_missing_manifest(add_packages_plan(&s, &strings(&["a"]), false, false).unwrap_err());
    assert_missing_manifest(remove_packages_plan(&s, &strings(&["a"]), false).unwrap_err());
    assert_missing_manifest(lock_plan(&s, false).unwrap_err());
    assert_missing_manifest(publish_plan(&s, false).unwrap_err());
    assert_missing_manifest(npx_plan(&s, None, &strings(&[])).unwrap_err());
    assert_missing_manifest(workspace_plan(&s, &empty_doc()).unwrap_err());
}

#[test]
fn install_runs_both_toolchains_on_a_hybrid_project() {
    let steps = install_steps(&dir(true, true), false).unwrap();
    assert_eq!(steps.len(), 2);
    assert_eq!(steps[0].invocation.program, "npm");
    assert_eq!(steps[0].invocation.args, strings(&["install"]));
    assert!(steps[0].abort_on_failure);
    assert_eq!(steps[1].invocation.program, "cargo");
    assert_eq!(steps[1].invocation.args, strings(&["build"]));
    assert!(steps[1].abort_on_failure);
    let steps = install_steps(&dir(true, false), false).unwrap();
    assert_eq!(steps.len(), 1);
    assert_eq!(steps[0].invocation.program, "npm");
}

#[test]
fn test_command_aborts_on_either_toolchains_failure() {
    let steps = test_steps(&dir(true, true), false).unwrap();
    assert_eq!(steps.len(), 2);
    assert_eq!(steps[0].invocation.args, strings(&["test"]));
    assert!(steps[0].abort_on_failure);
    assert_eq!(steps[1].invocation.program, "cargo");
    assert!(steps[1].abort_on_failure);
    match step_outcome(&steps[0], false, &"no test script".to_string()) {
        StepOutcome::Fail(CliError::ExecutionError { command, message }) => {
            assert_eq!(command, "npm test");
            assert_eq!(message, "no test script");
        },
        _ => panic!("a failing script-test step must abort with the execution error"),
    }
}

#[test]
fn step_outcomes_follow_the_exit_and_severity() {
    let step = Step {
        invocation: Invocation { program: "cargo".to_string(), args: strings(&["test"]) },
        abort_on_failure: true,
    };
    assert!(matches!(step_outcome(&step, true, &"".to_string()), StepOutcome::Continue));
    match step_outcome(&step, false, &"boom".to_string()) {
        StepOutcome::Fail(CliError::ExecutionError { command, message }) => {
            assert_eq!(command, "cargo test");
            assert_eq!(message, "boom");
        },
        _ => panic!("an aborting step must fail with the execution error"),
    }
    let soft = Step { abort_on_failure: false, ..step };
    assert!(matches!(step_outcome(&soft, false, &"boom".to_string()), StepOutcome::Warn));
}

#[test]
fn add_and_remove_delegate_with_passthrough() {
    let s = dir(true, false);
    let inv = add_packages_plan(&s, &strings(&["left", "right"]), true, false).unwrap();
    assert_eq!(inv.program, "npm");
    assert_eq!(inv.args, strings(&["install", "left", "right", "--save-dev"]));
    let inv = add_packages_plan(&s, &strings(&["left"]), false, false).unwrap();
    assert_eq!(inv.args, strings(&["install", "left"]));
    let inv = remove_packages_plan(&s, &strings(&["left"]), false).unwrap();
    assert_eq!(inv.args, strings(&["uninstall", "left"]));
}

#[test]
fn lock_and_publish_delegate() {
    let s = dir(true, false);
    let inv = lock_plan(&s, false).unwrap();
    assert_eq!(inv.args, strings(&["install", "--package-lock-only"]));
    let inv = publish_plan(&s, false).unwrap();
    assert_eq!(inv.args, strings(&["publish"]));
}

#[test]
fn workspace_listing_reads_the_manifest() {
    let doc = ManifestDoc {
        entries: vec![(
            "workspaces".to_string(),
            TopValue::Field(FieldValue::List(strings(&["packages/a", "packages/b"]))),
        )],
    };
    assert_eq!(workspace_members(&doc), Some(&strings(&["packages/a", "packages/b"])));
    assert_eq!(workspace_members(&empty_doc()), None);
}

#[test]
fn npx_runs_the_named_package_or_shows_usage() {
    let s = dir(true, false);
    match npx_plan(&s, Some(&"cowsay".to_string()), &strings(&["hello"])).unwrap() {
        NpxPlan::Run(inv) => {
            assert_eq!(inv.program, "npx");
            assert_eq!(inv.args, strings(&["cowsay", "hello"]));
        },
        NpxPlan::Usage => panic!("a named package must run"),
    }
    assert!(matches!(npx_plan(&s, None, &strings(&[])).unwrap(), NpxPlan::Usage));
    match npx_failure(&"cowsay".to_string()) {
        CliError::ExecutionError { command, message } => {
            assert_eq!(command, "npx cowsay");
            assert_eq!(message, "npx command failed");
        },
        _ => panic!("wrong error variant"),
    }
}

#[test]
fn entry_point_prefers_the_subdirectory() {
    let mut s = dir(true, false);
    s.has_subdir_entry = true;
    s.has_root_entry = true;
    assert_eq!(entry_point(&s).unwrap(), "js/index.js");
    s.has_subdir_entry = false;
    assert_eq!(entry_point(&s).unwrap(), "index.js");
    s.has_root_entry = false;
    match entry_point(&s).unwrap_err() {
        CliError::FileOperationError { operation, path, message } => {
            assert_eq!(operation, "read JavaScript entry point");
            assert_eq!(path, "index.js");
            assert_eq!(message, "File not found");
        },
        _ => panic!("expected the entry-point error"),
    }
}

#[test]
fn runtime_selection_prefers_the_native_runtime() {
    let inv = runtime_invocation(true, "index.js");
    assert_eq!(inv.program, "jetcrab");
    assert_eq!(inv.args, strings(&["run", "index.js"]));
    let inv = runtime_invocation(false, "index.js");
    assert_eq!(inv.program, "node");
    assert_eq!(inv.args, strings(&["index.js"]));
}

#[test]
fn watch_mode_wraps_or_warns() {
    let inner = runtime_invocation(false, "index.js");
    let (inv, warn) = watch_wrapped(true, true, inner);
    assert!(!warn);
    assert_eq!(inv.program, "watchexec");
    assert_eq!(inv.args, strings(&["--restart", "--", "node", "index.js"]));
    let inner = runtime_invocation(false, "index.js");
    let (inv, warn) = watch_wrapped(true, false, inner);
    assert!(warn);
    assert_eq!(inv.program, "node");
    let inner = runtime_invocation(false, "index.js");
    let (inv, warn) = watch_wrapped(false, true, inner);
    assert!(!warn);
    assert_eq!(inv.program, "node");
}

#[test]
fn run_prefers_a_script_name_over_a_path() {
    let doc = ManifestDoc {
        entries: vec![(
            "scripts".to_string(),
            TopValue::Table(vec![(
                "start".to_string(),
                FieldValue::Text("node index.js".to_string()),
            )]),
        )],
    };
    match run_plan(&doc, &"start".to_string(), false, false) {
        RunTarget::Script(inv) => {
            assert_eq!(inv.program, "npm");
            assert_eq!(inv.args, strings(&["run", "start"]));
        },
        RunTarget::File(_) => panic!("a declared script name must win"),
    }
    match run_plan(&doc, &"other.js".to_string(), true, false) {
        RunTarget::File(inv) => {
            assert_eq!(inv.program, "jetcrab");
            assert_eq!(inv.args, strings(&["run", "other.js"]));
        },
        RunTarget::Script(_) => panic!("an undeclared name is a file path"),
    }
}

#[test]
fn compiled_build_delegates_and_post_processes() {
    let steps = compiled_build_steps(&dir(true, true), true);
    assert_eq!(steps.len(), 2);
    assert_eq!(steps[0].invocation.program, "cargo");
    assert_eq!(steps[0].invocation.args, strings(&["build"]));
    assert!(steps[0].abort_on_failure);
    assert_eq!(steps[1].invocation.program, "wasm-pack");
    assert_eq!(
        steps[1].invocation.args,
        strings(&["build", "--release", "--target", "web", "--out-dir", "pkg"])
    );
    assert!(!steps[1].abort_on_failure);
    let steps = compiled_build_steps(&dir(true, true), false);
    assert_eq!(steps.len(), 1);
    assert!(compiled_build_steps(&dir(true, false), true).is_empty());
}

#[test]
fn bundle_plan_derives_names_and_paths() {
    let mut s = dir(true, false);
    s.has_root_entry = true;
    let doc = ManifestDoc {
        entries: vec![(
            "name".to_string(),
            TopValue::Field(FieldValue::Text("demo".to_string())),
        )],
    };
    let plan = bundle_plan(&s, Some(&doc), None, false).unwrap();
    assert_eq!(plan.entry_script, "index.js");
    assert_eq!(plan.output_name, "demo");
    assert_eq!(plan.staging_dir, "standalone-build");
    assert_eq!(plan.runtime_path, "../jetcrab");
    assert!(plan.build_manifest.contains("jetcrab = { path = \"../jetcrab\" }"));
    assert!(plan.build_manifest.contains("name = \"standalone-app\""));
    assert_eq!(plan.build_invocation.program, "cargo");
    assert_eq!(plan.build_invocation.args, strings(&["build", "--release"]));
    assert_eq!(plan.built_binary, "standalone-build/target/release/standalone-app");

    let plan = bundle_plan(&s, None, Some(&"/opt/rt".to_string()), true).unwrap();
    assert_eq!(plan.output_name, "standalone-app.exe");
    assert_eq!(plan.runtime_path, "/opt/rt");
    assert!(plan.build_manifest.contains("jetcrab = { path = \"/opt/rt\" }"));
    assert_eq!(plan.built_binary, "standalone-build/target/release/standalone-app.exe");
}

#[test]
fn bundle_without_an_entry_script_is_refused() {
    let s = dir(true, false);
    match bundle_plan(&s, None, None, false).unwrap_err() {
        CliError::FileOperationError { operation, .. } => {
            assert_eq!(operation, "read JavaScript entry point");
        },
        _ => panic!("expected the entry-point error"),
    }
}

#[test]
fn bundle_aborts_when_the_staged_build_fails() {
    match bundle_outcome(false, &"linker error".to_string(), false).unwrap_err() {
        CliError::ExecutionError { command, message } => {
            assert_eq!(command, "cargo build --release");
            assert_eq!(message, "linker error");
        },
        _ => panic!("a failed build must abort with the execution error"),
    }
}

#[test]
fn bundle_treats_a_missing_binary_as_internal() {
    match bundle_outcome(true, &"".to_string(), false).unwrap_err() {
        CliError::InternalError { message } => {
            assert_eq!(message, "binary not found after build");
        },
        _ => panic!("a missing artifact must be an internal error"),
    }
    assert!(bundle_outcome(true, &"".to_string(), true).is_ok());
}
