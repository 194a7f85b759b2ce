use cpm::classify::DirState;
use cpm::commands::init::{
    add_cpm_scripts, check_target_directory, entry_script_source, npm_init_failure,
    npm_init_invocation, project_name_or_default, readme_source,
};
use cpm::commands::rust_toggle::{
    add_rust_manifest_edits, add_rust_preflight, add_wasm_script_dependency,
    cargo_init_invocation, crate_name_from_manifest, remove_rust_preflight,
    remove_wasm_script_dependency, rust_removal_paths, rust_status, AddRustDecision,
    RemoveRustDecision, RustStatus,
};
use cpm::error::CliError;
use cpm::manifest::{empty_doc, get_in, get_top, FieldValue, ManifestDoc, TopValue};
use cpm::text::{confirmation_accepted, dashes_to_underscores};

fn dir(package_json: bool, cargo_toml: bool) -> DirState {
    DirState {
        has_package_json: package_json,
        has_cargo_toml: cargo_toml,
        has_src_dir: false,
        has_src_lib_rs: false,
        has_pkg_dir: false,
        has_subdir_entry: false,
        has_root_entry: false,
    }
}

fn text(s: &str) -> FieldValue {
    FieldValue::Text(s.to_string())
}

fn get_in_text(doc: &ManifestDoc, section: &str, key: &str) -> Option<String> {
    match get_in(doc, section, key) {
        Some(FieldValue::Text(s)) => Some(s.clone()),
        _ => None,
    }
}

#[test]
fn init_name_defaults() {
    assert_eq!(project_name_or_default(Some(&"demo".to_string())), "demo");
    assert_eq!(project_name_or_default(None), "my-cpm-project");
}

#[test]
fn init_refuses_existing_directory() {
    match check_target_directory(&"demo".to_string(), true) {
        Err(CliError::FileExists { path }) => assert_eq!(path, "demo"),
        _ => panic!("an existing target directory must be refused"),
    }
    assert!(check_target_directory(&"demo".to_string(), false).is_ok());
}

#[test]
fn init_npm_invocation_passes_defaults_flag() {
    let inv = npm_init_invocation("npm", true);
    assert_eq!(inv.program, "npm");
    assert_eq!(inv.args, vec!["init".to_string(), "-y".to_string()]);
    let inv = npm_init_invocation("npm", false);
    assert_eq!(inv.args, vec!["init".to_string()]);
}

#[test]
fn init_failure_carries_both_streams() {
    match npm_init_failure("npm", &"e".to_string(), &"o".to_string()) {
        CliError::ExecutionError { command, message } => {
            assert_eq!(command, "npm init");
            assert_eq!(message, "stderr: e\nstdout: o");
        },
        _ => panic!("wrong error variant"),
    }
}

#[test]
fn init_adds_the_three_scripts() {
    let mut doc = empty_doc();
    add_cpm_scripts(&mut doc);
    assert_eq!(get_in_text(&doc, "scripts", "dev"), Some("cpm dev".to_string()));
    assert_eq!(get_in_text(&doc, "scripts", "build"), Some("cpm build".to_string()));
    assert_eq!(get_in_text(&doc, "scripts", "test"), Some("cpm test".to_string()));
}

#[test]
fn init_keeps_existing_scripts() {
    let mut doc = ManifestDoc {
        entries: vec![(
            "scripts".to_string(),
            TopValue::Table(vec![("start".to_string(), text("node index.js"))]),
        )],
    };
    add_cpm_scripts(&mut doc);
    assert_eq!(get_in_text(&doc, "scripts", "start"), Some("node index.js".to_string()));
    assert_eq!(get_in_text(&doc, "scripts", "dev"), Some("cpm dev".to_string()));
}

#[test]
fn init_generated_files_mention_the_project() {
    let readme = readme_source(&"demo".to_string());
    assert!(readme.starts_with("# demo - CPM JavaScript Project"));
    assert!(readme.contains("cpm install"));
    assert!(entry_script_source().contains("greet('World')"));
}

#[test]
fn add_rust_needs_a_script_project() {
    match add_rust_preflight(&dir(false, false)) {
        Err(CliError::FileOperationError { path, .. }) => assert_eq!(path, "package.json"),
        _ => panic!("add-rust outside a project must be refused"),
    }
    assert_eq!(add_rust_preflight(&dir(true, true)).unwrap(), AddRustDecision::AlreadyPresent);
    assert_eq!(add_rust_preflight(&dir(true, false)).unwrap(), AddRustDecision::Proceed);
}

#[test]
fn crate_name_is_derived_from_the_manifest() {
    let doc = ManifestDoc {
        entries: vec![("name".to_string(), TopValue::Field(text("my-app")))],
    };
    assert_eq!(crate_name_from_manifest(&doc), "my_app");
    assert_eq!(crate_name_from_manifest(&empty_doc()), "my_project");
    assert_eq!(dashes_to_underscores("a-b-c"), "a_b_c");
    assert_eq!(dashes_to_underscores("plain"), "plain");
}

#[test]
fn cargo_init_names_the_library() {
    let inv = cargo_init_invocation(&"my_app".to_string());
    assert_eq!(inv.program, "cargo");
    assert_eq!(
        inv.args,
        vec![
            "init".to_string(),
            "--name".to_string(),
            "my_app".to_string(),
            "--lib".to_string(),
        ]
    );
}

#[test]
fn add_rust_rewrites_the_compiled_manifest() {
    let mut doc = ManifestDoc {
        entries: vec![(
            "package".to_string(),
            TopValue::Table(vec![("name".to_string(), text("my_app"))]),
        )],
    };
    add_rust_manifest_edits(&mut doc);
    match get_top(&doc, "lib") {
        Some(TopValue::Table(t)) => {
            assert_eq!(t.len(), 1);
            assert_eq!(t[0].0, "crate-type");
            match &t[0].1 {
                FieldValue::List(l) => assert_eq!(l, &vec!["cdylib".to_string()]),
                _ => panic!("crate-type must be a list"),
            }
        },
        _ => panic!("lib section missing"),
    }
    assert_eq!(get_in_text(&doc, "dependencies", "wasm-bindgen"), Some("0.2".to_string()));
    assert_eq!(get_in_text(&doc, "dependencies", "serde"), Some("1.0".to_string()));
    assert_eq!(
        get_in_text(&doc, "dependencies", "serde-wasm-bindgen"),
        Some("0.6".to_string())
    );
    assert_eq!(get_in_text(&doc, "dependencies", "web-sys"), Some("0.3".to_string()));
    // the package section is untouched
    assert_eq!(get_in_text(&doc, "package", "name"), Some("my_app".to_string()));
}

#[test]
fn add_rust_keeps_preexisting_manifest_entries() {
    let mut doc = ManifestDoc {
        entries: vec![
            (
                "package".to_string(),
                TopValue::Table(vec![("name".to_string(), text("my_app"))]),
            ),
            (
                "lib".to_string(),
                TopValue::Table(vec![("path".to_string(), text("src/other.rs"))]),
            ),
            (
                "dependencies".to_string(),
                TopValue::Table(vec![("left".to_string(), text("1.0.0"))]),
            ),
        ],
    };
    add_rust_manifest_edits(&mut doc);
    // preexisting entries survive the merge
    assert_eq!(get_in_text(&doc, "lib", "path"), Some("src/other.rs".to_string()));
    assert_eq!(get_in_text(&doc, "dependencies", "left"), Some("1.0.0".to_string()));
    // and the bundler's entries are written beside them
    match get_in(&doc, "lib", "crate-type") {
        Some(FieldValue::List(l)) => assert_eq!(l, &vec!["cdylib".to_string()]),
        _ => panic!("crate-type must be a list"),
    }
    assert_eq!(get_in_text(&doc, "dependencies", "wasm-bindgen"), Some("0.2".to_string()));
}

#[test]
fn add_rust_without_package_table_skips_the_lib_section() {
    let mut doc = empty_doc();
    add_rust_manifest_edits(&mut doc);
    assert!(get_top(&doc, "lib").is_none());
    assert_eq!(get_in_text(&doc, "dependencies", "serde"), Some("1.0".to_string()));
}

#[test]
fn script_dependency_is_added_and_removed() {
    let mut doc = ManifestDoc {
        entries: vec![(
            "dependencies".to_string(),
            TopValue::Table(vec![("left".to_string(), text("1.0.0"))]),
        )],
    };
    add_wasm_script_dependency(&mut doc);
    assert_eq!(get_in_text(&doc, "dependencies", "wasm-bindgen"), Some("^0.2".to_string()));
    remove_wasm_script_dependency(&mut doc);
    assert_eq!(get_in_text(&doc, "dependencies", "wasm-bindgen"), None);
    assert_eq!(get_in_text(&doc, "dependencies", "left"), Some("1.0.0".to_string()));
}

#[test]
fn remove_rust_decisions() {
    assert_eq!(
        remove_rust_preflight(&dir(true, false), false),
        RemoveRustDecision::NothingToRemove
    );
    assert_eq!(
        remove_rust_preflight(&dir(true, true), false),
        RemoveRustDecision::NeedsConfirmation
    );
    assert_eq!(remove_rust_preflight(&dir(true, true), true), RemoveRustDecision::Proceed);
}

#[test]
fn confirmation_accepts_only_leading_y() {
    assert!(confirmation_accepted("y\n"));
    assert!(confirmation_accepted("Y"));
    assert!(confirmation_accepted("  yes\n"));
    assert!(!confirmation_accepted("n\n"));
    assert!(!confirmation_accepted(""));
    assert!(!confirmation_accepted("   \n"));
    assert!(!confirmation_accepted("maybe"));
}

#[test]
fn removal_paths_follow_what_exists() {
    let mut s = dir(true, true);
    s.has_src_dir = true;
    s.has_pkg_dir = true;
    assert_eq!(rust_removal_paths(&s), vec!["Cargo.toml", "src", "pkg"]);
    s.has_src_dir = false;
    assert_eq!(rust_removal_paths(&s), vec!["Cargo.toml", "pkg"]);
    assert_eq!(rust_removal_paths(&dir(true, false)), Vec::<&str>::new());
}

#[test]
fn rust_status_reports_each_shape() {
    assert_eq!(rust_status(&dir(false, false)), RustStatus::NotJsProject);
    let mut s = dir(true, true);
    s.has_src_dir = true;
    s.has_src_lib_rs = true;
    assert_eq!(rust_status(&s), RustStatus::FullyIntegrated);
    s.has_src_lib_rs = false;
    assert_eq!(rust_status(&s), RustStatus::PartiallyIntegrated);
    assert_eq!(rust_status(&dir(true, false)), RustStatus::JsOnly);
}

#[test]
fn rust_status_js_only_without_compiled_manifest() {
    // a script manifest but no compiled manifest reports a script-only project
    let s = dir(true, false);
    assert_eq!(rust_status(&s), RustStatus::JsOnly);
}
