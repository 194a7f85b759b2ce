use cpm::classify::{classify, DirState, ProjectKind};
use cpm::error::{exit_code_for, CliError};
use cpm::framework::{handle_panic, init_logging, setup_signal_handlers, CliContext};
use cpm::registry::{command_name, default_registry, dispatch, CommandKind, DispatchOutcome};

fn empty_dir() -> DirState {
    DirState {
        has_package_json: false,
        has_cargo_toml: false,
        has_src_dir: false,
        has_src_lib_rs: false,
        has_pkg_dir: false,
        has_subdir_entry: false,
        has_root_entry: false,
    }
}

#[test]
fn classify_all_four_kinds() {
    let mut s = empty_dir();
    assert_eq!(classify(&s), ProjectKind::Uninitialized);
    s.has_package_json = true;
    assert_eq!(classify(&s), ProjectKind::ScriptOnly);
    s.has_cargo_toml = true;
    assert_eq!(classify(&s), ProjectKind::Hybrid);
    s.has_package_json = false;
    assert_eq!(classify(&s), ProjectKind::CompiledOnly);
}

#[test]
fn default_registry_lists_all_commands_in_order() {
    let reg = default_registry();
    let names = reg.names();
    assert_eq!(
        names,
        vec![
            "init",
            "add-rust",
            "remove-rust",
            "rust-status",
            "npx",
            "add",
            "remove",
            "lock",
            "workspace",
            "publish",
            "install",
            "build",
            "dev",
            "test",
            "run",
        ]
    );
}

#[test]
fn lookup_is_exact_name_match() {
    let reg = default_registry();
    assert_eq!(reg.lookup("init"), Some(CommandKind::Init));
    assert_eq!(reg.lookup("rust-status"), Some(CommandKind::RustStatus));
    assert_eq!(reg.lookup("ini"), None);
    assert_eq!(reg.lookup("INIT"), None);
    assert_eq!(reg.lookup(""), None);
}

#[test]
fn dispatch_without_subcommand_is_help() {
    let reg = default_registry();
    assert_eq!(dispatch(&reg, None), DispatchOutcome::Help);
}

#[test]
fn dispatch_unknown_subcommand_does_not_crash() {
    let reg = default_registry();
    assert_eq!(dispatch(&reg, Some("frobnicate")), DispatchOutcome::Unknown);
    assert_eq!(dispatch(&reg, Some("install")), DispatchOutcome::Run(CommandKind::Install));
}

#[test]
fn command_names_round_trip_through_lookup() {
    let reg = default_registry();
    for kind in reg.commands.iter() {
        assert_eq!(reg.lookup(command_name(*kind)), Some(*kind));
    }
}

#[test]
fn exit_codes_follow_the_result() {
    assert_eq!(exit_code_for(&Ok(())), 0);
    let err: Result<(), CliError> = Err(CliError::InternalError {
        message: "boom".to_string(),
    });
    assert_eq!(exit_code_for(&err), 1);
}

#[test]
fn error_messages_match_the_display_format() {
    let e = CliError::FileOperationError {
        operation: "read package.json".to_string(),
        path: "package.json".to_string(),
        message: "missing".to_string(),
    };
    assert_eq!(
        e.message(),
        "File operation 'read package.json' failed on 'package.json': missing"
    );
    let e = CliError::FileExists { path: "demo".to_string() };
    assert_eq!(e.message(), "File already exists: demo");
    let e = CliError::ExecutionError {
        command: "npm install".to_string(),
        message: "exit 1".to_string(),
    };
    assert_eq!(e.message(), "Command 'npm install' failed: exit 1");
    let e = CliError::InternalError { message: "bad".to_string() };
    assert_eq!(e.message(), "Internal error: bad");
    let e = CliError::IoError("refused".to_string());
    assert_eq!(e.message(), "IO error: refused");
    let e = CliError::JsonError("eof".to_string());
    assert_eq!(e.message(), "JSON error: eof");
    let e = CliError::TomlError("bad table".to_string());
    assert_eq!(e.message(), "TOML error: bad table");
}

#[test]
fn framework_hooks_are_harmless() {
    handle_panic();
    init_logging();
    assert!(setup_signal_handlers().is_ok());
    let ctx = CliContext::default();
    assert!(!ctx.verbose);
    assert!(!ctx.quiet);
}
