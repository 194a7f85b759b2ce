//! The unified error taxonomy every command handler reports through.
//!
//! Low-level failures from the shell (file reads, manifest parses) arrive as
//! plain message strings; the engine's own failures carry the structured
//! fields the user sees.  The shell prints `Error: ` followed by `message()`
//! on the error stream and exits with status 1.

use vstd::prelude::*;
use vstd::string::StringExecFns;

verus! {

/// Every way a command can fail.
#[derive(Debug)]
pub enum CliError {
    /// A precondition or manifest access failed; the user can usually act on
    /// it (for instance, run the init command first).
    FileOperationError { operation: String, path: String, message: String },
    /// Refusal to overwrite something that already exists.
    FileExists { path: String },
    /// A delegated toolchain invocation exited non-zero.
    ExecutionError { command: String, message: String },
    /// An impossible state the engine detected itself.
    InternalError { message: String },
    /// A low-level input/output failure, carried as its message.
    IoError(String),
    /// A script-manifest parse failure, carried as its message.
    JsonError(String),
    /// A compiled-manifest parse failure, carried as its message.
    TomlError(String),
}

/// Result type for command handlers.
pub type CliResult<T> = Result<T, CliError>;

/// The user-visible message of each error.
pub open spec fn spec_message(e: CliError) -> Seq<char> {
    match e {
        CliError::FileOperationError { operation, path, message } => "File operation '"@
            + operation@ + "' failed on '"@ + path@ + "': "@ + message@,
        CliError::FileExists { path } => "File already exists: "@ + path@,
        CliError::ExecutionError { command, message } => "Command '"@ + command@ + "' failed: "@
            + message@,
        CliError::InternalError { message } => "Internal error: "@ + message@,
        CliError::IoError(m) => "IO error: "@ + m@,
        CliError::JsonError(m) => "JSON error: "@ + m@,
        CliError::TomlError(m) => "TOML error: "@ + m@,
    }
}

impl CliError {
    /// Render the error as the line the user sees.
    pub fn message(&self) -> (r: String)
        ensures
            r@ == spec_message(*self),
    {
        match self {
            CliError::FileOperationError { operation, path, message } => {
                let mut s = String::new();
                s.append("File operation '");
                s.append(operation.as_str());
                s.append("' failed on '");
                s.append(path.as_str());
                s.append("': ");
                s.append(message.as_str());
                proof {
                    assert(s@ =~= spec_message(*self));
                }
                s
            },
            CliError::FileExists { path } => {
                let mut s = String::new();
                s.append("File already exists: ");
                s.append(path.as_str());
                proof {
                    assert(s@ =~= spec_message(*self));
                }
                s
            },
            CliError::ExecutionError { command, message } => {
                let mut s = String::new();
                s.append("Command '");
                s.append(command.as_str());
                s.append("' failed: ");
                s.append(message.as_str());
                proof {
                    assert(s@ =~= spec_message(*self));
                }
                s
            },
            CliError::InternalError { message } => {
                let mut s = String::new();
                s.append("Internal error: ");
                s.append(message.as_str());
                proof {
                    assert(s@ =~= spec_message(*self));
                }
                s
            },
            CliError::IoError(m) => {
                let mut s = String::new();
                s.append("IO error: ");
                s.append(m.as_str());
                proof {
                    assert(s@ =~= spec_message(*self));
                }
                s
            },
            CliError::JsonError(m) => {
                let mut s = String::new();
                s.append("JSON error: ");
                s.append(m.as_str());
                proof {
                    assert(s@ =~= spec_message(*self));
                }
                s
            },
            CliError::TomlError(m) => {
                let mut s = String::new();
                s.append("TOML error: ");
                s.append(m.as_str());
                proof {
                    assert(s@ =~= spec_message(*self));
                }
                s
            },
        }
    }
}

/// The process exit status for a finished command: zero on success, one on
/// any reported error.
pub fn exit_code_for(r: &Result<(), CliError>) -> (c: i32)
    ensures
        c == (if r is Ok { 0int } else { 1int }),
{
    match r {
        Ok(_) => 0,
        Err(_) => 1,
    }
}

} // verus!
