//! The command handlers' decision logic, one module per command family.
//! Every function here is a pure decision: it takes the probed directory and
//! tool state, manifest documents and parsed options, and produces the
//! invocations to run, the files to write, or the error to report.  The
//! shell executes what is decided and feeds outcomes back in.

pub mod bundle;
pub mod delegate;
pub mod init;
pub mod runtime;
pub mod rust_toggle;
