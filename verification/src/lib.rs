//! Core engine of a project meta-tool: it classifies a working directory as a
//! script project, a compiled project, a hybrid, or neither, dispatches a
//! subcommand to exactly one handler, and plans the external toolchain
//! invocations each handler performs.  All decisions are pure functions of
//! plain values handed in by the thin binary shell; the shell performs the
//! file and process work and feeds the outcomes back.

pub mod classify;
pub mod commands;
pub mod easter_egg;
pub mod error;
pub mod framework;
pub mod keyed;
pub mod manifest;
pub mod probe;
pub mod registry;
pub mod text;
