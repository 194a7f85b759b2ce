//! Project classification: which manifest files are present in the working
//! directory decides what kind of project the tool is operating on.

use vstd::prelude::*;

verus! {

/// Presence flags for the files the engine inspects in the working
/// directory.  The binary shell fills this in with plain existence checks;
/// no file content is ever read for classification.
#[derive(Clone, Copy, PartialEq, Eq, Structural, Debug)]
pub struct DirState {
    /// The script-project manifest (`package.json`) exists.
    pub has_package_json: bool,
    /// The compiled-project manifest (`Cargo.toml`) exists.
    pub has_cargo_toml: bool,
    /// A `src/` directory exists.
    pub has_src_dir: bool,
    /// A `src/lib.rs` file exists.
    pub has_src_lib_rs: bool,
    /// A `pkg/` directory exists.
    pub has_pkg_dir: bool,
    /// The conventional subdirectory entry script (`js/index.js`) exists.
    pub has_subdir_entry: bool,
    /// The root-level entry script (`index.js`) exists.
    pub has_root_entry: bool,
}

/// The four project kinds, a pure function of which manifests exist.
#[derive(Clone, Copy, PartialEq, Eq, Structural, Debug)]
pub enum ProjectKind {
    ScriptOnly,
    CompiledOnly,
    Hybrid,
    Uninitialized,
}

/// What `classify` returns for a given directory state.
pub open spec fn spec_classify(state: DirState) -> ProjectKind {
    if state.has_package_json && state.has_cargo_toml {
        ProjectKind::Hybrid
    } else if state.has_package_json {
        ProjectKind::ScriptOnly
    } else if state.has_cargo_toml {
        ProjectKind::CompiledOnly
    } else {
        ProjectKind::Uninitialized
    }
}

/// Classify the project from manifest presence alone.  Never fails and never
/// looks at file contents.
pub fn classify(state: &DirState) -> (kind: ProjectKind)
    ensures
        kind == spec_classify(*state),
{
    if state.has_package_json && state.has_cargo_toml {
        ProjectKind::Hybrid
    } else if state.has_package_json {
        ProjectKind::ScriptOnly
    } else if state.has_cargo_toml {
        ProjectKind::CompiledOnly
    } else {
        ProjectKind::Uninitialized
    }
}

/// A directory with neither manifest file classifies as `Uninitialized`,
/// whatever else it may contain.
pub proof fn lemma_no_manifests_is_uninitialized(state: DirState)
    requires
        !state.has_package_json,
        !state.has_cargo_toml,
    ensures
        spec_classify(state) == ProjectKind::Uninitialized,
{
}

} // verus!
