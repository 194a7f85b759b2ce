//! The add-rust, remove-rust and rust-status commands: turning the compiled
//! half of a hybrid project on and off, and reporting how far it is set up.

use vstd::prelude::*;

use crate::classify::DirState;
use crate::commands::delegate::{is_missing_script_manifest_error, missing_script_manifest_error};
use crate::error::CliError;
use crate::keyed::spec_lookup;
use crate::manifest::{
    doc_wf, section_settable, spec_get_in, FieldValue, ManifestDoc, TopValue,
};
use crate::probe::{inv_args_views, Invocation};

verus! {

broadcast use vstd::string::group_string_axioms;

/// What the add-rust preflight decides.
#[derive(Clone, Copy, PartialEq, Eq, Structural, Debug)]
pub enum AddRustDecision {
    /// The compiled manifest already exists; report and finish successfully.
    AlreadyPresent,
    /// Go ahead and add the compiled half.
    Proceed,
}

/// The add-rust precondition: a script project must exist first, and a
/// compiled manifest that is already there makes the command a friendly
/// no-op rather than an error.
pub fn add_rust_preflight(state: &DirState) -> (r: Result<AddRustDecision, CliError>)
    ensures
        r is Err <==> !state.has_package_json,
        r matches Err(e) ==> is_missing_script_manifest_error(e),
        state.has_package_json ==> r == Ok::<AddRustDecision, CliError>(
            if state.has_cargo_toml {
                AddRustDecision::AlreadyPresent
            } else {
                AddRustDecision::Proceed
            },
        ),
{
    if !state.has_package_json {
        Err(missing_script_manifest_error())
    } else if state.has_cargo_toml {
        Ok(AddRustDecision::AlreadyPresent)
    } else {
        Ok(AddRustDecision::Proceed)
    }
}

/// The compiled-crate name derived from the script manifest: the declared
/// name, or a default when none is declared in a readable shape, with every
/// dash replaced by an underscore.
pub fn crate_name_from_manifest(doc: &ManifestDoc) -> (r: String)
    ensures
        match spec_lookup(doc.entries@, "name"@) {
            Some(TopValue::Field(FieldValue::Text(n))) => r@
                == crate::text::spec_dashes_to_underscores(n@),
            _ => r@ == crate::text::spec_dashes_to_underscores("my-project"@),
        },
{
    match crate::manifest::get_top(doc, "name") {
        Some(TopValue::Field(FieldValue::Text(n))) => crate::text::dashes_to_underscores(
            n.as_str(),
        ),
        _ => crate::text::dashes_to_underscores("my-project"),
    }
}

/// The compiled-toolchain invocation that creates the library crate under
/// the derived name.
pub fn cargo_init_invocation(name: &String) -> (r: Invocation)
    ensures
        r.program@ == "cargo"@,
        inv_args_views(r) =~= seq!["init"@, "--name"@, name@, "--lib"@],
{
    let mut args: Vec<String> = Vec::new();
    args.push("init".to_owned());
    args.push("--name".to_owned());
    args.push(name.clone());
    args.push("--lib".to_owned());
    let inv = Invocation { program: "cargo".to_owned(), args };
    proof {
        assert(inv_args_views(inv) =~= seq!["init"@, "--name"@, name@, "--lib"@]);
    }
    inv
}

/// The error a failed crate creation reports.
pub fn cargo_init_failure(stderr: &String) -> (r: CliError)
    ensures
        r matches CliError::ExecutionError { command, message } && command@ == "cargo init"@
            && message@ == stderr@,
{
    CliError::ExecutionError { command: "cargo init".to_owned(), message: stderr.clone() }
}

/// The crate-type value the library section gets: a single-element list
/// holding the dynamic-library kind the bundler needs.
pub open spec fn is_cdylib_list(v: FieldValue) -> bool {
    &&& v matches FieldValue::List(l)
    &&& l@.len() == 1
    &&& l@[0]@ == "cdylib"@
}

/// Rewrite the compiled manifest for the bundling setup: where a package
/// section exists as a table, the library section's crate-type is set to
/// the dynamic-library kind; the bundler's four dependencies are written
/// into the dependency section.  Both writes merge: every preexisting
/// library key, every preexisting dependency entry, and every other section
/// survive unchanged — no field the engine does not understand is ever
/// dropped.
pub fn add_rust_manifest_edits(doc: &mut ManifestDoc)
    requires
        doc_wf(*old(doc)),
    ensures
        doc_wf(*final(doc)),
        ((spec_lookup(old(doc).entries@, "package"@) matches Some(TopValue::Table(_)))
            && section_settable(*old(doc), "lib"@)) ==> {
            &&& (spec_get_in(*final(doc), "lib"@, "crate-type"@) matches Some(v)
                && is_cdylib_list(v))
            &&& forall|k2: Seq<char>|
                k2 != "crate-type"@ ==> spec_get_in(*final(doc), "lib"@, k2) == spec_get_in(
                    *old(doc),
                    "lib"@,
                    k2,
                )
        },
        !((spec_lookup(old(doc).entries@, "package"@) matches Some(TopValue::Table(_)))
            && section_settable(*old(doc), "lib"@)) ==> spec_lookup(
            final(doc).entries@,
            "lib"@,
        ) == spec_lookup(old(doc).entries@, "lib"@),
        section_settable(*old(doc), "dependencies"@) ==> {
            &&& (spec_get_in(*final(doc), "dependencies"@, "wasm-bindgen"@) matches Some(
                FieldValue::Text(s),
            ) && s@ == "0.2"@)
            &&& (spec_get_in(*final(doc), "dependencies"@, "serde"@) matches Some(
                FieldValue::Text(s),
            ) && s@ == "1.0"@)
            &&& (spec_get_in(*final(doc), "dependencies"@, "serde-wasm-bindgen"@) matches Some(
                FieldValue::Text(s),
            ) && s@ == "0.6"@)
            &&& (spec_get_in(*final(doc), "dependencies"@, "web-sys"@) matches Some(
                FieldValue::Text(s),
            ) && s@ == "0.3"@)
            &&& forall|k2: Seq<char>|
                k2 != "wasm-bindgen"@ && k2 != "serde"@ && k2 != "serde-wasm-bindgen"@ && k2
                    != "web-sys"@ ==> spec_get_in(*final(doc), "dependencies"@, k2)
                    == spec_get_in(*old(doc), "dependencies"@, k2)
        },
        !section_settable(*old(doc), "dependencies"@) ==> spec_lookup(
            final(doc).entries@,
            "dependencies"@,
        ) == spec_lookup(old(doc).entries@, "dependencies"@),
        forall|s2: Seq<char>|
            s2 != "lib"@ && s2 != "dependencies"@ ==> spec_lookup(final(doc).entries@, s2)
                == spec_lookup(old(doc).entries@, s2),
{
    proof {
        reveal_strlit("lib");
        reveal_strlit("dependencies");
        reveal_strlit("wasm-bindgen");
        reveal_strlit("serde");
        reveal_strlit("serde-wasm-bindgen");
        reveal_strlit("web-sys");
        assert("lib"@.len() == 3);
        assert("dependencies"@.len() == 12);
        assert("wasm-bindgen"@.len() == 12);
        assert("serde"@.len() == 5);
        assert("serde-wasm-bindgen"@.len() == 18);
        assert("web-sys"@.len() == 7);
        assert("lib"@ != "dependencies"@);
        assert("wasm-bindgen"@ != "serde"@ && "wasm-bindgen"@ != "serde-wasm-bindgen"@
            && "wasm-bindgen"@ != "web-sys"@ && "serde"@ != "serde-wasm-bindgen"@ && "serde"@
            != "web-sys"@ && "serde-wasm-bindgen"@ != "web-sys"@);
    }
    let package_is_table = match crate::manifest::get_top(doc, "package") {
        Some(TopValue::Table(_)) => true,
        _ => false,
    };
    if package_is_table {
        let mut kinds: Vec<String> = Vec::new();
        kinds.push("cdylib".to_owned());
        crate::manifest::set_in(doc, "lib", "crate-type", FieldValue::List(kinds));
    }
    let ghost dl = *doc;
    proof {
        assert(spec_lookup(dl.entries@, "dependencies"@) == spec_lookup(
            old(doc).entries@,
            "dependencies"@,
        ));
    }
    crate::manifest::set_in(doc, "dependencies", "wasm-bindgen", FieldValue::Text(
        "0.2".to_owned(),
    ));
    let ghost d1 = *doc;
    crate::manifest::set_in(doc, "dependencies", "serde", FieldValue::Text("1.0".to_owned()));
    let ghost d2 = *doc;
    crate::manifest::set_in(doc, "dependencies", "serde-wasm-bindgen", FieldValue::Text(
        "0.6".to_owned(),
    ));
    let ghost d3 = *doc;
    crate::manifest::set_in(doc, "dependencies", "web-sys", FieldValue::Text("0.3".to_owned()));
    proof {
        if section_settable(*old(doc), "dependencies"@) {
            assert(section_settable(dl, "dependencies"@));
            assert(section_settable(d1, "dependencies"@));
            assert(section_settable(d2, "dependencies"@));
            assert(section_settable(d3, "dependencies"@));
            assert(spec_get_in(*final(doc), "dependencies"@, "wasm-bindgen"@) == spec_get_in(
                d1,
                "dependencies"@,
                "wasm-bindgen"@,
            ));
            assert(spec_get_in(*final(doc), "dependencies"@, "serde"@) == spec_get_in(
                d2,
                "dependencies"@,
                "serde"@,
            ));
            assert(spec_get_in(*final(doc), "dependencies"@, "serde-wasm-bindgen"@)
                == spec_get_in(d3, "dependencies"@, "serde-wasm-bindgen"@));
            assert forall|k2: Seq<char>|
                k2 != "wasm-bindgen"@ && k2 != "serde"@ && k2 != "serde-wasm-bindgen"@ && k2
                    != "web-sys"@ implies spec_get_in(*final(doc), "dependencies"@, k2)
                == spec_get_in(*old(doc), "dependencies"@, k2) by {
                assert(spec_get_in(*final(doc), "dependencies"@, k2) == spec_get_in(
                    d3,
                    "dependencies"@,
                    k2,
                ));
                assert(spec_get_in(d3, "dependencies"@, k2) == spec_get_in(
                    d2,
                    "dependencies"@,
                    k2,
                ));
                assert(spec_get_in(d2, "dependencies"@, k2) == spec_get_in(
                    d1,
                    "dependencies"@,
                    k2,
                ));
                assert(spec_get_in(d1, "dependencies"@, k2) == spec_get_in(
                    dl,
                    "dependencies"@,
                    k2,
                ));
                assert(spec_get_in(dl, "dependencies"@, k2) == spec_get_in(
                    *old(doc),
                    "dependencies"@,
                    k2,
                ));
            }
        } else {
            assert(spec_lookup(final(doc).entries@, "dependencies"@) == spec_lookup(
                old(doc).entries@,
                "dependencies"@,
            ));
        }
        assert(spec_lookup(final(doc).entries@, "lib"@) == spec_lookup(dl.entries@, "lib"@));
        if (spec_lookup(old(doc).entries@, "package"@) matches Some(TopValue::Table(_)))
            && section_settable(*old(doc), "lib"@) {
            assert(spec_get_in(*final(doc), "lib"@, "crate-type"@) == spec_get_in(
                dl,
                "lib"@,
                "crate-type"@,
            ));
            assert forall|k2: Seq<char>| k2 != "crate-type"@ implies spec_get_in(
                *final(doc),
                "lib"@,
                k2,
            ) == spec_get_in(*old(doc), "lib"@, k2) by {
                assert(spec_get_in(*final(doc), "lib"@, k2) == spec_get_in(dl, "lib"@, k2));
            }
        }
    }
}

/// Add the bundler's script-side dependency to the script manifest; every
/// other dependency and section is preserved.
pub fn add_wasm_script_dependency(doc: &mut ManifestDoc)
    requires
        doc_wf(*old(doc)),
    ensures
        doc_wf(*final(doc)),
        crate::manifest::section_settable(*old(doc), "dependencies"@) ==> {
            &&& (spec_get_in(*final(doc), "dependencies"@, "wasm-bindgen"@) matches Some(
                FieldValue::Text(s),
            ) && s@ == "^0.2"@)
            &&& forall|k2: Seq<char>|
                k2 != "wasm-bindgen"@ ==> spec_get_in(*final(doc), "dependencies"@, k2)
                    == spec_get_in(*old(doc), "dependencies"@, k2)
            &&& forall|s2: Seq<char>|
                s2 != "dependencies"@ ==> spec_lookup(final(doc).entries@, s2) == spec_lookup(
                    old(doc).entries@,
                    s2,
                )
        },
        !crate::manifest::section_settable(*old(doc), "dependencies"@) ==> final(doc).entries@
            == old(doc).entries@,
{
    crate::manifest::set_in(
        doc,
        "dependencies",
        "wasm-bindgen",
        FieldValue::Text("^0.2".to_owned()),
    );
}

/// Remove the bundler's script-side dependency from the script manifest;
/// every other dependency and section is preserved.
pub fn remove_wasm_script_dependency(doc: &mut ManifestDoc)
    requires
        doc_wf(*old(doc)),
    ensures
        doc_wf(*final(doc)),
        spec_get_in(*final(doc), "dependencies"@, "wasm-bindgen"@) is None,
        forall|k2: Seq<char>|
            k2 != "wasm-bindgen"@ ==> spec_get_in(*final(doc), "dependencies"@, k2)
                == spec_get_in(*old(doc), "dependencies"@, k2),
        forall|s2: Seq<char>|
            s2 != "dependencies"@ ==> spec_lookup(final(doc).entries@, s2) == spec_lookup(
                old(doc).entries@,
                s2,
            ),
{
    crate::manifest::remove_in(doc, "dependencies", "wasm-bindgen");
}

/// What the remove-rust preflight decides.
#[derive(Clone, Copy, PartialEq, Eq, Structural, Debug)]
pub enum RemoveRustDecision {
    /// There is no compiled manifest; report and finish successfully.
    NothingToRemove,
    /// The user has not pre-confirmed; prompt before touching anything.
    NeedsConfirmation,
    /// Go ahead and remove the compiled half.
    Proceed,
}

/// The remove-rust precondition: nothing to do without a compiled manifest;
/// without the pre-confirmation flag the user is asked first.
pub fn remove_rust_preflight(state: &DirState, yes: bool) -> (r: RemoveRustDecision)
    ensures
        !state.has_cargo_toml ==> r == RemoveRustDecision::NothingToRemove,
        state.has_cargo_toml && !yes ==> r == RemoveRustDecision::NeedsConfirmation,
        state.has_cargo_toml && yes ==> r == RemoveRustDecision::Proceed,
{
    if !state.has_cargo_toml {
        RemoveRustDecision::NothingToRemove
    } else if !yes {
        RemoveRustDecision::NeedsConfirmation
    } else {
        RemoveRustDecision::Proceed
    }
}

/// The filesystem entries remove-rust deletes, in order: the compiled
/// manifest, the source directory, and the bundler output directory, each
/// only where it exists.
pub fn rust_removal_paths(state: &DirState) -> (r: Vec<&'static str>)
    ensures
        r@.len() == (if state.has_cargo_toml { 1int } else { 0 }) + (if state.has_src_dir {
            1int
        } else {
            0
        }) + (if state.has_pkg_dir { 1int } else { 0 }),
        state.has_cargo_toml ==> r@[0]@ == "Cargo.toml"@,
        state.has_src_dir ==> r@[if state.has_cargo_toml { 1int } else { 0 }]@ == "src"@,
        state.has_pkg_dir ==> r@[r@.len() - 1]@ == "pkg"@,
{
    let mut out: Vec<&'static str> = Vec::new();
    if state.has_cargo_toml {
        out.push("Cargo.toml");
    }
    if state.has_src_dir {
        out.push("src");
    }
    if state.has_pkg_dir {
        out.push("pkg");
    }
    out
}

/// What the rust-status command reports.
#[derive(Clone, Copy, PartialEq, Eq, Structural, Debug)]
pub enum RustStatus {
    /// No script manifest: not in a project this tool manages.
    NotJsProject,
    /// Compiled manifest, source directory and library root all present.
    FullyIntegrated,
    /// Some compiled-project pieces present, but not all of them.
    PartiallyIntegrated,
    /// No compiled-project pieces at all: a script-only project.
    JsOnly,
}

/// Report how far the compiled half of the project is set up; never fails,
/// and a script-only project is a normal report, not an error.
pub fn rust_status(state: &DirState) -> (r: RustStatus)
    ensures
        !state.has_package_json ==> r == RustStatus::NotJsProject,
        state.has_package_json && state.has_cargo_toml && state.has_src_dir
            && state.has_src_lib_rs ==> r == RustStatus::FullyIntegrated,
        state.has_package_json && !(state.has_cargo_toml && state.has_src_dir
            && state.has_src_lib_rs) && (state.has_cargo_toml || state.has_src_dir) ==> r
            == RustStatus::PartiallyIntegrated,
        state.has_package_json && !state.has_cargo_toml && !state.has_src_dir ==> r
            == RustStatus::JsOnly,
{
    if !state.has_package_json {
        RustStatus::NotJsProject
    } else if state.has_cargo_toml && state.has_src_dir && state.has_src_lib_rs {
        RustStatus::FullyIntegrated
    } else if state.has_cargo_toml || state.has_src_dir {
        RustStatus::PartiallyIntegrated
    } else {
        RustStatus::JsOnly
    }
}

} // verus!
