//! The init command: create a fresh script project.
//!
//! The handler refuses to touch an existing directory, then creates the
//! project directory, delegates manifest creation to the package manager,
//! adds the tool's own script entries to the fresh manifest, and writes an
//! entry script and a README.

use vstd::prelude::*;
use vstd::string::StringExecFns;

use crate::error::CliError;
use crate::keyed::spec_lookup;
use crate::manifest::{
    doc_wf, section_settable, spec_get_in, FieldValue, ManifestDoc, TopValue,
};
use crate::probe::{inv_args_views, Invocation};

verus! {

broadcast use vstd::string::group_string_axioms;

/// The project name to use: the given one, or the default when none was
/// given.
pub fn project_name_or_default(name: Option<&String>) -> (r: String)
    ensures
        match name {
            Some(n) => r@ == n@,
            None => r@ == "my-cpm-project"@,
        },
{
    match name {
        Some(n) => n.clone(),
        None => "my-cpm-project".to_owned(),
    }
}

/// Refuse to initialize into a directory that already exists; nothing may be
/// overwritten.  When the target is free the command proceeds.
pub fn check_target_directory(name: &String, exists: bool) -> (r: Result<(), CliError>)
    ensures
        r is Err <==> exists,
        r matches Err(e) ==> (e matches CliError::FileExists { path } && path@ == name@),
{
    if exists {
        Err(CliError::FileExists { path: name.clone() })
    } else {
        Ok(())
    }
}

/// The package-manager invocation that creates the fresh manifest: its init
/// subcommand, with the accept-defaults flag passed through.
pub fn npm_init_invocation(npm_program: &str, yes: bool) -> (r: Invocation)
    ensures
        r.program@ == npm_program@,
        yes ==> inv_args_views(r) =~= seq!["init"@, "-y"@],
        !yes ==> inv_args_views(r) =~= seq!["init"@],
{
    let mut args: Vec<String> = Vec::new();
    args.push("init".to_owned());
    if yes {
        args.push("-y".to_owned());
    }
    let inv = Invocation { program: npm_program.to_owned(), args };
    proof {
        if yes {
            assert(inv_args_views(inv) =~= seq!["init"@, "-y"@]);
        } else {
            assert(inv_args_views(inv) =~= seq!["init"@]);
        }
    }
    inv
}

/// The error a failed manifest creation reports: both captured streams are
/// carried, since the package manager writes its reasons to either.
pub fn npm_init_failure(npm_program: &str, stderr: &String, stdout: &String) -> (r: CliError)
    ensures
        r matches CliError::ExecutionError { command, message } && command@ == npm_program@
            + " init"@ && message@ == "stderr: "@ + stderr@ + "\nstdout: "@ + stdout@,
{
    let mut cmd = npm_program.to_owned();
    cmd.append(" init");
    let mut msg = String::new();
    msg.append("stderr: ");
    msg.append(stderr.as_str());
    msg.append("\nstdout: ");
    msg.append(stdout.as_str());
    proof {
        assert(cmd@ =~= npm_program@ + " init"@);
        assert(msg@ =~= "stderr: "@ + stderr@ + "\nstdout: "@ + stdout@);
    }
    CliError::ExecutionError { command: cmd, message: msg }
}

/// Add the tool's own script entries to a fresh script manifest: `dev`,
/// `build` and `test` all route back through the tool.  Every other script
/// entry and every other section is preserved; a manifest whose scripts
/// section is not a table is left untouched.
pub fn add_cpm_scripts(doc: &mut ManifestDoc)
    requires
        doc_wf(*old(doc)),
    ensures
        doc_wf(*final(doc)),
        section_settable(*old(doc), "scripts"@) ==> {
            &&& (spec_get_in(*final(doc), "scripts"@, "dev"@) matches Some(FieldValue::Text(s))
                && s@ == "cpm dev"@)
            &&& (spec_get_in(*final(doc), "scripts"@, "build"@) matches Some(FieldValue::Text(s))
                && s@ == "cpm build"@)
            &&& (spec_get_in(*final(doc), "scripts"@, "test"@) matches Some(FieldValue::Text(s))
                && s@ == "cpm test"@)
            &&& forall|k2: Seq<char>|
                k2 != "dev"@ && k2 != "build"@ && k2 != "test"@ ==> spec_get_in(
                    *final(doc),
                    "scripts"@,
                    k2,
                ) == spec_get_in(*old(doc), "scripts"@, k2)
            &&& forall|s2: Seq<char>|
                s2 != "scripts"@ ==> spec_lookup(final(doc).entries@, s2) == spec_lookup(
                    old(doc).entries@,
                    s2,
                )
        },
        !section_settable(*old(doc), "scripts"@) ==> final(doc).entries@ == old(doc).entries@,
{
    proof {
        reveal_strlit("dev");
        reveal_strlit("build");
        reveal_strlit("test");
        assert("dev"@.len() == 3);
        assert("build"@.len() == 5);
        assert("test"@.len() == 4);
        assert("dev"@ != "build"@ && "dev"@ != "test"@ && "build"@ != "test"@);
    }
    crate::manifest::set_in(doc, "scripts", "dev", FieldValue::Text("cpm dev".to_owned()));
    let ghost d1 = *doc;
    crate::manifest::set_in(doc, "scripts", "build", FieldValue::Text("cpm build".to_owned()));
    let ghost d2 = *doc;
    crate::manifest::set_in(doc, "scripts", "test", FieldValue::Text("cpm test".to_owned()));
    proof {
        if section_settable(*old(doc), "scripts"@) {
            assert(section_settable(d1, "scripts"@));
            assert(section_settable(d2, "scripts"@));
            assert(spec_get_in(*final(doc), "scripts"@, "dev"@) == spec_get_in(
                d1,
                "scripts"@,
                "dev"@,
            ));
            assert(spec_get_in(*final(doc), "scripts"@, "build"@) == spec_get_in(
                d2,
                "scripts"@,
                "build"@,
            ));
            assert forall|k2: Seq<char>|
                k2 != "dev"@ && k2 != "build"@ && k2 != "test"@ implies spec_get_in(
                *final(doc),
                "scripts"@,
                k2,
            ) == spec_get_in(*old(doc), "scripts"@, k2) by {
                assert(spec_get_in(*final(doc), "scripts"@, k2) == spec_get_in(
                    d2,
                    "scripts"@,
                    k2,
                ));
                assert(spec_get_in(d2, "scripts"@, k2) == spec_get_in(d1, "scripts"@, k2));
                assert(spec_get_in(d1, "scripts"@, k2) == spec_get_in(
                    *old(doc),
                    "scripts"@,
                    k2,
                ));
            }
        } else {
            assert(final(doc).entries@ == old(doc).entries@);
        }
    }
}

/// The generated entry script's text.
pub open spec fn spec_entry_script_source() -> Seq<char> {
    r#"// CPM JavaScript Project
console.log('Hello from CPM! 🦀');

// Example function
function greet(name) {
    console.log(`Hello, ${name}! Welcome to CPM.`);
}

// Call the function
greet('World');
"#@
}

/// The entry script written into a fresh project.
pub fn entry_script_source() -> (r: &'static str)
    ensures
        r@ == spec_entry_script_source(),
{
    r#"// CPM JavaScript Project
console.log('Hello from CPM! 🦀');

// Example function
function greet(name) {
    console.log(`Hello, ${name}! Welcome to CPM.`);
}

// Call the function
greet('World');
"#
}

/// Everything in the generated README after the project name.
pub open spec fn spec_readme_tail() -> Seq<char> {
    r#" - CPM JavaScript Project

This is a JavaScript project managed by CPM (Crab Package Manager).

## Getting Started

1. **Install dependencies:**
   ```bash
   cpm install
   ```

2. **Start development server:**
   ```bash
   cpm dev
   ```

3. **Build the project:**
   ```bash
   cpm build
   ```

## Adding Rust (Optional)

To add Rust to this project later:
```bash
cpm add-rust
```

## Available Commands

- `cpm install` - Install dependencies
- `cpm add <package>` - Add a package
- `cpm remove <package>` - Remove a package
- `cpm build` - Build the project
- `cpm dev` - Start development server
- `cpm test` - Run tests
- `cpm add-rust` - Add Rust to the project
- `cpm rust-status` - Check Rust status
"#@
}

/// The README written into a fresh project: a heading with the project name,
/// then the fixed usage text.
pub fn readme_source(name: &String) -> (r: String)
    ensures
        r@ == "# "@ + name@ + spec_readme_tail(),
{
    let mut s = String::new();
    s.append("# ");
    s.append(name.as_str());
    s.append(
        r#" - CPM JavaScript Project

This is a JavaScript project managed by CPM (Crab Package Manager).

## Getting Started

1. **Install dependencies:**
   ```bash
   cpm install
   ```

2. **Start development server:**
   ```bash
   cpm dev
   ```

3. **Build the project:**
   ```bash
   cpm build
   ```

## Adding Rust (Optional)

To add Rust to this project later:
```bash
cpm add-rust
```

## Available Commands

- `cpm install` - Install dependencies
- `cpm add <package>` - Add a package
- `cpm remove <package>` - Remove a package
- `cpm build` - Build the project
- `cpm dev` - Start development server
- `cpm test` - Run tests
- `cpm add-rust` - Add Rust to the project
- `cpm rust-status` - Check Rust status
"#,
    );
    proof {
        assert(s@ =~= "# "@ + name@ + spec_readme_tail());
    }
    s
}

} // verus!
