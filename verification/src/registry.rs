//! Command registry and dispatcher.
//!
//! The registry is an ordered collection of command implementations, one per
//! subcommand name; insertion order is the help-listing order and names are
//! unique (a duplicate registration is a configuration bug, ruled out when
//! the registry is built).  Dispatch selects exactly one handler by exact
//! name match; no subcommand at all is a help request, not an error.

use vstd::prelude::*;

use crate::keyed::str_eq;

verus! {

/// The fixed set of command implementations, one per subcommand.
#[derive(Clone, Copy, PartialEq, Eq, Structural, Debug)]
pub enum CommandKind {
    Init,
    AddRust,
    RemoveRust,
    RustStatus,
    Npx,
    Add,
    Remove,
    Lock,
    Workspace,
    Publish,
    Install,
    Build,
    Dev,
    Test,
    Run,
}

/// The subcommand name each command is registered under.
pub open spec fn spec_command_name(kind: CommandKind) -> Seq<char> {
    match kind {
        CommandKind::Init => "init"@,
        CommandKind::AddRust => "add-rust"@,
        CommandKind::RemoveRust => "remove-rust"@,
        CommandKind::RustStatus => "rust-status"@,
        CommandKind::Npx => "npx"@,
        CommandKind::Add => "add"@,
        CommandKind::Remove => "remove"@,
        CommandKind::Lock => "lock"@,
        CommandKind::Workspace => "workspace"@,
        CommandKind::Publish => "publish"@,
        CommandKind::Install => "install"@,
        CommandKind::Build => "build"@,
        CommandKind::Dev => "dev"@,
        CommandKind::Test => "test"@,
        CommandKind::Run => "run"@,
    }
}

/// The subcommand name each command is registered under.
pub fn command_name(kind: CommandKind) -> (r: &'static str)
    ensures
        r@ == spec_command_name(kind),
{
    match kind {
        CommandKind::Init => "init",
        CommandKind::AddRust => "add-rust",
        CommandKind::RemoveRust => "remove-rust",
        CommandKind::RustStatus => "rust-status",
        CommandKind::Npx => "npx",
        CommandKind::Add => "add",
        CommandKind::Remove => "remove",
        CommandKind::Lock => "lock",
        CommandKind::Workspace => "workspace",
        CommandKind::Publish => "publish",
        CommandKind::Install => "install",
        CommandKind::Build => "build",
        CommandKind::Dev => "dev",
        CommandKind::Test => "test",
        CommandKind::Run => "run",
    }
}

/// First-match lookup of a subcommand name among registered commands.
pub open spec fn spec_find_command(cmds: Seq<CommandKind>, name: Seq<char>) -> Option<CommandKind>
    decreases cmds.len(),
{
    if cmds.len() == 0 {
        None
    } else if spec_command_name(cmds[0]) == name {
        Some(cmds[0])
    } else {
        spec_find_command(cmds.drop_first(), name)
    }
}

/// Skipping commands whose names all miss leaves the search unchanged.
proof fn lemma_find_command_skip(cmds: Seq<CommandKind>, name: Seq<char>, k: int)
    requires
        0 <= k <= cmds.len(),
        forall|j: int| 0 <= j < k ==> spec_command_name(cmds[j]) != name,
    ensures
        spec_find_command(cmds, name) == spec_find_command(cmds.skip(k), name),
    decreases k,
{
    if k > 0 {
        lemma_find_command_skip(cmds.drop_first(), name, k - 1);
        assert(cmds.drop_first().skip(k - 1) =~= cmds.skip(k));
    } else {
        assert(cmds.skip(0) =~= cmds);
    }
}

/// The ordered, uniquely named command collection.
pub struct Registry {
    pub commands: Vec<CommandKind>,
}

/// No command is registered twice; names are therefore unique as well.
pub open spec fn registry_wf(r: Registry) -> bool {
    forall|i: int, j: int|
        0 <= i < j < r.commands@.len() ==> r.commands@[i] != r.commands@[j]
}

impl Registry {
    /// An empty registry.
    pub fn new() -> (r: Registry)
        ensures
            r.commands@.len() == 0,
            registry_wf(r),
    {
        Registry { commands: Vec::new() }
    }

    /// Register one command at the end of the help-listing order.
    /// Registering the same command twice is a configuration bug, ruled out
    /// here rather than reported at run time.
    pub fn register(&mut self, kind: CommandKind)
        requires
            registry_wf(*old(self)),
            forall|j: int| 0 <= j < old(self).commands@.len() ==> old(self).commands@[j] != kind,
        ensures
            registry_wf(*final(self)),
            final(self).commands@ == old(self).commands@.push(kind),
    {
        self.commands.push(kind);
    }

    /// Exact-name lookup; `None` when no command carries the name.
    pub fn lookup(&self, name: &str) -> (r: Option<CommandKind>)
        ensures
            r == spec_find_command(self.commands@, name@),
    {
        let n = self.commands.len();
        let mut i: usize = 0;
        while i < n
            invariant
                i <= n,
                n == self.commands@.len(),
                forall|j: int| 0 <= j < i ==> spec_command_name(self.commands@[j]) != name@,
            decreases n - i,
        {
            let kind = self.commands[i];
            if str_eq(command_name(kind), name) {
                proof {
                    lemma_find_command_skip(self.commands@, name@, i as int);
                    assert(self.commands@.skip(i as int)[0] == self.commands@[i as int]);
                }
                return Some(kind);
            }
            i += 1;
        }
        proof {
            lemma_find_command_skip(self.commands@, name@, n as int);
            assert(self.commands@.skip(n as int) =~= Seq::<CommandKind>::empty());
        }
        None
    }

    /// The registered names in help-listing order.
    pub fn names(&self) -> (r: Vec<&'static str>)
        ensures
            r@.len() == self.commands@.len(),
            forall|j: int|
                0 <= j < r@.len() ==> r@[j]@ == spec_command_name(self.commands@[j]),
    {
        let n = self.commands.len();
        let mut out: Vec<&'static str> = Vec::new();
        let mut i: usize = 0;
        while i < n
            invariant
                i <= n,
                n == self.commands@.len(),
                out@.len() == i,
                forall|j: int|
                    0 <= j < i ==> out@[j]@ == spec_command_name(self.commands@[j]),
            decreases n - i,
        {
            out.push(command_name(self.commands[i]));
            i += 1;
        }
        out
    }
}

/// The full command set in its help-listing order.
pub fn default_registry() -> (r: Registry)
    ensures
        registry_wf(r),
        r.commands@ =~= seq![
            CommandKind::Init,
            CommandKind::AddRust,
            CommandKind::RemoveRust,
            CommandKind::RustStatus,
            CommandKind::Npx,
            CommandKind::Add,
            CommandKind::Remove,
            CommandKind::Lock,
            CommandKind::Workspace,
            CommandKind::Publish,
            CommandKind::Install,
            CommandKind::Build,
            CommandKind::Dev,
            CommandKind::Test,
            CommandKind::Run,
        ],
{
    let mut r = Registry::new();
    r.register(CommandKind::Init);
    r.register(CommandKind::AddRust);
    r.register(CommandKind::RemoveRust);
    r.register(CommandKind::RustStatus);
    r.register(CommandKind::Npx);
    r.register(CommandKind::Add);
    r.register(CommandKind::Remove);
    r.register(CommandKind::Lock);
    r.register(CommandKind::Workspace);
    r.register(CommandKind::Publish);
    r.register(CommandKind::Install);
    r.register(CommandKind::Build);
    r.register(CommandKind::Dev);
    r.register(CommandKind::Test);
    r.register(CommandKind::Run);
    r
}

/// What one invocation of the tool resolves to before any handler runs.
#[derive(Clone, Copy, PartialEq, Eq, Structural, Debug)]
pub enum DispatchOutcome {
    /// No subcommand was given: print top-level help and exit 0.  A help
    /// request is not an error path.
    Help,
    /// Exactly this handler runs, once, with a fresh context.
    Run(CommandKind),
    /// The name matches no registered command; the argument-parsing layer
    /// surfaces this as its own parse error, not the engine.
    Unknown,
}

/// Select the handler for a parsed invocation: no subcommand is a help
/// request; a known name runs exactly that handler; an unknown name is left
/// to the argument parser's own error reporting.  Total: every invocation
/// maps to exactly one of the three outcomes.
pub fn dispatch(reg: &Registry, subcommand: Option<&str>) -> (r: DispatchOutcome)
    ensures
        subcommand is None ==> r == DispatchOutcome::Help,
        subcommand matches Some(n) ==> r == (match spec_find_command(reg.commands@, n@) {
            Some(k) => DispatchOutcome::Run(k),
            None => DispatchOutcome::Unknown,
        }),
{
    match subcommand {
        None => DispatchOutcome::Help,
        Some(name) => {
            match reg.lookup(name) {
                Some(kind) => DispatchOutcome::Run(kind),
                None => DispatchOutcome::Unknown,
            }
        },
    }
}

} // verus!
