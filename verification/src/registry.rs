//! The command registry: the fixed set of command definitions published to
//! the chat platform at startup. Republishing relies on the platform's
//! replace-by-name semantics, so the names are proved pairwise distinct:
//! repeated registration cannot duplicate a command.
use vstd::prelude::*;

verus! {

/// How a command is invoked.
#[derive(Clone, Copy, PartialEq, Eq, Structural, Debug)]
pub enum CommandKind {
    /// Invoked as a slash command.
    Slash,
    /// Invoked by a message prefix.
    Prefix,
}

/// One command definition: its unique name, how it is invoked, whether it
/// is restricted to owners, and whether its reply is private to the caller.
pub struct CommandDef {
    pub name: String,
    pub kind: CommandKind,
    pub owner_only: bool,
    pub ephemeral: bool,
}

/// The names of the registry, in registration order.
pub open spec fn registry_names_spec() -> Seq<Seq<char>> {
    seq!["hello"@, "register"@, "ping"@, "install"@]
}

/// What it means for a sequence of definitions to be the bot's registry:
/// the four commands, under their names, with `register` prefix-invoked and
/// owner-only, `ping` replying privately, and the rest plain slash commands.
pub open spec fn registry_wf(cmds: Seq<CommandDef>) -> bool {
    &&& cmds.len() == 4
    &&& forall|i: int| 0 <= i < 4 ==> (#[trigger] cmds[i]).name@ == registry_names_spec()[i]
    &&& forall|i: int|
        0 <= i < 4 ==> (#[trigger] cmds[i]).kind == (if i == 1 {
            CommandKind::Prefix
        } else {
            CommandKind::Slash
        })
    &&& forall|i: int| 0 <= i < 4 ==> ((#[trigger] cmds[i]).owner_only <==> i == 1)
    &&& forall|i: int| 0 <= i < 4 ==> ((#[trigger] cmds[i]).ephemeral <==> i == 2)
}

/// Builds the registry. It is fixed at startup and never changes.
pub fn command_registry() -> (r: Vec<CommandDef>)
    ensures
        registry_wf(r@),
{
    let mut v: Vec<CommandDef> = Vec::new();
    v.push(
        CommandDef {
            name: "hello".to_owned(),
            kind: CommandKind::Slash,
            owner_only: false,
            ephemeral: false,
        },
    );
    v.push(
        CommandDef {
            name: "register".to_owned(),
            kind: CommandKind::Prefix,
            owner_only: true,
            ephemeral: false,
        },
    );
    v.push(
        CommandDef {
            name: "ping".to_owned(),
            kind: CommandKind::Slash,
            owner_only: false,
            ephemeral: true,
        },
    );
    v.push(
        CommandDef {
            name: "install".to_owned(),
            kind: CommandKind::Slash,
            owner_only: false,
            ephemeral: false,
        },
    );
    assert forall|i: int| 0 <= i < 4 implies (#[trigger] v@[i]).name@
        == registry_names_spec()[i] by {}
    v
}

/// The registry's names are pairwise distinct, so publishing it again
/// replaces each command by name and duplicates none.
pub proof fn lemma_registry_names_unique()
    ensures
        forall|i: int, j: int|
            0 <= i < registry_names_spec().len() && 0 <= j < registry_names_spec().len() && i != j
                ==> registry_names_spec()[i] != registry_names_spec()[j],
{
    reveal_strlit("hello");
    reveal_strlit("register");
    reveal_strlit("ping");
    reveal_strlit("install");
    assert("hello"@.len() == 5);
    assert("register"@.len() == 8);
    assert("ping"@.len() == 4);
    assert("install"@.len() == 7);
}

} // verus!
