//! Registered command trees and the name lookup that resolves a spelling,
//! directly or through one alias hop, to the tree that owns it. The grammar
//! walk itself is a separate concern and not modelled here.

use vstd::prelude::*;
use vstd::string::StringExecFns;
use crate::text::str_eq;

verus! {

/// A user-visible or internal problem while resolving a command.
#[derive(Debug)]
pub enum CommandError {
    /// A previously consumed argument failed to parse: an internal defect.
    InvalidConsumption(Option<String>),
    /// A gate's requirement was expected to hold and did not.
    InvalidRequirement,
    /// An ordinary, user-visible problem with the command.
    GeneralCommandIssue(String),
}

/// A registered command: its spellings, the first of which is primary.
#[derive(Debug)]
pub struct CommandTree {
    pub names: Vec<String>,
    pub description: String,
}

/// A dispatcher entry: a tree under its primary spelling, or an alias that
/// points at a primary spelling.
#[derive(Debug)]
pub enum Command {
    Tree(CommandTree),
    Alias(String),
}

/// Stores registered command trees and resolves spellings to them.
#[derive(Debug)]
pub struct CommandDispatcher {
    pub commands: Vec<(String, Command)>,
}

/// The entry a spelling resolves to: the last one registered under it.
pub open spec fn spec_find(cmds: Seq<(String, Command)>, key: Seq<char>) -> Option<Command>
    decreases cmds.len(),
{
    if cmds.len() == 0 {
        None
    } else if cmds.last().0@ == key {
        Some(cmds.last().1)
    } else {
        spec_find(cmds.drop_last(), key)
    }
}

/// Appending an entry decides lookups of its spelling and defers the rest.
pub proof fn lemma_spec_find_push(cmds: Seq<(String, Command)>, e: (String, Command), k: Seq<char>)
    ensures
        spec_find(cmds.push(e), k) == (if e.0@ == k {
            Some(e.1)
        } else {
            spec_find(cmds, k)
        }),
{
    assert(cmds.push(e).drop_last() =~= cmds);
}

impl CommandDispatcher {
    /// A dispatcher with nothing registered.
    pub fn new() -> (d: CommandDispatcher)
        ensures
            d.commands@.len() == 0,
    {
        CommandDispatcher { commands: Vec::new() }
    }

    /// Looks a spelling up among the registered entries.
    #[verifier::loop_isolation(false)]
    pub fn find(&self, key: &str) -> (r: Option<&Command>)
        ensures
            r matches Some(c) ==> spec_find(self.commands@, key@) == Some(*c),
            r is None ==> spec_find(self.commands@, key@) is None,
    {
        let n = self.commands.len();
        let mut i: usize = n;
        proof {
            assert(self.commands@.subrange(0, n as int) =~= self.commands@);
        }
        while i > 0
            invariant
                i <= n,
                spec_find(self.commands@, key@) == spec_find(
                    self.commands@.subrange(0, i as int),
                    key@,
                ),
            decreases i,
        {
            if str_eq(self.commands[i - 1].0.as_str(), key) {
                proof {
                    assert(self.commands@.subrange(0, i as int).last() == self.commands@[i - 1]);
                }
                return Some(&self.commands[i - 1].1);
            }
            proof {
                assert(self.commands@.subrange(0, i as int).drop_last() =~= self.commands@.subrange(
                    0,
                    i - 1,
                ));
            }
            i -= 1;
        }
        proof {
            assert(self.commands@.subrange(0, 0) =~= Seq::<(String, Command)>::empty());
        }
        None
    }

    /// Registers a command tree: every secondary spelling becomes an alias of
    /// the primary one, and the tree itself is stored last, under the primary
    /// spelling, so that it wins over any alias it shadows.
    #[verifier::loop_isolation(false)]
    pub fn register(&mut self, tree: CommandTree)
        requires
            tree.names@.len() > 0,
        ensures
            spec_find(final(self).commands@, tree.names@[0]@) == Some(Command::Tree(tree)),
            forall|j: int|
                1 <= j < tree.names@.len() && (#[trigger] tree.names@[j]@) != tree.names@[0]@
                    ==> (spec_find(final(self).commands@, tree.names@[j]@) matches Some(c)
                    && c matches Command::Alias(t) && t@ == tree.names@[0]@),
            forall|k: Seq<char>|
                k != tree.names@[0]@ && (forall|j: int|
                    1 <= j < tree.names@.len() ==> (#[trigger] tree.names@[j]@) != k) ==> #[trigger]
                    spec_find(final(self).commands@, k) == spec_find(old(self).commands@, k),
    {
        let primary = tree.names[0].clone();
        let mut j: usize = 1;
        while j < tree.names.len()
            invariant
                1 <= j <= tree.names@.len(),
                primary@ == tree.names@[0]@,
                forall|k: Seq<char>|
                    #[trigger] spec_find(self.commands@, k) == (if (exists|m: int|
                        1 <= m < j && (#[trigger] tree.names@[m]@) == k) {
                        Some(Command::Alias(primary))
                    } else {
                        spec_find(old(self).commands@, k)
                    }),
            decreases tree.names@.len() - j,
        {
            let ghost prev = self.commands@;
            let entry = (tree.names[j].clone(), Command::Alias(primary.clone()));
            let ghost entry_snap = entry;
            self.commands.push(entry);
            proof {
                assert forall|k: Seq<char>|
                    #[trigger] spec_find(self.commands@, k) == (if (exists|m: int|
                        1 <= m < j + 1 && (#[trigger] tree.names@[m]@) == k) {
                        Some(Command::Alias(primary))
                    } else {
                        spec_find(old(self).commands@, k)
                    }) by {
                    lemma_spec_find_push(prev, entry_snap, k);
                    if entry_snap.0@ == k {
                        assert(tree.names@[j as int]@ == k);
                    }
                }
            }
            j += 1;
        }
        let ghost prev = self.commands@;
        let entry = (primary, Command::Tree(tree));
        let ghost entry_snap = entry;
        self.commands.push(entry);
        proof {
            assert forall|k: Seq<char>| true implies #[trigger] spec_find(self.commands@, k) == (
            if entry_snap.0@ == k {
                Some(entry_snap.1)
            } else {
                spec_find(prev, k)
            }) by {
                lemma_spec_find_push(prev, entry_snap, k);
            }
        }
    }

    /// Resolves a spelling to its command tree: directly, or through one alias
    /// hop. An unknown spelling is an ordinary issue; an alias that does not
    /// point at a tree is an internal error.
    pub fn get_tree(&self, key: &str) -> (r: Result<&CommandTree, CommandError>)
        ensures
            spec_find(self.commands@, key@) is None ==> (r matches Err(e) && e matches
                CommandError::GeneralCommandIssue(m) && m@ == "Command not found"@),
            spec_find(self.commands@, key@) matches Some(c) ==> (c matches Command::Tree(t) ==> (
            r matches Ok(rt) && *rt == t)),
            spec_find(self.commands@, key@) matches Some(c) ==> (c matches Command::Alias(target)
                ==> (match spec_find(self.commands@, target@) {
                Some(Command::Tree(t)) => r matches Ok(rt) && *rt == t,
                _ => r matches Err(e) && e matches CommandError::GeneralCommandIssue(m) && m@
                    == "Internal Error (See logs for details)"@,
            })),
    {
        match self.find(key) {
            None => Err(
                CommandError::GeneralCommandIssue(String::from_str("Command not found")),
            ),
            Some(cmd) => match cmd {
                Command::Tree(t) => Ok(t),
                Command::Alias(target) => match self.find(target.as_str()) {
                    Some(aliased) => match aliased {
                        Command::Tree(t) => Ok(t),
                        Command::Alias(_) => Err(
                            CommandError::GeneralCommandIssue(
                                String::from_str("Internal Error (See logs for details)"),
                            ),
                        ),
                    },
                    None => Err(
                        CommandError::GeneralCommandIssue(
                            String::from_str("Internal Error (See logs for details)"),
                        ),
                    ),
                },
            },
        }
    }
}

} // verus!
