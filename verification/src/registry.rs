//! The table of commands that the front-end may invoke.

use crate::error::BridgeError;
use crate::error::RegistryError;
use crate::text::same_text;
use vstd::prelude::*;

verus! {

/// The backend operations that a command name can stand for.
#[derive(Clone, Copy, Debug, PartialEq, Eq, Structural)]
pub enum Handler {
    /// Writes a message from the front-end to the diagnostic output.
    LogMessage,
    /// Ends the application.
    QuitApp,
}

struct Entry {
    name: String,
    handler: Handler,
}

/// A mapping from command names to handlers.
///
/// It is filled while the application starts and handed to the bridge, which
/// only reads it. No name occurs twice.
pub struct Registry {
    entries: Vec<Entry>,
}

/// The commands of the application: `log_message` and `quit_app`, each with
/// the handler of the same name.
pub open spec fn standard_commands() -> Map<Seq<char>, Handler> {
    Map::<Seq<char>, Handler>::empty().insert("log_message"@, Handler::LogMessage).insert(
        "quit_app"@,
        Handler::QuitApp,
    )
}

/// The two command names differ, so the standard table holds both commands,
/// each under its own name, and nothing else.
pub proof fn lemma_standard_commands()
    ensures
        "log_message"@ != "quit_app"@,
        standard_commands().dom() =~= set!["log_message"@, "quit_app"@],
        standard_commands()["log_message"@] == Handler::LogMessage,
        standard_commands()["quit_app"@] == Handler::QuitApp,
{
    reveal_strlit("log_message");
    reveal_strlit("quit_app");
    assert("log_message"@.len() != "quit_app"@.len());
}

impl View for Registry {
    type V = Map<Seq<char>, Handler>;

    closed spec fn view(&self) -> Map<Seq<char>, Handler> {
        Map::new(
            |name: Seq<char>| self.position(name) is Some,
            |name: Seq<char>| self.entries@[self.position(name)->0].handler,
        )
    }
}

impl Registry {
    #[verifier::type_invariant]
    spec fn names_are_unique(&self) -> bool {
        forall|i: int, j: int|
            0 <= i < j < self.entries@.len() ==> self.entries@[i].name@ != self.entries@[j].name@
    }

    spec fn position(&self, name: Seq<char>) -> Option<int> {
        if exists|i: int| 0 <= i < self.entries@.len() && self.entries@[i].name@ == name {
            Some(choose|i: int| 0 <= i < self.entries@.len() && self.entries@[i].name@ == name)
        } else {
            None
        }
    }

    /// A registry without commands.
    pub fn new() -> (registry: Registry)
        ensures
            registry@ == Map::<Seq<char>, Handler>::empty(),
    {
        let registry = Registry { entries: Vec::new() };
        assert(registry@ =~= Map::<Seq<char>, Handler>::empty());
        registry
    }

    /// The registry of the application, as it is composed at startup.
    pub fn standard() -> (registry: Registry)
        ensures
            registry@ == standard_commands(),
    {
        let mut registry = Registry::new();
        proof {
            lemma_standard_commands();
        }
        let _ = registry.register("log_message", Handler::LogMessage);
        let _ = registry.register("quit_app", Handler::QuitApp);
        registry
    }

    /// Looks a command name up.
    ///
    /// A registered name gives its handler; any other name is an
    /// [`BridgeError::UnknownCommand`]. Nothing else makes a handler reachable.
    pub fn resolve(&self, name: &str) -> (found: Result<Handler, BridgeError>)
        ensures
            self@.dom().contains(name@) ==> found == Ok::<Handler, BridgeError>(self@[name@]),
            !self@.dom().contains(name@) ==> found == Err::<Handler, BridgeError>(
                BridgeError::UnknownCommand,
            ),
    {
        proof {
            use_type_invariant(self);
        }
        let mut i: usize = 0;
        while i < self.entries.len()
            invariant
                i <= self.entries@.len(),
                self.names_are_unique(),
                forall|k: int| 0 <= k < i ==> self.entries@[k].name@ != name@,
            decreases self.entries@.len() - i,
        {
            if same_text(self.entries[i].name.as_str(), name) {
                assert(self.position(name@) == Some(i as int));
                return Ok(self.entries[i].handler);
            }
            i += 1;
        }
        Err(BridgeError::UnknownCommand)
    }

    /// Whether a command name is registered.
    pub fn contains(&self, name: &str) -> (present: bool)
        ensures
            present == self@.dom().contains(name@),
    {
        self.resolve(name).is_ok()
    }

    /// Adds a command.
    ///
    /// A name that is already registered is refused, and the registry stays
    /// as it was.
    pub fn register(&mut self, name: &str, handler: Handler) -> (done: Result<(), RegistryError>)
        ensures
            old(self)@.dom().contains(name@) ==> done == Err::<(), RegistryError>(
                RegistryError::DuplicateName,
            ) && final(self)@ == old(self)@,
            !old(self)@.dom().contains(name@) ==> done == Ok::<(), RegistryError>(())
                && final(self)@ == old(self)@.insert(name@, handler),
    {
        if self.contains(name) {
            return Err(RegistryError::DuplicateName);
        }
        proof {
            use_type_invariant(&*self);
        }
        let mut entries: Vec<Entry> = Vec::new();
        std::mem::swap(&mut self.entries, &mut entries);
        entries.push(Entry { name: name.to_owned(), handler });
        std::mem::swap(&mut self.entries, &mut entries);
        proof {
            let before = *old(self);
            let after = *self;
            let last = before.entries@.len() as int;
            assert(after.entries@ == before.entries@.push(after.entries@[last]));
            assert(after.entries@[last].name@ == name@);
            assert forall|n: Seq<char>| after@.dom().contains(n) <==> before@.insert(
                name@,
                handler,
            ).dom().contains(n) by {
                if before.position(n) is Some {
                    let i = before.position(n)->0;
                    assert(after.entries@[i].name@ == n);
                }
                if n == name@ {
                    assert(after.entries@[last].name@ == n);
                }
            }
            assert forall|n: Seq<char>| after@.dom().contains(n) implies after@[n]
                == before@.insert(name@, handler)[n] by {
                let i = after.position(n)->0;
                if i == last {
                } else {
                    assert(before.entries@[i].name@ == n);
                    let j = before.position(n)->0;
                    assert(after.entries@[j].name@ == n);
                }
            }
            assert(after@ =~= before@.insert(name@, handler));
        }
        Ok(())
    }
}

} // verus!
