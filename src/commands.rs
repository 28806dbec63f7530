//! The command registry: named, statically known handlers and their dispatch.

use vstd::prelude::*;

verus! {

/// The greeting that the `greet` command returns for `name`.
pub open spec fn greeting(name: Seq<char>) -> Seq<char> {
    "Hello, "@ + name + "! You've been greeted from Rust!"@
}

/// Returns `"Hello, {name}! You've been greeted from Rust!"`.
pub fn greet(name: &str) -> (r: String)
    ensures
        r@ == greeting(name@),
{
    let mut s = String::from_str("Hello, ");
    s.append(name);
    s.append("! You've been greeted from Rust!");
    s
}


/// A handler that a command name can be bound to; each variant fixes the
/// shape of its arguments and of its result.
#[derive(Clone, Copy, Debug, PartialEq, Eq, Structural)]
pub enum Command {
    /// Takes a string field `name` and returns the greeting for it.
    Greet,
}

/// Why a dispatched request produced no result.
#[derive(Clone, Copy, Debug, PartialEq, Eq, Structural)]
pub enum DispatchError {
    /// No handler is registered under the requested name.
    UnknownCommand,
    /// The arguments do not have the shape that the handler expects.
    ArgumentShapeMismatch,
}

/// Registering a name that is already bound.
#[derive(Clone, Copy, Debug, PartialEq, Eq, Structural)]
pub struct DuplicateCommand;

/// The first entry of `entries` whose key is `key`, if any.
pub open spec fn lookup<V>(entries: Seq<(String, V)>, key: Seq<char>) -> Option<V>
    decreases entries.len(),
{
    if entries.len() == 0 {
        None
    } else if entries[0].0@ == key {
        Some(entries[0].1)
    } else {
        lookup(entries.drop_first(), key)
    }
}

/// `key` is bound in `entries`.
pub open spec fn has_key<V>(entries: Seq<(String, V)>, key: Seq<char>) -> bool {
    exists|i: int| 0 <= i < entries.len() && #[trigger] entries[i].0@ == key
}

/// No two entries share a key.
pub open spec fn keys_unique<V>(entries: Seq<(String, V)>) -> bool {
    forall|i: int, j: int|
        0 <= i < entries.len() && 0 <= j < entries.len() && i != j ==> entries[i].0@
            != entries[j].0@
}

/// What invoking `handler` on `args` gives.
pub open spec fn run_spec(handler: Command, args: Seq<(String, String)>) -> Result<
    Seq<char>,
    DispatchError,
> {
    match handler {
        Command::Greet => match lookup(args, "name"@) {
            Some(v) => Ok(greeting(v@)),
            None => Err(DispatchError::ArgumentShapeMismatch),
        },
    }
}

/// What dispatching `name` with `args` against the bindings `entries` gives.
pub open spec fn dispatch_spec(
    entries: Seq<(String, Command)>,
    name: Seq<char>,
    args: Seq<(String, String)>,
) -> Result<Seq<char>, DispatchError> {
    match lookup(entries, name) {
        Some(h) => run_spec(h, args),
        None => Err(DispatchError::UnknownCommand),
    }
}

proof fn lemma_lookup_suffix<V>(entries: Seq<(String, V)>, i: int, key: Seq<char>)
    requires
        0 <= i < entries.len(),
        entries[i].0@ != key,
    ensures
        lookup(entries.subrange(i, entries.len() as int), key) == lookup(
            entries.subrange(i + 1, entries.len() as int),
            key,
        ),
{
    assert(entries.subrange(i, entries.len() as int).drop_first() =~= entries.subrange(
        i + 1,
        entries.len() as int,
    ));
}

proof fn lemma_lookup_some_has_key<V>(entries: Seq<(String, V)>, key: Seq<char>)
    ensures
        lookup(entries, key) is Some <==> has_key(entries, key),
    decreases entries.len(),
{
    if entries.len() > 0 {
        lemma_lookup_some_has_key(entries.drop_first(), key);
        if has_key(entries, key) && entries[0].0@ != key {
            let i = choose|i: int| 0 <= i < entries.len() && #[trigger] entries[i].0@ == key;
            assert(entries.drop_first()[i - 1].0@ == key);
        }
        if has_key(entries.drop_first(), key) {
            let i = choose|i: int|
                0 <= i < entries.drop_first().len() && #[trigger] entries.drop_first()[i].0@
                    == key;
            assert(entries[i + 1].0@ == key);
        }
    }
}

/// Finds the position of the first entry whose key is `key`.
fn find_entry<V>(entries: &Vec<(String, V)>, key: &String) -> (r: Option<usize>)
    ensures
        match r {
            Some(i) => i < entries@.len() && lookup(entries@, key@) == Some(entries@[i as int].1),
            None => lookup(entries@, key@) is None,
        },
{
    let mut i: usize = 0;
    assert(entries@.subrange(0, entries@.len() as int) =~= entries@);
    while i < entries.len()
        invariant
            i <= entries@.len(),
            lookup(entries@, key@) == lookup(entries@.subrange(i as int, entries@.len() as int), key@),
        decreases entries@.len() - i,
    {
        if entries[i].0 == *key {
            return Some(i);
        }
        proof {
            lemma_lookup_suffix(entries@, i as int, key@);
        }
        i = i + 1;
    }
    None
}

/// Invokes `handler` on `args`.
fn run_handler(handler: Command, args: &Vec<(String, String)>) -> (r: Result<String, DispatchError>)
    ensures
        match r {
            Ok(s) => run_spec(handler, args@) == Ok::<Seq<char>, DispatchError>(s@),
            Err(e) => run_spec(handler, args@) == Err::<Seq<char>, DispatchError>(e),
        },
{
    match handler {
        Command::Greet => {
            let key = String::from_str("name");
            match find_entry(args, &key) {
                Some(i) => Ok(greet(args[i].1.as_str())),
                None => Err(DispatchError::ArgumentShapeMismatch),
            }
        },
    }
}

/// The table from command names to handlers, fixed once the host starts.
pub struct CommandRegistry {
    entries: Vec<(String, Command)>,
}

impl View for CommandRegistry {
    type V = Seq<(String, Command)>;

    closed spec fn view(&self) -> Seq<(String, Command)> {
        self.entries@
    }
}

impl CommandRegistry {
    /// Every name is bound at most once.
    pub open spec fn wf(&self) -> bool {
        keys_unique(self@)
    }

    /// A registry with no command.
    pub fn new() -> (r: Self)
        ensures
            r@ == Seq::<(String, Command)>::empty(),
            r.wf(),
    {
        CommandRegistry { entries: Vec::new() }
    }

    /// The number of registered commands.
    pub fn len(&self) -> (r: usize)
        ensures
            r == self@.len(),
    {
        self.entries.len()
    }

    /// Whether a handler is registered under `name`.
    pub fn contains(&self, name: &str) -> (r: bool)
        ensures
            r == has_key(self@, name@),
    {
        let key = name.to_owned();
        let found = find_entry(&self.entries, &key);
        proof {
            lemma_lookup_some_has_key(self@, name@);
        }
        found.is_some()
    }

    /// Binds `handler` to `name`; refused, with the registry unchanged, when
    /// `name` is already bound.
    pub fn register(&mut self, name: String, handler: Command) -> (r: Result<(), DuplicateCommand>)
        requires
            old(self).wf(),
        ensures
            final(self).wf(),
            r is Err <==> has_key(old(self)@, name@),
            r is Err ==> final(self)@ == old(self)@,
            r is Ok ==> final(self)@ == old(self)@.push((name, handler)),
    {
        let found = find_entry(&self.entries, &name);
        proof {
            lemma_lookup_some_has_key(self@, name@);
        }
        if found.is_some() {
            return Err(DuplicateCommand);
        }
        self.entries.push((name, handler));
        Ok(())
    }

    /// Looks `name` up and invokes its handler on `args`: `UnknownCommand`
    /// when nothing is bound to `name`, `ArgumentShapeMismatch` when `args`
    /// lack what the handler reads.
    pub fn dispatch(&self, name: &str, args: &Vec<(String, String)>) -> (r: Result<
        String,
        DispatchError,
    >)
        ensures
            match r {
                Ok(s) => dispatch_spec(self@, name@, args@) == Ok::<Seq<char>, DispatchError>(s@),
                Err(e) => dispatch_spec(self@, name@, args@) == Err::<Seq<char>, DispatchError>(e),
            },
    {
        let key = name.to_owned();
        match find_entry(&self.entries, &key) {
            Some(i) => run_handler(self.entries[i].1, args),
            None => Err(DispatchError::UnknownCommand),
        }
    }
}

/// Dispatching `greet` with a single `name` field returns the greeting for
/// that name, whatever the name, wherever `greet` is bound to the greeting
/// handler.
pub proof fn lemma_greet_dispatch(entries: Seq<(String, Command)>, args: Seq<(String, String)>)
    requires
        lookup(entries, "greet"@) == Some(Command::Greet),
        args.len() == 1,
        args[0].0@ == "name"@,
    ensures
        dispatch_spec(entries, "greet"@, args) == Ok::<Seq<char>, DispatchError>(
            greeting(args[0].1@),
        ),
{
}

/// Dispatching a name that nothing is bound to yields `UnknownCommand`,
/// whatever the arguments.
pub proof fn lemma_unbound_name_is_unknown(
    entries: Seq<(String, Command)>,
    name: Seq<char>,
    args: Seq<(String, String)>,
)
    requires
        !has_key(entries, name),
    ensures
        dispatch_spec(entries, name, args) == Err::<Seq<char>, DispatchError>(
            DispatchError::UnknownCommand,
        ),
{
    lemma_lookup_some_has_key(entries, name);
}

} // verus!
