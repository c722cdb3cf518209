//! The table from command names to handlers, and the routing of requests.
//!
//! The dispatcher performs no I/O. A command registered as `Sync` is begun
//! in the caller's context; one registered as `Async` is not begun at all:
//! the caller gets a pending call to hand to a worker.

use vstd::prelude::*;
use vstd::string::*;
use crate::command::{Binding, CommandRequest, Handler, InvocationMode};
use crate::error::CommandError;
use crate::executor::{begins_as, Job};

verus! {

/// One line of the table.
#[derive(Debug)]
struct Registration {
    name: String,
    binding: Binding,
}

/// A handler invocation that has not begun: the worker that takes it begins
/// the job of `handler` on `arguments`.
#[derive(Debug)]
pub struct PendingCall<'a> {
    pub handler: &'a Handler,
    pub arguments: &'a Vec<String>,
}

/// What a dispatch hands back for a registered name.
#[derive(Debug)]
pub enum Dispatched<'a> {
    /// The handler was begun in the caller's context; this is its job.
    Inline(Job<'a>),
    /// Nothing was begun; the call waits for a worker.
    Pending(PendingCall<'a>),
}

/// The table from names to bindings.
#[derive(Debug)]
pub struct CommandDispatcher {
    entries: Vec<Registration>,
}

/// The map that a list of registrations stands for.
spec fn table_of(entries: Seq<Registration>) -> Map<Seq<char>, Binding>
    decreases entries.len(),
{
    if entries.len() == 0 {
        Map::empty()
    } else {
        table_of(entries.drop_last()).insert(entries.last().name@, entries.last().binding)
    }
}

/// No name stands in two registrations.
spec fn names_distinct(entries: Seq<Registration>) -> bool {
    forall|i: int, j: int|
        0 <= i < j < entries.len() ==> (#[trigger] entries[i]).name@ != (#[trigger] entries[j]).name@
}

proof fn lemma_table_domain(entries: Seq<Registration>, key: Seq<char>)
    ensures
        table_of(entries).contains_key(key) <==> exists|i: int|
            0 <= i < entries.len() && #[trigger] entries[i].name@ == key,
    decreases entries.len(),
{
    if entries.len() > 0 {
        let init = entries.drop_last();
        lemma_table_domain(init, key);
        if table_of(entries).contains_key(key) {
            if entries.last().name@ == key {
                assert(entries[entries.len() - 1].name@ == key);
            } else {
                let i = choose|i: int| 0 <= i < init.len() && #[trigger] init[i].name@ == key;
                assert(entries[i].name@ == key);
            }
        } else {
            assert forall|i: int| 0 <= i < entries.len() implies #[trigger] entries[i].name@
                != key by {
                if i < init.len() {
                    assert(init[i].name@ == entries[i].name@);
                }
            }
        }
    }
}

proof fn lemma_table_value(entries: Seq<Registration>, i: int)
    requires
        names_distinct(entries),
        0 <= i < entries.len(),
    ensures
        table_of(entries).contains_key(entries[i].name@),
        table_of(entries)[entries[i].name@] == entries[i].binding,
    decreases entries.len(),
{
    let init = entries.drop_last();
    if i < entries.len() - 1 {
        assert(names_distinct(init)) by {
            assert forall|a: int, b: int| 0 <= a < b < init.len() implies (#[trigger] init[a]).name@
                != (#[trigger] init[b]).name@ by {
                assert(entries[a].name@ != entries[b].name@);
            }
        }
        lemma_table_value(init, i);
        assert(entries[i].name@ != entries[entries.len() - 1].name@);
    }
}

impl View for CommandDispatcher {
    type V = Map<Seq<char>, Binding>;

    closed spec fn view(&self) -> Map<Seq<char>, Binding> {
        table_of(self.entries@)
    }
}

impl CommandDispatcher {
    /// Each name is bound once.
    pub closed spec fn wf(&self) -> bool {
        names_distinct(self.entries@)
    }

    /// A dispatcher with no command.
    pub fn new() -> (dispatcher: CommandDispatcher)
        ensures
            dispatcher.wf(),
            dispatcher@ == Map::<Seq<char>, Binding>::empty(),
    {
        CommandDispatcher { entries: Vec::new() }
    }

    fn find(&self, key: &String) -> (found: Option<usize>)
        requires
            self.wf(),
        ensures
            match found {
                Some(i) => i < self.entries@.len() && self.entries@[i as int].name@ == key@
                    && self@.contains_key(key@) && self@[key@] == self.entries@[i as int].binding,
                None => !self@.contains_key(key@),
            },
    {
        let mut i: usize = 0;
        while i < self.entries.len()
            invariant
                self.wf(),
                i <= self.entries@.len(),
                forall|j: int| 0 <= j < i ==> (#[trigger] self.entries@[j]).name@ != key@,
            decreases self.entries@.len() - i,
        {
            if self.entries[i].name == *key {
                proof {
                    lemma_table_value(self.entries@, i as int);
                }
                return Some(i);
            }
            i += 1;
        }
        proof {
            lemma_table_domain(self.entries@, key@);
        }
        None
    }

    /// Whether a handler is bound to `name`.
    pub fn is_registered(&self, name: &str) -> (bound: bool)
        requires
            self.wf(),
        ensures
            bound == self@.contains_key(name@),
    {
        let key = String::from_str(name);
        self.find(&key).is_some()
    }

    /// Binds `name` to `handler`, to be invoked in `mode`.
    ///
    /// Fails with `DuplicateCommand`, and changes nothing, where the name is
    /// bound already.
    pub fn register(&mut self, name: &str, handler: Handler, mode: InvocationMode) -> (bound:
        Result<(), CommandError>)
        requires
            old(self).wf(),
        ensures
            final(self).wf(),
            old(self)@.contains_key(name@) ==> bound == Err::<(), CommandError>(
                CommandError::DuplicateCommand,
            ) && final(self)@ == old(self)@,
            !old(self)@.contains_key(name@) ==> bound == Ok::<(), CommandError>(())
                && final(self)@ == old(self)@.insert(name@, Binding { handler, mode }),
    {
        let key = String::from_str(name);
        if self.find(&key).is_some() {
            return Err(CommandError::DuplicateCommand);
        }
        let ghost before = self.entries@;
        let registration = Registration { name: key, binding: Binding { handler, mode } };
        self.entries.push(registration);
        proof {
            let after = self.entries@;
            assert(after.drop_last() =~= before);
            lemma_table_domain(before, name@);
            assert forall|i: int, j: int| 0 <= i < j < after.len() implies (#[trigger] after[i]).name@
                != (#[trigger] after[j]).name@ by {
                if j < before.len() {
                    assert(before[i].name@ != before[j].name@);
                } else {
                    assert(before[i].name@ != name@);
                }
            }
        }
        Ok(())
    }

    /// Routes a request to the handler bound to `name`.
    ///
    /// Fails with `CommandNotFound` where no handler is bound to the name.
    /// In mode `Sync` the job of that handler is begun on `arguments` here
    /// and handed back. In mode `Async` nothing is begun: the handler and
    /// the arguments come back as a pending call.
    pub fn dispatch<'a>(&'a self, name: &str, arguments: &'a Vec<String>) -> (dispatched: Result<
        Dispatched<'a>,
        CommandError,
    >)
        requires
            self.wf(),
        ensures
            routed(self@, name@, arguments, dispatched),
    {
        let key = String::from_str(name);
        match self.find(&key) {
            None => Err(CommandError::CommandNotFound),
            Some(i) => {
                let binding = &self.entries[i].binding;
                match binding.mode {
                    InvocationMode::Sync => Ok(
                        Dispatched::Inline(Job::begin(&binding.handler, arguments)),
                    ),
                    InvocationMode::Async => Ok(
                        Dispatched::Pending(PendingCall { handler: &binding.handler, arguments }),
                    ),
                }
            },
        }
    }

    /// Routes `request` as [`CommandDispatcher::dispatch`] routes its name
    /// and arguments.
    pub fn dispatch_request<'a>(&'a self, request: &'a CommandRequest) -> (dispatched: Result<
        Dispatched<'a>,
        CommandError,
    >)
        requires
            self.wf(),
        ensures
            routed(self@, request.name@, &request.arguments, dispatched),
    {
        self.dispatch(request.name.as_str(), &request.arguments)
    }
}

/// What a dispatch of `name` with `arguments` yields on `table`.
///
/// The outcome depends on the binding of `name` and on nothing else in the
/// table: the job begun, or the call left pending, is that of the handler
/// bound to the name.
pub open spec fn routed(
    table: Map<Seq<char>, Binding>,
    name: Seq<char>,
    arguments: &Vec<String>,
    dispatched: Result<Dispatched, CommandError>,
) -> bool {
    if !table.contains_key(name) {
        dispatched == Err::<Dispatched, CommandError>(CommandError::CommandNotFound)
    } else {
        match table[name].mode {
            InvocationMode::Sync => {
                &&& dispatched matches Ok(Dispatched::Inline(job))
                &&& begins_as(&table[name].handler, arguments@, job)
                &&& job.wf()
            },
            InvocationMode::Async => {
                &&& dispatched matches Ok(Dispatched::Pending(call))
                &&& *call.handler == table[name].handler
                &&& call.arguments == arguments
            },
        }
    }
}

/// A dispatch is decided by the binding of the name alone: on two tables
/// that bind `name` alike, or both not at all, the same outcomes are those
/// of a dispatch of `name`.
pub proof fn lemma_dispatch_reads_one_binding(
    first: Map<Seq<char>, Binding>,
    second: Map<Seq<char>, Binding>,
    name: Seq<char>,
    arguments: &Vec<String>,
    dispatched: Result<Dispatched, CommandError>,
)
    requires
        first.contains_key(name) == second.contains_key(name),
        first.contains_key(name) ==> first[name] == second[name],
    ensures
        routed(first, name, arguments, dispatched) == routed(second, name, arguments, dispatched),
{
}

/// A name registered on a table that did not hold it is dispatched to the
/// handler it was registered with, and the dispatch of every other name is
/// what it was before.
pub proof fn lemma_register_then_dispatch(
    table: Map<Seq<char>, Binding>,
    name: Seq<char>,
    binding: Binding,
    other: Seq<char>,
    arguments: &Vec<String>,
    dispatched: Result<Dispatched, CommandError>,
)
    requires
        !table.contains_key(name),
        other != name,
    ensures
        table.insert(name, binding).contains_key(name),
        table.insert(name, binding)[name] == binding,
        routed(table.insert(name, binding), other, arguments, dispatched) == routed(
            table,
            other,
            arguments,
            dispatched,
        ),
{
}

} // verus!
