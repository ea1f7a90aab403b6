//! The event dispatch loop's decisions.
//!
//! The loop has two states: idle, waiting for the next press
//! notification, and dispatching, handing a resolved command to the
//! executor.  A notification carrying an identifier that is not bound in
//! the action table is silently ignored — not an error.  A bound
//! identifier triggers exactly one spawn attempt of the mapped command,
//! fire-and-forget: the loop returns to idle whether or not the spawn
//! succeeded, and a failure only produces a one-line diagnostic for the
//! error stream.  Waiting, spawning and printing are the host's work;
//! every decision in between is made here.

use vstd::prelude::*;
use vstd::string::StringExecFns;
use crate::table::ActionEntryView;
use crate::table::ActionTable;

verus! {

/// What dispatching one notification against `table` decides: the
/// command to attempt to spawn, or nothing when the identifier is not
/// bound.
pub open spec fn dispatch_outcome(table: Map<u32, ActionEntryView>, id: u32) -> Option<Seq<char>> {
    if table.contains_key(id) {
        Some(table[id].command)
    } else {
        None
    }
}

/// The commands handed to the executor when the notifications `notes`
/// are dispatched in order against `table`: one spawn attempt per bound
/// notification, none for an unbound one, and no deduplication or
/// rate-limiting across repeats.
pub open spec fn spawned_commands(table: Map<u32, ActionEntryView>, notes: Seq<u32>) -> Seq<
    Seq<char>,
>
    decreases notes.len(),
{
    if notes.len() == 0 {
        Seq::empty()
    } else {
        match dispatch_outcome(table, notes.last()) {
            Some(c) => spawned_commands(table, notes.drop_last()).push(c),
            None => spawned_commands(table, notes.drop_last()),
        }
    }
}

/// The diagnostic reported when `command` could not be started and the
/// executor's account of it was `error`.
pub open spec fn failure_message(command: Seq<char>, error: Seq<char>) -> Seq<char> {
    "failed to execute command "@ + command + ": "@ + error
}

/// The state of the dispatch loop.
pub enum LoopState {
    /// Waiting for the next press notification.
    Idle,
    /// A notification has been resolved; `command` is being handed to
    /// the executor.
    Dispatching { command: String },
}

/// The dispatch loop's core: resolves press notifications against the
/// read-only action table and decides what the host must spawn or
/// report.  The table is never mutated after construction.
pub struct Dispatcher {
    table: ActionTable,
    state: LoopState,
}

impl Dispatcher {
    /// The read-only table this dispatcher resolves against.
    pub closed spec fn table_view(&self) -> Map<u32, ActionEntryView> {
        self.table@
    }

    /// The loop state.
    pub closed spec fn state(&self) -> LoopState {
        self.state
    }

    /// Enters the loop with the finished action table, idle.
    pub fn new(table: ActionTable) -> (d: Dispatcher)
        ensures
            d.table_view() == table@,
            d.state() is Idle,
    {
        Dispatcher { table, state: LoopState::Idle }
    }

    /// The table, for the host to inspect.
    pub fn action_table(&self) -> (t: &ActionTable)
        ensures
            t@ == self.table_view(),
    {
        &self.table
    }

    /// Resolves one press notification.  Returns the command the host
    /// must attempt to spawn — exactly the one bound to `id`, exactly
    /// once — or `None` for an unbound identifier, which is ignored: no
    /// spawn, no error, the loop stays idle.
    pub fn on_notification(&mut self, id: u32) -> (cmd: Option<String>)
        requires
            old(self).state() is Idle,
        ensures
            final(self).table_view() == old(self).table_view(),
            cmd is Some <==> dispatch_outcome(old(self).table_view(), id) is Some,
            cmd matches Some(c) ==> dispatch_outcome(old(self).table_view(), id) == Some(c@)
                && (final(self).state() matches LoopState::Dispatching { command }
                && command@ == c@),
            cmd is None ==> final(self).state() is Idle,
    {
        let resolved: Option<String> = match self.table.lookup(id) {
            Some(entry) => Some(entry.command.clone()),
            None => None,
        };
        match resolved {
            Some(c) => {
                self.state = LoopState::Dispatching { command: c.clone() };
                Some(c)
            },
            None => None,
        }
    }

    /// Observes the executor's start attempt and returns the loop to
    /// idle, whatever happened.  A start failure yields the one-line
    /// diagnostic owed to the error stream; success yields nothing.
    /// Either way the loop is ready for the next notification — a bad
    /// command never stops the loop.
    pub fn on_spawn_result(&mut self, error: Option<&str>) -> (diag: Option<String>)
        requires
            old(self).state() is Dispatching,
        ensures
            final(self).state() is Idle,
            final(self).table_view() == old(self).table_view(),
            diag is Some <==> error is Some,
            old(self).state() matches LoopState::Dispatching { command } && (error matches Some(
                e,
            ) ==> diag matches Some(m) && m@ == failure_message(command@, e@)),
    {
        let diag: Option<String> = match (&self.state, error) {
            (LoopState::Dispatching { command }, Some(e)) => {
                let mut m = "failed to execute command ".to_owned();
                m.append(command.as_str());
                m.append(": ");
                m.append(e);
                proof {
                    assert(m@ =~= failure_message(command@, e@));
                }
                Some(m)
            },
            _ => None,
        };
        self.state = LoopState::Idle;
        diag
    }
}

/// An identifier not bound in the table is a no-op: appending it to any
/// run of notifications adds no spawn attempt.
pub proof fn lemma_unmapped_is_noop(
    table: Map<u32, ActionEntryView>,
    id: u32,
    notes: Seq<u32>,
)
    requires
        !table.contains_key(id),
    ensures
        dispatch_outcome(table, id) is None,
        spawned_commands(table, notes.push(id)) == spawned_commands(table, notes),
{
    assert(notes.push(id).drop_last() =~= notes);
    assert(notes.push(id).last() == id);
}

/// A bound identifier makes exactly one spawn attempt of exactly the
/// mapped command: appending it to any run of notifications appends that
/// one command to the spawns.
pub proof fn lemma_mapped_spawns_once(
    table: Map<u32, ActionEntryView>,
    id: u32,
    notes: Seq<u32>,
)
    requires
        table.contains_key(id),
    ensures
        dispatch_outcome(table, id) == Some(table[id].command),
        spawned_commands(table, notes.push(id)) == spawned_commands(table, notes).push(
            table[id].command,
        ),
{
    assert(notes.push(id).drop_last() =~= notes);
    assert(notes.push(id).last() == id);
}

/// Repeats are independent: a run of presses all carrying the same
/// bound identifier makes one spawn attempt per press, each of the same
/// mapped command — no deduplication, no rate-limiting.
pub proof fn lemma_repeats_spawn_each_time(
    table: Map<u32, ActionEntryView>,
    id: u32,
    notes: Seq<u32>,
)
    requires
        table.contains_key(id),
        forall|i: int| 0 <= i < notes.len() ==> notes[i] == id,
    ensures
        spawned_commands(table, notes).len() == notes.len(),
        forall|k: int|
            0 <= k < notes.len() ==> #[trigger] spawned_commands(table, notes)[k]
                == table[id].command,
    decreases notes.len(),
{
    if notes.len() == 0 {
    } else {
        lemma_repeats_spawn_each_time(table, id, notes.drop_last());
        assert(notes.last() == id);
        assert(spawned_commands(table, notes) == spawned_commands(table, notes.drop_last()).push(
            table[id].command,
        ));
    }
}

} // verus!
