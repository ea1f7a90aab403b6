//! The action table: registered hotkeys and their commands.
//!
//! Once every configured entry has been registered, the launcher holds a
//! read-only mapping from the identifier the operating system issued to
//! the entry it was issued for.  Dispatch resolves press notifications
//! against this mapping and nothing ever mutates it afterwards.

use vstd::prelude::*;
use std::collections::HashMap;
use crate::config::CandidateEntryView;
use crate::hotkey::HotkeyDescriptor;

verus! {

broadcast use vstd::std_specs::hash::group_hash_axioms;

/// A configured entry after successful registration: the identifier the
/// operating system issued for its descriptor, the descriptor itself, and
/// the command to spawn when a press notification carries that
/// identifier.
pub struct ActionEntry {
    /// Identifier issued by the operating system's hotkey subsystem,
    /// stable until program exit.
    pub id: u32,
    /// The registered key combination.
    pub descriptor: HotkeyDescriptor,
    /// The shell command line to spawn on a press.
    pub command: String,
}

/// The mathematical value of an [`ActionEntry`].
pub struct ActionEntryView {
    /// Identifier issued by the subsystem.
    pub id: u32,
    /// The registered key combination.
    pub descriptor: HotkeyDescriptor,
    /// The command line, as a sequence of characters.
    pub command: Seq<char>,
}

impl View for ActionEntry {
    type V = ActionEntryView;

    open spec fn view(&self) -> ActionEntryView {
        ActionEntryView { id: self.id, descriptor: self.descriptor, command: self.command@ }
    }
}

/// True when no identifier repeats in `ids`.
pub open spec fn distinct_ids(ids: Seq<u32>) -> bool {
    forall|i: int, j: int| 0 <= i < j < ids.len() ==> ids[i] != ids[j]
}

/// The mapping obtained by binding each candidate, in order, to the
/// identifier issued for it: `ids[k]` maps to the entry made from
/// `cands[k]`.  When an identifier repeats, the later binding wins — the
/// builder rejects that case outright.
pub open spec fn table_model(cands: Seq<CandidateEntryView>, ids: Seq<u32>) -> Map<
    u32,
    ActionEntryView,
>
    decreases cands.len(),
{
    if cands.len() == 0 || ids.len() < cands.len() {
        Map::empty()
    } else {
        table_model(cands.drop_last(), ids.drop_last()).insert(
            ids[cands.len() - 1],
            ActionEntryView {
                id: ids[cands.len() - 1],
                descriptor: cands.last().descriptor,
                command: cands.last().command,
            },
        )
    }
}

/// The static mapping from registration identifier to action entry.
/// Built once at startup; read-only thereafter.  Lookups are hash-table
/// lookups, never scans.
pub struct ActionTable {
    map: HashMap<u32, ActionEntry>,
}

impl View for ActionTable {
    type V = Map<u32, ActionEntryView>;

    closed spec fn view(&self) -> Map<u32, ActionEntryView> {
        self.map@.map_values(|e: ActionEntry| e@)
    }
}

impl ActionTable {
    /// The empty table.
    pub fn new() -> (t: ActionTable)
        ensures
            t@ == Map::<u32, ActionEntryView>::empty(),
    {
        let t = ActionTable { map: HashMap::new() };
        proof {
            assert(t@ =~= Map::<u32, ActionEntryView>::empty());
        }
        t
    }

    /// Binds `id` to an entry, replacing any earlier binding of the same
    /// identifier.  Only the registrar builds tables: everything after
    /// startup reads them.
    pub(crate) fn insert(&mut self, id: u32, descriptor: HotkeyDescriptor, command: String)
        ensures
            final(self)@ == old(self)@.insert(
                id,
                ActionEntryView { id, descriptor, command: command@ },
            ),
    {
        let ghost before = self.map@;
        let entry = ActionEntry { id, descriptor, command };
        self.map.insert(id, entry);
        proof {
            assert(final(self)@ =~= old(self)@.insert(
                id,
                ActionEntryView { id, descriptor, command: command@ },
            ));
        }
    }

    /// Whether `id` is bound.
    pub fn contains(&self, id: u32) -> (b: bool)
        ensures
            b == self@.contains_key(id),
    {
        self.map.contains_key(&id)
    }

    /// Resolves a registration identifier to its entry; `None` exactly
    /// when the identifier is not bound.
    pub fn lookup(&self, id: u32) -> (r: Option<&ActionEntry>)
        ensures
            match r {
                Some(e) => self@.contains_key(id) && e@ == self@[id],
                None => !self@.contains_key(id),
            },
    {
        self.map.get(&id)
    }

    /// The number of bound identifiers.
    pub fn len(&self) -> (n: usize)
        ensures
            n == self@.len(),
    {
        proof {
            assert(self@.dom() =~= self.map@.dom());
        }
        self.map.len()
    }
}

} // verus!
