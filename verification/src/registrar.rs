//! The registration protocol.
//!
//! Startup walks the configured candidates in order.  For each one the
//! host asks the operating system to register the descriptor and hands
//! the issued identifier back; the registrar binds it to the candidate.
//! Any irregularity — a duplicate descriptor in the configuration, a
//! duplicate identifier from the subsystem, a sequence that ends early —
//! aborts startup: a table is produced only when every candidate was
//! bound, so no partially registered state is ever observable.

use vstd::prelude::*;
use crate::config::CandidateEntry;
use crate::config::CandidateEntryView;
use crate::config::distinct_descriptors;
use crate::config::entry_views;
use crate::config::find_duplicate;
use crate::errors::StartupError;
use crate::table::ActionEntryView;
use crate::table::ActionTable;
use crate::table::distinct_ids;
use crate::table::table_model;

verus! {

/// The abstract state of a [`Registrar`]: the configured candidates and
/// the identifiers bound so far, in candidate order.
#[verifier::ext_equal]
pub struct RegistrarView {
    /// All configured candidates, in configuration order.
    pub candidates: Seq<CandidateEntryView>,
    /// The identifiers issued so far: `ids[k]` was bound to
    /// `candidates[k]`.
    pub ids: Seq<u32>,
}

/// Walks the configured candidates, binding each to the identifier the
/// operating system issued for it, and yields the finished
/// [`ActionTable`] once every candidate is bound.
pub struct Registrar {
    candidates: Vec<CandidateEntry>,
    ids: Vec<u32>,
    table: ActionTable,
}

impl View for Registrar {
    type V = RegistrarView;

    closed spec fn view(&self) -> RegistrarView {
        RegistrarView { candidates: entry_views(self.candidates@), ids: self.ids@ }
    }
}

impl Registrar {
    /// Internal consistency: identifiers are distinct and bound to a
    /// prefix of a duplicate-free configuration, and the table built so
    /// far is exactly the model of that prefix.
    pub closed spec fn wf(&self) -> bool {
        &&& self@.ids.len() <= self@.candidates.len()
        &&& distinct_ids(self@.ids)
        &&& distinct_descriptors(self@.candidates)
        &&& self.table@ == table_model(
            self@.candidates.take(self@.ids.len() as int),
            self@.ids,
        )
    }

    /// Accepts a configuration whose descriptors are pairwise distinct
    /// and starts the binding sequence; rejects one with a duplicate
    /// before anything is registered.
    pub fn new(candidates: Vec<CandidateEntry>) -> (r: Result<Registrar, StartupError>)
        ensures
            r is Ok <==> distinct_descriptors(entry_views(candidates@)),
            r matches Ok(reg) ==> reg.wf() && reg@.candidates == entry_views(candidates@)
                && reg@.ids.len() == 0,
            r matches Err(e) ==> (e matches StartupError::DuplicateDescriptor {
                first,
                second,
            } && first < second < candidates@.len()
                && entry_views(candidates@)[first as int].descriptor == entry_views(
                candidates@,
            )[second as int].descriptor),
    {
        match find_duplicate(&candidates) {
            Some((first, second)) => Err(StartupError::DuplicateDescriptor { first, second }),
            None => {
                let reg = Registrar { candidates, ids: Vec::new(), table: ActionTable::new() };
                proof {
                    assert(reg@.candidates.take(0) =~= Seq::<CandidateEntryView>::empty());
                    assert(reg.wf());
                }
                Ok(reg)
            },
        }
    }

    /// The candidate whose registration the host should attempt next, or
    /// `None` once every candidate is bound.
    pub fn pending(&self) -> (r: Option<&CandidateEntry>)
        requires
            self.wf(),
        ensures
            r is Some <==> self@.ids.len() < self@.candidates.len(),
            r matches Some(e) ==> e@ == self@.candidates[self@.ids.len() as int],
    {
        if self.ids.len() < self.candidates.len() {
            let e = &self.candidates[self.ids.len()];
            proof {
                assert(self@.candidates[self@.ids.len() as int] == self.candidates@[self.ids@.len() as int]@);
            }
            Some(e)
        } else {
            None
        }
    }

    /// How many candidates are bound so far.
    pub fn bound_count(&self) -> (n: usize)
        ensures
            n == self@.ids.len(),
    {
        self.ids.len()
    }

    /// Whether every candidate is bound.
    pub fn is_complete(&self) -> (b: bool)
        ensures
            b == (self@.ids.len() == self@.candidates.len()),
    {
        self.ids.len() == self.candidates.len()
    }

    /// Binds the identifier the operating system issued to the pending
    /// candidate.  Succeeds exactly when a candidate is pending and the
    /// identifier is fresh; any other offer leaves the registrar
    /// unchanged and aborts startup.
    pub fn bind(&mut self, id: u32) -> (r: Result<(), StartupError>)
        requires
            old(self).wf(),
        ensures
            final(self).wf(),
            r is Ok <==> (old(self)@.ids.len() < old(self)@.candidates.len() && !old(
                self,
            )@.ids.contains(id)),
            r is Ok ==> final(self)@.candidates == old(self)@.candidates && final(self)@.ids
                == old(self)@.ids.push(id),
            r is Err ==> final(self)@ == old(self)@,
            r matches Err(e) ==> if old(self)@.ids.len() == old(self)@.candidates.len() {
                e is NothingPending
            } else {
                (e matches StartupError::DuplicateIdentifier { id: d } && d == id)
            },
    {
        if self.ids.len() == self.candidates.len() {
            return Err(StartupError::NothingPending);
        }
        let ghost k = self.ids@.len() as int;
        proof {
            lemma_table_model_dom(old(self)@.candidates.take(k), old(self)@.ids);
        }
        if self.table.contains(id) {
            proof {
                assert(old(self)@.ids.to_set().contains(id));
                assert(old(self)@.ids.contains(id));
            }
            return Err(StartupError::DuplicateIdentifier { id });
        }
        proof {
            assert(!old(self)@.ids.contains(id));
        }
        let next = &self.candidates[self.ids.len()];
        let descriptor = next.descriptor;
        let command = next.command.clone();
        self.table.insert(id, descriptor, command);
        self.ids.push(id);
        proof {
            let cv = old(self)@.candidates;
            let oldids = old(self)@.ids;
            let newids = oldids.push(id);
            let c = cv.take(k + 1);
            assert(cv[k] == old(self).candidates@[k]@);
            assert(c.drop_last() =~= cv.take(k));
            assert(newids.drop_last() =~= oldids);
            assert(c.last() == cv[k]);
            assert(table_model(c, newids) == table_model(cv.take(k), oldids).insert(
                id,
                ActionEntryView { id, descriptor: cv[k].descriptor, command: cv[k].command },
            ));
            assert(self@.ids == newids);
            assert(self@.candidates == cv);
            assert(self@.candidates.take(self@.ids.len() as int) == c);
            assert(self.wf());
        }
        Ok(())
    }

    /// Ends the binding sequence.  Yields the finished table exactly when
    /// every candidate was bound; its size then equals the configured
    /// entry count and its keys are exactly the issued identifiers.
    pub fn finish(self) -> (r: Result<ActionTable, StartupError>)
        requires
            self.wf(),
        ensures
            r is Ok <==> self@.ids.len() == self@.candidates.len(),
            r matches Ok(t) ==> t@ == table_model(self@.candidates, self@.ids) && t@.len()
                == self@.candidates.len() && t@.dom() =~= self@.ids.to_set(),
            r is Err ==> r matches Err(StartupError::Incomplete),
    {
        if self.ids.len() == self.candidates.len() {
            proof {
                assert(self@.candidates.take(self@.ids.len() as int) =~= self@.candidates);
                lemma_table_model_dom(self@.candidates, self@.ids);
                lemma_table_model_len(self@.candidates, self@.ids);
            }
            Ok(self.table)
        } else {
            Err(StartupError::Incomplete)
        }
    }
}

/// The keys of the model table are exactly the identifiers bound so far.
pub proof fn lemma_table_model_dom(cands: Seq<CandidateEntryView>, ids: Seq<u32>)
    requires
        ids.len() == cands.len(),
    ensures
        table_model(cands, ids).dom() =~= ids.to_set(),
        table_model(cands, ids).dom().finite(),
    decreases cands.len(),
{
    broadcast use vstd::set::group_set_axioms;
    broadcast use vstd::seq_lib::group_seq_properties;
    broadcast use vstd::seq_lib::seq_to_set_is_finite;

    if cands.len() == 0 {
        assert(ids.to_set() =~= Set::<u32>::empty());
    } else {
        lemma_table_model_dom(cands.drop_last(), ids.drop_last());
        assert(ids.drop_last().to_set().insert(ids.last()) =~= ids.to_set());
        assert(table_model(cands, ids).dom() =~= ids.drop_last().to_set().insert(ids.last()));
    }
}

/// Binding pairwise-distinct identifiers to the configured candidates
/// yields a table with exactly one entry per candidate.
pub proof fn lemma_table_model_len(cands: Seq<CandidateEntryView>, ids: Seq<u32>)
    requires
        ids.len() == cands.len(),
        distinct_ids(ids),
    ensures
        table_model(cands, ids).dom().finite(),
        table_model(cands, ids).len() == cands.len(),
    decreases cands.len(),
{
    broadcast use vstd::set::group_set_axioms;

    lemma_table_model_dom(cands, ids);
    if cands.len() == 0 {
    } else {
        lemma_table_model_len(cands.drop_last(), ids.drop_last());
        lemma_table_model_dom(cands.drop_last(), ids.drop_last());
        assert forall|i: int| 0 <= i < ids.len() - 1 implies ids.drop_last()[i] != ids.last() by {
            assert(ids[i] != ids[ids.len() - 1]);
        }
        assert(!ids.drop_last().contains(ids.last()));
        assert(!table_model(cands.drop_last(), ids.drop_last()).dom().contains(ids.last()));
    }
}

} // verus!
