//! The configured hotkey bindings.
//!
//! The configuration of this version is a fixed in-process list of
//! (descriptor, command) pairs.  Before any registration is attempted the
//! list is checked for duplicate descriptors: two entries sharing a key
//! combination are a fatal configuration error, never a silent shadowing.

use vstd::prelude::*;
use crate::hotkey::HotkeyDescriptor;
use crate::hotkey::KEY_A;
use crate::hotkey::KEY_O;
use crate::hotkey::KEY_P;
use crate::hotkey::MOD_ALT;

verus! {

/// A configured binding before registration: the key combination and the
/// shell command line it should launch once a press notification for it
/// arrives.
pub struct CandidateEntry {
    /// The key combination to register.
    pub descriptor: HotkeyDescriptor,
    /// The shell command line to spawn on a press.
    pub command: String,
}

/// The mathematical value of a [`CandidateEntry`].
pub struct CandidateEntryView {
    /// The key combination to register.
    pub descriptor: HotkeyDescriptor,
    /// The command line, as a sequence of characters.
    pub command: Seq<char>,
}

impl View for CandidateEntry {
    type V = CandidateEntryView;

    open spec fn view(&self) -> CandidateEntryView {
        CandidateEntryView { descriptor: self.descriptor, command: self.command@ }
    }
}

/// True when no two entries of `s` share a key combination.
pub open spec fn distinct_descriptors(s: Seq<CandidateEntryView>) -> bool {
    forall|i: int, j: int|
        0 <= i < j < s.len() ==> (#[trigger] s[i]).descriptor != (#[trigger] s[j]).descriptor
}

/// The views of a sequence of configured entries.
pub open spec fn entry_views(s: Seq<CandidateEntry>) -> Seq<CandidateEntryView> {
    s.map_values(|e: CandidateEntry| e@)
}

/// The fixed configuration of this version: three Alt-key launchers.
pub fn default_config() -> (v: Vec<CandidateEntry>)
    ensures
        entry_views(v@) =~= seq![
            CandidateEntryView {
                descriptor: HotkeyDescriptor { modifiers: MOD_ALT, key_code: KEY_O },
                command: "open -a Bruno"@,
            },
            CandidateEntryView {
                descriptor: HotkeyDescriptor { modifiers: MOD_ALT, key_code: KEY_A },
                command: "open -a Rio"@,
            },
            CandidateEntryView {
                descriptor: HotkeyDescriptor { modifiers: MOD_ALT, key_code: KEY_P },
                command: "open -a Terminal"@,
            },
        ],
        distinct_descriptors(entry_views(v@)),
{
    let mut v: Vec<CandidateEntry> = Vec::new();
    v.push(
        CandidateEntry {
            descriptor: HotkeyDescriptor { modifiers: MOD_ALT, key_code: KEY_O },
            command: "open -a Bruno".to_owned(),
        },
    );
    v.push(
        CandidateEntry {
            descriptor: HotkeyDescriptor { modifiers: MOD_ALT, key_code: KEY_A },
            command: "open -a Rio".to_owned(),
        },
    );
    v.push(
        CandidateEntry {
            descriptor: HotkeyDescriptor { modifiers: MOD_ALT, key_code: KEY_P },
            command: "open -a Terminal".to_owned(),
        },
    );
    v
}

/// Two entries sharing a key combination invalidate the whole
/// configuration: no configuration containing such a pair is ever
/// accepted, so startup fails before anything is registered and no
/// entry silently shadows another.
pub proof fn lemma_duplicate_descriptor_fatal(s: Seq<CandidateEntryView>, i: int, j: int)
    requires
        0 <= i < j < s.len(),
        s[i].descriptor == s[j].descriptor,
    ensures
        !distinct_descriptors(s),
{
}

/// Looks for two entries sharing a descriptor.  Returns a colliding
/// pair, or `None` exactly when all descriptors are pairwise distinct.
pub fn find_duplicate(entries: &Vec<CandidateEntry>) -> (r: Option<(usize, usize)>)
    ensures
        r is None <==> distinct_descriptors(entry_views(entries@)),
        r matches Some((i, j)) ==> i < j < entries@.len()
            && entries@[i as int]@.descriptor == entries@[j as int]@.descriptor,
{
    let n = entries.len();
    let mut i: usize = 0;
    while i < n
        invariant
            i <= n,
            n == entries@.len(),
            forall|p: int, q: int|
                0 <= p < q < entries@.len() && p < i ==> (#[trigger] entry_views(
                    entries@,
                )[p]).descriptor != (#[trigger] entry_views(entries@)[q]).descriptor,
        decreases n - i,
    {
        let mut j: usize = i + 1;
        while j < n
            invariant
                i < j || i + 1 == j,
                i < n,
                j <= n,
                n == entries@.len(),
                forall|q: int|
                    i < q < j ==> (#[trigger] entry_views(entries@)[q]).descriptor != entry_views(
                        entries@,
                    )[i as int].descriptor,
            decreases n - j,
        {
            if entries[i].descriptor == entries[j].descriptor {
                proof {
                    assert(entry_views(entries@)[i as int] == entries@[i as int]@);
                    assert(entry_views(entries@)[j as int] == entries@[j as int]@);
                    assert(!distinct_descriptors(entry_views(entries@)));
                }
                return Some((i, j));
            }
            j = j + 1;
        }
        i = i + 1;
    }
    None
}

} // verus!
