//! The Foreign Object Table: a per-object table of cross-object
//! references.
//!
//! Each entry carries two 64-bit value slots (an object ID split in half,
//! or resolver-specific data), a resolver identifier, and a flags word.
//! Entries walk a one-way state machine per index — unallocated, allocated,
//! active, deleted — and are never physically removed: other threads may be
//! mid-resolution against an index, so an entry is only ever marked
//! deleted, and every index keeps naming the entry it was assigned
//! ([`lemma_fot_insert_monotonic`]).

use vstd::prelude::*;

verus! {

use vstd::pervasive::VecAdditionalExecFns;

/// Entry flag: the slot has been allocated to a reference.
pub const FOT_FLAG_ALLOCATED: u32 = 0x1;
/// Entry flag: the entry is active and may be resolved.
pub const FOT_FLAG_ACTIVE: u32 = 0x2;
/// Entry flag: the entry has been deleted; its index is never reused.
pub const FOT_FLAG_DELETED: u32 = 0x4;
/// Entry flag: the entry's value slots are data for a custom resolver, not
/// an object ID.
pub const FOT_FLAG_RESOLVER: u32 = 0x8;
/// All defined entry flag bits.
pub const FOT_FLAGS_ALL: u32 = 0xf;

/// The table holds at most this many entries, since the metadata header
/// counts them in 16 bits.
pub const FOT_MAX_ENTRIES: usize = 0xffff;

/// One cross-object reference.
#[derive(Clone, Copy, Debug, Hash, PartialEq, Eq, Structural)]
pub struct FotEntry {
    /// First value slot: the high half of the target's ID, or resolver
    /// data.
    pub val_hi: u64,
    /// Second value slot: the low half of the target's ID, or resolver
    /// data.
    pub val_lo: u64,
    /// The resolver identifier, when the entry uses a custom resolver.
    pub resolver: u64,
    /// The entry's state flags.
    pub flags: u32,
}

/// Whether an entry has been allocated.
pub open spec fn entry_allocated(e: FotEntry) -> bool {
    e.flags & FOT_FLAG_ALLOCATED != 0
}

/// Whether an entry is active.
pub open spec fn entry_active(e: FotEntry) -> bool {
    e.flags & FOT_FLAG_ACTIVE != 0
}

/// Whether an entry has been marked deleted.
pub open spec fn entry_deleted(e: FotEntry) -> bool {
    e.flags & FOT_FLAG_DELETED != 0
}

/// Whether an entry's value slots are data for a custom resolver.
pub open spec fn entry_custom_resolver(e: FotEntry) -> bool {
    e.flags & FOT_FLAG_RESOLVER != 0
}

/// A well-formed entry sits on the one-way state machine: only defined
/// flag bits, active only if allocated, deleted only if it was active.
pub open spec fn entry_wf(e: FotEntry) -> bool {
    &&& e.flags & !FOT_FLAGS_ALL == 0
    &&& entry_active(e) ==> entry_allocated(e)
    &&& entry_deleted(e) ==> entry_active(e)
}

/// The Foreign Object Table of one object.
pub struct FotTable {
    /// The entries, in order of assignment.
    pub entries: Vec<FotEntry>,
}

impl View for FotTable {
    type V = Seq<FotEntry>;

    open spec fn view(&self) -> Seq<FotEntry> {
        self.entries@
    }
}

impl FotTable {
    /// Well-formed: the entry count fits the metadata header's 16-bit
    /// field and every entry sits on the state machine.
    pub open spec fn wf(&self) -> bool {
        &&& self@.len() <= FOT_MAX_ENTRIES
        &&& forall|i: int| 0 <= i < self@.len() ==> entry_wf(#[trigger] self@[i])
    }

    /// An empty table.
    pub fn new() -> (r: FotTable)
        ensures
            r@ == Seq::<FotEntry>::empty(),
            r.wf(),
    {
        FotTable { entries: Vec::new() }
    }

    /// The number of entries.
    pub fn len(&self) -> (r: usize)
        ensures
            r == self@.len(),
    {
        self.entries.len()
    }

    /// The entry at an already-assigned index.
    pub fn entry(&self, idx: usize) -> (r: FotEntry)
        requires
            idx < self@.len(),
        ensures
            r == self@[idx as int],
    {
        self.entries[idx]
    }

    /// Append a new entry holding the given slots, allocated but not yet
    /// active, and return its assigned index: the next free one. Indices
    /// grow monotonically; no existing entry moves.
    pub fn insert(&mut self, val_hi: u64, val_lo: u64, resolver: u64, custom: bool) -> (idx: u32)
        requires
            old(self).wf(),
            old(self)@.len() < FOT_MAX_ENTRIES,
        ensures
            idx == old(self)@.len(),
            final(self)@ == old(self)@.push(
                (FotEntry {
                    val_hi,
                    val_lo,
                    resolver,
                    flags: if custom {
                        FOT_FLAG_ALLOCATED | FOT_FLAG_RESOLVER
                    } else {
                        FOT_FLAG_ALLOCATED
                    },
                }),
            ),
            final(self).wf(),
    {
        let flags: u32 = if custom {
            FOT_FLAG_ALLOCATED | FOT_FLAG_RESOLVER
        } else {
            FOT_FLAG_ALLOCATED
        };
        proof {
            assert(FOT_FLAG_ALLOCATED & !FOT_FLAGS_ALL == 0 && FOT_FLAG_ALLOCATED & FOT_FLAG_ACTIVE
                == 0 && FOT_FLAG_ALLOCATED & FOT_FLAG_DELETED == 0) by (bit_vector);
            assert((FOT_FLAG_ALLOCATED | FOT_FLAG_RESOLVER) & !FOT_FLAGS_ALL == 0 && (
            FOT_FLAG_ALLOCATED | FOT_FLAG_RESOLVER) & FOT_FLAG_ACTIVE == 0 && (FOT_FLAG_ALLOCATED
                | FOT_FLAG_RESOLVER) & FOT_FLAG_DELETED == 0) by (bit_vector);
        }
        let idx = self.entries.len() as u32;
        self.entries.push(FotEntry { val_hi, val_lo, resolver, flags });
        idx
    }

    /// Mark an allocated, not yet deleted entry active. Only that entry's
    /// flags change; its slots and every other entry stay as they were.
    pub fn activate(&mut self, idx: usize)
        requires
            old(self).wf(),
            idx < old(self)@.len(),
            entry_allocated(old(self)@[idx as int]),
            !entry_deleted(old(self)@[idx as int]),
        ensures
            final(self)@ == old(self)@.update(
                idx as int,
                (FotEntry { flags: old(self)@[idx as int].flags | FOT_FLAG_ACTIVE, ..old(
                    self,
                )@[idx as int] }),
            ),
            final(self).wf(),
    {
        let e = self.entries[idx];
        let updated = FotEntry { flags: e.flags | FOT_FLAG_ACTIVE, ..e };
        proof {
            let f = e.flags;
            assert((f & !FOT_FLAGS_ALL == 0 && f & FOT_FLAG_ALLOCATED != 0 && f & FOT_FLAG_DELETED
                == 0) ==> ((f | FOT_FLAG_ACTIVE) & !FOT_FLAGS_ALL == 0 && (f | FOT_FLAG_ACTIVE)
                & FOT_FLAG_ALLOCATED != 0 && (f | FOT_FLAG_ACTIVE) & FOT_FLAG_ACTIVE != 0 && (f
                | FOT_FLAG_ACTIVE) & FOT_FLAG_DELETED == 0)) by (bit_vector);
        }
        self.entries.set(idx, updated);
    }

    /// Mark an active entry deleted. The entry is not removed and no other
    /// entry changes, so every index keeps naming the entry it named
    /// before; the deleted mark is never cleared again.
    pub fn mark_deleted(&mut self, idx: usize)
        requires
            old(self).wf(),
            idx < old(self)@.len(),
            entry_active(old(self)@[idx as int]),
        ensures
            final(self)@ == old(self)@.update(
                idx as int,
                (FotEntry { flags: old(self)@[idx as int].flags | FOT_FLAG_DELETED, ..old(
                    self,
                )@[idx as int] }),
            ),
            final(self).wf(),
    {
        let e = self.entries[idx];
        let updated = FotEntry { flags: e.flags | FOT_FLAG_DELETED, ..e };
        proof {
            let f = e.flags;
            assert((f & !FOT_FLAGS_ALL == 0 && f & FOT_FLAG_ALLOCATED != 0 && f & FOT_FLAG_ACTIVE
                != 0) ==> ((f | FOT_FLAG_DELETED) & !FOT_FLAGS_ALL == 0 && (f | FOT_FLAG_DELETED)
                & FOT_FLAG_ALLOCATED != 0 && (f | FOT_FLAG_DELETED) & FOT_FLAG_ACTIVE != 0))
                by (bit_vector);
        }
        self.entries.set(idx, updated);
    }
}

/// The table contents after appending each entry of `es` in order.
pub open spec fn table_after_inserts(s: Seq<FotEntry>, es: Seq<FotEntry>) -> Seq<FotEntry>
    decreases es.len(),
{
    if es.len() == 0 {
        s
    } else {
        table_after_inserts(s.push(es[0]), es.subrange(1, es.len() as int))
    }
}

/// FOT monotonicity: appending K entries to a table assigns them the K
/// strictly increasing — hence distinct — indices `len`, `len + 1`, ...,
/// `len + K - 1` (0 through K-1 on an initially empty table), each insert
/// the next free index; and no already-assigned index changes the entry it
/// names.
pub proof fn lemma_fot_insert_monotonic(s: Seq<FotEntry>, es: Seq<FotEntry>)
    ensures
        table_after_inserts(s, es).len() == s.len() + es.len(),
        forall|j: int| 0 <= j < s.len() ==> table_after_inserts(s, es)[j] == s[j],
        forall|j: int| 0 <= j < es.len() ==> table_after_inserts(s, es)[s.len() + j] == es[j],
    decreases es.len(),
{
    if es.len() > 0 {
        let s1 = s.push(es[0]);
        let es1 = es.subrange(1, es.len() as int);
        lemma_fot_insert_monotonic(s1, es1);
        assert forall|j: int| 0 <= j < s.len() implies table_after_inserts(s, es)[j] == s[j] by {
            assert(table_after_inserts(s1, es1)[j] == s1[j]);
            assert(s1[j] == s[j]);
        }
        assert forall|j: int| 0 <= j < es.len() implies table_after_inserts(s, es)[s.len() + j]
            == es[j] by {
            if j == 0 {
                assert(table_after_inserts(s, es)[s.len() as int] == s1[s.len() as int]);
            } else {
                assert(table_after_inserts(s1, es1)[s1.len() + (j - 1)] == es1[j - 1]);
            }
        }
    }
}

} // verus!
