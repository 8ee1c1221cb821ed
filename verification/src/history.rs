//! Saved requests. Each method has five slots; a slot holds a snapshot of
//! the request as it was when it was saved: address, metadata and body.
//!
//! The model keeps the snapshots in memory. Bringing them in from disk and
//! writing them back is done around it.

use crate::selection::MethodId;
use vstd::prelude::*;

verus! {

/// The number of the first slot.
pub const FIRST_SLOT: usize = 1;

/// The number of the last slot.
pub const LAST_SLOT: usize = 5;

/// What a snapshot holds, each text by its view.
pub ghost struct SnapshotView {
    pub address: Seq<char>,
    pub metadata: Seq<(Seq<char>, Seq<char>)>,
    pub request: Seq<char>,
}

/// A saved request.
pub struct Snapshot {
    pub address: String,
    pub metadata: Vec<(String, String)>,
    pub request: String,
}

/// What a metadata pair holds.
pub open spec fn pair_view(pair: (String, String)) -> (Seq<char>, Seq<char>) {
    (pair.0@, pair.1@)
}

impl View for Snapshot {
    type V = SnapshotView;

    open spec fn view(&self) -> SnapshotView {
        SnapshotView {
            address: self.address@,
            metadata: self.metadata@.map_values(|pair: (String, String)| pair_view(pair)),
            request: self.request@,
        }
    }
}

impl Clone for Snapshot {
    fn clone(&self) -> (copy: Self)
        ensures
            copy@ == self@,
    {
        let mut metadata: Vec<(String, String)> = Vec::new();
        let mut i: usize = 0;
        while i < self.metadata.len()
            invariant
                0 <= i <= self.metadata@.len(),
                metadata@.len() == i,
                forall|k: int| 0 <= k < i ==> pair_view(#[trigger] metadata@[k]) == pair_view(
                    self.metadata@[k],
                ),
            decreases self.metadata.len() - i,
        {
            let pair = &self.metadata[i];
            metadata.push((pair.0.clone(), pair.1.clone()));
            i = i + 1;
        }
        let copy = Snapshot {
            address: self.address.clone(),
            metadata,
            request: self.request.clone(),
        };
        assert(copy@.metadata =~= self@.metadata);
        copy
    }
}

/// A snapshot in its place: the method it belongs to and its slot.
pub struct HistoryEntry {
    pub method: MethodId,
    pub slot: usize,
    pub snapshot: Snapshot,
}

/// Whether an entry is the one for `method` and `slot`.
pub open spec fn is_for(entry: HistoryEntry, method: MethodId, slot: usize) -> bool {
    entry.method == method && entry.slot == slot
}

/// No two entries are for the same method and slot.
pub open spec fn unique(entries: Seq<HistoryEntry>) -> bool {
    forall|i: int, j: int|
        0 <= i < j < entries.len() ==> !is_for(
            #[trigger] entries[i],
            (#[trigger] entries[j]).method,
            entries[j].slot,
        )
}

/// Whether there is an entry for `method` and `slot`.
pub open spec fn occupied(entries: Seq<HistoryEntry>, method: MethodId, slot: usize) -> bool {
    exists|i: int| 0 <= i < entries.len() && is_for(#[trigger] entries[i], method, slot)
}

/// What is saved for `method` in `slot`.
pub open spec fn saved(entries: Seq<HistoryEntry>, method: MethodId, slot: usize) -> Option<
    SnapshotView,
> {
    if occupied(entries, method, slot) {
        let i = choose|i: int| 0 <= i < entries.len() && is_for(#[trigger] entries[i], method, slot);
        Some(entries[i].snapshot@)
    } else {
        None
    }
}

/// `after` holds what `before` held, but for `method` and `slot`, where it
/// holds `now`.
pub open spec fn recorded(
    before: Seq<HistoryEntry>,
    method: MethodId,
    slot: usize,
    now: Option<SnapshotView>,
    after: Seq<HistoryEntry>,
) -> bool {
    forall|m: MethodId, s: usize| #[trigger]
        saved(after, m, s) == if m == method && s == slot {
            now
        } else {
            saved(before, m, s)
        }
}

/// Among unique entries, what is saved for an entry's method and slot is
/// that entry's snapshot.
pub proof fn lemma_saved_at(entries: Seq<HistoryEntry>, i: int)
    requires
        unique(entries),
        0 <= i < entries.len(),
    ensures
        saved(entries, entries[i].method, entries[i].slot) == Some(entries[i].snapshot@),
{
    let method = entries[i].method;
    let slot = entries[i].slot;
    assert(is_for(entries[i], method, slot));
    let j = choose|j: int| 0 <= j < entries.len() && is_for(#[trigger] entries[j], method, slot);
    if j < i {
        assert(!is_for(entries[j], entries[i].method, entries[i].slot));
    } else if i < j {
        assert(!is_for(entries[i], entries[j].method, entries[j].slot));
    }
}

proof fn lemma_replaced(before: Seq<HistoryEntry>, i: int, entry: HistoryEntry)
    requires
        unique(before),
        0 <= i < before.len(),
        is_for(before[i], entry.method, entry.slot),
    ensures
        unique(before.update(i, entry)),
        recorded(before, entry.method, entry.slot, Some(entry.snapshot@), before.update(i, entry)),
{
    let after = before.update(i, entry);
    assert forall|a: int, b: int| 0 <= a < b < after.len() implies !is_for(
        #[trigger] after[a],
        (#[trigger] after[b]).method,
        after[b].slot,
    ) by {
        assert(!is_for(before[a], before[b].method, before[b].slot));
    }
    assert forall|m: MethodId, s: usize| #[trigger]
        saved(after, m, s) == if m == entry.method && s == entry.slot {
            Some(entry.snapshot@)
        } else {
            saved(before, m, s)
        } by {
        if m == entry.method && s == entry.slot {
            lemma_saved_at(after, i);
        } else if occupied(before, m, s) {
            let j = choose|j: int| 0 <= j < before.len() && is_for(#[trigger] before[j], m, s);
            assert(j != i);
            assert(after[j] == before[j]);
            lemma_saved_at(before, j);
            lemma_saved_at(after, j);
        } else {
            assert forall|j: int| 0 <= j < after.len() implies !is_for(
                #[trigger] after[j],
                m,
                s,
            ) by {
                if j != i {
                    assert(after[j] == before[j]);
                    assert(!is_for(before[j], m, s));
                }
            }
        }
    }
}

proof fn lemma_appended(before: Seq<HistoryEntry>, entry: HistoryEntry)
    requires
        unique(before),
        !occupied(before, entry.method, entry.slot),
    ensures
        unique(before.push(entry)),
        recorded(before, entry.method, entry.slot, Some(entry.snapshot@), before.push(entry)),
{
    let after = before.push(entry);
    let last = before.len() as int;
    assert forall|a: int, b: int| 0 <= a < b < after.len() implies !is_for(
        #[trigger] after[a],
        (#[trigger] after[b]).method,
        after[b].slot,
    ) by {
        if b < last {
            assert(!is_for(before[a], before[b].method, before[b].slot));
        } else {
            assert(!is_for(before[a], entry.method, entry.slot));
        }
    }
    assert forall|m: MethodId, s: usize| #[trigger]
        saved(after, m, s) == if m == entry.method && s == entry.slot {
            Some(entry.snapshot@)
        } else {
            saved(before, m, s)
        } by {
        if m == entry.method && s == entry.slot {
            assert(after[last] == entry);
            lemma_saved_at(after, last);
        } else if occupied(before, m, s) {
            let j = choose|j: int| 0 <= j < before.len() && is_for(#[trigger] before[j], m, s);
            assert(after[j] == before[j]);
            lemma_saved_at(before, j);
            lemma_saved_at(after, j);
        } else {
            assert forall|j: int| 0 <= j < after.len() implies !is_for(
                #[trigger] after[j],
                m,
                s,
            ) by {
                if j < last {
                    assert(after[j] == before[j]);
                    assert(!is_for(before[j], m, s));
                }
            }
        }
    }
}

proof fn lemma_removed(before: Seq<HistoryEntry>, i: int)
    requires
        unique(before),
        0 <= i < before.len(),
    ensures
        unique(before.remove(i)),
        recorded(before, before[i].method, before[i].slot, None, before.remove(i)),
{
    let after = before.remove(i);
    let method = before[i].method;
    let slot = before[i].slot;
    assert forall|a: int, b: int| 0 <= a < b < after.len() implies !is_for(
        #[trigger] after[a],
        (#[trigger] after[b]).method,
        after[b].slot,
    ) by {
        let a0 = if a < i { a } else { a + 1 };
        let b0 = if b < i { b } else { b + 1 };
        assert(after[a] == before[a0]);
        assert(after[b] == before[b0]);
        assert(!is_for(before[a0], before[b0].method, before[b0].slot));
    }
    assert forall|m: MethodId, s: usize| #[trigger]
        saved(after, m, s) == if m == method && s == slot {
            None
        } else {
            saved(before, m, s)
        } by {
        if m == method && s == slot {
            assert forall|j: int| 0 <= j < after.len() implies !is_for(
                #[trigger] after[j],
                m,
                s,
            ) by {
                let j0 = if j < i { j } else { j + 1 };
                assert(after[j] == before[j0]);
                if j0 < i {
                    assert(!is_for(before[j0], before[i].method, before[i].slot));
                } else {
                    assert(!is_for(before[i], before[j0].method, before[j0].slot));
                }
            }
        } else if occupied(before, m, s) {
            let j = choose|j: int| 0 <= j < before.len() && is_for(#[trigger] before[j], m, s);
            assert(j != i);
            let j1 = if j < i { j } else { j - 1 };
            assert(after[j1] == before[j]);
            lemma_saved_at(before, j);
            lemma_saved_at(after, j1);
        } else {
            assert forall|j: int| 0 <= j < after.len() implies !is_for(
                #[trigger] after[j],
                m,
                s,
            ) by {
                let j0 = if j < i { j } else { j + 1 };
                assert(after[j] == before[j0]);
                assert(!is_for(before[j0], m, s));
            }
        }
    }
}

/// The saved requests, and the slot that save and load currently work on.
pub struct HistoryModel {
    /// The snapshots, at most one for each method and slot.
    pub entries: Vec<HistoryEntry>,
    /// The selected slot.
    pub save_spot: usize,
    /// Whether a reload saves the request in progress first.
    pub autosave: bool,
    /// Whether the history is switched off: nothing is saved or loaded.
    pub disabled: bool,
}

impl HistoryModel {
    /// No method has two snapshots in one slot, and the selected slot is one
    /// of the five.
    pub open spec fn wf(&self) -> bool {
        unique(self.entries@) && FIRST_SLOT <= self.save_spot <= LAST_SLOT
    }

    /// What is saved for `method` in `slot`.
    pub open spec fn saved_in(&self, method: MethodId, slot: usize) -> Option<SnapshotView> {
        saved(self.entries@, method, slot)
    }

    /// What a load for `method` brings: the snapshot in the selected slot,
    /// unless the history is switched off.
    pub open spec fn loadable(&self, method: MethodId) -> Option<SnapshotView> {
        if self.disabled {
            None
        } else {
            self.saved_in(method, self.save_spot)
        }
    }

    /// Tests whether the selected slot is one of the five and no method has
    /// two snapshots in one slot.
    pub fn is_consistent(&self) -> (ok: bool)
        ensures
            ok == self.wf(),
    {
        if self.save_spot < FIRST_SLOT || self.save_spot > LAST_SLOT {
            return false;
        }
        let mut j: usize = 0;
        while j < self.entries.len()
            invariant
                0 <= j <= self.entries@.len(),
                forall|a: int, b: int|
                    0 <= a < b < j ==> !is_for(
                        #[trigger] self.entries@[a],
                        (#[trigger] self.entries@[b]).method,
                        self.entries@[b].slot,
                    ),
            decreases self.entries.len() - j,
        {
            let method = self.entries[j].method;
            let slot = self.entries[j].slot;
            let mut i: usize = 0;
            while i < j
                invariant
                    0 <= i <= j < self.entries@.len(),
                    method == self.entries@[j as int].method,
                    slot == self.entries@[j as int].slot,
                    forall|a: int| 0 <= a < i ==> !is_for(#[trigger] self.entries@[a], method, slot),
                decreases j - i,
            {
                let entry = &self.entries[i];
                if entry.method.service == method.service && entry.method.method == method.method
                    && entry.slot == slot {
                    assert(is_for(self.entries@[i as int], method, slot));
                    return false;
                }
                i = i + 1;
            }
            j = j + 1;
        }
        true
    }

    /// An empty history with the first slot selected.
    pub fn new(autosave: bool, disabled: bool) -> (history: Self)
        ensures
            history.entries@.len() == 0,
            history.save_spot == FIRST_SLOT,
            history.autosave == autosave,
            history.disabled == disabled,
            history.wf(),
    {
        HistoryModel { entries: Vec::new(), save_spot: FIRST_SLOT, autosave, disabled }
    }

    /// Where the entry for `method` and `slot` stands, if there is one.
    fn find(&self, method: MethodId, slot: usize) -> (place: Option<usize>)
        ensures
            match place {
                Some(i) => i < self.entries@.len() && is_for(self.entries@[i as int], method, slot),
                None => !occupied(self.entries@, method, slot),
            },
    {
        let mut i: usize = 0;
        while i < self.entries.len()
            invariant
                0 <= i <= self.entries@.len(),
                forall|k: int| 0 <= k < i ==> !is_for(#[trigger] self.entries@[k], method, slot),
            decreases self.entries.len() - i,
        {
            let entry = &self.entries[i];
            if entry.method.service == method.service && entry.method.method == method.method
                && entry.slot == slot {
                return Some(i);
            }
            i = i + 1;
        }
        None
    }

    /// Makes `index` the selected slot, if it is one of the five. Any other
    /// number is ignored.
    pub fn select(&mut self, index: usize)
        ensures
            *final(self) == (HistoryModel {
                save_spot: if FIRST_SLOT <= index <= LAST_SLOT {
                    index
                } else {
                    old(self).save_spot
                },
                ..*old(self)
            }),
            old(self).wf() ==> final(self).wf(),
    {
        if FIRST_SLOT <= index && index <= LAST_SLOT {
            self.save_spot = index;
        }
    }

    /// Puts `snapshot` into `slot` of `method`, in place of what was there.
    pub fn store(&mut self, method: MethodId, slot: usize, snapshot: Snapshot)
        requires
            old(self).wf(),
        ensures
            final(self).wf(),
            final(self).save_spot == old(self).save_spot,
            final(self).autosave == old(self).autosave,
            final(self).disabled == old(self).disabled,
            recorded(old(self).entries@, method, slot, Some(snapshot@), final(self).entries@),
    {
        let entry = HistoryEntry { method, slot, snapshot };
        match self.find(method, slot) {
            Some(i) => {
                proof {
                    lemma_replaced(self.entries@, i as int, entry);
                }
                self.entries[i] = entry;
            },
            None => {
                proof {
                    lemma_appended(self.entries@, entry);
                }
                self.entries.push(entry);
            },
        }
    }

    /// Saves `snapshot` for `method` in the selected slot. A history that is
    /// switched off saves nothing.
    pub fn save(&mut self, method: MethodId, snapshot: Snapshot)
        requires
            old(self).wf(),
        ensures
            final(self).wf(),
            final(self).save_spot == old(self).save_spot,
            final(self).autosave == old(self).autosave,
            final(self).disabled == old(self).disabled,
            if old(self).disabled {
                *final(self) == *old(self)
            } else {
                recorded(
                    old(self).entries@,
                    method,
                    old(self).save_spot,
                    Some(snapshot@),
                    final(self).entries@,
                )
            },
    {
        if !self.disabled {
            let slot = self.save_spot;
            self.store(method, slot, snapshot);
        }
    }

    /// What is saved for `method` in the selected slot, if anything.
    pub fn load(&self, method: MethodId) -> (snapshot: Option<Snapshot>)
        requires
            self.wf(),
        ensures
            match snapshot {
                Some(found) => self.loadable(method) == Some(found@),
                None => self.loadable(method) is None,
            },
    {
        if self.disabled {
            return None;
        }
        match self.find(method, self.save_spot) {
            Some(i) => {
                proof {
                    lemma_saved_at(self.entries@, i as int);
                }
                Some(self.entries[i].snapshot.clone())
            },
            None => None,
        }
    }

    /// Removes what is saved for `method` in the selected slot.
    pub fn delete(&mut self, method: MethodId)
        requires
            old(self).wf(),
        ensures
            final(self).wf(),
            final(self).save_spot == old(self).save_spot,
            final(self).autosave == old(self).autosave,
            final(self).disabled == old(self).disabled,
            recorded(old(self).entries@, method, old(self).save_spot, None, final(self).entries@),
    {
        match self.find(method, self.save_spot) {
            Some(i) => {
                proof {
                    lemma_removed(self.entries@, i as int);
                }
                self.entries.remove(i);
            },
            None => {},
        }
    }
}

} // verus!
