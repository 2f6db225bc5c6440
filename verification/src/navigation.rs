//! Bounded, browser-style history of explicit focus moves.

use vstd::prelude::*;

use crate::symbol::SymbolId;

verus! {

/// Browser-style history: the visited identities, the position of the
/// current one, and the most entries it keeps.
pub struct NavigationHistory {
    entries: Vec<SymbolId>,
    cursor: usize,
    capacity: usize,
}

/// The entries after visiting `id` from position `cursor`: everything after
/// the cursor is dropped, `id` is appended, and the oldest entry goes when
/// the capacity is exceeded.
pub open spec fn pushed(entries: Seq<SymbolId>, cursor: int, capacity: int, id: SymbolId) -> Seq<
    SymbolId,
> {
    let kept = entries.take(cursor + 1).push(id);
    if kept.len() > capacity {
        kept.skip(kept.len() - capacity)
    } else {
        kept
    }
}

impl NavigationHistory {
    /// Well-formedness: at least one entry, the cursor on an entry, and no
    /// more entries than the capacity.
    pub closed spec fn wf(&self) -> bool {
        &&& 0 < self.entries@.len() <= self.capacity
        &&& self.cursor < self.entries@.len()
    }

    /// The visited identities, oldest first.
    pub closed spec fn items(&self) -> Seq<SymbolId> {
        self.entries@
    }

    /// Position of the current identity in `items()`.
    pub closed spec fn position(&self) -> int {
        self.cursor as int
    }

    /// The most entries kept.
    pub closed spec fn cap(&self) -> int {
        self.capacity as int
    }

    /// A valid history holds at least one entry and at most its capacity,
    /// and its cursor is on one of its entries.
    pub proof fn lemma_wf_bounds(&self)
        requires
            self.wf(),
        ensures
            0 < self.items().len() <= self.cap(),
            0 <= self.position() < self.items().len(),
    {
    }

    /// A history holding only `initial`; `capacity` must be non-zero.
    pub fn new(initial: SymbolId, capacity: usize) -> (r: Self)
        requires
            capacity > 0,
        ensures
            r.wf(),
            r.items() == seq![initial],
            r.position() == 0,
            r.cap() == capacity,
    {
        let mut entries = Vec::new();
        entries.push(initial);
        NavigationHistory { entries, cursor: 0, capacity }
    }

    /// Visits `id`: forward entries are discarded, `id` becomes the newest
    /// and current entry, and the oldest entry is dropped beyond capacity.
    pub fn push(&mut self, id: SymbolId)
        requires
            old(self).wf(),
        ensures
            final(self).wf(),
            final(self).items() == pushed(
                old(self).items(),
                old(self).position(),
                old(self).cap(),
                id,
            ),
            final(self).position() == final(self).items().len() - 1,
            final(self).cap() == old(self).cap(),
    {
        let ghost kept = self.entries@.take(self.cursor + 1).push(id);
        self.entries.truncate(self.cursor + 1);
        self.entries.push(id);
        assert(self.entries@ =~= kept);
        if self.entries.len() > self.capacity {
            self.entries.remove(0);
            assert(self.entries@ =~= kept.skip(kept.len() - self.capacity));
        }
        self.cursor = self.entries.len() - 1;
    }

    /// Steps back one entry and returns it; `None` (and no move) at the
    /// oldest entry.
    pub fn back(&mut self) -> (r: Option<&SymbolId>)
        requires
            old(self).wf(),
        ensures
            final(self).wf(),
            final(self).items() == old(self).items(),
            final(self).cap() == old(self).cap(),
            old(self).position() == 0 ==> (r is None) && final(self).position() == 0,
            old(self).position() > 0 ==> final(self).position() == old(self).position() - 1 && r
                == Some(&old(self).items()[old(self).position() - 1]),
    {
        if self.cursor == 0 {
            return None;
        }
        self.cursor = self.cursor - 1;
        Some(&self.entries[self.cursor])
    }

    /// Steps forward one entry and returns it; `None` (and no move) at the
    /// newest entry.
    pub fn forward(&mut self) -> (r: Option<&SymbolId>)
        requires
            old(self).wf(),
        ensures
            final(self).wf(),
            final(self).items() == old(self).items(),
            final(self).cap() == old(self).cap(),
            old(self).position() + 1 >= old(self).items().len() ==> (r is None)
                && final(self).position() == old(self).position(),
            old(self).position() + 1 < old(self).items().len() ==> final(self).position()
                == old(self).position() + 1 && r == Some(&old(self).items()[old(self).position() + 1]),
    {
        let next = self.cursor + 1;
        if next >= self.entries.len() {
            return None;
        }
        self.cursor = next;
        Some(&self.entries[self.cursor])
    }

    /// The current identity.
    pub fn current(&self) -> (r: &SymbolId)
        requires
            self.wf(),
        ensures
            *r == self.items()[self.position()],
    {
        &self.entries[self.cursor]
    }

    /// Number of entries kept.
    pub fn len(&self) -> (r: usize)
        ensures
            r == self.items().len(),
    {
        self.entries.len()
    }
}

/// Going back and then forward returns to the entry one started from.
pub proof fn lemma_back_then_forward(entries: Seq<SymbolId>, cursor: int)
    requires
        0 < cursor < entries.len(),
    ensures
        (cursor - 1) + 1 < entries.len(),
        entries[(cursor - 1) + 1] == entries[cursor],
{
}

/// After a visit nothing lies ahead, the visited identity is current, and
/// the history never exceeds its capacity.
pub proof fn lemma_push_truncates_forward(
    entries: Seq<SymbolId>,
    cursor: int,
    capacity: int,
    id: SymbolId,
)
    requires
        0 <= cursor < entries.len(),
        entries.len() <= capacity,
    ensures
        pushed(entries, cursor, capacity, id).len() <= capacity,
        pushed(entries, cursor, capacity, id).len() >= 1,
        pushed(entries, cursor, capacity, id).last() == id,
        pushed(entries, cursor, capacity, id).len() == if cursor + 2 > capacity {
            capacity
        } else {
            cursor + 2
        },
{
}

/// A visit keeps the entries up to the current one in place (when nothing
/// had to be dropped for capacity), so going back after it reaches the
/// entry that was current before.
pub proof fn lemma_push_then_back(
    entries: Seq<SymbolId>,
    cursor: int,
    capacity: int,
    id: SymbolId,
)
    requires
        0 <= cursor < entries.len(),
        entries.len() <= capacity,
        cursor + 2 <= capacity,
    ensures
        pushed(entries, cursor, capacity, id)[cursor] == entries[cursor],
        pushed(entries, cursor, capacity, id).len() == cursor + 2,
{
}

} // verus!
