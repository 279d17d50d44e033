use vstd::prelude::*;

use crate::value::{HookValue, Kind, Teardown};

verus! {

/// One registered hook: its value and the action that tears it down.
pub struct Entry {
    pub value: HookValue,
    pub teardown: Teardown,
}

/// Names the value that a successful read reached. It is good only during the
/// traversal cycle in which it was handed out.
#[derive(Clone, Copy, Debug, PartialEq, Eq, Structural)]
pub struct Handle {
    pub index: usize,
    pub generation: u64,
}

/// Why a read found nothing to hand out.
#[derive(Clone, Copy, Debug, PartialEq, Eq, Structural)]
pub enum ReadError {
    /// The cursor is at the end: nothing was ever registered at this position.
    Exhausted,
    /// The entry at the cursor holds another kind of value: the call order changed.
    Mismatch,
}

/// Why an access through a handle was refused.
#[derive(Clone, Copy, Debug, PartialEq, Eq, Structural)]
pub enum AccessError {
    /// The handle belongs to an earlier cycle, or was never handed out.
    Stale,
    /// The new value is of another kind than the stored one.
    Mismatch,
}

/// The abstract state of a store.
pub ghost struct StoreView {
    pub entries: Seq<Entry>,
    pub cursor: nat,
    pub generation: u64,
}

/// The generation that follows `g`; it wraps to 0 after the largest.
pub open spec fn next_generation(g: u64) -> u64 {
    if g == u64::MAX {
        0
    } else {
        (g + 1) as u64
    }
}

impl StoreView {
    /// The cursor stands within the ledger, whose length fits a `usize`.
    pub open spec fn wf(self) -> bool {
        &&& self.cursor <= self.entries.len()
        &&& self.entries.len() <= usize::MAX
    }

    pub open spec fn at_end(self) -> bool {
        self.cursor >= self.entries.len()
    }

    /// A handle is live when it was handed out in the current cycle.
    pub open spec fn live(self, h: Handle) -> bool {
        h.generation == self.generation && h.index < self.cursor
    }

    /// The state after appending `e`: the cursor and generation stay.
    pub open spec fn registered(self, e: Entry) -> StoreView {
        StoreView { entries: self.entries.push(e), ..self }
    }

    /// Cursor back to the start. A new cycle begins only where a handle may
    /// have been handed out, so that older handles go stale.
    pub open spec fn rewound(self) -> StoreView {
        StoreView {
            cursor: 0,
            generation: if self.cursor > 0 { next_generation(self.generation) } else { self.generation },
            ..self
        }
    }

    /// What a read of the given kind returns, and the state after it.
    pub open spec fn read(self, kind: Kind) -> (StoreView, Result<Handle, ReadError>) {
        if self.cursor >= self.entries.len() {
            (self, Err(ReadError::Exhausted))
        } else if self.entries[self.cursor as int].value.kind_of() != kind {
            (self, Err(ReadError::Mismatch))
        } else {
            (
                StoreView { cursor: self.cursor + 1, ..self },
                Ok(Handle { index: self.cursor as usize, generation: self.generation }),
            )
        }
    }

    /// What a write through `h` returns, and the state after it. A write
    /// keeps the entry's kind and its teardown action.
    pub open spec fn write(self, h: Handle, v: HookValue) -> (StoreView, Result<(), AccessError>) {
        if !self.live(h) {
            (self, Err(AccessError::Stale))
        } else if self.entries[h.index as int].value.kind_of() != v.kind_of() {
            (self, Err(AccessError::Mismatch))
        } else {
            let old_entry = self.entries[h.index as int];
            (
                StoreView {
                    entries: self.entries.update(
                        h.index as int,
                        Entry { value: v, teardown: old_entry.teardown },
                    ),
                    ..self
                },
                Ok(()),
            )
        }
    }
}

/// What destroying a store with these entries appends to the log: each
/// entry's action, once, in registration order.
pub open spec fn teardown_log(entries: Seq<Entry>) -> Seq<u64>
    decreases entries.len(),
{
    if entries.len() == 0 {
        seq![]
    } else {
        let last = entries.last();
        teardown_log(entries.drop_last()) + last.teardown.emitted(last.value)
    }
}

/// An append-only ledger of hook state with a cursor over it.
pub struct HookList {
    vals: Vec<Entry>,
    idx: usize,
    generation: u64,
}

impl View for HookList {
    type V = StoreView;

    closed spec fn view(&self) -> StoreView {
        StoreView { entries: self.vals@, cursor: self.idx as nat, generation: self.generation }
    }
}

impl HookList {
    /// The store keeps its cursor within the ledger.
    pub open spec fn wf(&self) -> bool {
        self@.wf()
    }

    /// An empty store.
    pub fn new() -> (s: HookList)
        ensures
            s.wf(),
            s@.entries.len() == 0,
            s@.cursor == 0,
    {
        HookList { vals: Vec::new(), idx: 0, generation: 0 }
    }

    /// Reads the entry at the cursor. On success the cursor moves one step
    /// and the handle names that entry; on either failure nothing changes.
    pub fn next(&mut self, kind: Kind) -> (r: Result<Handle, ReadError>)
        requires
            old(self).wf(),
        ensures
            final(self).wf(),
            (final(self)@, r) == old(self)@.read(kind),
    {
        if self.idx >= self.vals.len() {
            return Err(ReadError::Exhausted);
        }
        if self.vals[self.idx].value.kind() != kind {
            return Err(ReadError::Mismatch);
        }
        let h = Handle { index: self.idx, generation: self.generation };
        self.idx = self.idx + 1;
        Ok(h)
    }

    /// Moves the cursor back to the start for a new traversal. Every handle
    /// handed out before goes stale, so no two cycles share a live handle.
    pub fn reset(&mut self)
        requires
            old(self).wf(),
        ensures
            final(self).wf(),
            final(self)@ == old(self)@.rewound(),
    {
        if self.idx > 0 {
            self.generation = if self.generation == u64::MAX {
                0
            } else {
                self.generation + 1
            };
        }
        self.idx = 0;
    }

    /// Appends an entry at the end of the ledger, wherever the cursor stands.
    pub fn push_hook(&mut self, new: HookValue, cleanup: Teardown)
        requires
            old(self).wf(),
            old(self)@.entries.len() < usize::MAX,
        ensures
            final(self).wf(),
            final(self)@ == old(self)@.registered(Entry { value: new, teardown: cleanup }),
    {
        self.vals.push(Entry { value: new, teardown: cleanup });
    }

    /// The value that a live handle names; `None` for a stale one.
    pub fn get(&self, h: Handle) -> (r: Option<&HookValue>)
        requires
            self.wf(),
        ensures
            self@.live(h) ==> r == Some(&self@.entries[h.index as int].value),
            !self@.live(h) ==> r is None,
    {
        if h.generation != self.generation || h.index >= self.idx {
            return None;
        }
        Some(&self.vals[h.index].value)
    }

    /// Replaces the value that a live handle names with one of the same kind.
    pub fn set(&mut self, h: Handle, v: HookValue) -> (r: Result<(), AccessError>)
        requires
            old(self).wf(),
        ensures
            final(self).wf(),
            (final(self)@, r) == old(self)@.write(h, v),
    {
        if h.generation != self.generation || h.index >= self.idx {
            return Err(AccessError::Stale);
        }
        if self.vals[h.index].value.kind() != v.kind() {
            return Err(AccessError::Mismatch);
        }
        self.vals[h.index].value = v;
        Ok(())
    }

    /// Destroys the store: runs every entry's teardown action once, oldest
    /// first, and returns what they logged.
    pub fn destroy(self) -> (log: Vec<u64>)
        ensures
            log@ == teardown_log(self@.entries),
    {
        let mut log: Vec<u64> = Vec::new();
        let mut i: usize = 0;
        while i < self.vals.len()
            invariant
                i <= self.vals@.len(),
                log@ == teardown_log(self.vals@.subrange(0, i as int)),
            decreases self.vals@.len() - i,
        {
            let e = &self.vals[i];
            e.teardown.run(&e.value, &mut log);
            assert(self.vals@.subrange(0, i + 1).drop_last() =~= self.vals@.subrange(0, i as int));
            i = i + 1;
        }
        assert(self.vals@.subrange(0, i as int) =~= self.vals@);
        log
    }

    pub fn len(&self) -> (n: usize)
        ensures
            n == self@.entries.len(),
    {
        self.vals.len()
    }

    pub fn cur_idx(&self) -> (n: usize)
        ensures
            n == self@.cursor,
    {
        self.idx
    }

    pub fn at_end(&self) -> (b: bool)
        ensures
            b == self@.at_end(),
    {
        self.idx >= self.vals.len()
    }
}

impl Default for HookList {
    fn default() -> (s: HookList)
        ensures
            s.wf(),
            s@.entries.len() == 0,
            s@.cursor == 0,
    {
        HookList::new()
    }
}

} // verus!
