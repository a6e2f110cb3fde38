//! The arena: the owning store of all entries.
//!
//! Every entry pairs a uniform payload, whose type `T` is fixed for the
//! arena's whole life, with a type-erased value of the caller's choosing.
//! Inserting yields a handle tagged with the value's own concrete type; the
//! handle's tag may later be converted along declared cast edges
//! ([`crate::CastFromIndex`]) without touching the arena at all.
//!
//! The arena's observable state is the map [`AnyArena::entries`] from handle
//! keys to uniform payloads, together with the set [`AnyArena::issued`] of
//! every key ever handed out.  Retrieval depends on a handle only through its
//! key, which is what makes casting a no-op on what `get` observes.

use vstd::prelude::*;

use crate::erased::Erased;
use crate::erased::erase;
use crate::erased::recover;
use crate::handle::Index;
use crate::slot::slot_entries;
use crate::slot::slot_issued;
use crate::slot::store_get;
use crate::slot::store_insert;
use crate::slot::store_new;
use crate::slot::store_remove;

verus! {

/// One entry of the arena: the uniform payload beside the type-erased value.
/// Both are set when the entry is created and never overwritten afterwards.
pub struct ArenaCell<T> {
    uniform: T,
    value: Erased,
}

/// The object store.  Entries live in `cells`; the slot store maps each
/// generation-checked handle key to the position of its cell, and is the sole
/// judge of which handles are still live.
pub struct AnyArena<T> {
    slots: generational_arena::Arena<usize>,
    cells: Vec<Option<ArenaCell<T>>>,
}

impl<T> AnyArena<T> {
    /// The uniform payloads of the live entries, keyed by handle key.
    pub closed spec fn entries(self) -> Map<(usize, u64), T> {
        Map::new(
            |k: (usize, u64)| slot_entries(self.slots).contains_key(k),
            |k: (usize, u64)| self.cells@[slot_entries(self.slots)[k] as int].unwrap().uniform,
        )
    }

    /// Every handle key the arena has ever handed out, live or not.
    pub closed spec fn issued(self) -> Set<(usize, u64)> {
        slot_issued(self.slots)
    }

    /// A key is live while the entry behind it has not been removed.
    pub open spec fn live(self, k: (usize, u64)) -> bool {
        self.entries().contains_key(k)
    }

    /// What retrieval under key `k` observes of the uniform payload.
    pub open spec fn lookup(self, k: (usize, u64)) -> Option<T> {
        if self.live(k) {
            Some(self.entries()[k])
        } else {
            None
        }
    }

    /// Well-formedness: every live key names a filled cell within bounds,
    /// distinct live keys name distinct cells, and every live key was issued.
    pub closed spec fn wf(self) -> bool {
        &&& forall|k: (usize, u64)| #[trigger]
            slot_entries(self.slots).contains_key(k) ==> slot_entries(self.slots)[k]
                < self.cells@.len() && self.cells@[slot_entries(self.slots)[k] as int] is Some
        &&& forall|k1: (usize, u64), k2: (usize, u64)|
            #[trigger] slot_entries(self.slots).contains_key(k1) && #[trigger] slot_entries(
                self.slots,
            ).contains_key(k2) && k1 != k2 ==> slot_entries(self.slots)[k1] != slot_entries(
                self.slots,
            )[k2]
        &&& forall|k: (usize, u64)| #[trigger]
            slot_entries(self.slots).contains_key(k) ==> slot_issued(self.slots).contains(k)
    }

    /// Create an empty arena whose uniform-payload type is `T`.
    pub fn new() -> (a: Self)
        ensures
            a.wf(),
            a.entries() == Map::<(usize, u64), T>::empty(),
            a.issued() == Set::<(usize, u64)>::empty(),
    {
        let a = AnyArena { slots: store_new(), cells: Vec::new() };
        proof {
            assert(a.entries() =~= Map::<(usize, u64), T>::empty());
        }
        a
    }

    /// Store the pair and hand back a handle tagged with the value's own
    /// concrete type, the most specific view of the new entry.
    ///
    /// The handle has never been issued before, by this insertion or any
    /// earlier one, so no stale handle can ever denote the new entry.
    pub fn insert<U: 'static>(&mut self, uniform: T, value: U) -> (h: Index<T, U>)
        requires
            old(self).wf(),
        ensures
            final(self).wf(),
            !old(self).issued().contains(h.key()),
            final(self).entries() == old(self).entries().insert(h.key(), uniform),
            final(self).issued() == old(self).issued().insert(h.key()),
            final(self).lookup(h.key()) == Some(uniform),
    {
        let cell_index = self.cells.len();
        self.cells.push(Some(ArenaCell { uniform, value: erase(value) }));
        let (slot, generation) = store_insert(&mut self.slots, cell_index);
        let h = Index::<T, U>::new(slot, generation);
        proof {
            assert(self.entries() =~= old(self).entries().insert(h.key(), uniform));
            assert(self.issued() =~= old(self).issued().insert(h.key()));
        }
        h
    }

    /// Validate the handle against the slot store and recover the entry as a
    /// pair of the uniform payload and the stored value seen at tag `U`.
    ///
    /// A stale handle — one whose entry was removed — observes nothing, never
    /// a value.  For a live handle the uniform payload returned is exactly the
    /// one inserted with the entry; the erased value is recovered by the box
    /// itself, which answers for the concrete type it was created with.
    pub fn get<U: 'static>(&self, index: Index<T, U>) -> (r: Option<(&T, &U)>)
        requires
            self.wf(),
        ensures
            !self.live(index.key()) ==> r is None,
            r matches Some(p) ==> self.live(index.key()) && self.lookup(index.key()) == Some(
                *p.0,
            ),
    {
        match store_get(&self.slots, index.parts()) {
            None => None,
            Some(cell_index) => match &self.cells[cell_index] {
                None => None,
                Some(cell) => match recover::<U>(&cell.value) {
                    None => None,
                    Some(view) => Some((&cell.uniform, view)),
                },
            },
        }
    }

    /// Take the entry behind the handle out of the arena and hand back its
    /// uniform payload; the erased value is dropped with the cell.  A stale
    /// handle removes nothing, and the handle itself is dead from here on:
    /// its key is never issued again.
    pub fn remove<U: 'static>(&mut self, index: Index<T, U>) -> (r: Option<T>)
        requires
            old(self).wf(),
        ensures
            final(self).wf(),
            final(self).entries() == old(self).entries().remove(index.key()),
            final(self).issued() == old(self).issued(),
            !final(self).live(index.key()),
            r == if old(self).live(index.key()) {
                Some(old(self).entries()[index.key()])
            } else {
                None::<T>
            },
    {
        let r = match store_remove(&mut self.slots, index.parts()) {
            None => None,
            Some(cell_index) => match self.cells[cell_index].take() {
                None => vstd::pervasive::unreached(),
                Some(cell) => Some(cell.uniform),
            },
        };
        proof {
            assert(self.entries() =~= old(self).entries().remove(index.key()));
        }
        r
    }
}

/// Round-trip law: immediately after an insertion, retrieval under the new
/// handle's key observes the very uniform value that was inserted.
pub proof fn lemma_insert_round_trip<T>(
    pre: AnyArena<T>,
    post: AnyArena<T>,
    k: (usize, u64),
    uniform: T,
)
    requires
        post.entries() == pre.entries().insert(k, uniform),
    ensures
        post.lookup(k) == Some(uniform),
{
}

/// Path-independence law: casting preserves a handle's key, so a handle cast
/// through an intermediate tag and one cast directly — or not cast at all —
/// observe the same entry of the same arena.
pub proof fn lemma_cast_paths_agree<T>(
    a: AnyArena<T>,
    base: (usize, u64),
    chained: (usize, u64),
    direct: (usize, u64),
)
    requires
        chained == base,
        direct == base,
    ensures
        a.lookup(chained) == a.lookup(direct),
{
}

/// Permanent-staleness law: a key that was issued and is no longer live is
/// not revived by a later insertion, since insertion only hands out keys that
/// were never issued.
pub proof fn lemma_stale_survives_insert<T>(
    pre: AnyArena<T>,
    post: AnyArena<T>,
    fresh: (usize, u64),
    uniform: T,
    k: (usize, u64),
)
    requires
        pre.issued().contains(k),
        !pre.live(k),
        !pre.issued().contains(fresh),
        post.entries() == pre.entries().insert(fresh, uniform),
    ensures
        !post.live(k),
        post.lookup(k) == None::<T>,
{
}

} // verus!
