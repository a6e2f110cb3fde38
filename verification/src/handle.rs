//! Typed handles and the declared cast relation.
//!
//! An [`Index`] wraps a `(slot, generation)` pair from the slot store together
//! with two phantom parameters: the arena's uniform payload type `T` and a tag
//! `U` naming how the entry may currently be viewed.  Neither parameter is
//! stored at runtime.
//!
//! A cast edge is declared by implementing the marker trait
//! [`CastFromIndex`]: `impl CastFromIndex<A> for B` states that a handle
//! tagged `A` may be viewed as tagged `B`.  The only way to convert a tag is
//! [`IndexCast::cast`], which is available exactly when such an edge exists;
//! a conversion with no declared edge is rejected when the program is built,
//! not at run time.  Edges compose by chaining casts, and every cast leaves
//! the underlying `(slot, generation)` pair untouched.

use vstd::prelude::*;

verus! {

/// A handle into an [`crate::AnyArena`], tagged with the view `U` it grants
/// on the entry behind it.
///
/// Handles are plain data: copying or comparing one never touches the stored
/// value, and does not require `T` or `U` to be copyable or comparable.
pub struct Index<T, U: ?Sized> {
    slot: usize,
    generation: u64,
    _marker: core::marker::PhantomData<(T, U)>,
}

impl<T, U: ?Sized> Index<T, U> {
    /// The `(slot, generation)` pair beneath the handle: the identity of the
    /// entry it denotes, independent of the tag.
    pub closed spec fn key(self) -> (usize, u64) {
        (self.slot, self.generation)
    }

    pub(crate) fn new(slot: usize, generation: u64) -> (r: Self)
        ensures
            r.key() == (slot, generation),
    {
        Index { slot, generation, _marker: core::marker::PhantomData }
    }

    /// The `(slot, generation)` pair as a value, for the arena to look up.
    pub(crate) fn parts(&self) -> (r: (usize, u64))
        ensures
            r == self.key(),
    {
        (self.slot, self.generation)
    }
}

impl<T, U: ?Sized> Clone for Index<T, U> {
    fn clone(&self) -> (r: Self)
        ensures
            r == *self,
    {
        Index { slot: self.slot, generation: self.generation, _marker: core::marker::PhantomData }
    }

    fn clone_from(&mut self, source: &Self)
        ensures
            *final(self) == *source,
    {
        self.slot = source.slot;
        self.generation = source.generation;
    }
}

impl<T, U: ?Sized> Copy for Index<T, U> {

}

impl<T, U: ?Sized> PartialEq for Index<T, U> {
    /// Two handles are equal when they denote the same entry, whatever their
    /// tags' history.
    fn eq(&self, other: &Self) -> (r: bool) {
        self.slot == other.slot && self.generation == other.generation
    }
}

impl<T, U: ?Sized> vstd::std_specs::cmp::PartialEqSpecImpl for Index<T, U> {
    open spec fn obeys_eq_spec() -> bool {
        true
    }

    open spec fn eq_spec(&self, other: &Self) -> bool {
        self.key() == other.key()
    }
}

/// A declared cast edge.  `impl CastFromIndex<A> for B` states, once per
/// pair, that a handle tagged `A` may be reinterpreted as tagged `B`: a
/// concrete type viewed as an interface it satisfies, or a narrower interface
/// viewed as one it extends.  The relation is never inferred; absence of an
/// edge makes the corresponding [`IndexCast::cast`] fail to build.
pub trait CastFromIndex<V: ?Sized> {

}

/// The self-cast: every tag may be viewed as itself.
impl<V: ?Sized> CastFromIndex<V> for V {

}

/// Conversion of a handle's tag along a declared cast edge.
pub trait IndexCast<T, U: ?Sized> {
    /// The key of the handle being converted.
    spec fn key_before(self) -> (usize, u64);

    /// Reinterpret the tag.  The store is never touched: the handle keeps its
    /// `(slot, generation)` pair, so the converted handle denotes the same
    /// entry as the original.
    fn cast(self) -> (r: Index<T, U>)
        ensures
            r.key() == self.key_before(),
    ;
}

impl<T, U: ?Sized, V: ?Sized> IndexCast<T, U> for Index<T, V> where U: CastFromIndex<V> {
    open spec fn key_before(self) -> (usize, u64) {
        self.key()
    }

    fn cast(self) -> Index<T, U> {
        Index { slot: self.slot, generation: self.generation, _marker: core::marker::PhantomData }
    }
}

} // verus!
