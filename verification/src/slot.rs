//! The slot store: the contract this crate relies on from
//! `generational_arena`.
//!
//! The store hands out `(slot, generation)` pairs.  A slot may be reused after
//! a removal, but only under a strictly larger generation, so a handle that
//! was issued once is never issued again; a removed handle stays invalid for
//! the rest of the store's life.  The functions below are the only places
//! where the crate touches the allocator, and their contracts are what the
//! rest of the crate is verified against.

use vstd::prelude::*;

verus! {

#[verifier::external_type_specification]
#[verifier::external_body]
#[verifier::reject_recursive_types(T)]
pub struct ExArena<T>(generational_arena::Arena<T>);

/// The live entries of a slot store: every handle that was issued and not yet
/// removed, mapped to the value stored under it.
pub uninterp spec fn slot_entries(a: generational_arena::Arena<usize>) -> Map<(usize, u64), usize>;

/// Every handle the slot store has ever issued, live or not.
pub uninterp spec fn slot_issued(a: generational_arena::Arena<usize>) -> Set<(usize, u64)>;

/// A store that holds nothing and has issued no handle yet.
pub open spec fn store_unused(a: generational_arena::Arena<usize>) -> bool {
    slot_entries(a) == Map::<(usize, u64), usize>::empty() && slot_issued(a) == Set::<
        (usize, u64),
    >::empty()
}

/// Relies on `generational_arena::Arena::new`: a new store holds nothing and
/// has issued no handle.
#[verifier::external_body]
pub(crate) fn store_new() -> (store: generational_arena::Arena<usize>)
    ensures
        store_unused(store),
{
    generational_arena::Arena::new()
}

/// Relies on `generational_arena::Arena::insert` and
/// `generational_arena::Index::into_raw_parts`: the store places `value` under
/// a handle it has never issued before (a freed slot comes back only with a
/// larger generation) and leaves every other entry as it was.
#[verifier::external_body]
pub(crate) fn store_insert(a: &mut generational_arena::Arena<usize>, value: usize) -> (h: (
    usize,
    u64,
))
    ensures
        !slot_issued(*old(a)).contains(h),
        !slot_entries(*old(a)).contains_key(h),
        slot_entries(*final(a)) == slot_entries(*old(a)).insert(h, value),
        slot_issued(*final(a)) == slot_issued(*old(a)).insert(h),
{
    a.insert(value).into_raw_parts()
}

/// Relies on `generational_arena::Arena::get` with
/// `generational_arena::Index::from_raw_parts`: the store answers for a live
/// handle with the value stored under it, and for any other handle with
/// nothing.
#[verifier::external_body]
pub(crate) fn store_get(a: &generational_arena::Arena<usize>, h: (usize, u64)) -> (r: Option<
    usize,
>)
    ensures
        r == if slot_entries(*a).contains_key(h) {
            Some(slot_entries(*a)[h])
        } else {
            None::<usize>
        },
{
    a.get(generational_arena::Index::from_raw_parts(h.0, h.1)).copied()
}

/// Relies on `generational_arena::Arena::remove`: exactly the live entry under
/// the handle is taken out and handed back; the set of handles ever issued
/// does not change.
#[verifier::external_body]
pub(crate) fn store_remove(a: &mut generational_arena::Arena<usize>, h: (usize, u64)) -> (r:
    Option<usize>)
    ensures
        slot_entries(*final(a)) == slot_entries(*old(a)).remove(h),
        slot_issued(*final(a)) == slot_issued(*old(a)),
        r == if slot_entries(*old(a)).contains_key(h) {
            Some(slot_entries(*old(a))[h])
        } else {
            None::<usize>
        },
{
    a.remove(generational_arena::Index::from_raw_parts(h.0, h.1))
}

} // verus!
