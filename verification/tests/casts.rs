//! The cast relation as a data-model author declares it: one `CastFromIndex`
//! impl per edge, with trait-object tags for the interfaces.

use any_arena::AnyArena;
use any_arena::CastFromIndex;
use any_arena::Index;
use any_arena::IndexCast;

trait Super {}
trait Sub: Super {}

struct Foo;

impl Super for Foo {}

impl Sub for Foo {}

struct Bar;

impl Super for Bar {}

impl Sub for Bar {}

impl CastFromIndex<Foo> for dyn Sub {}

impl CastFromIndex<dyn Sub> for Foo {}

impl CastFromIndex<Foo> for dyn Super {}

impl CastFromIndex<dyn Super> for Foo {}

impl CastFromIndex<Bar> for dyn Sub {}

impl CastFromIndex<Bar> for dyn Super {}

impl CastFromIndex<dyn Sub> for dyn Super {}

#[test]
#[allow(unused_variables)]
fn test() {
    let mut arena: AnyArena<()> = AnyArena::new();

    let foo1: Index<(), Foo> = arena.insert((), Foo);
    let foo1_sub: Index<(), dyn Sub> = foo1.cast();
    let foo1_sub_super: Index<(), dyn Super> = foo1_sub.cast();
    let foo1_super: Index<(), dyn Super> = foo1.cast();
}

#[test]
fn chained_and_direct_casts_agree() {
    let mut arena: AnyArena<i32> = AnyArena::new();
    let handle: Index<i32, Foo> = arena.insert(5, Foo);

    let via: Index<i32, dyn Sub> = handle.cast();
    let chained: Index<i32, dyn Super> = via.cast();
    let direct: Index<i32, dyn Super> = handle.cast();

    assert!(chained == direct);

    let observed = arena.get(handle).expect("the entry is still live");
    assert_eq!(*observed.0, 5);
}

#[test]
fn self_cast_is_identity() {
    let mut arena: AnyArena<u32> = AnyArena::new();
    let handle: Index<u32, String> = arena.insert(9, String::from("nine"));

    let same: Index<u32, String> = handle.cast();
    assert!(same == handle);

    let through_original = arena.get(handle).expect("live");
    let through_cast = arena.get(same).expect("live");
    assert_eq!(through_original.0, through_cast.0);
    assert_eq!(through_original.1, through_cast.1);
    assert_eq!(*through_cast.0, 9);
    assert_eq!(through_cast.1, "nine");
}

#[test]
fn cast_keeps_handles_copyable() {
    let mut arena: AnyArena<u8> = AnyArena::new();
    let handle: Index<u8, Bar> = arena.insert(1, Bar);

    let copy = handle;
    let clone = handle.clone();
    assert!(copy == handle);
    assert!(clone == handle);

    let mut other: Index<u8, Bar> = arena.insert(2, Bar);
    assert!(other != handle);
    other.clone_from(&handle);
    assert!(other == handle);

    let tagged: Index<u8, dyn Super> = handle.cast();
    let tagged_again: Index<u8, dyn Super> = handle.cast();
    assert!(tagged == tagged_again);
}
