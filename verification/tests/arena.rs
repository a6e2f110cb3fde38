//! Insertion, retrieval and removal through the arena facade.

use any_arena::AnyArena;
use any_arena::CastFromIndex;
use any_arena::Index;
use any_arena::IndexCast;

#[derive(Debug, PartialEq)]
struct Cat {
    name: String,
}

trait Animal {}

impl Animal for Cat {}

impl CastFromIndex<Cat> for dyn Animal {}

impl Animal for u64 {}

impl CastFromIndex<u64> for dyn Animal {}

#[test]
fn round_trip_after_insert() {
    let mut arena: AnyArena<&'static str> = AnyArena::new();
    let cat = Cat { name: String::from("Mitzi") };

    let handle: Index<&'static str, Cat> = arena.insert("pet", cat);
    let (uniform, value) = arena.get(handle).expect("a fresh handle is live");

    assert_eq!(*uniform, "pet");
    assert_eq!(value, &Cat { name: String::from("Mitzi") });
}

#[test]
fn removed_entry_is_not_found() {
    let mut arena: AnyArena<String> = AnyArena::new();
    let handle: Index<String, u64> = arena.insert(String::from("one"), 1u64);
    let tagged: Index<String, dyn Animal> = handle.cast();
    let _ = tagged;

    assert_eq!(arena.remove(handle), Some(String::from("one")));
    assert!(arena.get(handle).is_none());
    assert_eq!(arena.remove(handle), None);

    let reused: Index<String, u64> = arena.insert(String::from("two"), 2u64);
    assert!(arena.get(handle).is_none(), "a removed handle must stay dead after slot reuse");
    assert!(handle != reused);

    let fresh = arena.get(reused).expect("the new handle is live");
    assert_eq!(fresh.0, "two");
    assert_eq!(*fresh.1, 2);
}

#[test]
fn entries_are_kept_apart() {
    let mut arena: AnyArena<u32> = AnyArena::new();
    let first: Index<u32, String> = arena.insert(1, String::from("first"));
    let second: Index<u32, String> = arena.insert(2, String::from("second"));
    let third: Index<u32, bool> = arena.insert(3, true);

    assert_eq!(arena.remove(second), Some(2));

    let one = arena.get(first).expect("untouched entry stays live");
    assert_eq!(*one.0, 1);
    assert_eq!(one.1, "first");

    let three = arena.get(third).expect("untouched entry stays live");
    assert_eq!(*three.0, 3);
    assert_eq!(*three.1, true);

    assert!(arena.get(second).is_none());
}

struct Apple;

struct Orange;

impl CastFromIndex<Apple> for Orange {}

#[test]
fn unrealizable_edge_observes_nothing() {
    // A declared edge whose target is not the stored concrete type never
    // produces a mismatched read: retrieval under the wrong tag sees nothing.
    let mut arena: AnyArena<u8> = AnyArena::new();
    let apple: Index<u8, Apple> = arena.insert(1, Apple);
    let orange: Index<u8, Orange> = apple.cast();

    assert!(arena.get(orange).is_none());
    let (uniform, _) = arena.get(apple).expect("the true tag still works");
    assert_eq!(*uniform, 1);
}
