use cell_front::{StringId, StringInterner};

#[test]
fn interning_twice_gives_the_same_key() {
    let mut interner = StringInterner::new();
    let a = interner.get_or_intern("hello");
    let b = interner.get_or_intern("hello");
    assert_eq!(a, b);
}

#[test]
fn distinct_strings_get_distinct_keys() {
    let mut interner = StringInterner::new();
    let a = interner.get_or_intern("hello");
    let b = interner.get_or_intern("world");
    assert_ne!(a, b);
}

#[test]
fn resolve_round_trips() {
    let mut interner = StringInterner::new();
    let hello = interner.get_or_intern("hello");
    let world = interner.get_or_intern("world");
    let empty = interner.get_or_intern("");
    assert_eq!(interner.resolve(&hello), "hello");
    assert_eq!(interner.resolve(&world), "world");
    assert_eq!(interner.resolve(&empty), "");
}

#[test]
fn try_resolve_round_trips() {
    let mut interner = StringInterner::new();
    let id = interner.get_or_intern("abc");
    assert_eq!(interner.try_resolve(&id), Some("abc"));
}

#[test]
fn try_resolve_of_a_foreign_key_is_none() {
    let mut one = StringInterner::new();
    let mut other = StringInterner::new();
    let _ = other.get_or_intern("a");
    let _ = other.get_or_intern("b");
    let foreign: StringId = other.get_or_intern("c");
    let _ = one.get_or_intern("a");
    assert_eq!(one.try_resolve(&foreign), None);
}

#[test]
fn keys_are_stable_across_later_interning() {
    let mut interner = StringInterner::new();
    let first = interner.get_or_intern("first");
    for word in ["second", "third", "fourth"] {
        let _ = interner.get_or_intern(word);
    }
    assert_eq!(interner.get_or_intern("first"), first);
    assert_eq!(interner.resolve(&first), "first");
}
