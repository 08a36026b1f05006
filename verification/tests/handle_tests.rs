use asset_handle::Handle;
use asset_handle::HandleKey;
use asset_handle::render::to_decimal;
use std::collections::hash_map::DefaultHasher;
use std::hash::Hash;
use std::hash::Hasher;
use std::sync::Arc;

struct Texture;
struct Audio;

#[test]
fn conversions_build_the_expected_variants() {
    let s = String::from("label");
    assert!(HandleKey::from(&s) == HandleKey::String(String::from("label")));
    assert!(HandleKey::from(s) == HandleKey::String(String::from("label")));
    assert!(HandleKey::from("label") == HandleKey::String(String::from("label")));
    assert!(HandleKey::from(3usize) == HandleKey::Number(3));
}

#[test]
fn key_clone_is_equal_to_the_original() {
    let k = HandleKey::String(String::from("abc"));
    assert!(k.clone() == k);
    let n = HandleKey::Number(9);
    assert!(n.clone() == n);
    let t = HandleKey::Str("abc");
    assert!(t.clone() == t);
}

#[test]
fn dynamic_handles_with_equal_keys_are_equal() {
    let a: Handle<Texture> = Handle::new("a");
    let b: Handle<Texture> = Handle::new(String::from("a"));
    assert!(a == b);
    assert_eq!(a.live_strength(), Some(1));
    assert_eq!(b.live_strength(), Some(1));
}

#[test]
fn equal_handles_hash_equally() {
    let a: Handle<Texture> = Handle::new(5usize);
    let b: Handle<Texture> = Handle::new(5usize);
    assert!(a == b);
    let mut h1 = DefaultHasher::new();
    a.hash(&mut h1);
    let mut h2 = DefaultHasher::new();
    b.hash(&mut h2);
    assert_eq!(h1.finish(), h2.finish());
    assert_eq!(a.hash_value(), b.hash_value());
}

#[test]
fn hash_ignores_the_counter() {
    let a: Handle<Texture> = Handle::new(String::from("x"));
    let b: Handle<Texture> = Handle::from_static("y");
    let c = a.clone();
    assert_eq!(a.hash_value(), c.hash_value());
    assert_eq!(b.hash_value(), b.clone().hash_value());
}

#[test]
fn static_and_owned_labels_with_equal_text_differ() {
    let s: Handle<Texture> = Handle::from_static("x");
    let d: Handle<Texture> = Handle::new("x");
    assert!(s != d);
    assert!(HandleKey::Str("x") != HandleKey::String(String::from("x")));
}

#[test]
fn unequal_payloads_give_unequal_keys() {
    assert!(HandleKey::Str("a") != HandleKey::Str("b"));
    assert!(HandleKey::Str("a") == HandleKey::Str("a"));
    assert!(HandleKey::Number(1) != HandleKey::Number(2));
    assert!(HandleKey::String(String::from("a")) != HandleKey::String(String::from("b")));
}

#[test]
fn static_handles_carry_no_counter() {
    let s: Handle<Texture> = Handle::from_static("fixed");
    assert!(s.count.is_none());
    assert_eq!(s.live_strength(), None);
    let c = s.clone();
    assert!(c.count.is_none());
}

#[test]
fn dynamic_handles_start_with_strength_one() {
    let d: Handle<Texture> = Handle::new("fresh");
    assert!(d.count.is_some());
    assert_eq!(d.live_strength(), Some(1));
    assert_eq!(Arc::strong_count(d.count.as_ref().unwrap()), 1);
}

#[test]
fn clones_share_one_counter() {
    let h1: Handle<Texture> = Handle::new("a");
    let h2 = h1.clone();
    let h3 = h2.clone();
    assert_eq!(h1.live_strength(), Some(3));
    assert_eq!(h2.live_strength(), Some(3));
    assert_eq!(h3.live_strength(), Some(3));
    drop(h2);
    drop(h3);
    assert_eq!(h1.live_strength(), Some(1));
}

#[test]
fn numeric_keys_match_a_directly_built_index() {
    let h: Handle<Texture> = Handle::new(42usize);
    assert!(h.key == HandleKey::Number(42));
}

#[test]
fn handles_of_each_category_work_from_the_same_input() {
    let a: Handle<Texture> = Handle::new("x");
    let b: Handle<Audio> = Handle::new("x");
    assert!(a == a.clone());
    assert!(b == b.clone());
}

#[test]
fn decimal_rendering_is_exact() {
    assert_eq!(to_decimal(0), "0");
    assert_eq!(to_decimal(7), "7");
    assert_eq!(to_decimal(10), "10");
    assert_eq!(to_decimal(90210), "90210");
    assert_eq!(to_decimal(usize::MAX), usize::MAX.to_string());
}

#[test]
fn key_rendering_is_exact() {
    assert_eq!(HandleKey::Str("x").render(), "Str(\"x\")");
    assert_eq!(HandleKey::String(String::from("abc")).render(), "String(\"abc\")");
    assert_eq!(HandleKey::Number(5).render(), "Number(5)");
}

#[test]
fn describe_shows_key_and_tracking() {
    let s: Handle<Texture> = Handle::from_static("x");
    assert_eq!(s.describe(), "Handle { key: Str(\"x\"), no tracking }");
    let d: Handle<Texture> = Handle::new(407usize);
    assert_eq!(d.describe(), "Handle { key: Number(407), references: 1 }");
    let t = d.clone();
    assert_eq!(t.describe(), "Handle { key: Number(407), references: 2 }");
    let o: Handle<Texture> = Handle::new(String::from("abc"));
    assert_eq!(o.describe(), "Handle { key: String(\"abc\"), references: 1 }");
}

#[test]
fn handles_serve_as_map_keys() {
    let mut table: std::collections::HashMap<Handle<Texture>, u32> = std::collections::HashMap::new();
    table.insert(Handle::new(1usize), 10);
    table.insert(Handle::new("one"), 11);
    table.insert(Handle::from_static("one"), 12);
    assert_eq!(table.len(), 3);
    assert_eq!(table.get(&Handle::new(1usize)), Some(&10));
    assert_eq!(table.get(&Handle::new(String::from("one"))), Some(&11));
    assert_eq!(table.get(&Handle::from_static("one")), Some(&12));
}

#[test]
fn dynamic_text_handles_with_equal_text_are_equal() {
    let a: Handle<Texture> = Handle::new("x");
    let b: Handle<Texture> = Handle::new("x");
    assert!(a == b);
    assert_eq!(a.hash_value(), b.hash_value());
}
