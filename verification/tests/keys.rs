use chinchilib::{Key, KeySet, LogicalKey};

fn map(k: LogicalKey) -> Result<Key, ()> {
    Key::try_from(&k)
}

fn text(s: &str) -> LogicalKey {
    LogicalKey::Character(s.to_string())
}

#[test]
fn arrows_map_to_direction_keys() {
    assert_eq!(map(LogicalKey::ArrowLeft), Ok(Key::Left));
    assert_eq!(map(LogicalKey::ArrowRight), Ok(Key::Right));
    assert_eq!(map(LogicalKey::ArrowUp), Ok(Key::Up));
    assert_eq!(map(LogicalKey::ArrowDown), Ok(Key::Down));
}

#[test]
fn letters_map_to_letter_keys() {
    assert_eq!(map(text("q")), Ok(Key::KeyQ));
    assert_eq!(map(text("d")), Ok(Key::KeyD));
    assert_eq!(map(text("z")), Ok(Key::KeyZ));
    assert_eq!(map(text("s")), Ok(Key::KeyS));
    assert_eq!(map(text("a")), Ok(Key::KeyA));
    assert_eq!(map(text("e")), Ok(Key::KeyE));
    assert_eq!(map(text("w")), Ok(Key::KeyW));
    assert_eq!(map(text("x")), Ok(Key::KeyX));
    assert_eq!(map(text("c")), Ok(Key::KeyC));
}

#[test]
fn other_keys_are_refused() {
    assert_eq!(map(text("Q")), Err(()));
    assert_eq!(map(text("qq")), Err(()));
    assert_eq!(map(text("")), Err(()));
    assert_eq!(map(text("b")), Err(()));
    assert_eq!(map(text("é")), Err(()));
    assert_eq!(map(LogicalKey::Escape), Err(()));
    assert_eq!(map(LogicalKey::Space), Err(()));
    assert_eq!(map(LogicalKey::Unrecognized), Err(()));
}

#[test]
fn ordinal_roundtrip() {
    for i in 0..chinchilib::KEY_COUNT {
        assert_eq!(Key::from_ordinal(i).ordinal(), i);
    }
    assert_eq!(Key::KeyA.ordinal(), 0);
    assert_eq!(Key::Right.ordinal(), 12);
}

#[test]
fn key_set_insert_and_contains() {
    let mut s = KeySet::new();
    assert!(!s.contains(&Key::Up));
    s.insert(Key::Up);
    s.insert(Key::KeyA);
    s.insert(Key::Up);
    assert!(s.contains(&Key::Up));
    assert!(s.contains(&Key::KeyA));
    assert!(!s.contains(&Key::Down));
    assert_eq!(s.keys(), vec![Key::KeyA, Key::Up]);
}

#[test]
fn key_set_remove_all_and_clear() {
    let mut s = KeySet::new();
    s.insert(Key::Left);
    s.insert(Key::KeyZ);
    s.insert(Key::KeyC);
    let mut other = KeySet::new();
    other.insert(Key::KeyZ);
    other.insert(Key::Down);
    s.remove_all(&other);
    assert_eq!(s.keys(), vec![Key::KeyC, Key::Left]);
    assert_eq!(other.keys(), vec![Key::KeyZ, Key::Down]);
    s.clear();
    assert!(s.keys().is_empty());
}

#[test]
fn key_set_remove() {
    let mut s = KeySet::new();
    s.insert(Key::KeyW);
    s.insert(Key::KeyX);
    s.remove(&Key::KeyW);
    s.remove(&Key::Down);
    assert_eq!(s.keys(), vec![Key::KeyX]);
}
