use d3_core::input::{move_intent, Key, KeysDown, MoveIntent};

#[test]
fn empty_set_holds_nothing() {
    let keys = KeysDown::new();
    assert!(!keys.contains(Key::KeyW));
    assert!(!keys.contains(Key::Escape));
    assert!(!keys.contains(Key::Other(42)));
}

#[test]
fn insert_and_remove_track_held_keys() {
    let mut keys = KeysDown::new();
    keys.insert(Key::KeyW);
    keys.insert(Key::Other(77));
    assert!(keys.contains(Key::KeyW));
    assert!(keys.contains(Key::Other(77)));
    assert!(!keys.contains(Key::Other(78)));
    keys.remove(Key::KeyW);
    assert!(!keys.contains(Key::KeyW));
    assert!(keys.contains(Key::Other(77)));
}

#[test]
fn repeated_press_and_release_are_idempotent() {
    let mut keys = KeysDown::new();
    keys.insert(Key::KeyA);
    keys.insert(Key::KeyA);
    assert!(keys.contains(Key::KeyA));
    assert_eq!(keys.held.len(), 1);
    keys.remove(Key::KeyA);
    assert!(!keys.contains(Key::KeyA));
    keys.remove(Key::KeyA);
    assert!(!keys.contains(Key::KeyA));
    assert_eq!(keys.held.len(), 0);
}

#[test]
fn removing_an_absent_key_changes_nothing() {
    let mut keys = KeysDown::new();
    keys.insert(Key::Space);
    keys.remove(Key::KeyD);
    assert!(keys.contains(Key::Space));
    assert_eq!(keys.held.len(), 1);
}

#[test]
fn no_keys_means_zero_intent() {
    let keys = KeysDown::new();
    let m = move_intent(&keys);
    assert_eq!(m, MoveIntent { forward: 0, right: 0, up: 0 });
    assert!(m.no_movement());
}

#[test]
fn single_keys_give_unit_intent() {
    let mut keys = KeysDown::new();
    keys.insert(Key::KeyW);
    assert_eq!(move_intent(&keys), MoveIntent { forward: 1, right: 0, up: 0 });
    let mut keys = KeysDown::new();
    keys.insert(Key::KeyS);
    assert_eq!(move_intent(&keys), MoveIntent { forward: -1, right: 0, up: 0 });
    let mut keys = KeysDown::new();
    keys.insert(Key::KeyD);
    assert_eq!(move_intent(&keys), MoveIntent { forward: 0, right: 1, up: 0 });
    let mut keys = KeysDown::new();
    keys.insert(Key::KeyA);
    assert_eq!(move_intent(&keys), MoveIntent { forward: 0, right: -1, up: 0 });
    let mut keys = KeysDown::new();
    keys.insert(Key::Space);
    assert_eq!(move_intent(&keys), MoveIntent { forward: 0, right: 0, up: 1 });
    let mut keys = KeysDown::new();
    keys.insert(Key::ShiftLeft);
    assert_eq!(move_intent(&keys), MoveIntent { forward: 0, right: 0, up: -1 });
}

#[test]
fn opposed_keys_cancel() {
    let mut keys = KeysDown::new();
    keys.insert(Key::KeyW);
    keys.insert(Key::KeyS);
    let m = move_intent(&keys);
    assert!(m.no_movement());

    keys.insert(Key::KeyA);
    keys.insert(Key::KeyD);
    keys.insert(Key::Space);
    keys.insert(Key::ShiftLeft);
    let m = move_intent(&keys);
    assert!(m.no_movement());
}

#[test]
fn diagonal_intent_combines_axes() {
    let mut keys = KeysDown::new();
    keys.insert(Key::KeyW);
    keys.insert(Key::KeyD);
    keys.insert(Key::ShiftLeft);
    assert_eq!(move_intent(&keys), MoveIntent { forward: 1, right: 1, up: -1 });
}

#[test]
fn unrelated_keys_do_not_move() {
    let mut keys = KeysDown::new();
    keys.insert(Key::Other(30));
    keys.insert(Key::Other(31));
    assert!(move_intent(&keys).no_movement());
}
