use zenith::keys::{InputEvent, Key, Keys};

fn no_key_held(keys: &Keys) -> bool {
    Key::listing().into_iter().all(|key| !keys.is_pressed(key))
}

#[test]
fn new_keys_hold_nothing() {
    let keys = Keys::new();
    assert!(no_key_held(&keys));
    assert!(!keys.QUIT);
    assert!(!keys.NUM_1 && !keys.NUM_5 && !keys.NUM_0);
    assert!(keys.all_pressed_str().is_empty());
}

#[test]
fn listing_has_thirty_keys_named_keys_first() {
    let order = Key::listing();
    assert_eq!(order.len(), 30);
    assert_eq!(order[0], Key::Escape);
    assert_eq!(order[1], Key::Space);
    assert_eq!(order[2], Key::LShift);
    assert_eq!(order[3], Key::RShift);
    assert_eq!(order[4], Key::A);
    assert_eq!(order[29], Key::Z);
}

#[test]
fn key_names_are_lower_case() {
    assert_eq!(Key::Escape.name(), "escape");
    assert_eq!(Key::Space.name(), "space");
    assert_eq!(Key::LShift.name(), "lshift");
    assert_eq!(Key::RShift.name(), "rshift");
    assert_eq!(Key::A.name(), "a");
    assert_eq!(Key::Q.name(), "q");
    assert_eq!(Key::Z.name(), "z");
}

#[test]
fn set_key_changes_that_key_only() {
    let mut keys = Keys::new();
    keys.set_key(Key::W, true);
    assert!(keys.W);
    assert!(keys.is_pressed(Key::W));
    for key in Key::listing() {
        assert_eq!(keys.is_pressed(key), key == Key::W);
    }
    keys.set_key(Key::W, false);
    assert_eq!(keys, Keys::new());
}

#[test]
fn each_key_has_its_own_flag() {
    for key in Key::listing() {
        let mut keys = Keys::new();
        keys.set_key(key, true);
        for other in Key::listing() {
            assert_eq!(keys.is_pressed(other), other == key);
        }
        assert_eq!(keys.all_pressed_str(), vec![key.name()]);
        assert!(!keys.QUIT);
    }
}

#[test]
fn key_down_then_up_releases() {
    let mut keys = Keys::new();
    keys.apply(InputEvent::KeyDown(Key::Space));
    assert!(keys.SPACE);
    keys.apply(InputEvent::KeyUp(Key::Space));
    assert!(!keys.SPACE);
    assert_eq!(keys, Keys::new());
}

#[test]
fn quit_event_is_remembered() {
    let mut keys = Keys::new();
    keys.apply(InputEvent::Quit);
    assert!(keys.QUIT);
    keys.apply(InputEvent::KeyUp(Key::A));
    keys.apply(InputEvent::Other);
    assert!(keys.QUIT);
    assert!(no_key_held(&keys));
}

#[test]
fn other_event_changes_nothing() {
    let mut keys = Keys::new();
    keys.set_key(Key::B, true);
    let before = keys;
    keys.apply(InputEvent::Other);
    assert_eq!(keys, before);
}

#[test]
fn batch_is_applied_first_to_last() {
    let mut keys = Keys::new();
    keys.apply_all(&vec![
        InputEvent::KeyDown(Key::A),
        InputEvent::KeyDown(Key::Escape),
        InputEvent::KeyUp(Key::A),
        InputEvent::KeyDown(Key::LShift),
    ]);
    assert!(!keys.A);
    assert!(keys.ESCAPE);
    assert!(keys.LSHIFT);
    let mut other_order = Keys::new();
    other_order.apply_all(&vec![InputEvent::KeyUp(Key::A), InputEvent::KeyDown(Key::A)]);
    assert!(other_order.A);
}

#[test]
fn empty_batch_changes_nothing() {
    let mut keys = Keys::new();
    keys.set_key(Key::Z, true);
    let before = keys;
    keys.apply_all(&Vec::new());
    assert_eq!(keys, before);
}

#[test]
fn pressed_names_come_in_listing_order() {
    let mut keys = Keys::new();
    keys.set_key(Key::Z, true);
    keys.set_key(Key::A, true);
    keys.set_key(Key::RShift, true);
    keys.set_key(Key::Escape, true);
    keys.set_key(Key::M, true);
    assert_eq!(keys.all_pressed_str(), vec!["escape", "rshift", "a", "m", "z"]);
}

#[test]
fn quit_and_digits_are_never_listed() {
    let mut keys = Keys::new();
    keys.QUIT = true;
    keys.NUM_1 = true;
    keys.NUM_0 = true;
    assert!(keys.all_pressed_str().is_empty());
    keys.set_key(Key::Space, true);
    assert_eq!(keys.all_pressed_str(), vec!["space"]);
}

#[test]
fn all_keys_held_lists_all_thirty() {
    let mut keys = Keys::new();
    for key in Key::listing() {
        keys.apply(InputEvent::KeyDown(key));
    }
    let names = keys.all_pressed_str();
    assert_eq!(names.len(), 30);
    assert_eq!(&names[..4], &["escape", "space", "lshift", "rshift"]);
    assert_eq!(names[4], "a");
    assert_eq!(names[29], "z");
}
