use calculator::input::{
    key_index, InputEvent, InputSnapshot, LogicalKey, ModifierKey, PointerButton, KEY_COUNT,
};

#[test]
fn key_table_matches_the_fixed_layout() {
    assert_eq!(key_index(&LogicalKey::Tab), 0);
    assert_eq!(key_index(&LogicalKey::LeftArrow), 1);
    assert_eq!(key_index(&LogicalKey::RightArrow), 2);
    assert_eq!(key_index(&LogicalKey::UpArrow), 3);
    assert_eq!(key_index(&LogicalKey::DownArrow), 4);
    assert_eq!(key_index(&LogicalKey::PageUp), 5);
    assert_eq!(key_index(&LogicalKey::PageDown), 6);
    assert_eq!(key_index(&LogicalKey::Home), 7);
    assert_eq!(key_index(&LogicalKey::End), 8);
    assert_eq!(key_index(&LogicalKey::Delete), 9);
    assert_eq!(key_index(&LogicalKey::Backspace), 10);
    assert_eq!(key_index(&LogicalKey::Enter), 11);
    assert_eq!(key_index(&LogicalKey::Escape), 12);
    assert_eq!(key_index(&LogicalKey::A), 13);
    assert_eq!(key_index(&LogicalKey::C), 14);
    assert_eq!(key_index(&LogicalKey::V), 15);
    assert_eq!(key_index(&LogicalKey::X), 16);
    assert_eq!(key_index(&LogicalKey::Y), 17);
    assert_eq!(key_index(&LogicalKey::Z), 18);
}

#[test]
fn fresh_snapshot_has_nothing_pressed() {
    let snapshot = InputSnapshot::new();
    assert_eq!(snapshot.cursor_x, 0);
    assert_eq!(snapshot.cursor_y, 0);
    assert!(!snapshot.left_pressed);
    assert!(!snapshot.right_pressed);
    assert!(!snapshot.middle_pressed);
    assert_eq!(snapshot.keys_down.len(), KEY_COUNT);
    assert!(snapshot.keys_down.iter().all(|k| !k));
    assert!(!snapshot.ctrl);
    assert!(!snapshot.shift);
    assert!(!snapshot.alt);
    assert!(!snapshot.super_key);
    assert!(!snapshot.close_requested);
}

#[test]
fn cursor_event_updates_only_the_position() {
    let mut snapshot = InputSnapshot::new();
    snapshot.apply_event(&InputEvent::CursorMoved { x: 42, y: -7 });
    assert_eq!(snapshot.cursor_x, 42);
    assert_eq!(snapshot.cursor_y, -7);
    assert!(!snapshot.left_pressed);
    assert!(!snapshot.close_requested);
}

#[test]
fn pointer_events_track_each_button() {
    let mut snapshot = InputSnapshot::new();
    snapshot.apply_event(&InputEvent::Pointer { button: PointerButton::Left, pressed: true });
    snapshot.apply_event(&InputEvent::Pointer { button: PointerButton::Middle, pressed: true });
    assert!(snapshot.left_pressed);
    assert!(!snapshot.right_pressed);
    assert!(snapshot.middle_pressed);
    snapshot.apply_event(&InputEvent::Pointer { button: PointerButton::Left, pressed: false });
    assert!(!snapshot.left_pressed);
    assert!(snapshot.middle_pressed);
}

#[test]
fn key_events_set_the_table_slot() {
    let mut snapshot = InputSnapshot::new();
    snapshot.apply_event(&InputEvent::Key { key: LogicalKey::Enter, pressed: true });
    assert!(snapshot.keys_down[11]);
    assert!(!snapshot.keys_down[0]);
    snapshot.apply_event(&InputEvent::Key { key: LogicalKey::Enter, pressed: false });
    assert!(!snapshot.keys_down[11]);
}

#[test]
fn modifier_events_track_each_flag() {
    let mut snapshot = InputSnapshot::new();
    snapshot.apply_event(&InputEvent::Modifier { key: ModifierKey::Ctrl, pressed: true });
    snapshot.apply_event(&InputEvent::Modifier { key: ModifierKey::Super, pressed: true });
    assert!(snapshot.ctrl);
    assert!(!snapshot.shift);
    assert!(!snapshot.alt);
    assert!(snapshot.super_key);
    snapshot.apply_event(&InputEvent::Modifier { key: ModifierKey::Ctrl, pressed: false });
    assert!(!snapshot.ctrl);
}

#[test]
fn a_frame_of_events_is_folded_in_arrival_order() {
    let mut snapshot = InputSnapshot::new();
    let events = vec![
        InputEvent::CursorMoved { x: 5, y: 6 },
        InputEvent::Pointer { button: PointerButton::Left, pressed: true },
        InputEvent::CursorMoved { x: 9, y: 9 },
        InputEvent::CloseRequested,
    ];
    snapshot.apply_events(&events);
    assert_eq!(snapshot.cursor_x, 9);
    assert_eq!(snapshot.cursor_y, 9);
    assert!(snapshot.left_pressed);
    assert!(snapshot.close_requested);
}
