use refer::cursor::{Files, KeyboardCursor, View};

#[test]
fn cursor_starts_on_text_view() {
    let cursor = KeyboardCursor::new();
    assert!(cursor.cursor_at::<View>());
    assert!(!cursor.cursor_at::<Files>());
    let cursor = KeyboardCursor::default();
    assert!(cursor.cursor_at::<View>());
}

#[test]
fn set_cursor_moves_focus() {
    let mut cursor = KeyboardCursor::new();
    cursor.set_cursor::<Files>();
    assert!(cursor.cursor_at::<Files>());
    assert!(!cursor.cursor_at::<View>());
    cursor.set_cursor::<View>();
    assert!(cursor.cursor_at::<View>());
}

#[test]
fn toggle_suspends_and_restores_focus() {
    let mut cursor = KeyboardCursor::new();
    cursor.set_cursor::<Files>();
    cursor.toggle();
    assert!(!cursor.cursor_at::<Files>());
    assert!(!cursor.cursor_at::<View>());
    cursor.set_cursor::<View>();
    assert!(!cursor.cursor_at::<View>());
    cursor.toggle();
    assert!(cursor.cursor_at::<Files>());
    assert!(!cursor.cursor_at::<View>());
}
