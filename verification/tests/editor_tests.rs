use hecto::editor::{Editor, Key, Position, Size};

fn view() -> Size {
    Size { width: 80, height: 24 }
}

#[test]
fn default_state_is_running_at_origin() {
    let e = Editor::default();
    assert!(!e.should_quit);
    assert_eq!(e.cursor_position, Position { x: 0, y: 0 });
}

#[test]
fn up_saturates_at_top_row() {
    let mut e = Editor::default();
    e.move_cursor(Key::Right, view());
    e.move_cursor(Key::Up, view());
    assert_eq!(e.cursor_position, Position { x: 1, y: 0 });
}

#[test]
fn left_saturates_at_first_column() {
    let mut e = Editor::default();
    e.move_cursor(Key::Down, view());
    e.move_cursor(Key::Left, view());
    assert_eq!(e.cursor_position, Position { x: 0, y: 1 });
}

#[test]
fn down_saturates_at_last_row() {
    let mut e = Editor::default();
    e.move_cursor(Key::PageDown, view());
    assert_eq!(e.cursor_position.y, 23);
    e.move_cursor(Key::Down, view());
    assert_eq!(e.cursor_position, Position { x: 0, y: 23 });
}

#[test]
fn right_saturates_at_last_column() {
    let mut e = Editor::default();
    e.move_cursor(Key::End, view());
    assert_eq!(e.cursor_position.x, 79);
    e.move_cursor(Key::Right, view());
    assert_eq!(e.cursor_position, Position { x: 79, y: 0 });
}

#[test]
fn page_up_and_page_down_jump_to_edges_and_are_idempotent() {
    let mut e = Editor::default();
    e.move_cursor(Key::Down, view());
    e.move_cursor(Key::Down, view());
    e.move_cursor(Key::PageDown, view());
    assert_eq!(e.cursor_position.y, 23);
    e.move_cursor(Key::PageDown, view());
    assert_eq!(e.cursor_position.y, 23);
    e.move_cursor(Key::PageUp, view());
    assert_eq!(e.cursor_position.y, 0);
    e.move_cursor(Key::PageUp, view());
    assert_eq!(e.cursor_position.y, 0);
}

#[test]
fn home_and_end_jump_to_edges_and_are_idempotent() {
    let mut e = Editor::default();
    e.move_cursor(Key::Right, view());
    e.move_cursor(Key::End, view());
    assert_eq!(e.cursor_position.x, 79);
    e.move_cursor(Key::End, view());
    assert_eq!(e.cursor_position.x, 79);
    e.move_cursor(Key::Home, view());
    assert_eq!(e.cursor_position.x, 0);
    e.move_cursor(Key::Home, view());
    assert_eq!(e.cursor_position.x, 0);
}

#[test]
fn other_keys_change_nothing() {
    let mut e = Editor::default();
    e.process_keypress(Key::Right, view());
    let before = e;
    e.process_keypress(Key::Char('x'), view());
    assert_eq!(e, before);
    e.process_keypress(Key::Ctrl('a'), view());
    assert_eq!(e, before);
    e.process_keypress(Key::Other, view());
    assert_eq!(e, before);
}

#[test]
fn quit_key_raises_the_flag_and_keeps_the_cursor() {
    let mut e = Editor::default();
    e.process_keypress(Key::Right, view());
    assert!(!e.should_quit);
    e.process_keypress(Key::Ctrl('q'), view());
    assert!(e.should_quit);
    assert_eq!(e.cursor_position, Position { x: 1, y: 0 });
    e.process_keypress(Key::Ctrl('q'), view());
    assert!(e.should_quit);
}

#[test]
fn navigation_keeps_the_quit_flag() {
    let mut e = Editor::default();
    e.process_keypress(Key::Down, view());
    assert!(!e.should_quit);
    e.process_keypress(Key::Ctrl('q'), view());
    e.process_keypress(Key::Down, view());
    assert!(e.should_quit);
}

#[test]
fn zero_sized_viewport_pins_the_cursor_at_origin() {
    let zero = Size { width: 0, height: 0 };
    let mut e = Editor::default();
    e.move_cursor(Key::Down, zero);
    e.move_cursor(Key::Right, zero);
    e.move_cursor(Key::PageDown, zero);
    e.move_cursor(Key::End, zero);
    assert_eq!(e.cursor_position, Position { x: 0, y: 0 });
    e.move_cursor(Key::Up, zero);
    e.move_cursor(Key::Left, zero);
    assert_eq!(e.cursor_position, Position { x: 0, y: 0 });
}

#[test]
fn full_session_scenario() {
    let mut e = Editor::default();
    assert_eq!(e.cursor_position, Position { x: 0, y: 0 });
    for _ in 0u32..5 {
        e.process_keypress(Key::Right, view());
    }
    assert_eq!(e.cursor_position, Position { x: 5, y: 0 });
    e.process_keypress(Key::PageDown, view());
    assert_eq!(e.cursor_position, Position { x: 5, y: 23 });
    e.process_keypress(Key::Home, view());
    assert_eq!(e.cursor_position, Position { x: 0, y: 23 });
    for _ in 0u32..30 {
        e.process_keypress(Key::Up, view());
    }
    assert_eq!(e.cursor_position, Position { x: 0, y: 0 });
    assert!(!e.should_quit);
    e.process_keypress(Key::Ctrl('q'), view());
    assert!(e.should_quit);
}

#[test]
fn down_and_right_clamp_a_stale_cursor_after_a_resize() {
    let mut e = Editor::default();
    e.move_cursor(Key::End, view());
    e.move_cursor(Key::PageDown, view());
    assert_eq!(e.cursor_position, Position { x: 79, y: 23 });
    let shrunk = Size { width: 40, height: 10 };
    e.move_cursor(Key::Down, shrunk);
    assert_eq!(e.cursor_position, Position { x: 79, y: 9 });
    e.move_cursor(Key::Right, shrunk);
    assert_eq!(e.cursor_position, Position { x: 39, y: 9 });
}
