use super_editor::cursor::CursorController;
use super_editor::editor::Editor;
use super_editor::keys::Key;
use super_editor::keys::KeyCode;
use super_editor::keys::KeyMod;

fn plain(code: KeyCode) -> Option<Key> {
    Some(Key { code, mods: KeyMod::Plain })
}

#[test]
fn new_cursor_starts_at_origin() {
    let c = CursorController::new((20, 10));
    assert_eq!(c.cursor_x, 0);
    assert_eq!(c.cursor_y, 0);
    assert_eq!(c.screen_columns, 20);
    assert_eq!(c.screen_rows, 10);
}

#[test]
fn directional_moves_stay_in_bounds() {
    let mut c = CursorController::new((4, 3));
    for code in [
        KeyCode::Up,
        KeyCode::Down,
        KeyCode::Left,
        KeyCode::Right,
        KeyCode::Down,
        KeyCode::Down,
        KeyCode::Down,
        KeyCode::Right,
        KeyCode::Right,
        KeyCode::Right,
        KeyCode::Right,
    ] {
        c.move_cursor(code);
        assert!(c.cursor_x < 4);
        assert!(c.cursor_y < 3);
    }
}

#[test]
fn simple_moves_step_by_one() {
    let mut c = CursorController::new((20, 10));
    c.move_cursor(KeyCode::Right);
    c.move_cursor(KeyCode::Right);
    c.move_cursor(KeyCode::Down);
    assert_eq!((c.cursor_x, c.cursor_y), (2, 1));
    c.move_cursor(KeyCode::Left);
    c.move_cursor(KeyCode::Up);
    assert_eq!((c.cursor_x, c.cursor_y), (1, 0));
}

#[test]
fn left_at_first_column_is_noop() {
    let mut c = CursorController::new((20, 10));
    c.move_cursor(KeyCode::Left);
    assert_eq!((c.cursor_x, c.cursor_y), (0, 0));
}

#[test]
fn up_at_first_row_is_noop() {
    let mut c = CursorController::new((20, 10));
    c.move_cursor(KeyCode::Up);
    assert_eq!((c.cursor_x, c.cursor_y), (0, 0));
}

#[test]
fn right_at_last_column_is_noop() {
    let mut c = CursorController::new((20, 10));
    c.move_cursor(KeyCode::End);
    assert_eq!(c.cursor_x, 19);
    c.move_cursor(KeyCode::Right);
    assert_eq!(c.cursor_x, 19);
}

#[test]
fn down_at_last_row_is_noop() {
    let mut c = CursorController::new((20, 2));
    c.move_cursor(KeyCode::Down);
    assert_eq!(c.cursor_y, 1);
    c.move_cursor(KeyCode::Down);
    assert_eq!(c.cursor_y, 1);
}

#[test]
fn home_and_end_jump_to_extremes() {
    let mut c = CursorController::new((80, 24));
    c.move_cursor(KeyCode::Right);
    c.move_cursor(KeyCode::Right);
    c.move_cursor(KeyCode::Right);
    c.move_cursor(KeyCode::End);
    assert_eq!(c.cursor_x, 79);
    c.move_cursor(KeyCode::Home);
    assert_eq!(c.cursor_x, 0);
    c.move_cursor(KeyCode::End);
    assert_eq!(c.cursor_x, 79);
}

#[test]
fn page_down_drives_to_last_row() {
    let mut editor = Editor::new((20, 10));
    assert!(editor.process_keypress(plain(KeyCode::PageDown)));
    assert_eq!(editor.output.cursor_controller.cursor_y, 9);
    assert_eq!(editor.output.cursor_controller.cursor_x, 0);
}

#[test]
fn page_up_drives_to_first_row() {
    let mut editor = Editor::new((20, 10));
    assert!(editor.process_keypress(plain(KeyCode::Down)));
    assert!(editor.process_keypress(plain(KeyCode::Down)));
    assert!(editor.process_keypress(plain(KeyCode::Down)));
    assert!(editor.process_keypress(plain(KeyCode::PageUp)));
    assert_eq!(editor.output.cursor_controller.cursor_y, 0);
}

#[test]
fn key_sequence_reaches_bottom_right_corner() {
    let mut editor = Editor::new((20, 10));
    for code in [
        KeyCode::Right,
        KeyCode::Right,
        KeyCode::Down,
        KeyCode::End,
        KeyCode::PageDown,
    ] {
        assert!(editor.process_keypress(plain(code)));
    }
    assert_eq!(editor.output.cursor_controller.cursor_x, 19);
    assert_eq!(editor.output.cursor_controller.cursor_y, 9);
}

#[test]
fn control_q_stops_without_rendering() {
    let mut editor = Editor::new((20, 10));
    editor.output.compose_frame();
    let frame = editor.output.editor_contents.content.clone();
    assert!(!frame.is_empty());
    let quit = Some(Key { code: KeyCode::Char('q'), mods: KeyMod::Control });
    let running = editor.process_keypress(quit);
    assert!(!running);
    assert_eq!(editor.output.editor_contents.content, frame);
    assert_eq!(editor.output.cursor_controller.cursor_x, 0);
    assert_eq!(editor.output.cursor_controller.cursor_y, 0);
}

#[test]
fn poll_timeout_keeps_state_and_continues() {
    let mut editor = Editor::new((20, 10));
    assert!(editor.process_keypress(plain(KeyCode::Right)));
    let running = editor.process_keypress(None);
    assert!(running);
    assert_eq!(editor.output.cursor_controller.cursor_x, 1);
    assert_eq!(editor.output.cursor_controller.cursor_y, 0);
    assert!(editor.output.editor_contents.content.is_empty());
}

#[test]
fn other_keys_are_ignored() {
    let mut editor = Editor::new((20, 10));
    assert!(editor.process_keypress(Some(Key { code: KeyCode::Char('a'), mods: KeyMod::Plain })));
    assert!(editor.process_keypress(Some(Key { code: KeyCode::Char('x'), mods: KeyMod::Control })));
    assert!(editor.process_keypress(Some(Key { code: KeyCode::Right, mods: KeyMod::Control })));
    assert!(editor.process_keypress(Some(Key { code: KeyCode::Other, mods: KeyMod::Plain })));
    assert_eq!(editor.output.cursor_controller.cursor_x, 0);
    assert_eq!(editor.output.cursor_controller.cursor_y, 0);
}
