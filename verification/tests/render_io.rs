use super_editor::buffer::EditorContents;
use super_editor::errors::EditorError;
use super_editor::keys::KeyCode;
use super_editor::output::Output;
use super_editor::session::accept_size;

const BANNER: &str = "Super Editor --- Version 0.0.1";

#[test]
fn new_buffer_is_empty() {
    let contents = EditorContents::new();
    assert!(contents.content.is_empty());
}

#[test]
fn push_and_push_str_accumulate_in_order() {
    let mut contents = EditorContents::new();
    contents.push('~');
    contents.push_str("abc");
    contents.push('!');
    assert_eq!(contents.content, "~abc!");
}

#[test]
fn write_appends_valid_text_and_reports_byte_count() {
    let mut contents = EditorContents::new();
    let r = contents.write(b"hello");
    assert_eq!(r, Ok(5));
    assert_eq!(contents.content, "hello");
    let r = contents.write("\u{e9}".as_bytes());
    assert_eq!(r, Ok(2));
    assert_eq!(contents.content, "hello\u{e9}");
}

#[test]
fn write_rejects_malformed_bytes() {
    let mut contents = EditorContents::new();
    contents.push_str("keep");
    let r = contents.write(&[0xff, 0xfe, 0x41]);
    assert_eq!(r, Err(EditorError::Encoding));
    assert_eq!(contents.content, "keep");
}

#[test]
fn flush_writes_once_and_empties_the_buffer() {
    let mut contents = EditorContents::new();
    contents.push_str("one frame of output\r\n");
    let r = contents.flush();
    assert_eq!(r, Ok(()));
    assert!(contents.content.is_empty());
}

#[test]
fn banner_row_is_centered_at_80_columns() {
    let mut output = Output::new((80, 10));
    output.draw_rows();
    let expected = format!("~{}{}", " ".repeat(24), BANNER);
    assert!(output.editor_contents.content.contains(&expected));
}

#[test]
fn banner_is_truncated_on_a_narrow_screen() {
    let mut output = Output::new((10, 10));
    output.draw_rows();
    let rows: Vec<&str> = output.editor_contents.content.split("\r\n").collect();
    assert_eq!(rows.len(), 10);
    // row 3 is the vertical-centre row of a 10-row screen
    assert_eq!(rows[3], "Super Edit\u{1b}[K");
    assert_eq!(rows[0], "~\u{1b}[K");
}

#[test]
fn every_row_ends_with_a_clear_line_control() {
    let mut output = Output::new((12, 4));
    output.draw_rows();
    let rows: Vec<&str> = output.editor_contents.content.split("\r\n").collect();
    assert_eq!(rows.len(), 4);
    for row in rows {
        assert!(row.ends_with("\u{1b}[K"));
    }
}

#[test]
fn plain_rows_are_tilde_markers() {
    let mut output = Output::new((40, 6));
    output.draw_rows();
    let rows: Vec<&str> = output.editor_contents.content.split("\r\n").collect();
    assert_eq!(rows.len(), 6);
    for (i, row) in rows.iter().enumerate() {
        if i != 2 {
            assert_eq!(*row, "~\u{1b}[K");
        } else {
            assert!(row.starts_with('~'));
            assert!(row.contains(BANNER));
        }
    }
}

#[test]
fn composed_frame_hides_draws_and_shows_the_cursor() {
    let mut output = Output::new((20, 5));
    output.move_cursor(KeyCode::Right);
    output.move_cursor(KeyCode::Down);
    output.compose_frame();
    let content = &output.editor_contents.content;
    assert!(content.starts_with("\u{1b}[?25l"));
    assert!(content.ends_with("\u{1b}[?25h"));
    // move to the origin first, then back onto the cursor at (1, 1)
    assert!(content.contains("\u{1b}[1;1H"));
    assert!(content.contains("\u{1b}[2;2H"));
}

#[test]
fn refresh_screen_leaves_an_empty_buffer_and_the_cursor_in_place() {
    let mut output = Output::new((20, 5));
    output.move_cursor(KeyCode::Right);
    let r = output.refresh_screen();
    assert_eq!(r, Ok(()));
    assert!(output.editor_contents.content.is_empty());
    assert_eq!(output.cursor_controller.cursor_x, 1);
    assert_eq!(output.cursor_controller.cursor_y, 0);
}

#[test]
fn composed_frame_positions_two_digit_coordinates() {
    let mut output = Output::new((40, 12));
    output.move_cursor(KeyCode::End);
    for _ in 0..11 {
        output.move_cursor(KeyCode::Down);
    }
    assert_eq!(output.cursor_controller.cursor_x, 39);
    assert_eq!(output.cursor_controller.cursor_y, 11);
    output.compose_frame();
    // the cursor at (39, 11) is addressed one-based as row 12, column 40
    assert!(output.editor_contents.content.ends_with("\u{1b}[12;40H\u{1b}[?25h"));
}

#[test]
fn usable_sizes_are_accepted_as_reported() {
    assert_eq!(accept_size((80, 24)), Ok((80, 24)));
    assert_eq!(accept_size((1, 1)), Ok((1, 1)));
    assert_eq!(accept_size((0xFFFF, 0xFFFF)), Ok((0xFFFF, 0xFFFF)));
}

#[test]
fn degenerate_sizes_are_rejected() {
    assert_eq!(accept_size((0, 24)), Err(EditorError::Terminal));
    assert_eq!(accept_size((80, 0)), Err(EditorError::Terminal));
    assert_eq!(accept_size((0, 0)), Err(EditorError::Terminal));
}

#[test]
fn clear_screen_reports_success() {
    assert_eq!(Output::clear_screen(), Ok(()));
}

#[test]
fn move_cursor_on_output_leaves_the_frame_alone() {
    let mut output = Output::new((20, 5));
    output.draw_rows();
    let before = output.editor_contents.content.clone();
    output.move_cursor(KeyCode::Down);
    assert_eq!(output.editor_contents.content, before);
    assert_eq!(output.cursor_controller.cursor_y, 1);
}
