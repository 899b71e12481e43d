use vstd::prelude::*;
use vstd::string::StrSliceExecFns;

use crate::ansi;
use crate::buffer::EditorContents;
use crate::buffer::stdout_flush;
use crate::buffer::stdout_write;
use crate::cursor::CursorController;
use crate::cursor::valid_size;
use crate::errors::EditorError;
use crate::keys::KeyCode;

verus! {

/// The banner line: the editor's name and version placeholder.
pub open spec fn banner_text() -> Seq<char> {
    "Super Editor --- Version 0.0.1"@
}

/// The banner truncated to the screen width when it does not fit.
pub open spec fn banner_trunc(columns: int) -> Seq<char> {
    if banner_text().len() > columns {
        banner_text().take(columns)
    } else {
        banner_text()
    }
}

/// `n` spaces.
pub open spec fn spaces(n: int) -> Seq<char>
    decreases n,
{
    if n <= 0 {
        Seq::empty()
    } else {
        spaces(n - 1).push(' ')
    }
}

/// The visible text of the banner row: a `~` marker, then the left padding
/// that centres the banner, then the banner itself; when no padding fits,
/// the banner alone.
pub open spec fn banner_row(columns: int) -> Seq<char> {
    let text = banner_trunc(columns);
    let padding = (columns - text.len() as int) / 2;
    if padding != 0 {
        seq!['~'] + spaces(padding - 1) + text
    } else {
        text
    }
}

/// The visible text of row `i`: the banner on the vertical-centre row, a
/// bare `~` marker everywhere else.
pub open spec fn row_text(i: int, rows: int, columns: int) -> Seq<char> {
    if i == rows / 3 {
        banner_row(columns)
    } else {
        seq!['~']
    }
}

/// Everything row `i` contributes to the frame: its text, a clear-to-end-of-
/// line control to erase stale content, and — on every row but the last —
/// the carriage-return/line-feed pair that raw mode demands.
pub open spec fn row_seq(i: int, rows: int, columns: int) -> Seq<char> {
    row_text(i, rows, columns) + ansi::clear_line_seq() + if i < rows - 1 {
        seq!['\r', '\n']
    } else {
        Seq::empty()
    }
}

/// The first `n` rows of the frame, in order.
pub open spec fn rows_seq(n: int, rows: int, columns: int) -> Seq<char>
    decreases n,
{
    if n <= 0 {
        Seq::empty()
    } else {
        rows_seq(n - 1, rows, columns) + row_seq(n - 1, rows, columns)
    }
}

/// One whole frame: hide the cursor, go to the origin, draw every row, put
/// the cursor back on its position, show it again.
pub open spec fn frame_seq(cursor_x: u16, cursor_y: u16, columns: int, rows: int) -> Seq<char> {
    ansi::hide_cursor_seq() + ansi::move_to_seq(0, 0) + rows_seq(rows, rows, columns)
        + ansi::move_to_seq(cursor_x, cursor_y) + ansi::show_cursor_seq()
}

/// Queues the banner row's text into the frame buffer.
#[verifier::loop_isolation(false)]
fn draw_banner_row(contents: &mut EditorContents, columns: usize)
    requires
        1 <= columns <= 0xFFFF,
    ensures
        final(contents).content@ == old(contents).content@ + banner_row(columns as int),
{
    let banner: &str = "Super Editor --- Version 0.0.1";
    proof {
        reveal_strlit("Super Editor --- Version 0.0.1");
        assert(banner@ == banner_text());
        assert(banner@.len() == 30);
    }
    let blen: usize = banner.unicode_len();
    let text: &str = if blen > columns {
        banner.substring_char(0, columns)
    } else {
        banner
    };
    let tlen: usize = if blen > columns {
        columns
    } else {
        blen
    };
    proof {
        assert(text@ =~= banner_trunc(columns as int));
        assert(tlen == text@.len());
    }
    let ghost base = contents.content@;
    let pad_total: usize = (columns - tlen) / 2;
    let ghost head: Seq<char> = if pad_total != 0 {
        seq!['~']
    } else {
        Seq::<char>::empty()
    };
    let mut padding: usize = pad_total;
    if padding != 0 {
        contents.push('~');
        padding = padding - 1;
    }
    proof {
        assert(contents.content@ =~= base + head + spaces(0));
    }
    let mut j: usize = 0;
    while j < padding
        invariant
            j <= padding,
            contents.content@ == base + head + spaces(j as int),
        decreases padding - j,
    {
        contents.push(' ');
        proof {
            assert(contents.content@ =~= base + head + spaces(j as int + 1));
        }
        j = j + 1;
    }
    contents.push_str(text);
    proof {
        assert(contents.content@ =~= base + banner_row(columns as int));
    }
}

/// The screen compositor: the frame buffer, the cursor model, and the screen
/// size they share.
pub struct Output {
    pub win_size: (usize, usize),
    pub editor_contents: EditorContents,
    pub cursor_controller: CursorController,
}

impl Output {
    /// Well-formedness: the size is usable and the cursor model carries the
    /// same bounds and sits within them.
    pub open spec fn wf(self) -> bool {
        &&& valid_size(self.win_size.0 as int, self.win_size.1 as int)
        &&& self.cursor_controller.wf()
        &&& self.cursor_controller.screen_columns == self.win_size.0
        &&& self.cursor_controller.screen_rows == self.win_size.1
    }

    pub fn new(win_size: (usize, usize)) -> (r: Output)
        requires
            valid_size(win_size.0 as int, win_size.1 as int),
        ensures
            r.wf(),
            r.win_size == win_size,
            r.editor_contents.content@ == Seq::<char>::empty(),
            r.cursor_controller.cursor_x == 0,
            r.cursor_controller.cursor_y == 0,
    {
        Output {
            win_size,
            editor_contents: EditorContents::new(),
            cursor_controller: CursorController::new(win_size),
        }
    }

    /// Clears the whole screen and homes the cursor: the final write that
    /// leaves the user's shell in a clean state at teardown.
    pub fn clear_screen() -> (r: Result<(), EditorError>)
        ensures
            (match r {
                Ok(u) => u == (),
                Err(e) => e == EditorError::Io,
            }),
    {
        let mut s = ansi::clear_all_ansi();
        let home = ansi::move_to_ansi(0, 0);
        s.append(home.as_str());
        match stdout_write(&s) {
            Err(e) => Err(e),
            Ok(()) => stdout_flush(),
        }
    }

    /// Queues every row of the frame, in order, after what the buffer
    /// already holds. The cursor and the size are untouched.
    #[verifier::loop_isolation(false)]
    pub fn draw_rows(&mut self)
        requires
            old(self).wf(),
        ensures
            final(self).wf(),
            final(self).win_size == old(self).win_size,
            final(self).cursor_controller == old(self).cursor_controller,
            final(self).editor_contents.content@ == old(self).editor_contents.content@ + rows_seq(
                old(self).win_size.1 as int,
                old(self).win_size.1 as int,
                old(self).win_size.0 as int,
            ),
    {
        let screen_rows: usize = self.win_size.1;
        let screen_columns: usize = self.win_size.0;
        let ghost start = self.editor_contents.content@;
        let mut i: usize = 0;
        while i < screen_rows
            invariant
                i <= screen_rows,
                self.win_size == old(self).win_size,
                self.cursor_controller == old(self).cursor_controller,
                self.editor_contents.content@ == start + rows_seq(
                    i as int,
                    screen_rows as int,
                    screen_columns as int,
                ),
            decreases screen_rows - i,
        {
            let ghost row_start = self.editor_contents.content@;
            if i == screen_rows / 3 {
                draw_banner_row(&mut self.editor_contents, screen_columns);
            } else {
                self.editor_contents.push('~');
            }
            proof {
                assert(self.editor_contents.content@ =~= row_start + row_text(
                    i as int,
                    screen_rows as int,
                    screen_columns as int,
                ));
            }
            let clear = ansi::clear_line_ansi();
            self.editor_contents.push_str(clear.as_str());
            if i < screen_rows - 1 {
                self.editor_contents.push_str("\r\n");
                proof {
                    reveal_strlit("\r\n");
                    assert(("\r\n")@ =~= seq!['\r', '\n']);
                }
            }
            proof {
                assert(self.editor_contents.content@ =~= row_start + row_seq(
                    i as int,
                    screen_rows as int,
                    screen_columns as int,
                ));
                assert(self.editor_contents.content@ =~= start + rows_seq(
                    i as int + 1,
                    screen_rows as int,
                    screen_columns as int,
                ));
            }
            i = i + 1;
        }
    }

    /// Queues one whole frame: cursor hidden, origin, every row, the cursor
    /// back on its position, cursor shown. Nothing is sent yet.
    pub fn compose_frame(&mut self)
        requires
            old(self).wf(),
        ensures
            final(self).wf(),
            final(self).win_size == old(self).win_size,
            final(self).cursor_controller == old(self).cursor_controller,
            final(self).editor_contents.content@ == old(self).editor_contents.content@ + frame_seq(
                old(self).cursor_controller.cursor_x as u16,
                old(self).cursor_controller.cursor_y as u16,
                old(self).win_size.0 as int,
                old(self).win_size.1 as int,
            ),
    {
        let ghost start = self.editor_contents.content@;
        let hide = ansi::hide_cursor_ansi();
        self.editor_contents.push_str(hide.as_str());
        let origin = ansi::move_to_ansi(0, 0);
        self.editor_contents.push_str(origin.as_str());
        self.draw_rows();
        let cursor_x: usize = self.cursor_controller.cursor_x;
        let cursor_y: usize = self.cursor_controller.cursor_y;
        let back = ansi::move_to_ansi(cursor_x as u16, cursor_y as u16);
        self.editor_contents.push_str(back.as_str());
        let show = ansi::show_cursor_ansi();
        self.editor_contents.push_str(show.as_str());
        proof {
            assert(self.editor_contents.content@ =~= start + frame_seq(
                old(self).cursor_controller.cursor_x as u16,
                old(self).cursor_controller.cursor_y as u16,
                old(self).win_size.0 as int,
                old(self).win_size.1 as int,
            ));
        }
    }

    /// One full redraw: composes the frame and sends it in a single write.
    /// On success the buffer is empty again, ready for the next frame.
    pub fn refresh_screen(&mut self) -> (r: Result<(), EditorError>)
        requires
            old(self).wf(),
        ensures
            final(self).wf(),
            final(self).win_size == old(self).win_size,
            final(self).cursor_controller == old(self).cursor_controller,
            r is Ok ==> final(self).editor_contents.content@ == Seq::<char>::empty(),
            r is Err ==> r == Err::<(), EditorError>(EditorError::Io),
    {
        self.compose_frame();
        self.editor_contents.flush()
    }

    /// Bounded cursor movement over the shared cursor model.
    pub fn move_cursor(&mut self, direction: KeyCode)
        requires
            old(self).wf(),
        ensures
            final(self).wf(),
            final(self).win_size == old(self).win_size,
            final(self).editor_contents == old(self).editor_contents,
            final(self).cursor_controller == old(self).cursor_controller.moved_spec(direction),
    {
        self.cursor_controller.move_cursor(direction);
    }
}

} // verus!
