use vstd::prelude::*;

use crate::keys::KeyCode;

verus! {

/// A screen size is usable when both dimensions are at least one row/column
/// (a zero size would make the row math below meaningless) and fit in the
/// 16-bit range the terminal driver reports.
pub open spec fn valid_size(columns: int, rows: int) -> bool {
    1 <= columns <= 0xFFFF && 1 <= rows <= 0xFFFF
}

/// The cursor position together with the immutable screen bounds captured at
/// construction.
pub struct CursorController {
    pub cursor_x: usize,
    pub cursor_y: usize,
    pub screen_columns: usize,
    pub screen_rows: usize,
}

impl CursorController {
    /// Well-formedness: the bounds are a usable screen size and the cursor
    /// lies strictly within them.
    pub open spec fn wf(self) -> bool {
        &&& valid_size(self.screen_columns as int, self.screen_rows as int)
        &&& self.cursor_x < self.screen_columns
        &&& self.cursor_y < self.screen_rows
    }

    /// Where one movement key leaves the cursor: each direction clamps at the
    /// screen edge, `Home` and `End` jump to the horizontal extremes, and any
    /// non-movement code leaves the cursor where it is.
    pub open spec fn moved_spec(self, direction: KeyCode) -> CursorController {
        match direction {
            KeyCode::Up => CursorController {
                cursor_y: if self.cursor_y > 0 {
                    (self.cursor_y - 1) as usize
                } else {
                    self.cursor_y
                },
                ..self
            },
            KeyCode::Down => CursorController {
                cursor_y: if self.cursor_y + 1 < self.screen_rows {
                    (self.cursor_y + 1) as usize
                } else {
                    self.cursor_y
                },
                ..self
            },
            KeyCode::Left => CursorController {
                cursor_x: if self.cursor_x > 0 {
                    (self.cursor_x - 1) as usize
                } else {
                    self.cursor_x
                },
                ..self
            },
            KeyCode::Right => CursorController {
                cursor_x: if self.cursor_x + 1 < self.screen_columns {
                    (self.cursor_x + 1) as usize
                } else {
                    self.cursor_x
                },
                ..self
            },
            KeyCode::Home => CursorController { cursor_x: 0, ..self },
            KeyCode::End => CursorController {
                cursor_x: (self.screen_columns - 1) as usize,
                ..self
            },
            _ => self,
        }
    }

    /// The cursor after `n` repeated applications of one movement key.
    pub open spec fn repeat_move(self, direction: KeyCode, n: nat) -> CursorController
        decreases n,
    {
        if n == 0 {
            self
        } else {
            self.repeat_move(direction, (n - 1) as nat).moved_spec(direction)
        }
    }

    pub fn new(win_size: (usize, usize)) -> (r: CursorController)
        requires
            valid_size(win_size.0 as int, win_size.1 as int),
        ensures
            r.wf(),
            r.cursor_x == 0,
            r.cursor_y == 0,
            r.screen_columns == win_size.0,
            r.screen_rows == win_size.1,
    {
        CursorController {
            cursor_x: 0,
            cursor_y: 0,
            screen_columns: win_size.0,
            screen_rows: win_size.1,
        }
    }

    /// Bounded movement: total over every key code, clamping at the screen
    /// edges and ignoring non-movement codes.
    pub fn move_cursor(&mut self, direction: KeyCode)
        requires
            old(self).wf(),
        ensures
            *final(self) == old(self).moved_spec(direction),
            final(self).wf(),
    {
        match direction {
            KeyCode::Up => {
                if self.cursor_y > 0 {
                    self.cursor_y = self.cursor_y - 1;
                }
            },
            KeyCode::Down => {
                if self.cursor_y != self.screen_rows - 1 {
                    self.cursor_y = self.cursor_y + 1;
                }
            },
            KeyCode::Left => {
                if self.cursor_x != 0 {
                    self.cursor_x = self.cursor_x - 1;
                }
            },
            KeyCode::Right => {
                if self.cursor_x != self.screen_columns - 1 {
                    self.cursor_x = self.cursor_x + 1;
                }
            },
            KeyCode::End => {
                self.cursor_x = self.screen_columns - 1;
            },
            KeyCode::Home => {
                self.cursor_x = 0;
            },
            _ => {},
        }
    }
}

/// Every movement from a well-formed position lands within
/// `[0, columns-1] x [0, rows-1]`, whatever the key code.
pub proof fn lemma_move_stays_in_bounds(c: CursorController, direction: KeyCode)
    requires
        c.wf(),
    ensures
        c.moved_spec(direction).wf(),
        c.moved_spec(direction).cursor_x < c.screen_columns,
        c.moved_spec(direction).cursor_y < c.screen_rows,
{
}

/// `Home` always lands on column zero and `End` on the last column, whatever
/// the prior position; neither touches the row.
pub proof fn lemma_home_end(c: CursorController)
    requires
        c.wf(),
    ensures
        c.moved_spec(KeyCode::Home).cursor_x == 0,
        c.moved_spec(KeyCode::End).cursor_x == c.screen_columns - 1,
        c.moved_spec(KeyCode::Home).cursor_y == c.cursor_y,
        c.moved_spec(KeyCode::End).cursor_y == c.cursor_y,
{
}

/// At each screen edge the movement into the edge is a no-op: `Left` at
/// column zero, `Right` at the last column, `Up` at row zero, `Down` at the
/// last row all leave the cursor unchanged.
pub proof fn lemma_edge_moves_are_noops(c: CursorController)
    requires
        c.wf(),
    ensures
        c.cursor_x == 0 ==> c.moved_spec(KeyCode::Left) == c,
        c.cursor_x == c.screen_columns - 1 ==> c.moved_spec(KeyCode::Right) == c,
        c.cursor_y == 0 ==> c.moved_spec(KeyCode::Up) == c,
        c.cursor_y == c.screen_rows - 1 ==> c.moved_spec(KeyCode::Down) == c,
{
}

/// Repeated `Up` moves only the row, clamping at zero: after `n` steps the
/// row is `cursor_y - n`, or zero once the top is reached.
pub proof fn lemma_repeat_up(c: CursorController, n: nat)
    requires
        c.wf(),
    ensures
        c.repeat_move(KeyCode::Up, n).wf(),
        c.repeat_move(KeyCode::Up, n).cursor_x == c.cursor_x,
        c.repeat_move(KeyCode::Up, n).screen_columns == c.screen_columns,
        c.repeat_move(KeyCode::Up, n).screen_rows == c.screen_rows,
        c.repeat_move(KeyCode::Up, n).cursor_y == if c.cursor_y >= n {
            c.cursor_y - n
        } else {
            0
        },
    decreases n,
{
    if n > 0 {
        lemma_repeat_up(c, (n - 1) as nat);
    }
}

/// Repeated `Down` moves only the row, clamping at the last row: after `n`
/// steps the row is `cursor_y + n`, or `rows - 1` once the bottom is reached.
pub proof fn lemma_repeat_down(c: CursorController, n: nat)
    requires
        c.wf(),
    ensures
        c.repeat_move(KeyCode::Down, n).wf(),
        c.repeat_move(KeyCode::Down, n).cursor_x == c.cursor_x,
        c.repeat_move(KeyCode::Down, n).screen_columns == c.screen_columns,
        c.repeat_move(KeyCode::Down, n).screen_rows == c.screen_rows,
        c.repeat_move(KeyCode::Down, n).cursor_y == if c.cursor_y + n < c.screen_rows {
            c.cursor_y + n
        } else {
            c.screen_rows - 1
        },
    decreases n,
{
    if n > 0 {
        lemma_repeat_down(c, (n - 1) as nat);
    }
}

/// `rows` repeated `Up` moves reach the top row from any position, and `rows`
/// repeated `Down` moves reach the bottom row.
pub proof fn lemma_page_moves_reach_extremes(c: CursorController)
    requires
        c.wf(),
    ensures
        c.repeat_move(KeyCode::Up, c.screen_rows as nat).cursor_y == 0,
        c.repeat_move(KeyCode::Down, c.screen_rows as nat).cursor_y == c.screen_rows - 1,
{
    lemma_repeat_up(c, c.screen_rows as nat);
    lemma_repeat_down(c, c.screen_rows as nat);
}

} // verus!

