use vstd::prelude::*;

use crate::cursor::CursorController;
use crate::cursor::valid_size;
use crate::errors::EditorError;
use crate::input::Reader;
use crate::keys::Key;
use crate::keys::KeyCode;
use crate::keys::KeyMod;
use crate::output::Output;

verus! {

/// Whether a polled result is the quit chord: the character `q` with
/// exactly the control modifier.
pub open spec fn is_quit_key(key: Option<Key>) -> bool {
    match key {
        Some(k) => k.code == KeyCode::Char('q') && k.mods == KeyMod::Control,
        None => false,
    }
}

/// Where one dispatched key leaves the cursor — the transition table of the
/// editor loop. The quit chord and every ignored key leave it in place; an
/// unmodified movement key moves it once; an unmodified page key repeats
/// the vertical move once per screen row.
pub open spec fn keypress_spec(c: CursorController, key: Option<Key>) -> CursorController {
    match key {
        None => c,
        Some(k) => if is_quit_key(key) {
            c
        } else {
            match (k.code, k.mods) {
                (KeyCode::Up, KeyMod::Plain) => c.moved_spec(KeyCode::Up),
                (KeyCode::Down, KeyMod::Plain) => c.moved_spec(KeyCode::Down),
                (KeyCode::Left, KeyMod::Plain) => c.moved_spec(KeyCode::Left),
                (KeyCode::Right, KeyMod::Plain) => c.moved_spec(KeyCode::Right),
                (KeyCode::Home, KeyMod::Plain) => c.moved_spec(KeyCode::Home),
                (KeyCode::End, KeyMod::Plain) => c.moved_spec(KeyCode::End),
                (KeyCode::PageUp, KeyMod::Plain) => c.repeat_move(
                    KeyCode::Up,
                    c.screen_rows as nat,
                ),
                (KeyCode::PageDown, KeyMod::Plain) => c.repeat_move(
                    KeyCode::Down,
                    c.screen_rows as nat,
                ),
                _ => c,
            }
        },
    }
}

/// The top-level driver: the input reader and the compositor it feeds.
pub struct Editor {
    pub reader: Reader,
    pub output: Output,
}

impl Editor {
    pub open spec fn wf(self) -> bool {
        self.output.wf()
    }

    pub fn new(win_size: (usize, usize)) -> (r: Editor)
        requires
            valid_size(win_size.0 as int, win_size.1 as int),
        ensures
            r.wf(),
            r.output.win_size == win_size,
            r.output.editor_contents.content@ == Seq::<char>::empty(),
            r.output.cursor_controller.cursor_x == 0,
            r.output.cursor_controller.cursor_y == 0,
    {
        Editor { reader: Reader, output: Output::new(win_size) }
    }

    /// Repeats one vertical move once per screen row, driving the cursor to
    /// the top or the bottom of the screen.
    #[verifier::loop_isolation(false)]
    fn page_move(&mut self, direction: KeyCode)
        requires
            old(self).wf(),
            direction == KeyCode::Up || direction == KeyCode::Down,
        ensures
            final(self).wf(),
            final(self).output.win_size == old(self).output.win_size,
            final(self).output.editor_contents == old(self).output.editor_contents,
            final(self).output.cursor_controller == old(self).output.cursor_controller.repeat_move(
                direction,
                old(self).output.cursor_controller.screen_rows as nat,
            ),
    {
        let rows: usize = self.output.win_size.1;
        let is_up: bool = match direction {
            KeyCode::Up => true,
            _ => false,
        };
        let mut i: usize = 0;
        while i < rows
            invariant
                i <= rows,
                self.output.wf(),
                self.output.win_size == old(self).output.win_size,
                self.output.editor_contents == old(self).output.editor_contents,
                self.output.cursor_controller == old(self).output.cursor_controller.repeat_move(
                    direction,
                    i as nat,
                ),
            decreases rows - i,
        {
            if is_up {
                self.output.move_cursor(KeyCode::Up);
            } else {
                self.output.move_cursor(KeyCode::Down);
            }
            i = i + 1;
        }
    }

    /// Dispatches one polled result per the transition table: the quit
    /// chord stops the loop and changes nothing; an unmodified movement key
    /// moves the cursor; an unmodified page key jumps to the vertical
    /// extreme; every other key — and a poll timeout — changes nothing.
    /// `true` means the loop keeps running.
    pub fn process_keypress(&mut self, key: Option<Key>) -> (running: bool)
        requires
            old(self).wf(),
        ensures
            final(self).wf(),
            final(self).output.win_size == old(self).output.win_size,
            final(self).output.editor_contents == old(self).output.editor_contents,
            final(self).output.cursor_controller == keypress_spec(
                old(self).output.cursor_controller,
                key,
            ),
            running == !is_quit_key(key),
    {
        match key {
            None => true,
            Some(k) => match (k.code, k.mods) {
                (KeyCode::Char(c), KeyMod::Control) => {
                    if c == 'q' {
                        false
                    } else {
                        true
                    }
                },
                (KeyCode::Up, KeyMod::Plain) => {
                    self.output.move_cursor(KeyCode::Up);
                    true
                },
                (KeyCode::Down, KeyMod::Plain) => {
                    self.output.move_cursor(KeyCode::Down);
                    true
                },
                (KeyCode::Left, KeyMod::Plain) => {
                    self.output.move_cursor(KeyCode::Left);
                    true
                },
                (KeyCode::Right, KeyMod::Plain) => {
                    self.output.move_cursor(KeyCode::Right);
                    true
                },
                (KeyCode::Home, KeyMod::Plain) => {
                    self.output.move_cursor(KeyCode::Home);
                    true
                },
                (KeyCode::End, KeyMod::Plain) => {
                    self.output.move_cursor(KeyCode::End);
                    true
                },
                (KeyCode::PageUp, KeyMod::Plain) => {
                    self.page_move(KeyCode::Up);
                    true
                },
                (KeyCode::PageDown, KeyMod::Plain) => {
                    self.page_move(KeyCode::Down);
                    true
                },
                _ => true,
            },
        }
    }

    /// One loop iteration: render the frame first, wait (bounded) for one
    /// key, then dispatch it. `Ok(true)` continues, `Ok(false)` is the quit
    /// chord; the frame is rendered before any key is required. On success
    /// the frame was flushed — the buffer is empty again — and the cursor
    /// and the returned flag are the dispatch of the one polled result.
    pub fn run(&mut self) -> (r: Result<bool, EditorError>)
        requires
            old(self).wf(),
        ensures
            final(self).wf(),
            final(self).output.win_size == old(self).output.win_size,
            (match r {
                Ok(running) => final(self).output.editor_contents.content@ == Seq::<
                    char,
                >::empty() && exists|key: Option<Key>|
                    final(self).output.cursor_controller == #[trigger] keypress_spec(
                        old(self).output.cursor_controller,
                        key,
                    ) && running == !is_quit_key(key),
                Err(e) => e == EditorError::Io,
            }),
    {
        match self.output.refresh_screen() {
            Err(e) => Err(e),
            Ok(()) => match self.reader.read_key() {
                Err(e) => Err(e),
                Ok(key) => {
                    let running = self.process_keypress(key);
                    Ok(running)
                },
            },
        }
    }
}

} // verus!
