use vstd::prelude::*;

use crate::errors::EditorError;
use crate::keys::Key;
use crate::keys::KeyCode;
use crate::keys::KeyMod;

verus! {

/// How long one poll waits for input before reporting that nothing arrived,
/// in milliseconds.
pub const POLL_TIMEOUT_MS: u64 = 500;

/// How many non-key events one call may discard before it gives up and
/// reports that no key arrived. The bound keeps the call provably finite; a
/// run this long of nothing but resize and focus events within one call is
/// treated as no input, which the caller handles like any other timeout.
pub const MAX_DISCARDED_EVENTS: usize = 4096;

#[verifier::external_type_specification]
#[verifier::external_body]
pub struct ExKeyEvent(crossterm::event::KeyEvent);

/// Relies on crossterm's `event::poll`: reports whether an event is ready
/// within the timeout. Readiness depends on the user, so nothing is
/// promised of the answer.
#[verifier::external_body]
fn poll_ready(timeout_ms: u64) -> (r: Result<bool, EditorError>)
    ensures
        (match r {
            Ok(_) => true,
            Err(e) => e == EditorError::Io,
        }),
{
    match crossterm::event::poll(std::time::Duration::from_millis(timeout_ms)) {
        Ok(ready) => Ok(ready),
        Err(_) => Err(EditorError::Io),
    }
}

/// Relies on crossterm's `event::read`: hands back the next event. Call it
/// only after a poll reported readiness — otherwise it blocks. A key-press
/// event comes back whole; any other event is reported as absent.
#[verifier::external_body]
fn read_key_event() -> (r: Result<Option<crossterm::event::KeyEvent>, EditorError>)
    ensures
        (match r {
            Ok(_) => true,
            Err(e) => e == EditorError::Io,
        }),
{
    match crossterm::event::read() {
        Ok(crossterm::event::Event::Key(event)) => {
            if event.kind == crossterm::event::KeyEventKind::Press {
                Ok(Some(event))
            } else {
                Ok(None)
            }
        },
        Ok(_) => Ok(None),
        Err(_) => Err(EditorError::Io),
    }
}

/// Relies on the shape of crossterm's `KeyCode`: each key the editor
/// distinguishes maps to its own code, every other key to `Other`.
#[verifier::external_body]
fn key_code_of(event: &crossterm::event::KeyEvent) -> KeyCode {
    match event.code {
        crossterm::event::KeyCode::Up => KeyCode::Up,
        crossterm::event::KeyCode::Down => KeyCode::Down,
        crossterm::event::KeyCode::Left => KeyCode::Left,
        crossterm::event::KeyCode::Right => KeyCode::Right,
        crossterm::event::KeyCode::Home => KeyCode::Home,
        crossterm::event::KeyCode::End => KeyCode::End,
        crossterm::event::KeyCode::PageUp => KeyCode::PageUp,
        crossterm::event::KeyCode::PageDown => KeyCode::PageDown,
        crossterm::event::KeyCode::Char(c) => KeyCode::Char(c),
        _ => KeyCode::Other,
    }
}

/// Relies on the shape of crossterm's `KeyModifiers`: the empty set maps to
/// `Plain`, exactly the control bit to `Control`, any other combination to
/// `Other`.
#[verifier::external_body]
fn key_mods_of(event: &crossterm::event::KeyEvent) -> KeyMod {
    if event.modifiers == crossterm::event::KeyModifiers::NONE {
        KeyMod::Plain
    } else if event.modifiers == crossterm::event::KeyModifiers::CONTROL {
        KeyMod::Control
    } else {
        KeyMod::Other
    }
}

/// Polls the terminal for key presses with a bounded wait.
pub struct Reader;

impl Reader {
    /// One bounded wait for a key press: the next key if one arrives within
    /// the poll timeout, nothing once a poll times out, and an I/O error
    /// only when the input stream is broken. Non-key events (resize, focus)
    /// are discarded and polling continues within the same call. Absence of
    /// input is an expected outcome, not a failure.
    pub fn read_key(&self) -> (r: Result<Option<Key>, EditorError>)
        ensures
            (match r {
                Ok(_) => true,
                Err(e) => e == EditorError::Io,
            }),
    {
        let mut discarded: usize = 0;
        while discarded < MAX_DISCARDED_EVENTS
            invariant
                discarded <= MAX_DISCARDED_EVENTS,
            decreases MAX_DISCARDED_EVENTS - discarded,
        {
            match poll_ready(POLL_TIMEOUT_MS) {
                Err(e) => {
                    return Err(e);
                },
                Ok(false) => {
                    return Ok(None);
                },
                Ok(true) => match read_key_event() {
                    Err(e) => {
                        return Err(e);
                    },
                    Ok(Some(event)) => {
                        return Ok(
                            Some(Key { code: key_code_of(&event), mods: key_mods_of(&event) }),
                        );
                    },
                    Ok(None) => {},
                },
            }
            discarded = discarded + 1;
        }
        Ok(None)
    }
}

} // verus!
