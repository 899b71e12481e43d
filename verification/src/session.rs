use vstd::prelude::*;

use crate::cursor::valid_size;
use crate::errors::EditorError;

verus! {

/// Relies on crossterm's `terminal::enable_raw_mode`: switches the terminal
/// to raw input (no line buffering, no echo). Nothing is promised of the
/// terminal itself; a driver failure comes back as a terminal error.
#[verifier::external_body]
pub fn enable_raw_mode() -> (r: Result<(), EditorError>)
    ensures
        (match r {
            Ok(u) => u == (),
            Err(e) => e == EditorError::Terminal,
        }),
{
    match crossterm::terminal::enable_raw_mode() {
        Ok(()) => Ok(()),
        Err(_) => Err(EditorError::Terminal),
    }
}

/// Relies on crossterm's `terminal::disable_raw_mode`: restores the
/// terminal's original input mode. A driver failure comes back as a
/// terminal error.
#[verifier::external_body]
pub fn disable_raw_mode() -> (r: Result<(), EditorError>)
    ensures
        (match r {
            Ok(u) => u == (),
            Err(e) => e == EditorError::Terminal,
        }),
{
    match crossterm::terminal::disable_raw_mode() {
        Ok(()) => Ok(()),
        Err(_) => Err(EditorError::Terminal),
    }
}

/// Relies on crossterm's `terminal::size`: reports the screen dimensions as
/// `(columns, rows)`. What it reports depends on the terminal, so nothing
/// is promised of the values.
#[verifier::external_body]
fn query_size() -> (r: Result<(u16, u16), EditorError>)
    ensures
        (match r {
            Ok(_) => true,
            Err(e) => e == EditorError::Terminal,
        }),
{
    match crossterm::terminal::size() {
        Ok(size) => Ok(size),
        Err(_) => Err(EditorError::Terminal),
    }
}

/// Decides whether a reported size is usable: exactly the sizes with both
/// dimensions non-zero are accepted, widened to `usize`; a degenerate size
/// is rejected as a terminal error.
pub fn accept_size(raw: (u16, u16)) -> (r: Result<(usize, usize), EditorError>)
    ensures
        r is Ok <==> (raw.0 > 0 && raw.1 > 0),
        r is Ok ==> r == Ok::<(usize, usize), EditorError>((raw.0 as usize, raw.1 as usize)),
        r is Err ==> r == Err::<(usize, usize), EditorError>(EditorError::Terminal),
        (match r {
            Ok(size) => valid_size(size.0 as int, size.1 as int),
            Err(_) => true,
        }),
{
    if raw.0 == 0 || raw.1 == 0 {
        Err(EditorError::Terminal)
    } else {
        Ok((raw.0 as usize, raw.1 as usize))
    }
}

/// Samples the screen size once and guards the degenerate case through
/// `accept_size`, so every size handed out is usable for the row math
/// downstream.
pub fn sampled_window_size() -> (r: Result<(usize, usize), EditorError>)
    ensures
        (match r {
            Ok(size) => valid_size(size.0 as int, size.1 as int),
            Err(e) => e == EditorError::Terminal,
        }),
{
    match query_size() {
        Err(e) => Err(e),
        Ok(raw) => accept_size(raw),
    }
}

} // verus!
