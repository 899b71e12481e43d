use vstd::prelude::*;

use crossterm::Command;

verus! {

/// The escape character that opens every control sequence.
pub open spec fn esc_char() -> char {
    '\u{1b}'
}

/// The control sequence that hides the cursor.
pub open spec fn hide_cursor_seq() -> Seq<char> {
    seq![esc_char(), '[', '?', '2', '5', 'l']
}

/// The control sequence that shows the cursor.
pub open spec fn show_cursor_seq() -> Seq<char> {
    seq![esc_char(), '[', '?', '2', '5', 'h']
}

/// The control sequence that clears the whole screen.
pub open spec fn clear_all_seq() -> Seq<char> {
    seq![esc_char(), '[', '2', 'J']
}

/// The control sequence that clears from the cursor to the end of the line.
pub open spec fn clear_line_seq() -> Seq<char> {
    seq![esc_char(), '[', 'K']
}

/// The decimal digit `d` as a character.
pub open spec fn digit_char(d: int) -> char {
    if d == 0 {
        '0'
    } else if d == 1 {
        '1'
    } else if d == 2 {
        '2'
    } else if d == 3 {
        '3'
    } else if d == 4 {
        '4'
    } else if d == 5 {
        '5'
    } else if d == 6 {
        '6'
    } else if d == 7 {
        '7'
    } else if d == 8 {
        '8'
    } else {
        '9'
    }
}

/// The non-negative number `n` written in decimal, most significant digit
/// first, without leading zeroes (a lone zero for zero itself).
pub open spec fn dec_seq(n: int) -> Seq<char>
    decreases n,
{
    if n < 10 {
        seq![digit_char(n)]
    } else {
        dec_seq(n / 10).push(digit_char(n % 10))
    }
}

/// The control sequence that moves the cursor to column `x`, row `y`: the
/// escape prefix, then the one-based row and column in decimal.
pub open spec fn move_to_seq(x: u16, y: u16) -> Seq<char> {
    seq![esc_char(), '['] + dec_seq(y as int + 1) + seq![';'] + dec_seq(x as int + 1) + seq!['H']
}

/// Relies on crossterm's `cursor::Hide` command: its ANSI form is the
/// constant hide-cursor control.
#[verifier::external_body]
pub(crate) fn hide_cursor_ansi() -> (r: String)
    ensures
        r@ == hide_cursor_seq(),
{
    let mut s = String::new();
    let _ = crossterm::cursor::Hide.write_ansi(&mut s);
    s
}

/// Relies on crossterm's `cursor::Show` command: its ANSI form is the
/// constant show-cursor control.
#[verifier::external_body]
pub(crate) fn show_cursor_ansi() -> (r: String)
    ensures
        r@ == show_cursor_seq(),
{
    let mut s = String::new();
    let _ = crossterm::cursor::Show.write_ansi(&mut s);
    s
}

/// Relies on crossterm's `terminal::Clear` command with the whole-screen
/// scope: its ANSI form is the constant clear-screen control.
#[verifier::external_body]
pub(crate) fn clear_all_ansi() -> (r: String)
    ensures
        r@ == clear_all_seq(),
{
    let mut s = String::new();
    let _ = crossterm::terminal::Clear(crossterm::terminal::ClearType::All).write_ansi(&mut s);
    s
}

/// Relies on crossterm's `terminal::Clear` command with the to-end-of-line
/// scope: its ANSI form is the constant clear-line control.
#[verifier::external_body]
pub(crate) fn clear_line_ansi() -> (r: String)
    ensures
        r@ == clear_line_seq(),
{
    let mut s = String::new();
    let _ = crossterm::terminal::Clear(crossterm::terminal::ClearType::UntilNewLine).write_ansi(
        &mut s,
    );
    s
}

/// Relies on crossterm's `cursor::MoveTo` command: it writes the escape
/// prefix and then, through the standard decimal formatting of unsigned
/// integers, the one-based row and column. The command adds one to each
/// coordinate, so the largest value is left out.
#[verifier::external_body]
pub(crate) fn move_to_ansi(x: u16, y: u16) -> (r: String)
    requires
        x < u16::MAX,
        y < u16::MAX,
    ensures
        r@ == move_to_seq(x, y),
{
    let mut s = String::new();
    let _ = crossterm::cursor::MoveTo(x, y).write_ansi(&mut s);
    s
}

} // verus!
