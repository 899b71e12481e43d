use vstd::prelude::*;

verus! {

/// The key codes the editor distinguishes: printable characters, the six
/// direction keys, the two page keys, and a single bucket for everything else.
#[derive(Clone, Copy, Debug)]
pub enum KeyCode {
    Char(char),
    Up,
    Down,
    Left,
    Right,
    Home,
    End,
    PageUp,
    PageDown,
    Other,
}

/// The modifier classes the editor distinguishes: no modifier at all, exactly
/// the control modifier, and any other combination.
#[derive(Clone, Copy, Debug)]
pub enum KeyMod {
    Plain,
    Control,
    Other,
}

/// One key press: a code plus its modifier class.
#[derive(Clone, Copy, Debug)]
pub struct Key {
    pub code: KeyCode,
    pub mods: KeyMod,
}

} // verus!
