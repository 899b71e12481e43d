use vstd::prelude::*;

verus! {

/// The failure kinds the editor core can report.
///
/// `Terminal` covers a failed mode switch or size query and is fatal at
/// startup; `Io` covers a failed read from or write to the terminal stream;
/// `Encoding` marks bytes that are not valid text being handed to the frame
/// buffer.
#[derive(Clone, Copy, Debug, PartialEq, Eq, Structural)]
pub enum EditorError {
    Terminal,
    Io,
    Encoding,
}

} // verus!
