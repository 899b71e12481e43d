use vstd::prelude::*;
use vstd::string::StringExecFns;

use std::io::Write;

use crate::errors::EditorError;

verus! {

/// What `str::from_utf8` decodes a byte sequence to: the character sequence
/// when the bytes are well-formed text, nothing otherwise.
pub uninterp spec fn utf8_decoded(bytes: Seq<u8>) -> Option<Seq<char>>;

/// Relies on `str::from_utf8`: it succeeds exactly on well-formed text, and
/// the decoded characters are a function of the bytes alone.
#[verifier::external_body]
fn bytes_to_utf8(buffer: &[u8]) -> (r: Option<String>)
    ensures
        match r {
            Some(s) => utf8_decoded(buffer@) == Some(s@),
            None => utf8_decoded(buffer@) is None,
        },
{
    match std::str::from_utf8(buffer) {
        Ok(s) => Some(s.to_owned()),
        Err(_) => None,
    }
}

/// Relies on `String::push`: it appends the one character at the end.
#[verifier::external_body]
fn string_push(s: &mut String, ch: char)
    ensures
        final(s)@ == old(s)@.push(ch),
{
    s.push(ch);
}

/// Relies on `String::clear`: it leaves the string empty.
#[verifier::external_body]
fn string_clear(s: &mut String)
    ensures
        final(s)@ == Seq::<char>::empty(),
{
    s.clear();
}

/// Relies on `write!` to the standard output stream: the one buffered write
/// that publishes a frame. Nothing is promised of the stream itself; a
/// failure comes back as an I/O error.
#[verifier::external_body]
pub(crate) fn stdout_write(s: &String) -> (r: Result<(), EditorError>)
    ensures
        (match r {
            Ok(u) => u == (),
            Err(e) => e == EditorError::Io,
        }),
{
    match write!(std::io::stdout(), "{}", s) {
        Ok(()) => Ok(()),
        Err(_) => Err(EditorError::Io),
    }
}

/// Relies on `Stdout::flush`: it pushes what was written out to the
/// terminal. A failure comes back as an I/O error.
#[verifier::external_body]
pub(crate) fn stdout_flush() -> (r: Result<(), EditorError>)
    ensures
        (match r {
            Ok(u) => u == (),
            Err(e) => e == EditorError::Io,
        }),
{
    match std::io::stdout().flush() {
        Ok(()) => Ok(()),
        Err(_) => Err(EditorError::Io),
    }
}

/// The in-memory accumulator of everything queued for the next flush: rows,
/// control sequences and cursor positioning, kept in order and sent to the
/// terminal as one write.
pub struct EditorContents {
    pub content: String,
}

impl EditorContents {
    pub fn new() -> (r: EditorContents)
        ensures
            r.content@ == Seq::<char>::empty(),
    {
        EditorContents { content: String::new() }
    }

    /// Appends one character to the pending frame.
    pub fn push(&mut self, ch: char)
        ensures
            final(self).content@ == old(self).content@.push(ch),
    {
        string_push(&mut self.content, ch);
    }

    /// Appends a string to the pending frame.
    pub fn push_str(&mut self, string: &str)
        ensures
            final(self).content@ == old(self).content@ + string@,
    {
        self.content.append(string);
    }

    /// Byte-level append: decodes the bytes as text and queues them, or
    /// rejects malformed bytes with an encoding error and leaves the frame
    /// untouched. On success the whole byte count is reported.
    pub fn write(&mut self, buffer: &[u8]) -> (r: Result<usize, EditorError>)
        ensures
            match utf8_decoded(buffer@) {
                Some(s) => r == Ok::<usize, EditorError>(buffer@.len() as usize)
                    && final(self).content@ == old(self).content@ + s,
                None => r == Err::<usize, EditorError>(EditorError::Encoding)
                    && final(self).content@ == old(self).content@,
            },
    {
        match bytes_to_utf8(buffer) {
            Some(s) => {
                let n: usize = buffer.len();
                self.push_str(s.as_str());
                Ok(n)
            },
            None => Err(EditorError::Encoding),
        }
    }

    /// Sends the whole accumulated frame to the terminal in one write, then
    /// clears the buffer. The stream is flushed before the buffer is
    /// cleared; if the stream cannot be flushed the content is kept.
    pub fn flush(&mut self) -> (r: Result<(), EditorError>)
        ensures
            r is Ok ==> final(self).content@ == Seq::<char>::empty(),
            r is Err ==> r == Err::<(), EditorError>(EditorError::Io),
            final(self).content@ == Seq::<char>::empty()
                || final(self).content@ == old(self).content@,
    {
        let out = stdout_write(&self.content);
        let flushed = stdout_flush();
        match flushed {
            Err(e) => Err(e),
            Ok(()) => {
                string_clear(&mut self.content);
                out
            },
        }
    }
}

} // verus!
