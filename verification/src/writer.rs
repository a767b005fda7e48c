//! The output sink: an append-only text buffer.

use vstd::prelude::*;

verus! {

use vstd::string::StringExecFns;

/// Relies on `String::push`: appends the given `char` to the end of the
/// `String`.
pub assume_specification[ String::push ](s: &mut String, ch: char)
    ensures
        final(s)@ == old(s)@.push(ch),
;

/// An append-only buffer that accumulates the SQL text of one render call.
///
/// Its view is the sequence of characters written so far; every write
/// operation extends that sequence and never rewrites what came before.
pub struct SqlWriter {
    buf: String,
}

impl View for SqlWriter {
    type V = Seq<char>;

    closed spec fn view(&self) -> Seq<char> {
        self.buf@
    }
}

impl SqlWriter {
    /// An empty buffer.
    pub fn new() -> (w: SqlWriter)
        ensures
            w@ == Seq::<char>::empty(),
    {
        SqlWriter { buf: String::new() }
    }

    /// Appends every character of `s`.
    pub fn write_str(&mut self, s: &str)
        ensures
            final(self)@ == old(self)@ + s@,
    {
        self.buf.append(s);
    }

    /// Appends the single character `c`.
    pub fn write_char(&mut self, c: char)
        ensures
            final(self)@ == old(self)@.push(c),
    {
        self.buf.push(c);
    }

    /// Hands the accumulated text to the caller.
    pub fn into_string(self) -> (s: String)
        ensures
            s@ == self@,
    {
        self.buf
    }
}

} // verus!
