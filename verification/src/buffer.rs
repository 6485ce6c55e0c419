//! The interactive shell's output buffer.
//!
//! A background read task appends every piece of inbound shell data; the
//! caller-facing read operation drains the buffer destructively. Appends
//! lose nothing, and a drain returns exactly what accumulated since the
//! previous drain.

use vstd::prelude::*;

verus! {

/// Relies on `String::push_str`: appends the given string slice onto the
/// end of the string.
#[verifier::external_body]
pub(crate) fn push_chars(s: &mut String, t: &str)
    ensures
        final(s)@ == old(s)@ + t@,
{
    s.push_str(t);
}

/// An append-only accumulation of shell output, drained destructively.
pub struct OutputBuffer {
    data: String,
}

impl View for OutputBuffer {
    type V = Seq<char>;

    closed spec fn view(&self) -> Seq<char> {
        self.data@
    }
}

impl OutputBuffer {
    /// An empty buffer.
    pub fn new() -> (r: OutputBuffer)
        ensures
            r@ == Seq::<char>::empty(),
    {
        OutputBuffer { data: String::new() }
    }

    /// Appends inbound data to the end of the buffer. Nothing already
    /// buffered is lost or reordered.
    pub fn append(&mut self, text: &str)
        ensures
            final(self)@ == old(self)@ + text@,
    {
        push_chars(&mut self.data, text);
    }

    /// Returns everything buffered since the previous drain and clears the
    /// buffer, in one step. Never fails; returns the empty string when
    /// nothing is buffered.
    pub fn drain(&mut self) -> (r: String)
        ensures
            r@ == old(self)@,
            final(self)@ == Seq::<char>::empty(),
    {
        let out = self.data.clone();
        self.data = String::new();
        out
    }
}

} // verus!
