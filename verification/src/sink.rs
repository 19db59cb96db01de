//! Destinations a log can append to.
//!
//! The log owns its sink exclusively; a sink's model is the text it has
//! accepted so far. The discard and memory sinks live here, verified; the
//! hosting process may bring its own sink (a file, standard output) by
//! implementing `Sink` for a type of its own.

use vstd::prelude::*;

verus! {

/// A failed append to a sink's destination.
#[derive(Debug)]
pub struct WriteError;

/// A writable destination for log lines.
///
/// The two model functions have defaults so that the hosting process can
/// implement the trait for a sink of its own (a file, standard output)
/// without touching them; such a sink lives outside the verified world,
/// and what the log promises about its contents is only as good as the
/// sink's own keeping of this contract.
pub trait Sink {
    /// All text this sink has accepted, in order.
    open spec fn contents(&self) -> Seq<char> {
        Seq::empty()
    }

    /// True of sinks whose writes cannot fail, such as a discard or
    /// in-memory sink.
    open spec fn infallible(&self) -> bool {
        false
    }

    /// Append `text` at the end of the destination. On success the accepted
    /// text grows by exactly `text`; a sink that cannot fail never returns
    /// an error.
    fn write_text(&mut self, text: &str) -> (r: Result<(), WriteError>)
        ensures
            r is Ok ==> final(self).contents() == old(self).contents() + text@,
            final(self).infallible() == old(self).infallible(),
            old(self).infallible() ==> r is Ok,
    ;
}

/// A sink that throws its input away, remembering only (in ghost state)
/// what it was handed. Writes to it always succeed.
pub struct DiscardSink {
    accepted: Ghost<Seq<char>>,
}

impl DiscardSink {
    pub fn new() -> (r: DiscardSink)
        ensures
            r.contents() == Seq::<char>::empty(),
            r.infallible(),
    {
        DiscardSink { accepted: Ghost(Seq::empty()) }
    }
}

impl Sink for DiscardSink {
    closed spec fn contents(&self) -> Seq<char> {
        self.accepted@
    }

    closed spec fn infallible(&self) -> bool {
        true
    }

    fn write_text(&mut self, text: &str) -> (r: Result<(), WriteError>) {
        proof {
            self.accepted@ = self.accepted@ + text@;
        }
        Ok(())
    }
}

/// A sink that keeps everything in a string, for tests and callers that
/// want the lines back. Writes to it always succeed.
pub struct MemorySink {
    buf: String,
}

impl MemorySink {
    pub fn new() -> (r: MemorySink)
        ensures
            r.contents() == Seq::<char>::empty(),
            r.infallible(),
    {
        MemorySink { buf: String::new() }
    }

    /// The text accepted so far.
    pub fn text(&self) -> (r: &String)
        ensures
            r@ == self.contents(),
    {
        &self.buf
    }
}

impl Sink for MemorySink {
    closed spec fn contents(&self) -> Seq<char> {
        self.buf@
    }

    closed spec fn infallible(&self) -> bool {
        true
    }

    fn write_text(&mut self, text: &str) -> (r: Result<(), WriteError>) {
        self.buf.append(text);
        Ok(())
    }
}

} // verus!
