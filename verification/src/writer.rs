//! Local sinks. A `Writer` consumes fully formatted lines; its abstract
//! state is the sequence of lines it has received, which is what the flush
//! and filtering guarantees are stated over.

use vstd::prelude::*;
use crate::ext::write_stderr_line;

verus! {

/// A sink for formatted log lines.
pub trait Writer: Sized {
    /// The lines this sink has received, oldest first. A sink that does not
    /// track them reports none.
    open spec fn lines(&self) -> Seq<Seq<char>> {
        Seq::empty()
    }

    /// Consumes one formatted line. Failures are the sink's own business;
    /// the pipeline never sees them.
    fn write(&mut self, log: String)
        ensures
            final(self).lines() == old(self).lines().push(log@),
    ;
}

/// A writer that keeps every line in memory; the test double, and the way
/// tests observe what reached the local sink.
pub struct VecWriter {
    pub logs: Vec<String>,
}

impl VecWriter {
    pub fn new() -> (r: VecWriter)
        ensures
            r.lines() == Seq::<Seq<char>>::empty(),
    {
        let r = VecWriter { logs: Vec::new() };
        proof {
            assert(r.lines() =~= Seq::<Seq<char>>::empty());
        }
        r
    }

    /// How many lines have been received.
    pub fn len(&self) -> (r: usize)
        ensures
            r == self.lines().len(),
    {
        self.logs.len()
    }

    /// The line at `i`.
    pub fn line_at(&self, i: usize) -> (r: &str)
        requires
            i < self.lines().len(),
        ensures
            r@ == self.lines()[i as int],
    {
        self.logs[i].as_str()
    }
}

impl Writer for VecWriter {
    open spec fn lines(&self) -> Seq<Seq<char>> {
        self.logs@.map_values(|s: String| s@)
    }

    fn write(&mut self, log: String)
        ensures
            final(self).lines() == old(self).lines().push(log@),
    {
        self.logs.push(log);
        proof {
            assert(self.lines() =~= old(self).lines().push(self.logs@.last()@));
        }
    }
}

/// The unbuffered standard-error writer, the default local sink. The lines
/// it has passed on are tracked in ghost state.
pub struct StderrWriter {
    pub history: Ghost<Seq<Seq<char>>>,
}

impl StderrWriter {
    pub fn new() -> (r: StderrWriter)
        ensures
            r.lines() == Seq::<Seq<char>>::empty(),
    {
        StderrWriter { history: Ghost(Seq::empty()) }
    }
}

impl Writer for StderrWriter {
    open spec fn lines(&self) -> Seq<Seq<char>> {
        self.history@
    }

    fn write(&mut self, log: String)
        ensures
            final(self).lines() == old(self).lines().push(log@),
    {
        write_stderr_line(log.as_str());
        proof {
            self.history@ = self.history@.push(log@);
        }
    }
}

} // verus!
