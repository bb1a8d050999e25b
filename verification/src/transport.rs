//! The remote side's transport abstraction. A `Transport` carries one
//! wire-format line per call; an attempt may fail, and the pipeline's retry
//! and drop behaviour is stated over the attempt count and the lines that
//! actually went out.

use vstd::prelude::*;

verus! {

/// A stream to a remote collector. Each `write_message` call is one
/// delivery attempt; nothing is promised about which attempts succeed.
pub trait Transport: Sized {
    /// How many delivery attempts have been made. A transport that does not
    /// track them reports none.
    open spec fn attempts(&self) -> nat {
        0
    }

    /// The messages delivered so far, oldest first. A transport that does
    /// not track them reports none.
    open spec fn sent(&self) -> Seq<Seq<char>> {
        Seq::empty()
    }

    /// A name for the endpoint, for diagnostics.
    fn endpoint(&self) -> String;

    /// One delivery attempt: the attempt is counted, and the message is
    /// appended to what was sent exactly when the attempt succeeds.
    fn write_message(&mut self, msg: &str) -> (r: bool)
        ensures
            final(self).attempts() == old(self).attempts() + 1,
            r ==> final(self).sent() == old(self).sent().push(msg@),
            !r ==> final(self).sent() == old(self).sent(),
    ;
}

/// An in-memory transport that accepts every message; the test double for a
/// healthy collector.
pub struct MemoryTransport {
    pub messages: Vec<String>,
    pub tries: Ghost<nat>,
}

impl MemoryTransport {
    pub fn new() -> (r: MemoryTransport)
        ensures
            r.attempts() == 0,
            r.sent() == Seq::<Seq<char>>::empty(),
    {
        let r = MemoryTransport { messages: Vec::new(), tries: Ghost(0) };
        proof {
            assert(r.sent() =~= Seq::<Seq<char>>::empty());
        }
        r
    }

    pub fn len(&self) -> (r: usize)
        ensures
            r == self.sent().len(),
    {
        self.messages.len()
    }

    pub fn message_at(&self, i: usize) -> (r: &str)
        requires
            i < self.sent().len(),
        ensures
            r@ == self.sent()[i as int],
    {
        self.messages[i].as_str()
    }
}

impl Transport for MemoryTransport {
    open spec fn attempts(&self) -> nat {
        self.tries@
    }

    open spec fn sent(&self) -> Seq<Seq<char>> {
        self.messages@.map_values(|s: String| s@)
    }

    fn endpoint(&self) -> String {
        "memory".to_owned()
    }

    fn write_message(&mut self, msg: &str) -> (r: bool)
        ensures
            final(self).attempts() == old(self).attempts() + 1,
            r ==> final(self).sent() == old(self).sent().push(msg@),
            !r ==> final(self).sent() == old(self).sent(),
    {
        proof {
            self.tries@ = self.tries@ + 1;
        }
        self.messages.push(msg.to_owned());
        proof {
            assert(self.sent() =~= old(self).sent().push(msg@));
        }
        true
    }
}

/// A transport on which every delivery attempt fails; the test double for
/// an unreachable collector. Nothing is ever sent, so `sent()` is empty by
/// definition, and the exec `calls` counter lets tests count the attempts.
pub struct FailingTransport {
    pub calls: u64,
    pub tries: Ghost<nat>,
}

impl FailingTransport {
    pub fn new() -> (r: FailingTransport)
        ensures
            r.attempts() == 0,
            r.calls == 0,
    {
        FailingTransport { calls: 0, tries: Ghost(0) }
    }
}

impl Transport for FailingTransport {
    open spec fn attempts(&self) -> nat {
        self.tries@
    }

    open spec fn sent(&self) -> Seq<Seq<char>> {
        Seq::empty()
    }

    fn endpoint(&self) -> String {
        "unreachable".to_owned()
    }

    fn write_message(&mut self, msg: &str) -> (r: bool)
        ensures
            final(self).attempts() == old(self).attempts() + 1,
            final(self).calls == if old(self).calls < u64::MAX { old(self).calls + 1 } else { old(self).calls as int },
            r ==> final(self).sent() == old(self).sent().push(msg@),
            !r ==> final(self).sent() == old(self).sent(),
    {
        proof {
            self.tries@ = self.tries@ + 1;
        }
        if self.calls < u64::MAX {
            self.calls = self.calls + 1;
        }
        false
    }
}

} // verus!
