//! The dispatcher: drains the delivery queue and fans each entry out to the
//! local printer and the remote transport, re-consulting the live filters
//! per sink, acknowledging flush markers in arrival order, and retrying a
//! failed remote delivery a bounded number of times before dropping that one
//! entry.

use vstd::prelude::*;
use vstd::string::*;
use crate::ext::write_stderr_line;
use crate::facade::AptosData;
use crate::filter::{filter_enabled, Filter};
use crate::format::{format_entry, spec_format_entry, spec_wire_line, wire_line, Formatter};
use crate::queue::{bump, bump_by, sat_add, spec_bump, LoggerServiceEvent};
use crate::transport::Transport;
use crate::writer::Writer;

verus! {

/// After a failed remote delivery the send is retried this many times, with
/// a fresh connection attempt each time; then the entry is dropped.
pub const NUM_SEND_RETRIES: u8 = 1;

/// The pipeline's metric counters: entries processed, remote entries and
/// bytes sent, remote send errors, serialize errors. Monotonic; they
/// saturate at the top of their range. The serialize-error counter stands
/// in the metrics surface for completeness: the wire renderer is total, so
/// nothing here increments it.
pub struct ServiceCounters {
    pub processed: u64,
    pub sent: u64,
    pub sent_bytes: u64,
    pub send_errors: u64,
    pub serialize_errors: u64,
}

impl ServiceCounters {
    pub fn new() -> (r: ServiceCounters)
        ensures
            r.processed == 0,
            r.sent == 0,
            r.sent_bytes == 0,
            r.send_errors == 0,
            r.serialize_errors == 0,
    {
        ServiceCounters { processed: 0, sent: 0, sent_bytes: 0, send_errors: 0, serialize_errors: 0 }
    }
}

/// The formatted lines the local printer receives from draining `q`: one
/// per entry the local filter accepts, in queue order.
pub open spec fn local_lines(q: Seq<LoggerServiceEvent>, f: Filter, fmtr: Formatter) -> Seq<Seq<char>>
    decreases q.len(),
{
    if q.len() == 0 {
        Seq::empty()
    } else {
        let rest = local_lines(q.skip(1), f, fmtr);
        match q[0] {
            LoggerServiceEvent::LogEntry(e) => if filter_enabled(f, e.metadata) {
                seq![spec_format_entry(fmtr, e)] + rest
            } else {
                rest
            },
            LoggerServiceEvent::Flush(_) => rest,
        }
    }
}

/// How many entries `q` holds.
pub open spec fn entry_count(q: Seq<LoggerServiceEvent>) -> int
    decreases q.len(),
{
    if q.len() == 0 {
        0
    } else {
        (match q[0] {
            LoggerServiceEvent::LogEntry(_) => 1int,
            LoggerServiceEvent::Flush(_) => 0int,
        }) + entry_count(q.skip(1))
    }
}

/// How many entries of `q` the filter accepts.
pub open spec fn remote_count(q: Seq<LoggerServiceEvent>, f: Filter) -> int
    decreases q.len(),
{
    if q.len() == 0 {
        0
    } else {
        (match q[0] {
            LoggerServiceEvent::LogEntry(e) => if filter_enabled(f, e.metadata) {
                1int
            } else {
                0int
            },
            LoggerServiceEvent::Flush(_) => 0int,
        }) + remote_count(q.skip(1), f)
    }
}

/// `line` is the wire line of an entry of `q` that the filter accepts:
/// everything a drain hands the transport is of this shape.
pub open spec fn wire_line_from(line: Seq<char>, q: Seq<LoggerServiceEvent>, f: Filter) -> bool {
    exists|j: int|
        0 <= j < q.len() && (#[trigger] q[j]) is LogEntry && filter_enabled(
            f,
            q[j]->LogEntry_0.metadata,
        ) && line == spec_wire_line(q[j]->LogEntry_0)
}

/// The flush tokens in `q`, in order.
pub open spec fn flush_tokens(q: Seq<LoggerServiceEvent>) -> Seq<u64>
    decreases q.len(),
{
    if q.len() == 0 {
        Seq::empty()
    } else {
        let rest = flush_tokens(q.skip(1));
        match q[0] {
            LoggerServiceEvent::LogEntry(_) => rest,
            LoggerServiceEvent::Flush(tok) => seq![tok] + rest,
        }
    }
}

pub proof fn lemma_counts_nonneg(q: Seq<LoggerServiceEvent>, f: Filter)
    ensures
        entry_count(q) >= 0,
        remote_count(q, f) >= 0,
        remote_count(q, f) <= entry_count(q),
    decreases q.len(),
{
    if q.len() != 0 {
        lemma_counts_nonneg(q.skip(1), f);
    }
}

/// The background dispatcher's state: its own printer for local echo, the
/// optional remote address, the metric counters, and the flush tokens it
/// has acknowledged.
pub struct LoggerService<W: Writer> {
    pub printer: Option<W>,
    pub address: Option<String>,
    pub counters: ServiceCounters,
    pub flush_acks: Vec<u64>,
}

impl<W: Writer> LoggerService<W> {
    /// Sends one entry's wire line to the remote collector: one attempt,
    /// and on failure one retry on a fresh connection. When both fail the
    /// entry is dropped, the send-error counter bumped and a diagnostic
    /// written naming the endpoint; the dispatch loop itself never fails.
    pub fn write_to_logstash<T: Transport>(
        counters: &mut ServiceCounters,
        stream: &mut T,
        entry: crate::entry::LogEntry,
    )
        ensures
            final(counters).processed == old(counters).processed,
            final(counters).serialize_errors == old(counters).serialize_errors,
            old(stream).attempts() + 1 <= final(stream).attempts(),
            final(stream).attempts() <= old(stream).attempts() + 2,
            final(stream).sent() == old(stream).sent()
                || final(stream).sent() == old(stream).sent().push(spec_wire_line(entry)),
            final(stream).sent() != old(stream).sent() ==> (
                final(counters).sent == spec_bump(old(counters).sent)
                && final(counters).send_errors == old(counters).send_errors
                && final(counters).sent_bytes >= old(counters).sent_bytes),
            final(stream).sent() == old(stream).sent() ==> (
                final(stream).attempts() == old(stream).attempts() + 2
                && final(counters).send_errors == spec_bump(old(counters).send_errors)
                && final(counters).sent == old(counters).sent
                && final(counters).sent_bytes == old(counters).sent_bytes),
    {
        let msg = wire_line(&entry);
        let msg_len = msg.as_str().len();

        let mut ok = stream.write_message(msg.as_str());
        let mut retries: u8 = 0;
        while retries < NUM_SEND_RETRIES && !ok
            invariant
                retries <= NUM_SEND_RETRIES,
                NUM_SEND_RETRIES == 1,
                msg@ == spec_wire_line(entry),
                old(stream).attempts() + 1 <= stream.attempts(),
                stream.attempts() <= old(stream).attempts() + 1 + retries,
                !ok ==> stream.attempts() == old(stream).attempts() + 1 + retries
                    && stream.sent() == old(stream).sent(),
                ok ==> stream.sent() == old(stream).sent().push(spec_wire_line(entry)),
            decreases NUM_SEND_RETRIES - retries,
        {
            ok = stream.write_message(msg.as_str());
            retries = retries + 1;
        }

        if ok {
            counters.sent = bump(counters.sent);
            counters.sent_bytes = bump_by(counters.sent_bytes, msg_len as u64);
            proof {
                assert(final(stream).sent().len() == old(stream).sent().len() + 1);
            }
        } else {
            counters.send_errors = bump(counters.send_errors);
            let ep = stream.endpoint();
            let mut diag = "[Logging] error while sending a log line to the remote collector (".to_owned();
            diag.append(ep.as_str());
            diag.append(")");
            write_stderr_line(diag.as_str());
        }
    }

    /// Drains the facade's delivery queue, in arrival order. Each entry is
    /// counted, echoed to this service's printer when the live local filter
    /// accepts it, and sent to the remote transport (with bounded retry)
    /// when a remote address is configured and the live remote filter
    /// accepts it. Each flush marker is acknowledged in place, so every
    /// entry enqueued before a marker is dispatched before the marker's
    /// acknowledgement.
    pub fn run<WF: Writer, T: Transport>(
        &mut self,
        facade: &mut AptosData<WF>,
        remote: &mut T,
    )
        ensures
            final(facade).enable_backtrace == old(facade).enable_backtrace,
            final(facade).printer == old(facade).printer,
            final(facade).filter == old(facade).filter,
            final(facade).formatter == old(facade).formatter,
            final(facade).hostname == old(facade).hostname,
            final(facade).next_flush_token == old(facade).next_flush_token,
            final(self).address == old(self).address,
            final(self).counters.serialize_errors == old(self).counters.serialize_errors,
            old(facade).sender is None ==> final(facade).sender is None && *final(self) == *old(self)
                && *final(remote) == *old(remote),
            old(facade).sender matches Some(q) ==> ({
                let q0 = q.events@;
                let lf = old(facade).filter.local_filter;
                let rf = old(facade).filter.remote_filter;
                let fmtr = old(facade).formatter;
                let rc = if old(self).address is Some {
                    remote_count(q0, rf)
                } else {
                    0int
                };
                &&& (final(facade).sender matches Some(q2) && q2.events@.len() == 0 && q2.capacity
                    == q.capacity && q2.dropped == q.dropped)
                &&& (old(self).printer matches Some(p) ==> (final(self).printer matches Some(p2)
                    && p2.lines() == p.lines() + local_lines(q0, lf, fmtr)))
                &&& (old(self).printer is None ==> final(self).printer is None)
                &&& final(self).flush_acks@ == old(self).flush_acks@ + flush_tokens(q0)
                &&& final(self).counters.processed as int == sat_add(
                    old(self).counters.processed as int,
                    entry_count(q0),
                )
                &&& old(remote).attempts() + rc <= final(remote).attempts()
                &&& final(remote).attempts() <= old(remote).attempts() + 2 * rc
                &&& final(remote).sent().len() <= old(remote).sent().len() + rc
                &&& final(remote).sent().len() >= old(remote).sent().len()
                &&& (forall|k: int|
                    0 <= k < old(remote).sent().len() ==> #[trigger] final(remote).sent()[k]
                        == old(remote).sent()[k])
                &&& (forall|k: int|
                    old(remote).sent().len() <= k < final(remote).sent().len()
                        ==> wire_line_from(#[trigger] final(remote).sent()[k], q0, rf))
                &&& (rc == 0 ==> *final(remote) == *old(remote))
                &&& final(self).counters.sent >= old(self).counters.sent
                &&& final(self).counters.send_errors >= old(self).counters.send_errors
                &&& final(self).counters.sent_bytes >= old(self).counters.sent_bytes
                &&& final(self).counters.sent + final(self).counters.send_errors
                    <= old(self).counters.sent + old(self).counters.send_errors + rc
                &&& ((old(self).counters.sent + rc <= u64::MAX
                    && old(self).counters.send_errors + rc <= u64::MAX)
                    ==> final(self).counters.sent + final(self).counters.send_errors
                        == old(self).counters.sent + old(self).counters.send_errors + rc)
            }),
    {
        let is_sync = match &facade.sender {
            Some(_) => false,
            None => true,
        };
        if is_sync {
            return ;
        }
        let ghost q0 = facade.sender->0.events@;
        let ghost lf = facade.filter.local_filter;
        let ghost rf = facade.filter.remote_filter;
        let ghost fmtr = facade.formatter;
        let ghost rc0 = if self.address is Some {
            remote_count(q0, rf)
        } else {
            0int
        };
        proof {
            lemma_counts_nonneg(q0, rf);
        }
        let ghost mut pos: int = 0;
        loop
            invariant
                facade.sender is Some,
                facade.enable_backtrace == old(facade).enable_backtrace,
                facade.printer == old(facade).printer,
                facade.filter == old(facade).filter,
                facade.formatter == old(facade).formatter,
                facade.hostname == old(facade).hostname,
                facade.next_flush_token == old(facade).next_flush_token,
                lf == old(facade).filter.local_filter,
                rf == old(facade).filter.remote_filter,
                fmtr == old(facade).formatter,
                q0 == old(facade).sender->0.events@,
                rc0 == (if old(self).address is Some { remote_count(q0, rf) } else { 0int }),
                facade.sender->0.capacity == old(facade).sender->0.capacity,
                facade.sender->0.dropped == old(facade).sender->0.dropped,
                self.address == old(self).address,
                self.counters.serialize_errors == old(self).counters.serialize_errors,
                ({
                    let rem = facade.sender->0.events@;
                    let h = (if old(self).address is Some {
                        remote_count(q0, rf) - remote_count(rem, rf)
                    } else {
                        0int
                    });
                    &&& 0 <= pos <= q0.len()
                    &&& rem =~= q0.skip(pos)
                    &&& remote.sent().len() >= old(remote).sent().len()
                    &&& (forall|k: int|
                        0 <= k < old(remote).sent().len() ==> #[trigger] remote.sent()[k] == old(
                            remote,
                        ).sent()[k])
                    &&& (forall|k: int|
                        old(remote).sent().len() <= k < remote.sent().len() ==> wire_line_from(
                            #[trigger] remote.sent()[k],
                            q0,
                            rf,
                        ))
                    &&& 0 <= entry_count(rem) <= entry_count(q0)
                    &&& (old(self).address is Some ==> 0 <= remote_count(rem, rf)
                        && remote_count(rem, rf) <= remote_count(q0, rf))
                    &&& (old(self).printer matches Some(p) ==> (self.printer matches Some(p2)
                        && p2.lines() + local_lines(rem, lf, fmtr)
                            == p.lines() + local_lines(q0, lf, fmtr)))
                    &&& (old(self).printer is None ==> self.printer is None)
                    &&& self.flush_acks@ + flush_tokens(rem) == old(self).flush_acks@
                        + flush_tokens(q0)
                    &&& self.counters.processed as int == sat_add(
                        old(self).counters.processed as int,
                        entry_count(q0) - entry_count(rem),
                    )
                    &&& old(remote).attempts() + h <= remote.attempts() <= old(remote).attempts()
                        + 2 * h
                    &&& remote.sent().len() <= old(remote).sent().len() + h
                    &&& (h == 0 ==> *remote == *old(remote))
                    &&& self.counters.sent >= old(self).counters.sent
                    &&& self.counters.send_errors >= old(self).counters.send_errors
                    &&& self.counters.sent_bytes >= old(self).counters.sent_bytes
                    &&& self.counters.sent + self.counters.send_errors <= old(self).counters.sent
                        + old(self).counters.send_errors + h
                    &&& ((old(self).counters.sent + rc0 <= u64::MAX
                        && old(self).counters.send_errors + rc0 <= u64::MAX)
                        ==> self.counters.sent + self.counters.send_errors
                            == old(self).counters.sent + old(self).counters.send_errors + h)
                }),
            ensures
                facade.sender is Some,
                facade.sender->0.events@.len() == 0,
            decreases facade.sender->0.events@.len(),
        {
            let ghost rem_old = facade.sender->0.events@;
            let ev = match &mut facade.sender {
                Some(q) => q.pop_front(),
                None => None,
            };
            proof {
                if rem_old.len() > 0 {
                    lemma_counts_nonneg(rem_old.skip(1), rf);
                    assert(rem_old[0] == q0[pos]);
                    assert(q0.skip(pos).skip(1) =~= q0.skip(pos + 1));
                    pos = pos + 1;
                }
            }
            match ev {
                None => {
                    break ;
                }
                Some(LoggerServiceEvent::LogEntry(e)) => {
                    self.counters.processed = bump(self.counters.processed);
                    match &mut self.printer {
                        Some(p) => {
                            if facade.filter.local_filter.enabled(&e.metadata) {
                                let s = format_entry(facade.formatter, &e);
                                p.write(s);
                            }
                        }
                        None => {}
                    }
                    let remote_on = match &self.address {
                        Some(_) => true,
                        None => false,
                    };
                    if remote_on {
                        if facade.filter.remote_filter.enabled(&e.metadata) {
                            let ghost sent_before = remote.sent();
                            Self::write_to_logstash(&mut self.counters, remote, e);
                            proof {
                                if remote.sent() != sent_before {
                                    assert(q0[pos - 1] == LoggerServiceEvent::LogEntry(e));
                                    assert(wire_line_from(spec_wire_line(e), q0, rf));
                                    assert(remote.sent() == sent_before.push(spec_wire_line(e)));
                                }
                            }
                        }
                    }
                    proof {
                        assert(rem_old[0] == LoggerServiceEvent::LogEntry(e));
                        assert(facade.sender->0.events@ == rem_old.skip(1));
                        if old(self).printer is Some {
                            assert(self.printer matches Some(p2)
                                && old(self).printer matches Some(p)
                                && p2.lines() + local_lines(rem_old.skip(1), lf, fmtr)
                                    == p.lines() + local_lines(q0, lf, fmtr));
                        }
                        assert(self.flush_acks@ + flush_tokens(rem_old.skip(1))
                            == old(self).flush_acks@ + flush_tokens(q0));
                    }
                }
                Some(LoggerServiceEvent::Flush(tok)) => {
                    self.flush_acks.push(tok);
                    proof {
                        assert(rem_old[0] == LoggerServiceEvent::Flush(tok));
                        assert(flush_tokens(rem_old) == seq![tok] + flush_tokens(rem_old.skip(1)));
                        assert(self.flush_acks@ + flush_tokens(rem_old.skip(1))
                            =~= old(self).flush_acks@ + flush_tokens(q0));
                    }
                }
            }
        }
        proof {
            let rem = facade.sender->0.events@;
            assert(rem.len() == 0);
            assert(local_lines(rem, lf, fmtr) =~= Seq::<Seq<char>>::empty());
            assert(flush_tokens(rem) =~= Seq::<u64>::empty());
            if old(self).printer is Some {
                assert(self.printer->0.lines()
                    =~= old(self).printer->0.lines() + local_lines(q0, lf, fmtr));
            }
            assert(self.flush_acks@ =~= old(self).flush_acks@ + flush_tokens(q0));
        }
    }
}

} // verus!
