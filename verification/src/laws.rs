//! The pipeline's cross-component guarantees, stated and proved over the
//! same specifications the components' own contracts use.

use vstd::prelude::*;
use crate::entry::LogEntry;
use crate::filter::{filter_enabled, Filter};
use crate::format::{spec_format_entry, spec_wire_line, Formatter};
use crate::level::{Level, LevelFilter};
use crate::queue::{spec_bump, LoggerServiceEvent};
use crate::service::{flush_tokens, local_lines, remote_count, ServiceCounters};
use crate::transport::{FailingTransport, Transport};

verus! {

/// Flush ordering: in one drain of the delivery queue, every entry that
/// stands before a flush marker and passes the local filter has its
/// formatted line among the lines handed to the local writer, and the
/// marker's token is among the acknowledged tokens. Together with `run`'s
/// contract — the printer's lines grow by exactly `local_lines` and the
/// acknowledgements by exactly `flush_tokens` — this is the rendezvous
/// guarantee: by the time a flush is acknowledged, everything its issuer
/// enqueued first has been written.
pub proof fn lemma_flush_ordering(
    q: Seq<LoggerServiceEvent>,
    f: Filter,
    fmtr: Formatter,
    i: int,
    j: int,
)
    requires
        0 <= j < i < q.len(),
        q[i] is Flush,
        q[j] is LogEntry,
        filter_enabled(f, q[j]->LogEntry_0.metadata),
    ensures
        local_lines(q, f, fmtr).contains(spec_format_entry(fmtr, q[j]->LogEntry_0)),
        flush_tokens(q).contains(q[i]->Flush_0),
    decreases j,
{
    lemma_local_lines_contains(q, f, fmtr, j);
    lemma_flush_tokens_contains(q, i);
}

/// Any accepted entry's line is among the drain's local lines.
pub proof fn lemma_local_lines_contains(
    q: Seq<LoggerServiceEvent>,
    f: Filter,
    fmtr: Formatter,
    j: int,
)
    requires
        0 <= j < q.len(),
        q[j] is LogEntry,
        filter_enabled(f, q[j]->LogEntry_0.metadata),
    ensures
        local_lines(q, f, fmtr).contains(spec_format_entry(fmtr, q[j]->LogEntry_0)),
    decreases j,
{
    if j == 0 {
        assert(local_lines(q, f, fmtr)[0] == spec_format_entry(fmtr, q[0]->LogEntry_0));
    } else {
        lemma_local_lines_contains(q.skip(1), f, fmtr, j - 1);
        assert(q.skip(1)[j - 1] == q[j]);
        let line = spec_format_entry(fmtr, q[j]->LogEntry_0);
        let rest = local_lines(q.skip(1), f, fmtr);
        let w = choose|w: int| 0 <= w < rest.len() && rest[w] == line;
        match q[0] {
            LoggerServiceEvent::LogEntry(e) => {
                if filter_enabled(f, e.metadata) {
                    assert(local_lines(q, f, fmtr)[w + 1] == line);
                } else {
                    assert(local_lines(q, f, fmtr)[w] == line);
                }
            }
            LoggerServiceEvent::Flush(_) => {
                assert(local_lines(q, f, fmtr)[w] == line);
            }
        }
    }
}

/// Any marker's token is among the drain's acknowledged tokens.
pub proof fn lemma_flush_tokens_contains(q: Seq<LoggerServiceEvent>, i: int)
    requires
        0 <= i < q.len(),
        q[i] is Flush,
    ensures
        flush_tokens(q).contains(q[i]->Flush_0),
    decreases i,
{
    if i == 0 {
        assert(flush_tokens(q)[0] == q[0]->Flush_0);
    } else {
        lemma_flush_tokens_contains(q.skip(1), i - 1);
        assert(q.skip(1)[i - 1] == q[i]);
        let tok = q[i]->Flush_0;
        let rest = flush_tokens(q.skip(1));
        let w = choose|w: int| 0 <= w < rest.len() && rest[w] == tok;
        match q[0] {
            LoggerServiceEvent::LogEntry(_) => {
                assert(flush_tokens(q)[w] == tok);
            }
            LoggerServiceEvent::Flush(_) => {
                assert(flush_tokens(q)[w + 1] == tok);
            }
        }
    }
}

/// Independent sink filtering: with the local sink at the debug threshold
/// and the remote sink off, draining a queue of debug-level entries echoes
/// every one of them locally and selects none for remote delivery.
pub proof fn lemma_independent_sinks(
    q: Seq<LoggerServiceEvent>,
    local: Filter,
    remote: Filter,
    fmtr: Formatter,
)
    requires
        local.directives@.len() == 0,
        local.default_level == LevelFilter::Debug,
        remote.directives@.len() == 0,
        remote.default_level == LevelFilter::Off,
        forall|k: int|
            0 <= k < q.len() ==> (#[trigger] q[k]) is LogEntry && q[k]->LogEntry_0.metadata.level
                == Level::Debug,
    ensures
        local_lines(q, local, fmtr).len() == q.len(),
        remote_count(q, remote) == 0,
    decreases q.len(),
{
    if q.len() != 0 {
        let m = q[0]->LogEntry_0.metadata;
        assert(crate::filter::directives_view(local.directives@).len() == 0);
        assert(crate::filter::directives_view(remote.directives@).len() == 0);
        assert(filter_enabled(local, m));
        assert(!filter_enabled(remote, m));
        lemma_independent_sinks(q.skip(1), local, remote, fmtr);
    }
}

/// Remote retry-then-drop: delivering one entry over a transport that never
/// accepts — `FailingTransport`'s sent lines are empty by definition — makes
/// exactly two attempts (the original and one retry), counts exactly one
/// send error, and changes nothing else; the pipeline carries on. The
/// hypotheses are exactly what one `write_to_logstash` call guarantees.
pub proof fn lemma_retry_then_drop(
    t0: FailingTransport,
    t1: FailingTransport,
    c0: ServiceCounters,
    c1: ServiceCounters,
    e: LogEntry,
)
    requires
        t0.attempts() + 1 <= t1.attempts() <= t0.attempts() + 2,
        t1.sent() == t0.sent() || t1.sent() == t0.sent().push(spec_wire_line(e)),
        t1.sent() == t0.sent() ==> (t1.attempts() == t0.attempts() + 2 && c1.send_errors
            == spec_bump(c0.send_errors) && c1.sent == c0.sent && c1.sent_bytes == c0.sent_bytes),
    ensures
        t1.attempts() == t0.attempts() + 2,
        c1.send_errors == spec_bump(c0.send_errors),
        c1.sent == c0.sent,
    {
        assert(t0.sent().len() == 0 && t1.sent().len() == 0);
        assert(t1.sent() == t0.sent());
    }

} // verus!
