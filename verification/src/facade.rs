//! The process-wide logging facade and its builder.
//!
//! Every call site submits events to one `AptosData`. It owns the live
//! filter pair, the enqueue-or-inline-write decision and the formatter. In
//! synchronous mode it writes formatted lines to its own printer on the
//! calling thread; in asynchronous mode it enqueues entries onto the bounded
//! delivery queue and a `LoggerService` drains them. An emission whose
//! metadata neither sink would accept costs nothing: no entry is built, no
//! write, no enqueue.

use vstd::prelude::*;
use crate::entry::{build_data, data_view, Event, LogEntry};
use crate::ext::resolve_hostname;
use crate::filter::{pair_enabled, Filter, FilterPair};
use crate::format::{format_entry, spec_format_entry, Formatter};
use crate::level::{Level, LevelFilter};
use crate::queue::{spec_bump, LoggerServiceEvent, LogQueue};
use crate::service::LoggerService;
use crate::writer::{StderrWriter, Writer};

verus! {

/// Default size of the delivery queue; when it is full, entries are dropped.
pub const CHANNEL_SIZE: usize = 10000;

/// The facade: the shared handle through which every call site logs.
pub struct AptosData<W: Writer> {
    pub enable_backtrace: bool,
    pub sender: Option<LogQueue>,
    pub printer: Option<W>,
    pub filter: FilterPair,
    pub formatter: Formatter,
    pub hostname: Option<String>,
    pub next_flush_token: u64,
}

/// The entry `record` materializes for an accepted event: everything about
/// it is pinned by the event and the facade's configuration except the
/// captured timestamp and backtrace text, which depend on the clock and the
/// machine.
pub open spec fn entry_built_from(
    e: LogEntry,
    ev: Event,
    enable_backtrace: bool,
    hostname: Option<String>,
    thread_name: Option<&str>,
) -> bool {
    &&& e.metadata == ev.metadata
    &&& e.message == ev.message
    &&& (e.thread_name is Some <==> thread_name is Some)
    &&& (thread_name is Some ==> e.thread_name->0@ == thread_name->0@)
    &&& (e.backtrace is Some <==> (enable_backtrace && ev.metadata.level == Level::Error))
    &&& (e.hostname is Some <==> hostname is Some)
    &&& (hostname is Some ==> e.hostname->0@ == hostname->0@)
    &&& e.timestamp@.len() > 0
    &&& data_view(e.data@) == build_data(ev.fields@, ev.fields@.len() as int)
    &&& e.wf()
}

/// How delivering one entry changes the facade's sinks: the configured
/// printer receives the formatted line at once, and the delivery queue
/// receives the entry or drops it when full.
pub open spec fn send_effect<W: Writer>(pre: AptosData<W>, post: AptosData<W>, e: LogEntry) -> bool {
    &&& (pre.printer matches Some(p) ==> (post.printer matches Some(p2) && p2.lines() == p.lines().push(
        spec_format_entry(pre.formatter, e),
    )))
    &&& (pre.printer is None ==> post.printer is None)
    &&& (pre.sender matches Some(q) ==> (post.sender matches Some(q2) && q2.capacity == q.capacity
        && (q.events@.len() < q.capacity ==> q2.events@ == q.events@.push(
            LoggerServiceEvent::LogEntry(e),
        ) && q2.dropped == q.dropped) && (q.events@.len() >= q.capacity ==> q2.events@ == q.events@
        && q2.dropped == spec_bump(q.dropped))))
    &&& (pre.sender is None ==> post.sender is None)
}

impl<W: Writer> AptosData<W> {
    pub fn builder() -> AptosDataBuilder<StderrWriter> {
        AptosDataBuilder::new()
    }

    pub fn new() -> AptosDataBuilder<StderrWriter> {
        Self::builder()
    }

    /// Replaces the local filter; a whole-value swap, the remote filter is
    /// untouched.
    pub fn set_filter(&mut self, filter: Filter)
        ensures
            final(self).filter.local_filter == filter,
            final(self).filter.remote_filter == old(self).filter.remote_filter,
            final(self).enable_backtrace == old(self).enable_backtrace,
            final(self).sender == old(self).sender,
            final(self).printer == old(self).printer,
            final(self).formatter == old(self).formatter,
            final(self).hostname == old(self).hostname,
            final(self).next_flush_token == old(self).next_flush_token,
    {
        self.filter.local_filter = filter;
    }

    /// Replaces the remote filter; a whole-value swap, the local filter is
    /// untouched.
    pub fn set_remote_filter(&mut self, filter: Filter)
        ensures
            final(self).filter.remote_filter == filter,
            final(self).filter.local_filter == old(self).filter.local_filter,
            final(self).enable_backtrace == old(self).enable_backtrace,
            final(self).sender == old(self).sender,
            final(self).printer == old(self).printer,
            final(self).formatter == old(self).formatter,
            final(self).hostname == old(self).hostname,
            final(self).next_flush_token == old(self).next_flush_token,
    {
        self.filter.remote_filter = filter;
    }

    /// The single gate: would either sink accept this call site?
    pub fn enabled(&self, metadata: &crate::entry::Metadata) -> (r: bool)
        ensures
            r == pair_enabled(self.filter, *metadata),
    {
        self.filter.enabled(metadata)
    }

    /// Submits one emission. When neither sink would accept it, this is a
    /// no-op: no entry is built, nothing is written, nothing is enqueued.
    /// Otherwise the entry is built once and delivered to the configured
    /// sinks. The caller supplies its thread's name; capturing it is the
    /// caller's environment read.
    pub fn record(&mut self, event: Event, thread_name: Option<&str>)
        ensures
            !pair_enabled(old(self).filter, event.metadata) ==> *final(self) == *old(self),
            final(self).enable_backtrace == old(self).enable_backtrace,
            final(self).filter == old(self).filter,
            final(self).formatter == old(self).formatter,
            final(self).hostname == old(self).hostname,
            final(self).next_flush_token == old(self).next_flush_token,
            pair_enabled(old(self).filter, event.metadata) ==> (exists|e: LogEntry|
                entry_built_from(e, event, old(self).enable_backtrace, old(self).hostname, thread_name)
                    && send_effect(*old(self), *final(self), e)),
    {
        if !self.filter.enabled(&event.metadata) {
            return ;
        }
        let ghost ev = event;
        let entry = LogEntry::new(event, thread_name, self.enable_backtrace, &self.hostname);
        let ghost ge = entry;
        self.send_entry(entry);
        proof {
            assert(entry_built_from(ge, ev, old(self).enable_backtrace, old(self).hostname, thread_name));
            assert(send_effect(*old(self), *self, ge));
        }
    }

    /// Delivers one already-built entry to the configured sinks: the
    /// printer synchronously, the queue without blocking.
    fn send_entry(&mut self, entry: LogEntry)
        ensures
            final(self).enable_backtrace == old(self).enable_backtrace,
            final(self).filter == old(self).filter,
            final(self).formatter == old(self).formatter,
            final(self).hostname == old(self).hostname,
            final(self).next_flush_token == old(self).next_flush_token,
            send_effect(*old(self), *final(self), entry),
    {
        match &mut self.printer {
            Some(p) => {
                let s = format_entry(self.formatter, &entry);
                p.write(s);
            }
            None => {}
        }
        match &mut self.sender {
            Some(q) => {
                let _ = q.try_send(entry);
            }
            None => {}
        }
    }

    /// Asks for a flush rendezvous. In asynchronous mode this enqueues a
    /// marker behind everything already enqueued and returns the token the
    /// dispatcher will acknowledge once the marker is processed; the
    /// deployed runtime blocks on that acknowledgement. In synchronous mode
    /// every write already happened on the calling thread, so there is
    /// nothing to wait for and no token.
    pub fn flush(&mut self) -> (r: Option<u64>)
        ensures
            final(self).enable_backtrace == old(self).enable_backtrace,
            final(self).filter == old(self).filter,
            final(self).formatter == old(self).formatter,
            final(self).hostname == old(self).hostname,
            final(self).printer == old(self).printer,
            old(self).sender is None ==> r is None && *final(self) == *old(self),
            old(self).sender matches Some(q) ==> (r == Some(old(self).next_flush_token)
                && (final(self).sender matches Some(q2) && q2.capacity == q.capacity
                && q2.dropped == q.dropped && q2.events@ == q.events@.push(
                LoggerServiceEvent::Flush(old(self).next_flush_token),
            )) && final(self).next_flush_token == spec_bump(old(self).next_flush_token)),
    {
        match &mut self.sender {
            Some(q) => {
                let token = self.next_flush_token;
                q.push_flush(token);
                self.next_flush_token = crate::queue::bump(token);
                Some(token)
            }
            None => None,
        }
    }

    /// The number of entries dropped at the queue so far; zero in
    /// synchronous mode.
    pub fn dropped_count(&self) -> (r: u64)
        ensures
            self.sender matches Some(q) ==> r == q.dropped,
            self.sender is None ==> r == 0,
    {
        match &self.sender {
            Some(q) => q.dropped_count(),
            None => 0,
        }
    }
}

/// Assembles a facade, and in asynchronous mode the logger service that the
/// caller runs for it.
pub struct AptosDataBuilder<W: Writer> {
    pub channel_size: usize,
    pub enable_backtrace: bool,
    pub level: Level,
    pub remote_level: Level,
    pub address: Option<String>,
    pub printer: Option<W>,
    pub is_async: bool,
    pub formatter: Formatter,
    pub local_directives: Option<String>,
    pub remote_directives: Option<String>,
}

impl AptosDataBuilder<StderrWriter> {
    pub fn new() -> (r: AptosDataBuilder<StderrWriter>)
        ensures
            r.channel_size == CHANNEL_SIZE,
            !r.enable_backtrace,
            r.level == Level::Info,
            r.remote_level == Level::Info,
            r.address is None,
            r.printer is Some,
            r.printer->0.lines() == Seq::<Seq<char>>::empty(),
            !r.is_async,
            r.formatter == Formatter::Full,
            r.local_directives is None,
            r.remote_directives is None,
    {
        AptosDataBuilder {
            channel_size: CHANNEL_SIZE,
            enable_backtrace: false,
            level: Level::Info,
            remote_level: Level::Info,
            address: None,
            printer: Some(StderrWriter::new()),
            is_async: false,
            formatter: Formatter::Full,
            local_directives: None,
            remote_directives: None,
        }
    }
}

impl<W: Writer> AptosDataBuilder<W> {
    pub fn address(self, address: String) -> (r: Self)
        ensures
            r == (AptosDataBuilder { address: Some(address), ..self }),
    {
        AptosDataBuilder { address: Some(address), ..self }
    }

    pub fn enable_backtrace(self) -> (r: Self)
        ensures
            r == (AptosDataBuilder { enable_backtrace: true, ..self }),
    {
        AptosDataBuilder { enable_backtrace: true, ..self }
    }

    pub fn level(self, level: Level) -> (r: Self)
        ensures
            r == (AptosDataBuilder { level, ..self }),
    {
        AptosDataBuilder { level, ..self }
    }

    pub fn remote_level(self, level: Level) -> (r: Self)
        ensures
            r == (AptosDataBuilder { remote_level: level, ..self }),
    {
        AptosDataBuilder { remote_level: level, ..self }
    }

    pub fn channel_size(self, channel_size: usize) -> (r: Self)
        ensures
            r == (AptosDataBuilder { channel_size, ..self }),
    {
        AptosDataBuilder { channel_size, ..self }
    }

    /// Sets the local sink, possibly of a different writer type.
    pub fn printer<W2: Writer>(self, printer: W2) -> (r: AptosDataBuilder<W2>)
        ensures
            r.channel_size == self.channel_size,
            r.enable_backtrace == self.enable_backtrace,
            r.level == self.level,
            r.remote_level == self.remote_level,
            r.address == self.address,
            r.printer == Some(printer),
            r.is_async == self.is_async,
            r.formatter == self.formatter,
            r.local_directives == self.local_directives,
            r.remote_directives == self.remote_directives,
    {
        AptosDataBuilder {
            channel_size: self.channel_size,
            enable_backtrace: self.enable_backtrace,
            level: self.level,
            remote_level: self.remote_level,
            address: self.address,
            printer: Some(printer),
            is_async: self.is_async,
            formatter: self.formatter,
            local_directives: self.local_directives,
            remote_directives: self.remote_directives,
        }
    }

    pub fn is_async(self, is_async: bool) -> (r: Self)
        ensures
            r == (AptosDataBuilder { is_async, ..self }),
    {
        AptosDataBuilder { is_async, ..self }
    }

    /// Chooses the formatting capability; the default is the full line.
    pub fn custom_format(self, formatter: Formatter) -> (r: Self)
        ensures
            r == (AptosDataBuilder { formatter, ..self }),
    {
        AptosDataBuilder { formatter, ..self }
    }

    /// Configures the local sink from a directive string instead of a bare
    /// level; the environment read that supplies the string is the
    /// caller's.
    pub fn local_directives(self, directives: String) -> (r: Self)
        ensures
            r == (AptosDataBuilder { local_directives: Some(directives), ..self }),
    {
        AptosDataBuilder { local_directives: Some(directives), ..self }
    }

    /// Configures the remote sink from a directive string.
    pub fn remote_directives(self, directives: String) -> (r: Self)
        ensures
            r == (AptosDataBuilder { remote_directives: Some(directives), ..self }),
    {
        AptosDataBuilder { remote_directives: Some(directives), ..self }
    }

    /// Builds the facade, and in asynchronous mode the logger service to
    /// run on the dispatcher thread. The local filter comes from the local
    /// directive string when one was given, else from the default level.
    /// The remote filter is consulted only when asynchronous with a remote
    /// address, and is otherwise off; its directives come from the remote
    /// directive string, falling back to the local one, else from the
    /// default remote level. In asynchronous mode the facade owns
    /// the bounded queue and the service owns the printer; in synchronous
    /// mode the facade writes to the printer itself. The hostname is
    /// resolved here, once, and cached for every entry.
    pub fn build(self) -> (r: (AptosData<W>, Option<LoggerService<W>>))
        ensures
            r.0.enable_backtrace == self.enable_backtrace,
            r.0.formatter == self.formatter,
            r.0.next_flush_token == 0,
            ({
                let local = r.0.filter.local_filter;
                match self.local_directives {
                    Some(s) => crate::filter::directives_view(local.directives@)
                        == crate::filter::spec_parse(s@, crate::level::spec_level_to_filter(self.level)).directives
                        && local.default_level == crate::filter::spec_parse(
                        s@,
                        crate::level::spec_level_to_filter(self.level),
                    ).default_level,
                    None => local.directives@.len() == 0 && crate::level::filter_rank(
                        local.default_level,
                    ) == crate::level::level_rank(self.level),
                }
            }),
            ({
                let remote = r.0.filter.remote_filter;
                let dirs = if self.remote_directives is Some {
                    self.remote_directives
                } else {
                    self.local_directives
                };
                if self.is_async && self.address is Some {
                    match dirs {
                        Some(s) => crate::filter::directives_view(remote.directives@)
                            == crate::filter::spec_parse(
                            s@,
                            crate::level::spec_level_to_filter(self.remote_level),
                        ).directives && remote.default_level == crate::filter::spec_parse(
                            s@,
                            crate::level::spec_level_to_filter(self.remote_level),
                        ).default_level,
                        None => remote.directives@.len() == 0 && crate::level::filter_rank(
                            remote.default_level,
                        ) == crate::level::level_rank(self.remote_level),
                    }
                } else {
                    remote.directives@.len() == 0 && remote.default_level == LevelFilter::Off
                }
            }),
            self.is_async ==> (r.0.sender matches Some(q) && q.capacity == self.channel_size
                && q.events@.len() == 0 && q.dropped == 0) && r.0.printer is None
                && (r.1 matches Some(svc) && svc.printer == self.printer
                && svc.address == self.address && svc.flush_acks@.len() == 0
                && svc.counters.processed == 0 && svc.counters.sent == 0
                && svc.counters.sent_bytes == 0 && svc.counters.send_errors == 0
                && svc.counters.serialize_errors == 0),
            !self.is_async ==> r.0.sender is None && r.0.printer == self.printer && r.1 is None,
    {
        let AptosDataBuilder {
            channel_size,
            enable_backtrace,
            level,
            remote_level,
            address,
            printer,
            is_async,
            formatter,
            local_directives,
            remote_directives,
        } = self;

        let local_filter = match &local_directives {
            Some(s) => Filter::from_directives(s.as_str(), level.to_filter()).0,
            None => Filter::from_level(level.to_filter()),
        };
        let remote_filter = if is_async && address.is_some() {
            match &remote_directives {
                Some(s) => Filter::from_directives(s.as_str(), remote_level.to_filter()).0,
                None => match &local_directives {
                    Some(s) => Filter::from_directives(s.as_str(), remote_level.to_filter()).0,
                    None => Filter::from_level(remote_level.to_filter()),
                },
            }
        } else {
            Filter::from_level(LevelFilter::Off)
        };
        let filter = FilterPair { local_filter, remote_filter };
        let hostname = resolve_hostname();

        if is_async {
            let facade = AptosData {
                enable_backtrace,
                sender: Some(LogQueue::new(channel_size)),
                printer: None,
                filter,
                formatter,
                hostname,
                next_flush_token: 0,
            };
            let service = LoggerService {
                printer,
                address,
                counters: crate::service::ServiceCounters::new(),
                flush_acks: Vec::new(),
            };
            (facade, Some(service))
        } else {
            let facade = AptosData {
                enable_backtrace,
                sender: None,
                printer,
                filter,
                formatter,
                hostname,
                next_flush_token: 0,
            };
            (facade, None)
        }
    }
}

} // verus!
