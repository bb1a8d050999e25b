//! Call-site metadata, events and the materialized log entry.
//!
//! A `Metadata` describes one call site and is shared by every emission from
//! it. An `Event` is one emission: the metadata, an optional message and a
//! sequence of key/value pairs. A `LogEntry` is the immutable record built
//! once per accepted emission; its field map keeps keys unique and sorted,
//! an invariant the formatters and the remote wire format rely on.

use vstd::prelude::*;
use vstd::string::*;
use crate::ext::{backtrace_frames, capture_backtrace, format_frames, now_rfc3339_micros, push_char, str_eq};
use crate::json::JsonVal;
use crate::level::Level;
use crate::ext::write_stderr_line;
use crate::strutil::{lemma_lex_lt_total, lemma_lex_lt_trans, lex_lt, spec_u64_dec, push_u64_dec, str_lt};

verus! {

/// Immutable call-site descriptor.
#[derive(Copy, Clone, Debug)]
pub struct Metadata {
    pub level: Level,
    pub target: &'static str,
    pub module: &'static str,
    pub file: &'static str,
    pub line: u32,
}

impl Metadata {
    pub fn new(
        level: Level,
        target: &'static str,
        module: &'static str,
        file: &'static str,
        line: u32,
    ) -> (r: Metadata)
        ensures
            r == (Metadata { level, target, module, file, line }),
    {
        Metadata { level, target, module, file, line }
    }

    pub fn level(&self) -> (r: Level)
        ensures
            r == self.level,
    {
        self.level
    }

    pub fn target(&self) -> (r: &'static str)
        ensures
            r == self.target,
    {
        self.target
    }

    pub fn module(&self) -> (r: &'static str)
        ensures
            r == self.module,
    {
        self.module
    }

    pub fn file(&self) -> (r: &'static str)
        ensures
            r == self.file,
    {
        self.file
    }

    pub fn line(&self) -> (r: u32)
        ensures
            r == self.line,
    {
        self.line
    }

    /// Renders the call site as `file:line`.
    pub fn location(&self) -> (r: String)
        ensures
            r@ == spec_location(*self),
    {
        let mut out = self.file.to_owned();
        push_char(&mut out, ':');
        push_u64_dec(&mut out, self.line as u64);
        proof {
            assert(out@ =~= spec_location(*self));
        }
        out
    }
}

/// The `file:line` rendering of a call site.
pub open spec fn spec_location(m: Metadata) -> Seq<char> {
    m.file@ + seq![':'] + spec_u64_dec(m.line as int)
}

/// A field name, fixed at the call site.
#[derive(Copy, Clone, Debug)]
pub struct Key(pub &'static str);

impl Key {
    pub fn new(s: &'static str) -> (r: Key)
        ensures
            r == Key(s),
    {
        Key(s)
    }

    pub fn as_str(&self) -> (r: &'static str)
        ensures
            r == self.0,
    {
        self.0
    }
}

/// One field value as captured at the call site: text rendered from a debug
/// or display implementation, an already structured value, or a structured
/// value whose conversion failed (such a field is skipped, never fatal).
#[derive(Debug)]
pub enum FieldValue {
    DebugText(String),
    DisplayText(String),
    Structured(JsonVal),
    Unserializable,
}

/// The structured value a field contributes to the entry's field map, if any.
pub open spec fn field_json(v: FieldValue) -> Option<JsonVal> {
    match v {
        FieldValue::DebugText(s) => Some(JsonVal::Str(s)),
        FieldValue::DisplayText(s) => Some(JsonVal::Str(s)),
        FieldValue::Structured(j) => Some(j),
        FieldValue::Unserializable => None,
    }
}

impl FieldValue {
    /// Converts the captured value into the structured value stored in the
    /// entry, or `None` when the conversion failed at capture time.
    pub fn into_json(self) -> (r: Option<JsonVal>)
        ensures
            r == field_json(self),
    {
        match self {
            FieldValue::DebugText(s) => Some(JsonVal::Str(s)),
            FieldValue::DisplayText(s) => Some(JsonVal::Str(s)),
            FieldValue::Structured(j) => Some(j),
            FieldValue::Unserializable => None,
        }
    }
}

/// One emission: metadata, optional message, field key/value pairs.
/// Ephemeral; it is consumed by the entry it produces.
#[derive(Debug)]
pub struct Event {
    pub metadata: Metadata,
    pub message: Option<String>,
    pub fields: Vec<(Key, FieldValue)>,
}

impl Event {
    pub fn new(metadata: Metadata, message: Option<String>, fields: Vec<(Key, FieldValue)>) -> (r: Event)
        ensures
            r == (Event { metadata, message, fields }),
    {
        Event { metadata, message, fields }
    }

    pub fn metadata(&self) -> (r: &Metadata)
        ensures
            r == self.metadata,
    {
        &self.metadata
    }
}

/// The field map as contracts speak of it: each pair's key by its characters.
pub open spec fn data_view(data: Seq<(String, JsonVal)>) -> Seq<(Seq<char>, JsonVal)> {
    data.map_values(|p: (String, JsonVal)| (p.0@, p.1))
}

/// Keys strictly ascending: unique and sorted.
pub open spec fn keys_sorted(data: Seq<(Seq<char>, JsonVal)>) -> bool {
    forall|i: int, j: int| 0 <= i < j < data.len() ==> lex_lt(#[trigger] data[i].0, #[trigger] data[j].0)
}

/// Insertion into a key-sorted map: walks past smaller keys, replaces an
/// equal key, else splices the new pair in.
pub open spec fn spec_insert(
    m: Seq<(Seq<char>, JsonVal)>,
    k: Seq<char>,
    v: JsonVal,
) -> Seq<(Seq<char>, JsonVal)>
    decreases m.len(),
{
    if m.len() == 0 {
        seq![(k, v)]
    } else if lex_lt(k, m[0].0) {
        seq![(k, v)] + m
    } else if k == m[0].0 {
        seq![(k, v)] + m.skip(1)
    } else {
        seq![m[0]] + spec_insert(m.skip(1), k, v)
    }
}

/// Inserts `(key, v)` into the key-sorted vector `m`.
pub fn map_insert(m: Vec<(String, JsonVal)>, key: String, v: JsonVal) -> (r: Vec<(String, JsonVal)>)
    ensures
        data_view(r@) == spec_insert(data_view(m@), key@, v),
    decreases m@.len(),
{
    let ghost m0 = m@;
    let mut mm = m;
    if mm.len() == 0 {
        mm.push((key, v));
        proof {
            assert(data_view(mm@) =~= spec_insert(data_view(m0), key@, v));
        }
        mm
    } else if str_lt(key.as_str(), mm[0].0.as_str()) {
        mm.insert(0, (key, v));
        proof {
            assert(lex_lt(key@, data_view(m0)[0].0));
            assert(data_view(mm@) =~= seq![(key@, v)] + data_view(m0));
            assert(data_view(mm@) =~= spec_insert(data_view(m0), key@, v));
        }
        mm
    } else if str_eq(key.as_str(), mm[0].0.as_str()) {
        mm.remove(0);
        mm.insert(0, (key, v));
        proof {
            assert(data_view(mm@) =~= seq![(key@, v)] + data_view(m0).skip(1));
            assert(data_view(mm@) =~= spec_insert(data_view(m0), key@, v));
        }
        mm
    } else {
        let head = mm.remove(0);
        proof {
            assert(mm@ =~= m0.skip(1));
        }
        let mut r = map_insert(mm, key, v);
        proof {
            assert(data_view(m0.skip(1)) =~= data_view(m0).skip(1));
        }
        r.insert(0, head);
        proof {
            assert(!lex_lt(key@, data_view(m0)[0].0));
            assert(key@ != data_view(m0)[0].0);
            assert(data_view(r@) =~= seq![data_view(m0)[0]] + spec_insert(data_view(m0).skip(1), key@, v));
            assert(data_view(r@) =~= spec_insert(data_view(m0), key@, v));
        }
        r
    }
}

/// Every key of `spec_insert(m, k, v)` is `k` or a key of `m`.
pub proof fn lemma_insert_keys(m: Seq<(Seq<char>, JsonVal)>, k: Seq<char>, v: JsonVal)
    ensures
        forall|j: int|
            0 <= j < spec_insert(m, k, v).len() ==> (#[trigger] spec_insert(m, k, v)[j].0) == k
                || exists|i: int| 0 <= i < m.len() && (#[trigger] m[i].0) == spec_insert(m, k, v)[j].0,
    decreases m.len(),
{
    if m.len() == 0 {
    } else if lex_lt(k, m[0].0) {
    } else if k == m[0].0 {
    } else {
        lemma_insert_keys(m.skip(1), k, v);
        assert forall|j: int| 0 <= j < spec_insert(m, k, v).len() implies (
            #[trigger] spec_insert(m, k, v)[j].0) == k
            || exists|i: int| 0 <= i < m.len() && (#[trigger] m[i].0) == spec_insert(m, k, v)[j].0 by {
            if j > 0 {
                let t = spec_insert(m.skip(1), k, v);
                assert(spec_insert(m, k, v)[j] == t[j - 1]);
                if t[j - 1].0 != k {
                    let i = choose|i: int| 0 <= i < m.skip(1).len() && (#[trigger] m.skip(1)[i].0) == t[j - 1].0;
                    assert(m[i + 1].0 == t[j - 1].0);
                }
            } else {
                assert(spec_insert(m, k, v)[0].0 == m[0].0);
            }
        }
    }
}

/// Inserting into a key-sorted map keeps it key-sorted.
pub proof fn lemma_insert_sorted(m: Seq<(Seq<char>, JsonVal)>, k: Seq<char>, v: JsonVal)
    requires
        keys_sorted(m),
    ensures
        keys_sorted(spec_insert(m, k, v)),
    decreases m.len(),
{
    let r = spec_insert(m, k, v);
    if m.len() == 0 {
    } else if lex_lt(k, m[0].0) {
        assert forall|i: int, j: int| 0 <= i < j < r.len() implies lex_lt(
            #[trigger] r[i].0,
            #[trigger] r[j].0,
        ) by {
            if i == 0 && j > 1 {
                lemma_lex_lt_trans(k, m[0].0, m[j - 1].0);
            }
        }
    } else if k == m[0].0 {
        assert forall|i: int, j: int| 0 <= i < j < r.len() implies lex_lt(
            #[trigger] r[i].0,
            #[trigger] r[j].0,
        ) by {
            assert(r[j].0 == m[j].0);
            if i > 0 {
                assert(r[i].0 == m[i].0);
            }
        }
    } else {
        if !lex_lt(m[0].0, k) {
            lemma_lex_lt_total(k, m[0].0);
        }
        assert(lex_lt(m[0].0, k));
        assert(keys_sorted(m.skip(1))) by {
            assert(forall|i: int, j: int|
                0 <= i < j < m.skip(1).len() ==> (#[trigger] m.skip(1)[i], #[trigger] m.skip(1)[j])
                    == (m[i + 1], m[j + 1]));
        }
        lemma_insert_sorted(m.skip(1), k, v);
        lemma_insert_keys(m.skip(1), k, v);
        let t = spec_insert(m.skip(1), k, v);
        assert forall|i: int, j: int| 0 <= i < j < r.len() implies lex_lt(
            #[trigger] r[i].0,
            #[trigger] r[j].0,
        ) by {
            if i == 0 {
                assert(r[0].0 == m[0].0);
                assert(r[j].0 == t[j - 1].0);
                if t[j - 1].0 == k {
                } else {
                    let w = choose|w: int|
                        0 <= w < m.skip(1).len() && (#[trigger] m.skip(1)[w].0) == t[j - 1].0;
                    assert(m.skip(1)[w] == m[w + 1]);
                    assert(lex_lt(m[0].0, m[w + 1].0));
                }
            } else {
                assert(r[i].0 == t[i - 1].0 && r[j].0 == t[j - 1].0);
            }
        }
    }
}

/// The field map accumulated from the first `i` fields of an event: each
/// field's structured value inserted under its key, later fields replacing
/// earlier ones with the same key, failed conversions skipped.
pub open spec fn build_data(fields: Seq<(Key, FieldValue)>, i: int) -> Seq<(Seq<char>, JsonVal)>
    decreases i,
{
    if i <= 0 {
        Seq::empty()
    } else {
        let prev = build_data(fields, i - 1);
        match field_json(fields[i - 1].1) {
            Some(j) => spec_insert(prev, fields[i - 1].0.0@, j),
            None => prev,
        }
    }
}

/// The field map of an entry has strictly ascending keys, however the
/// event's fields were ordered: unique and sorted by key.
pub proof fn lemma_build_data_sorted(fields: Seq<(Key, FieldValue)>, i: int)
    ensures
        keys_sorted(build_data(fields, i)),
    decreases i,
{
    if i > 0 {
        lemma_build_data_sorted(fields, i - 1);
        match field_json(fields[i - 1].1) {
            Some(j) => {
                lemma_insert_sorted(build_data(fields, i - 1), fields[i - 1].0.0@, j);
            }
            None => {}
        }
    }
}

/// The materialized, immutable structured record.
#[derive(Debug)]
pub struct LogEntry {
    pub metadata: Metadata,
    pub thread_name: Option<String>,
    pub backtrace: Option<String>,
    pub hostname: Option<String>,
    pub timestamp: String,
    pub data: Vec<(String, JsonVal)>,
    pub message: Option<String>,
}

impl LogEntry {
    /// A well-formed entry keeps its field map sorted by key.
    pub open spec fn wf(self) -> bool {
        keys_sorted(data_view(self.data@))
    }

    /// Builds the entry for one emission. The backtrace is captured exactly
    /// when backtraces are enabled and the emission is at the error level,
    /// with the capture machinery's own leading frames dropped. The hostname
    /// is the process-wide cached value handed in by the caller. The field
    /// map collects the event's convertible fields, sorted by key.
    pub fn new(
        event: Event,
        thread_name: Option<&str>,
        enable_backtrace: bool,
        hostname: &Option<String>,
    ) -> (r: LogEntry)
        ensures
            r.metadata == event.metadata,
            r.message == event.message,
            r.thread_name is Some <==> thread_name is Some,
            thread_name is Some ==> r.thread_name->0@ == thread_name->0@,
            r.backtrace is Some <==> (enable_backtrace && event.metadata.level == Level::Error),
            r.hostname is Some <==> hostname is Some,
            hostname is Some ==> r.hostname->0@ == hostname->0@,
            r.timestamp@.len() > 0,
            data_view(r.data@) == build_data(event.fields@, event.fields@.len() as int),
            r.wf(),
    {
        let Event { metadata, message, fields } = event;

        let thread_name = match thread_name {
            Some(t) => Some(t.to_owned()),
            None => None,
        };

        let hostname = match hostname {
            Some(h) => Some(h.clone()),
            None => None,
        };

        let is_error = match metadata.level {
            Level::Error => true,
            _ => false,
        };
        let backtrace = if enable_backtrace && is_error {
            let bt = capture_backtrace();
            let mut frames = backtrace_frames(&bt);
            if frames.len() > 3 {
                frames.remove(0);
                frames.remove(0);
                frames.remove(0);
            }
            Some(format_frames(frames))
        } else {
            None
        };

        let mut data: Vec<(String, JsonVal)> = Vec::new();
        let mut rest = fields;
        let ghost total = rest@;
        let total_len: usize = rest.len();
        let mut i: usize = 0;
        while rest.len() > 0
            invariant
                total.len() == total_len,
                i + rest@.len() == total.len(),
                rest@ =~= total.skip(i as int),
                data_view(data@) == build_data(total, i as int),
            decreases rest@.len(),
        {
            let (k, v) = rest.remove(0);
            proof {
                assert(total.skip(i as int)[0] == total[i as int]);
                assert(rest@ =~= total.skip(i as int).skip(1));
                assert(total.skip(i as int).skip(1) =~= total.skip(i as int + 1));
            }
            match v.into_json() {
                Some(j) => {
                    data = map_insert(data, k.as_str().to_owned(), j);
                }
                None => {
                    write_stderr_line("error serializing structured log field; field skipped");
                }
            }
            i = i + 1;
            proof {
                assert(data_view(data@) =~= build_data(total, i as int));
            }
        }
        proof {
            lemma_build_data_sorted(total, total.len() as int);
            assert(total.skip(total.len() as int).len() == 0);
        }

        LogEntry {
            metadata,
            thread_name,
            backtrace,
            hostname,
            timestamp: now_rfc3339_micros(),
            data,
            message,
        }
    }

    pub fn metadata(&self) -> (r: &Metadata)
        ensures
            r == self.metadata,
    {
        &self.metadata
    }

    pub fn thread_name(&self) -> (r: Option<&str>)
        ensures
            r is Some <==> self.thread_name is Some,
            r is Some ==> r->0@ == self.thread_name->0@,
    {
        match &self.thread_name {
            Some(s) => Some(s.as_str()),
            None => None,
        }
    }

    pub fn backtrace(&self) -> (r: Option<&str>)
        ensures
            r is Some <==> self.backtrace is Some,
            r is Some ==> r->0@ == self.backtrace->0@,
    {
        match &self.backtrace {
            Some(s) => Some(s.as_str()),
            None => None,
        }
    }

    pub fn hostname(&self) -> (r: Option<&str>)
        ensures
            r is Some <==> self.hostname is Some,
            r is Some ==> r->0@ == self.hostname->0@,
    {
        match &self.hostname {
            Some(s) => Some(s.as_str()),
            None => None,
        }
    }

    pub fn timestamp(&self) -> (r: &str)
        ensures
            r@ == self.timestamp@,
    {
        self.timestamp.as_str()
    }

    pub fn data(&self) -> (r: &Vec<(String, JsonVal)>)
        ensures
            r == self.data,
    {
        &self.data
    }

    pub fn message(&self) -> (r: Option<&str>)
        ensures
            r is Some <==> self.message is Some,
            r is Some ==> r->0@ == self.message->0@,
    {
        match &self.message {
            Some(s) => Some(s.as_str()),
            None => None,
        }
    }
}

} // verus!
