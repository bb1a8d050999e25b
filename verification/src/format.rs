//! Rendering of entries: the local line format and the remote wire format,
//! both specified exactly.

use vstd::prelude::*;
use vstd::string::*;
use crate::entry::{spec_location, LogEntry};
use crate::ext::push_char;
use crate::json::{push_members, render_members, JsonVal};
use crate::level::{spec_level_name, Level};
use crate::strutil::{escape_seq, push_escaped, push_u64_dec, spec_u64_dec};

verus! {

/// The compact object rendering of a field map.
pub open spec fn spec_field_map(data: Seq<(String, JsonVal)>) -> Seq<char> {
    seq!['{'] + render_members(data, data.len() as int) + seq!['}']
}

/// Renders a field map on its own.
pub fn field_map_string(data: &Vec<(String, JsonVal)>) -> (r: String)
    ensures
        r@ == spec_field_map(data@),
{
    let mut out = String::new();
    push_char(&mut out, '{');
    push_members(&mut out, data);
    push_char(&mut out, '}');
    proof {
        assert(out@ =~= spec_field_map(data@));
    }
    out
}

/// The default local line:
/// `<timestamp> [<thread>]? <LEVEL> <file>:<line> <message>? <field-map>?`,
/// the optional segments present only when populated.
pub open spec fn spec_default_format(e: LogEntry) -> Seq<char> {
    e.timestamp@ + (if e.thread_name is Some {
        seq![' ', '['] + e.thread_name->0@ + seq![']']
    } else {
        Seq::<char>::empty()
    }) + seq![' '] + spec_level_name(e.metadata.level) + seq![' '] + spec_location(e.metadata)
        + (if e.message is Some {
        seq![' '] + e.message->0@
    } else {
        Seq::<char>::empty()
    }) + (if e.data@.len() > 0 {
        seq![' '] + spec_field_map(e.data@)
    } else {
        Seq::<char>::empty()
    })
}

/// Renders an entry in the default local line format.
pub fn default_format(entry: &LogEntry) -> (r: String)
    ensures
        r@ == spec_default_format(*entry),
{
    let mut w = entry.timestamp.clone();
    match &entry.thread_name {
        Some(t) => {
            push_char(&mut w, ' ');
            push_char(&mut w, '[');
            w.append(t.as_str());
            push_char(&mut w, ']');
        }
        None => {}
    }
    push_char(&mut w, ' ');
    w.append(entry.metadata.level.as_str());
    push_char(&mut w, ' ');
    let loc = entry.metadata.location();
    w.append(loc.as_str());
    match &entry.message {
        Some(m) => {
            push_char(&mut w, ' ');
            w.append(m.as_str());
        }
        None => {}
    }
    if entry.data.len() > 0 {
        push_char(&mut w, ' ');
        push_char(&mut w, '{');
        push_members(&mut w, &entry.data);
        push_char(&mut w, '}');
    }
    proof {
        assert(w@ =~= spec_default_format(*entry));
    }
    w
}

/// The short line: level name, then the message when there is one.
pub open spec fn spec_compact_format(e: LogEntry) -> Seq<char> {
    spec_level_name(e.metadata.level) + (if e.message is Some {
        seq![' '] + e.message->0@
    } else {
        Seq::<char>::empty()
    })
}

/// The formatting capability a facade carries: the default full line, or
/// the compact custom form.
#[derive(Copy, Clone, Debug, PartialEq, Eq, Structural)]
pub enum Formatter {
    Full,
    Compact,
}

/// What each formatter renders.
pub open spec fn spec_format_entry(f: Formatter, e: LogEntry) -> Seq<char> {
    match f {
        Formatter::Full => spec_default_format(e),
        Formatter::Compact => spec_compact_format(e),
    }
}

/// Renders an entry with the chosen formatter. Formatting never fails for a
/// well-formed entry, so unlike a fallible formatting contract this one
/// returns the line itself.
pub fn format_entry(f: Formatter, entry: &LogEntry) -> (r: String)
    ensures
        r@ == spec_format_entry(f, *entry),
{
    match f {
        Formatter::Full => default_format(entry),
        Formatter::Compact => {
            let mut w = entry.metadata.level.as_str().to_owned();
            match &entry.message {
                Some(m) => {
                    push_char(&mut w, ' ');
                    w.append(m.as_str());
                }
                None => {}
            }
            proof {
                assert(w@ =~= spec_compact_format(*entry));
            }
            w
        }
    }
}

/// The message the remote record carries: the entry's own message, or, so
/// that no remote record lacks one, the field map rendered as text.
pub open spec fn spec_message_text(e: LogEntry) -> Seq<char> {
    if e.message is Some {
        e.message->0@
    } else {
        spec_field_map(e.data@)
    }
}

/// One string-valued member of the wire record: `"name":"escaped-value"`.
pub open spec fn member_str(name: Seq<char>, value: Seq<char>) -> Seq<char> {
    seq!['"'] + name + seq!['"', ':', '"'] + escape_seq(value) + seq!['"']
}

/// The leading members of the wire record: the metadata fields.
pub open spec fn spec_wire_meta(e: LogEntry) -> Seq<char> {
    seq!['{'] + member_str("level"@, spec_level_name(e.metadata.level)) + seq![','] + member_str(
        "target"@,
        e.metadata.target@,
    ) + seq![','] + member_str("module"@, e.metadata.module@) + seq![','] + member_str(
        "file"@,
        e.metadata.file@,
    ) + seq![','] + seq!['"'] + "line"@ + seq!['"', ':'] + spec_u64_dec(e.metadata.line as int)
}

/// The optional members of the wire record: thread name, backtrace and
/// hostname, each present only when populated.
pub open spec fn spec_wire_optionals(e: LogEntry) -> Seq<char> {
    (if e.thread_name is Some {
        seq![','] + member_str("thread_name"@, e.thread_name->0@)
    } else {
        Seq::<char>::empty()
    }) + (if e.backtrace is Some {
        seq![','] + member_str("backtrace"@, e.backtrace->0@)
    } else {
        Seq::<char>::empty()
    }) + (if e.hostname is Some {
        seq![','] + member_str("hostname"@, e.hostname->0@)
    } else {
        Seq::<char>::empty()
    })
}

/// The self-contained wire record: all metadata fields, the optional
/// thread name, backtrace and hostname, the timestamp, the field map when
/// non-empty, and a message that is always present.
pub open spec fn spec_wire_json(e: LogEntry) -> Seq<char> {
    spec_wire_meta(e) + spec_wire_optionals(e) + seq![','] + member_str("timestamp"@, e.timestamp@)
        + (if e.data@.len() > 0 {
        seq![',', '"'] + "data"@ + seq!['"', ':'] + spec_field_map(e.data@)
    } else {
        Seq::<char>::empty()
    }) + seq![','] + member_str("message"@, spec_message_text(e)) + seq!['}']
}

/// The newline-terminated wire line for one entry.
pub open spec fn spec_wire_line(e: LogEntry) -> Seq<char> {
    spec_wire_json(e) + seq!['\n']
}

fn push_member_str(out: &mut String, name: &str, value: &str)
    ensures
        final(out)@ == old(out)@ + member_str(name@, value@),
{
    push_char(out, '"');
    out.append(name);
    push_char(out, '"');
    push_char(out, ':');
    push_char(out, '"');
    push_escaped(out, value);
    push_char(out, '"');
    proof {
        assert(out@ =~= old(out)@ + member_str(name@, value@));
    }
}

fn push_wire_meta(w: &mut String, entry: &LogEntry)
    ensures
        final(w)@ == old(w)@ + spec_wire_meta(*entry),
{
    push_char(w, '{');
    push_member_str(w, "level", entry.metadata.level.as_str());
    push_char(w, ',');
    push_member_str(w, "target", entry.metadata.target);
    push_char(w, ',');
    push_member_str(w, "module", entry.metadata.module);
    push_char(w, ',');
    push_member_str(w, "file", entry.metadata.file);
    push_char(w, ',');
    push_char(w, '"');
    w.append("line");
    push_char(w, '"');
    push_char(w, ':');
    push_u64_dec(w, entry.metadata.line as u64);
    proof {
        assert(w@ =~= old(w)@ + spec_wire_meta(*entry));
    }
}

fn push_wire_optionals(w: &mut String, entry: &LogEntry)
    ensures
        final(w)@ == old(w)@ + spec_wire_optionals(*entry),
{
    match &entry.thread_name {
        Some(t) => {
            push_char(w, ',');
            push_member_str(w, "thread_name", t.as_str());
        }
        None => {}
    }
    match &entry.backtrace {
        Some(b) => {
            push_char(w, ',');
            push_member_str(w, "backtrace", b.as_str());
        }
        None => {}
    }
    match &entry.hostname {
        Some(h) => {
            push_char(w, ',');
            push_member_str(w, "hostname", h.as_str());
        }
        None => {}
    }
    proof {
        assert(w@ =~= old(w)@ + spec_wire_optionals(*entry));
    }
}

/// Renders the newline-terminated wire line for one entry.
pub fn wire_line(entry: &LogEntry) -> (r: String)
    ensures
        r@ == spec_wire_line(*entry),
{
    let mut w = String::new();
    push_wire_meta(&mut w, entry);
    push_wire_optionals(&mut w, entry);
    push_char(&mut w, ',');
    push_member_str(&mut w, "timestamp", entry.timestamp.as_str());
    if entry.data.len() > 0 {
        push_char(&mut w, ',');
        push_char(&mut w, '"');
        w.append("data");
        push_char(&mut w, '"');
        push_char(&mut w, ':');
        push_char(&mut w, '{');
        push_members(&mut w, &entry.data);
        push_char(&mut w, '}');
    }
    push_char(&mut w, ',');
    let message = match &entry.message {
        Some(m) => m.clone(),
        None => field_map_string(&entry.data),
    };
    push_member_str(&mut w, "message", message.as_str());
    push_char(&mut w, '}');
    push_char(&mut w, '\n');
    proof {
        assert(w@ =~= spec_wire_line(*entry));
    }
    w
}

} // verus!
