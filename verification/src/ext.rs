//! The crate's trusted boundary: every call into an outside crate, and into
//! the few std functions vstd gives no specification, goes through one of the
//! declarations in this module. Everything else in the crate is verified
//! against these contracts.

use std::io::Write;
use vstd::prelude::*;

verus! {

/// Relies on std's `String::push`: appends one character to the string.
#[verifier::external_body]
pub(crate) fn push_char(s: &mut String, c: char)
    ensures
        final(s)@ == old(s)@.push(c),
{
    s.push(c)
}

/// Relies on std's `str` equality: two slices are equal iff their character
/// sequences are equal.
#[verifier::external_body]
pub(crate) fn str_eq(a: &str, b: &str) -> (r: bool)
    ensures
        r == (a@ == b@),
{
    a == b
}

/// Relies on std's `std::io::stderr`: writes one line to the standard error
/// stream, ignoring write failures, as an unbuffered diagnostic sink.
#[verifier::external_body]
pub(crate) fn write_stderr_line(s: &str) {
    let _ = writeln!(std::io::stderr(), "{}", s);
}

/// Relies on the `hostname` crate's `get`: returns the machine's hostname,
/// or `None` when resolution fails or the name is not valid Unicode. The
/// result depends on the machine, so nothing is promised of it.
#[verifier::external_body]
pub(crate) fn resolve_hostname() -> (r: Option<String>) {
    hostname::get().ok().and_then(|name| name.into_string().ok())
}

/// Relies on the `chrono` crate's `Utc::now`: reads the wall clock, here
/// converted at once to its RFC 3339 textual form with microsecond precision
/// and a trailing `Z`, which is never empty. The instant depends on the
/// moment of the call, so nothing more is promised of it.
#[verifier::external_body]
pub(crate) fn now_rfc3339_micros() -> (r: String)
    ensures
        r@.len() > 0,
{
    chrono::Utc::now().to_rfc3339_opts(chrono::SecondsFormat::Micros, true)
}

#[verifier::external_type_specification]
#[verifier::external_body]
pub struct ExBacktrace(backtrace::Backtrace);

#[verifier::external_type_specification]
#[verifier::external_body]
pub struct ExBacktraceFrame(backtrace::BacktraceFrame);

/// Relies on the `backtrace` crate's `Backtrace::new`: captures and resolves
/// the current call stack. The result depends on the call site and machine,
/// so nothing is promised of it.
#[verifier::external_body]
pub(crate) fn capture_backtrace() -> (b: backtrace::Backtrace) {
    backtrace::Backtrace::new()
}

/// Relies on the `backtrace` crate's `Backtrace::frames`: hands out the
/// captured frames, here copied into an owned vector.
#[verifier::external_body]
pub(crate) fn backtrace_frames(b: &backtrace::Backtrace) -> (r: Vec<backtrace::BacktraceFrame>) {
    b.frames().to_vec()
}

/// Relies on the `backtrace` crate's `Debug` rendering of a `Backtrace`
/// rebuilt from the given frames: one line per frame with symbol names and
/// locations. The text depends on the machine's symbols, so nothing more is
/// promised of it.
#[verifier::external_body]
pub(crate) fn format_frames(frames: Vec<backtrace::BacktraceFrame>) -> (r: String) {
    let bt = backtrace::Backtrace::from(frames);
    format!("{:?}", bt)
}

} // verus!
