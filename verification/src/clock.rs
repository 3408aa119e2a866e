//! The time of day, read from the machine's clock.

use std::fmt::Write;
use vstd::prelude::*;

verus! {

/// A point in time: whole seconds since the start of 1970 in UTC, and the
/// nanoseconds that follow them.
#[derive(Clone, Copy, Debug, PartialEq, Eq, Structural)]
pub struct Timestamp {
    pub secs: i64,
    pub nanos: u32,
}

/// Reads the clock with `chrono::Local::now` and keeps the instant that it
/// names, as `DateTime::timestamp` and `DateTime::timestamp_subsec_nanos`
/// give it. Nothing is claimed of the result: it is whatever the clock says.
#[verifier::external_body]
pub(crate) fn now() -> Timestamp {
    let now = chrono::Local::now();
    Timestamp { secs: now.timestamp(), nanos: now.timestamp_subsec_nanos() }
}

/// Writes a point in time as the clock on the wall shows it here, in the
/// form that `pattern` asks for: `chrono::DateTime::from_timestamp` makes the
/// instant, `DateTime::with_timezone` takes it to the machine's time zone and
/// `DateTime::format` writes it. There is no text where chrono cannot hold
/// the instant or cannot read the pattern. Nothing is claimed of the text: it
/// depends on the time zone of the machine.
#[verifier::external_body]
pub(crate) fn format_local(time: Timestamp, pattern: &str) -> Option<String> {
    let instant = chrono::DateTime::from_timestamp(time.secs, time.nanos)?;
    let mut text = String::new();
    match write!(text, "{}", instant.with_timezone(&chrono::Local).format(pattern)) {
        Ok(()) => Some(text),
        Err(_) => None,
    }
}

} // verus!
