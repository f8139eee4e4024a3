//! Instants on the UTC time line, as the log stamps them onto its entries.

use chrono::{DateTime, Utc};
use vstd::prelude::*;

verus! {

/// The text that chrono writes for the instant `secs` seconds and `nanos`
/// nanoseconds after 1970-01-01 00:00:00 UTC in the pattern
/// `%Y-%m-%d %H:%M:%S%.3f UTC`, or `None` where chrono has no such instant.
pub uninterp spec fn timestamp_text(secs: i64, nanos: u32) -> Option<Seq<char>>;

/// Reads the clock with `chrono::Utc::now` and splits the instant with
/// `DateTime::timestamp` and `DateTime::timestamp_subsec_nanos`.
///
/// Trusted: nothing is claimed of the instant but that chrono can rebuild
/// it from the two numbers, which its documentation promises of every
/// `DateTime`. chrono stops the program where the system clock stands before
/// the year 1970.
#[verifier::external_body]
fn current_instant() -> (now: (i64, u32))
    ensures
        timestamp_text(now.0, now.1) is Some,
{
    let now = Utc::now();
    (now.timestamp(), now.timestamp_subsec_nanos())
}

/// Rebuilds the instant with `chrono::DateTime::from_timestamp` and writes it
/// with `DateTime::format`.
///
/// Trusted: the result is `None` exactly where chrono rejects the two
/// numbers, and otherwise the text of the pattern, which holds digits, signs,
/// blanks and the letters `UTC` and therefore no line break.
#[verifier::external_body]
fn format_instant(secs: i64, nanos: u32) -> (text: Option<String>)
    ensures
        match text {
            Some(t) => timestamp_text(secs, nanos) == Some(t@) && !t@.contains('\n'),
            None => timestamp_text(secs, nanos) is None,
        },
{
    match DateTime::from_timestamp(secs, nanos) {
        Some(instant) => Some(instant.format("%Y-%m-%d %H:%M:%S%.3f UTC").to_string()),
        None => None,
    }
}

/// An instant that chrono can represent, held as whole seconds since the
/// Unix epoch and the nanoseconds within that second.
#[derive(Clone, Copy, Debug, PartialEq, Eq)]
pub struct Timestamp {
    secs: i64,
    nanos: u32,
}

impl Timestamp {
    #[verifier::type_invariant]
    spec fn representable(self) -> bool {
        timestamp_text(self.secs, self.nanos) is Some
    }

    /// Whole seconds since 1970-01-01 00:00:00 UTC.
    pub closed spec fn seconds(self) -> i64 {
        self.secs
    }

    /// Nanoseconds since the last whole second.
    pub closed spec fn subsec_nanos(self) -> u32 {
        self.nanos
    }

    /// The instant as rendered text, with millisecond precision.
    pub open spec fn text(self) -> Seq<char> {
        match timestamp_text(self.seconds(), self.subsec_nanos()) {
            Some(t) => t,
            None => Seq::empty(),
        }
    }

    /// Builds the instant `secs` seconds and `nanos` nanoseconds after the
    /// epoch, or returns `None` where no such instant can be represented.
    pub fn new(secs: i64, nanos: u32) -> (made: Option<Timestamp>)
        ensures
            made is Some <==> timestamp_text(secs, nanos) is Some,
            made matches Some(t) ==> t.seconds() == secs && t.subsec_nanos() == nanos,
    {
        match format_instant(secs, nanos) {
            Some(_) => Some(Timestamp { secs, nanos }),
            None => None,
        }
    }

    /// The current instant according to the system clock: whichever it is, it can be represented.
    pub fn now() -> (now: Timestamp)
        ensures
            timestamp_text(now.seconds(), now.subsec_nanos()) is Some,
    {
        let (secs, nanos) = current_instant();
        Timestamp { secs, nanos }
    }

    /// Returns the whole seconds since the epoch.
    pub fn secs(&self) -> (secs: i64)
        ensures
            secs == self.seconds(),
    {
        self.secs
    }

    /// Returns the nanoseconds since the last whole second.
    pub fn nanos(&self) -> (nanos: u32)
        ensures
            nanos == self.subsec_nanos(),
    {
        self.nanos
    }

    /// Renders the instant as `YYYY-MM-DD HH:MM:SS.mmm UTC`.
    pub fn to_text(&self) -> (text: String)
        ensures
            text@ == self.text(),
            !text@.contains('\n'),
    {
        proof {
            use_type_invariant(self);
        }
        match format_instant(self.secs, self.nanos) {
            Some(text) => text,
            None => String::new(),
        }
    }
}

} // verus!
