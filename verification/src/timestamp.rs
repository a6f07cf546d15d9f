//! Instants at millisecond precision and their one textual form.

use chrono::{DateTime, SecondsFormat, SubsecRound, Utc};
use vstd::prelude::*;

verus! {

/// The RFC 3339 text, with three fractional digits and the designator `Z`,
/// of the instant `unix_millis` milliseconds after the Unix epoch, as
/// `chrono` renders it; `None` for an instant outside the range of dates
/// that `chrono` can hold.
pub uninterp spec fn rfc3339_utc_millis(unix_millis: int) -> Option<Seq<char>>;

/// Renders an instant with `DateTime::from_timestamp_millis` and
/// `to_rfc3339_opts(SecondsFormat::Millis, true)`. Trusted: the text is a
/// function of the instant alone, named `rfc3339_utc_millis`, whatever the
/// locale or time zone of the machine.
#[verifier::external_body]
fn render_unix_millis(unix_millis: i64) -> (text: Option<String>)
    ensures
        match text {
            Some(t) => rfc3339_utc_millis(unix_millis as int) == Some(t@),
            None => rfc3339_utc_millis(unix_millis as int) is None,
        },
{
    match DateTime::from_timestamp_millis(unix_millis) {
        Some(instant) => Some(instant.to_rfc3339_opts(SecondsFormat::Millis, true)),
        None => None,
    }
}

/// Reads the clock with `Utc::now`, rounds to the nearest millisecond with
/// `round_subsecs(3)` and counts the milliseconds since the Unix epoch.
/// Trusted: the instant is one that `chrono` holds, so it can be rendered.
/// Nothing else is claimed of it. `Utc::now` aborts where the system clock
/// stands before the Unix epoch.
#[verifier::external_body]
fn rounded_now_millis() -> (unix_millis: i64)
    ensures
        rfc3339_utc_millis(unix_millis as int) is Some,
{
    Utc::now().round_subsecs(3).timestamp_millis()
}

/// An instant, a whole number of milliseconds after the Unix epoch, with
/// its text.
pub struct Timestamp {
    unix_millis: i64,
    text: String,
}

impl Timestamp {
    /// The milliseconds since the Unix epoch.
    pub closed spec fn millis(&self) -> int {
        self.unix_millis as int
    }

    /// The text of the instant.
    pub closed spec fn text(&self) -> Seq<char> {
        self.text@
    }

    /// The text is the rendering of the instant.
    #[verifier::type_invariant]
    pub open spec fn wf(&self) -> bool {
        rfc3339_utc_millis(self.millis()) == Some(self.text())
    }

    /// The timestamp of the instant `unix_millis` milliseconds after the
    /// Unix epoch, or `None` where that instant is out of range.
    pub fn from_unix_millis(unix_millis: i64) -> (timestamp: Option<Timestamp>)
        ensures
            match timestamp {
                Some(t) => t.wf() && t.millis() == unix_millis,
                None => rfc3339_utc_millis(unix_millis as int) is None,
            },
    {
        match render_unix_millis(unix_millis) {
            Some(text) => Some(Timestamp { unix_millis, text }),
            None => None,
        }
    }

    /// The current time, rounded to the nearest millisecond.
    pub fn now() -> (timestamp: Timestamp)
        ensures
            timestamp.wf(),
    {
        let unix_millis = rounded_now_millis();
        Timestamp::from_unix_millis(unix_millis).unwrap()
    }

    /// The milliseconds since the Unix epoch.
    pub fn unix_millis(&self) -> (unix_millis: i64)
        ensures
            unix_millis == self.millis(),
    {
        self.unix_millis
    }

    /// The text of the instant.
    pub fn as_str(&self) -> (text: &str)
        ensures
            text@ == self.text(),
            self.wf(),
    {
        proof {
            use_type_invariant(self);
        }
        self.text.as_str()
    }
}

/// The same instant always has the same text.
pub proof fn lemma_same_instant_same_text(first: Timestamp, second: Timestamp)
    requires
        first.wf(),
        second.wf(),
        first.millis() == second.millis(),
    ensures
        first.text() == second.text(),
{
}

} // verus!
