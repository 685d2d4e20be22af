//! UTC instants and their RFC 3339 text form, through `chrono`.
use vstd::prelude::*;

verus! {

/// Seconds in one day.
pub const SECONDS_PER_DAY: i64 = 86_400;

/// Nanoseconds in one second.
pub const NANOS_PER_SECOND: u32 = 1_000_000_000;

/// What `"..".parse::<chrono::DateTime<Utc>>()` gives for a text, as the
/// instant's whole seconds since the Unix epoch and its sub-second
/// nanoseconds (`timestamp`, `timestamp_subsec_nanos`); `None` when the text
/// does not parse.
pub uninterp spec fn spec_parse_utc(text: Seq<char>) -> Option<(i64, u32)>;

/// What `chrono::DateTime::<Utc>::from_timestamp(seconds, nanos)` followed
/// by `to_rfc3339_opts(SecondsFormat::Millis, true)` gives; `None` when the
/// pair is not a representable instant.
pub uninterp spec fn spec_rfc3339_millis(seconds: i64, nanos: u32) -> Option<Seq<char>>;

/// `text` is chrono's RFC 3339 rendering, with millisecond precision, of
/// some instant.
pub open spec fn is_rendered_instant(text: Seq<char>) -> bool {
    exists|seconds: i64, nanos: u32| #[trigger] spec_rfc3339_millis(seconds, nanos) == Some(text)
}

/// A UTC instant as chrono represents it: whole seconds since the Unix
/// epoch and the sub-second nanoseconds (which exceed one second only while
/// a leap second is represented). Every value is one that chrono can
/// represent, so it always has an RFC 3339 form.
#[derive(Clone, Copy, Debug, PartialEq, Eq)]
pub struct UtcInstant {
    seconds: i64,
    nanos: u32,
}

impl UtcInstant {
    #[verifier::type_invariant]
    pub closed spec fn representable(self) -> bool {
        spec_rfc3339_millis(self.seconds, self.nanos) is Some
    }

    pub closed spec fn spec_seconds(self) -> i64 {
        self.seconds
    }

    pub closed spec fn spec_nanos(self) -> u32 {
        self.nanos
    }

    /// Whole seconds since the Unix epoch.
    pub fn seconds(&self) -> (r: i64)
        ensures
            r == self.spec_seconds(),
    {
        self.seconds
    }

    /// Sub-second nanoseconds.
    pub fn nanos(&self) -> (r: u32)
        ensures
            r == self.spec_nanos(),
    {
        self.nanos
    }

    /// The RFC 3339 text of the instant, with millisecond precision and a
    /// `Z` suffix.
    pub open spec fn spec_text(self) -> Seq<char> {
        spec_rfc3339_millis(self.spec_seconds(), self.spec_nanos())->0
    }

    /// The current instant (see `utc_now`): one chrono can render.
    pub fn now() -> (r: UtcInstant)
        ensures
            spec_rfc3339_millis(r.spec_seconds(), r.spec_nanos()) is Some,
    {
        utc_now()
    }

    /// Parses an RFC 3339 timestamp (chrono's relaxed form).
    pub fn parse(text: &str) -> (r: Option<UtcInstant>)
        ensures
            match spec_parse_utc(text@) {
                Some((s, n)) => r matches Some(i) && i.spec_seconds() == s && i.spec_nanos() == n,
                None => r is None,
            },
    {
        parse_utc(text)
    }

    /// The RFC 3339 text of the instant, with millisecond precision.
    pub fn to_text(&self) -> (r: String)
        ensures
            r@ == self.spec_text(),
    {
        proof {
            use_type_invariant(self);
        }
        format_rfc3339_millis(self)
    }
}

/// `a` is strictly earlier than `b`.
pub open spec fn is_before(a: UtcInstant, b: UtcInstant) -> bool {
    a.spec_seconds() < b.spec_seconds() || (a.spec_seconds() == b.spec_seconds()
        && a.spec_nanos() < b.spec_nanos())
}

/// Whole seconds elapsed from `earlier` to `later`, counting a started
/// second only once it is complete.
pub open spec fn whole_seconds_between(earlier: UtcInstant, later: UtcInstant) -> int {
    let d = later.spec_seconds() - earlier.spec_seconds();
    if later.spec_nanos() < earlier.spec_nanos() {
        d - 1
    } else {
        d
    }
}

/// Parses a timestamp through `str::parse::<chrono::DateTime<Utc>>`. The
/// parsed instant is named by `spec_parse_utc`; the contract also states
/// that chrono can render every instant it parsed.
#[verifier::external_body]
fn parse_utc(text: &str) -> (r: Option<UtcInstant>)
    ensures
        match spec_parse_utc(text@) {
            Some((s, n)) => r matches Some(i) && i.seconds == s && i.nanos == n,
            None => r is None,
        },
        r matches Some(i) ==> spec_rfc3339_millis(i.seconds, i.nanos) is Some,
{
    text.parse::<chrono::DateTime<chrono::Utc>>().ok().map(
        |moment| UtcInstant { seconds: moment.timestamp(), nanos: moment.timestamp_subsec_nanos() },
    )
}

/// Renders an instant through `chrono::DateTime::<Utc>::from_timestamp`
/// and `to_rfc3339_opts(SecondsFormat::Millis, true)`; the text is named by
/// `spec_rfc3339_millis`.
#[verifier::external_body]
fn format_rfc3339_millis(instant: &UtcInstant) -> (r: String)
    requires
        spec_rfc3339_millis(instant.seconds, instant.nanos) is Some,
    ensures
        spec_rfc3339_millis(instant.seconds, instant.nanos) == Some(r@),
{
    chrono::DateTime::<chrono::Utc>::from_timestamp(instant.seconds, instant.nanos).unwrap()
        .to_rfc3339_opts(chrono::SecondsFormat::Millis, true)
}

/// The current instant, read through `chrono::Utc::now`. It depends on the
/// clock, so nothing is stated of it but that chrono can render it.
#[verifier::external_body]
pub(crate) fn utc_now() -> (r: UtcInstant)
    ensures
        spec_rfc3339_millis(r.spec_seconds(), r.spec_nanos()) is Some,
{
    let moment = chrono::Utc::now();
    UtcInstant { seconds: moment.timestamp(), nanos: moment.timestamp_subsec_nanos() }
}

/// The current time as RFC 3339 text with millisecond precision and a `Z`
/// suffix: the text of some instant chrono represents. Which instant
/// depends on the clock and is not stated.
pub fn utc_timestamp() -> (r: String)
    ensures
        is_rendered_instant(r@),
{
    let now = UtcInstant::now();
    proof {
        use_type_invariant(&now);
    }
    now.to_text()
}

/// The local wall-clock time as `HH:MM` (`chrono::Local::now().format`).
/// It depends on the clock and the machine's time zone; nothing is stated
/// of it.
#[verifier::external_body]
pub(crate) fn local_clock_hh_mm() -> String {
    chrono::Local::now().format("%H:%M").to_string()
}

} // verus!
