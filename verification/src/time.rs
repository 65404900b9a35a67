//! Points in time, in UTC.

use vstd::prelude::*;

verus! {

/// The first second of the calendar, counted from the Unix epoch.
pub const FIRST_SECOND: i64 = -8334601228800;

/// The last second of the calendar, counted from the Unix epoch.
pub const LAST_SECOND: i64 = 8210266876799;

/// Whether `secs` seconds and `nanos` nanoseconds after the Unix epoch are a
/// point of the calendar. From a thousand million nanoseconds on, the point
/// lies in a leap second, which only the last second of a minute has.
pub open spec fn is_instant(secs: int, nanos: int) -> bool {
    &&& FIRST_SECOND <= secs <= LAST_SECOND
    &&& 0 <= nanos < 2_000_000_000
    &&& nanos >= 1_000_000_000 ==> secs % 60 == 59
}

/// Whether `secs` seconds and `nanos` nanoseconds after the Unix epoch are a
/// point that a clock can show: one of the calendar that does not lie before
/// the epoch or in a leap second.
pub open spec fn is_clock_reading(secs: int, nanos: int) -> bool {
    &&& is_instant(secs, nanos)
    &&& 0 <= secs
    &&& nanos < 1_000_000_000
}

/// A point in time.
#[derive(Clone, Copy, Debug, PartialEq, Eq, Structural)]
pub struct Timestamp {
    secs: i64,
    nanos: u32,
}

impl Timestamp {
    /// The point `secs` seconds and `nanos` nanoseconds after the Unix epoch.
    pub closed spec fn at(secs: i64, nanos: u32) -> Timestamp {
        Timestamp { secs, nanos }
    }

    /// The seconds since the Unix epoch.
    pub closed spec fn seconds(self) -> int {
        self.secs as int
    }

    /// The nanoseconds since the last whole second.
    pub closed spec fn nanoseconds(self) -> int {
        self.nanos as int
    }

    #[verifier::type_invariant]
    spec fn on_the_calendar(self) -> bool {
        is_instant(self.secs as int, self.nanos as int)
    }

    /// The point `secs` seconds and `nanos` nanoseconds after the Unix epoch;
    /// none where the calendar has no such point.
    pub fn from_parts(secs: i64, nanos: u32) -> (point: Option<Timestamp>)
        ensures
            point is Some <==> is_instant(secs as int, nanos as int),
            point matches Some(p) ==> p == Timestamp::at(secs, nanos) && p.seconds() == secs
                && p.nanoseconds() == nanos,
    {
        if secs < FIRST_SECOND || secs > LAST_SECOND || nanos >= 2_000_000_000 {
            return None;
        }
        if nanos >= 1_000_000_000 && !matches!(secs.checked_rem_euclid(60), Some(59)) {
            return None;
        }
        Some(Timestamp { secs, nanos })
    }

    /// The seconds since the Unix epoch.
    pub fn secs(self) -> (secs: i64)
        ensures
            secs == self.seconds(),
            FIRST_SECOND <= secs <= LAST_SECOND,
    {
        proof {
            use_type_invariant(&self);
        }
        self.secs
    }

    /// The nanoseconds since the last whole second.
    pub fn nanos(self) -> (nanos: u32)
        ensures
            nanos == self.nanoseconds(),
            is_instant(self.seconds(), nanos as int),
    {
        proof {
            use_type_invariant(&self);
        }
        self.nanos
    }

    /// The present moment. Which one it is, is up to the clock.
    pub fn now() -> (point: Timestamp)
        ensures
            is_clock_reading(point.seconds(), point.nanoseconds()),
    {
        let (secs, nanos) = utc_now();
        Timestamp { secs, nanos }
    }

    /// The whole seconds from `earlier` to this point, negative where this
    /// point comes first.
    pub fn seconds_since(self, earlier: Timestamp) -> (secs: i64)
        ensures
            secs == whole_seconds(elapsed_nanos(self, earlier)),
    {
        proof {
            use_type_invariant(&self);
            use_type_invariant(&earlier);
        }
        whole_seconds_between(self, earlier)
    }

    /// The date of this point, as text.
    pub fn date_text(self) -> (date: String)
        ensures
            date@ == utc_date_text(self.seconds()),
            date@ == utc_date_text(self.seconds() - self.seconds() % 86_400),
    {
        proof {
            use_type_invariant(&self);
        }
        date_text_of(self.secs)
    }
}

/// The nanoseconds from `earlier` to `later`. A leap second that the earlier
/// time of day lies in counts once the later time of day is past it.
pub open spec fn elapsed_nanos(later: Timestamp, earlier: Timestamp) -> int {
    let day_later = later.seconds() % 86_400;
    let day_earlier = earlier.seconds() % 86_400;
    let leap: int = if day_later > day_earlier && earlier.nanoseconds() >= 1_000_000_000 {
        1
    } else if day_later < day_earlier && later.nanoseconds() >= 1_000_000_000 {
        -1
    } else {
        0
    };
    (later.seconds() - earlier.seconds() + leap) * 1_000_000_000 + later.nanoseconds()
        - earlier.nanoseconds()
}

/// The whole seconds in `nanos` nanoseconds, without the fraction.
pub open spec fn whole_seconds(nanos: int) -> int {
    if nanos >= 0 {
        nanos / 1_000_000_000
    } else {
        -((-nanos) / 1_000_000_000)
    }
}

/// The seconds and nanoseconds since the Unix epoch of the point that
/// `chrono::DateTime::parse_from_rfc3339` reads in a text; none where it
/// reads none.
pub uninterp spec fn rfc3339_instant(text: Seq<char>) -> Option<(i64, u32)>;

/// The UTC date of the given second since the Unix epoch, as `chrono` writes
/// it.
pub uninterp spec fn utc_date_text(secs: int) -> Seq<char>;

/// `chrono::DateTime::parse_from_rfc3339`, with the point it reads given in
/// seconds and nanoseconds since the Unix epoch. Such a point always lies on
/// the calendar.
#[verifier::external_body]
fn instant_of_rfc3339(text: &str) -> (parts: Option<(i64, u32)>)
    ensures
        parts == rfc3339_instant(text@),
        parts matches Some(p) ==> is_instant(p.0 as int, p.1 as int),
{
    chrono::DateTime::parse_from_rfc3339(text)
        .ok()
        .map(|point| point.with_timezone(&chrono::Utc))
        .map(|point| (point.timestamp(), point.timestamp_subsec_nanos()))
}

/// `chrono::Utc::now`, in seconds and nanoseconds since the Unix epoch: some
/// point of the calendar, not before the epoch and not in a leap second. Which
/// one it is depends on the clock of the machine alone, and is left unsaid.
#[verifier::external_body]
fn utc_now() -> (parts: (i64, u32))
    ensures
        is_clock_reading(parts.0 as int, parts.1 as int),
{
    let point = chrono::Utc::now();
    (point.timestamp(), point.timestamp_subsec_nanos())
}

/// `chrono::DateTime::signed_duration_since` and `TimeDelta::num_seconds`: the
/// time between two points of the calendar, in whole seconds.
#[verifier::external_body]
fn whole_seconds_between(later: Timestamp, earlier: Timestamp) -> (secs: i64)
    requires
        is_instant(later.seconds(), later.nanoseconds()),
        is_instant(earlier.seconds(), earlier.nanoseconds()),
    ensures
        secs == whole_seconds(elapsed_nanos(later, earlier)),
{
    let later = chrono::DateTime::from_timestamp(later.secs, later.nanos).unwrap();
    let earlier = chrono::DateTime::from_timestamp(earlier.secs, earlier.nanos).unwrap();
    later.signed_duration_since(earlier).num_seconds()
}

/// `chrono::DateTime::date_naive`, written out by `to_string`. The date is that
/// of the UTC day, so it is also the date of the first second of that day.
#[verifier::external_body]
fn date_text_of(secs: i64) -> (date: String)
    requires
        FIRST_SECOND <= secs <= LAST_SECOND,
    ensures
        date@ == utc_date_text(secs as int),
        date@ == utc_date_text(secs - secs as int % 86_400),
{
    chrono::DateTime::from_timestamp(secs, 0).unwrap().date_naive().to_string()
}

/// The point in time that `text` spells in RFC 3339; none where it spells
/// none.
pub open spec fn timestamp_in(text: Seq<char>) -> Option<Timestamp> {
    match rfc3339_instant(text) {
        Some(parts) => Some(Timestamp::at(parts.0, parts.1)),
        None => None,
    }
}

/// The point in time that `text` spells in RFC 3339; none where it spells
/// none.
pub fn parse_timestamp(text: &str) -> (point: Option<Timestamp>)
    ensures
        point == timestamp_in(text@),
        point matches Some(p) ==> p.seconds() == (rfc3339_instant(text@)->0).0 && p.nanoseconds()
            == (rfc3339_instant(text@)->0).1,
{
    match instant_of_rfc3339(text) {
        Some((secs, nanos)) => Some(Timestamp { secs, nanos }),
        None => None,
    }
}

/// Time runs one way: from a point to itself it is none, and back it is what it
/// is forth, with the other sign. Between points outside of leap seconds it is
/// the difference of their nanoseconds since the Unix epoch.
pub proof fn law_elapsed_time(a: Timestamp, b: Timestamp)
    ensures
        elapsed_nanos(a, a) == 0,
        elapsed_nanos(a, b) == -elapsed_nanos(b, a),
        a.nanoseconds() < 1_000_000_000 && b.nanoseconds() < 1_000_000_000 ==> elapsed_nanos(a, b)
            == (a.seconds() * 1_000_000_000 + a.nanoseconds()) - (b.seconds() * 1_000_000_000
            + b.nanoseconds()),
{
}

/// Whole seconds are counted toward zero.
pub proof fn law_whole_seconds(nanos: int)
    ensures
        nanos >= 0 ==> whole_seconds(nanos) * 1_000_000_000 <= nanos < (whole_seconds(nanos) + 1)
            * 1_000_000_000,
        nanos < 0 ==> (whole_seconds(nanos) - 1) * 1_000_000_000 < nanos <= whole_seconds(nanos)
            * 1_000_000_000,
{
}

/// The point in time that a text spells is the one that is read in it.
pub proof fn law_timestamps_are_those_spelled(text: Seq<char>)
    ensures
        timestamp_in(text) is Some <==> rfc3339_instant(text) is Some,
        timestamp_in(text) matches Some(point) ==> point.seconds() == (rfc3339_instant(text)->0).0
            && point.nanoseconds() == (rfc3339_instant(text)->0).1,
{
}

/// Points in time are the same where their seconds and nanoseconds are.
pub proof fn law_points_are_their_parts(a: Timestamp, b: Timestamp)
    ensures
        a == b <==> a.seconds() == b.seconds() && a.nanoseconds() == b.nanoseconds(),
{
}

/// The calendar runs from the first second to the last one, and a leap second
/// can only follow the last second of a minute.
pub proof fn law_calendar(secs: int, nanos: int)
    ensures
        is_instant(secs, nanos) <==> -8_334_601_228_800 <= secs <= 8_210_266_876_799 && 0 <= nanos
            && (nanos < 1_000_000_000 || (nanos < 2_000_000_000 && (secs + 1) % 60 == 0)),
{
}

} // verus!
