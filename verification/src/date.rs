//! Calendar dates and UTC instants, held as plain integers.
//!
//! A [`Date`] is held as its Julian day number and a [`Timestamp`] as its Unix
//! timestamp in seconds.  Every conversion between the two goes through the
//! `time` crate.
use vstd::prelude::*;

verus! {

/// Julian day number of 1970-01-01, the Unix epoch.
pub const UNIX_EPOCH_JULIAN_DAY: i32 = 2440588;

/// Julian day number of -9999-01-01, the earliest date.
pub const MIN_JULIAN_DAY: i32 = -1930999;

/// Julian day number of 9999-12-31, the latest date.
pub const MAX_JULIAN_DAY: i32 = 5373484;

/// Seconds in a day.
pub const SECONDS_PER_DAY: i64 = 86400;

/// Unix timestamp of -9999-01-01 00:00:00 UTC, the earliest instant.
pub const MIN_UNIX_TIMESTAMP: i64 = -377705116800;

/// Unix timestamp of 9999-12-31 23:59:59 UTC, the latest whole second.
pub const MAX_UNIX_TIMESTAMP: i64 = 253402300799;

/// Whether `jd` is the Julian day number of a representable date.
pub open spec fn julian_day_in_range(jd: int) -> bool {
    MIN_JULIAN_DAY <= jd <= MAX_JULIAN_DAY
}

/// Whether `ts` is the Unix timestamp of a representable instant.
pub open spec fn timestamp_in_range(ts: int) -> bool {
    MIN_UNIX_TIMESTAMP <= ts <= MAX_UNIX_TIMESTAMP
}

/// The Julian day number of the UTC date on which the instant `ts` falls.
pub open spec fn julian_day_of_timestamp(ts: int) -> int {
    UNIX_EPOCH_JULIAN_DAY + ts / (SECONDS_PER_DAY as int)
}

/// The Unix timestamp of midnight UTC at the start of the day `jd`.
pub open spec fn midnight_timestamp(jd: int) -> int {
    (jd - UNIX_EPOCH_JULIAN_DAY) * (SECONDS_PER_DAY as int)
}

/// What `time::Date::parse` gives for `input` read with the format description
/// `[year][month][day]`: the Julian day number of the date, or `None` where the
/// input is refused.
pub uninterp spec fn ymd_date_parse(input: Seq<char>) -> Option<int>;

/// Calls `time::OffsetDateTime::from_unix_timestamp`, with `time` built
/// without its `large-dates` feature.  The claim: it succeeds
/// exactly on the timestamps from -9999-01-01 00:00:00 to 9999-12-31 23:59:59
/// UTC; the instant it builds has the same Unix timestamp, and its date has the
/// Julian day number `2440588 + floor(ts / 86400)`.
#[verifier::external_body]
fn time_from_unix_timestamp(ts: i64) -> (res: Option<(i64, i32)>)
    ensures
        res is Some <==> timestamp_in_range(ts as int),
        res matches Some(p) ==> p.0 == ts && p.1 == julian_day_of_timestamp(ts as int),
{
    match time::OffsetDateTime::from_unix_timestamp(ts) {
        Ok(dt) => Some((dt.unix_timestamp(), dt.date().to_julian_day())),
        Err(_) => None,
    }
}

/// Calls `time::Date::from_julian_day`, with `time` built without its
/// `large-dates` feature.  The claim: it succeeds exactly on the
/// Julian day numbers from -9999-01-01 to 9999-12-31, and the date it builds
/// has that Julian day number.
#[verifier::external_body]
fn time_date_from_julian_day(jd: i32) -> (res: Option<i32>)
    ensures
        res is Some <==> julian_day_in_range(jd as int),
        res matches Some(d) ==> d == jd,
{
    match time::Date::from_julian_day(jd) {
        Ok(d) => Some(d.to_julian_day()),
        Err(_) => None,
    }
}

/// Calls `time::Date::with_hms(0, 0, 0)` on the date with Julian day number
/// `jd`, then `assume_utc` and `unix_timestamp`.  The claim: for every date in
/// range this gives the Unix timestamp of that day's midnight UTC,
/// `(jd - 2440588) * 86400`.
#[verifier::external_body]
fn time_midnight_unix_timestamp(jd: i32) -> (res: Option<i64>)
    ensures
        res is Some <==> julian_day_in_range(jd as int),
        res matches Some(ts) ==> ts == midnight_timestamp(jd as int),
{
    match time::Date::from_julian_day(jd) {
        Ok(d) => match d.with_hms(0, 0, 0) {
            Ok(dt) => Some(dt.assume_utc().unix_timestamp()),
            Err(_) => None,
        },
        Err(_) => None,
    }
}

/// Calls `time::format_description::parse("[year][month][day]")` and then
/// `time::Date::parse` on `input`.  The claim: the result is the Julian day
/// number of the date that was read, named `ymd_date_parse`, and a date that
/// `time` builds is always in range.
#[verifier::external_body]
fn time_parse_ymd(input: &str) -> (res: Option<i32>)
    ensures
        res matches Some(jd) ==> julian_day_in_range(jd as int),
        match res {
            Some(jd) => ymd_date_parse(input@) == Some(jd as int),
            None => ymd_date_parse(input@) is None,
        },
{
    match time::format_description::parse("[year][month][day]") {
        Ok(format) => match time::Date::parse(input, &format) {
            Ok(d) => Some(d.to_julian_day()),
            Err(_) => None,
        },
        Err(_) => None,
    }
}

/// A calendar date, from -9999-01-01 to 9999-12-31, held as its Julian day
/// number.  Dates are ordered as their Julian day numbers are.
#[derive(Clone, Copy, Debug, PartialEq, Eq, Structural)]
pub struct Date {
    julian_day: i32,
}

impl View for Date {
    type V = int;

    closed spec fn view(&self) -> int {
        self.julian_day as int
    }
}

impl Date {
    #[verifier::type_invariant]
    closed spec fn inv(self) -> bool {
        julian_day_in_range(self.julian_day as int)
    }

    /// The date with the Julian day number `jd`, or `None` where no date has it.
    pub fn from_julian_day(jd: i32) -> (res: Option<Date>)
        ensures
            res is Some <==> julian_day_in_range(jd as int),
            res matches Some(d) ==> d@ == jd,
    {
        match time_date_from_julian_day(jd) {
            Some(j) => Some(Date { julian_day: j }),
            None => None,
        }
    }

    /// The date on which the instant `ts` falls in UTC, or `None` where `ts`
    /// is out of range.
    pub fn from_unix_timestamp(ts: i64) -> (res: Option<Date>)
        ensures
            res is Some <==> timestamp_in_range(ts as int),
            res matches Some(d) ==> d@ == julian_day_of_timestamp(ts as int),
    {
        match time_from_unix_timestamp(ts) {
            Some(p) => {
                proof {
                    lemma_day_of_timestamp_in_range(ts as int);
                }
                Some(Date { julian_day: p.1 })
            },
            None => None,
        }
    }

    /// The date that `input` names in the form `YYYYMMDD`, or `None` where it
    /// names none.
    pub fn parse_ymd(input: &str) -> (res: Option<Date>)
        ensures
            match res {
                Some(d) => ymd_date_parse(input@) == Some(d@),
                None => ymd_date_parse(input@) is None,
            },
    {
        match time_parse_ymd(input) {
            Some(j) => Some(Date { julian_day: j }),
            None => None,
        }
    }

    /// The Julian day number of this date.
    pub fn julian_day(&self) -> (res: i32)
        ensures
            res == self@,
            julian_day_in_range(res as int),
    {
        proof {
            use_type_invariant(self);
        }
        self.julian_day
    }

    /// The Unix timestamp of midnight UTC at the start of this date.
    pub fn midnight_unix_timestamp(&self) -> (res: i64)
        ensures
            res == midnight_timestamp(self@),
            timestamp_in_range(res as int),
    {
        proof {
            use_type_invariant(self);
            lemma_midnight_in_range(self@);
        }
        match time_midnight_unix_timestamp(self.julian_day) {
            Some(ts) => ts,
            None => {
                proof {
                    assert(false);
                }
                0
            },
        }
    }
}

/// Dates are equal exactly when their Julian day numbers are.
pub proof fn lemma_date_view_injective(a: Date, b: Date)
    ensures
        (a@ == b@) == (a == b),
{
}

/// Every instant in range falls on a date in range.
pub proof fn lemma_day_of_timestamp_in_range(ts: int)
    requires
        timestamp_in_range(ts),
    ensures
        julian_day_in_range(julian_day_of_timestamp(ts)),
{
}

/// Midnight of every date in range is an instant in range.
pub proof fn lemma_midnight_in_range(jd: int)
    requires
        julian_day_in_range(jd),
    ensures
        timestamp_in_range(midnight_timestamp(jd)),
{
    assert(midnight_timestamp(jd) == (jd - 2440588) * 86400);
    assert((MIN_JULIAN_DAY - 2440588) * 86400 <= (jd - 2440588) * 86400) by (nonlinear_arith)
        requires
            MIN_JULIAN_DAY <= jd;
    assert((jd - 2440588) * 86400 <= (MAX_JULIAN_DAY - 2440588) * 86400) by (nonlinear_arith)
        requires
            jd <= MAX_JULIAN_DAY;
}

/// The date of midnight at the start of a day is that day: a date written as
/// its midnight timestamp reads back unchanged.
pub proof fn lemma_date_midnight_roundtrip(jd: int)
    ensures
        julian_day_of_timestamp(midnight_timestamp(jd)) == jd,
{
    assert(((jd - 2440588) * 86400) / 86400 == jd - 2440588) by (nonlinear_arith);
}

/// An instant, from -9999-01-01 00:00:00 to 9999-12-31 23:59:59 UTC, held as
/// its Unix timestamp in whole seconds.
#[derive(Clone, Copy, Debug, PartialEq, Eq, Structural)]
pub struct Timestamp {
    unix_timestamp: i64,
}

impl View for Timestamp {
    type V = int;

    closed spec fn view(&self) -> int {
        self.unix_timestamp as int
    }
}

impl Timestamp {
    #[verifier::type_invariant]
    closed spec fn inv(self) -> bool {
        timestamp_in_range(self.unix_timestamp as int)
    }

    /// The instant with Unix timestamp `ts`, or `None` where `ts` is out of
    /// range.
    pub fn from_unix_timestamp(ts: i64) -> (res: Option<Timestamp>)
        ensures
            res is Some <==> timestamp_in_range(ts as int),
            res matches Some(t) ==> t@ == ts,
    {
        match time_from_unix_timestamp(ts) {
            Some(p) => Some(Timestamp { unix_timestamp: p.0 }),
            None => None,
        }
    }

    /// The Unix timestamp of this instant.
    pub fn unix_timestamp(&self) -> (res: i64)
        ensures
            res == self@,
            timestamp_in_range(res as int),
    {
        proof {
            use_type_invariant(self);
        }
        self.unix_timestamp
    }
}

/// The date with Julian day number `jd`.
pub closed spec fn date_of_julian_day(jd: int) -> Date {
    Date { julian_day: jd as i32 }
}

/// The instant with Unix timestamp `ts`.
pub closed spec fn timestamp_of(ts: int) -> Timestamp {
    Timestamp { unix_timestamp: ts as i64 }
}

/// A date is the one its Julian day number names.
pub proof fn lemma_date_of_julian_day(d: Date)
    ensures
        date_of_julian_day(d@) == d,
{
}

/// An instant is the one its Unix timestamp names.
pub proof fn lemma_timestamp_of(t: Timestamp)
    ensures
        timestamp_of(t@) == t,
{
}

/// The instant named by a Unix timestamp in range has that timestamp.
pub proof fn lemma_unix_timestamp_of(ts: int)
    requires
        timestamp_in_range(ts),
    ensures
        timestamp_of(ts)@ == ts,
{
}

/// Orders absent dates before present ones and present ones by the calendar.
pub open spec fn option_date_le(a: Option<Date>, b: Option<Date>) -> bool {
    match (a, b) {
        (None, _) => true,
        (Some(_), None) => false,
        (Some(x), Some(y)) => x@ <= y@,
    }
}

/// Whether `a` comes no later than `b`, an absent date coming first.
pub fn option_date_before_or_same(a: &Option<Date>, b: &Option<Date>) -> (res: bool)
    ensures
        res == option_date_le(*a, *b),
        res == match (*a, *b) {
            (None, _) => true,
            (Some(_), None) => false,
            (Some(x), Some(y)) => x@ <= y@,
        },
{
    match (a, b) {
        (None, _) => true,
        (Some(_), None) => false,
        (Some(x), Some(y)) => x.julian_day() <= y.julian_day(),
    }
}

/// Dates are ordered as the calendar orders them: a present date comes no
/// later than another exactly when its Julian day number is no greater, an
/// absent date comes before every present one, and no present date comes
/// before an absent one.
pub proof fn lemma_date_order_is_calendar_order(x: Date, y: Date)
    ensures
        option_date_le(Some(x), Some(y)) <==> x@ <= y@,
        option_date_le(None, Some(x)),
        !option_date_le(Some(x), None),
        option_date_le(None, None),
{
}

} // verus!
