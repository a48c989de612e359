//! Times of day as the log writes them, and the whole seconds between two of them.

use vstd::prelude::*;

verus! {

/// A time of day: whole seconds since midnight and the nanoseconds after them.
///
/// A leap second is written as the last second of a minute with a nanosecond
/// count of one thousand million or more.
#[derive(Clone, Copy, Debug, PartialEq, Eq, Structural)]
pub struct TimeOfDay {
    pub secs: u32,
    pub frac: u32,
}

impl TimeOfDay {
    /// The fields lie within one day, and only the last second of a minute
    /// carries a leap second.
    pub open spec fn wf(self) -> bool {
        &&& self.secs < 86_400
        &&& self.frac < 2_000_000_000
        &&& (self.frac >= 1_000_000_000 ==> self.secs % 60 == 59)
    }

    /// Nanoseconds from `origin` to `self` on one day's clock. A leap second
    /// held by the earlier of two times in different seconds is counted in.
    pub open spec fn nanos_since(self, origin: TimeOfDay) -> int {
        let leap: int = if self.secs > origin.secs && origin.frac >= 1_000_000_000 {
            1
        } else if self.secs < origin.secs && self.frac >= 1_000_000_000 {
            -1
        } else {
            0
        };
        (self.secs - origin.secs + leap) * 1_000_000_000 + (self.frac - origin.frac)
    }

    /// Whole seconds from `origin` to `self`, the fraction dropped towards zero.
    pub open spec fn seconds_since(self, origin: TimeOfDay) -> int {
        let nanos = self.nanos_since(origin);
        if nanos >= 0 {
            nanos / 1_000_000_000
        } else {
            -((-nanos) / 1_000_000_000)
        }
    }
}

/// The format of the log's time column: hours, minutes, seconds and a
/// fraction of a second.
pub const TIME_FORMAT: &'static str = "%H:%M:%S%.3f";

/// What `chrono::NaiveTime::parse_from_str` makes of `text` under `format`:
/// the seconds since midnight and the nanoseconds of the time read, or `None`
/// where the call reports an error.
pub uninterp spec fn parsed_time(text: Seq<char>, format: Seq<char>) -> Option<(u32, u32)>;

/// The named parse result as a time of day.
pub open spec fn time_reading(text: Seq<char>, format: Seq<char>) -> Option<TimeOfDay> {
    match parsed_time(text, format) {
        Some((secs, frac)) => Some(TimeOfDay { secs, frac }),
        None => None,
    }
}

/// `chrono::NaiveTime::parse_from_str`, with the time read taken apart by
/// `Timelike::num_seconds_from_midnight` and `Timelike::nanosecond`. The
/// result is the named one; a time that chrono holds keeps its seconds within
/// a day and its nanoseconds below two thousand million, above one thousand
/// million only in the last second of a minute.
#[verifier::external_body]
fn parse_time(text: &str, format: &str) -> (time: Option<TimeOfDay>)
    ensures
        time matches Some(t) ==> parsed_time(text@, format@) == Some((t.secs, t.frac)) && t.wf(),
        time is None ==> parsed_time(text@, format@) is None,
{
    match chrono::NaiveTime::parse_from_str(text, format) {
        Ok(t) => Some(
            TimeOfDay {
                secs: chrono::Timelike::num_seconds_from_midnight(&t),
                frac: chrono::Timelike::nanosecond(&t),
            },
        ),
        Err(_) => None,
    }
}

/// `chrono::NaiveTime::signed_duration_since` followed by
/// `chrono::TimeDelta::num_seconds`, on the two times rebuilt by
/// `NaiveTime::from_num_seconds_from_midnight_opt`: the difference in
/// nanoseconds, a leap second of the earlier time counted in, cut to whole
/// seconds towards zero.
#[verifier::external_body]
fn whole_seconds_between(time: TimeOfDay, origin: TimeOfDay) -> (secs: i64)
    requires
        time.wf(),
        origin.wf(),
    ensures
        secs == time.seconds_since(origin),
{
    let later = chrono::NaiveTime::from_num_seconds_from_midnight_opt(time.secs, time.frac).unwrap();
    let earlier = chrono::NaiveTime::from_num_seconds_from_midnight_opt(
        origin.secs,
        origin.frac,
    ).unwrap();
    later.signed_duration_since(earlier).num_seconds()
}

impl TimeOfDay {
    /// Reads a time of day written as hours, minutes, seconds and a fraction.
    pub fn parse(text: &str) -> (time: Option<TimeOfDay>)
        ensures
            time == time_reading(text@, TIME_FORMAT@),
            time matches Some(t) ==> t.wf(),
    {
        parse_time(text, TIME_FORMAT)
    }

    /// Whole seconds from `origin` to `self`, truncated, negative where
    /// `self` is the earlier time on the clock. Nothing is added for a day
    /// that passed in between.
    pub fn elapsed_since(self, origin: TimeOfDay) -> (secs: i64)
        requires
            self.wf(),
            origin.wf(),
        ensures
            secs == self.seconds_since(origin),
            -86_400 <= secs <= 86_400,
    {
        let secs = whole_seconds_between(self, origin);
        proof {
            lemma_seconds_within_a_day(self, origin);
        }
        secs
    }
}

/// A time is no whole second away from itself, and two times of one day are
/// at most a day apart (a full day only where a leap second is involved).
pub proof fn lemma_seconds_within_a_day(time: TimeOfDay, origin: TimeOfDay)
    requires
        time.wf(),
        origin.wf(),
    ensures
        time.seconds_since(time) == 0,
        -86_400 <= time.seconds_since(origin) <= 86_400,
{
    let nanos = time.nanos_since(origin);
    assert(-86_401 * 1_000_000_000 < nanos < 86_401 * 1_000_000_000);
    assert(time.nanos_since(time) == 0);
}

} // verus!
