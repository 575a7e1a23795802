//! The daemon clock: turns seconds since the Unix epoch into the bare
//! calendar date and time of day that stamp captured entries.

use vstd::prelude::*;

use crate::record::{Date, Entry, Time};
use crate::store::StampedEntry;
use crate::trace::{ActorTrace, TraceAction, TraceNode};

verus! {

/// The proleptic Gregorian date `days` days after 1970-01-01, as
/// (year, month, day), computed by eras of 400 years counted from
/// 0000-03-01.
pub open spec fn civil_from_days(days: int) -> (int, int, int) {
    let zero_based_days = days + 719_468;
    let era = zero_based_days / 146_097;
    let day_of_era = zero_based_days - era * 146_097;
    let year_of_era = (day_of_era - day_of_era / 1_460 + day_of_era / 36_524 - day_of_era
        / 146_096) / 365;
    let year = year_of_era + era * 400;
    let day_of_year = day_of_era - (365 * year_of_era + year_of_era / 4 - year_of_era / 100);
    let month_parameter = (5 * day_of_year + 2) / 153;
    let day = day_of_year - (153 * month_parameter + 2) / 5 + 1;
    let month = if month_parameter < 10 {
        month_parameter + 3
    } else {
        month_parameter - 9
    };
    (if month <= 2 {
        year + 1
    } else {
        year
    }, month, day)
}

/// The most days a month of the proleptic Gregorian calendar can have:
/// 30 for April, June, September and November, 29 for February, 31 for
/// the rest.
pub open spec fn longest_month(month: int) -> int {
    if month == 2 {
        29
    } else if month == 4 || month == 6 || month == 9 || month == 11 {
        30
    } else {
        31
    }
}

/// A day counted from 1 March within its year falls inside the month the
/// five-month cycle of 153 days assigns it to.
proof fn lemma_day_within_month(day_of_year: int, month_parameter: int, day: int)
    requires
        0 <= day_of_year <= 365,
        month_parameter == (5 * day_of_year + 2) / 153,
        day == day_of_year - (153 * month_parameter + 2) / 5 + 1,
    ensures
        0 <= month_parameter <= 11,
        1 <= day,
        day <= longest_month(
            if month_parameter < 10 {
                month_parameter + 3
            } else {
                month_parameter - 9
            },
        ),
{
    assert(0 <= month_parameter <= 11 && 153 * month_parameter <= 5 * day_of_year + 2 < 153 * (
    month_parameter + 1)) by (nonlinear_arith)
        requires
            0 <= day_of_year <= 365,
            month_parameter == (5 * day_of_year + 2) / 153,
    {
    }
    assert(1 <= day <= longest_month(
        if month_parameter < 10 {
            month_parameter + 3
        } else {
            month_parameter - 9
        },
    )) by (nonlinear_arith)
        requires
            0 <= day_of_year <= 365,
            0 <= month_parameter <= 11,
            153 * month_parameter <= 5 * day_of_year + 2 < 153 * (month_parameter + 1),
            day == day_of_year - (153 * month_parameter + 2) / 5 + 1,
    {
    }
}

/// A civil calendar date.
#[derive(Debug, Clone, Copy, PartialEq, Eq, Structural)]
pub struct CivilDate {
    pub year: i32,
    pub month: u32,
    pub day: u32,
}

impl CivilDate {
    /// The date `days` days after 1970-01-01.
    pub fn from_unix_days(days: i64) -> (date: Self)
        requires
            i64::MIN + 865_564 <= days <= i64::MAX - 719_468,
        ensures
            date.year == civil_from_days(days as int).0 as i32,
            date.month == civil_from_days(days as int).1,
            date.day == civil_from_days(days as int).2,
            1 <= date.month <= 12,
            1 <= date.day <= longest_month(date.month as int),
    {
        let zero_based_days = days + 719_468;
        let numerator = if zero_based_days >= 0 {
            zero_based_days
        } else {
            zero_based_days - 146_096
        };
        let era = numerator / 146_097;
        assert(era == zero_based_days / 146_097);
        let day_of_era = zero_based_days - era * 146_097;
        assert(0 <= day_of_era < 146_097) by (nonlinear_arith)
            requires
                era == zero_based_days / 146_097,
                day_of_era == zero_based_days - era * 146_097,
        {
        }
        let year_of_era = (day_of_era - day_of_era / 1_460 + day_of_era / 36_524 - day_of_era
            / 146_096) / 365;
        assert(0 <= year_of_era <= 400) by (nonlinear_arith)
            requires
                0 <= day_of_era < 146_097,
                year_of_era == (day_of_era - day_of_era / 1_460 + day_of_era / 36_524 - day_of_era
                    / 146_096) / 365,
        {
        }
        let mut year = year_of_era + era * 400;
        let day_of_year = day_of_era - (365 * year_of_era + year_of_era / 4 - year_of_era / 100);
        assert(0 <= day_of_year <= 365) by (nonlinear_arith)
            requires
                0 <= day_of_era < 146_097,
                year_of_era == (day_of_era - day_of_era / 1_460 + day_of_era / 36_524 - day_of_era
                    / 146_096) / 365,
                day_of_year == day_of_era - (365 * year_of_era + year_of_era / 4 - year_of_era / 100),
        {
        }
        let month_parameter = (5 * day_of_year + 2) / 153;
        let day = day_of_year - (153 * month_parameter + 2) / 5 + 1;
        proof {
            lemma_day_within_month(day_of_year as int, month_parameter as int, day as int);
        }
        let month = month_parameter + if month_parameter < 10 {
            3
        } else {
            -9
        };
        if month <= 2 {
            year += 1;
        }
        CivilDate { year: year as i32, month: month as u32, day: day as u32 }
    }

    pub fn into_parts(self) -> (parts: (i32, u32, u32))
        ensures
            parts == (self.year, self.month, self.day),
    {
        (self.year, self.month, self.day)
    }
}

/// The bare date and time of day a clock reading stamps.
#[derive(Debug, Clone, Copy, PartialEq, Eq, Structural)]
pub struct ClockReading {
    pub date: Date,
    pub time: Time,
}

/// The calendar date and time of day `seconds` seconds after the epoch:
/// the date of the whole days elapsed, and the hour, minute and second
/// within the last day. The year is kept in sixteen bits, as dates are.
pub open spec fn reading_at(seconds: nat) -> ClockReading {
    let civil = civil_from_days((seconds / 86_400) as int);
    let within = seconds % 86_400;
    ClockReading {
        date: Date { year: civil.0 as i32 as u16, month: civil.1 as u8, day: civil.2 as u8 },
        time: Time {
            hour: (within / 3_600) as u8,
            minute: ((within % 3_600) / 60) as u8,
            second: (within % 60) as u8,
        },
    }
}

/// The time of day a reading stamps is the time elapsed since midnight:
/// hours, minutes and seconds within their ranges that add up to the
/// seconds since the epoch left over after the whole days; and a reading a
/// whole day later stamps the same time of day.
pub proof fn law_reading_time_is_time_of_day(seconds: nat)
    ensures
        reading_at(seconds).time.hour < 24,
        reading_at(seconds).time.minute < 60,
        reading_at(seconds).time.second < 60,
        reading_at(seconds).time.hour * 3_600 + reading_at(seconds).time.minute * 60 + reading_at(
            seconds,
        ).time.second == seconds % 86_400,
        reading_at(seconds + 86_400).time == reading_at(seconds).time,
{
    let within = seconds % 86_400;
    vstd::arithmetic::div_mod::lemma_mod_add_multiples_vanish(seconds as int, 86_400);
    assert((seconds + 86_400) % 86_400 == within);
    assert(within / 3_600 < 24 && (within % 3_600) / 60 < 60 && within % 60 < 60
        && (within / 3_600) * 3_600 + ((within % 3_600) / 60) * 60 + within % 60 == within)
        by (nonlinear_arith)
        requires
            within < 86_400,
    {
    }
}

impl ClockReading {
    pub fn from_unix_seconds(seconds: u64) -> (reading: Self)
        ensures
            reading == reading_at(seconds as nat),
            1 <= reading.date.month <= 12,
            1 <= reading.date.day <= longest_month(reading.date.month as int),
            reading.time.hour < 24,
            reading.time.minute < 60,
            reading.time.second < 60,
    {
        let days = (seconds / 86_400) as i64;
        let seconds_of_day = seconds % 86_400;
        let (year, month, day) = CivilDate::from_unix_days(days).into_parts();
        let hour = (seconds_of_day / 3_600) as u8;
        let minute = ((seconds_of_day % 3_600) / 60) as u8;
        let second = (seconds_of_day % 60) as u8;
        ClockReading {
            date: Date::new(year as u16, month as u8, day as u8),
            time: Time::new(hour, minute, second),
        }
    }
}

/// Where the daemon's time comes from: the system clock, shifted by a
/// fixed offset in seconds.
#[derive(Debug, Clone, Copy, Default, PartialEq, Eq, Structural)]
pub struct ClockSource {
    pub offset_seconds: i64,
}

impl ClockSource {
    pub fn new(offset_seconds: i64) -> (source: Self)
        ensures
            source.offset_seconds == offset_seconds,
    {
        ClockSource { offset_seconds }
    }

    /// Reads the clock when the system clock shows `now_unix_seconds`:
    /// the shifted moment, clamped to the epoch (and to the range of
    /// `i64` when the shift would leave it).
    pub fn read(self, now_unix_seconds: i64) -> (reading: ClockReading)
        ensures
            reading == reading_at(shifted_seconds(now_unix_seconds, self.offset_seconds)),
    {
        let offset = self.offset_seconds;
        let seconds: i64 = if offset > 0 && now_unix_seconds > i64::MAX - offset {
            i64::MAX
        } else if offset < 0 && now_unix_seconds < i64::MIN - offset {
            i64::MIN
        } else {
            now_unix_seconds + offset
        };
        let clamped: u64 = if seconds > 0 {
            seconds as u64
        } else {
            0
        };
        ClockReading::from_unix_seconds(clamped)
    }
}

/// The shifted moment a clock source reads, clamped to the epoch.
pub open spec fn shifted_seconds(now: i64, offset: i64) -> nat {
    let shifted = now + offset;
    let bounded = if shifted > i64::MAX {
        i64::MAX as int
    } else if shifted < i64::MIN {
        i64::MIN as int
    } else {
        shifted
    };
    if bounded > 0 {
        bounded as nat
    } else {
        0
    }
}

/// The plane that stamps submitted entries with the daemon's time.
pub struct ClockPlane {
    source: ClockSource,
}

/// A stamped entry and the trace that produced it.
#[derive(Debug, PartialEq, Eq)]
pub struct StampedEntryReply {
    pub entry: StampedEntry,
    pub trace: ActorTrace,
}

impl ClockPlane {
    pub fn new(source: ClockSource) -> (plane: Self)
        ensures
            plane.source() == source,
    {
        ClockPlane { source }
    }

    pub closed spec fn source(&self) -> ClockSource {
        self.source
    }

    /// Stamps `entry` with the time the clock reads at `now_unix_seconds`.
    pub fn stamp_entry(&self, entry: Entry, trace: ActorTrace, now_unix_seconds: i64) -> (reply: StampedEntryReply)
        ensures
            reply.entry@.entry == entry@,
            reply.entry@.moment == (crate::record::RecordedTime {
                date: reading_at(shifted_seconds(now_unix_seconds, self.source().offset_seconds)).date,
                time: reading_at(shifted_seconds(now_unix_seconds, self.source().offset_seconds)).time,
            }),
            reply.trace@ == trace@.push(("ClockPlane"@, TraceAction::MessageReceived)).push(
                ("ClockPlane"@, TraceAction::EntryStamped),
            ),
    {
        let mut trace = trace;
        trace.record(TraceNode::clock_plane(), TraceAction::MessageReceived);
        let reading = self.source.read(now_unix_seconds);
        let entry = StampedEntry::new(entry, reading.date, reading.time);
        trace.record(TraceNode::clock_plane(), TraceAction::EntryStamped);
        StampedEntryReply { entry, trace }
    }
}

} // verus!
