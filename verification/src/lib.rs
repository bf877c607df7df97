//! Conversion between a civil date-time (plus status flags) and the 64-bit
//! carrier word that holds one broadcast minute of the DCF77 long-wave time
//! signal.
//!
//! The crate offers two main methods:
//! - `to_dcf77`
//! - `from_dcf77`

use vstd::prelude::*;

pub mod calendar;
pub mod dcf77;
pub mod pulse;

use crate::dcf77::date::{
    day_of_week_section, day_section, lemma_date_sections_wf, month_section, year_section,
    MAX_DAY, MAX_DAY_OF_WEEK, MAX_MONTH, MAX_YEAR,
};
use crate::dcf77::hour::{
    hour_section, lemma_hour_sections_wf, minutes_section, MAX_HOUR, MAX_MINUTES,
};
use crate::dcf77::metadata::{
    ANNOUNCE_BIT_LEAP_FOR_SECOND, ANNOUNCE_DAYLIGHT_SAVING, ANNOUNCE_DAYLIGHT_SAVING_SWITCHING,
    ANNOUNCE_STANDARD_TIME, ANTENNA_BIT_MASK,
};
use crate::dcf77::{
    lemma_section_independent, lemma_section_round_trip, section_fragment, section_parity_fails, section_value,
};

verus! {

/// The data fields of a DCF77 frame.
#[derive(Clone, Copy, Debug, PartialEq, Eq, Structural)]
pub enum FieldName {
    Minute,
    Hour,
    Day,
    Weekday,
    Month,
    Year,
}

/// A field value at or above its section's bound, refused by encoding.
#[derive(Clone, Copy, Debug, PartialEq, Eq, Structural)]
pub struct RangeError {
    /// The refused value.
    pub value: u32,
    /// The section's exclusive upper bound.
    pub max_value: u32,
}

/// A parity-protected section whose stored parity bit disagrees with its
/// data: the carrier is corrupted or misaligned.
#[derive(Clone, Copy, Debug, PartialEq, Eq, Structural)]
pub struct ParityError {}

/// A frame decoding failure: the parity error of the failing section,
/// tagged with its field.
#[derive(Clone, Copy, Debug, PartialEq, Eq, Structural)]
pub struct CodecError {
    /// The field whose section reported the failure.
    pub field: FieldName,
    /// The section's own error.
    pub reason: ParityError,
}

/// A calendar date-time of the civil clock, as plain values. The day of the
/// week counts Monday = 1 .. Sunday = 7. For encoding, the year must already
/// be reduced to the year field's range; that reduction belongs to the
/// calendar collaborator, not to the codec.
#[derive(Clone, Copy, Debug, PartialEq, Eq, Structural)]
pub struct CivilDateTime {
    /// Year, within the year field's range
    pub year: u32,
    /// Month of the year
    pub month: u32,
    /// Day of the month
    pub day: u32,
    /// Day of the week, Monday = 1 .. Sunday = 7
    pub weekday: u8,
    /// Hour of the day
    pub hour: u32,
    /// Minute of the hour
    pub minute: u32,
}

impl CivilDateTime {
    /// Builds a civil date-time from calendar components, asking the
    /// calendar collaborator for the day of the week. Returns None where
    /// the components name no real calendar date or time of day, or where
    /// the year does not fit the civil clock.
    pub fn from_calendar(year: i32, month: u32, day: u32, hour: u32, minute: u32) -> (r: Option<
        CivilDateTime,
    >)
        ensures
            r is Some <==> (0 <= year && calendar::is_calendar_date(
                year as int,
                month as int,
                day as int,
            ) && hour < 24 && minute < 60),
            r matches Some(d) ==> {
                &&& d.year == year
                &&& d.month == month
                &&& d.day == day
                &&& d.weekday as int == calendar::weekday_of_date(
                    year as int,
                    month as int,
                    day as int,
                )
                &&& d.hour == hour
                &&& d.minute == minute
            },
    {
        if year < 0 || hour >= 24 || minute >= 60 {
            return None;
        }
        match calendar::weekday_from_ymd(year, month, day) {
            Some(weekday) => Some(
                CivilDateTime {
                    year: year as u32,
                    month: month,
                    day: day,
                    weekday: weekday,
                    hour: hour,
                    minute: minute,
                },
            ),
            None => None,
        }
    }
}

/// Struct that represents the DCF77 information
///
/// This struct contains a civil date-time and the metadata that the DCF77
/// frame offers.
#[derive(Clone, Copy, Debug, PartialEq, Eq, Structural)]
pub struct DCF77 {
    /// Date and time carried by the frame
    pub date: CivilDateTime,
    /// Antenna bit
    pub antenna: bool,
    /// Announce Bit for Daylight Saving Time (DST) Switching
    pub announce_daily_saving_time: bool,
    /// If this bit is set, Daylight Saving Time (DST) is Active
    pub daily_saving_time: bool,
    /// If this bit is set, Standard Time is Active
    pub standard_time: bool,
    /// Announce Bit for Leap Second
    pub bit_leap_second: bool,
}

/// Whether every field of the date-time lies inside its section's bound,
/// so that encoding the frame succeeds.
pub open spec fn frame_in_range(date: CivilDateTime) -> bool {
    &&& date.hour < MAX_HOUR
    &&& date.minute < MAX_MINUTES
    &&& date.day < MAX_DAY
    &&& date.weekday < MAX_DAY_OF_WEEK
    &&& date.month < MAX_MONTH
    &&& date.year < MAX_YEAR
}

/// The range error of the first out-of-bound field, in encoding order.
pub open spec fn frame_range_error(date: CivilDateTime) -> RangeError {
    if date.hour >= MAX_HOUR {
        RangeError { value: date.hour, max_value: MAX_HOUR }
    } else if date.minute >= MAX_MINUTES {
        RangeError { value: date.minute, max_value: MAX_MINUTES }
    } else if date.day >= MAX_DAY {
        RangeError { value: date.day, max_value: MAX_DAY }
    } else if date.weekday >= MAX_DAY_OF_WEEK {
        RangeError { value: date.weekday as u32, max_value: MAX_DAY_OF_WEEK }
    } else if date.month >= MAX_MONTH {
        RangeError { value: date.month, max_value: MAX_MONTH }
    } else {
        RangeError { value: date.year, max_value: MAX_YEAR }
    }
}

/// The carrier word that encodes a frame whose fields are all in range:
/// the union of the six section fragments and the five flag bits.
pub open spec fn frame_carrier(dcf_data: DCF77) -> u64 {
    section_fragment(dcf_data.date.hour, hour_section()) | section_fragment(
        dcf_data.date.minute,
        minutes_section(),
    ) | section_fragment(dcf_data.date.day, day_section()) | section_fragment(
        dcf_data.date.weekday as u32,
        day_of_week_section(),
    ) | section_fragment(dcf_data.date.month, month_section()) | section_fragment(
        dcf_data.date.year,
        year_section(),
    ) | (if dcf_data.antenna {
        ANTENNA_BIT_MASK
    } else {
        0u64
    }) | (if dcf_data.announce_daily_saving_time {
        ANNOUNCE_DAYLIGHT_SAVING_SWITCHING
    } else {
        0u64
    }) | (if dcf_data.daily_saving_time {
        ANNOUNCE_DAYLIGHT_SAVING
    } else {
        0u64
    }) | (if dcf_data.standard_time {
        ANNOUNCE_STANDARD_TIME
    } else {
        0u64
    }) | (if dcf_data.bit_leap_second {
        ANNOUNCE_BIT_LEAP_FOR_SECOND
    } else {
        0u64
    })
}

/// The round trip of a whole frame, and the independence of its fields:
/// the carrier encoded from in-range fields passes every parity check,
/// every field of it decodes to the value that was encoded although the
/// other fields and the flags sit in the same word, and every flag bit
/// matches its flag.
pub proof fn lemma_frame_round_trip(dcf_data: DCF77)
    requires
        frame_in_range(dcf_data.date),
    ensures
        !section_parity_fails(frame_carrier(dcf_data), hour_section()),
        !section_parity_fails(frame_carrier(dcf_data), minutes_section()),
        !section_parity_fails(frame_carrier(dcf_data), year_section()),
        section_value(frame_carrier(dcf_data), hour_section()) == dcf_data.date.hour,
        section_value(frame_carrier(dcf_data), minutes_section()) == dcf_data.date.minute,
        section_value(frame_carrier(dcf_data), day_section()) == dcf_data.date.day,
        section_value(frame_carrier(dcf_data), day_of_week_section()) == dcf_data.date.weekday,
        section_value(frame_carrier(dcf_data), month_section()) == dcf_data.date.month,
        section_value(frame_carrier(dcf_data), year_section()) == dcf_data.date.year,
        (frame_carrier(dcf_data) & ANTENNA_BIT_MASK != 0) == dcf_data.antenna,
        (frame_carrier(dcf_data) & ANNOUNCE_DAYLIGHT_SAVING_SWITCHING != 0)
            == dcf_data.announce_daily_saving_time,
        (frame_carrier(dcf_data) & ANNOUNCE_DAYLIGHT_SAVING != 0) == dcf_data.daily_saving_time,
        (frame_carrier(dcf_data) & ANNOUNCE_STANDARD_TIME != 0) == dcf_data.standard_time,
        (frame_carrier(dcf_data) & ANNOUNCE_BIT_LEAP_FOR_SECOND != 0) == dcf_data.bit_leap_second,
{
    lemma_hour_sections_wf();
    lemma_date_sections_wf();
    let date = dcf_data.date;
    let fh = section_fragment(date.hour, hour_section());
    let fm = section_fragment(date.minute, minutes_section());
    let fd = section_fragment(date.day, day_section());
    let fw = section_fragment(date.weekday as u32, day_of_week_section());
    let fmo = section_fragment(date.month, month_section());
    let fy = section_fragment(date.year, year_section());
    let fa = if dcf_data.antenna {
        ANTENNA_BIT_MASK
    } else {
        0u64
    };
    let fan = if dcf_data.announce_daily_saving_time {
        ANNOUNCE_DAYLIGHT_SAVING_SWITCHING
    } else {
        0u64
    };
    let fdst = if dcf_data.daily_saving_time {
        ANNOUNCE_DAYLIGHT_SAVING
    } else {
        0u64
    };
    let fst = if dcf_data.standard_time {
        ANNOUNCE_STANDARD_TIME
    } else {
        0u64
    };
    let fleap = if dcf_data.bit_leap_second {
        ANNOUNCE_BIT_LEAP_FOR_SECOND
    } else {
        0u64
    };
    let c = frame_carrier(dcf_data);
    lemma_section_round_trip(date.hour, hour_section());
    lemma_section_round_trip(date.minute, minutes_section());
    lemma_section_round_trip(date.day, day_section());
    lemma_section_round_trip(date.weekday as u32, day_of_week_section());
    lemma_section_round_trip(date.month, month_section());
    lemma_section_round_trip(date.year, year_section());
    assert(fa & !0x100000000000u64 == 0 && fan & !0x80000000000u64 == 0 && fdst
        & !0x40000000000u64 == 0 && fst & !0x20000000000u64 == 0 && fleap & !0x10000000000u64
        == 0) by (bit_vector)
        requires
            fa == 0x100000000000u64 || fa == 0,
            fan == 0x80000000000u64 || fan == 0,
            fdst == 0x40000000000u64 || fdst == 0,
            fst == 0x20000000000u64 || fst == 0,
            fleap == 0x10000000000u64 || fleap == 0,
    ;
    let jh = fm | fd | fw | fmo | fy | fa | fan | fdst | fst | fleap;
    let jm = fh | fd | fw | fmo | fy | fa | fan | fdst | fst | fleap;
    let jd = fh | fm | fw | fmo | fy | fa | fan | fdst | fst | fleap;
    let jw = fh | fm | fd | fmo | fy | fa | fan | fdst | fst | fleap;
    let jmo = fh | fm | fd | fw | fy | fa | fan | fdst | fst | fleap;
    let jy = fh | fm | fd | fw | fmo | fa | fan | fdst | fst | fleap;
    assert(c == fh | jh && jh & 0x7F000000u64 == 0 && c == fm | jm && jm & 0x7F80000000u64 == 0
        && c == fd | jd && jd & 0xFC0000u64 == 0 && c == fw | jw && jw & 0x38000u64 == 0 && c
        == fmo | jmo && jmo & 0x7C00u64 == 0 && c == fy | jy && jy & 0x3FEu64 == 0 && c
        & 0x100000000000u64 == fa && c & 0x80000000000u64 == fan && c & 0x40000000000u64 == fdst
        && c & 0x20000000000u64 == fst && c & 0x10000000000u64 == fleap) by (bit_vector)
        requires
            c == fh | fm | fd | fw | fmo | fy | fa | fan | fdst | fst | fleap,
            jh == fm | fd | fw | fmo | fy | fa | fan | fdst | fst | fleap,
            jm == fh | fd | fw | fmo | fy | fa | fan | fdst | fst | fleap,
            jd == fh | fm | fw | fmo | fy | fa | fan | fdst | fst | fleap,
            jw == fh | fm | fd | fmo | fy | fa | fan | fdst | fst | fleap,
            jmo == fh | fm | fd | fw | fy | fa | fan | fdst | fst | fleap,
            jy == fh | fm | fd | fw | fmo | fa | fan | fdst | fst | fleap,
            fh & !0x7F000000u64 == 0,
            fm & !0x7F80000000u64 == 0,
            fd & !0xFC0000u64 == 0,
            fw & !0x38000u64 == 0,
            fmo & !0x7C00u64 == 0,
            fy & !0x3FEu64 == 0,
            fa & !0x100000000000u64 == 0,
            fan & !0x80000000000u64 == 0,
            fdst & !0x40000000000u64 == 0,
            fst & !0x20000000000u64 == 0,
            fleap & !0x10000000000u64 == 0,
    ;
    lemma_section_independent(fh, jh, hour_section());
    lemma_section_independent(fm, jm, minutes_section());
    lemma_section_independent(fd, jd, day_section());
    lemma_section_independent(fw, jw, day_of_week_section());
    lemma_section_independent(fmo, jmo, month_section());
    lemma_section_independent(fy, jy, year_section());
}

/// Encodes a dcf77 bit field containing the information of a DCF77 struct
///
/// A DCF77 struct is given as input and a DCF77 bitfield is returned when
/// successful. A field at or above its bound is refused with a RangeError
/// naming the value and the bound, the first such field in the order hour,
/// minutes, day, day of week, month, year.
pub fn to_dcf77(dcf_data: DCF77) -> (r: Result<u64, RangeError>)
    ensures
        r is Err <==> !frame_in_range(dcf_data.date),
        r matches Err(e) ==> e == frame_range_error(dcf_data.date),
        r matches Ok(c) ==> c == frame_carrier(dcf_data),
{
    let date = dcf_data.date;
    let coded_hour = match dcf77::hour::code_hour(date.hour) {
        Ok(v) => v,
        Err(e) => {
            return Err(e);
        },
    };
    let coded_minutes = match dcf77::hour::code_minutes(date.minute) {
        Ok(v) => v,
        Err(e) => {
            return Err(e);
        },
    };
    let coded_day = match dcf77::date::code_day(date.day) {
        Ok(v) => v,
        Err(e) => {
            return Err(e);
        },
    };
    let coded_day_of_week = match dcf77::date::code_day_of_the_week(date.weekday) {
        Ok(v) => v,
        Err(e) => {
            return Err(e);
        },
    };
    let coded_month = match dcf77::date::code_month(date.month) {
        Ok(v) => v,
        Err(e) => {
            return Err(e);
        },
    };
    if date.year >= MAX_YEAR {
        return Err(RangeError { value: date.year, max_value: MAX_YEAR });
    }
    let coded_year = match dcf77::date::code_year(date.year as i32) {
        Ok(v) => v,
        Err(e) => {
            return Err(e);
        },
    };
    let coded_antenna = dcf77::metadata::code_antenna(dcf_data.antenna);
    let coded_announce_daily_saving_time = dcf77::metadata::code_announce_daylight_saving_switching(
        dcf_data.announce_daily_saving_time,
    );
    let coded_daily_saving_time = dcf77::metadata::code_daylight_saving(
        dcf_data.daily_saving_time,
    );
    let coded_standard_time = dcf77::metadata::code_standard_time(dcf_data.standard_time);
    let coded_bit_leap_second = dcf77::metadata::code_bit_leap_second(dcf_data.bit_leap_second);
    Ok(
        coded_hour | coded_minutes | coded_day | coded_day_of_week | coded_month | coded_year
            | coded_antenna | coded_announce_daily_saving_time | coded_daily_saving_time
            | coded_standard_time | coded_bit_leap_second,
    )
}

/// Decodes the date and metadata out of a dcf77 bit field
///
/// A DCF77 bitfield is given as input and a DCF77 struct is returned when
/// successful. A parity-protected section whose check fails is reported as
/// a CodecError tagged with its field, the first such section in the order
/// hour, minutes, year; the sections without parity cannot fail. The
/// decoded date is not checked for calendrical reality: that check belongs
/// to the calendar collaborator.
pub fn from_dcf77(input: u64) -> (r: Result<DCF77, CodecError>)
    ensures
        r is Err <==> (section_parity_fails(input, hour_section()) || section_parity_fails(
            input,
            minutes_section(),
        ) || section_parity_fails(input, year_section())),
        r matches Err(e) ==> e.reason == (ParityError {}) && e.field == (
        if section_parity_fails(input, hour_section()) {
            FieldName::Hour
        } else if section_parity_fails(input, minutes_section()) {
            FieldName::Minute
        } else {
            FieldName::Year
        }),
        r matches Ok(d) ==> {
            &&& d.date.hour as int == section_value(input, hour_section())
            &&& d.date.minute as int == section_value(input, minutes_section())
            &&& d.date.day as int == section_value(input, day_section())
            &&& d.date.weekday as int == section_value(input, day_of_week_section())
            &&& d.date.month as int == section_value(input, month_section())
            &&& d.date.year as int == section_value(input, year_section())
            &&& d.antenna == (input & ANTENNA_BIT_MASK != 0)
            &&& d.announce_daily_saving_time == (input & ANNOUNCE_DAYLIGHT_SAVING_SWITCHING != 0)
            &&& d.daily_saving_time == (input & ANNOUNCE_DAYLIGHT_SAVING != 0)
            &&& d.standard_time == (input & ANNOUNCE_STANDARD_TIME != 0)
            &&& d.bit_leap_second == (input & ANNOUNCE_BIT_LEAP_FOR_SECOND != 0)
        },
{
    let processed_hour = match dcf77::hour::process_hour(input) {
        Ok(v) => v,
        Err(reason) => {
            return Err(CodecError { field: FieldName::Hour, reason: reason });
        },
    };
    let processed_minutes = match dcf77::hour::process_minutes(input) {
        Ok(v) => v,
        Err(reason) => {
            return Err(CodecError { field: FieldName::Minute, reason: reason });
        },
    };
    let processed_day = match dcf77::date::process_day(input) {
        Ok(v) => v,
        Err(reason) => {
            return Err(CodecError { field: FieldName::Day, reason: reason });
        },
    };
    let processed_day_of_week = match dcf77::date::process_day_of_week(input) {
        Ok(v) => v,
        Err(reason) => {
            return Err(CodecError { field: FieldName::Weekday, reason: reason });
        },
    };
    let processed_month = match dcf77::date::process_month(input) {
        Ok(v) => v,
        Err(reason) => {
            return Err(CodecError { field: FieldName::Month, reason: reason });
        },
    };
    let processed_year = match dcf77::date::process_year(input) {
        Ok(v) => v,
        Err(reason) => {
            return Err(CodecError { field: FieldName::Year, reason: reason });
        },
    };
    let output = DCF77 {
        date: CivilDateTime {
            year: processed_year,
            month: processed_month,
            day: processed_day,
            weekday: processed_day_of_week as u8,
            hour: processed_hour,
            minute: processed_minutes,
        },
        antenna: dcf77::metadata::process_antenna(input),
        announce_daily_saving_time: dcf77::metadata::process_daylight_saving_switch(input),
        daily_saving_time: dcf77::metadata::process_daylight_saving(input),
        standard_time: dcf77::metadata::process_standard_time(input),
        bit_leap_second: dcf77::metadata::process_bit_leap_second(input),
    };
    Ok(output)
}

} // verus!

