//! The five single-bit status flags of the DCF77 frame. They carry no
//! pulse encoding and no parity.
//!
//! Daylight-saving time active and standard time active are distinct,
//! adjacent carrier bits, as the broadcast transmits them.

use vstd::prelude::*;

verus! {

/// Mask for the Antenna bit (R) in the DCF77 bit field
pub const ANTENNA_BIT_MASK: u64 = 0x100000000000;

/// Mask for the Announce bit for daylight saving time switching (A1) in the
/// DCF77 bit field
pub const ANNOUNCE_DAYLIGHT_SAVING_SWITCHING: u64 = 0x80000000000;

/// Mask for the daylight saving time bit (Z1) in the DCF77 bit field
pub const ANNOUNCE_DAYLIGHT_SAVING: u64 = 0x40000000000;

/// Mask for the standard time bit (Z2) in the DCF77 bit field
pub const ANNOUNCE_STANDARD_TIME: u64 = 0x20000000000;

/// Mask for the leap second bit (A2) in the DCF77 bit field
pub const ANNOUNCE_BIT_LEAP_FOR_SECOND: u64 = 0x10000000000;

/// Codes a given antenna bit into the DCF77 bit field
pub fn code_antenna(input: bool) -> (r: u64)
    ensures
        r == (if input {
            ANTENNA_BIT_MASK
        } else {
            0u64
        }),
{
    if input {
        ANTENNA_BIT_MASK
    } else {
        0
    }
}

/// Extracts the antenna bit out of a dcf77 bitfield
pub fn process_antenna(input: u64) -> (r: bool)
    ensures
        r == (input & ANTENNA_BIT_MASK != 0),
{
    0 < input & ANTENNA_BIT_MASK
}

/// Codes a given announce bit for daylight saving time switching into the
/// DCF77 bit field
pub fn code_announce_daylight_saving_switching(input: bool) -> (r: u64)
    ensures
        r == (if input {
            ANNOUNCE_DAYLIGHT_SAVING_SWITCHING
        } else {
            0u64
        }),
{
    if input {
        ANNOUNCE_DAYLIGHT_SAVING_SWITCHING
    } else {
        0
    }
}

/// Extracts the daylight saving switch bit out of a dcf77 bitfield
pub fn process_daylight_saving_switch(input: u64) -> (r: bool)
    ensures
        r == (input & ANNOUNCE_DAYLIGHT_SAVING_SWITCHING != 0),
{
    0 < input & ANNOUNCE_DAYLIGHT_SAVING_SWITCHING
}

/// Codes a given daylight saving bit into the DCF77 bit field
pub fn code_daylight_saving(input: bool) -> (r: u64)
    ensures
        r == (if input {
            ANNOUNCE_DAYLIGHT_SAVING
        } else {
            0u64
        }),
{
    if input {
        ANNOUNCE_DAYLIGHT_SAVING
    } else {
        0
    }
}

/// Extracts the daylight saving bit out of a dcf77 bitfield
pub fn process_daylight_saving(input: u64) -> (r: bool)
    ensures
        r == (input & ANNOUNCE_DAYLIGHT_SAVING != 0),
{
    0 < input & ANNOUNCE_DAYLIGHT_SAVING
}

/// Codes a given standard time bit into the DCF77 bit field
pub fn code_standard_time(input: bool) -> (r: u64)
    ensures
        r == (if input {
            ANNOUNCE_STANDARD_TIME
        } else {
            0u64
        }),
{
    if input {
        ANNOUNCE_STANDARD_TIME
    } else {
        0
    }
}

/// Extracts the standard time bit out of a dcf77 bitfield
pub fn process_standard_time(input: u64) -> (r: bool)
    ensures
        r == (input & ANNOUNCE_STANDARD_TIME != 0),
{
    0 < input & ANNOUNCE_STANDARD_TIME
}

/// Codes a given bit leap second bit into the DCF77 bit field
pub fn code_bit_leap_second(input: bool) -> (r: u64)
    ensures
        r == (if input {
            ANNOUNCE_BIT_LEAP_FOR_SECOND
        } else {
            0u64
        }),
{
    if input {
        ANNOUNCE_BIT_LEAP_FOR_SECOND
    } else {
        0
    }
}

/// Extracts the bit leap second bit out of a dcf77 bitfield
pub fn process_bit_leap_second(input: u64) -> (r: bool)
    ensures
        r == (input & ANNOUNCE_BIT_LEAP_FOR_SECOND != 0),
{
    0 < input & ANNOUNCE_BIT_LEAP_FOR_SECOND
}

} // verus!
