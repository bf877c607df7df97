//! The date sections of the DCF77 frame: day of month, day of week, month
//! and two-digit year. Only the year section carries a parity bit.

use vstd::prelude::*;

use super::{
    code_dcf77, decode_dcf77, section_fragment, section_parity_fails, section_value,
    SectionInBitfield,
};
use crate::pulse::{lemma_popcount_low_mask, lemma_popcount_single, lemma_weight_sum_values};
use crate::{ParityError, RangeError};

verus! {

/// Mask for the day in the DCF77 bit field
pub const DAY_BIT_MASK: u64 = 0x3F;

/// Position of the bits for the day in the DCF77 bit field
pub const DAY_POSITION: u8 = 18;

/// Maximum value for the day in a DCF77 bit field, exclusive
pub const MAX_DAY: u32 = 31;

/// Mask for the day_of_week in the DCF77 bit field
pub const DAY_OF_WEEK_BIT_MASK: u64 = 0x7;

/// Position of the bits for the day_of_week in the DCF77 bit field
pub const DAY_OF_WEEK_POSITION: u8 = 15;

/// Maximum value for the day_of_week in a DCF77 bit field, exclusive
pub const MAX_DAY_OF_WEEK: u32 = 7;

/// Mask for the month in the DCF77 bit field
pub const MONTH_BIT_MASK: u64 = 0x1F;

/// Position of the bits for the month in the DCF77 bit field
pub const MONTH_POSITION: u8 = 10;

/// Maximum value for the month in a DCF77 bit field, exclusive
pub const MAX_MONTH: u32 = 12;

/// Mask for the year in the DCF77 bit field
pub const YEAR_BIT_MASK: u64 = 0xFF;

/// Position of the bits for the year in the DCF77 bit field
pub const YEAR_POSITION: u8 = 2;

/// Maximum value for the year in a DCF77 bit field, exclusive: the largest
/// value the eight weights can represent is 165
pub const MAX_YEAR: u32 = 166;

/// Position of the parity bit for the years in the DCF77 bit field
pub const PARITY_YEAR_BIT_MASK: u64 = 0x2;

/// The day-of-month section of the field catalog.
pub open spec fn day_section() -> SectionInBitfield {
    SectionInBitfield {
        data_bit_mask: DAY_BIT_MASK,
        data_position: DAY_POSITION,
        parity_mask: 0,
        max_data: MAX_DAY,
    }
}

/// The day-of-week section of the field catalog.
pub open spec fn day_of_week_section() -> SectionInBitfield {
    SectionInBitfield {
        data_bit_mask: DAY_OF_WEEK_BIT_MASK,
        data_position: DAY_OF_WEEK_POSITION,
        parity_mask: 0,
        max_data: MAX_DAY_OF_WEEK,
    }
}

/// The month section of the field catalog.
pub open spec fn month_section() -> SectionInBitfield {
    SectionInBitfield {
        data_bit_mask: MONTH_BIT_MASK,
        data_position: MONTH_POSITION,
        parity_mask: 0,
        max_data: MAX_MONTH,
    }
}

/// The year section of the field catalog.
pub open spec fn year_section() -> SectionInBitfield {
    SectionInBitfield {
        data_bit_mask: YEAR_BIT_MASK,
        data_position: YEAR_POSITION,
        parity_mask: PARITY_YEAR_BIT_MASK,
        max_data: MAX_YEAR,
    }
}

/// The four date sections are well formed, and these are the carrier bits
/// they own.
pub proof fn lemma_date_sections_wf()
    ensures
        day_section().wf(),
        day_of_week_section().wf(),
        month_section().wf(),
        year_section().wf(),
        day_section().section_mask() == 0xFC0000u64,
        day_of_week_section().section_mask() == 0x38000u64,
        month_section().section_mask() == 0x7C00u64,
        year_section().placed_mask() == 0x3FCu64,
        year_section().section_mask() == 0x3FEu64,
{
    lemma_popcount_low_mask(6);
    lemma_popcount_low_mask(3);
    lemma_popcount_low_mask(5);
    lemma_popcount_low_mask(8);
    lemma_popcount_single(1);
    lemma_weight_sum_values();
    assert(0x3Fu64 == ((1u64 << 6u64) - 1) as u64 && 0x7u64 == ((1u64 << 3u64) - 1) as u64
        && 0x1Fu64 == ((1u64 << 5u64) - 1) as u64 && 0xFFu64 == ((1u64 << 8u64) - 1) as u64
        && 0x2u64 == 1u64 << 1u64 && 0x3Fu64 << 18u64 == 0xFC0000u64 && 0x7u64 << 15u64
        == 0x38000u64 && 0x1Fu64 << 10u64 == 0x7C00u64 && 0xFFu64 << 2u64 == 0x3FCu64 && 0x2u64
        & 0x3FCu64 == 0 && 0xFC0000u64 | 0u64 == 0xFC0000u64 && 0x38000u64 | 0u64 == 0x38000u64
        && 0x7C00u64 | 0u64 == 0x7C00u64 && 0x3FCu64 | 0x2u64 == 0x3FEu64 && 0u64 & 0xFC0000u64
        == 0 && 0u64 & 0x38000u64 == 0 && 0u64 & 0x7C00u64 == 0) by (bit_vector);
}

/// Codes a given day [1..31) into DCF77 bit field
pub fn code_day(input: u32) -> (r: Result<u64, RangeError>)
    ensures
        r is Err <==> input >= MAX_DAY,
        r matches Err(e) ==> e == (RangeError { value: input, max_value: MAX_DAY }),
        r matches Ok(c) ==> c == section_fragment(input, day_section()),
{
    proof {
        lemma_date_sections_wf();
    }
    let section = SectionInBitfield {
        data_bit_mask: DAY_BIT_MASK,
        data_position: DAY_POSITION,
        parity_mask: 0,
        max_data: MAX_DAY,
    };
    code_dcf77(input, section)
}

/// Extracts the day out of a dcf77 bitfield
pub fn process_day(input: u64) -> (r: Result<u32, ParityError>)
    ensures
        r is Ok,
        r matches Ok(v) ==> v as int == section_value(input, day_section()) && v <= 165,
{
    proof {
        lemma_date_sections_wf();
    }
    let section = SectionInBitfield {
        data_bit_mask: DAY_BIT_MASK,
        data_position: DAY_POSITION,
        parity_mask: 0,
        max_data: MAX_DAY,
    };
    decode_dcf77(input, section)
}

/// Codes a given day of the week [1..7) into DCF77 bit field
pub fn code_day_of_the_week(input: u8) -> (r: Result<u64, RangeError>)
    ensures
        r is Err <==> input >= MAX_DAY_OF_WEEK,
        r matches Err(e) ==> e == (RangeError { value: input as u32, max_value: MAX_DAY_OF_WEEK }),
        r matches Ok(c) ==> c == section_fragment(input as u32, day_of_week_section()),
{
    proof {
        lemma_date_sections_wf();
    }
    let section = SectionInBitfield {
        data_bit_mask: DAY_OF_WEEK_BIT_MASK,
        data_position: DAY_OF_WEEK_POSITION,
        parity_mask: 0,
        max_data: MAX_DAY_OF_WEEK,
    };
    code_dcf77(input as u32, section)
}

/// Extracts the day_of_week out of a dcf77 bitfield
pub fn process_day_of_week(input: u64) -> (r: Result<u32, ParityError>)
    ensures
        r is Ok,
        r matches Ok(v) ==> v as int == section_value(input, day_of_week_section()) && v <= 165,
{
    proof {
        lemma_date_sections_wf();
    }
    let section = SectionInBitfield {
        data_bit_mask: DAY_OF_WEEK_BIT_MASK,
        data_position: DAY_OF_WEEK_POSITION,
        parity_mask: 0,
        max_data: MAX_DAY_OF_WEEK,
    };
    decode_dcf77(input, section)
}

/// Codes a given month [1..12) into DCF77 bit field
pub fn code_month(input: u32) -> (r: Result<u64, RangeError>)
    ensures
        r is Err <==> input >= MAX_MONTH,
        r matches Err(e) ==> e == (RangeError { value: input, max_value: MAX_MONTH }),
        r matches Ok(c) ==> c == section_fragment(input, month_section()),
{
    proof {
        lemma_date_sections_wf();
    }
    let section = SectionInBitfield {
        data_bit_mask: MONTH_BIT_MASK,
        data_position: MONTH_POSITION,
        parity_mask: 0,
        max_data: MAX_MONTH,
    };
    code_dcf77(input, section)
}

/// Extracts the month out of a dcf77 bitfield
pub fn process_month(input: u64) -> (r: Result<u32, ParityError>)
    ensures
        r is Ok,
        r matches Ok(v) ==> v as int == section_value(input, month_section()) && v <= 165,
{
    proof {
        lemma_date_sections_wf();
    }
    let section = SectionInBitfield {
        data_bit_mask: MONTH_BIT_MASK,
        data_position: MONTH_POSITION,
        parity_mask: 0,
        max_data: MAX_MONTH,
    };
    decode_dcf77(input, section)
}

/// Codes a given year [0..166) into DCF77 bit field
pub fn code_year(input: i32) -> (r: Result<u64, RangeError>)
    requires
        0 <= input,
    ensures
        r is Err <==> input >= MAX_YEAR,
        r matches Err(e) ==> e == (RangeError { value: input as u32, max_value: MAX_YEAR }),
        r matches Ok(c) ==> c == section_fragment(input as u32, year_section()),
{
    proof {
        lemma_date_sections_wf();
    }
    let section = SectionInBitfield {
        data_bit_mask: YEAR_BIT_MASK,
        data_position: YEAR_POSITION,
        parity_mask: PARITY_YEAR_BIT_MASK,
        max_data: MAX_YEAR,
    };
    code_dcf77(input as u32, section)
}

/// Extracts the year out of a dcf77 bitfield
pub fn process_year(input: u64) -> (r: Result<u32, ParityError>)
    ensures
        r is Err <==> section_parity_fails(input, year_section()),
        r matches Ok(v) ==> v as int == section_value(input, year_section()) && v <= 165,
{
    proof {
        lemma_date_sections_wf();
    }
    let section = SectionInBitfield {
        data_bit_mask: YEAR_BIT_MASK,
        data_position: YEAR_POSITION,
        parity_mask: PARITY_YEAR_BIT_MASK,
        max_data: MAX_YEAR,
    };
    decode_dcf77(input, section)
}

} // verus!
