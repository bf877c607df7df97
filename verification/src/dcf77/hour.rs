//! The hour and minute sections of the DCF77 frame, both parity-protected.

use vstd::prelude::*;

use super::{
    code_dcf77, decode_dcf77, section_fragment, section_parity_fails, section_value,
    SectionInBitfield,
};
use crate::pulse::{lemma_popcount_low_mask, lemma_popcount_single, lemma_weight_sum_values};
use crate::{ParityError, RangeError};

verus! {

/// Mask for the hour [0..24) in the DCF77 bit field
pub const HOUR_BIT_MASK: u64 = 0x3F;

/// Position of the parity bit for the hour in the DCF77 bit field
pub const PARITY_HOUR_BIT_MASK: u64 = 0x1000000;

/// Position of the bits for the hour in the DCF77 bit field
pub const HOUR_POSITION: u8 = 25;

/// Maximum value for the hour in a DCF77 bit field, exclusive
pub const MAX_HOUR: u32 = 24;

/// Mask for the minutes [0..60) in the DCF77 bit field
pub const MINUTES_BIT_MASK: u64 = 0x7F;

/// Position of the parity bit for the minutes in the DCF77 bit field
pub const PARITY_MINUTES_BIT_MASK: u64 = 0x80000000;

/// Position of the bits for the minutes in the DCF77 bit field
pub const MINUTES_POSITION: u8 = 32;

/// Maximum value for the minutes in a DCF77 bit field, exclusive
pub const MAX_MINUTES: u32 = 60;

/// The hour section of the field catalog.
pub open spec fn hour_section() -> SectionInBitfield {
    SectionInBitfield {
        data_bit_mask: HOUR_BIT_MASK,
        data_position: HOUR_POSITION,
        parity_mask: PARITY_HOUR_BIT_MASK,
        max_data: MAX_HOUR,
    }
}

/// The minute section of the field catalog.
pub open spec fn minutes_section() -> SectionInBitfield {
    SectionInBitfield {
        data_bit_mask: MINUTES_BIT_MASK,
        data_position: MINUTES_POSITION,
        parity_mask: PARITY_MINUTES_BIT_MASK,
        max_data: MAX_MINUTES,
    }
}

/// The hour and minute sections are well formed, and these are the carrier
/// bits they own.
pub proof fn lemma_hour_sections_wf()
    ensures
        hour_section().wf(),
        minutes_section().wf(),
        hour_section().placed_mask() == 0x7E000000u64,
        hour_section().section_mask() == 0x7F000000u64,
        minutes_section().placed_mask() == 0x7F00000000u64,
        minutes_section().section_mask() == 0x7F80000000u64,
{
    lemma_popcount_low_mask(6);
    lemma_popcount_low_mask(7);
    lemma_popcount_single(24);
    lemma_popcount_single(31);
    lemma_weight_sum_values();
    assert(0x3Fu64 == ((1u64 << 6u64) - 1) as u64 && 0x7Fu64 == ((1u64 << 7u64) - 1) as u64
        && 0x1000000u64 == 1u64 << 24u64 && 0x80000000u64 == 1u64 << 31u64 && 0x3Fu64 << 25u64
        == 0x7E000000u64 && 0x7Fu64 << 32u64 == 0x7F00000000u64 && 0x1000000u64 & 0x7E000000u64
        == 0 && 0x80000000u64 & 0x7F00000000u64 == 0 && 0x7E000000u64 | 0x1000000u64
        == 0x7F000000u64 && 0x7F00000000u64 | 0x80000000u64 == 0x7F80000000u64) by (bit_vector);
}

/// Codes a given hour [0..24) into DCF77 bit field
pub fn code_hour(input: u32) -> (r: Result<u64, RangeError>)
    ensures
        r is Err <==> input >= MAX_HOUR,
        r matches Err(e) ==> e == (RangeError { value: input, max_value: MAX_HOUR }),
        r matches Ok(c) ==> c == section_fragment(input, hour_section()),
{
    proof {
        lemma_hour_sections_wf();
    }
    let section = SectionInBitfield {
        data_bit_mask: HOUR_BIT_MASK,
        data_position: HOUR_POSITION,
        parity_mask: PARITY_HOUR_BIT_MASK,
        max_data: MAX_HOUR,
    };
    code_dcf77(input, section)
}

/// Extracts the hour out of a dcf77 bitfield
pub fn process_hour(input: u64) -> (r: Result<u32, ParityError>)
    ensures
        r is Err <==> section_parity_fails(input, hour_section()),
        r matches Ok(v) ==> v as int == section_value(input, hour_section()) && v <= 165,
{
    proof {
        lemma_hour_sections_wf();
    }
    let section = SectionInBitfield {
        data_bit_mask: HOUR_BIT_MASK,
        data_position: HOUR_POSITION,
        parity_mask: PARITY_HOUR_BIT_MASK,
        max_data: MAX_HOUR,
    };
    decode_dcf77(input, section)
}

/// Codes given minutes [0..60) into DCF77 bit field
pub fn code_minutes(input: u32) -> (r: Result<u64, RangeError>)
    ensures
        r is Err <==> input >= MAX_MINUTES,
        r matches Err(e) ==> e == (RangeError { value: input, max_value: MAX_MINUTES }),
        r matches Ok(c) ==> c == section_fragment(input, minutes_section()),
{
    proof {
        lemma_hour_sections_wf();
    }
    let section = SectionInBitfield {
        data_bit_mask: MINUTES_BIT_MASK,
        data_position: MINUTES_POSITION,
        parity_mask: PARITY_MINUTES_BIT_MASK,
        max_data: MAX_MINUTES,
    };
    code_dcf77(input, section)
}

/// Extracts the minutes out of a dcf77 bitfield
pub fn process_minutes(input: u64) -> (r: Result<u32, ParityError>)
    ensures
        r is Err <==> section_parity_fails(input, minutes_section()),
        r matches Ok(v) ==> v as int == section_value(input, minutes_section()) && v <= 165,
{
    proof {
        lemma_hour_sections_wf();
    }
    let section = SectionInBitfield {
        data_bit_mask: MINUTES_BIT_MASK,
        data_position: MINUTES_POSITION,
        parity_mask: PARITY_MINUTES_BIT_MASK,
        max_data: MAX_MINUTES,
    };
    decode_dcf77(input, section)
}

} // verus!
