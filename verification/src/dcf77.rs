//! The DCF77 section codec.
//!
//! A section places a pulse-encoded, optionally parity-protected value at a
//! bit offset inside the 64-bit carrier word, and reads it back, validating
//! the range on encode and the even parity on decode.

use vstd::prelude::*;

use crate::pulse::{
    bit_count, lemma_or_assoc, lemma_popcount_flip, lemma_popcount_or_disjoint,
    lemma_pulse_bits_from_shape, lemma_pulse_round_trip, lemma_pulse_value_from_bounds,
    lemma_weight_sum_values, popcount64, pulse_bits, pulse_bits_from, pulse_value,
    pulse_value_from, weight_at, weight_sum,
};
use crate::{ParityError, RangeError};

pub mod date;
pub mod hour;
pub mod metadata;

verus! {

/// Struct that contains the information of the section in the DCF77 bitfield
#[derive(Clone, Copy)]
pub struct SectionInBitfield {
    /// The bits reserved for the pulse value, before shifting.
    pub data_bit_mask: u64,
    /// The position of the section's least significant bit in the carrier.
    pub data_position: u8,
    /// The position of the even-parity bit; zero for none.
    pub parity_mask: u64,
    /// The exclusive upper bound of the section's values.
    pub max_data: u32,
}

impl SectionInBitfield {
    /// The number of data bits of the section.
    pub open spec fn active_bits(self) -> int {
        popcount64(self.data_bit_mask) as int
    }

    /// The section's data bits, at their place in the carrier.
    pub open spec fn placed_mask(self) -> u64 {
        self.data_bit_mask << (self.data_position as u64)
    }

    /// All carrier bits the section owns: data bits and parity bit.
    pub open spec fn section_mask(self) -> u64 {
        self.placed_mask() | self.parity_mask
    }

    /// A well-formed section: its data bits are contiguous from bit zero
    /// (before shifting) and select a prefix of the weight table, they fit
    /// in the carrier, the parity mask holds at most one bit and lies
    /// outside the data bits, and the bound is reachable by the weight
    /// prefix.
    pub open spec fn wf(self) -> bool {
        &&& self.active_bits() <= 8
        &&& self.data_bit_mask == (((1u64 << (self.active_bits() as u64)) - 1) as u64)
        &&& self.data_position < 64
        &&& self.data_position as int + self.active_bits() <= 64
        &&& (self.parity_mask == 0 || popcount64(self.parity_mask) == 1)
        &&& self.parity_mask & self.placed_mask() == 0
        &&& self.max_data <= weight_sum(self.active_bits()) + 1
    }
}

/// The carrier fragment that encoding a value into a section produces: the
/// pulse bits shifted to the section's position and cut to its data bits,
/// with the parity bit added when those data bits have odd parity.
pub open spec fn section_fragment(input: u32, section: SectionInBitfield) -> u64 {
    let placed = (pulse_bits(input as int, section.active_bits()) << (
    section.data_position as u64)) & section.placed_mask();
    if section.parity_mask != 0 && popcount64(placed) % 2 == 1 {
        placed | section.parity_mask
    } else {
        placed
    }
}

/// The section's data bits of a carrier.
pub open spec fn section_data(carrier: u64, section: SectionInBitfield) -> u64 {
    carrier & section.placed_mask()
}

/// Whether the section's parity check refuses the carrier: the section is
/// parity-protected and its data bits together with its stored parity bit
/// hold an odd number of ones.
pub open spec fn section_parity_fails(carrier: u64, section: SectionInBitfield) -> bool {
    section.parity_mask != 0 && popcount64(
        section_data(carrier, section) | (carrier & section.parity_mask),
    ) % 2 == 1
}

/// The value that the section's data bits of a carrier decode to.
pub open spec fn section_value(carrier: u64, section: SectionInBitfield) -> int {
    pulse_value(
        section_data(carrier, section) >> (section.data_position as u64),
        section.active_bits(),
    )
}

/// The round trip of a section: decoding an encoded value passes the
/// parity check and returns the value, and the encoded fragment touches no
/// carrier bit outside the section's own.
pub proof fn lemma_section_round_trip(input: u32, section: SectionInBitfield)
    requires
        section.wf(),
        input < section.max_data,
    ensures
        !section_parity_fails(section_fragment(input, section), section),
        section_value(section_fragment(input, section), section) == input,
        section_fragment(input, section) & !section.section_mask() == 0,
{
    let n = section.active_bits();
    let nn = n as u64;
    let pos = section.data_position as u64;
    let pb = pulse_bits(input as int, n);
    let dmask = section.placed_mask();
    let pmask = section.parity_mask;
    lemma_pulse_bits_from_shape(input as int, n, 0);
    lemma_pulse_round_trip(input as int, n);
    let placed = (pb << pos) & dmask;
    assert((pb << pos) & ((((1u64 << nn) - 1) as u64) << pos) == pb << pos && ((pb << pos) >> pos)
        == pb && (pb << pos) & !((((1u64 << nn) - 1) as u64) << pos) == 0) by (bit_vector)
        requires
            pb < (1u64 << nn),
            nn <= 8,
            pos + nn <= 64,
    ;
    assert(placed & pmask == 0 && (placed | pmask) & dmask == placed && (placed | pmask) & pmask
        == pmask && placed & dmask == placed && (placed | pmask) & !(dmask | pmask) == 0 && placed
        & !(dmask | pmask) == 0 && placed | 0 == placed) by (bit_vector)
        requires
            placed & !dmask == 0,
            pmask & dmask == 0,
    ;
    if pmask != 0 && popcount64(placed) % 2 == 1 {
        lemma_popcount_or_disjoint(placed, pmask);
    }
}

/// What a section decodes from a carrier is unaffected by the carrier bits
/// that the section does not own: fields and flags in disjoint bit ranges
/// never perturb one another.
pub proof fn lemma_section_independent(carrier: u64, other: u64, section: SectionInBitfield)
    requires
        other & section.section_mask() == 0,
    ensures
        section_parity_fails(carrier | other, section) == section_parity_fails(carrier, section),
        section_value(carrier | other, section) == section_value(carrier, section),
{
    let dmask = section.placed_mask();
    let pmask = section.parity_mask;
    assert((carrier | other) & dmask == carrier & dmask && (carrier | other) & pmask == carrier
        & pmask) by (bit_vector)
        requires
            other & (dmask | pmask) == 0,
    ;
}

/// Flipping any single bit within a parity-protected section's data,
/// without correcting its parity bit, toggles the outcome of the section's
/// parity check; a carrier the check accepted is refused after the flip.
pub proof fn lemma_section_parity_rejection(carrier: u64, b: u64, section: SectionInBitfield)
    requires
        section.wf(),
        section.parity_mask != 0,
        b < 64,
        (1u64 << b) & section.placed_mask() != 0,
    ensures
        section_parity_fails(carrier ^ (1u64 << b), section) != section_parity_fails(
            carrier,
            section,
        ),
{
    let m = 1u64 << b;
    let dmask = section.placed_mask();
    let pmask = section.parity_mask;
    let data = carrier & dmask;
    let stored = carrier & pmask;
    assert(m & dmask == m) by (bit_vector)
        requires
            m == 1u64 << b,
            b < 64,
            m & dmask != 0,
    ;
    assert((carrier ^ m) & dmask == (data ^ m) && (carrier ^ m) & pmask == stored && ((data ^ m)
        | stored) == (data | stored) ^ m) by (bit_vector)
        requires
            m == 1u64 << b,
            b < 64,
            m & dmask == m,
            pmask & dmask == 0,
            data == carrier & dmask,
            stored == carrier & pmask,
    ;
    lemma_popcount_flip(data | stored, b);
}

/// Flipping any single bit within a parity-protected section's data of a
/// freshly encoded fragment, without correcting its parity bit, makes the
/// section's decoding fail.
pub proof fn lemma_parity_rejection_after_encode(input: u32, b: u64, section: SectionInBitfield)
    requires
        section.wf(),
        section.parity_mask != 0,
        input < section.max_data,
        b < 64,
        (1u64 << b) & section.placed_mask() != 0,
    ensures
        section_parity_fails(section_fragment(input, section) ^ (1u64 << b), section),
{
    lemma_section_round_trip(input, section);
    lemma_section_parity_rejection(section_fragment(input, section), b, section);
}

/// Checks the parity (even) of an input
fn proof_parity(input: u64) -> (r: bool)
    ensures
        r == (popcount64(input) % 2 == 0),
{
    bit_count(input) % 2 == 0
}

/// Computes the value of an input with the BIT WEIGHTS of a DCF77 bitfield,
/// over the weight prefix that the mask's set bits select
pub fn compute_pulse(input: u64, mask: u64) -> (output: u32)
    requires
        popcount64(mask) <= 8,
    ensures
        output as int == pulse_value(input, popcount64(mask) as int),
        output <= 165,
{
    let n = bit_count(mask);
    let ghost nn = popcount64(mask) as int;
    let mut output: u32 = 0;
    let mut k: u32 = 0;
    while k < n
        invariant
            k <= n,
            n == nn,
            nn <= 8,
            output + pulse_value_from(input, nn, k as int) == pulse_value(input, nn),
            output <= 165,
        decreases n - k,
    {
        proof {
            lemma_pulse_value_from_bounds(input, nn, 0);
            lemma_pulse_value_from_bounds(input, nn, k as int + 1);
            lemma_weight_sum_values();
        }
        if input & (1u64 << (k as u64)) != 0 {
            output = output + weight_at(n - 1 - k);
        }
        k = k + 1;
    }
    proof {
        lemma_pulse_value_from_bounds(input, nn, 0);
        lemma_weight_sum_values();
    }
    output
}

/// Creates a DCF77 bitfield out of the binary input given, over the weight
/// prefix that the mask's set bits select
pub fn create_pulse(input: u32, mask: u64) -> (output: u32)
    requires
        popcount64(mask) <= 8,
    ensures
        output as u64 == pulse_bits(input as int, popcount64(mask) as int),
        output < 256,
{
    let n = bit_count(mask);
    let ghost nn = popcount64(mask) as int;
    let mut aux: u32 = input;
    let mut output: u64 = 0;
    let mut k: u32 = 0;
    proof {
        lemma_or_assoc(pulse_bits(input as int, nn), 0, 0);
    }
    while k < n
        invariant
            k <= n,
            n == nn,
            nn <= 8,
            output | pulse_bits_from(aux as int, nn, k as int) == pulse_bits(input as int, nn),
            output < 256,
        decreases n - k,
    {
        let w = weight_at(n - 1 - k);
        if aux >= w {
            proof {
                lemma_or_assoc(
                    output,
                    1u64 << (k as u64),
                    pulse_bits_from(aux as int - w as int, nn, k as int + 1),
                );
                assert(output | (1u64 << (k as u64)) < 256) by (bit_vector)
                    requires
                        output < 256,
                        k < 8,
                ;
            }
            output = output | (1u64 << (k as u64));
            aux = aux - w;
        }
        k = k + 1;
    }
    proof {
        lemma_or_assoc(output, 0, 0);
    }
    output as u32
}

/// Generic function to code an input value in a certain position of the
/// bitfield
pub fn code_dcf77(input: u32, section: SectionInBitfield) -> (r: Result<u64, RangeError>)
    requires
        popcount64(section.data_bit_mask) <= 8,
        section.data_position < 64,
    ensures
        r is Err <==> input >= section.max_data,
        r matches Err(e) ==> e == (RangeError { value: input, max_value: section.max_data }),
        r matches Ok(c) ==> c == section_fragment(input, section),
{
    if input < section.max_data {
        let pulse: u64 = create_pulse(input, section.data_bit_mask) as u64;
        let placed: u64 = (pulse << (section.data_position as u64)) & (section.data_bit_mask << (
        section.data_position as u64));
        if section.parity_mask > 0 && !proof_parity(placed) {
            Ok(placed | section.parity_mask)
        } else {
            Ok(placed)
        }
    } else {
        Err(RangeError { value: input, max_value: section.max_data })
    }
}

/// Generic function to decode an input value in a certain position in the
/// bitfield that has a parity check
pub fn decode_dcf77(input: u64, section: SectionInBitfield) -> (r: Result<u32, ParityError>)
    requires
        popcount64(section.data_bit_mask) <= 8,
        section.data_position < 64,
    ensures
        r is Err <==> section_parity_fails(input, section),
        r matches Ok(v) ==> v as int == section_value(input, section) && v <= 165,
{
    let data: u64 = input & (section.data_bit_mask << (section.data_position as u64));
    let parity: u64 = input & section.parity_mask;
    if section.parity_mask > 0 && !proof_parity(data | parity) {
        Err(ParityError {})
    } else {
        Ok(compute_pulse(data >> (section.data_position as u64), section.data_bit_mask))
    }
}

} // verus!
