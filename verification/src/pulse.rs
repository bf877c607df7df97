//! The DCF77 pulse numeral system.
//!
//! A pulse field does not hold a plain binary number: its bits carry the
//! weights 1, 2, 4, 8, 10, 20, 40, 80. A field of `n` active bits uses the
//! first `n` weights, the largest active weight sitting at bit 0 of the
//! field. Encoding subtracts the weights greedily from the largest active
//! one down; decoding sums the weights of the set bits.

use vstd::prelude::*;

use crate::RangeError;

verus! {

/// Given weights to the bits in the dcf77 bit field. Not binary.
pub open spec fn weight(i: int) -> int {
    if i == 0 {
        1
    } else if i == 1 {
        2
    } else if i == 2 {
        4
    } else if i == 3 {
        8
    } else if i == 4 {
        10
    } else if i == 5 {
        20
    } else if i == 6 {
        40
    } else if i == 7 {
        80
    } else {
        0
    }
}

/// Sum of the first `n` weights: the largest value that a pulse field of
/// `n` active bits can represent.
pub open spec fn weight_sum(n: int) -> int
    decreases n,
{
    if n <= 0 {
        0
    } else {
        weight_sum(n - 1) + weight(n - 1)
    }
}

/// Number of set bits among the low `n` bits of `x`.
pub open spec fn pop_low(x: u64, n: int) -> nat
    decreases n,
{
    if n <= 0 {
        0
    } else {
        ((x % 2) as nat) + pop_low(x >> 1, n - 1)
    }
}

/// Number of set bits of `x`.
pub open spec fn popcount64(x: u64) -> nat {
    pop_low(x, 64)
}

/// The pulse bits for value `v` in a field of `n` active bits, filled
/// greedily over the bit positions `k .. n` (bit `k` carries
/// `weight(n - 1 - k)`).
pub open spec fn pulse_bits_from(v: int, n: int, k: int) -> u64
    decreases n - k,
{
    if k < 0 || k >= n {
        0u64
    } else if v >= weight(n - 1 - k) {
        ((1u64 << (k as u64)) | pulse_bits_from(v - weight(n - 1 - k), n, k + 1))
    } else {
        pulse_bits_from(v, n, k + 1)
    }
}

/// The pulse bits for value `v` in a field of `n` active bits.
pub open spec fn pulse_bits(v: int, n: int) -> u64 {
    pulse_bits_from(v, n, 0)
}

/// The value carried by the bit positions `k .. n` of the pulse field
/// `bits` with `n` active bits.
pub open spec fn pulse_value_from(bits: u64, n: int, k: int) -> int
    decreases n - k,
{
    if k < 0 || k >= n {
        0
    } else {
        (if bits & (1u64 << (k as u64)) != 0 {
            weight(n - 1 - k)
        } else {
            0
        }) + pulse_value_from(bits, n, k + 1)
    }
}

/// The value carried by a pulse field `bits` of `n` active bits.
pub open spec fn pulse_value(bits: u64, n: int) -> int {
    pulse_value_from(bits, n, 0)
}

/// The weight table, as executable code.
pub(crate) fn weight_at(i: u32) -> (w: u32)
    requires
        i < 8,
    ensures
        w as int == weight(i as int),
{
    if i == 0 {
        1
    } else if i == 1 {
        2
    } else if i == 2 {
        4
    } else if i == 3 {
        8
    } else if i == 4 {
        10
    } else if i == 5 {
        20
    } else if i == 6 {
        40
    } else {
        80
    }
}

/// Counts the set bits of `x`.
pub(crate) fn bit_count(x: u64) -> (n: u32)
    ensures
        n == popcount64(x),
        n <= 64,
{
    let mut c: u32 = 0;
    let mut rest: u64 = x;
    for i in 0..64u32
        invariant
            c + pop_low(rest, 64 - i) == popcount64(x),
            c <= i,
    {
        c = c + (rest % 2) as u32;
        rest = rest >> 1;
    }
    c
}

/// The running sums of the weight table.
pub proof fn lemma_weight_sum_values()
    ensures
        weight_sum(0) == 0,
        weight_sum(1) == 1,
        weight_sum(2) == 3,
        weight_sum(3) == 7,
        weight_sum(4) == 15,
        weight_sum(5) == 25,
        weight_sum(6) == 45,
        weight_sum(7) == 85,
        weight_sum(8) == 165,
{
    assert(weight_sum(0) == 0);
    assert(weight_sum(1) == 1);
    assert(weight_sum(2) == 3);
    assert(weight_sum(3) == 7);
    assert(weight_sum(4) == 15);
    assert(weight_sum(5) == 25);
    assert(weight_sum(6) == 45);
    assert(weight_sum(7) == 85);
    assert(weight_sum(8) == 165);
}

/// Each weight exceeds the sum of the smaller weights by at most one, so
/// greedy encoding never strands a remainder.
proof fn lemma_weight_within_reach(m: int)
    requires
        0 <= m < 8,
    ensures
        weight(m) <= weight_sum(m) + 1,
{
    lemma_weight_sum_values();
}

/// The value of a pulse field's positions `k ..` is at most the sum of
/// their weights.
pub proof fn lemma_pulse_value_from_bounds(bits: u64, n: int, k: int)
    requires
        0 <= k <= n,
    ensures
        0 <= pulse_value_from(bits, n, k) <= weight_sum(n - k),
    decreases n - k,
{
    if k < n {
        lemma_pulse_value_from_bounds(bits, n, k + 1);
    }
}

/// The bits greedy encoding chooses for positions `k ..` lie in `k .. n`.
pub proof fn lemma_pulse_bits_from_shape(v: int, n: int, k: int)
    requires
        0 <= k <= n,
        n <= 8,
    ensures
        pulse_bits_from(v, n, k) < (1u64 << (n as u64)),
        pulse_bits_from(v, n, k) & (((1u64 << (k as u64)) - 1) as u64) == 0,
    decreases n - k,
{
    let kk = k as u64;
    let nn = n as u64;
    if k >= n {
        assert(0u64 < (1u64 << nn) && 0u64 & (((1u64 << kk) - 1) as u64) == 0) by (bit_vector)
            requires
                nn <= 8,
        ;
    } else if v >= weight(n - 1 - k) {
        lemma_pulse_bits_from_shape(v - weight(n - 1 - k), n, k + 1);
        let rest = pulse_bits_from(v - weight(n - 1 - k), n, k + 1);
        assert(((1u64 << kk) | rest) < (1u64 << nn) && ((1u64 << kk) | rest) & (((1u64 << kk) - 1) as u64)
            == 0) by (bit_vector)
            requires
                kk < nn,
                nn <= 8,
                rest < (1u64 << nn),
                rest & (((1u64 << ((kk + 1) as u64)) - 1) as u64) == 0,
        ;
    } else {
        lemma_pulse_bits_from_shape(v, n, k + 1);
        let rest = pulse_bits_from(v, n, k + 1);
        assert(rest & (((1u64 << kk) - 1) as u64) == 0) by (bit_vector)
            requires
                kk < 8,
                rest & (((1u64 << ((kk + 1) as u64)) - 1) as u64) == 0,
        ;
    }
}

/// The value of positions `k ..` depends only on the bits at those
/// positions.
proof fn lemma_pulse_value_from_agree(a: u64, b: u64, n: int, k: int)
    requires
        0 <= k <= n,
        n <= 8,
        forall|j: int|
            k <= j < n ==> #[trigger] (a & (1u64 << (j as u64))) == b & (1u64 << (j as u64)),
    ensures
        pulse_value_from(a, n, k) == pulse_value_from(b, n, k),
    decreases n - k,
{
    if k < n {
        assert(a & (1u64 << (k as u64)) == b & (1u64 << (k as u64)));
        lemma_pulse_value_from_agree(a, b, n, k + 1);
    }
}

/// Greedy encoding then decoding over positions `k ..` returns the value.
proof fn lemma_pulse_round_trip_from(v: int, n: int, k: int)
    requires
        0 <= k <= n,
        n <= 8,
        0 <= v <= weight_sum(n - k),
    ensures
        pulse_value_from(pulse_bits_from(v, n, k), n, k) == v,
    decreases n - k,
{
    if k < n {
        let w = weight(n - 1 - k);
        let kk = k as u64;
        if v >= w {
            let rest = pulse_bits_from(v - w, n, k + 1);
            let out = (1u64 << kk) | rest;
            lemma_pulse_bits_from_shape(v - w, n, k + 1);
            assert(out & (1u64 << kk) != 0) by (bit_vector)
                requires
                    out == (1u64 << kk) | rest,
                    kk < 8,
            ;
            assert forall|j: int|
                k + 1 <= j < n implies #[trigger] (out & (1u64 << (j as u64))) == rest & (1u64 << (
            j as u64)) by {
                let jj = j as u64;
                assert(((1u64 << kk) | rest) & (1u64 << jj) == rest & (1u64 << jj)) by (bit_vector)
                    requires
                        kk < jj,
                        jj < 8,
                ;
            }
            lemma_pulse_value_from_agree(out, rest, n, k + 1);
            lemma_pulse_round_trip_from(v - w, n, k + 1);
        } else {
            let rest = pulse_bits_from(v, n, k + 1);
            lemma_pulse_bits_from_shape(v, n, k + 1);
            assert(rest & (1u64 << kk) == 0) by (bit_vector)
                requires
                    kk < 8,
                    rest & (((1u64 << ((kk + 1) as u64)) - 1) as u64) == 0,
            ;
            lemma_weight_within_reach(n - 1 - k);
            lemma_pulse_round_trip_from(v, n, k + 1);
        }
    }
}

/// The round trip of the pulse codec: decoding an encoded value returns
/// it, for every value the active weight prefix can represent.
pub proof fn lemma_pulse_round_trip(v: int, n: int)
    requires
        0 <= n <= 8,
        0 <= v <= weight_sum(n),
    ensures
        pulse_value(pulse_bits(v, n), n) == v,
{
    lemma_pulse_round_trip_from(v, n, 0);
}

/// The low bits of zero hold no set bit.
proof fn lemma_pop_low_zero(n: int)
    ensures
        pop_low(0, n) == 0,
    decreases n,
{
    if n > 0 {
        assert(0u64 >> 1 == 0) by (bit_vector);
        lemma_pop_low_zero(n - 1);
    }
}

/// The set bits of disjoint words add up, among the low `n` bits.
proof fn lemma_pop_low_or_disjoint(a: u64, b: u64, n: int)
    requires
        a & b == 0,
    ensures
        pop_low(a | b, n) == pop_low(a, n) + pop_low(b, n),
    decreases n,
{
    if n > 0 {
        assert((a | b) % 2 == a % 2 + b % 2 && (a | b) >> 1 == (a >> 1) | (b >> 1) && (a >> 1) & (b
            >> 1) == 0) by (bit_vector)
            requires
                a & b == 0,
        ;
        lemma_pop_low_or_disjoint(a >> 1, b >> 1, n - 1);
    }
}

/// The set bits of disjoint words add up.
pub proof fn lemma_popcount_or_disjoint(a: u64, b: u64)
    requires
        a & b == 0,
    ensures
        popcount64(a | b) == popcount64(a) + popcount64(b),
{
    lemma_pop_low_or_disjoint(a, b, 64);
}

/// A single bit counts once among the low `n` bits that hold it.
proof fn lemma_pop_low_single(b: u64, n: int)
    requires
        b < 64,
        b < n,
    ensures
        pop_low(1u64 << b, n) == 1,
    decreases n,
{
    if b == 0 {
        assert((1u64 << 0u64) % 2 == 1 && (1u64 << 0u64) >> 1 == 0) by (bit_vector);
        lemma_pop_low_zero(n - 1);
    } else {
        assert((1u64 << b) % 2 == 0 && (1u64 << b) >> 1 == 1u64 << ((b - 1) as u64)) by (bit_vector)
            requires
                0 < b < 64,
        ;
        lemma_pop_low_single((b - 1) as u64, n - 1);
    }
}

/// A single bit counts once.
pub proof fn lemma_popcount_single(b: u64)
    requires
        b < 64,
    ensures
        popcount64(1u64 << b) == 1,
{
    lemma_pop_low_single(b, 64);
}

/// The low `n` bits of the mask of the `n` lowest bits are all set.
proof fn lemma_pop_low_mask(n: u64, m: int)
    requires
        n <= m,
        m <= 64,
    ensures
        pop_low((((1u64 << n) - 1) as u64), m) == n,
    decreases n,
{
    if n == 0 {
        assert(((1u64 << 0u64) - 1) as u64 == 0) by (bit_vector);
        lemma_pop_low_zero(m);
    } else {
        assert((((1u64 << n) - 1) as u64) % 2 == 1 && (((1u64 << n) - 1) as u64) >> 1 == ((1u64 << (
        (n - 1) as u64)) - 1) as u64) by (bit_vector)
            requires
                0 < n <= 64,
        ;
        lemma_pop_low_mask((n - 1) as u64, m - 1);
    }
}

/// The mask of the `n` lowest bits has `n` set bits.
pub proof fn lemma_popcount_low_mask(n: u64)
    requires
        n <= 64,
    ensures
        popcount64((((1u64 << n) - 1) as u64)) == n,
{
    lemma_pop_low_mask(n, 64);
}

/// Flipping one bit of a word flips the parity of its set-bit count.
pub proof fn lemma_popcount_flip(x: u64, b: u64)
    requires
        b < 64,
    ensures
        (popcount64(x ^ (1u64 << b)) % 2 == 1) != (popcount64(x) % 2 == 1),
{
    let m = 1u64 << b;
    if x & m == 0 {
        assert((x ^ m) == (x | m)) by (bit_vector)
            requires
                x & m == 0,
        ;
        lemma_popcount_or_disjoint(x, m);
        lemma_popcount_single(b);
    } else {
        let y = x ^ m;
        assert(y & m == 0 && (y | m) == x) by (bit_vector)
            requires
                x & m != 0 && m == 1u64 << b && b < 64 && y == (x ^ m),
        ;
        lemma_popcount_or_disjoint(y, m);
        lemma_popcount_single(b);
    }
}

/// Bitwise or is associative.
pub(crate) proof fn lemma_or_assoc(a: u64, b: u64, c: u64)
    by (bit_vector)
    ensures
        (a | b) | c == a | (b | c),
        a | 0 == a,
        0 | a == a,
{
}

/// Checks the parity (even) of an input to the given parity
pub fn proof_parity(input: u64, parity: bool) -> (r: bool)
    ensures
        r == (popcount64(input) % 2 == 1 && parity),
{
    (bit_count(input) % 2 > 0) && parity
}

/// Computes the parity of an input (even)
fn compute_parity(input: u64) -> (r: bool)
    ensures
        r == (popcount64(input) % 2 == 1),
{
    bit_count(input) % 2 > 0
}

/// Computes the value of an input with the BIT WEIGHTS of a DCF77 bitfield
pub fn compute_pulse(input: u8) -> (output: u8)
    ensures
        output as int == pulse_value(input as u64, 8),
{
    let mut output: u32 = 0;
    let mut k: u32 = 0;
    while k < 8
        invariant
            k <= 8,
            output + pulse_value_from(input as u64, 8, k as int) == pulse_value(input as u64, 8),
            output <= 165,
        decreases 8 - k,
    {
        proof {
            lemma_pulse_value_from_bounds(input as u64, 8, 0);
            lemma_pulse_value_from_bounds(input as u64, 8, k as int + 1);
            lemma_weight_sum_values();
        }
        if (input as u64) & (1u64 << (k as u64)) != 0 {
            output = output + weight_at(7 - k);
        }
        k = k + 1;
    }
    proof {
        lemma_pulse_value_from_bounds(input as u64, 8, 0);
        lemma_weight_sum_values();
    }
    output as u8
}

/// Creates a DCF77 bitfield out of the binary input given
fn create_pulse(input: u8) -> (output: u8)
    ensures
        output as u64 == pulse_bits(input as int, 8),
{
    let mut aux: u32 = input as u32;
    let mut output: u64 = 0;
    let mut k: u32 = 0;
    proof {
        lemma_or_assoc(pulse_bits_from(input as int, 8, 0), 0, 0);
    }
    while k < 8
        invariant
            k <= 8,
            output | pulse_bits_from(aux as int, 8, k as int) == pulse_bits(input as int, 8),
            output < 256,
        decreases 8 - k,
    {
        let w = weight_at(7 - k);
        if aux >= w {
            proof {
                lemma_or_assoc(output, 1u64 << (k as u64), pulse_bits_from(
                    aux as int - w as int,
                    8,
                    k as int + 1,
                ));
                assert(output | (1u64 << (k as u64)) < 256) by (bit_vector)
                    requires
                        output < 256,
                        k < 8,
                ;
            }
            output = output | (1u64 << (k as u64));
            aux = aux - w;
        }
        k = k + 1;
    }
    proof {
        lemma_or_assoc(output, 0, 0);
    }
    output as u8
}

/// Generic function to code an input value in a certain position of the
/// bitfield. The section's mask is already shifted to its position here.
pub fn code_generic(input: u8, mask: u64, offset: u8, parity_mask: u64, max_value: u8) -> (r:
    Result<u64, RangeError>)
    requires
        offset < 64,
    ensures
        r is Err <==> input >= max_value,
        r matches Err(e) ==> e == (RangeError { value: input as u32, max_value: max_value as u32 }),
        r matches Ok(c) ==> c == generic_fragment(input, mask, offset, parity_mask),
{
    if max_value > input {
        let pulse: u64 = create_pulse(input) as u64;
        let placed: u64 = (pulse << offset) & mask;
        if compute_parity(placed) {
            Ok(placed | parity_mask)
        } else {
            Ok(placed)
        }
    } else {
        Err(RangeError { value: input as u32, max_value: max_value as u32 })
    }
}

/// What `code_generic` places into the carrier: the pulse bits of the
/// value, shifted and masked, with the parity bit added when the placed
/// data has odd parity.
pub open spec fn generic_fragment(input: u8, mask: u64, offset: u8, parity_mask: u64) -> u64 {
    let placed = (pulse_bits(input as int, 8) << offset) & mask;
    if popcount64(placed) % 2 == 1 {
        placed | parity_mask
    } else {
        placed
    }
}

} // verus!

