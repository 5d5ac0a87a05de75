use vstd::prelude::*;
use vstd::arithmetic::div_mod::lemma_fundamental_div_mod;
use vstd::arithmetic::div_mod::lemma_div_non_zero;
use vstd::arithmetic::div_mod::lemma_div_is_ordered;
use crate::chunks::sections::BlockState;

verus! {

/// Number of binary digits of `x`: zero for zero, else one more than for
/// `x / 2`.
pub open spec fn spec_bits_needed(x: int) -> int
    decreases x,
{
    if x <= 0 {
        0
    } else {
        1 + spec_bits_needed(x / 2)
    }
}

/// Field width used for palette indices: `max(4, ceil(log2(len)))` with
/// `len >= 1`, that is the number of bits of the largest index `len - 1`,
/// but never fewer than 4.
pub open spec fn spec_bits_per_block(len: int) -> int
    recommends
        len >= 1,
{
    if spec_bits_needed(len - 1) < 4 {
        4
    } else {
        spec_bits_needed(len - 1)
    }
}

proof fn lemma_bits_needed_nonneg(x: int)
    ensures
        spec_bits_needed(x) >= 0,
    decreases x,
{
    if x > 0 {
        lemma_bits_needed_nonneg(x / 2);
    }
}

proof fn lemma_bits_needed_ordered(x: int, y: int)
    requires
        0 <= x <= y,
    ensures
        spec_bits_needed(x) <= spec_bits_needed(y),
    decreases y,
{
    lemma_bits_needed_nonneg(y);
    if x > 0 {
        lemma_div_is_ordered(x, y, 2);
        lemma_bits_needed_ordered(x / 2, y / 2);
    }
}

/// Bits per palette index for the given palette, per the post-1.16 Anvil
/// layout.
pub fn calculate_bits_per_block(palette: &Vec<BlockState>) -> (r: u8)
    requires
        1 <= palette@.len() <= 4096,
    ensures
        r == spec_bits_per_block(palette@.len() as int),
        4 <= r <= 12,
{
    let x = palette.len() - 1;
    proof {
        lemma_bits_needed_ordered(x as int, 4095);
        reveal_with_fuel(spec_bits_needed, 13);
        assert(spec_bits_needed(4095) == 12);
    }
    let mut v = x;
    let mut b: u8 = 0;
    while v > 0
        invariant
            b + spec_bits_needed(v as int) == spec_bits_needed(x as int),
            b <= spec_bits_needed(x as int),
            spec_bits_needed(x as int) <= 12,
        decreases v,
    {
        proof {
            lemma_bits_needed_nonneg(v as int / 2);
        }
        v = v / 2;
        b = b + 1;
    }
    if b < 4 {
        4
    } else {
        b
    }
}

/// Number of `b`-bit fields that fit in one 64-bit long under the
/// non-straddling layout; the `64 mod b` bits at the top of each long
/// are padding and never hold field bits.
pub open spec fn spec_values_per_long(b: u64) -> u64
    recommends
        0 < b <= 64,
{
    64u64 / b
}

/// Index of the long that holds field `i`.
pub open spec fn spec_locate_index(i: int, b: u64) -> int
    recommends
        0 < b <= 64,
        0 <= i,
{
    i / (spec_values_per_long(b) as int)
}

/// Bit offset of field `i` inside its long.
pub open spec fn spec_locate_offset(i: int, b: u64) -> int
    recommends
        0 < b <= 64,
        0 <= i,
{
    (i % (spec_values_per_long(b) as int)) * (b as int)
}

/// A mask with the low `b` bits set.
pub open spec fn spec_mask(b: u64) -> u64
    recommends
        0 < b < 64,
{
    ((1u64 << b) - 1) as u64
}

/// The unsigned value of the `b`-bit field starting at bit `offset` of
/// `value`, read through the unsigned reinterpretation of the long.
/// Reading through `u64` is essential: a right shift on the signed
/// representation would smear the sign bit into high fields.
pub open spec fn spec_unpack(value: i64, offset: u64, b: u64) -> u64
    recommends
        0 < b < 64,
        offset + b <= 64,
{
    ((value as u64) >> offset) & spec_mask(b)
}

/// Extracts the `bits_per_value`-bit field at bit `offset` of `value`.
pub fn unpack_value(value: i64, offset: u8, bits_per_value: u8) -> (r: u64)
    requires
        0 < bits_per_value < 64,
        offset + bits_per_value <= 64,
    ensures
        r == spec_unpack(value, offset as u64, bits_per_value as u64),
        r < (1u64 << (bits_per_value as u64)),
{
    let b: u64 = bits_per_value as u64;
    let off: u64 = offset as u64;
    let unsigned: u64 = value as u64;
    assert((1u64 << b) >= 1u64) by (bit_vector)
        requires 0 < b < 64,
    ;
    let mask: u64 = ((1u64 << b) - 1) << off;
    let r: u64 = (unsigned & mask) >> off;
    proof {
        assert((unsigned & ((((1u64 << b) - 1) as u64) << off)) >> off == (unsigned >> off) & (((1u64
            << b) - 1) as u64)) by (bit_vector)
            requires
                0 < b < 64,
                off + b <= 64,
        ;
        assert((unsigned >> off) & (((1u64 << b) - 1) as u64) < (1u64 << b)) by (bit_vector)
            requires
                0 < b < 64,
        ;
    }
    r
}

/// Splits linear field index `i` into `(long index, bit offset)` for a
/// packed array whose longs are `packed_bits` wide and whose fields are
/// `bits_per_value` wide, under the non-straddling rule.
pub fn get_index_offset_form(i: u16, bits_per_value: u8, packed_bits: u8) -> (r: (usize, u8))
    requires
        0 < bits_per_value,
        bits_per_value <= packed_bits,
    ensures
        r.0 == i as int / (packed_bits as int / bits_per_value as int),
        r.1 == (i as int % (packed_bits as int / bits_per_value as int)) * (bits_per_value as int),
        r.1 + bits_per_value <= packed_bits,
{
    let values_per_long: u8 = packed_bits / bits_per_value;
    proof {
        lemma_div_non_zero(packed_bits as int, bits_per_value as int);
    }
    let index: usize = i as usize / values_per_long as usize;
    let rem: u16 = i % (values_per_long as u16);
    proof {
        lemma_fundamental_div_mod(packed_bits as int, bits_per_value as int);
        assert(rem <= values_per_long - 1);
        assert((values_per_long - 1) * (bits_per_value as int) + bits_per_value
            == values_per_long * (bits_per_value as int)) by (nonlinear_arith);
        assert(rem * (bits_per_value as int) <= (values_per_long - 1) * (bits_per_value as int))
            by (nonlinear_arith)
            requires
                rem <= values_per_long - 1,
                0 < bits_per_value,
        ;
    }
    let offset: u8 = (rem as u8) * bits_per_value;
    (index, offset)
}

/// P-law: under the non-straddling rule a field never crosses a long
/// boundary: its offset plus its width stays within the 64 bits.
pub proof fn lemma_no_straddle(i: int, b: u64)
    requires
        0 < b <= 64,
        0 <= i,
    ensures
        0 <= spec_locate_offset(i, b),
        spec_locate_offset(i, b) + b <= 64,
{
    let v = spec_values_per_long(b) as int;
    lemma_fundamental_div_mod(64int, b as int);
    lemma_div_non_zero(64int, b as int);
    assert(0 < v);
    assert(0 <= i % v <= v - 1);
    assert((i % v) * (b as int) <= (v - 1) * (b as int)) by (nonlinear_arith)
        requires
            0 <= i % v <= v - 1,
            0 < b,
    ;
    assert((v - 1) * (b as int) + b == v * (b as int)) by (nonlinear_arith);
    assert(v * (b as int) <= 64);
    assert(0 <= (i % v) * (b as int)) by (nonlinear_arith)
        requires
            0 <= i % v,
            0 < b,
    ;
}

/// Number of longs that hold a packed array of 4096 fields of `b` bits:
/// `4096 / values_per_long(b)`, rounded up.
pub open spec fn spec_longs_needed(b: u64) -> int
    recommends
        0 < b <= 64,
{
    (4096 + spec_values_per_long(b) as int - 1) / (spec_values_per_long(b) as int)
}

/// A buffer long enough for 4096 packed fields has a long for each of
/// them, at an offset that keeps the field inside the long.
pub proof fn lemma_packed_index_bounds(i: int, b: u64, dlen: int)
    requires
        0 < b < 64,
        0 <= i < 4096,
        dlen >= spec_longs_needed(b),
    ensures
        0 <= spec_locate_index(i, b) < dlen,
        0 <= spec_locate_offset(i, b),
        spec_locate_offset(i, b) + b <= 64,
{
    let v = spec_values_per_long(b) as int;
    lemma_div_non_zero(64int, b as int);
    lemma_no_straddle(i, b);
    lemma_div_is_ordered(i, 4095, v);
    vstd::arithmetic::div_mod::lemma_div_plus_one(4095int, v);
    assert(spec_longs_needed(b) == (v + 4095) / v);
    vstd::arithmetic::div_mod::lemma_div_pos_is_pos(i, v);
}

/// Extracting position `i` through `locate` + `unpack` equals the direct
/// formula `(buffer[i / (64/b)] as u64 >> ((i mod (64/b)) * b)) & ((1 << b) - 1)`.
pub proof fn lemma_extraction_formula(data: Seq<i64>, i: int, b: u64)
    requires
        0 < b < 64,
        0 <= i,
        spec_locate_index(i, b) < data.len(),
    ensures
        spec_unpack(
            data[spec_locate_index(i, b)],
            spec_locate_offset(i, b) as u64,
            b,
        ) == ((data[i / (64int / (b as int))] as u64) >> (((i % (64int / (b as int))) * (
        b as int)) as u64)) & spec_mask(b),
{
    assert(spec_values_per_long(b) as int == 64int / (b as int));
}

} // verus!
