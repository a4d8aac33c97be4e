use vstd::prelude::*;

verus! {

/// Whether a bit pattern of a 32-bit IEEE 754 number stands for no number.
pub open spec fn is_nan_bits(bits: u32) -> bool {
    (bits & 0x7FFF_FFFF) > 0x7F80_0000
}

/// An integer that orders as the 32-bit IEEE 754 number with the given bit
/// pattern does: the magnitude bits of a number that is not negative, their
/// negation for a negative one, so that both zeros get the key 0; and the
/// least integer for a pattern that stands for no number.
pub open spec fn spec_ordered_key(bits: u32) -> i32 {
    let magnitude = bits & 0x7FFF_FFFF;
    if magnitude > 0x7F80_0000 {
        i32::MIN
    } else if bits & 0x8000_0000 != 0 {
        (-(magnitude as int)) as i32
    } else {
        magnitude as i32
    }
}

/// The key of every number lies above the key of what is no number, a
/// number that is not negative has a key that is not negative, and a
/// negative number a key that is not positive.
pub proof fn lemma_ordered_key_bounds(bits: u32)
    requires
        !is_nan_bits(bits),
    ensures
        -0x7F80_0000 <= spec_ordered_key(bits) <= 0x7F80_0000,
        spec_ordered_key(bits) > i32::MIN,
        bits & 0x8000_0000 == 0 ==> spec_ordered_key(bits) == bits,
        bits & 0x8000_0000 != 0 ==> spec_ordered_key(bits) == -(bits - 0x8000_0000),
{
    assert(bits & 0x8000_0000 == 0 ==> bits & 0x7FFF_FFFF == bits) by (bit_vector);
    assert(bits & 0x8000_0000 != 0 ==> bits & 0x7FFF_FFFF == bits - 0x8000_0000u32)
        by (bit_vector);
    assert(bits & 0x8000_0000 != 0 ==> bits >= 0x8000_0000u32) by (bit_vector);
}

/// Returns the integer that orders as the 32-bit IEEE 754 number with the
/// given bit pattern does.
pub fn ordered_key(bits: u32) -> (key: i32)
    ensures
        key == spec_ordered_key(bits),
{
    let magnitude: u32 = bits & 0x7FFF_FFFF;
    assert(bits & 0x7FFF_FFFF <= 0x7FFF_FFFF) by (bit_vector);
    if magnitude > 0x7F80_0000 {
        i32::MIN
    } else if bits & 0x8000_0000 != 0 {
        -(magnitude as i32)
    } else {
        magnitude as i32
    }
}

/// Whether `peak` is the first position in `[start, end)` at which `values`
/// is largest: nothing in the range is larger, and everything before it in
/// the range is smaller.
pub open spec fn is_first_maximum(values: Seq<i32>, start: int, end: int, peak: int) -> bool {
    &&& start <= peak < end
    &&& forall|j: int| start <= j < end ==> #[trigger] values[j] <= values[peak]
    &&& forall|j: int| start <= j < peak ==> #[trigger] values[j] < values[peak]
}

/// A range has only one first maximum.
pub proof fn lemma_first_maximum_unique(values: Seq<i32>, start: int, end: int, a: int, b: int)
    requires
        is_first_maximum(values, start, end, a),
        is_first_maximum(values, start, end, b),
    ensures
        a == b,
{
    if a < b {
        assert(values[a] < values[b]);
        assert(values[b] <= values[a]);
    } else if b < a {
        assert(values[b] < values[a]);
        assert(values[a] <= values[b]);
    }
}

/// Finds the first maximum of `values` in `[start, end)`: a later value
/// replaces the running maximum only when it is strictly larger.
pub fn first_maximum(values: &[i32], start: usize, end: usize) -> (peak: usize)
    requires
        start < end <= values@.len(),
    ensures
        is_first_maximum(values@, start as int, end as int, peak as int),
{
    let mut peak: usize = start;
    let mut i: usize = start + 1;
    while i < end
        invariant
            start < i <= end <= values@.len(),
            is_first_maximum(values@, start as int, i as int, peak as int),
        decreases end - i,
    {
        if values[i] > values[peak] {
            peak = i;
        }
        i += 1;
    }
    peak
}

/// Finds the offset from the centre bin, within `max_offset_bins` bins to
/// either side, at which a response centred on bin `len / 2` peaks first.
pub fn find_peak_offset_bins(response: &[i32], max_offset_bins: usize) -> (offset: isize)
    requires
        max_offset_bins <= response@.len() / 2,
        response@.len() / 2 + max_offset_bins < response@.len(),
        response@.len() <= isize::MAX,
    ensures
        -(max_offset_bins as int) <= offset <= max_offset_bins,
        is_first_maximum(
            response@,
            response@.len() / 2 - max_offset_bins,
            response@.len() / 2 + max_offset_bins + 1,
            response@.len() / 2 + offset,
        ),
{
    let dc_bin: usize = response.len() / 2;
    let peak: usize = first_maximum(response, dc_bin - max_offset_bins, dc_bin + max_offset_bins + 1);
    if peak >= dc_bin {
        (peak - dc_bin) as isize
    } else {
        -((dc_bin - peak) as isize)
    }
}

} // verus!
