//! Linear scaling of one color channel from the master device's numeric
//! range to the slave device's coarser one, truncating the lost precision.

use vstd::prelude::*;
use vstd::arithmetic::div_mod::{lemma_div_is_ordered, lemma_div_multiples_vanish, lemma_div_pos_is_pos};
use vstd::arithmetic::mul::lemma_mul_inequality;

verus! {

/// Largest hue the master device reports.
pub const MASTER_HUE_MAX: u64 = 65535;

/// Largest saturation the master device reports.
pub const MASTER_SAT_MAX: u64 = 255;

/// Largest brightness the master device reports.
pub const MASTER_BRI_MAX: u64 = 255;

/// `floor(src / src_max * dst_max)`: scale `src` from `[0, src_max]` to
/// `[0, dst_max]`, truncating toward zero.
pub open spec fn spec_convert(src: int, src_max: int, dst_max: int) -> int {
    src * dst_max / src_max
}

/// `raw` held down to `max`: a report outside the documented source range is
/// treated as the range's top.
pub open spec fn spec_clamp(raw: u64, max: u64) -> u64 {
    if raw > max { max } else { raw }
}

/// A channel's slave-range value for a raw master report: clamp to the
/// source range, then scale.
pub open spec fn spec_channel(raw: u64, src_max: u64, dst_max: u64) -> int {
    spec_convert(spec_clamp(raw, src_max) as int, src_max as int, dst_max as int)
}

/// Scaling is bounded by the destination range, monotonic, and exact at the
/// ends of the source range.
pub proof fn lemma_convert_bounded_monotonic(a: int, b: int, src_max: int, dst_max: int)
    requires
        0 < src_max,
        0 <= dst_max,
        0 <= a <= b <= src_max,
    ensures
        0 <= spec_convert(a, src_max, dst_max),
        spec_convert(a, src_max, dst_max) <= spec_convert(b, src_max, dst_max),
        spec_convert(b, src_max, dst_max) <= dst_max,
        spec_convert(0, src_max, dst_max) == 0,
        spec_convert(src_max, src_max, dst_max) == dst_max,
{
    lemma_mul_inequality(a, b, dst_max);
    lemma_mul_inequality(b, src_max, dst_max);
    lemma_div_pos_is_pos(a * dst_max, src_max);
    lemma_div_is_ordered(a * dst_max, b * dst_max, src_max);
    lemma_div_is_ordered(b * dst_max, src_max * dst_max, src_max);
    lemma_div_multiples_vanish(dst_max, src_max);
    assert(src_max * dst_max == dst_max * src_max);
    assert(0 * dst_max == 0);
    lemma_div_pos_is_pos(0, src_max);
    lemma_div_is_ordered(0 * dst_max, 0, src_max);
}

/// Scale `src` from `[0, src_max]` to `[0, dst_max]`, truncating.
pub fn convert_range(src: u64, src_max: u64, dst_max: u64) -> (r: u64)
    requires
        0 < src_max,
        src <= src_max,
        src_max * dst_max <= u64::MAX,
    ensures
        r == spec_convert(src as int, src_max as int, dst_max as int),
        r <= dst_max,
{
    proof {
        lemma_convert_bounded_monotonic(src as int, src as int, src_max as int, dst_max as int);
        lemma_mul_inequality(src as int, src_max as int, dst_max as int);
    }
    (src * dst_max) / src_max
}

/// Clamp a raw channel report to its documented source range.
pub fn clamp(raw: u64, max: u64) -> (r: u64)
    ensures
        r == spec_clamp(raw, max),
        r <= max,
{
    if raw > max { max } else { raw }
}

/// Clamp and scale one channel from the master's range to the slave's.
pub fn channel_to_slave(raw: u64, src_max: u64, dst_max: u64) -> (r: u64)
    requires
        0 < src_max,
        src_max * dst_max <= u64::MAX,
    ensures
        r == spec_channel(raw, src_max, dst_max),
        r <= dst_max,
{
    let clamped = clamp(raw, src_max);
    convert_range(clamped, src_max, dst_max)
}

} // verus!
