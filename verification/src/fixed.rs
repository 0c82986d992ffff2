//! Exact fixed-point scaling.
//!
//! Raw sensor counts become micro-unit values by one multiplication and
//! one division, truncated toward zero — the integer counterpart of the
//! datasheet scale factors.

use vstd::prelude::*;

verus! {

/// `raw * num / den`, truncated toward zero.
pub open spec fn spec_scale(raw: int, num: int, den: int) -> int
    recommends
        num > 0,
        den > 0,
{
    if raw >= 0 {
        (raw * num) / den
    } else {
        -((-raw * num) / den)
    }
}

/// Scale a raw count to micro-units: `raw * num / den`, truncated toward
/// zero. The bounds keep every intermediate inside 64 bits.
pub fn scale(raw: i64, num: i64, den: i64) -> (r: i64)
    requires
        -0x1_0000_0000 <= raw <= 0x1_0000_0000,
        0 < num <= 0x4000_0000,
        0 < den <= 0x4000_0000,
    ensures
        r == spec_scale(raw as int, num as int, den as int),
        -0x4000_0000_0000_0000 <= r <= 0x4000_0000_0000_0000,
{
    if raw >= 0 {
        let a: u64 = raw as u64;
        let b: u64 = num as u64;
        proof {
            assert(a * b <= 0x4000_0000_0000_0000) by (nonlinear_arith)
                requires
                    a <= 0x1_0000_0000,
                    b <= 0x4000_0000,
            ;
        }
        let mag: u64 = a * b / (den as u64);
        proof {
            assert(mag <= a * b);
        }
        mag as i64
    } else {
        let a: u64 = (-raw) as u64;
        let b: u64 = num as u64;
        proof {
            assert(a * b <= 0x4000_0000_0000_0000) by (nonlinear_arith)
                requires
                    a <= 0x1_0000_0000,
                    b <= 0x4000_0000,
            ;
        }
        let mag: u64 = a * b / (den as u64);
        proof {
            assert(mag <= a * b);
        }
        -(mag as i64)
    }
}

} // verus!
