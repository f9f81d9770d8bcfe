//! The reader: from a counter reading to nanoseconds since the Unix epoch.
//!
//! The reader takes the pair out of the coefficient cell and has the
//! counter reading, the coefficient and the offset run through the affine
//! map `tsc * coeff + offset`. The map is worked out in double precision by
//! whoever calls; what is settled here is which half of the payload is
//! which operand, so that the reader and `store_offset_coeff` agree.

use crate::store::{high_lane, load_offset_coeff, low_lane, OffsetCoeff};
use vstd::prelude::*;

verus! {

/// Nanoseconds since the Unix epoch for the counter reading `tsc`: what
/// `affine` makes of the reading, of the coefficient in the low lane of the
/// cell and of the offset in its high lane, in this order.
pub fn unix_nano_tsc<A: Fn(u64, u64, u64) -> i64>(cell: &OffsetCoeff, tsc: u64, affine: A) -> (ns:
    i64)
    requires
        affine.requires((tsc, low_lane(cell@), high_lane(cell@))),
    ensures
        affine.ensures((tsc, low_lane(cell@), high_lane(cell@)), ns),
{
    let (offset, coeff) = load_offset_coeff(cell);
    affine(tsc, coeff, offset)
}

} // verus!
