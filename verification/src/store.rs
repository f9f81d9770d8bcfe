//! The coefficient cell: one 16-byte payload that holds the pair
//! `(offset, coeff)` of the affine map `wall_ns = tsc * coeff + offset`.
//!
//! Both coefficients are IEEE-754 doubles, kept here by their bit patterns.
//! The payload is written and read as a whole, so a reader sees the two
//! halves of one pair and never a mix of two. Its layout is fixed: the low
//! eight bytes hold `coeff`, the high eight bytes hold `offset`.

use vstd::prelude::*;

verus! {

/// Two to the power 64: the weight of the high lane of a payload.
pub const LANE: u128 = 0x1_0000_0000_0000_0000;

/// The payload that holds `offset` in its high lane and `coeff` in its low
/// lane.
pub open spec fn pack(offset: u64, coeff: u64) -> u128 {
    (offset * LANE + coeff) as u128
}

/// The low eight bytes of a payload.
pub open spec fn low_lane(payload: u128) -> u64 {
    (payload as int % LANE as int) as u64
}

/// The high eight bytes of a payload.
pub open spec fn high_lane(payload: u128) -> u64 {
    (payload as int / LANE as int) as u64
}

/// The pair `(offset, coeff)` that a payload holds.
pub open spec fn unpack(payload: u128) -> (u64, u64) {
    (high_lane(payload), low_lane(payload))
}

/// The coefficient cell.
pub struct OffsetCoeff {
    payload: u128,
}

impl View for OffsetCoeff {
    type V = u128;

    /// The payload of the cell.
    closed spec fn view(&self) -> u128 {
        self.payload
    }
}

impl OffsetCoeff {
    /// The cell as it is before anything was stored: every byte is 1.
    pub fn new() -> (cell: OffsetCoeff)
        ensures
            cell@ == 0x0101_0101_0101_0101_0101_0101_0101_0101u128,
    {
        OffsetCoeff { payload: 0x0101_0101_0101_0101_0101_0101_0101_0101 }
    }

    /// A cell with the given payload.
    pub fn from_payload(payload: u128) -> (cell: OffsetCoeff)
        ensures
            cell@ == payload,
    {
        OffsetCoeff { payload }
    }

    /// The payload of the cell.
    pub fn payload(&self) -> (payload: u128)
        ensures
            payload == self@,
    {
        self.payload
    }
}

/// Packing is undone by unpacking: what was stored is what is loaded.
pub proof fn lemma_unpack_pack(offset: u64, coeff: u64)
    ensures
        unpack(pack(offset, coeff)) == (offset, coeff),
        high_lane(pack(offset, coeff)) == offset,
        low_lane(pack(offset, coeff)) == coeff,
{
    let lane = LANE as int;
    let sum = offset * lane + coeff;
    assert(0 <= sum <= u128::MAX && sum / lane == offset && sum % lane == coeff)
        by (nonlinear_arith)
        requires
            sum == offset * lane + coeff,
            lane == 0x1_0000_0000_0000_0000,
            0 <= offset <= 0xFFFF_FFFF_FFFF_FFFF,
            0 <= coeff <= 0xFFFF_FFFF_FFFF_FFFF,
    ;
}

/// Unpacking is undone by packing: a payload is no more than the pair it
/// holds.
pub proof fn lemma_pack_unpack(payload: u128)
    ensures
        pack(high_lane(payload), low_lane(payload)) == payload,
{
}

/// Writes the pair into the cell as one payload: `coeff` into the low
/// eight bytes, `offset` into the high eight bytes.
pub fn store_offset_coeff(cell: &mut OffsetCoeff, offset: u64, coeff: u64)
    ensures
        final(cell)@ == pack(offset, coeff),
        unpack(final(cell)@) == (offset, coeff),
{
    proof {
        lemma_unpack_pack(offset, coeff);
    }
    let high: u128 = (offset as u128) << 64;
    let low: u128 = coeff as u128;
    assert(high | low == offset * 0x1_0000_0000_0000_0000 + coeff) by (bit_vector)
        requires
            high == (offset as u128) << 64,
            low == coeff as u128,
    ;
    cell.payload = high | low;
}

/// Reads the pair `(offset, coeff)` out of the cell.
pub fn load_offset_coeff(cell: &OffsetCoeff) -> (pair: (u64, u64))
    ensures
        pair == unpack(cell@),
{
    let payload = cell.payload;
    let high: u64 = (payload >> 64) as u64;
    let low: u64 = (payload & 0xFFFF_FFFF_FFFF_FFFF) as u64;
    assert(payload >> 64 == payload / 0x1_0000_0000_0000_0000) by (bit_vector);
    assert(payload & 0xFFFF_FFFF_FFFF_FFFF == payload % 0x1_0000_0000_0000_0000) by (bit_vector);
    (high, low)
}

} // verus!
