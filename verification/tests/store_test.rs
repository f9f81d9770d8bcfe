use rtsc::store::LANE;
use rtsc::{load_offset_coeff, store_offset_coeff, OffsetCoeff};

#[test]
fn fresh_cell_holds_ones_in_every_byte() {
    let cell = OffsetCoeff::new();
    assert_eq!(cell.payload().to_le_bytes(), [1u8; 16]);
    assert_eq!(load_offset_coeff(&cell), (0x0101_0101_0101_0101, 0x0101_0101_0101_0101));
}

#[test]
fn lane_is_two_to_the_64() {
    assert_eq!(LANE, 1u128 << 64);
}

#[test]
fn stored_pair_is_loaded_again() {
    let offset: f64 = 1645227926076647424.0;
    let coeff: f64 = 0.3561249436912842;
    let mut cell = OffsetCoeff::new();
    store_offset_coeff(&mut cell, offset.to_bits(), coeff.to_bits());
    let (o, c) = load_offset_coeff(&cell);
    assert_eq!(f64::from_bits(o), offset);
    assert_eq!(f64::from_bits(c), coeff);
}

#[test]
fn round_trip_keeps_every_bit_pattern() {
    let patterns: Vec<u64> = vec![
        0,
        1,
        u64::MAX,
        u64::MAX - 1,
        1 << 63,
        (1 << 63) - 1,
        0x0123_4567_89ab_cdef,
        0xfedc_ba98_7654_3210,
        f64::MAX.to_bits(),
        f64::MIN.to_bits(),
        f64::MIN_POSITIVE.to_bits(),
        f64::EPSILON.to_bits(),
        (-0.0f64).to_bits(),
        f64::INFINITY.to_bits(),
        f64::NAN.to_bits(),
    ];
    let mut cell = OffsetCoeff::new();
    for &offset in &patterns {
        for &coeff in &patterns {
            store_offset_coeff(&mut cell, offset, coeff);
            assert_eq!(load_offset_coeff(&cell), (offset, coeff));
        }
    }
}

#[test]
fn round_trip_keeps_finite_doubles() {
    let values: Vec<f64> = vec![0.0, -0.0, 1.0, -1.0, 0.333, 0.5, 3.0, 42.0, 1e-300, -1.5e300, 1.6e18];
    let mut cell = OffsetCoeff::new();
    for &offset in &values {
        for &coeff in &values {
            store_offset_coeff(&mut cell, offset.to_bits(), coeff.to_bits());
            let (o, c) = load_offset_coeff(&cell);
            assert_eq!(o, offset.to_bits());
            assert_eq!(c, coeff.to_bits());
        }
    }
}

#[test]
fn coeff_is_in_the_low_bytes_and_offset_in_the_high_bytes() {
    let mut cell = OffsetCoeff::new();
    store_offset_coeff(&mut cell, 0x1122_3344_5566_7788, 0x99aa_bbcc_ddee_ff00);
    assert_eq!(cell.payload(), 0x1122_3344_5566_7788_99aa_bbcc_ddee_ff00);
    let bytes = cell.payload().to_le_bytes();
    assert_eq!(bytes[..8], 0x99aa_bbcc_ddee_ff00u64.to_le_bytes());
    assert_eq!(bytes[8..], 0x1122_3344_5566_7788u64.to_le_bytes());
}

#[test]
fn later_store_replaces_the_whole_pair() {
    let mut cell = OffsetCoeff::new();
    store_offset_coeff(&mut cell, u64::MAX, u64::MAX);
    store_offset_coeff(&mut cell, 0, 7);
    assert_eq!(load_offset_coeff(&cell), (0, 7));
    assert_eq!(cell.payload(), 7);
    store_offset_coeff(&mut cell, 7, 0);
    assert_eq!(load_offset_coeff(&cell), (7, 0));
    assert_eq!(cell.payload(), 7u128 << 64);
}

#[test]
fn cell_from_payload_holds_that_payload() {
    let cell = OffsetCoeff::from_payload(0x0000_0000_0000_0002_0000_0000_0000_0003);
    assert_eq!(cell.payload(), 0x0000_0000_0000_0002_0000_0000_0000_0003);
    assert_eq!(load_offset_coeff(&cell), (2, 3));
    let full = OffsetCoeff::from_payload(u128::MAX);
    assert_eq!(load_offset_coeff(&full), (u64::MAX, u64::MAX));
}
