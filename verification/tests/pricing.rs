use xcavate_education::errors::EducationError;
use xcavate_education::pricing::{bps_floor, fee_ceil, fee_parts, price_per_token, scale_to_asset, FeeParts};

#[test]
fn scale_to_asset_multiplies_by_decimals() {
    assert_eq!(scale_to_asset(100, 6), Ok(100_000_000));
    assert_eq!(scale_to_asset(7, 0), Ok(7));
    assert_eq!(scale_to_asset(0, 38), Ok(0));
}

#[test]
fn scale_to_asset_overflows_past_u128() {
    assert_eq!(scale_to_asset(0, 39), Err(EducationError::Overflow));
    assert_eq!(scale_to_asset(u64::MAX, 30), Err(EducationError::Overflow));
}

#[test]
fn fee_ceil_rounds_up() {
    assert_eq!(fee_ceil(100, 0), Ok(0));
    assert_eq!(fee_ceil(100, 1), Ok(1));
    assert_eq!(fee_ceil(10_000, 250), Ok(250));
    assert_eq!(fee_ceil(10_001, 250), Ok(251));
    assert_eq!(fee_ceil(u128::MAX, 2), Err(EducationError::Overflow));
}

#[test]
fn bps_floor_rounds_down() {
    assert_eq!(bps_floor(100, 9_999), Ok(99));
    assert_eq!(bps_floor(100, 10_000), Ok(100));
    assert_eq!(bps_floor(u128::MAX, 2), Err(EducationError::Overflow));
}

#[test]
fn fee_parts_and_total() {
    let parts = fee_parts(100_000_000, 1_000, 500, 250, 1_500).unwrap();
    assert_eq!(
        parts,
        FeeParts { content_creator: 10_000_000, regional_operator: 5_000_000, protocol: 2_500_000, dbs: 15_000_000 }
    );
    assert_eq!(parts.total(), Ok(32_500_000));
}

#[test]
fn price_per_token_is_base_plus_fees() {
    // 100 units at 6 decimals: 100_000_000 base plus 32.5% in fees.
    assert_eq!(price_per_token(100, 6, 1_000, 500, 250, 1_500), Ok(132_500_000));
    // A result that does not fit in u64 is refused.
    assert_eq!(price_per_token(u64::MAX, 1, 0, 0, 0, 0), Err(EducationError::Overflow));
}
