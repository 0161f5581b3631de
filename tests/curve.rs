use dex::calculator::{map_zero_to_none, CurveCalculator, TradeDirection};
use dex::constant_product::ConstantProductCurve;
use dex::error::ErrorCode;
use dex::fees::{floor_div, Fees, FEE_RATE_DENOMINATOR_VALUE};

fn test_truncation(
    source_amount: u128,
    swap_source_amount: u128,
    swap_destination_amount: u128,
    expected_source_amount_swapped: u128,
    expected_destination_amount_swapped: u128,
) {
    let invariant = swap_source_amount * swap_destination_amount;
    let destination_amount_swapped = ConstantProductCurve::swap_base_input_without_fees(
        source_amount,
        swap_source_amount,
        swap_destination_amount,
    );
    assert_eq!(source_amount, expected_source_amount_swapped);
    assert_eq!(destination_amount_swapped, expected_destination_amount_swapped);
    let new_invariant = (swap_source_amount + source_amount)
        * (swap_destination_amount - destination_amount_swapped);
    assert!(new_invariant >= invariant);
}

#[test]
fn constant_product_swap_rounding() {
    let tests: &[(u128, u128, u128, u128, u128)] = &[
        (10, 4_000_000, 70_000_000_000, 10, 174_999),
        (20, 30_000 - 20, 10_000, 20, 6),
        (19, 30_000 - 20, 10_000, 19, 6),
        (18, 30_000 - 20, 10_000, 18, 6),
        (10, 20_000, 30_000, 10, 14),
        (10, 20_000 - 9, 30_000, 10, 14),
        (10, 20_000 - 10, 30_000, 10, 15),
        (100, 60_000, 30_000, 100, 49),
        (99, 60_000, 30_000, 99, 49),
        (98, 60_000, 30_000, 98, 48),
    ];
    for (
        source_amount,
        swap_source_amount,
        swap_destination_amount,
        expected_source_amount,
        expected_destination_amount,
    ) in tests.iter()
    {
        test_truncation(
            *source_amount,
            *swap_source_amount,
            *swap_destination_amount,
            *expected_source_amount,
            *expected_destination_amount,
        );
    }
}

#[test]
fn base_input_without_fees_truncation_vectors() {
    assert_eq!(
        ConstantProductCurve::swap_base_input_without_fees(10, 4_000_000, 70_000_000_000),
        174_999
    );
    assert_eq!(ConstantProductCurve::swap_base_input_without_fees(20, 29_980, 10_000), 6);
}

#[test]
fn base_output_without_fees_rounds_up() {
    // 1_000_000 * 1_000 / 999_000 = 1001.001.. rounds up to 1002
    assert_eq!(
        ConstantProductCurve::swap_base_output_without_fees(1_000, 1_000_000, 1_000_000),
        1_002
    );
    // exact quotient: 10 * 10 / 50 = 2
    assert_eq!(ConstantProductCurve::swap_base_output_without_fees(10, 10, 60), 2);
}

#[test]
fn floor_div_is_exact_and_checked() {
    assert_eq!(floor_div(7, 3, 2), Some(10));
    assert_eq!(floor_div(7, 3, 0), None);
    assert_eq!(floor_div(u128::MAX, 2, 1), None);
}

#[test]
fn protocol_fee_is_floor_exact() {
    assert_eq!(Fees::protocol_fee(1_000_000, 10_000), Some(10_000));
    assert_eq!(Fees::protocol_fee(199, 10_000), Some(1));
    assert_eq!(Fees::protocol_fee(99, 10_000), Some(0));
    assert_eq!(Fees::protocol_fee(0, 10_000), Some(0));
    assert_eq!(Fees::protocol_fee(u128::MAX, 2), None);
}

#[test]
fn pre_fee_amount_rounds_up() {
    assert_eq!(Fees::calculate_pre_fee_amount(100, 0), Some(100));
    // ceil(100 * 1_000_000 / 990_000) = 102
    assert_eq!(Fees::calculate_pre_fee_amount(100, 10_000), Some(102));
    assert_eq!(Fees::calculate_pre_fee_amount(0, 10_000), Some(0));
    assert_eq!(Fees::calculate_pre_fee_amount(100, FEE_RATE_DENOMINATOR_VALUE), None);
    assert_eq!(Fees::calculate_pre_fee_amount(u128::MAX, 10_000), None);
}

#[test]
fn pre_fee_amount_at_the_overflow_edge() {
    // post * D + (D - rate) - 1 is exactly u128::MAX: still computed
    assert_eq!(
        Fees::calculate_pre_fee_amount(340_282_366_920_938_463_463_374_607_431_768, 788_544),
        Some(1_609_234_861_725_079_749_278_216_780_000_417)
    );
    // one more and the padded numerator no longer fits
    assert_eq!(
        Fees::calculate_pre_fee_amount(340_282_366_920_938_463_463_374_607_431_768, 788_543),
        None
    );
}

#[test]
fn pre_fee_amount_covers_forward_fee() {
    for rate in [0u64, 1, 2_500, 10_000, 30_000, 999_999] {
        for post in [0u128, 1, 7, 99, 100, 12_345, 1_000_000, 987_654_321] {
            let pre = Fees::calculate_pre_fee_amount(post, rate).unwrap();
            let fee = Fees::protocol_fee(pre, rate).unwrap();
            assert!(pre - fee >= post, "rate {} post {}", rate, post);
        }
    }
}

#[test]
fn map_zero_to_none_values() {
    assert_eq!(map_zero_to_none(0), None);
    assert_eq!(map_zero_to_none(5), Some(5));
}

#[test]
fn trade_direction_opposite_and_flag() {
    assert_eq!(TradeDirection::ZeroForOne.opposite(), TradeDirection::OneForZero);
    assert_eq!(TradeDirection::OneForZero.opposite(), TradeDirection::ZeroForOne);
    assert!(!bool::from(TradeDirection::ZeroForOne));
    assert!(bool::from(TradeDirection::OneForZero));
}

#[test]
fn validate_supply_rejects_empty_side() {
    assert_eq!(CurveCalculator::validate_supply(0, 5), Err(ErrorCode::EmptySupply));
    assert_eq!(CurveCalculator::validate_supply(5, 0), Err(ErrorCode::EmptySupply));
    assert_eq!(CurveCalculator::validate_supply(5, 5), Ok(()));
}

#[test]
fn swap_base_input_deducts_fee_then_trades() {
    let r = CurveCalculator::swap_base_input(1_000, 1_000_000, 1_000_000, 10_000).unwrap();
    assert_eq!(r.protocol_fee, 10);
    assert_eq!(r.source_amount_swapped, 1_000);
    assert_eq!(r.destination_amount_swapped, 989);
    assert_eq!(r.new_swap_source_amount, 1_001_000);
    assert_eq!(r.new_swap_destination_amount, 999_011);
    assert_eq!(r.constant_before, 1_000_000_000_000);
    assert_eq!(r.constant_after, (1_001_000 - 10) * 999_011);
    assert!(r.constant_after >= r.constant_before);
}

#[test]
fn swap_base_input_overflow_gives_none() {
    assert_eq!(CurveCalculator::swap_base_input(u128::MAX, 1, 2, 10_000), None);
    assert_eq!(CurveCalculator::swap_base_input(10, u128::MAX, u128::MAX, 0), None);
    assert_eq!(CurveCalculator::swap_base_input(0, 0, 10, 0), None);
}

#[test]
fn swap_base_output_reconstructs_gross_input() {
    let r = CurveCalculator::swap_base_output(1_000, 1_000_000, 1_000_000, 10_000).unwrap();
    assert_eq!(r.destination_amount_swapped, 1_000);
    assert_eq!(r.source_amount_swapped, 1_013);
    assert_eq!(r.protocol_fee, 10);
    assert_eq!(r.new_swap_source_amount, 1_001_013);
    assert_eq!(r.new_swap_destination_amount, 999_000);
    assert_eq!(r.constant_after, 1_000_001_997_000);
    assert!(r.constant_after >= r.constant_before);
}

#[test]
fn swap_base_output_beyond_liquidity_gives_none() {
    assert_eq!(CurveCalculator::swap_base_output(1_000, 1_000, 1_000, 0), None);
    assert_eq!(CurveCalculator::swap_base_output(2_000, 1_000, 1_000, 0), None);
    assert_eq!(
        CurveCalculator::swap_base_output(10, 1_000, 1_000, FEE_RATE_DENOMINATOR_VALUE),
        None
    );
}

#[test]
fn invariant_never_decreases_on_samples() {
    let reserves = [1u128, 2, 3, 97, 1_000, 65_537, 1_000_000, 4_000_000_000];
    for &x in reserves.iter() {
        for &y in reserves.iter() {
            for &amount in [1u128, 2, 5, 100, 9_999, 1_000_000].iter() {
                for &rate in [0u64, 10_000, 30_000].iter() {
                    if let Some(r) = CurveCalculator::swap_base_input(amount, x, y, rate) {
                        assert!(r.constant_after >= r.constant_before);
                    }
                    if let Some(r) = CurveCalculator::swap_base_output(amount, x, y, rate) {
                        assert!(r.constant_after >= r.constant_before);
                    }
                }
            }
        }
    }
}
