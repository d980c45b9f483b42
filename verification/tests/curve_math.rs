use pumpkin_swap::accounts::BondingCurve;
use pumpkin_swap::address::Address;
use pumpkin_swap::constants::MAX_FEE_BASIS_POINTS;
use pumpkin_swap::error::ArithmeticError;
use pumpkin_swap::math::{constant_product_out, fee_amount};

fn curve(virtual_token_reserves: u64, virtual_sol_reserves: u64) -> BondingCurve {
    BondingCurve {
        token: Address::new_from_array([7; 32]),
        creator: Address::new_from_array([9; 32]),
        virtual_token_reserves,
        virtual_sol_reserves,
        real_token_reserves: 0,
        real_sol_reserves: 0,
        accrued_creator_sol_fee: 0,
        index_fund_buffer: 0,
        complete: false,
        bump: 255,
    }
}

fn reference(amount_in: u64, reserve_in: u64, reserve_out: u64, fee: u64) -> u64 {
    let effective = amount_in as u128 * (10_000 - fee) as u128;
    let numerator = effective * reserve_out as u128;
    let denominator = reserve_in as u128 * 10_000 + effective;
    (numerator / denominator) as u64
}

#[test]
fn max_fee_is_ten_thousand_basis_points() {
    assert_eq!(MAX_FEE_BASIS_POINTS, 10_000);
}

#[test]
fn native_in_example_is_reproduced_exactly() {
    let pool = curve(1_000_000_000_000, 30_000_000_000);
    assert_eq!(pool.calculate_amount_out(false, 1_000_000, 100), Ok(32_998_911));
    assert_eq!(pool.calculate_token_out(1_000_000, 100), Ok(32_998_911));
    assert_eq!(
        constant_product_out(1_000_000, 30_000_000_000, 1_000_000_000_000, 100),
        Ok(32_998_911)
    );
}

#[test]
fn token_in_is_priced_against_the_token_reserve() {
    let pool = curve(1_000_000_000_000, 30_000_000_000);
    // 50_000_000 * 9900 * 30_000_000_000 / (1_000_000_000_000 * 10_000 + 50_000_000 * 9900)
    assert_eq!(pool.calculate_amount_out(true, 50_000_000, 100), Ok(1_484_926));
    assert_eq!(pool.calculate_sol_out(50_000_000, 100), Ok(1_484_926));
    assert_eq!(
        reference(50_000_000, 1_000_000_000_000, 30_000_000_000, 100),
        1_484_926
    );
}

#[test]
fn directions_differ() {
    let pool = curve(1_000_000_000_000, 30_000_000_000);
    let sold = pool.calculate_amount_out(true, 1_000_000, 100).unwrap();
    let bought = pool.calculate_amount_out(false, 1_000_000, 100).unwrap();
    assert_eq!(sold, 29_699);
    assert_eq!(bought, 32_998_911);
}

#[test]
fn fee_above_maximum_is_rejected() {
    let pool = curve(1_000_000_000_000, 30_000_000_000);
    assert_eq!(
        pool.calculate_amount_out(false, 1_000_000, 10_001),
        Err(ArithmeticError::InvalidFeeRate)
    );
    assert_eq!(
        pool.calculate_amount_out(true, 0, u64::MAX),
        Err(ArithmeticError::InvalidFeeRate)
    );
}

#[test]
fn fee_at_maximum_takes_everything() {
    let pool = curve(1_000_000_000_000, 30_000_000_000);
    assert_eq!(pool.calculate_amount_out(false, 1_000_000, 10_000), Ok(0));
}

#[test]
fn numerator_beyond_128_bits_overflows() {
    assert_eq!(
        constant_product_out(u64::MAX, 1, u64::MAX, 0),
        Err(ArithmeticError::Overflow)
    );
    let pool = curve(u64::MAX, u64::MAX);
    assert_eq!(
        pool.calculate_amount_out(true, u64::MAX, 0),
        Err(ArithmeticError::Overflow)
    );
}

#[test]
fn largest_numerator_that_fits_is_priced() {
    // (2^64 - 1) * 10_000 * r fits in 128 bits as long as r <= (2^128 - 1) / ((2^64 - 1) * 10_000).
    let reserve_out = (u128::MAX / (u64::MAX as u128 * 10_000)) as u64;
    let expected = reference(u64::MAX, 5, reserve_out, 0);
    assert_eq!(constant_product_out(u64::MAX, 5, reserve_out, 0), Ok(expected));
    assert_eq!(
        constant_product_out(u64::MAX, 5, reserve_out + 1, 0),
        Err(ArithmeticError::Overflow)
    );
}

#[test]
fn empty_denominator_is_a_division_error() {
    assert_eq!(
        constant_product_out(0, 0, 1_000, 100),
        Err(ArithmeticError::DivisionByZero)
    );
    assert_eq!(
        constant_product_out(5, 0, 1_000, 10_000),
        Err(ArithmeticError::DivisionByZero)
    );
}

#[test]
fn empty_input_reserve_pays_out_the_whole_output_reserve() {
    assert_eq!(constant_product_out(5, 0, 1_000, 100), Ok(1_000));
}

#[test]
fn nothing_in_pays_nothing_out() {
    let pool = curve(1_000_000_000_000, 30_000_000_000);
    assert_eq!(pool.calculate_amount_out(false, 0, 100), Ok(0));
    assert_eq!(pool.calculate_amount_out(true, 0, 0), Ok(0));
}

#[test]
fn without_fee_the_plain_formula_holds() {
    let amount: u64 = 123_456_789;
    let reserve_in: u64 = 30_000_000_000;
    let reserve_out: u64 = 1_000_000_000_000;
    let plain = (amount as u128 * reserve_out as u128 / (reserve_in as u128 + amount as u128)) as u64;
    assert_eq!(plain, 4_098_360_618);
    assert_eq!(constant_product_out(amount, reserve_in, reserve_out, 0), Ok(plain));
}

#[test]
fn more_in_never_pays_less_out() {
    let reserve_in: u64 = 30_000_000_000;
    let reserve_out: u64 = 1_000_000_000_000;
    let mut last: u64 = 0;
    let mut amount: u64 = 0;
    while amount < 2_000_000_000_000 {
        let out = constant_product_out(amount, reserve_in, reserve_out, 250).unwrap();
        assert!(out >= last);
        assert!(out < reserve_out);
        last = out;
        amount += 7_777_777_777;
    }
    let huge = constant_product_out(u64::MAX, reserve_in, reserve_out, 250).unwrap();
    assert!(huge >= last);
    assert!(huge < reserve_out);
}

#[test]
fn neighbouring_amounts_are_ordered() {
    let mut amount: u64 = 1;
    while amount < 5_000 {
        let low = constant_product_out(amount, 997, 1_009, 30).unwrap();
        let high = constant_product_out(amount + 1, 997, 1_009, 30).unwrap();
        assert!(low <= high);
        assert!(high < 1_009);
        amount += 1;
    }
}

#[test]
fn round_trip_never_gains() {
    let pool = curve(1_000_000_000_000, 30_000_000_000);
    for fee in [0u64, 1, 100, 9_999] {
        for amount in [0u64, 1, 999, 1_000_000, 50_000_000_000, 900_000_000_000] {
            let sol = pool.calculate_amount_out(true, amount, fee).unwrap();
            let back = pool.calculate_amount_out(false, sol, fee).unwrap();
            assert!(back <= amount);
            let token = pool.calculate_amount_out(false, amount, fee).unwrap();
            let again = pool.calculate_amount_out(true, token, fee).unwrap();
            assert!(again <= amount);
        }
    }
}

#[test]
fn round_trip_example() {
    let pool = curve(1_000_000_000_000, 30_000_000_000);
    let sol = pool.calculate_amount_out(true, 1_000_000_000, 100).unwrap();
    assert_eq!(sol, 29_670_626);
    let back = pool.calculate_amount_out(false, sol, 100).unwrap();
    assert_eq!(back, 978_172_898);
}

#[test]
fn fee_amount_is_the_floor_of_the_share() {
    assert_eq!(fee_amount(1_000_000, 100), Ok(10_000));
    assert_eq!(fee_amount(999, 100), Ok(9));
    assert_eq!(fee_amount(99, 100), Ok(0));
    assert_eq!(fee_amount(u64::MAX, 10_000), Ok(u64::MAX));
    assert_eq!(fee_amount(u64::MAX, 1), Ok(1_844_674_407_370_955));
    assert_eq!(fee_amount(0, 5_000), Ok(0));
}

#[test]
fn fee_amount_that_does_not_fit_overflows() {
    assert_eq!(fee_amount(u64::MAX, 10_001), Err(ArithmeticError::Overflow));
    assert_eq!(fee_amount(u64::MAX, u64::MAX), Err(ArithmeticError::Overflow));
}
