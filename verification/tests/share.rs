use terraswap_pool::error::ContractError;
use terraswap_pool::share::{compute_burn_payout, compute_mint};

#[test]
fn the_first_deposit_is_minted_one_to_one() {
    assert_eq!(compute_mint(1, 1, 0), Ok(1));
    assert_eq!(compute_mint(250_000, 250_000, 0), Ok(250_000));
    assert_eq!(compute_mint(u128::MAX, u128::MAX, 0), Ok(u128::MAX));
}

#[test]
fn the_first_deposit_ignores_what_the_pool_already_held() {
    assert_eq!(compute_mint(10, 3, 0), Ok(3));
    assert_eq!(compute_mint(0, 3, 0), Ok(3));
}

#[test]
fn a_later_deposit_mints_the_prior_balance_over_the_rate() {
    // prior balance 1, rate 1
    assert_eq!(compute_mint(2, 1, 1), Ok(1));
    // prior balance 10, rate 10 / 3 = 3, minted 10 / 3 = 3
    assert_eq!(compute_mint(15, 5, 3), Ok(3));
    // prior balance 7, rate 7 / 2 = 3, minted 7 / 3 = 2
    assert_eq!(compute_mint(8, 1, 2), Ok(2));
    // prior balance 100, rate 100 / 7 = 14, minted 100 / 14 = 7
    assert_eq!(compute_mint(1_000_100, 1_000_000, 7), Ok(7));
}

#[test]
fn a_later_deposit_mints_the_same_whatever_its_size() {
    assert_eq!(compute_mint(11, 1, 3), Ok(3));
    assert_eq!(compute_mint(10 + 999, 999, 3), Ok(3));
}

#[test]
fn a_rate_of_zero_is_a_computation_error() {
    // prior balance 2 against 5 shares: one share is worth no whole unit
    assert_eq!(compute_mint(3, 1, 5), Err(ContractError::ComputationError));
    // nothing in the pool before the deposit
    assert_eq!(compute_mint(5, 5, 1), Err(ContractError::ComputationError));
}

#[test]
fn a_deposit_larger_than_the_balance_is_a_computation_error() {
    assert_eq!(compute_mint(1, 2, 1), Err(ContractError::ComputationError));
}

#[test]
fn a_burn_pays_the_rate_for_each_share() {
    // rate 4 / 2 = 2
    assert_eq!(compute_burn_payout(4, 2, 1), Ok(2));
    assert_eq!(compute_burn_payout(4, 2, 2), Ok(4));
    assert_eq!(compute_burn_payout(4, 2, 3), Ok(6));
    // rate 5 / 2 = 2
    assert_eq!(compute_burn_payout(5, 2, 3), Ok(6));
    // rate 1 / 2 = 0
    assert_eq!(compute_burn_payout(1, 2, 3), Ok(0));
    assert_eq!(compute_burn_payout(4, 2, 0), Ok(0));
}

#[test]
fn a_burn_against_no_shares_is_a_computation_error() {
    assert_eq!(
        compute_burn_payout(4, 0, 1),
        Err(ContractError::ComputationError)
    );
    assert_eq!(
        compute_burn_payout(0, 0, 0),
        Err(ContractError::ComputationError)
    );
}

#[test]
fn a_payout_beyond_128_bits_is_a_computation_error() {
    assert_eq!(
        compute_burn_payout(u128::MAX, 1, 2),
        Err(ContractError::ComputationError)
    );
    assert_eq!(compute_burn_payout(u128::MAX, 1, 1), Ok(u128::MAX));
    assert_eq!(
        compute_burn_payout(1 << 100, 1, 1 << 28),
        Err(ContractError::ComputationError)
    );
    assert_eq!(
        compute_burn_payout(1 << 100, 1, (1 << 28) - 1),
        Ok(((1u128 << 28) - 1) << 100)
    );
}
