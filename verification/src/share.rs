use crate::error::ContractError;
use crate::error::ErrorView;
use vstd::prelude::*;

verus! {

/// The share tokens owed for a deposit, as a mathematical function of the
/// pool's balance after the deposit, the amount deposited and the share
/// supply before it. `None` where the amount is undefined or does not fit
/// in 128 bits.
///
/// The first deposit into a pool is seeded one share per unit. Later ones
/// divide the balance before the deposit by the whole number of units that
/// one share was worth, both divisions rounding down.
pub open spec fn mint_amount(total: nat, deposited: nat, supply: nat) -> Option<nat> {
    if supply == 0 {
        Some(deposited)
    } else if deposited > total {
        None
    } else if (total - deposited) / (supply as int) == 0 {
        None
    } else {
        Some(((total - deposited) / ((total - deposited) / (supply as int))) as nat)
    }
}

/// The base-asset amount paid out for burning shares: the burned amount times
/// the whole number of units one share is worth. `None` where there are no
/// shares outstanding or the product does not fit in 128 bits.
pub open spec fn burn_payout(total: nat, supply: nat, burned: nat) -> Option<nat> {
    if supply == 0 {
        None
    } else if burned * (total / supply) > u128::MAX {
        None
    } else {
        Some(burned * (total / supply))
    }
}

/// Computes the share tokens to mint for a deposit that has already reached
/// the pool.
pub fn compute_mint(total: u128, deposited: u128, supply: u128) -> (r: Result<u128, ContractError>)
    ensures
        supply == 0 ==> r == Ok::<u128, ContractError>(deposited),
        match mint_amount(total as nat, deposited as nat, supply as nat) {
            Some(amount) => r == Ok::<u128, ContractError>(amount as u128),
            None => r matches Err(e) && e@ == ErrorView::ComputationError,
        },
{
    if supply == 0 {
        return Ok(deposited);
    }
    let prior = match total.checked_sub(deposited) {
        Some(prior) => prior,
        None => return Err(ContractError::ComputationError),
    };
    let rate = prior / supply;
    if rate == 0 {
        return Err(ContractError::ComputationError);
    }
    Ok(prior / rate)
}

/// Computes the base-asset amount to pay out for burning `burned` shares.
pub fn compute_burn_payout(total: u128, supply: u128, burned: u128) -> (r: Result<
    u128,
    ContractError,
>)
    ensures
        match burn_payout(total as nat, supply as nat, burned as nat) {
            Some(amount) => r == Ok::<u128, ContractError>(amount as u128),
            None => r matches Err(e) && e@ == ErrorView::ComputationError,
        },
{
    if supply == 0 {
        return Err(ContractError::ComputationError);
    }
    let rate = total / supply;
    match burned.checked_mul(rate) {
        Some(payout) => Ok(payout),
        None => Err(ContractError::ComputationError),
    }
}

} // verus!
