//! The exchange rate between assets and shares.
//!
//! Both directions round down (floor division). Minting prices a deposit
//! against the pool total measured before the deposit arrived; burning prices
//! shares against the pool total measured at burn time.
use crate::error::VaultError;
use cosmwasm_std::Uint128;
use vstd::prelude::*;

verus! {

/// `a * num / den`, rounded down, as a mathematical integer.
pub open spec fn floor_ratio(a: u128, num: u128, den: u128) -> int
    recommends
        den > 0,
{
    (a as int) * (num as int) / (den as int)
}

/// Relies on cosmwasm_std::Uint128::checked_multiply_ratio: the product is
/// formed in 256 bits, divided with the result floored, and an error comes
/// back only for a zero denominator or a quotient that does not fit in 128 bits.
#[verifier::external_body]
fn checked_multiply_ratio(a: u128, num: u128, den: u128) -> (r: Option<u128>)
    requires
        den > 0,
    ensures
        match r {
            Some(v) => v as int == floor_ratio(a, num, den),
            None => floor_ratio(a, num, den) > u128::MAX,
        },
{
    Uint128::new(a).checked_multiply_ratio(num, den).ok().map(|v| v.u128())
}

/// What minting `deposit` assets yields, with `supply` shares outstanding and
/// `assets_before` assets in the pool before the deposit.
pub open spec fn shares_to_mint_spec(deposit: u128, supply: u128, assets_before: u128) -> Result<
    u128,
    VaultError,
> {
    if supply == 0 {
        if deposit == 0 {
            Err(VaultError::ZeroMintResult)
        } else {
            Ok(deposit)
        }
    } else if assets_before == 0 {
        Err(VaultError::ArithmeticOverflow)
    } else if floor_ratio(deposit, supply, assets_before) > u128::MAX {
        Err(VaultError::ArithmeticOverflow)
    } else if floor_ratio(deposit, supply, assets_before) == 0 {
        Err(VaultError::ZeroMintResult)
    } else {
        Ok(floor_ratio(deposit, supply, assets_before) as u128)
    }
}

/// What burning `shares` yields, with `supply` shares outstanding and
/// `assets_now` assets in the pool.
pub open spec fn assets_to_return_spec(shares: u128, supply: u128, assets_now: u128) -> Result<
    u128,
    VaultError,
> {
    if supply == 0 {
        Err(VaultError::ZeroSupply)
    } else if floor_ratio(shares, assets_now, supply) > u128::MAX {
        Err(VaultError::ArithmeticOverflow)
    } else if floor_ratio(shares, assets_now, supply) == 0 {
        Err(VaultError::ZeroReturnResult)
    } else {
        Ok(floor_ratio(shares, assets_now, supply) as u128)
    }
}

/// Shares to mint for a deposit.
///
/// An empty supply prices the deposit one to one. Otherwise the deposit buys
/// `deposit * supply / assets_before` shares, rounded down; a pool that holds
/// no assets while shares are outstanding has an unbounded rate and is
/// reported as an overflow. A zero result is refused.
pub fn shares_to_mint(deposit: u128, supply: u128, assets_before: u128) -> (r: Result<
    u128,
    VaultError,
>)
    ensures
        r == shares_to_mint_spec(deposit, supply, assets_before),
{
    if supply == 0 {
        if deposit == 0 {
            Err(VaultError::ZeroMintResult)
        } else {
            Ok(deposit)
        }
    } else if assets_before == 0 {
        Err(VaultError::ArithmeticOverflow)
    } else {
        match checked_multiply_ratio(deposit, supply, assets_before) {
            None => Err(VaultError::ArithmeticOverflow),
            Some(0) => Err(VaultError::ZeroMintResult),
            Some(m) => Ok(m),
        }
    }
}

/// Assets to pay out for burning `shares`: `shares * assets_now / supply`,
/// rounded down. An empty supply and a zero result are refused.
pub fn assets_to_return(shares: u128, supply: u128, assets_now: u128) -> (r: Result<
    u128,
    VaultError,
>)
    ensures
        r == assets_to_return_spec(shares, supply, assets_now),
{
    if supply == 0 {
        Err(VaultError::ZeroSupply)
    } else {
        match checked_multiply_ratio(shares, assets_now, supply) {
            None => Err(VaultError::ArithmeticOverflow),
            Some(0) => Err(VaultError::ZeroReturnResult),
            Some(a) => Ok(a),
        }
    }
}

} // verus!
