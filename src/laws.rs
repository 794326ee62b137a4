//! Properties of the vault that relate its operations to each other.
use crate::error::VaultError;
use crate::payment::{paid_spec, Payment};
use crate::rate::{floor_ratio, shares_to_mint_spec};
use crate::vault::VaultState;
use vstd::prelude::*;

verus! {

/// The first deposit into a vault with no shares outstanding mints exactly
/// as many shares as the assets deposited.
pub proof fn lemma_bootstrap_mints_deposit(
    v: VaultState,
    funds: Seq<Payment>,
    pool_balance: u128,
    amount: u128,
)
    requires
        v.wf(),
        v.total_supply_spec() == 0,
        paid_spec(funds, v.denom_spec()) == Some(amount),
        amount <= pool_balance,
    ensures
        v.mint_spec(funds, pool_balance) == Ok::<u128, VaultError>(amount),
{
}

/// Minting for a deposit of `amount` into a vault with shares outstanding
/// yields `amount * supply / assets_before` shares, rounded down. Burning
/// those shares at once, with no other transfer into the pool in between,
/// pays `minted * pool_balance / (supply + minted)`, rounded down, which is
/// never more than `amount`: the round trip creates no value.
///
/// `w` is any state that the mint may have produced from `v`.
pub proof fn lemma_round_trip_no_gain(
    v: VaultState,
    w: VaultState,
    sender: Seq<char>,
    funds: Seq<Payment>,
    pool_balance: u128,
    amount: u128,
    minted: u128,
)
    requires
        v.wf(),
        w.wf(),
        v.total_supply_spec() > 0,
        paid_spec(funds, v.denom_spec()) == Some(amount),
        v.mint_spec(funds, pool_balance) == Ok::<u128, VaultError>(minted),
        w.total_supply_spec() == v.total_supply_spec() + minted,
        w.balance_spec(sender) == v.balance_spec(sender) + minted,
    ensures
        minted == floor_ratio(amount, v.total_supply_spec(), (pool_balance - amount) as u128),
        match w.burn_spec(sender, minted, pool_balance) {
            Ok(paid) => {
                &&& paid == floor_ratio(minted, pool_balance, w.total_supply_spec())
                &&& paid <= amount
            },
            Err(e) => e == VaultError::ZeroReturnResult,
        },
{
    let s = v.total_supply_spec() as int;
    let a = amount as int;
    let t = pool_balance as int - a;
    let m = minted as int;
    let p = pool_balance as int;
    assert(shares_to_mint_spec(amount, v.total_supply_spec(), (pool_balance - amount) as u128)
        == Ok::<u128, VaultError>(minted));
    assert(t > 0);
    assert(m == a * s / t);
    assert(m * t <= a * s) by (nonlinear_arith)
        requires
            m == a * s / t,
            t > 0,
    ;
    assert(m * p <= a * (s + m)) by (nonlinear_arith)
        requires
            m * t <= a * s,
            p == t + a,
    ;
    assert(m * p / (s + m) <= a) by (nonlinear_arith)
        requires
            m * p <= a * (s + m),
            s + m > 0,
    ;
    assert(0 <= m * p / (s + m)) by (nonlinear_arith)
        requires
            m >= 0,
            p >= 0,
            s + m > 0,
    ;
    assert(w.balance_spec(sender) >= m) by {
        v.holders_spec().lemma_balance_le_sum(sender);
    }
}

/// Burning against a vault with no shares outstanding always fails with
/// `ZeroSupply`, whatever the holder, the shares and the pool total.
pub proof fn lemma_zero_supply_burn_fails(
    v: VaultState,
    h: Seq<char>,
    shares: u128,
    pool_balance: u128,
)
    requires
        v.wf(),
        v.total_supply_spec() == 0,
    ensures
        v.burn_spec(h, shares, pool_balance) == Err::<u128, VaultError>(VaultError::ZeroSupply),
{
}

/// Once the supply is at the largest representable value, no deposit can
/// mint: a deposit that would be priced at a non-zero number of shares fails
/// with `ArithmeticOverflow` instead of wrapping the supply around.
pub proof fn lemma_mint_at_max_supply_overflows(
    v: VaultState,
    funds: Seq<Payment>,
    pool_balance: u128,
    amount: u128,
)
    requires
        v.wf(),
        v.total_supply_spec() == u128::MAX,
        paid_spec(funds, v.denom_spec()) == Some(amount),
        amount <= pool_balance,
        shares_to_mint_spec(amount, u128::MAX, (pool_balance - amount) as u128) is Ok,
    ensures
        v.mint_spec(funds, pool_balance) == Err::<u128, VaultError>(VaultError::ArithmeticOverflow),
{
}

/// With shares outstanding, burning more shares than the holder has fails
/// with `InsufficientShareBalance`.
pub proof fn lemma_burn_beyond_balance_fails(
    v: VaultState,
    h: Seq<char>,
    shares: u128,
    pool_balance: u128,
)
    requires
        v.wf(),
        v.total_supply_spec() > 0,
        shares > v.balance_spec(h),
    ensures
        v.burn_spec(h, shares, pool_balance) == Err::<u128, VaultError>(
            VaultError::InsufficientShareBalance,
        ),
{
}

} // verus!
