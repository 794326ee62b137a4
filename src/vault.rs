//! The vault service: minting shares for deposits and burning shares for payouts.
//!
//! Burning prices shares against the pool's balance as the bank reports it,
//! not against a ledger of deposits kept here. Assets sent to the pool without
//! minting therefore raise the value of every outstanding share, and a holder
//! who sends them just before burning captures part of that rise. This is the
//! rate the vault is defined by; closing it would mean tracking deposits minus
//! withdrawals here and pricing burns against that sum instead.
use crate::error::VaultError;
use crate::ledger::{HolderLedger, SupplyLedger};
use crate::payment::{paid_amount, paid_spec, Payment};
use crate::rate::{assets_to_return, assets_to_return_spec, shares_to_mint, shares_to_mint_spec};
use vstd::prelude::*;

verus! {

/// An instruction to send `amount` of `denom` to `to`.
#[derive(Debug, Clone)]
pub struct Payout {
    pub to: String,
    pub denom: String,
    pub amount: u128,
}

/// A single-asset vault: the asset's denomination and the two share ledgers.
///
/// The pool's asset total is not stored: every operation is handed the total
/// that the balance authority reports at that moment.
pub struct VaultState {
    denom: String,
    supply: SupplyLedger,
    holders: HolderLedger,
}

impl VaultState {
    /// The denomination of the pooled asset.
    pub closed spec fn denom_spec(&self) -> Seq<char> {
        self.denom@
    }

    /// The supply ledger.
    pub closed spec fn supply_spec(&self) -> SupplyLedger {
        self.supply
    }

    /// The holder ledger.
    pub closed spec fn holders_spec(&self) -> HolderLedger {
        self.holders
    }

    /// Shares outstanding.
    pub open spec fn total_supply_spec(&self) -> u128 {
        self.supply_spec().total_spec()
    }

    /// The share balance of holder `h`.
    pub open spec fn balance_spec(&self, h: Seq<char>) -> int {
        self.holders_spec().balance_spec(h)
    }

    /// The ledgers agree: shares outstanding equal the sum of all balances.
    pub open spec fn wf(&self) -> bool {
        &&& self.holders_spec().wf()
        &&& self.total_supply_spec() == self.holders_spec().sum_spec()
    }

    /// What minting for `funds` yields when the pool reports `pool_balance`,
    /// a total that already includes the deposit.
    pub open spec fn mint_spec(&self, funds: Seq<Payment>, pool_balance: u128) -> Result<
        u128,
        VaultError,
    > {
        match paid_spec(funds, self.denom_spec()) {
            None => Err(VaultError::InvalidDeposit),
            Some(amount) => if pool_balance < amount {
                Err(VaultError::ArithmeticUnderflow)
            } else {
                match shares_to_mint_spec(
                    amount,
                    self.total_supply_spec(),
                    (pool_balance - amount) as u128,
                ) {
                    Err(e) => Err(e),
                    Ok(m) => if self.total_supply_spec() + m > u128::MAX {
                        Err(VaultError::ArithmeticOverflow)
                    } else {
                        Ok(m)
                    },
                }
            },
        }
    }

    /// What burning `shares` of holder `h` pays out when the pool reports
    /// `pool_balance`.
    pub open spec fn burn_spec(&self, h: Seq<char>, shares: u128, pool_balance: u128) -> Result<
        u128,
        VaultError,
    > {
        if self.total_supply_spec() == 0 {
            Err(VaultError::ZeroSupply)
        } else if shares == 0 || shares > self.balance_spec(h) {
            Err(VaultError::InsufficientShareBalance)
        } else {
            assets_to_return_spec(shares, self.total_supply_spec(), pool_balance)
        }
    }

    /// A vault for the asset `denom`, with no shares outstanding.
    pub fn instantiate(denom: String) -> (r: VaultState)
        ensures
            r.wf(),
            r.denom_spec() == denom@,
            r.total_supply_spec() == 0,
            forall|h: Seq<char>| r.balance_spec(h) == 0,
    {
        VaultState { denom, supply: SupplyLedger::new(), holders: HolderLedger::new() }
    }

    /// The denomination of the pooled asset.
    pub fn denom(&self) -> (r: &String)
        ensures
            r@ == self.denom_spec(),
    {
        &self.denom
    }

    /// Shares outstanding.
    pub fn total_supply(&self) -> (r: u128)
        ensures
            r == self.total_supply_spec(),
    {
        self.supply.total()
    }

    /// The share balance of `holder`; zero for a holder never seen.
    pub fn balance_of(&self, holder: &String) -> (r: u128)
        requires
            self.wf(),
        ensures
            r == self.balance_spec(holder@),
    {
        self.holders.balance_of(holder)
    }

    /// Mints shares to `sender` for the deposit `funds`.
    ///
    /// `pool_balance` is the pool's asset total as observed after the deposit
    /// arrived; the deposit is subtracted back out to price it against the
    /// pool as it stood before. Returns the number of shares minted.
    pub fn mint(&mut self, sender: &String, funds: &Vec<Payment>, pool_balance: u128) -> (r:
        Result<u128, VaultError>)
        requires
            old(self).wf(),
        ensures
            final(self).wf(),
            r == old(self).mint_spec(funds@, pool_balance),
            final(self).denom_spec() == old(self).denom_spec(),
            match r {
                Ok(m) => {
                    &&& final(self).total_supply_spec() == old(self).total_supply_spec() + m
                    &&& forall|h: Seq<char>|
                        final(self).balance_spec(h) == if h == sender@ {
                            old(self).balance_spec(h) + m
                        } else {
                            old(self).balance_spec(h)
                        }
                },
                Err(_) => *final(self) == *old(self),
            },
    {
        let amount = match paid_amount(funds, self.denom.as_str()) {
            None => return Err(VaultError::InvalidDeposit),
            Some(a) => a,
        };
        if pool_balance < amount {
            return Err(VaultError::ArithmeticUnderflow);
        }
        let supply = self.supply.total();
        let minted = match shares_to_mint(amount, supply, pool_balance - amount) {
            Err(e) => return Err(e),
            Ok(m) => m,
        };
        if supply > u128::MAX - minted {
            return Err(VaultError::ArithmeticOverflow);
        }
        proof {
            self.holders.lemma_balance_le_sum(sender@);
        }
        match self.supply.increase(minted) {
            Ok(()) => {},
            Err(e) => return Err(e),
        }
        match self.holders.credit(sender, minted) {
            Ok(()) => {},
            Err(e) => return Err(e),
        }
        Ok(minted)
    }

    /// Burns `shares` of `sender` and returns the payout owed for them.
    ///
    /// `pool_balance` is the pool's asset total as observed now. The ledgers
    /// change before the payout is handed back; the caller issues it, and on
    /// failure to do so must discard this state.
    pub fn burn(&mut self, sender: &String, shares: u128, pool_balance: u128) -> (r: Result<
        Payout,
        VaultError,
    >)
        requires
            old(self).wf(),
        ensures
            final(self).wf(),
            final(self).denom_spec() == old(self).denom_spec(),
            match r {
                Ok(p) => {
                    &&& old(self).burn_spec(sender@, shares, pool_balance) == Ok::<u128, VaultError>(
                        p.amount,
                    )
                    &&& p.to@ == sender@
                    &&& p.denom@ == old(self).denom_spec()
                    &&& final(self).total_supply_spec() == old(self).total_supply_spec() - shares
                    &&& forall|h: Seq<char>|
                        final(self).balance_spec(h) == if h == sender@ {
                            old(self).balance_spec(h) - shares
                        } else {
                            old(self).balance_spec(h)
                        }
                },
                Err(e) => {
                    &&& old(self).burn_spec(sender@, shares, pool_balance) == Err::<u128, VaultError>(
                        e,
                    )
                    &&& *final(self) == *old(self)
                },
            },
    {
        let supply = self.supply.total();
        if supply == 0 {
            return Err(VaultError::ZeroSupply);
        }
        let held = self.holders.balance_of(sender);
        if shares == 0 || shares > held {
            return Err(VaultError::InsufficientShareBalance);
        }
        let amount = match assets_to_return(shares, supply, pool_balance) {
            Err(e) => return Err(e),
            Ok(a) => a,
        };
        proof {
            self.holders.lemma_balance_le_sum(sender@);
        }
        match self.supply.decrease(shares) {
            Ok(()) => {},
            Err(e) => return Err(e),
        }
        match self.holders.debit(sender, shares) {
            Ok(()) => {},
            Err(e) => return Err(e),
        }
        Ok(Payout { to: sender.clone(), denom: self.denom.clone(), amount })
    }
}

} // verus!
