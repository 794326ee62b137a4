//! The share ledgers: total supply and per-holder balances.
use crate::error::VaultError;
use vstd::prelude::*;

verus! {

/// Total shares outstanding.
pub struct SupplyLedger {
    total: u128,
}

impl SupplyLedger {
    /// Shares outstanding.
    pub closed spec fn total_spec(&self) -> u128 {
        self.total
    }

    /// An empty ledger.
    pub fn new() -> (r: SupplyLedger)
        ensures
            r.total_spec() == 0,
    {
        SupplyLedger { total: 0 }
    }

    /// Shares outstanding.
    pub fn total(&self) -> (r: u128)
        ensures
            r == self.total_spec(),
    {
        self.total
    }

    /// Adds `amount` shares; fails without change when the sum overflows.
    pub fn increase(&mut self, amount: u128) -> (r: Result<(), VaultError>)
        ensures
            old(self).total_spec() + amount <= u128::MAX ==> r is Ok && final(self).total_spec()
                == old(self).total_spec() + amount,
            old(self).total_spec() + amount > u128::MAX ==> r == Err::<(), VaultError>(
                VaultError::ArithmeticOverflow,
            ) && *final(self) == *old(self),
    {
        match self.total.checked_add(amount) {
            Some(t) => {
                self.total = t;
                Ok(())
            },
            None => Err(VaultError::ArithmeticOverflow),
        }
    }

    /// Removes `amount` shares; fails without change when fewer are outstanding.
    pub fn decrease(&mut self, amount: u128) -> (r: Result<(), VaultError>)
        ensures
            amount <= old(self).total_spec() ==> r is Ok && final(self).total_spec()
                == old(self).total_spec() - amount,
            amount > old(self).total_spec() ==> r == Err::<(), VaultError>(
                VaultError::ArithmeticUnderflow,
            ) && *final(self) == *old(self),
    {
        match self.total.checked_sub(amount) {
            Some(t) => {
                self.total = t;
                Ok(())
            },
            None => Err(VaultError::ArithmeticUnderflow),
        }
    }
}

/// One holder's share balance.
#[derive(Debug, Clone)]
pub struct HolderAccount {
    pub holder: String,
    pub shares: u128,
}

/// No holder appears twice.
pub open spec fn holders_unique(s: Seq<HolderAccount>) -> bool {
    forall|i: int, j: int| 0 <= i < j < s.len() ==> s[i].holder@ != s[j].holder@
}

/// The balance recorded for `h`, zero when it has no account.
pub open spec fn balance_in(s: Seq<HolderAccount>, h: Seq<char>) -> int
    decreases s.len(),
{
    if s.len() == 0 {
        0
    } else if s.last().holder@ == h {
        s.last().shares as int
    } else {
        balance_in(s.drop_last(), h)
    }
}

/// The sum of all recorded balances.
pub open spec fn sum_shares(s: Seq<HolderAccount>) -> int
    decreases s.len(),
{
    if s.len() == 0 {
        0
    } else {
        sum_shares(s.drop_last()) + s.last().shares
    }
}

/// `s` with the balance at `i` set to `v`, its holder kept.
pub open spec fn with_shares(s: Seq<HolderAccount>, i: int, v: u128) -> Seq<HolderAccount> {
    s.update(i, HolderAccount { holder: s[i].holder, shares: v })
}

proof fn lemma_sum_with_shares(s: Seq<HolderAccount>, i: int, v: u128)
    requires
        0 <= i < s.len(),
    ensures
        sum_shares(with_shares(s, i, v)) == sum_shares(s) - s[i].shares + v,
    decreases s.len(),
{
    let t = with_shares(s, i, v);
    if i == s.len() - 1 {
        assert(t.drop_last() =~= s.drop_last());
    } else {
        assert(t.drop_last() =~= with_shares(s.drop_last(), i, v));
        lemma_sum_with_shares(s.drop_last(), i, v);
    }
}

proof fn lemma_balance_absent(s: Seq<HolderAccount>, h: Seq<char>)
    requires
        forall|j: int| 0 <= j < s.len() ==> s[j].holder@ != h,
    ensures
        balance_in(s, h) == 0,
    decreases s.len(),
{
    if s.len() > 0 {
        lemma_balance_absent(s.drop_last(), h);
    }
}

proof fn lemma_balance_at(s: Seq<HolderAccount>, i: int)
    requires
        holders_unique(s),
        0 <= i < s.len(),
    ensures
        balance_in(s, s[i].holder@) == s[i].shares,
    decreases s.len(),
{
    if i < s.len() - 1 {
        lemma_balance_at(s.drop_last(), i);
    }
}

proof fn lemma_balance_with_shares(s: Seq<HolderAccount>, i: int, v: u128, h: Seq<char>)
    requires
        holders_unique(s),
        0 <= i < s.len(),
    ensures
        balance_in(with_shares(s, i, v), h) == if h == s[i].holder@ {
            v as int
        } else {
            balance_in(s, h)
        },
    decreases s.len(),
{
    let t = with_shares(s, i, v);
    if i == s.len() - 1 {
        assert(t.drop_last() =~= s.drop_last());
    } else {
        assert(t.drop_last() =~= with_shares(s.drop_last(), i, v));
        lemma_balance_with_shares(s.drop_last(), i, v, h);
    }
}

proof fn lemma_balance_le_sum(s: Seq<HolderAccount>, h: Seq<char>)
    ensures
        0 <= balance_in(s, h) <= sum_shares(s),
    decreases s.len(),
{
    if s.len() > 0 {
        lemma_balance_le_sum(s.drop_last(), h);
    }
}

/// Every holder's share balance. A holder with no account holds zero.
pub struct HolderLedger {
    accounts: Vec<HolderAccount>,
}

impl HolderLedger {
    /// The recorded accounts, in the order they were opened.
    pub closed spec fn accounts_spec(&self) -> Seq<HolderAccount> {
        self.accounts@
    }

    /// No holder has two accounts.
    pub open spec fn wf(&self) -> bool {
        holders_unique(self.accounts_spec())
    }

    /// The share balance of `h`.
    pub open spec fn balance_spec(&self, h: Seq<char>) -> int {
        balance_in(self.accounts_spec(), h)
    }

    /// The sum of all balances.
    pub open spec fn sum_spec(&self) -> int {
        sum_shares(self.accounts_spec())
    }

    /// An empty ledger.
    pub fn new() -> (r: HolderLedger)
        ensures
            r.wf(),
            r.sum_spec() == 0,
            forall|h: Seq<char>| r.balance_spec(h) == 0,
    {
        HolderLedger { accounts: Vec::new() }
    }

    /// No balance exceeds the sum of all balances.
    pub proof fn lemma_balance_le_sum(&self, h: Seq<char>)
        ensures
            0 <= self.balance_spec(h) <= self.sum_spec(),
    {
        lemma_balance_le_sum(self.accounts_spec(), h);
    }

    /// The position of `holder`'s account, if it has one.
    fn find(&self, holder: &String) -> (r: Option<usize>)
        requires
            self.wf(),
        ensures
            match r {
                Some(i) => i < self.accounts_spec().len() && self.accounts_spec()[i as int].holder@
                    == holder@,
                None => forall|j: int|
                    0 <= j < self.accounts_spec().len() ==> self.accounts_spec()[j].holder@
                        != holder@,
            },
    {
        let mut i: usize = 0;
        while i < self.accounts.len()
            invariant
                i <= self.accounts@.len(),
                forall|j: int| 0 <= j < i ==> self.accounts@[j].holder@ != holder@,
            decreases self.accounts@.len() - i,
        {
            if self.accounts[i].holder == *holder {
                return Some(i);
            }
            i = i + 1;
        }
        None
    }

    /// The share balance of `holder`.
    pub fn balance_of(&self, holder: &String) -> (r: u128)
        requires
            self.wf(),
        ensures
            r == self.balance_spec(holder@),
    {
        match self.find(holder) {
            Some(i) => {
                proof {
                    lemma_balance_at(self.accounts_spec(), i as int);
                }
                self.accounts[i].shares
            },
            None => {
                proof {
                    lemma_balance_absent(self.accounts_spec(), holder@);
                }
                0
            },
        }
    }

    /// Adds `amount` to `holder`'s balance, opening its account if needed.
    /// Fails without change when the balance would overflow.
    pub fn credit(&mut self, holder: &String, amount: u128) -> (r: Result<(), VaultError>)
        requires
            old(self).wf(),
        ensures
            final(self).wf(),
            old(self).balance_spec(holder@) + amount <= u128::MAX ==> r is Ok
                && final(self).sum_spec() == old(self).sum_spec() + amount && forall|h: Seq<char>|
                final(self).balance_spec(h) == if h == holder@ {
                    old(self).balance_spec(h) + amount
                } else {
                    old(self).balance_spec(h)
                },
            old(self).balance_spec(holder@) + amount > u128::MAX ==> r == Err::<(), VaultError>(
                VaultError::ArithmeticOverflow,
            ) && *final(self) == *old(self),
    {
        let ghost s = self.accounts@;
        match self.find(holder) {
            Some(i) => {
                proof {
                    lemma_balance_at(s, i as int);
                }
                match self.accounts[i].shares.checked_add(amount) {
                    None => Err(VaultError::ArithmeticOverflow),
                    Some(v) => {
                        let name = self.accounts[i].holder.clone();
                        self.accounts.set(i, HolderAccount { holder: name, shares: v });
                        proof {
                            assert(self.accounts@ =~= with_shares(s, i as int, v));
                            lemma_sum_with_shares(s, i as int, v);
                            assert forall|h: Seq<char>|
                                self.balance_spec(h) == if h == holder@ {
                                    balance_in(s, h) + amount
                                } else {
                                    balance_in(s, h)
                                } by {
                                lemma_balance_with_shares(s, i as int, v, h);
                            }
                        }
                        Ok(())
                    },
                }
            },
            None => {
                proof {
                    lemma_balance_absent(s, holder@);
                }
                self.accounts.push(HolderAccount { holder: holder.clone(), shares: amount });
                proof {
                    assert(self.accounts@.drop_last() =~= s);
                }
                Ok(())
            },
        }
    }

    /// Takes `amount` from `holder`'s balance; fails without change with
    /// `InsufficientShareBalance` when it holds less.
    pub fn debit(&mut self, holder: &String, amount: u128) -> (r: Result<(), VaultError>)
        requires
            old(self).wf(),
        ensures
            final(self).wf(),
            amount <= old(self).balance_spec(holder@) ==> r is Ok && final(self).sum_spec()
                == old(self).sum_spec() - amount && forall|h: Seq<char>|
                final(self).balance_spec(h) == if h == holder@ {
                    old(self).balance_spec(h) - amount
                } else {
                    old(self).balance_spec(h)
                },
            amount > old(self).balance_spec(holder@) ==> r == Err::<(), VaultError>(
                VaultError::InsufficientShareBalance,
            ) && *final(self) == *old(self),
    {
        let ghost s = self.accounts@;
        match self.find(holder) {
            Some(i) => {
                proof {
                    lemma_balance_at(s, i as int);
                }
                if amount > self.accounts[i].shares {
                    return Err(VaultError::InsufficientShareBalance);
                }
                let v = self.accounts[i].shares - amount;
                let name = self.accounts[i].holder.clone();
                self.accounts.set(i, HolderAccount { holder: name, shares: v });
                proof {
                    assert(self.accounts@ =~= with_shares(s, i as int, v));
                    lemma_sum_with_shares(s, i as int, v);
                    assert forall|h: Seq<char>|
                        self.balance_spec(h) == if h == holder@ {
                            balance_in(s, h) - amount
                        } else {
                            balance_in(s, h)
                        } by {
                        lemma_balance_with_shares(s, i as int, v, h);
                    }
                }
                Ok(())
            },
            None => {
                proof {
                    lemma_balance_absent(s, holder@);
                }
                if amount == 0 {
                    proof {
                        assert forall|h: Seq<char>|
                            self.balance_spec(h) == balance_in(s, h) - amount by {}
                    }
                    Ok(())
                } else {
                    Err(VaultError::InsufficientShareBalance)
                }
            },
        }
    }
}

} // verus!
