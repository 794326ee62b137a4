//! Time-locked deposits: each deposit is locked for a fixed period under an
//! id, and its owner withdraws one or more released lockups at once.
//!
//! Times are block times in nanoseconds.
use crate::payment::{paid_amount, paid_spec, Payment};
use std::collections::HashMap;
use vstd::prelude::*;
use vstd::std_specs::hash::group_hash_axioms;

verus! {

broadcast use group_hash_axioms;

/// The smallest amount a lockup may hold.
pub const MINIMUM_DEPOSIT_AMOUNT: u128 = 10_000;

/// How long a deposit stays locked, in seconds.
pub const LOCK_PERIOD: u64 = 86_400;

/// How long a deposit stays locked, in nanoseconds.
pub const LOCK_PERIOD_NANOS: u64 = LOCK_PERIOD * 1_000_000_000;

/// Why a lockup operation failed. A failure changes nothing.
#[derive(Debug, Clone, Copy, PartialEq, Eq, Structural)]
pub enum LockupError {
    /// The payment was not exactly one non-zero amount of the registry's asset.
    InvalidDeposit,
    /// The deposit is below the minimum, or a lockup belongs to someone else
    /// or is not yet released.
    Unauthorized,
    /// No lockup has the id, or it was already named earlier in the request.
    LockupNotFound,
    /// An id, a release time or a total does not fit.
    ArithmeticOverflow,
}

/// A locked deposit.
pub struct Lockup {
    pub id: u64,
    pub owner: String,
    pub amount: u128,
    pub release_timestamp: u64,
}

/// What withdrawing `ids` in order yields from the lockups `m`, with `acc`
/// already collected: each id must name a lockup still present, owned by
/// `sender` and released by `now`; it is then removed and its amount added.
pub open spec fn withdraw_from(
    m: Map<u64, Lockup>,
    ids: Seq<u64>,
    sender: Seq<char>,
    now: u64,
    acc: int,
) -> Result<int, LockupError>
    decreases ids.len(),
{
    if ids.len() == 0 {
        Ok(acc)
    } else if !m.contains_key(ids[0]) {
        Err(LockupError::LockupNotFound)
    } else if m[ids[0]].owner@ != sender || now < m[ids[0]].release_timestamp {
        Err(LockupError::Unauthorized)
    } else if acc + m[ids[0]].amount > u128::MAX {
        Err(LockupError::ArithmeticOverflow)
    } else {
        withdraw_from(m.remove(ids[0]), ids.drop_first(), sender, now, acc + m[ids[0]].amount)
    }
}

/// Whether `v` holds `id`.
fn contains_id(v: &Vec<u64>, id: u64) -> (r: bool)
    ensures
        r == v@.contains(id),
{
    let mut i: usize = 0;
    while i < v.len()
        invariant
            i <= v@.len(),
            forall|j: int| 0 <= j < i ==> v@[j] != id,
        decreases v@.len() - i,
    {
        if v[i] == id {
            return true;
        }
        i = i + 1;
    }
    false
}

/// The lockups of one asset, keyed by id.
pub struct LockupRegistry {
    denom: String,
    next_id: u64,
    lockups: HashMap<u64, Lockup>,
}

impl LockupRegistry {
    /// The denomination of the locked asset.
    pub closed spec fn denom_spec(&self) -> Seq<char> {
        self.denom@
    }

    /// The id the next deposit receives.
    pub closed spec fn next_id_spec(&self) -> u64 {
        self.next_id
    }

    /// The lockups, by id.
    pub closed spec fn lockups_spec(&self) -> Map<u64, Lockup> {
        self.lockups@
    }

    /// Each lockup is stored under its own id, and every id is below the next.
    pub open spec fn wf(&self) -> bool {
        &&& self.next_id_spec() >= 1
        &&& forall|k: u64| #[trigger]
            self.lockups_spec().contains_key(k) ==> self.lockups_spec()[k].id == k && k
                < self.next_id_spec()
    }

    /// An empty registry for the asset `denom`; the first id is 1.
    pub fn instantiate(denom: String) -> (r: LockupRegistry)
        ensures
            r.wf(),
            r.denom_spec() == denom@,
            r.next_id_spec() == 1,
            r.lockups_spec() == Map::<u64, Lockup>::empty(),
    {
        LockupRegistry { denom, next_id: 1, lockups: HashMap::new() }
    }

    /// The lockup with `id`, if any.
    pub fn get_lockup(&self, id: u64) -> (r: Option<&Lockup>)
        ensures
            match r {
                Some(l) => self.lockups_spec().contains_key(id) && *l == self.lockups_spec()[id],
                None => !self.lockups_spec().contains_key(id),
            },
    {
        self.lockups.get(&id)
    }

    /// Locks the deposit `funds` of `sender` at `now` and returns its id.
    ///
    /// The deposit must be exactly one payment in the registry's asset, of at
    /// least the minimum amount; it is released a lock period after `now`.
    pub fn deposit(&mut self, sender: &String, funds: &Vec<Payment>, now: u64) -> (r: Result<
        u64,
        LockupError,
    >)
        requires
            old(self).wf(),
        ensures
            final(self).wf(),
            final(self).denom_spec() == old(self).denom_spec(),
            match paid_spec(funds@, old(self).denom_spec()) {
                None => r == Err::<u64, LockupError>(LockupError::InvalidDeposit),
                Some(amount) => if amount < MINIMUM_DEPOSIT_AMOUNT {
                    r == Err::<u64, LockupError>(LockupError::Unauthorized)
                } else if now + LOCK_PERIOD_NANOS > u64::MAX || old(self).next_id_spec()
                    == u64::MAX {
                    r == Err::<u64, LockupError>(LockupError::ArithmeticOverflow)
                } else {
                    &&& r == Ok::<u64, LockupError>(old(self).next_id_spec())
                    &&& final(self).next_id_spec() == old(self).next_id_spec() + 1
                    &&& final(self).lockups_spec() == old(self).lockups_spec().insert(
                        old(self).next_id_spec(),
                        Lockup {
                            id: old(self).next_id_spec(),
                            owner: *sender,
                            amount,
                            release_timestamp: (now + LOCK_PERIOD_NANOS) as u64,
                        },
                    )
                },
            },
            r is Err ==> *final(self) == *old(self),
    {
        let amount = match paid_amount(funds, self.denom.as_str()) {
            None => return Err(LockupError::InvalidDeposit),
            Some(a) => a,
        };
        if amount < MINIMUM_DEPOSIT_AMOUNT {
            return Err(LockupError::Unauthorized);
        }
        let release_timestamp = match now.checked_add(LOCK_PERIOD_NANOS) {
            None => return Err(LockupError::ArithmeticOverflow),
            Some(t) => t,
        };
        let id = self.next_id;
        if id == u64::MAX {
            return Err(LockupError::ArithmeticOverflow);
        }
        self.next_id = id + 1;
        let lock = Lockup { id, owner: sender.clone(), amount, release_timestamp };
        let ghost g = lock;
        self.lockups.insert(id, lock);
        proof {
            assert(self.lockups@ == old(self).lockups@.insert(id, g));
            assert forall|k: u64| #[trigger]
                self.lockups@.contains_key(k) implies self.lockups@[k].id == k && k
                    < self.next_id by {
                if k != id {
                    assert(old(self).lockups@.contains_key(k));
                    assert(old(self).lockups_spec().contains_key(k));
                } else {
                    assert(self.lockups@[k] == g);
                }
            }
        }
        Ok(id)
    }

    /// Withdraws the lockups `ids` of `sender` at `now` and returns the total
    /// to pay out. Each id must name a lockup of `sender` that is released; an
    /// id named twice is not found the second time. All named lockups are
    /// removed, or none.
    pub fn withdraw(&mut self, sender: &String, ids: &Vec<u64>, now: u64) -> (r: Result<
        u128,
        LockupError,
    >)
        requires
            old(self).wf(),
        ensures
            final(self).wf(),
            final(self).denom_spec() == old(self).denom_spec(),
            final(self).next_id_spec() == old(self).next_id_spec(),
            match withdraw_from(old(self).lockups_spec(), ids@, sender@, now, 0) {
                Ok(total) => {
                    &&& r == Ok::<u128, LockupError>(total as u128)
                    &&& final(self).lockups_spec() == old(self).lockups_spec().remove_keys(
                        ids@.to_set(),
                    )
                },
                Err(e) => r == Err::<u128, LockupError>(e) && *final(self) == *old(self),
            },
    {
        let ghost m0 = self.lockups@;
        let ghost mut gm = m0;
        let mut seen: Vec<u64> = Vec::new();
        let mut total: u128 = 0;
        let mut i: usize = 0;
        assert(gm =~= m0.remove_keys(seen@.to_set()));
        assert(ids@.skip(0) =~= ids@);
        while i < ids.len()
            invariant
                *self == *old(self),
                old(self).wf(),
                i <= ids@.len(),
                seen@ == ids@.take(i as int),
                self.lockups@ == m0,
                gm == m0.remove_keys(seen@.to_set()),
                withdraw_from(m0, ids@, sender@, now, 0) == withdraw_from(
                    gm,
                    ids@.skip(i as int),
                    sender@,
                    now,
                    total as int,
                ),
            decreases ids@.len() - i,
        {
            let id = ids[i];
            let ghost rest = ids@.skip(i as int);
            assert(rest[0] == id);
            assert(rest.drop_first() =~= ids@.skip(i + 1));
            if contains_id(&seen, id) {
                assert(!gm.contains_key(id));
                return Err(LockupError::LockupNotFound);
            }
            let lock = match self.lockups.get(&id) {
                None => {
                    assert(!gm.contains_key(id));
                    return Err(LockupError::LockupNotFound);
                },
                Some(l) => l,
            };
            assert(gm.contains_key(id) && gm[id] == *lock);
            if lock.owner != *sender || now < lock.release_timestamp {
                return Err(LockupError::Unauthorized);
            }
            total = match total.checked_add(lock.amount) {
                None => return Err(LockupError::ArithmeticOverflow),
                Some(t) => t,
            };
            proof {
                gm = gm.remove(id);
                assert(ids@.take(i + 1) =~= ids@.take(i as int).push(id));
                seen@.lemma_push_to_set_commute(id);
            }
            seen.push(id);
            i = i + 1;
            proof {
                assert(gm =~= m0.remove_keys(seen@.to_set()));
            }
        }
        assert(ids@.take(ids@.len() as int) =~= ids@);
        assert(ids@.skip(ids@.len() as int) =~= Seq::<u64>::empty());
        let mut j: usize = 0;
        assert(m0.remove_keys(seen@.take(0).to_set()) =~= m0);
        while j < seen.len()
            invariant
                j <= seen@.len(),
                seen@ == ids@,
                self.lockups@ == m0.remove_keys(seen@.take(j as int).to_set()),
                old(self).wf(),
                m0 == old(self).lockups@,
                self.denom == old(self).denom,
                self.next_id == old(self).next_id,
            decreases seen@.len() - j,
        {
            let id = seen[j];
            self.lockups.remove(&id);
            proof {
                assert(seen@.take(j + 1) =~= seen@.take(j as int).push(id));
                seen@.take(j as int).lemma_push_to_set_commute(id);
            }
            j = j + 1;
            proof {
                assert(self.lockups@ =~= m0.remove_keys(seen@.take(j as int).to_set()));
            }
        }
        assert(seen@.take(seen@.len() as int) =~= seen@);
        assert forall|k: u64| #[trigger] self.lockups@.contains_key(k) implies m0.contains_key(k) by {}
        Ok(total)
    }
}

} // verus!
