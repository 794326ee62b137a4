//! Ownership governance: one open proposal at a time, voted on by sending a
//! voting token to the contract, resolved by the contract's token balance.
//!
//! Times are block times in nanoseconds; the voting window is in seconds.
use vstd::prelude::*;

verus! {

/// Nanoseconds in one second.
pub const NANOS_PER_SECOND: u64 = 1_000_000_000;

/// Why a governance operation failed. A failure changes nothing.
#[derive(Debug, Clone, Copy, PartialEq, Eq, Structural)]
pub enum GovernanceError {
    /// The sender may not do this.
    Unauthorized,
    /// The proposal's voting window has closed.
    VotingWindowClosed,
    /// A proposal is already open.
    ProposalAlreadyExists,
    /// The proposal can no longer be resolved.
    ProposalNotReady,
    /// No proposal is open.
    NoProposal,
    /// A token hook carried a message other than a vote.
    UnrecognizedHook,
}

/// The message carried by a token transfer into the contract.
#[derive(Debug, Clone, Copy, PartialEq, Eq, Structural)]
pub enum Hook {
    CastVote,
    Unrecognized,
}

/// The encoding of a vote in a token hook: the JSON text `{"cast_vote":{}}`.
pub open spec fn cast_vote_bytes() -> Seq<u8> {
    seq![123u8, 34, 99, 97, 115, 116, 95, 118, 111, 116, 101, 34, 58, 123, 125, 125]
}

/// Reads the message carried by a token hook: a vote exactly when the bytes
/// are the vote's encoding, anything else unrecognized.
pub fn parse_hook(msg: &[u8]) -> (r: Hook)
    ensures
        r == (if msg@ == cast_vote_bytes() {
            Hook::CastVote
        } else {
            Hook::Unrecognized
        }),
{
    let expected: Vec<u8> = vec![123u8, 34, 99, 97, 115, 116, 95, 118, 111, 116, 101, 34, 58, 123, 125, 125];
    assert(expected@ =~= cast_vote_bytes());
    if msg.len() != expected.len() {
        return Hook::Unrecognized;
    }
    let mut i: usize = 0;
    while i < msg.len()
        invariant
            msg@.len() == expected@.len(),
            expected@ == cast_vote_bytes(),
            i <= msg@.len(),
            forall|j: int| 0 <= j < i ==> msg@[j] == expected@[j],
        decreases msg@.len() - i,
    {
        if msg[i] != expected[i] {
            return Hook::Unrecognized;
        }
        i = i + 1;
    }
    assert(msg@ =~= expected@);
    Hook::CastVote
}

/// How a resolved proposal ended.
#[derive(Debug, Clone, Copy, PartialEq, Eq, Structural)]
pub enum Outcome {
    Passed,
    Failed,
}

/// An open proposal: who proposed themselves as owner, and when.
pub struct Proposal {
    pub proposer: String,
    pub timestamp: u64,
}

/// The block time after which voting on a proposal made at `timestamp` is closed.
pub open spec fn deadline(timestamp: u64, window: u64) -> int {
    timestamp + window * NANOS_PER_SECOND
}

/// `deadline(timestamp, window) < now`, without overflow.
fn deadline_passed(timestamp: u64, window: u64, now: u64) -> (r: bool)
    ensures
        r == (deadline(timestamp, window) < now),
{
    if now <= timestamp {
        return false;
    }
    let elapsed: u64 = now - timestamp;
    match window.checked_mul(NANOS_PER_SECOND) {
        Some(w) => w < elapsed,
        None => false,
    }
}

/// The governance state: voting window, voting token, owner and open proposal.
pub struct Governance {
    voting_window: u64,
    voting_token: String,
    owner: String,
    proposal: Option<Proposal>,
}

impl Governance {
    /// The voting window, in seconds.
    pub closed spec fn window_spec(&self) -> u64 {
        self.voting_window
    }

    /// The address of the voting token.
    pub closed spec fn token_spec(&self) -> Seq<char> {
        self.voting_token@
    }

    /// The current owner.
    pub closed spec fn owner_spec(&self) -> Seq<char> {
        self.owner@
    }

    /// The open proposal, as proposer and time.
    pub closed spec fn proposal_spec(&self) -> Option<(Seq<char>, u64)> {
        match self.proposal {
            Some(p) => Some((p.proposer@, p.timestamp)),
            None => None,
        }
    }

    /// Governance with no open proposal.
    pub fn instantiate(voting_window: u64, voting_token: String, owner: String) -> (r: Governance)
        ensures
            r.window_spec() == voting_window,
            r.token_spec() == voting_token@,
            r.owner_spec() == owner@,
            r.proposal_spec() is None,
    {
        Governance { voting_window, voting_token, owner, proposal: None }
    }

    /// The voting window, in seconds.
    pub fn voting_window(&self) -> (r: u64)
        ensures
            r == self.window_spec(),
    {
        self.voting_window
    }

    /// The address of the voting token.
    pub fn voting_token(&self) -> (r: &String)
        ensures
            r@ == self.token_spec(),
    {
        &self.voting_token
    }

    /// The current owner.
    pub fn owner(&self) -> (r: &String)
        ensures
            r@ == self.owner_spec(),
    {
        &self.owner
    }

    /// The open proposal's proposer and time, if any.
    pub fn query_proposal(&self) -> (r: Option<(String, u64)>)
        ensures
            match r {
                Some((p, t)) => self.proposal_spec() == Some((p@, t)),
                None => self.proposal_spec() is None,
            },
    {
        match &self.proposal {
            Some(p) => Some((p.proposer.clone(), p.timestamp)),
            None => None,
        }
    }

    /// Opens a proposal that makes `sender` the owner, made at `now`.
    /// Fails while another proposal is open.
    pub fn propose(&mut self, sender: &String, now: u64) -> (r: Result<(), GovernanceError>)
        ensures
            old(self).proposal_spec() is Some ==> r == Err::<(), GovernanceError>(
                GovernanceError::ProposalAlreadyExists,
            ) && *final(self) == *old(self),
            old(self).proposal_spec() is None ==> r is Ok && final(self).proposal_spec() == Some(
                (sender@, now),
            ),
            final(self).window_spec() == old(self).window_spec(),
            final(self).token_spec() == old(self).token_spec(),
            final(self).owner_spec() == old(self).owner_spec(),
    {
        if self.proposal.is_some() {
            return Err(GovernanceError::ProposalAlreadyExists);
        }
        self.proposal = Some(Proposal { proposer: sender.clone(), timestamp: now });
        Ok(())
    }

    /// What receiving a token transfer with `hook` from `sender` at `now` yields.
    pub open spec fn receive_spec(&self, sender: Seq<char>, hook: Hook, now: u64) -> Result<
        (),
        GovernanceError,
    > {
        match self.proposal_spec() {
            None => Err(GovernanceError::NoProposal),
            Some((_, timestamp)) => match hook {
                Hook::Unrecognized => Err(GovernanceError::UnrecognizedHook),
                Hook::CastVote => if sender != self.token_spec() {
                    Err(GovernanceError::Unauthorized)
                } else if deadline(timestamp, self.window_spec()) < now {
                    Err(GovernanceError::VotingWindowClosed)
                } else {
                    Ok(())
                },
            },
        }
    }

    /// Accepts a vote carried by a transfer of the voting token, reported by
    /// `sender` at `now`. Only the voting token itself may report a vote, only
    /// while a proposal is open and its window has not closed; any other
    /// message is refused.
    pub fn receive_vote(&self, sender: &String, hook: Hook, now: u64) -> (r: Result<
        (),
        GovernanceError,
    >)
        ensures
            r == self.receive_spec(sender@, hook, now),
    {
        match &self.proposal {
            None => Err(GovernanceError::NoProposal),
            Some(p) => match hook {
                Hook::Unrecognized => Err(GovernanceError::UnrecognizedHook),
                Hook::CastVote => {
                    if *sender != self.voting_token {
                        Err(GovernanceError::Unauthorized)
                    } else if deadline_passed(p.timestamp, self.voting_window, now) {
                        Err(GovernanceError::VotingWindowClosed)
                    } else {
                        Ok(())
                    }
                },
            },
        }
    }

    /// Resolves the open proposal at `now`, given the contract's balance of
    /// the voting token and the token's total supply. The proposal passes when
    /// the balance is at least a third of the supply (rounded down): its
    /// proposer becomes the owner and the proposal stays. Otherwise it fails
    /// and is removed.
    pub fn resolve_proposal(&mut self, now: u64, balance: u128, total_supply: u128) -> (r: Result<
        Outcome,
        GovernanceError,
    >)
        ensures
            final(self).window_spec() == old(self).window_spec(),
            final(self).token_spec() == old(self).token_spec(),
            match old(self).proposal_spec() {
                None => r == Err::<Outcome, GovernanceError>(GovernanceError::NoProposal)
                    && *final(self) == *old(self),
                Some((proposer, timestamp)) => if deadline(timestamp, old(self).window_spec())
                    < now {
                    r == Err::<Outcome, GovernanceError>(GovernanceError::ProposalNotReady)
                        && *final(self) == *old(self)
                } else if balance >= total_supply / 3 {
                    &&& r == Ok::<Outcome, GovernanceError>(Outcome::Passed)
                    &&& final(self).owner_spec() == proposer
                    &&& final(self).proposal_spec() == old(self).proposal_spec()
                } else {
                    &&& r == Ok::<Outcome, GovernanceError>(Outcome::Failed)
                    &&& final(self).owner_spec() == old(self).owner_spec()
                    &&& final(self).proposal_spec() is None
                },
            },
    {
        let (passed, proposer) = match &self.proposal {
            None => return Err(GovernanceError::NoProposal),
            Some(p) => {
                if deadline_passed(p.timestamp, self.voting_window, now) {
                    return Err(GovernanceError::ProposalNotReady);
                }
                (balance >= total_supply / 3, p.proposer.clone())
            },
        };
        if passed {
            self.owner = proposer;
            Ok(Outcome::Passed)
        } else {
            self.proposal = None;
            Ok(Outcome::Failed)
        }
    }

    /// Allows `sender` to act as owner only when it is the owner.
    pub fn owner_action(&self, sender: &String) -> (r: Result<(), GovernanceError>)
        ensures
            r is Ok <==> sender@ == self.owner_spec(),
            r is Err ==> r == Err::<(), GovernanceError>(GovernanceError::Unauthorized),
    {
        if *sender == self.owner {
            Ok(())
        } else {
            Err(GovernanceError::Unauthorized)
        }
    }
}

} // verus!
