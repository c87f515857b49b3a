//! Proposals and balance-weighted voting, one vote per participant.
use vstd::prelude::*;
use super::{ContractState, Error, TrustContract, PROPOSAL_PRICE};
use crate::records::{Proposal, ProposalView};

verus! {

/// The weight of a vote cast with balance `b`: the balance, saturated to
/// the range of the tallies.
pub open spec fn vote_weight(b: i128) -> int {
    if b <= 0 {
        0
    } else if b > u32::MAX {
        u32::MAX as int
    } else {
        b as int
    }
}

/// The tally that a vote for (`true`) or against adds to.
pub open spec fn tally(p: ProposalView, in_favor: bool) -> int {
    if in_favor {
        p.votes_for as int
    } else {
        p.votes_against as int
    }
}

impl ContractState {
    /// The first guard of `create_proposal` that fails, if any.
    pub open spec fn proposal_check(self, user: Seq<char>) -> Option<Error> {
        if !self.merchants.contains_key(user) {
            Some(Error::NotFound)
        } else if self.merchants[user].bzr_balance < PROPOSAL_PRICE {
            Some(Error::InsufficientFunds)
        } else if self.proposals.len() >= u32::MAX {
            Some(Error::Overflow)
        } else {
            None
        }
    }

    /// The first guard of `vote` that fails, if any.
    pub open spec fn vote_check(self, user: Seq<char>, id: u32, in_favor: bool) -> Option<Error> {
        if !self.has_proposal(id) {
            Some(Error::NotFound)
        } else if self.ballots.contains((id, user)) {
            Some(Error::AlreadyVoted)
        } else if !self.merchants.contains_key(user) {
            Some(Error::NotFound)
        } else if tally(self.proposals[id - 1], in_favor) + vote_weight(
            self.merchants[user].bzr_balance,
        ) > u32::MAX {
            Some(Error::Overflow)
        } else {
            None
        }
    }

    /// The state after `user` casts a vote on proposal `id`.
    pub open spec fn after_vote(self, user: Seq<char>, id: u32, in_favor: bool) -> ContractState {
        let p = self.proposals[id - 1];
        let w = vote_weight(self.merchants[user].bzr_balance);
        ContractState {
            proposals: self.proposals.update(
                id - 1,
                if in_favor {
                    ProposalView { votes_for: (p.votes_for + w) as u32, ..p }
                } else {
                    ProposalView { votes_against: (p.votes_against + w) as u32, ..p }
                },
            ),
            ballots: self.ballots.insert((id, user)),
            ..self
        }
    }
}

impl TrustContract {
    /// `user` opens a proposal for the proposal price; answers its id.
    pub fn create_proposal(&mut self, user: &String) -> (r: Result<u32, Error>)
        requires
            old(self).well_formed(),
        ensures
            final(self).well_formed(),
            old(self)@.latches(final(self)@),
            old(self)@.windows_stay_closed(final(self)@),
            match old(self)@.proposal_check(user@) {
                Some(e) => r == Err::<u32, Error>(e) && final(self)@ == old(self)@,
                None => r == Ok::<u32, Error>((old(self)@.proposals.len() + 1) as u32)
                    && final(self)@ == (ContractState {
                    proposals: old(self)@.proposals.push(
                        ProposalView {
                            id: (old(self)@.proposals.len() + 1) as u32,
                            creator: user@,
                            votes_for: 0,
                            votes_against: 0,
                        },
                    ),
                    ..old(self)@.with_credit(user@, -PROPOSAL_PRICE)
                }),
            },
    {
        let i = match self.merchant_pos(user) {
            Some(i) => i,
            None => return Err(Error::NotFound),
        };
        if self.recs[i].bzr_balance < PROPOSAL_PRICE {
            return Err(Error::InsufficientFunds);
        }
        if self.proposals.len() >= u32::MAX as usize {
            return Err(Error::Overflow);
        }
        self.adjust_balance(i, -PROPOSAL_PRICE);
        let id = (self.proposals.len() + 1) as u32;
        let ghost old_props = self.proposals@;
        self.proposals.push(Proposal { id, creator: user.clone(), votes_for: 0, votes_against: 0 });
        proof {
            assert(self.proposals@.map_values(|p: Proposal| p@) =~= old_props.map_values(
                |p: Proposal| p@,
            ).push(self.proposals@[old_props.len() as int]@));
        }
        Ok(id)
    }

    /// Whether `user` has voted on proposal `id`.
    fn has_voted(&self, id: u32, user: &String) -> (r: bool)
        requires
            self.well_formed(),
        ensures
            r == self@.ballots.contains((id, user@)),
    {
        let mut k: usize = 0;
        while k < self.ballot_ids.len()
            invariant
                k <= self.ballot_ids@.len(),
                self.ballot_ids@.len() == self.ballot_voters@.len(),
                forall|j: int|
                    0 <= j < k ==> !(#[trigger] self.ballot_ids@[j] == id
                        && self.ballot_voters@[j]@ == user@),
            decreases self.ballot_ids@.len() - k,
        {
            if self.ballot_ids[k] == id && self.ballot_voters[k] == *user {
                assert(self@.ballots.contains((id, user@)));
                return true;
            }
            k = k + 1;
        }
        false
    }

    /// `user` votes on proposal `id` with the weight of their balance.
    pub fn vote(&mut self, user: &String, proposal_id: u32, in_favor: bool) -> (r: Result<
        (),
        Error,
    >)
        requires
            old(self).well_formed(),
        ensures
            final(self).well_formed(),
            old(self)@.latches(final(self)@),
            old(self)@.windows_stay_closed(final(self)@),
            match old(self)@.vote_check(user@, proposal_id, in_favor) {
                Some(e) => r == Err::<(), Error>(e) && final(self)@ == old(self)@,
                None => r is Ok && final(self)@ == old(self)@.after_vote(
                    user@,
                    proposal_id,
                    in_favor,
                ),
            },
    {
        if proposal_id == 0 || proposal_id as usize > self.proposals.len() {
            return Err(Error::NotFound);
        }
        if self.has_voted(proposal_id, user) {
            return Err(Error::AlreadyVoted);
        }
        let i = match self.merchant_pos(user) {
            Some(i) => i,
            None => return Err(Error::NotFound),
        };
        let b = self.recs[i].bzr_balance;
        let weight: u32 = if b <= 0 {
            0
        } else if b > u32::MAX as i128 {
            u32::MAX
        } else {
            b as u32
        };
        let p = (proposal_id - 1) as usize;
        let current = if in_favor {
            self.proposals[p].votes_for
        } else {
            self.proposals[p].votes_against
        };
        if current > u32::MAX - weight {
            return Err(Error::Overflow);
        }
        let ghost pre = self@;
        let ghost old_props = self.proposals@;
        if in_favor {
            self.proposals[p].votes_for = current + weight;
        } else {
            self.proposals[p].votes_against = current + weight;
        }
        let ghost old_ids = self.ballot_ids@;
        let ghost old_voters = self.ballot_voters@;
        self.ballot_ids.push(proposal_id);
        self.ballot_voters.push(user.clone());
        proof {
            assert(self.proposals@ =~= old_props.update(p as int, self.proposals@[p as int]));
            assert(self@.proposals =~= pre.after_vote(user@, proposal_id, in_favor).proposals);
            let n = old_ids.len() as int;
            assert(self.ballot_ids@[n] == proposal_id && self.ballot_voters@[n]@ == user@);
            assert forall|q: (u32, Seq<char>)| #[trigger]
                self@.ballots.contains(q) == pre.ballots.insert((proposal_id, user@)).contains(
                    q,
                ) by {
                if self@.ballots.contains(q) && q != (proposal_id, user@) {
                    let j = choose|j: int|
                        0 <= j < self.ballot_ids@.len() && #[trigger] self.ballot_ids@[j] == q.0
                            && self.ballot_voters@[j]@ == q.1;
                    assert(j < n);
                    assert(old_ids[j] == q.0 && old_voters[j]@ == q.1);
                }
                if pre.ballots.contains(q) {
                    let j = choose|j: int|
                        0 <= j < old_ids.len() && #[trigger] old_ids[j] == q.0
                            && old_voters[j]@ == q.1;
                    assert(self.ballot_ids@[j] == old_ids[j]);
                    assert(self.ballot_voters@[j] == old_voters[j]);
                }
            }
            assert(self@.ballots =~= pre.ballots.insert((proposal_id, user@)));
        }
        Ok(())
    }

    /// The tallies (for, against) of proposal `id`; zeros where there is none.
    pub fn get_proposal_stats(&self, proposal_id: u32) -> (r: (u32, u32))
        ensures
            self@.has_proposal(proposal_id) ==> r == (
                self@.proposals[proposal_id - 1].votes_for,
                self@.proposals[proposal_id - 1].votes_against,
            ),
            !self@.has_proposal(proposal_id) ==> r == (0u32, 0u32),
    {
        if proposal_id == 0 || proposal_id as usize > self.proposals.len() {
            return (0, 0);
        }
        let p = &self.proposals[(proposal_id - 1) as usize];
        (p.votes_for, p.votes_against)
    }
}

} // verus!
