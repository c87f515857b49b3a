//! Two-party trade holds that settle on both approvals.
use vstd::prelude::*;
use super::{ContractState, Error, TrustContract};
use crate::records::{Escrow, EscrowView};

verus! {

impl ContractState {
    /// The escrow after `approver` approves it: the flag of their side is set.
    pub open spec fn escrow_approved(e: EscrowView, approver: Seq<char>) -> EscrowView {
        if approver == e.buyer {
            EscrowView { buyer_approved: true, ..e }
        } else {
            EscrowView { seller_approved: true, ..e }
        }
    }

    /// The first guard of `approve_escrow` that fails, if any.
    pub open spec fn escrow_check(self, id: u32, approver: Seq<char>) -> Option<Error> {
        if !self.has_escrow(id) {
            Some(Error::NotFound)
        } else if !self.escrows[id - 1].active {
            Some(Error::EscrowInactive)
        } else if approver != self.escrows[id - 1].buyer && approver != self.escrows[id - 1].seller {
            Some(Error::NotAuthorized)
        } else {
            let e = Self::escrow_approved(self.escrows[id - 1], approver);
            if e.buyer_approved && e.seller_approved {
                if !self.merchants.contains_key(e.seller) {
                    Some(Error::NotFound)
                } else if !self.can_credit(e.seller, e.amount as int) {
                    Some(Error::Overflow)
                } else {
                    None
                }
            } else {
                None
            }
        }
    }

    /// The state after a successful approval of escrow `id`: once both
    /// sides have approved, the seller is paid and the escrow closes.
    pub open spec fn after_escrow_approval(self, id: u32, approver: Seq<char>) -> ContractState {
        let e = Self::escrow_approved(self.escrows[id - 1], approver);
        if e.buyer_approved && e.seller_approved {
            ContractState {
                escrows: self.escrows.update(id - 1, EscrowView { active: false, ..e }),
                ..self.with_credit(e.seller, e.amount as int)
            }
        } else {
            ContractState { escrows: self.escrows.update(id - 1, e), ..self }
        }
    }

    /// The first guard of `create_escrow` that fails, if any.
    pub open spec fn create_escrow_check(self, buyer: Seq<char>, amount: i128) -> Option<Error> {
        if amount <= 0 {
            Some(Error::InvalidAmount)
        } else if !self.merchants.contains_key(buyer) {
            Some(Error::NotFound)
        } else if self.merchants[buyer].bzr_balance < amount {
            Some(Error::InsufficientFunds)
        } else if self.escrows.len() >= u32::MAX {
            Some(Error::Overflow)
        } else {
            None
        }
    }

    /// The state after `buyer` opens an escrow of `amount` for `seller`.
    pub open spec fn after_create_escrow(self, buyer: Seq<char>, seller: Seq<char>, amount: i128) -> ContractState {
        ContractState {
            escrows: self.escrows.push(
                EscrowView {
                    id: (self.escrows.len() + 1) as u32,
                    buyer,
                    seller,
                    amount,
                    buyer_approved: false,
                    seller_approved: false,
                    active: true,
                },
            ),
            ..self.with_credit(buyer, -amount)
        }
    }
}

impl TrustContract {
    /// `buyer` puts `amount` on hold for `seller`; answers the escrow's id.
    pub fn create_escrow(&mut self, buyer: &String, seller: &String, amount: i128) -> (r: Result<
        u32,
        Error,
    >)
        requires
            old(self).well_formed(),
        ensures
            final(self).well_formed(),
            old(self)@.latches(final(self)@),
            old(self)@.windows_stay_closed(final(self)@),
            match old(self)@.create_escrow_check(buyer@, amount) {
                Some(e) => r == Err::<u32, Error>(e) && final(self)@ == old(self)@,
                None => r == Ok::<u32, Error>((old(self)@.escrows.len() + 1) as u32)
                    && final(self)@ == old(self)@.after_create_escrow(buyer@, seller@, amount),
            },
    {
        if amount <= 0 {
            return Err(Error::InvalidAmount);
        }
        let i = match self.merchant_pos(buyer) {
            Some(i) => i,
            None => return Err(Error::NotFound),
        };
        if self.recs[i].bzr_balance < amount {
            return Err(Error::InsufficientFunds);
        }
        if self.escrows.len() >= u32::MAX as usize {
            return Err(Error::Overflow);
        }
        self.adjust_balance(i, -amount);
        let id = (self.escrows.len() + 1) as u32;
        let ghost old_escrows = self.escrows@;
        self.escrows.push(
            Escrow {
                id,
                buyer: buyer.clone(),
                seller: seller.clone(),
                amount,
                buyer_approved: false,
                seller_approved: false,
                active: true,
            },
        );
        proof {
            assert(self.escrows@.map_values(|e: Escrow| e@) =~= old_escrows.map_values(
                |e: Escrow| e@,
            ).push(self.escrows@[old_escrows.len() as int]@));
        }
        Ok(id)
    }

    /// `approver`, the buyer or the seller, approves escrow `id`.
    pub fn approve_escrow(&mut self, id: u32, approver: &String) -> (r: Result<(), Error>)
        requires
            old(self).well_formed(),
        ensures
            final(self).well_formed(),
            old(self)@.latches(final(self)@),
            old(self)@.windows_stay_closed(final(self)@),
            match old(self)@.escrow_check(id, approver@) {
                Some(e) => r == Err::<(), Error>(e) && final(self)@ == old(self)@,
                None => r is Ok && final(self)@ == old(self)@.after_escrow_approval(id, approver@),
            },
    {
        if id == 0 || id as usize > self.escrows.len() {
            return Err(Error::NotFound);
        }
        let k = (id - 1) as usize;
        if !self.escrows[k].active {
            return Err(Error::EscrowInactive);
        }
        let is_buyer = *approver == self.escrows[k].buyer;
        if !is_buyer && *approver != self.escrows[k].seller {
            return Err(Error::NotAuthorized);
        }
        let both = if is_buyer {
            self.escrows[k].seller_approved
        } else {
            self.escrows[k].buyer_approved
        };
        let ghost pre = self@;
        if both {
            let amount = self.escrows[k].amount;
            let si = match self.merchant_pos(&self.escrows[k].seller) {
                Some(si) => si,
                None => return Err(Error::NotFound),
            };
            let b = self.recs[si].bzr_balance;
            if (amount > 0 && b > i128::MAX - amount) || (amount < 0 && b < i128::MIN - amount) {
                return Err(Error::Overflow);
            }
            self.adjust_balance(si, amount);
        }
        let ghost old_escrows = self.escrows@;
        if is_buyer {
            self.escrows[k].buyer_approved = true;
        } else {
            self.escrows[k].seller_approved = true;
        }
        if both {
            self.escrows[k].active = false;
        }
        proof {
            assert(self.escrows@ =~= old_escrows.update(k as int, self.escrows@[k as int]));
            assert(self@.escrows =~= pre.after_escrow_approval(id, approver@).escrows);
        }
        Ok(())
    }
}

} // verus!
