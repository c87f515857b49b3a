//! Token movements: transfers, purchases, the community pool and the lottery.
use vstd::prelude::*;
use super::{ContractState, Error, TrustContract, BADGE_PRICE, SUBSCRIPTION_PRICE, TICKET_PRICE};
use crate::assoc::{contains_key, lemma_assoc_at, lemma_assoc_update};
use crate::records::{texts, MerchantView};

verus! {

impl ContractState {
    /// The first guard of `buy_ticket` that fails, if any.
    pub open spec fn ticket_check(self, user: Seq<char>) -> Option<Error> {
        if self.purchase_check(user, TICKET_PRICE) is Some {
            self.purchase_check(user, TICKET_PRICE)
        } else if self.lottery.len() >= u32::MAX {
            Some(Error::Overflow)
        } else {
            None
        }
    }

    /// The first guard of `transfer_bzr` that fails, if any.
    pub open spec fn transfer_check(self, from: Seq<char>, to: Seq<char>, amount: i128) -> Option<
        Error,
    > {
        if amount <= 0 {
            Some(Error::InvalidAmount)
        } else if !self.merchants.contains_key(from) {
            Some(Error::NotFound)
        } else if !self.merchants.contains_key(to) {
            Some(Error::NotFound)
        } else if self.merchants[from].bzr_balance < amount {
            Some(Error::InsufficientFunds)
        } else if !self.with_credit(from, -amount).can_credit(to, amount as int) {
            Some(Error::Overflow)
        } else {
            None
        }
    }

    /// The state after a successful transfer: the sender is debited, then
    /// the receiver credited.
    pub open spec fn after_transfer(self, from: Seq<char>, to: Seq<char>, amount: i128) -> ContractState {
        self.with_credit(from, -amount).with_credit(to, amount as int)
    }

    /// The first guard of a purchase of `price` by `user` that fails, if any.
    pub open spec fn purchase_check(self, user: Seq<char>, price: i128) -> Option<Error> {
        if !self.merchants.contains_key(user) {
            Some(Error::NotFound)
        } else if self.merchants[user].bzr_balance < price {
            Some(Error::InsufficientFunds)
        } else {
            None
        }
    }

    /// The first guard of `deposit_crowdfund` that fails, if any.
    pub open spec fn crowdfund_check(self, user: Seq<char>, amount: i128) -> Option<Error> {
        if amount <= 0 {
            Some(Error::InvalidAmount)
        } else if !self.merchants.contains_key(user) {
            Some(Error::NotFound)
        } else if self.merchants[user].bzr_balance < amount {
            Some(Error::InsufficientFunds)
        } else if self.crowdfund + amount > i128::MAX {
            Some(Error::Overflow)
        } else {
            None
        }
    }
}

impl TrustContract {
    /// The balance of `user`; zero where no record is stored.
    pub fn get_balance(&self, user: &String) -> (r: i128)
        requires
            self.well_formed(),
        ensures
            r == self@.record(user@).bzr_balance,
    {
        match self.merchant_pos(user) {
            Some(i) => self.recs[i].bzr_balance,
            None => 0,
        }
    }

    /// Moves `amount` from `from` to `to`.
    pub fn transfer_bzr(&mut self, from: &String, to: &String, amount: i128) -> (r: Result<
        (),
        Error,
    >)
        requires
            old(self).well_formed(),
        ensures
            final(self).well_formed(),
            old(self)@.latches(final(self)@),
            old(self)@.windows_stay_closed(final(self)@),
            match old(self)@.transfer_check(from@, to@, amount) {
                Some(e) => r == Err::<(), Error>(e) && final(self)@ == old(self)@,
                None => r is Ok && final(self)@ == old(self)@.after_transfer(from@, to@, amount),
            },
    {
        if amount <= 0 {
            return Err(Error::InvalidAmount);
        }
        let fi = match self.merchant_pos(from) {
            Some(fi) => fi,
            None => return Err(Error::NotFound),
        };
        let ti = match self.merchant_pos(to) {
            Some(ti) => ti,
            None => return Err(Error::NotFound),
        };
        if self.recs[fi].bzr_balance < amount {
            return Err(Error::InsufficientFunds);
        }
        let to_after_debit = if fi == ti {
            self.recs[ti].bzr_balance - amount
        } else {
            self.recs[ti].bzr_balance
        };
        proof {
            lemma_assoc_at(self.ids@, self.recs@, fi as int);
            lemma_assoc_at(self.ids@, self.recs@, ti as int);
        }
        if to_after_debit > i128::MAX - amount {
            return Err(Error::Overflow);
        }
        self.adjust_balance(fi, -amount);
        proof {
            lemma_assoc_at(self.ids@, self.recs@, ti as int);
        }
        self.adjust_balance(ti, amount);
        Ok(())
    }

    /// `user` buys `badge` for the badge price.
    pub fn buy_badge(&mut self, user: &String, badge: String) -> (r: Result<(), Error>)
        requires
            old(self).well_formed(),
        ensures
            final(self).well_formed(),
            old(self)@.latches(final(self)@),
            old(self)@.windows_stay_closed(final(self)@),
            match old(self)@.purchase_check(user@, BADGE_PRICE) {
                Some(e) => r == Err::<(), Error>(e) && final(self)@ == old(self)@,
                None => r is Ok && final(self)@ == old(self)@.with_record(
                    user@,
                    MerchantView {
                        badges: old(self)@.merchants[user@].badges.push(badge@),
                        ..old(self)@.merchants[user@].credited(-BADGE_PRICE)
                    },
                ),
            },
    {
        let i = match self.merchant_pos(user) {
            Some(i) => i,
            None => return Err(Error::NotFound),
        };
        if self.recs[i].bzr_balance < BADGE_PRICE {
            return Err(Error::InsufficientFunds);
        }
        let ghost old_recs = self.recs@;
        let ghost old_badges = self.recs@[i as int].badges@;
        self.recs[i].bzr_balance = self.recs[i].bzr_balance - BADGE_PRICE;
        self.recs[i].badges.push(badge);
        proof {
            assert(texts(self.recs@[i as int].badges@) =~= texts(old_badges).push(badge@));
            assert(self.recs@ =~= old_recs.update(i as int, self.recs@[i as int]));
            lemma_assoc_update(self.ids@, old_recs, i as int, self.recs@[i as int]);
        }
        Ok(())
    }

    /// Whether `user` holds `badge`.
    pub fn has_badge(&self, user: &String, badge: &String) -> (r: bool)
        requires
            self.well_formed(),
        ensures
            r == (self@.merchants.contains_key(user@) && self@.merchants[user@].badges.contains(
                badge@,
            )),
    {
        match self.merchant_pos(user) {
            Some(i) => {
                let found = contains_key(&self.recs[i].badges, badge);
                proof {
                    let b = self.recs@[i as int].badges@;
                    if found {
                        let j = choose|j: int| 0 <= j < b.len() && #[trigger] b[j]@ == badge@;
                        assert(texts(b)[j] == badge@);
                    }
                    if texts(b).contains(badge@) {
                        let j = choose|j: int| 0 <= j < texts(b).len() && texts(b)[j] == badge@;
                        assert(b[j]@ == badge@);
                    }
                }
                found
            },
            None => false,
        }
    }

    /// `user` pays `amount` into the community pool.
    pub fn deposit_crowdfund(&mut self, user: &String, amount: i128) -> (r: Result<(), Error>)
        requires
            old(self).well_formed(),
        ensures
            final(self).well_formed(),
            old(self)@.latches(final(self)@),
            old(self)@.windows_stay_closed(final(self)@),
            match old(self)@.crowdfund_check(user@, amount) {
                Some(e) => r == Err::<(), Error>(e) && final(self)@ == old(self)@,
                None => r is Ok && final(self)@ == (ContractState {
                    crowdfund: (old(self)@.crowdfund + amount) as i128,
                    ..old(self)@.with_credit(user@, -amount)
                }),
            },
    {
        if amount <= 0 {
            return Err(Error::InvalidAmount);
        }
        let i = match self.merchant_pos(user) {
            Some(i) => i,
            None => return Err(Error::NotFound),
        };
        if self.recs[i].bzr_balance < amount {
            return Err(Error::InsufficientFunds);
        }
        if self.crowdfund > i128::MAX - amount {
            return Err(Error::Overflow);
        }
        self.adjust_balance(i, -amount);
        self.crowdfund = self.crowdfund + amount;
        Ok(())
    }

    /// The total of the community pool.
    pub fn get_crowdfund_balance(&self) -> (r: i128)
        ensures
            r == self@.crowdfund,
    {
        self.crowdfund
    }

    /// `user` subscribes for the subscription price.
    pub fn subscribe(&mut self, user: &String) -> (r: Result<(), Error>)
        requires
            old(self).well_formed(),
        ensures
            final(self).well_formed(),
            old(self)@.latches(final(self)@),
            old(self)@.windows_stay_closed(final(self)@),
            match old(self)@.purchase_check(user@, SUBSCRIPTION_PRICE) {
                Some(e) => r == Err::<(), Error>(e) && final(self)@ == old(self)@,
                None => r is Ok && final(self)@ == old(self)@.with_record(
                    user@,
                    MerchantView {
                        is_subscribed: true,
                        ..old(self)@.merchants[user@].credited(-SUBSCRIPTION_PRICE)
                    },
                ),
            },
    {
        let i = match self.merchant_pos(user) {
            Some(i) => i,
            None => return Err(Error::NotFound),
        };
        if self.recs[i].bzr_balance < SUBSCRIPTION_PRICE {
            return Err(Error::InsufficientFunds);
        }
        let ghost old_recs = self.recs@;
        self.recs[i].bzr_balance = self.recs[i].bzr_balance - SUBSCRIPTION_PRICE;
        self.recs[i].is_subscribed = true;
        proof {
            assert(self.recs@ =~= old_recs.update(i as int, self.recs@[i as int]));
            lemma_assoc_update(self.ids@, old_recs, i as int, self.recs@[i as int]);
        }
        Ok(())
    }

    /// Whether `user` is subscribed.
    pub fn is_subscribed(&self, user: &String) -> (r: bool)
        requires
            self.well_formed(),
        ensures
            r == self@.record(user@).is_subscribed,
    {
        match self.merchant_pos(user) {
            Some(i) => self.recs[i].is_subscribed,
            None => false,
        }
    }

    /// `user` buys a lottery ticket for the ticket price.
    pub fn buy_ticket(&mut self, user: &String) -> (r: Result<(), Error>)
        requires
            old(self).well_formed(),
        ensures
            final(self).well_formed(),
            old(self)@.latches(final(self)@),
            old(self)@.windows_stay_closed(final(self)@),
            match old(self)@.ticket_check(user@) {
                Some(e) => r == Err::<(), Error>(e) && final(self)@ == old(self)@,
                None => r is Ok && final(self)@ == (ContractState {
                    lottery: old(self)@.lottery.push(user@),
                    ..old(self)@.with_credit(user@, -TICKET_PRICE)
                }),
            },
    {
        let i = match self.merchant_pos(user) {
            Some(i) => i,
            None => return Err(Error::NotFound),
        };
        if self.recs[i].bzr_balance < TICKET_PRICE {
            return Err(Error::InsufficientFunds);
        }
        if self.lottery.len() >= u32::MAX as usize {
            return Err(Error::Overflow);
        }
        self.adjust_balance(i, -TICKET_PRICE);
        let ghost old_lottery = self.lottery@;
        self.lottery.push(user.clone());
        proof {
            assert(texts(self.lottery@) =~= texts(old_lottery).push(user@));
        }
        Ok(())
    }

    /// The number of tickets sold for the coming draw.
    pub fn get_lottery_info(&self) -> (r: u32)
        requires
            self.well_formed(),
        ensures
            r == self@.lottery.len(),
    {
        self.lottery.len() as u32
    }

    /// Draws the lottery at `now`: the ticket at position `now` modulo the
    /// number of tickets wins ten units per ticket, and the tickets are
    /// cleared. Without tickets nothing happens.
    pub fn run_lottery(&mut self, now: u64) -> (r: Result<(), Error>)
        requires
            old(self).well_formed(),
        ensures
            final(self).well_formed(),
            old(self)@.latches(final(self)@),
            old(self)@.windows_stay_closed(final(self)@),
            old(self)@.lottery.len() == 0 ==> r is Ok && final(self)@ == old(self)@,
            old(self)@.lottery.len() > 0 ==> ({
                let n = old(self)@.lottery.len();
                let winner = old(self)@.lottery[now as int % n as int];
                let pot = TICKET_PRICE * n;
                &&& !old(self)@.merchants.contains_key(winner) ==> r == Err::<(), Error>(
                    Error::NotFound,
                ) && final(self)@ == old(self)@
                &&& old(self)@.merchants.contains_key(winner) && !old(self)@.can_credit(winner, pot)
                    ==> r == Err::<(), Error>(Error::Overflow) && final(self)@ == old(self)@
                &&& old(self)@.merchants.contains_key(winner) && old(self)@.can_credit(winner, pot)
                    ==> r is Ok && final(self)@ == (ContractState {
                    lottery: Seq::empty(),
                    ..old(self)@.with_credit(winner, pot)
                })
            }),
    {
        let n = self.lottery.len();
        if n == 0 {
            return Ok(());
        }
        let w = (now % (n as u64)) as usize;
        let wi = match self.merchant_pos(&self.lottery[w]) {
            Some(wi) => wi,
            None => return Err(Error::NotFound),
        };
        let pot = TICKET_PRICE * (n as i128);
        if self.recs[wi].bzr_balance > i128::MAX - pot {
            return Err(Error::Overflow);
        }
        self.adjust_balance(wi, pot);
        self.lottery = Vec::new();
        proof {
            assert(texts(self.lottery@) =~= Seq::<Seq<char>>::empty());
        }
        Ok(())
    }
}

} // verus!
