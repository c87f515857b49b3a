//! Bonding, the observation window, vouching and withdrawal.
use vstd::prelude::*;
use super::{ContractState, Error, TrustContract, BOND_LOCK, REFERRAL_REWARD, STAKE_TRUST, VOUCH_REWARD, opt_text};
use crate::assoc::{lemma_assoc_at, lemma_assoc_update};
use crate::records::{MerchantView, PovertyObservation, MAX_TRUST};

verus! {

impl ContractState {
    /// The first guard of `stake` that fails, if any.
    pub open spec fn stake_check(self, user: Seq<char>, referrer: Option<Seq<char>>) -> Option<Error> {
        if self.record(user).bond_staked {
            Some(Error::AlreadyBonded)
        } else if self.record(user).trust_score > u32::MAX - STAKE_TRUST
            || self.referral_overflows(user, referrer) {
            Some(Error::Overflow)
        } else {
            None
        }
    }

    /// The state after `user` bonds at `now`, with the referral reward paid
    /// where a referrer other than `user` is named.
    pub open spec fn after_stake(
        self,
        user: Seq<char>,
        referrer: Option<Seq<char>>,
        now: u64,
    ) -> ContractState {
        let s1 = self.with_record(user, self.record(user).staked(now));
        match referrer {
            Some(rf) => if rf != user {
                s1.with_record(rf, s1.record(rf).credited(REFERRAL_REWARD as int))
            } else {
                s1
            },
            None => s1,
        }
    }

    /// Whether the referral reward of a stake would overflow the referrer's balance.
    pub open spec fn referral_overflows(self, user: Seq<char>, referrer: Option<Seq<char>>) -> bool {
        match referrer {
            Some(rf) => rf != user && self.record(rf).bzr_balance + REFERRAL_REWARD > i128::MAX,
            None => false,
        }
    }

    /// The first guard of `vouch` that fails, if any.
    pub open spec fn vouch_check(self, voucher: Seq<char>, target: Seq<char>) -> Option<Error> {
        if self.maintenance {
            Some(Error::Maintenance)
        } else if !self.merchants.contains_key(voucher) {
            Some(Error::NotFound)
        } else if !self.merchants[voucher].bond_staked {
            Some(Error::NotBonded)
        } else if !self.merchants.contains_key(target) {
            Some(Error::NotFound)
        } else if !self.can_credit(voucher, VOUCH_REWARD as int) {
            Some(Error::Overflow)
        } else {
            None
        }
    }

    /// The state after a successful vouch: the target gains a trust point
    /// below the ceiling, then the voucher is paid.
    pub open spec fn after_vouch(self, voucher: Seq<char>, target: Seq<char>) -> ContractState {
        self.with_record(target, self.merchants[target].vouched()).with_credit(
            voucher,
            VOUCH_REWARD as int,
        )
    }

    /// The first guard of `withdraw` that fails at `now`, if any.
    pub open spec fn withdraw_check(self, user: Seq<char>, now: u64) -> Option<Error> {
        if !self.merchants.contains_key(user) {
            Some(Error::NotFound)
        } else if !self.merchants[user].bond_staked {
            Some(Error::NotBonded)
        } else if now < self.merchants[user].poverty_obs.start_time + BOND_LOCK {
            Some(Error::BondLocked)
        } else {
            None
        }
    }

    /// The state after the observation window of `user` is closed.
    pub open spec fn after_verify(self, user: Seq<char>) -> ContractState {
        self.with_record(
            user,
            MerchantView {
                poverty_obs: PovertyObservation {
                    is_active: false,
                    ..self.merchants[user].poverty_obs
                },
                ..self.merchants[user]
            },
        )
    }
}

impl TrustContract {
    /// Bonds `user` at `now`; a referrer other than `user` is paid the referral reward.
    pub fn stake(&mut self, user: &String, referrer: Option<String>, now: u64) -> (r: Result<
        (),
        Error,
    >)
        requires
            old(self).well_formed(),
        ensures
            final(self).well_formed(),
            old(self)@.latches(final(self)@),
            forall|k: Seq<char>|
                k != user@ && !old(self)@.record(k).poverty_obs.is_active ==> !#[trigger] final(
                    self)@.record(k).poverty_obs.is_active,
            match old(self)@.stake_check(user@, opt_text(referrer)) {
                Some(e) => r == Err::<(), Error>(e) && final(self)@ == old(self)@,
                None => r is Ok && final(self)@ == old(self)@.after_stake(
                    user@,
                    opt_text(referrer),
                    now,
                ),
            },
    {
        let (bonded, score) = match self.merchant_pos(user) {
            Some(i) => (self.recs[i].bond_staked, self.recs[i].trust_score),
            None => (false, 0),
        };
        if bonded {
            return Err(Error::AlreadyBonded);
        }
        if score > u32::MAX - STAKE_TRUST {
            return Err(Error::Overflow);
        }
        if let Some(rf) = &referrer {
            if *rf != *user {
                if let Some(j) = self.merchant_pos(rf) {
                    if self.recs[j].bzr_balance > i128::MAX - REFERRAL_REWARD {
                        return Err(Error::Overflow);
                    }
                }
            }
        }
        let ghost s0 = self@;
        let i = self.ensure_record(user);
        let ghost old_recs = self.recs@;
        self.recs[i].stake_bond(now);
        proof {
            assert(self.recs@ =~= old_recs.update(i as int, self.recs@[i as int]));
            lemma_assoc_update(self.ids@, old_recs, i as int, self.recs@[i as int]);
        }
        let ghost s1 = self@;
        assert(s1 == s0.with_record(user@, s0.record(user@).staked(now))) by {
            assert(s0.with_record(user@, s0.record(user@)).with_record(
                user@,
                s0.record(user@).staked(now),
            ).merchants =~= s0.with_record(user@, s0.record(user@).staked(now)).merchants);
        }
        if let Some(rf) = referrer {
            if rf != *user {
                let ghost s2 = self@;
                let j = self.ensure_record(&rf);
                self.adjust_balance(j, REFERRAL_REWARD);
                assert(self@ == s1.with_record(rf@, s1.record(rf@).credited(REFERRAL_REWARD as int))) by {
                    assert(s2.with_record(rf@, s2.record(rf@)).with_record(
                        rf@,
                        s2.record(rf@).credited(REFERRAL_REWARD as int),
                    ).merchants =~= s2.with_record(
                        rf@,
                        s2.record(rf@).credited(REFERRAL_REWARD as int),
                    ).merchants);
                }
            }
        }
        Ok(())
    }

    /// Closes `user`'s observation window once it has run its full length
    /// at `now`, answering whether it did so.
    pub fn verify_status(&mut self, user: &String, now: u64) -> (r: bool)
        requires
            old(self).well_formed(),
        ensures
            final(self).well_formed(),
            old(self)@.latches(final(self)@),
            old(self)@.windows_stay_closed(final(self)@),
            r == (old(self)@.merchants.contains_key(user@)
                && old(self)@.merchants[user@].poverty_obs.window_passed(now)),
            r ==> final(self)@ == old(self)@.after_verify(user@),
            !r ==> final(self)@ == old(self)@,
    {
        match self.merchant_pos(user) {
            Some(i) => {
                let ghost old_recs = self.recs@;
                let passed = self.recs[i].poverty_obs.verify_window(now);
                proof {
                    assert(self.recs@ =~= old_recs.update(i as int, self.recs@[i as int]));
            lemma_assoc_update(self.ids@, old_recs, i as int, self.recs@[i as int]);
                    if !passed {
                        assert(old_recs.update(i as int, self.recs@[i as int]) =~= old_recs);
                    }
                }
                passed
            },
            None => false,
        }
    }

    /// `voucher` vouches for `target`.
    pub fn vouch(&mut self, voucher: &String, target: &String) -> (r: Result<(), Error>)
        requires
            old(self).well_formed(),
        ensures
            final(self).well_formed(),
            old(self)@.latches(final(self)@),
            old(self)@.windows_stay_closed(final(self)@),
            match old(self)@.vouch_check(voucher@, target@) {
                Some(e) => r == Err::<(), Error>(e) && final(self)@ == old(self)@,
                None => r is Ok && final(self)@ == old(self)@.after_vouch(voucher@, target@),
            },
    {
        if self.maintenance {
            return Err(Error::Maintenance);
        }
        let vi = match self.merchant_pos(voucher) {
            Some(vi) => vi,
            None => return Err(Error::NotFound),
        };
        if !self.recs[vi].bond_staked {
            return Err(Error::NotBonded);
        }
        let ti = match self.merchant_pos(target) {
            Some(ti) => ti,
            None => return Err(Error::NotFound),
        };
        if self.recs[vi].bzr_balance > i128::MAX - VOUCH_REWARD {
            return Err(Error::Overflow);
        }
        let ghost s0 = self@;
        let ghost old_recs = self.recs@;
        if self.recs[ti].trust_score < MAX_TRUST {
            self.recs[ti].trust_score = self.recs[ti].trust_score + 1;
        }
        proof {
            assert(self.recs@ =~= old_recs.update(ti as int, self.recs@[ti as int]));
            lemma_assoc_update(self.ids@, old_recs, ti as int, self.recs@[ti as int]);
            lemma_assoc_at(self.ids@, self.recs@, vi as int);
        }
        self.adjust_balance(vi, VOUCH_REWARD);
        Ok(())
    }

    /// The trust score of `user`; zero where no record is stored.
    pub fn get_trust(&self, user: &String) -> (r: u32)
        requires
            self.well_formed(),
        ensures
            r == self@.record(user@).trust_score,
    {
        match self.merchant_pos(user) {
            Some(i) => self.recs[i].trust_score,
            None => 0,
        }
    }

    /// Whether `user` holds a bond.
    pub fn is_bonded(&self, user: &String) -> (r: bool)
        requires
            self.well_formed(),
        ensures
            r == self@.record(user@).bond_staked,
    {
        match self.merchant_pos(user) {
            Some(i) => self.recs[i].bond_staked,
            None => false,
        }
    }

    /// Releases the bond of `user` once the lock has run out at `now`; the
    /// trust score is forfeited.
    pub fn withdraw(&mut self, user: &String, now: u64) -> (r: Result<(), Error>)
        requires
            old(self).well_formed(),
        ensures
            final(self).well_formed(),
            old(self)@.latches(final(self)@),
            old(self)@.windows_stay_closed(final(self)@),
            match old(self)@.withdraw_check(user@, now) {
                Some(e) => r == Err::<(), Error>(e) && final(self)@ == old(self)@,
                None => r is Ok && final(self)@ == old(self)@.with_record(
                    user@,
                    old(self)@.merchants[user@].unbonded(),
                ),
            },
    {
        let i = match self.merchant_pos(user) {
            Some(i) => i,
            None => return Err(Error::NotFound),
        };
        if !self.recs[i].bond_staked {
            return Err(Error::NotBonded);
        }
        let start = self.recs[i].poverty_obs.start_time;
        if now < start || now - start < BOND_LOCK {
            return Err(Error::BondLocked);
        }
        let ghost old_recs = self.recs@;
        self.recs[i].bond_staked = false;
        self.recs[i].trust_score = 0;
        proof {
            assert(self.recs@ =~= old_recs.update(i as int, self.recs@[i as int]));
            lemma_assoc_update(self.ids@, old_recs, i as int, self.recs@[i as int]);
        }
        Ok(())
    }
}

} // verus!
