//! Administrative actions and disputes.
use vstd::prelude::*;
use super::{ContractState, Error, TrustContract};
use crate::assoc::lemma_assoc_update;
use crate::records::{MerchantView, MAX_TRUST};

verus! {

impl ContractState {
    /// The first guard of an administrative change to the record of `who`
    /// that fails, if any.
    pub open spec fn admin_check(self, who: Seq<char>) -> Option<Error> {
        if self.admin is None {
            Some(Error::AdminNotSet)
        } else if !self.merchants.contains_key(who) {
            Some(Error::NotFound)
        } else {
            None
        }
    }
}

impl TrustContract {
    /// `accuser` marks `target` as disputed.
    pub fn raise_dispute(&mut self, accuser: &String, target: &String) -> (r: Result<(), Error>)
        requires
            old(self).well_formed(),
        ensures
            final(self).well_formed(),
            old(self)@.latches(final(self)@),
            old(self)@.windows_stay_closed(final(self)@),
            !old(self)@.merchants.contains_key(target@) ==> r == Err::<(), Error>(Error::NotFound)
                && final(self)@ == old(self)@,
            old(self)@.merchants.contains_key(target@) ==> r is Ok && final(self)@ == old(self)@.with_record(
                target@,
                MerchantView { is_disputed: true, ..old(self)@.merchants[target@] },
            ),
    {
        self.set_disputed(target, true)
    }

    /// Sets the dispute flag of `target`.
    fn set_disputed(&mut self, target: &String, flag: bool) -> (r: Result<(), Error>)
        requires
            old(self).well_formed(),
        ensures
            final(self).well_formed(),
            !old(self)@.merchants.contains_key(target@) ==> r == Err::<(), Error>(Error::NotFound)
                && final(self)@ == old(self)@,
            old(self)@.merchants.contains_key(target@) ==> r is Ok && final(self)@ == old(self)@.with_record(
                target@,
                MerchantView { is_disputed: flag, ..old(self)@.merchants[target@] },
            ),
    {
        let i = match self.merchant_pos(target) {
            Some(i) => i,
            None => return Err(Error::NotFound),
        };
        let ghost old_recs = self.recs@;
        self.recs[i].is_disputed = flag;
        proof {
            assert(self.recs@ =~= old_recs.update(i as int, self.recs@[i as int]));
            lemma_assoc_update(self.ids@, old_recs, i as int, self.recs@[i as int]);
        }
        Ok(())
    }

    /// Clears the dispute flag of `target`; an administrative action.
    pub fn resolve_dispute(&mut self, target: &String) -> (r: Result<(), Error>)
        requires
            old(self).well_formed(),
        ensures
            final(self).well_formed(),
            old(self)@.latches(final(self)@),
            old(self)@.windows_stay_closed(final(self)@),
            match old(self)@.admin_check(target@) {
                Some(e) => r == Err::<(), Error>(e) && final(self)@ == old(self)@,
                None => r is Ok && final(self)@ == old(self)@.with_record(
                    target@,
                    MerchantView { is_disputed: false, ..old(self)@.merchants[target@] },
                ),
            },
    {
        if self.admin.is_none() {
            return Err(Error::AdminNotSet);
        }
        self.set_disputed(target, false)
    }

    /// Whether `target` is disputed.
    pub fn is_disputed(&self, target: &String) -> (r: bool)
        requires
            self.well_formed(),
        ensures
            r == self@.record(target@).is_disputed,
    {
        match self.merchant_pos(target) {
            Some(i) => self.recs[i].is_disputed,
            None => false,
        }
    }

    /// Lets the reputation of `target` decay; an administrative action.
    pub fn decay(&mut self, target: &String) -> (r: Result<(), Error>)
        requires
            old(self).well_formed(),
        ensures
            final(self).well_formed(),
            old(self)@.latches(final(self)@),
            old(self)@.windows_stay_closed(final(self)@),
            match old(self)@.admin_check(target@) {
                Some(e) => r == Err::<(), Error>(e) && final(self)@ == old(self)@,
                None => r is Ok && final(self)@ == old(self)@.with_record(
                    target@,
                    old(self)@.merchants[target@].decayed(),
                ),
            },
    {
        if self.admin.is_none() {
            return Err(Error::AdminNotSet);
        }
        let i = match self.merchant_pos(target) {
            Some(i) => i,
            None => return Err(Error::NotFound),
        };
        let ghost old_recs = self.recs@;
        self.recs[i].decay_reputation();
        proof {
            lemma_assoc_update(self.ids@, old_recs, i as int, self.recs@[i as int]);
        }
        Ok(())
    }

    /// Hands the administrator role to `new_admin`; answers the new administrator.
    pub fn transfer_admin(&mut self, new_admin: String) -> (r: Result<String, Error>)
        requires
            old(self).well_formed(),
        ensures
            final(self).well_formed(),
            old(self)@.latches(final(self)@),
            old(self)@.windows_stay_closed(final(self)@),
            old(self)@.admin is None ==> r == Err::<String, Error>(Error::AdminNotSet)
                && final(self)@ == old(self)@,
            old(self)@.admin is Some ==> r is Ok && r->Ok_0@ == new_admin@ && final(self)@ == (
            ContractState { admin: Some(new_admin@), ..old(self)@ }),
    {
        if self.admin.is_none() {
            return Err(Error::AdminNotSet);
        }
        let answer = new_admin.clone();
        self.admin = Some(new_admin);
        Ok(answer)
    }

    /// Releases the bond of `user` regardless of its lock and forfeits the
    /// trust score; an administrative action.
    pub fn force_unbond(&mut self, user: &String) -> (r: Result<(), Error>)
        requires
            old(self).well_formed(),
        ensures
            final(self).well_formed(),
            old(self)@.latches(final(self)@),
            old(self)@.windows_stay_closed(final(self)@),
            match old(self)@.admin_check(user@) {
                Some(e) => r == Err::<(), Error>(e) && final(self)@ == old(self)@,
                None => r is Ok && final(self)@ == old(self)@.with_record(
                    user@,
                    old(self)@.merchants[user@].unbonded(),
                ),
            },
    {
        if self.admin.is_none() {
            return Err(Error::AdminNotSet);
        }
        let i = match self.merchant_pos(user) {
            Some(i) => i,
            None => return Err(Error::NotFound),
        };
        let ghost old_recs = self.recs@;
        self.recs[i].bond_staked = false;
        self.recs[i].trust_score = 0;
        proof {
            assert(self.recs@ =~= old_recs.update(i as int, self.recs@[i as int]));
            lemma_assoc_update(self.ids@, old_recs, i as int, self.recs@[i as int]);
        }
        Ok(())
    }

    /// Turns the maintenance flag on or off; an administrative action.
    pub fn set_maintenance(&mut self, active: bool) -> (r: Result<(), Error>)
        requires
            old(self).well_formed(),
        ensures
            final(self).well_formed(),
            old(self)@.latches(final(self)@),
            old(self)@.windows_stay_closed(final(self)@),
            old(self)@.admin is None ==> r == Err::<(), Error>(Error::AdminNotSet) && final(self)@ == old(self)@,
            old(self)@.admin is Some ==> r is Ok && final(self)@ == (ContractState {
                maintenance: active,
                ..old(self)@
            }),
    {
        if self.admin.is_none() {
            return Err(Error::AdminNotSet);
        }
        self.maintenance = active;
        Ok(())
    }

    /// Adds one trust point to `user` while under the ceiling; an administrative action.
    pub fn add_trust(&mut self, user: &String) -> (r: Result<(), Error>)
        requires
            old(self).well_formed(),
        ensures
            final(self).well_formed(),
            old(self)@.latches(final(self)@),
            old(self)@.windows_stay_closed(final(self)@),
            match old(self)@.admin_check(user@) {
                Some(e) => r == Err::<(), Error>(e) && final(self)@ == old(self)@,
                None => r is Ok && final(self)@ == old(self)@.with_record(
                    user@,
                    old(self)@.merchants[user@].vouched(),
                ),
            },
    {
        if self.admin.is_none() {
            return Err(Error::AdminNotSet);
        }
        let i = match self.merchant_pos(user) {
            Some(i) => i,
            None => return Err(Error::NotFound),
        };
        let ghost old_recs = self.recs@;
        if self.recs[i].trust_score < MAX_TRUST {
            self.recs[i].trust_score = self.recs[i].trust_score + 1;
        }
        proof {
            assert(self.recs@ =~= old_recs.update(i as int, self.recs@[i as int]));
            lemma_assoc_update(self.ids@, old_recs, i as int, self.recs@[i as int]);
        }
        Ok(())
    }
}

} // verus!
