//! Shared wallets whose spends execute at a threshold of owner approvals.
use vstd::prelude::*;
use super::{ContractState, Error, TrustContract};
use crate::assoc::{all_unique, contains_key, keys_unique};
use crate::records::{texts, Wallet, WalletTx, WalletTxView, WalletView};

verus! {

impl ContractState {
    /// The first guard of `deposit_wallet` that fails, if any.
    pub open spec fn deposit_wallet_check(self, user: Seq<char>, wid: u32, amount: i128) -> Option<
        Error,
    > {
        if amount <= 0 {
            Some(Error::InvalidAmount)
        } else if !self.merchants.contains_key(user) {
            Some(Error::NotFound)
        } else if self.merchants[user].bzr_balance < amount {
            Some(Error::InsufficientFunds)
        } else if !self.has_wallet(wid) {
            Some(Error::NotFound)
        } else if self.wallets[wid - 1].balance + amount > i128::MAX {
            Some(Error::Overflow)
        } else {
            None
        }
    }

    /// The first guard of `create_wallet` that fails, if any: the threshold
    /// must lie between one and the number of owners, and the owners must be
    /// distinct.
    pub open spec fn wallet_check(self, owners: Seq<String>, threshold: u32) -> Option<Error> {
        if threshold == 0 || threshold > owners.len() {
            Some(Error::InvalidThreshold)
        } else if !keys_unique(owners) {
            Some(Error::DuplicateOwner)
        } else if self.wallets.len() >= u32::MAX {
            Some(Error::Overflow)
        } else {
            None
        }
    }

    /// The first guard of `propose_tx` that fails, if any.
    pub open spec fn propose_check(self, user: Seq<char>, wid: u32, amount: i128) -> Option<Error> {
        if amount <= 0 {
            Some(Error::InvalidAmount)
        } else if !self.has_wallet(wid) {
            Some(Error::NotFound)
        } else if !self.wallets[wid - 1].owners.contains(user) {
            Some(Error::NotOwner)
        } else if self.txs.len() >= u32::MAX {
            Some(Error::Overflow)
        } else {
            None
        }
    }

    /// The approvals of transaction `id` once `user` has approved it: a set,
    /// so an approval already given is not repeated.
    pub open spec fn approvals_after(self, id: u32, user: Seq<char>) -> Seq<Seq<char>> {
        let a = self.txs[id - 1].approvals;
        if a.contains(user) {
            a
        } else {
            a.push(user)
        }
    }

    /// Whether the approval of `user` brings transaction `id` to its wallet's threshold.
    pub open spec fn approval_executes(self, id: u32, user: Seq<char>) -> bool {
        self.approvals_after(id, user).len() >= self.wallets[self.txs[id - 1].wallet_id - 1].threshold
    }

    /// The first guard of `approve_tx` that fails, if any.
    pub open spec fn approve_tx_check(self, user: Seq<char>, id: u32) -> Option<Error> {
        if !self.has_tx(id) {
            Some(Error::NotFound)
        } else if self.txs[id - 1].executed {
            Some(Error::AlreadyExecuted)
        } else if !self.has_wallet(self.txs[id - 1].wallet_id) {
            Some(Error::NotFound)
        } else if !self.wallets[self.txs[id - 1].wallet_id - 1].owners.contains(user) {
            Some(Error::NotOwner)
        } else if self.approval_executes(id, user) {
            let t = self.txs[id - 1];
            let w = self.wallets[t.wallet_id - 1];
            if w.balance < t.amount {
                Some(Error::InsufficientFunds)
            } else if !self.merchants.contains_key(t.target) {
                Some(Error::NotFound)
            } else if w.balance - t.amount > i128::MAX || !self.can_credit(t.target, t.amount as int) {
                Some(Error::Overflow)
            } else {
                None
            }
        } else {
            None
        }
    }

    /// The state after a successful approval of transaction `id` by `user`:
    /// the approval is recorded and, at the threshold, the wallet pays the
    /// target and the transaction is marked executed.
    pub open spec fn after_approve_tx(self, user: Seq<char>, id: u32) -> ContractState {
        let t = self.txs[id - 1];
        let apps = self.approvals_after(id, user);
        if self.approval_executes(id, user) {
            let w = self.wallets[t.wallet_id - 1];
            ContractState {
                txs: self.txs.update(id - 1, WalletTxView { approvals: apps, executed: true, ..t }),
                wallets: self.wallets.update(
                    t.wallet_id - 1,
                    WalletView { balance: (w.balance - t.amount) as i128, ..w },
                ),
                ..self.with_credit(t.target, t.amount as int)
            }
        } else {
            ContractState {
                txs: self.txs.update(id - 1, WalletTxView { approvals: apps, ..t }),
                ..self
            }
        }
    }

    /// The state after `user` proposes that wallet `wid` pays `amount` to `target`.
    pub open spec fn after_propose(self, user: Seq<char>, wid: u32, target: Seq<char>, amount: i128) -> ContractState {
        ContractState {
            txs: self.txs.push(
                WalletTxView {
                    id: (self.txs.len() + 1) as u32,
                    wallet_id: wid,
                    proposer: user,
                    target,
                    amount,
                    approvals: seq![user],
                    executed: false,
                },
            ),
            ..self
        }
    }
}

impl TrustContract {
    /// `creator` opens a wallet of `owners` that spends on `threshold`
    /// approvals; answers its id.
    pub fn create_wallet(&mut self, creator: &String, owners: Vec<String>, threshold: u32) -> (r:
        Result<u32, Error>)
        requires
            old(self).well_formed(),
        ensures
            final(self).well_formed(),
            old(self)@.latches(final(self)@),
            old(self)@.windows_stay_closed(final(self)@),
            match old(self)@.wallet_check(owners@, threshold) {
                Some(e) => r == Err::<u32, Error>(e) && final(self)@ == old(self)@,
                None => r == Ok::<u32, Error>((old(self)@.wallets.len() + 1) as u32) && final(
                    self)@ == (ContractState {
                    wallets: old(self)@.wallets.push(
                        WalletView {
                            id: (old(self)@.wallets.len() + 1) as u32,
                            owners: texts(owners@),
                            threshold,
                            balance: 0,
                        },
                    ),
                    ..old(self)@
                }),
            },
    {
        if threshold == 0 || threshold as usize > owners.len() {
            return Err(Error::InvalidThreshold);
        }
        if !all_unique(&owners) {
            return Err(Error::DuplicateOwner);
        }
        if self.wallets.len() >= u32::MAX as usize {
            return Err(Error::Overflow);
        }
        let id = (self.wallets.len() + 1) as u32;
        let ghost old_wallets = self.wallets@;
        self.wallets.push(Wallet { id, owners, threshold, balance: 0 });
        proof {
            assert(self.wallets@.map_values(|w: Wallet| w@) =~= old_wallets.map_values(
                |w: Wallet| w@,
            ).push(self.wallets@[old_wallets.len() as int]@));
        }
        Ok(id)
    }

    /// `user` moves `amount` of their balance into wallet `wid`.
    pub fn deposit_wallet(&mut self, user: &String, wid: u32, amount: i128) -> (r: Result<
        (),
        Error,
    >)
        requires
            old(self).well_formed(),
        ensures
            final(self).well_formed(),
            old(self)@.latches(final(self)@),
            old(self)@.windows_stay_closed(final(self)@),
            match old(self)@.deposit_wallet_check(user@, wid, amount) {
                Some(e) => r == Err::<(), Error>(e) && final(self)@ == old(self)@,
                None => r is Ok && final(self)@ == (ContractState {
                    wallets: old(self)@.wallets.update(
                        wid - 1,
                        WalletView {
                            balance: (old(self)@.wallets[wid - 1].balance + amount) as i128,
                            ..old(self)@.wallets[wid - 1]
                        },
                    ),
                    ..old(self)@.with_credit(user@, -amount)
                }),
            },
    {
        if amount <= 0 {
            return Err(Error::InvalidAmount);
        }
        let i = match self.merchant_pos(user) {
            Some(i) => i,
            None => return Err(Error::NotFound),
        };
        if self.recs[i].bzr_balance < amount {
            return Err(Error::InsufficientFunds);
        }
        if wid == 0 || wid as usize > self.wallets.len() {
            return Err(Error::NotFound);
        }
        let k = (wid - 1) as usize;
        if self.wallets[k].balance > i128::MAX - amount {
            return Err(Error::Overflow);
        }
        self.adjust_balance(i, -amount);
        let ghost old_wallets = self.wallets@;
        self.wallets[k].balance = self.wallets[k].balance + amount;
        proof {
            assert(self.wallets@ =~= old_wallets.update(k as int, self.wallets@[k as int]));
            assert(self.wallets@.map_values(|w: Wallet| w@) =~= old_wallets.map_values(
                |w: Wallet| w@,
            ).update(k as int, self.wallets@[k as int]@));
        }
        Ok(())
    }

    /// Whether `user` owns the wallet at position `k`.
    fn owns(&self, k: usize, user: &String) -> (r: bool)
        requires
            k < self.wallets@.len(),
        ensures
            r == self@.wallets[k as int].owners.contains(user@),
    {
        let owners = &self.wallets[k].owners;
        let found = contains_key(owners, user);
        proof {
            if found {
                let j = choose|j: int| 0 <= j < owners@.len() && #[trigger] owners@[j]@ == user@;
                assert(texts(owners@)[j] == user@);
            }
            if texts(owners@).contains(user@) {
                let j = choose|j: int| 0 <= j < texts(owners@).len() && texts(owners@)[j] == user@;
                assert(owners@[j]@ == user@);
            }
        }
        found
    }

    /// An owner `user` proposes that wallet `wid` pays `amount` to `target`;
    /// the proposal counts as the proposer's approval. Answers the
    /// transaction's id.
    pub fn propose_tx(&mut self, user: &String, wid: u32, target: &String, amount: i128) -> (r:
        Result<u32, Error>)
        requires
            old(self).well_formed(),
        ensures
            final(self).well_formed(),
            old(self)@.latches(final(self)@),
            old(self)@.windows_stay_closed(final(self)@),
            match old(self)@.propose_check(user@, wid, amount) {
                Some(e) => r == Err::<u32, Error>(e) && final(self)@ == old(self)@,
                None => r == Ok::<u32, Error>((old(self)@.txs.len() + 1) as u32) && final(self)@
                    == old(self)@.after_propose(user@, wid, target@, amount),
            },
    {
        if amount <= 0 {
            return Err(Error::InvalidAmount);
        }
        if wid == 0 || wid as usize > self.wallets.len() {
            return Err(Error::NotFound);
        }
        if !self.owns((wid - 1) as usize, user) {
            return Err(Error::NotOwner);
        }
        if self.txs.len() >= u32::MAX as usize {
            return Err(Error::Overflow);
        }
        let id = (self.txs.len() + 1) as u32;
        let mut approvals: Vec<String> = Vec::new();
        approvals.push(user.clone());
        let ghost old_txs = self.txs@;
        self.txs.push(
            WalletTx {
                id,
                wallet_id: wid,
                proposer: user.clone(),
                target: target.clone(),
                amount,
                approvals,
                executed: false,
            },
        );
        proof {
            let t = self.txs@[old_txs.len() as int];
            assert(texts(t.approvals@) =~= seq![user@]);
            assert(self.txs@.map_values(|t: WalletTx| t@) =~= old_txs.map_values(
                |t: WalletTx| t@,
            ).push(t@));
        }
        Ok(id)
    }

    /// An owner `user` approves transaction `tx_id`; the approval that
    /// reaches the wallet's threshold executes it.
    pub fn approve_tx(&mut self, user: &String, tx_id: u32) -> (r: Result<(), Error>)
        requires
            old(self).well_formed(),
        ensures
            final(self).well_formed(),
            old(self)@.latches(final(self)@),
            old(self)@.windows_stay_closed(final(self)@),
            match old(self)@.approve_tx_check(user@, tx_id) {
                Some(e) => r == Err::<(), Error>(e) && final(self)@ == old(self)@,
                None => r is Ok && final(self)@ == old(self)@.after_approve_tx(user@, tx_id),
            },
    {
        if tx_id == 0 || tx_id as usize > self.txs.len() {
            return Err(Error::NotFound);
        }
        let t = (tx_id - 1) as usize;
        if self.txs[t].executed {
            return Err(Error::AlreadyExecuted);
        }
        let wid = self.txs[t].wallet_id;
        if wid == 0 || wid as usize > self.wallets.len() {
            return Err(Error::NotFound);
        }
        let k = (wid - 1) as usize;
        if !self.owns(k, user) {
            return Err(Error::NotOwner);
        }
        let ghost pre = self@;
        let already = contains_key(&self.txs[t].approvals, user);
        proof {
            let a = self.txs@[t as int].approvals@;
            if already {
                let j = choose|j: int| 0 <= j < a.len() && #[trigger] a[j]@ == user@;
                assert(texts(a)[j] == user@);
            }
            if texts(a).contains(user@) {
                let j = choose|j: int| 0 <= j < texts(a).len() && texts(a)[j] == user@;
                assert(a[j]@ == user@);
            }
        }
        let given = self.txs[t].approvals.len();
        let threshold = self.wallets[k].threshold as usize;
        let executes = if already {
            given >= threshold
        } else {
            threshold == 0 || given >= threshold - 1
        };
        if executes {
            let amount = self.txs[t].amount;
            let wb = self.wallets[k].balance;
            if wb < amount {
                return Err(Error::InsufficientFunds);
            }
            let ti = match self.merchant_pos(&self.txs[t].target) {
                Some(ti) => ti,
                None => return Err(Error::NotFound),
            };
            let b = self.recs[ti].bzr_balance;
            if (amount < 0 && wb > i128::MAX + amount) || (amount > 0 && b > i128::MAX - amount)
                || (amount < 0 && b < i128::MIN - amount) {
                return Err(Error::Overflow);
            }
            self.adjust_balance(ti, amount);
            let ghost old_wallets = self.wallets@;
            self.wallets[k].balance = wb - amount;
            proof {
                assert(self.wallets@ =~= old_wallets.update(k as int, self.wallets@[k as int]));
                assert(self.wallets@.map_values(|w: Wallet| w@) =~= old_wallets.map_values(
                    |w: Wallet| w@,
                ).update(k as int, self.wallets@[k as int]@));
            }
        }
        let ghost old_txs = self.txs@;
        let ghost old_apps = self.txs@[t as int].approvals@;
        if !already {
            self.txs[t].approvals.push(user.clone());
        }
        if executes {
            self.txs[t].executed = true;
        }
        proof {
            assert(texts(self.txs@[t as int].approvals@) =~= pre.approvals_after(tx_id, user@));
            assert(self.txs@ =~= old_txs.update(t as int, self.txs@[t as int]));
            assert(self.txs@.map_values(|x: WalletTx| x@) =~= old_txs.map_values(
                |x: WalletTx| x@,
            ).update(t as int, self.txs@[t as int]@));
        }
        Ok(())
    }
}

} // verus!
