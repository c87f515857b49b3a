//! The marketplace state machine: reputation and bonding, the token ledger,
//! escrow, shared wallets, governance, the lottery and administration.
//!
//! Every operation takes identities that the caller has already
//! authenticated and the current time as plain values, and either applies
//! its whole effect or fails with no effect at all.
mod admin;
mod escrow;
mod governance;
mod ledger;
mod multisig;
mod registry;
mod social;

use vstd::prelude::*;
use crate::assoc::{assoc_map, find_key, keys_unique, lemma_assoc_at, lemma_assoc_push, lemma_assoc_update};
use crate::records::{texts, Escrow, EscrowView, Merchant, MerchantView, Proposal, ProposalView, Wallet, WalletTx, WalletTxView, WalletView};

verus! {

/// Seconds that a bond stays locked after staking (thirty days).
pub const BOND_LOCK: u64 = 2592000;

/// Trust points that staking adds.
pub const STAKE_TRUST: u32 = 10;

/// Balance units credited to a referrer.
pub const REFERRAL_REWARD: i128 = 10;

/// Balance units credited to a voucher.
pub const VOUCH_REWARD: i128 = 5;

/// Price of a badge.
pub const BADGE_PRICE: i128 = 50;

/// Price of a subscription.
pub const SUBSCRIPTION_PRICE: i128 = 50;

/// Price of opening a proposal.
pub const PROPOSAL_PRICE: i128 = 100;

/// Price of a lottery ticket, and what each ticket adds to the pot.
pub const TICKET_PRICE: i128 = 10;

/// Why an operation failed. A failed operation changes nothing.
#[derive(Clone, Copy, Debug, PartialEq, Eq, Structural)]
pub enum Error {
    /// The approver is neither party of the escrow.
    NotAuthorized,
    /// A referenced record (merchant, proposal, escrow, wallet, transaction) is absent.
    NotFound,
    AlreadyBonded,
    NotBonded,
    /// The bond's lock period has not run out.
    BondLocked,
    AlreadyVoted,
    AlreadyExecuted,
    EscrowInactive,
    NicknameTaken,
    NotOwner,
    InsufficientFunds,
    /// An amount that must be positive is not.
    InvalidAmount,
    /// A wallet threshold of zero or above the number of owners.
    InvalidThreshold,
    /// Vouching is suspended.
    Maintenance,
    /// A counter, balance or tally would leave its integer range.
    Overflow,
    /// No administrator has been set.
    AdminNotSet,
    /// The administrator has already been set.
    AdminAlreadySet,
    /// The same identity is named twice among a wallet's owners.
    DuplicateOwner,
}

/// The abstract state of the contract.
pub struct ContractState {
    pub merchants: Map<Seq<char>, MerchantView>,
    pub proposals: Seq<ProposalView>,
    pub ballots: Set<(u32, Seq<char>)>,
    pub escrows: Seq<EscrowView>,
    pub wallets: Seq<WalletView>,
    pub txs: Seq<WalletTxView>,
    pub nicknames: Map<Seq<char>, Seq<char>>,
    pub admin: Option<Seq<char>>,
    pub maintenance: bool,
    pub crowdfund: i128,
    pub lottery: Seq<Seq<char>>,
}

/// The text of an optional identity.
pub open spec fn opt_text(o: Option<String>) -> Option<Seq<char>> {
    match o {
        Some(s) => Some(s@),
        None => None,
    }
}

impl ContractState {
    /// The record of `who`, or the starting record where none is stored.
    pub open spec fn record(self, who: Seq<char>) -> MerchantView {
        if self.merchants.contains_key(who) {
            self.merchants[who]
        } else {
            MerchantView::fresh()
        }
    }

    /// The state with `m` stored as the record of `who`.
    pub open spec fn with_record(self, who: Seq<char>, m: MerchantView) -> ContractState {
        ContractState { merchants: self.merchants.insert(who, m), ..self }
    }

    /// The state with the balance of the stored record of `who` moved by `delta`.
    pub open spec fn with_credit(self, who: Seq<char>, delta: int) -> ContractState {
        self.with_record(who, self.merchants[who].credited(delta))
    }

    /// Whether `who` has a stored record whose balance can take `delta` in `i128`.
    pub open spec fn can_credit(self, who: Seq<char>, delta: int) -> bool {
        i128::MIN <= self.merchants[who].bzr_balance + delta <= i128::MAX
    }

    /// One-way latches from this state to `next`: no escrow or spend is
    /// forgotten, a closed escrow never changes again, and an executed spend
    /// never changes again.
    pub open spec fn latches(self, next: ContractState) -> bool {
        &&& self.escrows.len() <= next.escrows.len()
        &&& forall|i: int|
            0 <= i < self.escrows.len() && !self.escrows[i].active ==> #[trigger] next.escrows[i]
                == self.escrows[i]
        &&& self.txs.len() <= next.txs.len()
        &&& forall|i: int|
            0 <= i < self.txs.len() && self.txs[i].executed ==> #[trigger] next.txs[i]
                == self.txs[i]
    }

    /// Every observation window closed in this state is still closed in `next`.
    pub open spec fn windows_stay_closed(self, next: ContractState) -> bool {
        forall|k: Seq<char>|
            !self.record(k).poverty_obs.is_active ==> !#[trigger] next.record(k).poverty_obs.is_active
    }

    pub open spec fn has_proposal(self, id: u32) -> bool {
        1 <= id <= self.proposals.len()
    }

    pub open spec fn has_escrow(self, id: u32) -> bool {
        1 <= id <= self.escrows.len()
    }

    pub open spec fn has_wallet(self, id: u32) -> bool {
        1 <= id <= self.wallets.len()
    }

    pub open spec fn has_tx(self, id: u32) -> bool {
        1 <= id <= self.txs.len()
    }
}

/// The contract's whole store.
pub struct TrustContract {
    ids: Vec<String>,
    recs: Vec<Merchant>,
    proposals: Vec<Proposal>,
    ballot_ids: Vec<u32>,
    ballot_voters: Vec<String>,
    escrows: Vec<Escrow>,
    wallets: Vec<Wallet>,
    txs: Vec<WalletTx>,
    nick_names: Vec<String>,
    nick_owners: Vec<String>,
    admin: Option<String>,
    maintenance: bool,
    crowdfund: i128,
    lottery: Vec<String>,
}

impl View for TrustContract {
    type V = ContractState;

    closed spec fn view(&self) -> ContractState {
        ContractState {
            merchants: assoc_map(self.ids@, self.recs@),
            proposals: self.proposals@.map_values(|p: Proposal| p@),
            ballots: Set::new(
                |b: (u32, Seq<char>)|
                    exists|i: int|
                        0 <= i < self.ballot_ids@.len() && #[trigger] self.ballot_ids@[i] == b.0
                            && self.ballot_voters@[i]@ == b.1,
            ),
            escrows: self.escrows@.map_values(|e: Escrow| e@),
            wallets: self.wallets@.map_values(|w: Wallet| w@),
            txs: self.txs@.map_values(|t: WalletTx| t@),
            nicknames: assoc_map(self.nick_names@, self.nick_owners@),
            admin: opt_text(self.admin),
            maintenance: self.maintenance,
            crowdfund: self.crowdfund,
            lottery: texts(self.lottery@),
        }
    }
}

impl TrustContract {
    /// The internal invariant: keyed tables hold unique keys beside their
    /// values, and every numbered table fits the `u32` ids.
    pub closed spec fn well_formed(&self) -> bool {
        &&& self.ids@.len() == self.recs@.len()
        &&& keys_unique(self.ids@)
        &&& self.nick_names@.len() == self.nick_owners@.len()
        &&& keys_unique(self.nick_names@)
        &&& self.ballot_ids@.len() == self.ballot_voters@.len()
        &&& self.proposals@.len() <= u32::MAX
        &&& self.escrows@.len() <= u32::MAX
        &&& self.wallets@.len() <= u32::MAX
        &&& self.txs@.len() <= u32::MAX
        &&& self.lottery@.len() <= u32::MAX
        &&& forall|i: int| 0 <= i < self.txs@.len() ==> #[trigger] self.txs@[i].amount > 0
    }

    /// Every spend that a well-formed store holds is of a positive amount.
    pub proof fn lemma_spends_positive(&self)
        requires
            self.well_formed(),
        ensures
            forall|i: int| 0 <= i < self@.txs.len() ==> #[trigger] self@.txs[i].amount > 0,
    {
        assert forall|i: int| 0 <= i < self@.txs.len() implies #[trigger] self@.txs[i].amount > 0 by {
            assert(self@.txs[i] == self.txs@[i]@);
        }
    }

    /// An empty store with no administrator.
    pub fn new() -> (r: TrustContract)
        ensures
            r.well_formed(),
            r@.merchants == Map::<Seq<char>, MerchantView>::empty(),
            r@.proposals == Seq::<ProposalView>::empty(),
            r@.ballots == Set::<(u32, Seq<char>)>::empty(),
            r@.escrows == Seq::<EscrowView>::empty(),
            r@.wallets == Seq::<WalletView>::empty(),
            r@.txs == Seq::<WalletTxView>::empty(),
            r@.nicknames == Map::<Seq<char>, Seq<char>>::empty(),
            r@.admin == None::<Seq<char>>,
            !r@.maintenance,
            r@.crowdfund == 0,
            r@.lottery == Seq::<Seq<char>>::empty(),
    {
        let r = TrustContract {
            ids: Vec::new(),
            recs: Vec::new(),
            proposals: Vec::new(),
            ballot_ids: Vec::new(),
            ballot_voters: Vec::new(),
            escrows: Vec::new(),
            wallets: Vec::new(),
            txs: Vec::new(),
            nick_names: Vec::new(),
            nick_owners: Vec::new(),
            admin: None,
            maintenance: false,
            crowdfund: 0,
            lottery: Vec::new(),
        };
        assert(r@.merchants =~= Map::empty());
        assert(r@.nicknames =~= Map::empty());
        assert(r@.ballots =~= Set::empty());
        assert(r@.proposals =~= Seq::empty());
        assert(r@.escrows =~= Seq::empty());
        assert(r@.wallets =~= Seq::empty());
        assert(r@.txs =~= Seq::empty());
        assert(r@.lottery =~= Seq::empty());
        r
    }

    /// Where the record of `who` is stored.
    fn merchant_pos(&self, who: &String) -> (r: Option<usize>)
        requires
            self.well_formed(),
        ensures
            match r {
                Some(i) => {
                    &&& i < self.recs@.len()
                    &&& self.ids@[i as int]@ == who@
                    &&& self@.merchants.contains_key(who@)
                    &&& self@.merchants[who@] == self.recs@[i as int]@
                },
                None => !self@.merchants.contains_key(who@),
            },
    {
        let r = find_key(&self.ids, who);
        if let Some(i) = r {
            proof {
                lemma_assoc_at(self.ids@, self.recs@, i as int);
            }
        }
        r
    }

    /// Stores the starting record for `who` where none is stored yet.
    fn ensure_record(&mut self, who: &String) -> (i: usize)
        requires
            old(self).well_formed(),
        ensures
            final(self).well_formed(),
            i < final(self).recs@.len(),
            final(self).ids@[i as int]@ == who@,
            final(self)@ == old(self)@.with_record(who@, old(self)@.record(who@)),
            final(self).recs@[i as int]@ == old(self)@.record(who@),
    {
        match self.merchant_pos(who) {
            Some(i) => {
                assert(self@.merchants.insert(who@, self@.merchants[who@]) =~= self@.merchants);
                i
            },
            None => {
                let ghost pre = self@;
                let blank = Merchant::blank();
                let key = who.clone();
                proof {
                    lemma_assoc_push(self.ids@, self.recs@, key, blank);
                }
                self.ids.push(key);
                self.recs.push(blank);
                let i = self.recs.len() - 1;
                assert(self@ == pre.with_record(who@, pre.record(who@)));
                i
            },
        }
    }

    /// Moves the balance of the record at `i` by `delta`.
    fn adjust_balance(&mut self, i: usize, delta: i128)
        requires
            old(self).well_formed(),
            i < old(self).recs@.len(),
            i128::MIN <= old(self).recs@[i as int].bzr_balance + delta <= i128::MAX,
        ensures
            final(self).well_formed(),
            final(self).ids == old(self).ids,
            final(self)@ == old(self)@.with_record(
                old(self).ids@[i as int]@,
                old(self).recs@[i as int]@.credited(delta as int),
            ),
            final(self).recs@[i as int].bzr_balance == old(self).recs@[i as int].bzr_balance
                + delta,
            final(self).recs@.len() == old(self).recs@.len(),
    {
        let ghost old_recs = self.recs@;
        self.recs[i].bzr_balance = self.recs[i].bzr_balance + delta;
        proof {
            assert(self.recs@ =~= old_recs.update(i as int, self.recs@[i as int]));
            lemma_assoc_update(self.ids@, old_recs, i as int, self.recs@[i as int]);
        }
    }

    /// Names the administrator, once: while one is set, it fails and changes nothing.
    pub fn init(&mut self, admin: String) -> (r: Result<(), Error>)
        ensures
            final(self).well_formed() == old(self).well_formed(),
            old(self)@.latches(final(self)@),
            old(self)@.windows_stay_closed(final(self)@),
            old(self)@.admin is Some ==> r == Err::<(), Error>(Error::AdminAlreadySet)
                && final(self)@ == old(self)@,
            old(self)@.admin is None ==> r is Ok && final(self)@ == (ContractState {
                admin: Some(admin@),
                ..old(self)@
            }),
    {
        if self.admin.is_some() {
            return Err(Error::AdminAlreadySet);
        }
        self.admin = Some(admin);
        Ok(())
    }

    /// The administrator.
    pub fn get_admin(&self) -> (r: Result<String, Error>)
        ensures
            match self@.admin {
                Some(a) => r is Ok && r->Ok_0@ == a,
                None => r == Err::<String, Error>(Error::AdminNotSet),
            },
    {
        match &self.admin {
            Some(a) => Ok(a.clone()),
            None => Err(Error::AdminNotSet),
        }
    }

}

} // verus!
