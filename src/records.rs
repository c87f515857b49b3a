//! The records that the contract keeps, and their mathematical views.
use vstd::prelude::*;

verus! {

/// Length of the poverty-observation window, in seconds (seven days).
pub const OBSERVATION_PERIOD: u64 = 604800;

/// Highest trust score that fulfilment and vouching lead to.
pub const MAX_TRUST: u32 = 100;

/// A chat message stored on its recipient's record.
pub struct Message {
    pub sender: String,
    pub text: String,
    pub timestamp: u64,
}

pub struct MessageView {
    pub sender: Seq<char>,
    pub text: Seq<char>,
    pub timestamp: u64,
}

impl View for Message {
    type V = MessageView;

    open spec fn view(&self) -> MessageView {
        MessageView { sender: self.sender@, text: self.text@, timestamp: self.timestamp }
    }
}

impl Message {
    /// A copy of the message.
    pub fn duplicate(&self) -> (r: Message)
        ensures
            r@ == self@,
    {
        Message { sender: self.sender.clone(), text: self.text.clone(), timestamp: self.timestamp }
    }
}

/// The one-shot verification window that bonding opens.
#[derive(Clone, Copy, Debug, PartialEq, Eq, Structural)]
pub struct PovertyObservation {
    pub start_time: u64,
    pub is_active: bool,
}

impl PovertyObservation {
    /// Whether the window is open and has run its full length at `now`.
    pub open spec fn window_passed(self, now: u64) -> bool {
        self.is_active && now as int >= self.start_time as int + OBSERVATION_PERIOD as int
    }

    /// Opens the window at `current_time`.
    pub fn start_observation(&mut self, current_time: u64)
        ensures
            *final(self) == (PovertyObservation { start_time: current_time, is_active: true }),
    {
        self.start_time = current_time;
        self.is_active = true;
    }

    /// Closes the window and answers true when it has run its full length;
    /// otherwise answers false and leaves it as it is.
    pub fn verify_window(&mut self, current_time: u64) -> (r: bool)
        ensures
            r == old(self).window_passed(current_time),
            r ==> *final(self) == (PovertyObservation { is_active: false, ..*old(self) }),
            !r ==> *final(self) == *old(self),
    {
        if self.is_active && current_time >= self.start_time && current_time - self.start_time
            >= OBSERVATION_PERIOD {
            self.is_active = false;
            return true;
        }
        false
    }
}

/// A participant's record.
pub struct Merchant {
    pub trust_score: u32,
    pub bond_staked: bool,
    pub identity_hash: String,
    pub poverty_obs: PovertyObservation,
    pub bzr_balance: i128,
    pub badges: Vec<String>,
    pub is_disputed: bool,
    pub nickname: String,
    pub messages: Vec<Message>,
    pub is_subscribed: bool,
}

pub struct MerchantView {
    pub trust_score: u32,
    pub bond_staked: bool,
    pub identity_hash: Seq<char>,
    pub poverty_obs: PovertyObservation,
    pub bzr_balance: i128,
    pub badges: Seq<Seq<char>>,
    pub is_disputed: bool,
    pub nickname: Seq<char>,
    pub messages: Seq<MessageView>,
    pub is_subscribed: bool,
}

/// The texts of a vector of strings.
pub open spec fn texts(v: Seq<String>) -> Seq<Seq<char>> {
    v.map_values(|s: String| s@)
}

/// The nickname a record has before its owner picks one.
pub open spec fn default_nickname() -> Seq<char> {
    seq!['U', 's', 'e', 'r']
}

impl View for Merchant {
    type V = MerchantView;

    open spec fn view(&self) -> MerchantView {
        MerchantView {
            trust_score: self.trust_score,
            bond_staked: self.bond_staked,
            identity_hash: self.identity_hash@,
            poverty_obs: self.poverty_obs,
            bzr_balance: self.bzr_balance,
            badges: texts(self.badges@),
            is_disputed: self.is_disputed,
            nickname: self.nickname@,
            messages: self.messages@.map_values(|m: Message| m@),
            is_subscribed: self.is_subscribed,
        }
    }
}

impl MerchantView {
    /// The record that an identity has before anything is stored for it.
    pub open spec fn fresh() -> MerchantView {
        MerchantView {
            trust_score: 0,
            bond_staked: false,
            identity_hash: Seq::empty(),
            poverty_obs: PovertyObservation { start_time: 0, is_active: false },
            bzr_balance: 0,
            badges: Seq::empty(),
            is_disputed: false,
            nickname: default_nickname(),
            messages: Seq::empty(),
            is_subscribed: false,
        }
    }

    /// The record after bonding at `now`: ten trust points, not capped.
    pub open spec fn staked(self, now: u64) -> MerchantView {
        MerchantView {
            bond_staked: true,
            trust_score: (self.trust_score + 10) as u32,
            poverty_obs: PovertyObservation { start_time: now, is_active: true },
            ..self
        }
    }

    /// The record after a fulfilled order: five points while that stays within the ceiling.
    pub open spec fn fulfilled(self) -> MerchantView {
        MerchantView {
            trust_score: if self.trust_score <= 95 {
                (self.trust_score + 5) as u32
            } else {
                self.trust_score
            },
            ..self
        }
    }

    /// The record after decay: three points less, floored at zero.
    pub open spec fn decayed(self) -> MerchantView {
        MerchantView {
            trust_score: if self.trust_score >= 3 {
                (self.trust_score - 3) as u32
            } else {
                0
            },
            ..self
        }
    }

    /// The record after a vouch: one point while under the ceiling.
    pub open spec fn vouched(self) -> MerchantView {
        MerchantView {
            trust_score: if self.trust_score < MAX_TRUST {
                (self.trust_score + 1) as u32
            } else {
                self.trust_score
            },
            ..self
        }
    }

    /// The record with its balance moved by `delta`.
    pub open spec fn credited(self, delta: int) -> MerchantView {
        MerchantView { bzr_balance: (self.bzr_balance + delta) as i128, ..self }
    }

    /// The record with its bond released and its reputation forfeited.
    pub open spec fn unbonded(self) -> MerchantView {
        MerchantView { bond_staked: false, trust_score: 0, ..self }
    }
}

impl Merchant {
    /// A record with every field at its starting value.
    pub fn blank() -> (r: Merchant)
        ensures
            r@ == MerchantView::fresh(),
    {
        let r = Merchant {
            trust_score: 0,
            bond_staked: false,
            identity_hash: String::new(),
            poverty_obs: PovertyObservation { start_time: 0, is_active: false },
            bzr_balance: 0,
            badges: Vec::new(),
            is_disputed: false,
            nickname: String::from_str("User"),
            messages: Vec::new(),
            is_subscribed: false,
        };
        proof {
            reveal_strlit("User");
            assert(r.nickname@ =~= default_nickname());
            assert(texts(r.badges@) =~= Seq::empty());
            assert(r.messages@.map_values(|m: Message| m@) =~= Seq::empty());
        }
        r
    }

    /// Bonds the record at `current_time`.
    pub fn stake_bond(&mut self, current_time: u64)
        requires
            old(self).trust_score <= u32::MAX - 10,
        ensures
            final(self)@ == old(self)@.staked(current_time),
    {
        self.bond_staked = true;
        self.trust_score = self.trust_score + 10;
        self.poverty_obs.start_observation(current_time);
    }

    /// Counts a fulfilled order.
    pub fn fulfill_order(&mut self)
        ensures
            final(self)@ == old(self)@.fulfilled(),
    {
        if self.trust_score <= 95 {
            self.trust_score = self.trust_score + 5;
        }
    }

    /// Lets the reputation decay.
    pub fn decay_reputation(&mut self)
        ensures
            final(self)@ == old(self)@.decayed(),
    {
        if self.trust_score >= 3 {
            self.trust_score = self.trust_score - 3;
        } else {
            self.trust_score = 0;
        }
    }
}

/// A governance proposal with its running tallies.
pub struct Proposal {
    pub id: u32,
    pub creator: String,
    pub votes_for: u32,
    pub votes_against: u32,
}

pub struct ProposalView {
    pub id: u32,
    pub creator: Seq<char>,
    pub votes_for: u32,
    pub votes_against: u32,
}

impl View for Proposal {
    type V = ProposalView;

    open spec fn view(&self) -> ProposalView {
        ProposalView {
            id: self.id,
            creator: self.creator@,
            votes_for: self.votes_for,
            votes_against: self.votes_against,
        }
    }
}

/// A two-party trade hold.
pub struct Escrow {
    pub id: u32,
    pub buyer: String,
    pub seller: String,
    pub amount: i128,
    pub buyer_approved: bool,
    pub seller_approved: bool,
    pub active: bool,
}

pub struct EscrowView {
    pub id: u32,
    pub buyer: Seq<char>,
    pub seller: Seq<char>,
    pub amount: i128,
    pub buyer_approved: bool,
    pub seller_approved: bool,
    pub active: bool,
}

impl View for Escrow {
    type V = EscrowView;

    open spec fn view(&self) -> EscrowView {
        EscrowView {
            id: self.id,
            buyer: self.buyer@,
            seller: self.seller@,
            amount: self.amount,
            buyer_approved: self.buyer_approved,
            seller_approved: self.seller_approved,
            active: self.active,
        }
    }
}

/// A shared wallet whose spending needs `threshold` owner approvals.
pub struct Wallet {
    pub id: u32,
    pub owners: Vec<String>,
    pub threshold: u32,
    pub balance: i128,
}

pub struct WalletView {
    pub id: u32,
    pub owners: Seq<Seq<char>>,
    pub threshold: u32,
    pub balance: i128,
}

impl View for Wallet {
    type V = WalletView;

    open spec fn view(&self) -> WalletView {
        WalletView {
            id: self.id,
            owners: texts(self.owners@),
            threshold: self.threshold,
            balance: self.balance,
        }
    }
}

/// A spend proposed from a shared wallet.
pub struct WalletTx {
    pub id: u32,
    pub wallet_id: u32,
    pub proposer: String,
    pub target: String,
    pub amount: i128,
    pub approvals: Vec<String>,
    pub executed: bool,
}

pub struct WalletTxView {
    pub id: u32,
    pub wallet_id: u32,
    pub proposer: Seq<char>,
    pub target: Seq<char>,
    pub amount: i128,
    pub approvals: Seq<Seq<char>>,
    pub executed: bool,
}

impl View for WalletTx {
    type V = WalletTxView;

    open spec fn view(&self) -> WalletTxView {
        WalletTxView {
            id: self.id,
            wallet_id: self.wallet_id,
            proposer: self.proposer@,
            target: self.target@,
            amount: self.amount,
            approvals: texts(self.approvals@),
            executed: self.executed,
        }
    }
}

} // verus!
