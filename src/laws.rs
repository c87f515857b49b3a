//! Properties that hold across operations of the contract, proved from
//! the operations' own postconditions.
use vstd::prelude::*;
use crate::contract::{BOND_LOCK, ContractState, Error};
use crate::records::{MerchantView, OBSERVATION_PERIOD, MAX_TRUST};

verus! {

/// A record after `n` vouches for it.
pub open spec fn vouched_times(m: MerchantView, n: nat) -> MerchantView
    decreases n,
{
    if n == 0 {
        m
    } else {
        vouched_times(m, (n - 1) as nat).vouched()
    }
}

/// However many vouches a record receives, its trust score never drops,
/// and from at most the ceiling it never passes the ceiling.
pub proof fn vouching_keeps_trust_bounded(m: MerchantView, n: nat)
    ensures
        vouched_times(m, n).trust_score >= m.trust_score,
        m.trust_score <= MAX_TRUST ==> vouched_times(m, n).trust_score <= MAX_TRUST,
    decreases n,
{
    if n > 0 {
        vouching_keeps_trust_bounded(m, (n - 1) as nat);
    }
}

/// A successful vouch does not lower the target's trust score and never
/// lifts it past the ceiling from at most the ceiling.
pub proof fn vouch_keeps_target_trust_bounded(s: ContractState, voucher: Seq<char>, target: Seq<char>)
    requires
        s.vouch_check(voucher, target) is None,
    ensures
        s.after_vouch(voucher, target).merchants[target].trust_score
            >= s.merchants[target].trust_score,
        s.merchants[target].trust_score <= MAX_TRUST ==> s.after_vouch(
            voucher,
            target,
        ).merchants[target].trust_score <= MAX_TRUST,
{
}

/// A bonded participant's withdrawal fails exactly while the lock runs;
/// once it has run out, it clears the bond and zeroes the trust score.
pub proof fn withdraw_respects_lock(s: ContractState, user: Seq<char>, now: u64)
    requires
        s.merchants.contains_key(user),
        s.merchants[user].bond_staked,
    ensures
        s.withdraw_check(user, now) is Some <==> now < s.merchants[user].poverty_obs.start_time
            + BOND_LOCK,
        s.withdraw_check(user, now) is None ==> {
            &&& !s.with_record(user, s.merchants[user].unbonded()).merchants[user].bond_staked
            &&& s.with_record(user, s.merchants[user].unbonded()).merchants[user].trust_score == 0
        },
{
}

/// Verification succeeds only once the window has run its full length,
/// and after it has succeeded it fails at any later time until the next
/// bond reopens the window.
pub proof fn verification_fires_once(s: ContractState, user: Seq<char>, now: u64, later: u64)
    requires
        s.merchants.contains_key(user),
        s.merchants[user].poverty_obs.window_passed(now),
    ensures
        now >= s.merchants[user].poverty_obs.start_time + OBSERVATION_PERIOD,
        s.after_verify(user).merchants.contains_key(user),
        !s.after_verify(user).merchants[user].poverty_obs.window_passed(later),
{
}

/// A transfer between two participants moves exactly the amount; a
/// non-positive amount or a short balance makes it fail.
pub proof fn transfer_moves_amount(s: ContractState, a: Seq<char>, b: Seq<char>, amount: i128)
    requires
        a != b,
    ensures
        s.transfer_check(a, b, amount) is None ==> {
            &&& s.after_transfer(a, b, amount).record(a).bzr_balance == s.record(a).bzr_balance
                - amount
            &&& s.after_transfer(a, b, amount).record(b).bzr_balance == s.record(b).bzr_balance
                + amount
        },
        amount <= 0 || s.record(a).bzr_balance < amount ==> s.transfer_check(a, b, amount) is Some,
{
}

/// An escrow that the buyer and then the seller approve pays the seller
/// its amount and closes; after the first approval alone it is still open
/// and the seller has not been paid.
pub proof fn escrow_settles_on_both_approvals(
    s: ContractState,
    buyer: Seq<char>,
    seller: Seq<char>,
    amount: i128,
)
    requires
        buyer != seller,
        s.create_escrow_check(buyer, amount) is None,
        s.merchants.contains_key(seller),
        s.merchants[seller].bzr_balance + amount <= i128::MAX,
    ensures
        ({
            let s1 = s.after_create_escrow(buyer, seller, amount);
            let id = (s.escrows.len() + 1) as u32;
            let s2 = s1.after_escrow_approval(id, buyer);
            let s3 = s2.after_escrow_approval(id, seller);
            &&& s1.escrow_check(id, buyer) is None
            &&& s2.escrows[id - 1].active
            &&& s2.merchants[seller] == s1.merchants[seller]
            &&& s2.escrow_check(id, seller) is None
            &&& !s3.escrows[id - 1].active
            &&& s3.merchants[seller].bzr_balance == s1.merchants[seller].bzr_balance + amount
        }),
{
    let s1 = s.after_create_escrow(buyer, seller, amount);
    let id = (s.escrows.len() + 1) as u32;
    assert(s1.escrows[id - 1].buyer == buyer);
    let s2 = s1.after_escrow_approval(id, buyer);
    assert(s2.escrows[id - 1].seller == seller);
    assert(s2.merchants[seller] == s1.merchants[seller]);
}

/// In a wallet with a threshold of two, the proposer's own approval and a
/// second owner's approval execute the spend once: the wallet pays the
/// target, and a third owner's later approval fails.
pub proof fn multisig_executes_once(
    s: ContractState,
    wid: u32,
    proposer: Seq<char>,
    second: Seq<char>,
    third: Seq<char>,
    target: Seq<char>,
    amount: i128,
)
    requires
        s.has_wallet(wid),
        s.wallets[wid - 1].threshold == 2,
        s.wallets[wid - 1].owners.contains(proposer),
        s.wallets[wid - 1].owners.contains(second),
        s.wallets[wid - 1].owners.contains(third),
        proposer != second,
        s.txs.len() < u32::MAX,
        0 < amount <= s.wallets[wid - 1].balance,
        s.merchants.contains_key(target),
        s.merchants[target].bzr_balance + amount <= i128::MAX,
    ensures
        s.propose_check(proposer, wid, amount) is None,
        ({
            let s1 = s.after_propose(proposer, wid, target, amount);
            let id = (s.txs.len() + 1) as u32;
            let s2 = s1.after_approve_tx(second, id);
            &&& s1.txs[id - 1].approvals == seq![proposer]
            &&& s1.approve_tx_check(second, id) is None
            &&& s2.txs[id - 1].executed
            &&& s2.wallets[wid - 1].balance == s.wallets[wid - 1].balance - amount
            &&& s2.merchants[target].bzr_balance == s.merchants[target].bzr_balance + amount
            &&& s2.approve_tx_check(third, id) == Some(Error::AlreadyExecuted)
        }),
{
    let s1 = s.after_propose(proposer, wid, target, amount);
    let id = (s.txs.len() + 1) as u32;
    let apps = seq![proposer];
    assert(!apps.contains(second)) by {
        if apps.contains(second) {
            let j = choose|j: int| 0 <= j < apps.len() && apps[j] == second;
            assert(apps[j] == proposer);
        }
    }
    assert(s1.approvals_after(id, second) == apps.push(second));
    assert(s1.approval_executes(id, second));
}

/// Whether no merchant and no wallet holds a negative balance.
pub open spec fn balances_nonnegative(s: ContractState) -> bool {
    &&& forall|k: Seq<char>| #[trigger] s.merchants.contains_key(k) ==> s.merchants[k].bzr_balance >= 0
    &&& forall|i: int| 0 <= i < s.wallets.len() ==> #[trigger] s.wallets[i].balance >= 0
}

/// Approving a spend of a positive amount, which is every spend that a
/// well-formed store holds, leaves no balance negative: the wallet pays
/// only what it holds, and the target only receives.
pub proof fn approval_keeps_balances_nonnegative(s: ContractState, user: Seq<char>, id: u32)
    requires
        balances_nonnegative(s),
        s.approve_tx_check(user, id) is None,
        s.txs[id - 1].amount > 0,
    ensures
        balances_nonnegative(s.after_approve_tx(user, id)),
{
    let s2 = s.after_approve_tx(user, id);
    if s.approval_executes(id, user) {
        let t = s.txs[id - 1];
        assert forall|k: Seq<char>| #[trigger] s2.merchants.contains_key(k) implies s2.merchants[k].bzr_balance >= 0 by {
            if k != t.target {
                assert(s.merchants.contains_key(k));
            }
        }
        assert forall|i: int| 0 <= i < s2.wallets.len() implies #[trigger] s2.wallets[i].balance >= 0 by {
            assert(s.wallets[i].balance >= 0);
        }
    }
}

/// Once a vote on a proposal has been counted, the same participant's
/// second vote on it fails, whichever way it is cast.
pub proof fn second_vote_fails(s: ContractState, user: Seq<char>, id: u32, first: bool, second: bool)
    requires
        s.vote_check(user, id, first) is None,
    ensures
        s.after_vote(user, id, first).vote_check(user, id, second) == Some(Error::AlreadyVoted),
{
    assert(s.after_vote(user, id, first).ballots.contains((id, user)));
}

/// Approving again with an identity already among the approvals adds
/// nothing, and once the transaction has executed every further approval
/// fails.
pub proof fn repeated_approval_changes_nothing(s: ContractState, user: Seq<char>, id: u32)
    requires
        s.has_tx(id),
        s.txs[id - 1].approvals.contains(user),
    ensures
        s.approvals_after(id, user) == s.txs[id - 1].approvals,
        s.approve_tx_check(user, id) is None && s.approval_executes(id, user) ==> s.after_approve_tx(
            user,
            id,
        ).approve_tx_check(user, id) == Some(Error::AlreadyExecuted),
{
}

/// Along any run of states in which each step is an operation of the
/// contract, the latches hold from the first state to the last.
pub proof fn latches_along(run: Seq<ContractState>)
    requires
        run.len() >= 1,
        forall|i: int| 0 <= i < run.len() - 1 ==> #[trigger] run[i].latches(run[i + 1]),
    ensures
        run[0].latches(run[run.len() - 1]),
    decreases run.len(),
{
    if run.len() > 1 {
        let head = run.drop_last();
        assert forall|i: int| 0 <= i < head.len() - 1 implies #[trigger] head[i].latches(head[i + 1]) by {
            assert(head[i] == run[i] && head[i + 1] == run[i + 1]);
        }
        latches_along(head);
        let k = run.len() - 2;
        let a = run[0];
        let b = run[k];
        let c = run[k + 1];
        assert(run[k].latches(run[k + 1]));
        assert forall|i: int| 0 <= i < a.escrows.len() && !a.escrows[i].active implies #[trigger] c.escrows[i]
            == a.escrows[i] by {
            assert(b.escrows[i] == a.escrows[i]);
        }
        assert forall|i: int| 0 <= i < a.txs.len() && a.txs[i].executed implies #[trigger] c.txs[i]
            == a.txs[i] by {
            assert(b.txs[i] == a.txs[i]);
        }
    }
}

/// Along any run of states in which each step is an operation of the
/// contract other than a stake by `user`, a closed observation window of
/// `user` stays closed from the first state to the last.
pub proof fn window_stays_closed_along(run: Seq<ContractState>, user: Seq<char>)
    requires
        run.len() >= 1,
        forall|i: int|
            0 <= i < run.len() - 1 ==> (!#[trigger] run[i].record(user).poverty_obs.is_active
                ==> !run[i + 1].record(user).poverty_obs.is_active),
        !run[0].record(user).poverty_obs.is_active,
    ensures
        !run[run.len() - 1].record(user).poverty_obs.is_active,
    decreases run.len(),
{
    if run.len() > 1 {
        let head = run.drop_last();
        assert forall|i: int|
            0 <= i < head.len() - 1 && !#[trigger] head[i].record(user).poverty_obs.is_active
            implies !head[i + 1].record(user).poverty_obs.is_active by {
            assert(head[i] == run[i] && head[i + 1] == run[i + 1]);
        }
        window_stays_closed_along(head, user);
        let k = run.len() - 2;
        assert(head[k] == run[k]);
        assert(!run[k].record(user).poverty_obs.is_active);
        assert(!run[k + 1].record(user).poverty_obs.is_active);
    }
}

/// Once a spend has executed, it never changes again, and every later
/// approval of it fails, whatever operations come in between.
pub proof fn executed_spend_stays_final(s: ContractState, later: ContractState, id: u32, anyone: Seq<char>)
    requires
        s.has_tx(id),
        s.txs[id - 1].executed,
        s.latches(later),
    ensures
        later.txs[id - 1] == s.txs[id - 1],
        later.approve_tx_check(anyone, id) == Some(Error::AlreadyExecuted),
{
    assert(later.txs[id - 1] == s.txs[id - 1]);
}

/// Once verification has closed the window of `user`, verification fails at
/// every later time, whatever operations other than a new stake by `user`
/// come in between.
pub proof fn verified_window_stays_closed(s: ContractState, later: ContractState, user: Seq<char>, now: u64)
    requires
        !s.record(user).poverty_obs.is_active,
        !s.record(user).poverty_obs.is_active ==> !later.record(user).poverty_obs.is_active,
    ensures
        !(later.merchants.contains_key(user) && later.merchants[user].poverty_obs.window_passed(now)),
{
}

} // verus!
