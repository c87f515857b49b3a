use trust_logic::{Error, TrustContract};

fn s(text: &str) -> String {
    String::from(text)
}

/// Bonds `who` (if needed) and lets them vouch until they hold `units` more.
fn give(c: &mut TrustContract, who: &str, units: i128) {
    if !c.is_bonded(&s(who)) {
        c.stake(&s(who), None, 1).unwrap();
    }
    if !c.is_bonded(&s("pool")) {
        c.stake(&s("pool"), None, 1).unwrap();
    }
    for _ in 0..(units / 5) {
        c.vouch(&s(who), &s("pool")).unwrap();
    }
}

#[test]
fn transfer_moves_exact_amount() {
    let mut c = TrustContract::new();
    give(&mut c, "alice", 100);
    c.stake(&s("bob"), None, 1).unwrap();
    assert_eq!(c.transfer_bzr(&s("alice"), &s("bob"), 30), Ok(()));
    assert_eq!(c.get_balance(&s("alice")), 70);
    assert_eq!(c.get_balance(&s("bob")), 30);
}

#[test]
fn transfer_failures_change_nothing() {
    let mut c = TrustContract::new();
    give(&mut c, "alice", 20);
    c.stake(&s("bob"), None, 1).unwrap();
    assert_eq!(c.transfer_bzr(&s("alice"), &s("bob"), 0), Err(Error::InvalidAmount));
    assert_eq!(c.transfer_bzr(&s("alice"), &s("bob"), -5), Err(Error::InvalidAmount));
    assert_eq!(c.transfer_bzr(&s("alice"), &s("bob"), 21), Err(Error::InsufficientFunds));
    assert_eq!(c.transfer_bzr(&s("alice"), &s("nobody"), 1), Err(Error::NotFound));
    assert_eq!(c.transfer_bzr(&s("nobody"), &s("bob"), 1), Err(Error::NotFound));
    assert_eq!(c.get_balance(&s("alice")), 20);
    assert_eq!(c.get_balance(&s("bob")), 0);
}

#[test]
fn transfer_to_self_keeps_balance() {
    let mut c = TrustContract::new();
    give(&mut c, "alice", 20);
    assert_eq!(c.transfer_bzr(&s("alice"), &s("alice"), 20), Ok(()));
    assert_eq!(c.get_balance(&s("alice")), 20);
}

#[test]
fn badges_cost_fifty() {
    let mut c = TrustContract::new();
    assert_eq!(c.buy_badge(&s("alice"), s("gold")), Err(Error::NotFound));
    give(&mut c, "alice", 45);
    assert_eq!(c.buy_badge(&s("alice"), s("gold")), Err(Error::InsufficientFunds));
    give(&mut c, "alice", 10);
    assert_eq!(c.buy_badge(&s("alice"), s("gold")), Ok(()));
    assert_eq!(c.get_balance(&s("alice")), 5);
    assert!(c.has_badge(&s("alice"), &s("gold")));
    assert!(!c.has_badge(&s("alice"), &s("silver")));
    assert!(!c.has_badge(&s("nobody"), &s("gold")));
}

#[test]
fn subscription_costs_fifty() {
    let mut c = TrustContract::new();
    give(&mut c, "alice", 60);
    assert!(!c.is_subscribed(&s("alice")));
    assert_eq!(c.subscribe(&s("alice")), Ok(()));
    assert!(c.is_subscribed(&s("alice")));
    assert_eq!(c.get_balance(&s("alice")), 10);
    assert_eq!(c.subscribe(&s("alice")), Err(Error::InsufficientFunds));
    assert_eq!(c.subscribe(&s("nobody")), Err(Error::NotFound));
}

#[test]
fn crowdfund_pools_deposits() {
    let mut c = TrustContract::new();
    give(&mut c, "alice", 40);
    assert_eq!(c.get_crowdfund_balance(), 0);
    assert_eq!(c.deposit_crowdfund(&s("alice"), 0), Err(Error::InvalidAmount));
    assert_eq!(c.deposit_crowdfund(&s("alice"), 41), Err(Error::InsufficientFunds));
    assert_eq!(c.deposit_crowdfund(&s("alice"), 15), Ok(()));
    assert_eq!(c.deposit_crowdfund(&s("alice"), 25), Ok(()));
    assert_eq!(c.get_crowdfund_balance(), 40);
    assert_eq!(c.get_balance(&s("alice")), 0);
}

#[test]
fn proposals_and_weighted_votes() {
    let mut c = TrustContract::new();
    assert_eq!(c.create_proposal(&s("alice")), Err(Error::NotFound));
    give(&mut c, "alice", 95);
    assert_eq!(c.create_proposal(&s("alice")), Err(Error::InsufficientFunds));
    give(&mut c, "alice", 135);
    assert_eq!(c.create_proposal(&s("alice")), Ok(1));
    assert_eq!(c.get_balance(&s("alice")), 130);
    give(&mut c, "bob", 25);
    assert_eq!(c.vote(&s("alice"), 1, true), Ok(()));
    assert_eq!(c.vote(&s("bob"), 1, false), Ok(()));
    assert_eq!(c.get_proposal_stats(1), (130, 25));
    assert_eq!(c.vote(&s("alice"), 2, true), Err(Error::NotFound));
    assert_eq!(c.vote(&s("nobody"), 1, true), Err(Error::NotFound));
    assert_eq!(c.get_proposal_stats(2), (0, 0));
    assert_eq!(c.get_proposal_stats(0), (0, 0));
}

#[test]
fn second_vote_fails_without_changing_tallies() {
    let mut c = TrustContract::new();
    give(&mut c, "alice", 150);
    let id = c.create_proposal(&s("alice")).unwrap();
    c.vote(&s("alice"), id, true).unwrap();
    assert_eq!(c.get_proposal_stats(id), (50, 0));
    assert_eq!(c.vote(&s("alice"), id, true), Err(Error::AlreadyVoted));
    assert_eq!(c.vote(&s("alice"), id, false), Err(Error::AlreadyVoted));
    assert_eq!(c.get_proposal_stats(id), (50, 0));
}

#[test]
fn escrow_settles_after_both_approvals() {
    let mut c = TrustContract::new();
    give(&mut c, "buyer", 100);
    c.stake(&s("seller"), None, 1).unwrap();
    assert_eq!(c.create_escrow(&s("buyer"), &s("seller"), 60), Ok(1));
    assert_eq!(c.get_balance(&s("buyer")), 40);
    assert_eq!(c.approve_escrow(1, &s("buyer")), Ok(()));
    assert_eq!(c.get_balance(&s("seller")), 0);
    assert_eq!(c.approve_escrow(1, &s("buyer")), Ok(()));
    assert_eq!(c.get_balance(&s("seller")), 0);
    assert_eq!(c.approve_escrow(1, &s("seller")), Ok(()));
    assert_eq!(c.get_balance(&s("seller")), 60);
    assert_eq!(c.approve_escrow(1, &s("seller")), Err(Error::EscrowInactive));
    assert_eq!(c.get_balance(&s("seller")), 60);
}

#[test]
fn escrow_single_approval_leaves_it_open() {
    let mut c = TrustContract::new();
    give(&mut c, "buyer", 50);
    c.stake(&s("seller"), None, 1).unwrap();
    let id = c.create_escrow(&s("buyer"), &s("seller"), 50).unwrap();
    assert_eq!(c.approve_escrow(id, &s("seller")), Ok(()));
    assert_eq!(c.get_balance(&s("seller")), 0);
    assert_eq!(c.approve_escrow(id, &s("seller")), Ok(()));
    assert_eq!(c.approve_escrow(id, &s("buyer")), Ok(()));
    assert_eq!(c.get_balance(&s("seller")), 50);
}

#[test]
fn escrow_errors() {
    let mut c = TrustContract::new();
    give(&mut c, "buyer", 50);
    assert_eq!(c.create_escrow(&s("buyer"), &s("seller"), 0), Err(Error::InvalidAmount));
    assert_eq!(c.create_escrow(&s("buyer"), &s("seller"), 51), Err(Error::InsufficientFunds));
    assert_eq!(c.create_escrow(&s("nobody"), &s("seller"), 1), Err(Error::NotFound));
    let id = c.create_escrow(&s("buyer"), &s("seller"), 50).unwrap();
    assert_eq!(c.approve_escrow(id + 1, &s("buyer")), Err(Error::NotFound));
    assert_eq!(c.approve_escrow(id, &s("mallory")), Err(Error::NotAuthorized));
    c.approve_escrow(id, &s("buyer")).unwrap();
    // The seller has no record, so settlement cannot pay them.
    assert_eq!(c.approve_escrow(id, &s("seller")), Err(Error::NotFound));
}

#[test]
fn multisig_executes_at_threshold_once() {
    let mut c = TrustContract::new();
    give(&mut c, "o1", 100);
    c.stake(&s("target"), None, 1).unwrap();
    let owners = vec![s("o1"), s("o2"), s("o3")];
    let wid = c.create_wallet(&s("o1"), owners, 2).unwrap();
    assert_eq!(wid, 1);
    assert_eq!(c.deposit_wallet(&s("o1"), wid, 80), Ok(()));
    assert_eq!(c.get_balance(&s("o1")), 20);
    let tx = c.propose_tx(&s("o1"), wid, &s("target"), 30).unwrap();
    assert_eq!(tx, 1);
    assert_eq!(c.get_balance(&s("target")), 0);
    assert_eq!(c.approve_tx(&s("o2"), tx), Ok(()));
    assert_eq!(c.get_balance(&s("target")), 30);
    assert_eq!(c.approve_tx(&s("o3"), tx), Err(Error::AlreadyExecuted));
    assert_eq!(c.get_balance(&s("target")), 30);
    // The wallet kept 50: a second spend of 50 passes, one of 51 does not.
    let big = c.propose_tx(&s("o2"), wid, &s("target"), 51).unwrap();
    assert_eq!(c.approve_tx(&s("o3"), big), Err(Error::InsufficientFunds));
    let fits = c.propose_tx(&s("o2"), wid, &s("target"), 50).unwrap();
    assert_eq!(c.approve_tx(&s("o3"), fits), Ok(()));
    assert_eq!(c.get_balance(&s("target")), 80);
}

#[test]
fn repeated_approval_is_not_counted_twice() {
    let mut c = TrustContract::new();
    give(&mut c, "o1", 50);
    c.stake(&s("target"), None, 1).unwrap();
    let wid = c.create_wallet(&s("o1"), vec![s("o1"), s("o2"), s("o3")], 3).unwrap();
    c.deposit_wallet(&s("o1"), wid, 50).unwrap();
    let tx = c.propose_tx(&s("o1"), wid, &s("target"), 10).unwrap();
    assert_eq!(c.approve_tx(&s("o1"), tx), Ok(()));
    assert_eq!(c.approve_tx(&s("o2"), tx), Ok(()));
    assert_eq!(c.approve_tx(&s("o2"), tx), Ok(()));
    assert_eq!(c.get_balance(&s("target")), 0);
    assert_eq!(c.approve_tx(&s("o3"), tx), Ok(()));
    assert_eq!(c.get_balance(&s("target")), 10);
    assert_eq!(c.approve_tx(&s("o3"), tx), Err(Error::AlreadyExecuted));
    assert_eq!(c.approve_tx(&s("o1"), tx), Err(Error::AlreadyExecuted));
    assert_eq!(c.get_balance(&s("target")), 10);
}

#[test]
fn wallet_errors() {
    let mut c = TrustContract::new();
    give(&mut c, "o1", 10);
    assert_eq!(c.create_wallet(&s("o1"), vec![s("o1")], 0), Err(Error::InvalidThreshold));
    assert_eq!(c.create_wallet(&s("o1"), vec![s("o1")], 2), Err(Error::InvalidThreshold));
    let wid = c.create_wallet(&s("o1"), vec![s("o1"), s("o2")], 2).unwrap();
    assert_eq!(c.deposit_wallet(&s("o1"), wid, 0), Err(Error::InvalidAmount));
    assert_eq!(c.deposit_wallet(&s("o1"), wid, 11), Err(Error::InsufficientFunds));
    assert_eq!(c.deposit_wallet(&s("o1"), wid + 1, 5), Err(Error::NotFound));
    assert_eq!(c.get_balance(&s("o1")), 10);
    assert_eq!(c.propose_tx(&s("mallory"), wid, &s("o1"), 1), Err(Error::NotOwner));
    assert_eq!(c.propose_tx(&s("o1"), wid + 1, &s("o1"), 1), Err(Error::NotFound));
    let tx = c.propose_tx(&s("o1"), wid, &s("o1"), 1).unwrap();
    assert_eq!(c.approve_tx(&s("mallory"), tx), Err(Error::NotOwner));
    assert_eq!(c.approve_tx(&s("o1"), tx + 1), Err(Error::NotFound));
}

#[test]
fn lottery_pays_ticket_at_time_index() {
    let mut c = TrustContract::new();
    assert_eq!(c.run_lottery(7), Ok(()));
    give(&mut c, "a", 10);
    give(&mut c, "b", 20);
    assert_eq!(c.buy_ticket(&s("a")), Ok(()));
    assert_eq!(c.buy_ticket(&s("b")), Ok(()));
    assert_eq!(c.buy_ticket(&s("b")), Ok(()));
    assert_eq!(c.buy_ticket(&s("b")), Err(Error::InsufficientFunds));
    assert_eq!(c.buy_ticket(&s("nobody")), Err(Error::NotFound));
    assert_eq!(c.get_lottery_info(), 3);
    // 7 mod 3 picks the third ticket, held by b; the pot is 30.
    assert_eq!(c.run_lottery(7), Ok(()));
    assert_eq!(c.get_balance(&s("b")), 30);
    assert_eq!(c.get_balance(&s("a")), 0);
    assert_eq!(c.get_lottery_info(), 0);
}

#[test]
fn lottery_first_ticket_wins_at_multiple_of_count() {
    let mut c = TrustContract::new();
    give(&mut c, "a", 10);
    give(&mut c, "b", 10);
    c.buy_ticket(&s("a")).unwrap();
    c.buy_ticket(&s("b")).unwrap();
    assert_eq!(c.run_lottery(4), Ok(()));
    assert_eq!(c.get_balance(&s("a")), 20);
    assert_eq!(c.get_balance(&s("b")), 0);
}

#[test]
fn spends_must_be_positive() {
    let mut c = TrustContract::new();
    give(&mut c, "o1", 10);
    c.stake(&s("target"), None, 1).unwrap();
    let wid = c.create_wallet(&s("o1"), vec![s("o1"), s("o2")], 1).unwrap();
    c.deposit_wallet(&s("o1"), wid, 10).unwrap();
    assert_eq!(c.propose_tx(&s("o1"), wid, &s("target"), 0), Err(Error::InvalidAmount));
    assert_eq!(c.propose_tx(&s("o1"), wid, &s("target"), -5), Err(Error::InvalidAmount));
    assert_eq!(c.propose_tx(&s("mallory"), wid + 1, &s("target"), -5), Err(Error::InvalidAmount));
    assert_eq!(c.get_balance(&s("target")), 0);
    let tx = c.propose_tx(&s("o1"), wid, &s("target"), 4).unwrap();
    assert_eq!(tx, 1);
    assert_eq!(c.approve_tx(&s("o2"), tx), Ok(()));
    assert_eq!(c.get_balance(&s("target")), 4);
}

#[test]
fn wallet_owners_must_be_distinct() {
    let mut c = TrustContract::new();
    assert_eq!(
        c.create_wallet(&s("o1"), vec![s("o1"), s("o2"), s("o1")], 2),
        Err(Error::DuplicateOwner)
    );
    assert_eq!(c.create_wallet(&s("o1"), vec![s("o1"), s("o1")], 3), Err(Error::InvalidThreshold));
    assert_eq!(c.create_wallet(&s("o1"), vec![s("o1"), s("o2"), s("o3")], 3), Ok(1));
}
