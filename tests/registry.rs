use trust_logic::{Error, Merchant, PovertyObservation, TrustContract};

fn s(text: &str) -> String {
    String::from(text)
}

/// Bonds `who` (if needed) and lets them vouch until they hold `units` more.
fn fund(c: &mut TrustContract, who: &str, units: i128) {
    if !c.is_bonded(&s(who)) {
        c.stake(&s(who), None, 1).unwrap();
    }
    if !c.is_bonded(&s("sink")) {
        c.stake(&s("sink"), None, 1).unwrap();
    }
    for _ in 0..(units / 5) {
        c.vouch(&s(who), &s("sink")).unwrap();
    }
}

#[test]
fn stake_bonds_and_adds_ten_trust() {
    let mut c = TrustContract::new();
    assert!(!c.is_bonded(&s("alice")));
    assert_eq!(c.stake(&s("alice"), None, 1000), Ok(()));
    assert!(c.is_bonded(&s("alice")));
    assert_eq!(c.get_trust(&s("alice")), 10);
    assert_eq!(c.get_balance(&s("alice")), 0);
}

#[test]
fn stake_twice_fails() {
    let mut c = TrustContract::new();
    c.stake(&s("alice"), None, 1000).unwrap();
    assert_eq!(c.stake(&s("alice"), None, 2000), Err(Error::AlreadyBonded));
    assert_eq!(c.get_trust(&s("alice")), 10);
}

#[test]
fn stake_pays_referrer_but_not_self_referral() {
    let mut c = TrustContract::new();
    c.stake(&s("alice"), Some(s("bob")), 1000).unwrap();
    assert_eq!(c.get_balance(&s("bob")), 10);
    assert!(!c.is_bonded(&s("bob")));
    c.stake(&s("carol"), Some(s("carol")), 1000).unwrap();
    assert_eq!(c.get_balance(&s("carol")), 0);
}

#[test]
fn verify_status_fires_once_after_window() {
    let mut c = TrustContract::new();
    c.stake(&s("alice"), None, 1000).unwrap();
    assert!(!c.verify_status(&s("alice"), 1000 + 604_799));
    assert!(c.verify_status(&s("alice"), 1000 + 604_800));
    assert!(!c.verify_status(&s("alice"), 1000 + 604_800));
    assert!(!c.verify_status(&s("alice"), 5_000_000));
}

#[test]
fn verify_status_unknown_user_is_false() {
    let mut c = TrustContract::new();
    assert!(!c.verify_status(&s("nobody"), 10_000_000));
}

#[test]
fn vouch_adds_trust_and_pays_voucher() {
    let mut c = TrustContract::new();
    c.stake(&s("alice"), None, 1).unwrap();
    c.stake(&s("bob"), None, 1).unwrap();
    assert_eq!(c.vouch(&s("alice"), &s("bob")), Ok(()));
    assert_eq!(c.get_trust(&s("bob")), 11);
    assert_eq!(c.get_balance(&s("alice")), 5);
}

#[test]
fn vouch_errors() {
    let mut c = TrustContract::new();
    c.stake(&s("bob"), Some(s("carol")), 1).unwrap();
    assert_eq!(c.vouch(&s("nobody"), &s("bob")), Err(Error::NotFound));
    assert_eq!(c.vouch(&s("carol"), &s("bob")), Err(Error::NotBonded));
    assert_eq!(c.vouch(&s("bob"), &s("nobody")), Err(Error::NotFound));
    assert_eq!(c.get_trust(&s("bob")), 10);
    assert_eq!(c.get_balance(&s("bob")), 0);
}

#[test]
fn vouching_never_passes_one_hundred() {
    let mut c = TrustContract::new();
    c.stake(&s("alice"), None, 1).unwrap();
    c.stake(&s("bob"), None, 1).unwrap();
    let mut last = c.get_trust(&s("bob"));
    for _ in 0..120 {
        c.vouch(&s("alice"), &s("bob")).unwrap();
        let now = c.get_trust(&s("bob"));
        assert!(now >= last);
        assert!(now <= 100);
        last = now;
    }
    assert_eq!(last, 100);
    assert_eq!(c.get_balance(&s("alice")), 600);
}

#[test]
fn vouch_blocked_in_maintenance() {
    let mut c = TrustContract::new();
    c.init(s("admin")).unwrap();
    c.stake(&s("alice"), None, 1).unwrap();
    c.stake(&s("bob"), None, 1).unwrap();
    c.set_maintenance(true).unwrap();
    assert_eq!(c.vouch(&s("alice"), &s("bob")), Err(Error::Maintenance));
    assert_eq!(c.get_trust(&s("bob")), 10);
    c.set_maintenance(false).unwrap();
    assert_eq!(c.vouch(&s("alice"), &s("bob")), Ok(()));
}

#[test]
fn withdraw_respects_thirty_day_lock() {
    let mut c = TrustContract::new();
    c.stake(&s("alice"), None, 100).unwrap();
    assert_eq!(c.withdraw(&s("alice"), 100 + 2_591_999), Err(Error::BondLocked));
    assert!(c.is_bonded(&s("alice")));
    assert_eq!(c.withdraw(&s("alice"), 100 + 2_592_000), Ok(()));
    assert!(!c.is_bonded(&s("alice")));
    assert_eq!(c.get_trust(&s("alice")), 0);
    assert_eq!(c.withdraw(&s("alice"), 100 + 2_592_000), Err(Error::NotBonded));
    assert_eq!(c.withdraw(&s("nobody"), 0), Err(Error::NotFound));
}

#[test]
fn stake_again_after_withdraw_reopens_window() {
    let mut c = TrustContract::new();
    c.stake(&s("alice"), None, 0).unwrap();
    assert!(c.verify_status(&s("alice"), 604_800));
    c.withdraw(&s("alice"), 2_592_000).unwrap();
    c.stake(&s("alice"), None, 3_000_000).unwrap();
    assert_eq!(c.get_trust(&s("alice")), 10);
    assert!(!c.verify_status(&s("alice"), 3_000_000));
    assert!(c.verify_status(&s("alice"), 3_604_800));
}

#[test]
fn admin_decay_floors_at_zero() {
    let mut c = TrustContract::new();
    c.stake(&s("alice"), None, 1).unwrap();
    assert_eq!(c.decay(&s("alice")), Err(Error::AdminNotSet));
    c.init(s("admin")).unwrap();
    assert_eq!(c.decay(&s("alice")), Ok(()));
    assert_eq!(c.get_trust(&s("alice")), 7);
    c.decay(&s("alice")).unwrap();
    c.decay(&s("alice")).unwrap();
    assert_eq!(c.get_trust(&s("alice")), 1);
    c.decay(&s("alice")).unwrap();
    assert_eq!(c.get_trust(&s("alice")), 0);
    assert_eq!(c.decay(&s("nobody")), Err(Error::NotFound));
}

#[test]
fn admin_force_unbond_and_add_trust() {
    let mut c = TrustContract::new();
    c.init(s("admin")).unwrap();
    c.stake(&s("alice"), None, 1).unwrap();
    assert_eq!(c.add_trust(&s("alice")), Ok(()));
    assert_eq!(c.get_trust(&s("alice")), 11);
    assert_eq!(c.force_unbond(&s("alice")), Ok(()));
    assert!(!c.is_bonded(&s("alice")));
    assert_eq!(c.get_trust(&s("alice")), 0);
    assert_eq!(c.force_unbond(&s("nobody")), Err(Error::NotFound));
    assert_eq!(c.add_trust(&s("nobody")), Err(Error::NotFound));
}

#[test]
fn admin_rotation() {
    let mut c = TrustContract::new();
    assert_eq!(c.get_admin(), Err(Error::AdminNotSet));
    assert_eq!(c.transfer_admin(s("x")), Err(Error::AdminNotSet));
    assert_eq!(c.set_maintenance(true), Err(Error::AdminNotSet));
    c.init(s("admin")).unwrap();
    assert_eq!(c.get_admin(), Ok(s("admin")));
    assert_eq!(c.transfer_admin(s("next")), Ok(s("next")));
    assert_eq!(c.get_admin(), Ok(s("next")));
}

#[test]
fn disputes_raise_and_resolve() {
    let mut c = TrustContract::new();
    c.stake(&s("alice"), None, 1).unwrap();
    assert_eq!(c.raise_dispute(&s("bob"), &s("nobody")), Err(Error::NotFound));
    assert_eq!(c.raise_dispute(&s("bob"), &s("alice")), Ok(()));
    assert!(c.is_disputed(&s("alice")));
    assert_eq!(c.resolve_dispute(&s("alice")), Err(Error::AdminNotSet));
    c.init(s("admin")).unwrap();
    assert_eq!(c.resolve_dispute(&s("alice")), Ok(()));
    assert!(!c.is_disputed(&s("alice")));
    assert!(!c.is_disputed(&s("nobody")));
}

#[test]
fn nicknames_are_unique() {
    let mut c = TrustContract::new();
    assert_eq!(c.get_nickname(&s("alice")), s("User"));
    assert_eq!(c.set_nickname(&s("alice"), s("ace")), Ok(()));
    assert_eq!(c.get_nickname(&s("alice")), s("ace"));
    assert_eq!(c.get_address_by_nickname(&s("ace")), Some(s("alice")));
    assert_eq!(c.set_nickname(&s("bob"), s("ace")), Err(Error::NicknameTaken));
    assert_eq!(c.get_nickname(&s("bob")), s("User"));
    assert_eq!(c.set_nickname(&s("alice"), s("ace")), Ok(()));
    assert_eq!(c.get_address_by_nickname(&s("zed")), None);
}

#[test]
fn messages_append_in_order() {
    let mut c = TrustContract::new();
    assert_eq!(c.send_message(&s("bob"), &s("alice"), s("hi"), 5), Err(Error::NotFound));
    c.stake(&s("alice"), None, 1).unwrap();
    c.send_message(&s("bob"), &s("alice"), s("hi"), 5).unwrap();
    c.send_message(&s("carol"), &s("alice"), s("yo"), 9).unwrap();
    let msgs = c.get_messages(&s("alice"));
    assert_eq!(msgs.len(), 2);
    assert_eq!(msgs[0].sender, s("bob"));
    assert_eq!(msgs[0].text, s("hi"));
    assert_eq!(msgs[0].timestamp, 5);
    assert_eq!(msgs[1].sender, s("carol"));
    assert_eq!(msgs[1].timestamp, 9);
    assert!(c.get_messages(&s("nobody")).is_empty());
}

#[test]
fn merchant_record_rules() {
    let mut m = Merchant::blank();
    assert_eq!(m.nickname, s("User"));
    m.stake_bond(42);
    assert!(m.bond_staked);
    assert_eq!(m.trust_score, 10);
    assert_eq!(m.poverty_obs.start_time, 42);
    assert!(m.poverty_obs.is_active);
    m.trust_score = 95;
    m.fulfill_order();
    assert_eq!(m.trust_score, 100);
    m.trust_score = 96;
    m.fulfill_order();
    assert_eq!(m.trust_score, 96);
    m.trust_score = 2;
    m.decay_reputation();
    assert_eq!(m.trust_score, 0);
    m.trust_score = 50;
    m.decay_reputation();
    assert_eq!(m.trust_score, 47);
}

#[test]
fn observation_window_rules() {
    let mut w = PovertyObservation { start_time: 0, is_active: false };
    assert!(!w.verify_window(10_000_000));
    w.start_observation(100);
    assert_eq!(w, PovertyObservation { start_time: 100, is_active: true });
    assert!(!w.verify_window(604_899));
    assert!(w.is_active);
    assert!(w.verify_window(604_900));
    assert!(!w.is_active);
    assert!(!w.verify_window(604_900));
}

#[test]
fn fund_helper_credits_five_per_vouch() {
    let mut c = TrustContract::new();
    fund(&mut c, "alice", 100);
    assert_eq!(c.get_balance(&s("alice")), 100);
}

#[test]
fn init_sets_admin_only_once() {
    let mut c = TrustContract::new();
    assert_eq!(c.init(s("admin")), Ok(()));
    assert_eq!(c.init(s("eve")), Err(Error::AdminAlreadySet));
    assert_eq!(c.get_admin(), Ok(s("admin")));
    c.transfer_admin(s("next")).unwrap();
    assert_eq!(c.init(s("eve")), Err(Error::AdminAlreadySet));
    assert_eq!(c.get_admin(), Ok(s("next")));
}

#[test]
fn add_trust_stops_at_ceiling() {
    let mut c = TrustContract::new();
    c.init(s("admin")).unwrap();
    c.stake(&s("alice"), None, 1).unwrap();
    c.stake(&s("bob"), None, 1).unwrap();
    for _ in 0..89 {
        c.vouch(&s("alice"), &s("bob")).unwrap();
    }
    assert_eq!(c.get_trust(&s("bob")), 99);
    assert_eq!(c.add_trust(&s("bob")), Ok(()));
    assert_eq!(c.get_trust(&s("bob")), 100);
    assert_eq!(c.add_trust(&s("bob")), Ok(()));
    assert_eq!(c.get_trust(&s("bob")), 100);
}
