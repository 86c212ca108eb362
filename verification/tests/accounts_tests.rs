use ore_app::accounts::{
    bus_highlights, find_best_bus, keys_equal, update_bus, AccountUpdate, AccountsState, BusHighlight, BusInfo, ProofAccountResource,
    ProofData, TreasuryInfo,
};
use ore_app::mining::MinerStatus;

fn bus(id: u64, rewards: u64) -> BusInfo {
    BusInfo { id, rewards }
}

#[test]
fn default_proof_is_loading() {
    let p = ProofAccountResource::default();
    assert_eq!(p.challenge, "loading...");
    assert_eq!((p.stake, p.last_hash_at, p.total_hashes), (0, 0, 0));
    assert_eq!(ProofAccountResource::not_found().challenge, "Not Found");
}

#[test]
fn update_bus_replaces_matching_ids() {
    let mut busses = vec![bus(0, 10), bus(1, 20), bus(0, 30)];
    update_bus(&mut busses, bus(0, 99));
    assert_eq!(busses, vec![bus(0, 99), bus(1, 20), bus(0, 99)]);
    update_bus(&mut busses, bus(7, 1));
    assert_eq!(busses, vec![bus(0, 99), bus(1, 20), bus(0, 99)]);
}

#[test]
fn proof_update_only_for_wallet() {
    let wallet = [7u8; 32];
    let mut s = AccountsState::new();
    let other = ProofData { authority: [1u8; 32], challenge_text: "x".to_string(), balance: 5, last_hash_at: 9, total_hashes: 3 };
    assert!(s.apply_update(Some(&wallet), AccountUpdate::Proof(other)));
    assert_eq!(s.proof.challenge, "loading...");
    let mine = ProofData { authority: wallet, challenge_text: "abc".to_string(), balance: 5, last_hash_at: 9, total_hashes: 3 };
    assert!(s.apply_update(Some(&wallet), AccountUpdate::Proof(mine)));
    assert_eq!(s.proof.challenge, "abc");
    assert_eq!((s.proof.stake, s.proof.last_hash_at, s.proof.total_hashes), (5, 9, 3));
    let locked = ProofData { authority: wallet, challenge_text: "zzz".to_string(), balance: 1, last_hash_at: 1, total_hashes: 1 };
    assert!(s.apply_update(None, AccountUpdate::Proof(locked)));
    assert_eq!(s.proof.challenge, "abc");
}

#[test]
fn treasury_config_rolls_epoch_once() {
    let mut s = AccountsState::new();
    s.miners_this_epoch = 12;
    s.miners_last_epoch = 3;
    assert!(!s.apply_update(None, AccountUpdate::TreasuryConfig { last_reset_at: 100, base_reward_rate: 50 }));
    assert_eq!((s.miners_this_epoch, s.miners_last_epoch, s.last_reset_at, s.base_reward_rate), (0, 12, 100, 50));
    s.miners_this_epoch = 4;
    s.apply_update(None, AccountUpdate::TreasuryConfig { last_reset_at: 100, base_reward_rate: 60 });
    assert_eq!((s.miners_this_epoch, s.miners_last_epoch, s.base_reward_rate), (4, 12, 60));
}

#[test]
fn bus_update_through_state() {
    let mut s = AccountsState::new();
    s.busses = vec![bus(0, 1), bus(1, 2)];
    assert!(!s.apply_update(None, AccountUpdate::Bus(bus(1, 5))));
    assert_eq!(s.busses, vec![bus(0, 1), bus(1, 5)]);
}

#[test]
fn apply_fetch_takes_over_values() {
    let mut s = AccountsState::new();
    s.miners_this_epoch = 2;
    let info = TreasuryInfo { last_reset_at: 77, base_reward_rate: 8, need_epoch_reset: true };
    s.apply_fetch(ProofAccountResource::not_found(), Some(info), vec![bus(3, 4)]);
    assert_eq!(s.proof.challenge, "Not Found");
    assert_eq!((s.last_reset_at, s.base_reward_rate, s.need_epoch_reset), (77, 8, true));
    assert_eq!(s.busses, vec![bus(3, 4)]);
    assert_eq!(s.miners_this_epoch, 2);
    s.apply_fetch(ProofAccountResource::default(), None, vec![]);
    assert_eq!((s.last_reset_at, s.base_reward_rate, s.need_epoch_reset), (0, 0, false));
}

#[test]
fn keys_equal_compares_bytes() {
    let mut a = [3u8; 32];
    let b = [3u8; 32];
    assert!(keys_equal(&a, &b));
    a[31] = 4;
    assert!(!keys_equal(&a, &b));
}

#[test]
fn bus_highlights_rows() {
    assert_eq!(bus_highlights(7, 0, MinerStatus::Mining), None);
    let rows = bus_highlights(8, 2, MinerStatus::Processing).unwrap();
    assert_eq!(rows.len(), 8);
    assert_eq!(rows[2], BusHighlight::Submitting);
    assert_eq!(rows[0], BusHighlight::Plain);
    let rows = bus_highlights(8, 5, MinerStatus::Mining).unwrap();
    assert_eq!(rows[5], BusHighlight::Selected);
    let rows = bus_highlights(9, 8, MinerStatus::Mining).unwrap();
    assert!(rows.iter().all(|r| *r == BusHighlight::Plain));
}

#[test]
fn best_bus_has_most_rewards() {
    assert_eq!(find_best_bus(&vec![]), 0);
    assert_eq!(find_best_bus(&vec![bus(0, 5), bus(1, 9), bus(2, 9), bus(3, 1)]), 1);
    assert_eq!(find_best_bus(&vec![bus(0, 5)]), 0);
}
