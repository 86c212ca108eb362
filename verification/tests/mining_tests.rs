use ore_app::mining::{
    epoch_reset_due, hash_cutoff_secs, need_epoch_reset, saturating_add_i64, saturating_sub_i64, MinerAction, MinerEvent,
    MinerState, MinerStatus,
};

fn state(status: MinerStatus, auto_mine: bool) -> MinerState {
    MinerState { status, auto_mine }
}

#[test]
fn toggle_from_stopped_checks_proof() {
    let mut s = MinerState::new();
    assert_eq!(s.step(MinerEvent::ToggleClicked), MinerAction::CheckProofAccount);
    assert_eq!(s, state(MinerStatus::Stopped, false));
    assert_eq!(s.step(MinerEvent::ProofAccountChecked { exists: true }), MinerAction::StartMining);
    assert_eq!(s, state(MinerStatus::Stopped, true));
}

#[test]
fn toggle_without_proof_registers() {
    let mut s = MinerState::new();
    s.step(MinerEvent::ToggleClicked);
    assert_eq!(s.step(MinerEvent::ProofAccountChecked { exists: false }), MinerAction::RegisterWallet);
    assert_eq!(s, state(MinerStatus::Stopped, false));
}

#[test]
fn law_toggle_stops_active_miner_example() {
    for st in [MinerStatus::Mining, MinerStatus::Processing] {
        let mut s = state(st, true);
        assert_eq!(s.step(MinerEvent::ToggleClicked), MinerAction::ShowStopped);
        assert_eq!(s, state(MinerStatus::Stopped, false));
    }
}

#[test]
fn full_mining_round() {
    let mut s = state(MinerStatus::Stopped, true);
    assert_eq!(s.step(MinerEvent::MineForHash), MinerAction::SpawnHashSearch);
    assert_eq!(s.status, MinerStatus::Mining);
    assert_eq!(s.step(MinerEvent::HashFound), MinerAction::SubmitFoundHash);
    assert_eq!(s.step(MinerEvent::SubmitHash), MinerAction::SendMineTx);
    assert_eq!(s.status, MinerStatus::Processing);
    assert_eq!(s.step(MinerEvent::TxResultLogged { is_mine: true }), MinerAction::RequestHashSearch);
    assert_eq!(s.step(MinerEvent::TxResultLogged { is_mine: false }), MinerAction::Nothing);
}

#[test]
fn law_stop_discards_pending_work_example() {
    let mut s = state(MinerStatus::Mining, true);
    s.step(MinerEvent::ToggleClicked);
    assert_eq!(s.step(MinerEvent::HashFound), MinerAction::Nothing);
    assert_eq!(s.step(MinerEvent::TxResultLogged { is_mine: true }), MinerAction::Nothing);
}

#[test]
fn proof_check_ignored_while_mining() {
    let mut s = state(MinerStatus::Mining, false);
    assert_eq!(s.step(MinerEvent::ProofAccountChecked { exists: true }), MinerAction::Nothing);
    assert_eq!(s, state(MinerStatus::Mining, false));
}

#[test]
fn closing_screen_stops() {
    let mut s = state(MinerStatus::Processing, true);
    assert_eq!(s.step(MinerEvent::MiningScreenClosed), MinerAction::Nothing);
    assert_eq!(s, state(MinerStatus::Stopped, true));
}

#[test]
fn status_text_words() {
    assert_eq!(MinerStatus::Stopped.status_text(), "STOPPED");
    assert_eq!(MinerStatus::Mining.status_text(), "MINING");
    assert_eq!(MinerStatus::Processing.status_text(), "PROCESSING");
}

#[test]
fn saturating_ops_match_std() {
    for (a, b) in [(i64::MAX, 1), (i64::MIN, -1), (5, -7), (i64::MIN, 1), (i64::MAX, -1)] {
        assert_eq!(saturating_add_i64(a, b), a.saturating_add(b));
        assert_eq!(saturating_sub_i64(a, b), a.saturating_sub(b));
    }
}

#[test]
fn hash_cutoff_values() {
    // last hash at 1000, now 1010: 1000 + 60 - 2 - 1010 = 48 seconds.
    assert_eq!(hash_cutoff_secs(1000, 1010), 48);
    // already past the minute: no time left.
    assert_eq!(hash_cutoff_secs(1000, 2000), 0);
    // saturating at the top of the range.
    assert_eq!(hash_cutoff_secs(i64::MAX, 0), (i64::MAX - 2) as u64);
}

#[test]
fn epoch_reset_due_window() {
    assert!(!epoch_reset_due(1000, 1054));
    assert!(epoch_reset_due(1000, 1055));
    assert!(epoch_reset_due(1000, 1100));
}

#[test]
fn need_epoch_reset_threshold() {
    assert!(!need_epoch_reset(1059, 1000, 60));
    assert!(need_epoch_reset(1060, 1000, 60));
    assert!(!need_epoch_reset(0, i64::MAX, 60));
    assert!(need_epoch_reset(i64::MAX, i64::MAX, 60));
}
