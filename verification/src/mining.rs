use vstd::prelude::*;

verus! {

/// What the miner is doing.
#[derive(Clone, Copy, PartialEq, Eq, Debug, Structural)]
pub enum MinerStatus {
    /// Not mining.
    Stopped,
    /// Searching for a hash.
    Mining,
    /// Submitting a found hash.
    Processing,
}

/// The text the status line shows for a miner status.
pub open spec fn miner_status_label(status: MinerStatus) -> Seq<char> {
    match status {
        MinerStatus::Stopped => "STOPPED"@,
        MinerStatus::Mining => "MINING"@,
        MinerStatus::Processing => "PROCESSING"@,
    }
}

impl MinerStatus {
    /// The status text: `STOPPED`, `MINING` or `PROCESSING`.
    pub fn status_text(&self) -> (s: String)
        ensures
            s@ == miner_status_label(*self),
    {
        match self {
            MinerStatus::Stopped => String::from_str("STOPPED"),
            MinerStatus::Mining => String::from_str("MINING"),
            MinerStatus::Processing => String::from_str("PROCESSING"),
        }
    }
}

/// The miner's state: its status and whether the auto-mine toggle is on.
#[derive(Clone, Copy, PartialEq, Eq, Debug, Structural)]
pub struct MinerState {
    pub status: MinerStatus,
    pub auto_mine: bool,
}

/// What happens to the miner.
#[derive(Clone, Copy, PartialEq, Eq, Debug, Structural)]
pub enum MinerEvent {
    /// The start/stop toggle was clicked.
    ToggleClicked,
    /// The answer to a proof-account lookup asked for by a click.
    ProofAccountChecked { exists: bool },
    /// A hash search was asked for and a task is there to run it.
    MineForHash,
    /// The hash search task finished with a hash.
    HashFound,
    /// A found hash is being turned into a mine transaction.
    SubmitHash,
    /// A transaction result was logged; `is_mine` for a mine transaction.
    TxResultLogged { is_mine: bool },
    /// The mining screen was torn down.
    MiningScreenClosed,
}

/// What the front end does after a miner step.
#[derive(Clone, Copy, PartialEq, Eq, Debug, Structural)]
pub enum MinerAction {
    Nothing,
    /// Look up the wallet's proof account and report whether it exists.
    CheckProofAccount,
    /// Turn the toggle off (mining stopped).
    ShowStopped,
    /// Turn the toggle on and ask for a hash search.
    StartMining,
    /// Send a registration transaction for the wallet.
    RegisterWallet,
    /// Spawn the hash search task.
    SpawnHashSearch,
    /// Hand the found hash on for submission.
    SubmitFoundHash,
    /// Build and send the mine transaction.
    SendMineTx,
    /// Ask for the next hash search.
    RequestHashSearch,
}

/// One step of the miner: its next state and the front end's action.
pub open spec fn miner_step(state: MinerState, event: MinerEvent) -> (MinerState, MinerAction) {
    match event {
        MinerEvent::ToggleClicked => match state.status {
            MinerStatus::Stopped => (state, MinerAction::CheckProofAccount),
            _ => (
                MinerState { status: MinerStatus::Stopped, auto_mine: false },
                MinerAction::ShowStopped,
            ),
        },
        MinerEvent::ProofAccountChecked { exists } => if state.status == MinerStatus::Stopped {
            if exists {
                (MinerState { auto_mine: true, ..state }, MinerAction::StartMining)
            } else {
                (state, MinerAction::RegisterWallet)
            }
        } else {
            (state, MinerAction::Nothing)
        },
        MinerEvent::MineForHash => (
            MinerState { status: MinerStatus::Mining, ..state },
            MinerAction::SpawnHashSearch,
        ),
        MinerEvent::HashFound => if state.status == MinerStatus::Mining {
            (state, MinerAction::SubmitFoundHash)
        } else {
            (state, MinerAction::Nothing)
        },
        MinerEvent::SubmitHash => (
            MinerState { status: MinerStatus::Processing, ..state },
            MinerAction::SendMineTx,
        ),
        MinerEvent::TxResultLogged { is_mine } => if state.auto_mine && is_mine {
            (state, MinerAction::RequestHashSearch)
        } else {
            (state, MinerAction::Nothing)
        },
        MinerEvent::MiningScreenClosed => (
            MinerState { status: MinerStatus::Stopped, ..state },
            MinerAction::Nothing,
        ),
    }
}

impl MinerState {
    /// The state of a fresh app: stopped, toggle off.
    pub fn new() -> (s: Self)
        ensures
            s == (MinerState { status: MinerStatus::Stopped, auto_mine: false }),
    {
        MinerState { status: MinerStatus::Stopped, auto_mine: false }
    }

    /// Applies one event and says what the front end must do.
    pub fn step(&mut self, event: MinerEvent) -> (action: MinerAction)
        ensures
            (*final(self), action) == miner_step(*old(self), event),
    {
        match event {
            MinerEvent::ToggleClicked => match self.status {
                MinerStatus::Stopped => MinerAction::CheckProofAccount,
                _ => {
                    self.status = MinerStatus::Stopped;
                    self.auto_mine = false;
                    MinerAction::ShowStopped
                },
            },
            MinerEvent::ProofAccountChecked { exists } => {
                if self.status == MinerStatus::Stopped {
                    if exists {
                        self.auto_mine = true;
                        MinerAction::StartMining
                    } else {
                        MinerAction::RegisterWallet
                    }
                } else {
                    MinerAction::Nothing
                }
            },
            MinerEvent::MineForHash => {
                self.status = MinerStatus::Mining;
                MinerAction::SpawnHashSearch
            },
            MinerEvent::HashFound => {
                if self.status == MinerStatus::Mining {
                    MinerAction::SubmitFoundHash
                } else {
                    MinerAction::Nothing
                }
            },
            MinerEvent::SubmitHash => {
                self.status = MinerStatus::Processing;
                MinerAction::SendMineTx
            },
            MinerEvent::TxResultLogged { is_mine } => {
                if self.auto_mine && is_mine {
                    MinerAction::RequestHashSearch
                } else {
                    MinerAction::Nothing
                }
            },
            MinerEvent::MiningScreenClosed => {
                self.status = MinerStatus::Stopped;
                MinerAction::Nothing
            },
        }
    }
}

/// A click on the toggle while mining or submitting stops the miner and
/// turns auto-mining off.
pub proof fn law_toggle_stops_active_miner(state: MinerState)
    requires
        state.status != MinerStatus::Stopped,
    ensures
        miner_step(state, MinerEvent::ToggleClicked) == (
            MinerState { status: MinerStatus::Stopped, auto_mine: false },
            MinerAction::ShowStopped,
        ),
{
}

/// A hash that a search finds is handed on for submission exactly when the
/// miner is still mining.
pub proof fn law_found_hash_submitted_only_while_mining(state: MinerState)
    ensures
        (miner_step(state, MinerEvent::HashFound).1 == MinerAction::SubmitFoundHash) <==> (state.status
            == MinerStatus::Mining),
        miner_step(state, MinerEvent::HashFound).0 == state,
{
}

/// After the toggle stops the miner, a hash that the running search still
/// finds is dropped, and a logged mine result does not start a new search.
pub proof fn law_stop_discards_pending_work(state: MinerState, is_mine: bool)
    requires
        state.status != MinerStatus::Stopped,
    ensures
        ({
            let stopped = miner_step(state, MinerEvent::ToggleClicked).0;
            &&& miner_step(stopped, MinerEvent::HashFound).1 == MinerAction::Nothing
            &&& miner_step(stopped, MinerEvent::TxResultLogged { is_mine }).1
                == MinerAction::Nothing
        }),
{
}

/// With auto-mining on, every logged mine result asks for the next search.
pub proof fn law_auto_mine_continues(state: MinerState)
    requires
        state.auto_mine,
    ensures
        miner_step(state, MinerEvent::TxResultLogged { is_mine: true }).1
            == MinerAction::RequestHashSearch,
{
}

/// A requested hash search always starts, whatever the miner was doing
/// (even while its last mine transaction is still being processed): the
/// miner is then mining and keeps its auto-mine setting. So with auto-mining
/// on, a logged mine result asks for the next search, and that search starts.
pub proof fn law_mine_for_hash_always_searches(state: MinerState)
    ensures
        miner_step(state, MinerEvent::MineForHash).1 == MinerAction::SpawnHashSearch,
        miner_step(state, MinerEvent::MineForHash).0.status == MinerStatus::Mining,
        miner_step(state, MinerEvent::MineForHash).0.auto_mine == state.auto_mine,
        state.auto_mine ==> ({
            let logged = miner_step(state, MinerEvent::TxResultLogged { is_mine: true });
            &&& logged.1 == MinerAction::RequestHashSearch
            &&& miner_step(logged.0, MinerEvent::MineForHash).1 == MinerAction::SpawnHashSearch
            &&& miner_step(logged.0, MinerEvent::MineForHash).0.status == MinerStatus::Mining
        }),
{
}

/// `i64` arithmetic that stops at the ends of the range, as `saturating_add`
/// and `saturating_sub` do.
pub open spec fn saturate_i64(x: int) -> i64 {
    if x > i64::MAX {
        i64::MAX
    } else if x < i64::MIN {
        i64::MIN
    } else {
        x as i64
    }
}

/// `i64::saturating_add`, written out: the sum clamped to the `i64` range.
pub fn saturating_add_i64(a: i64, b: i64) -> (r: i64)
    ensures
        r == saturate_i64(a + b),
{
    match a.checked_add(b) {
        Some(v) => v,
        None => if b > 0 {
            i64::MAX
        } else {
            i64::MIN
        },
    }
}

/// `i64::saturating_sub`, written out: the difference clamped to the `i64`
/// range.
pub fn saturating_sub_i64(a: i64, b: i64) -> (r: i64)
    ensures
        r == saturate_i64(a - b),
{
    match a.checked_sub(b) {
        Some(v) => v,
        None => if b < 0 {
            i64::MAX
        } else {
            i64::MIN
        },
    }
}

/// How long a hash search may run: until two seconds before a minute has
/// passed since the proof's last hash, counted from `now` and never below
/// zero, with the arithmetic saturating at the `i64` range.
pub open spec fn spec_hash_cutoff(last_hash_at: i64, now: u64) -> u64 {
    let t = saturate_i64(saturate_i64(saturate_i64(last_hash_at + 60) - 2) - (now as i64));
    if t < 0 {
        0
    } else {
        t as u64
    }
}

/// Seconds a hash search may run, from the proof's last hash time and the
/// current Unix time.
pub fn hash_cutoff_secs(last_hash_at: i64, now: u64) -> (secs: u64)
    ensures
        secs == spec_hash_cutoff(last_hash_at, now),
{
    let t = saturating_sub_i64(
        saturating_sub_i64(saturating_add_i64(last_hash_at, 60), 2),
        now as i64,
    );
    if t < 0 {
        0
    } else {
        t as u64
    }
}

/// Whether a mine transaction also carries an epoch reset: the epoch started
/// at `last_reset_at` ends within five seconds of `now` (or has ended).
pub fn epoch_reset_due(last_reset_at: i64, now: i64) -> (due: bool)
    requires
        last_reset_at + 60 <= i64::MAX,
        i64::MIN <= last_reset_at + 60 - now <= i64::MAX,
    ensures
        due == (last_reset_at + 60 - now <= 5),
{
    let time_until_reset = (last_reset_at + 60) - now;
    time_until_reset <= 5
}

/// Whether the treasury needs an epoch reset: the clock has reached the end
/// of the epoch that started at `last_reset_at` (saturating at the `i64`
/// range).
pub fn need_epoch_reset(clock_now: i64, last_reset_at: i64, epoch_duration: i64) -> (b: bool)
    ensures
        b == (clock_now >= saturate_i64(last_reset_at + epoch_duration)),
{
    clock_now >= saturating_add_i64(last_reset_at, epoch_duration)
}

} // verus!
