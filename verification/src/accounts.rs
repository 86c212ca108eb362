use vstd::prelude::*;
use crate::mining::MinerStatus;

verus! {

/// The wallet's proof account as the mining screen shows it.
pub struct ProofAccountResource {
    /// The current challenge, as text.
    pub challenge: String,
    /// Staked ORE, in the token's smallest unit.
    pub stake: u64,
    pub last_hash_at: i64,
    pub total_hashes: u64,
}

/// The values of a proof account resource.
pub struct ProofView {
    pub challenge: Seq<char>,
    pub stake: u64,
    pub last_hash_at: i64,
    pub total_hashes: u64,
}

impl View for ProofAccountResource {
    type V = ProofView;

    open spec fn view(&self) -> ProofView {
        ProofView {
            challenge: self.challenge@,
            stake: self.stake,
            last_hash_at: self.last_hash_at,
            total_hashes: self.total_hashes,
        }
    }
}

impl Default for ProofAccountResource {
    /// Before the first fetch: challenge `loading...`, all numbers zero.
    fn default() -> (p: Self)
        ensures
            p@ == (ProofView { challenge: "loading..."@, stake: 0, last_hash_at: 0, total_hashes: 0 }),
    {
        ProofAccountResource {
            challenge: String::from_str("loading..."),
            stake: 0,
            last_hash_at: 0,
            total_hashes: 0,
        }
    }
}

impl ProofAccountResource {
    /// What the screen shows when the wallet has no proof account: challenge
    /// `Not Found`, all numbers zero.
    pub fn not_found() -> (p: Self)
        ensures
            p@ == (ProofView { challenge: "Not Found"@, stake: 0, last_hash_at: 0, total_hashes: 0 }),
    {
        ProofAccountResource {
            challenge: String::from_str("Not Found"),
            stake: 0,
            last_hash_at: 0,
            total_hashes: 0,
        }
    }
}

/// A proof account as the chain reports it: its authority's key, its
/// challenge written as text, its balance, last hash time and hash count.
pub struct ProofData {
    pub authority: [u8; 32],
    pub challenge_text: String,
    pub balance: u64,
    pub last_hash_at: i64,
    pub total_hashes: u64,
}

/// A bus: its number and the rewards it still holds.
#[derive(Clone, Copy, PartialEq, Eq, Debug, Structural)]
pub struct BusInfo {
    pub id: u64,
    pub rewards: u64,
}

/// An account change pushed by the websocket subscriptions.
pub enum AccountUpdate {
    Proof(ProofData),
    Bus(BusInfo),
    TreasuryConfig { last_reset_at: i64, base_reward_rate: u64 },
}

/// What the mining screen knows about the on-chain accounts.
pub struct AccountsState {
    pub proof: ProofAccountResource,
    pub busses: Vec<BusInfo>,
    /// The bus the last mine transaction went to.
    pub current_bus_id: usize,
    pub last_reset_at: i64,
    /// The treasury's base reward rate, in the token's smallest unit.
    pub base_reward_rate: u64,
    /// Whether the treasury's epoch has run out.
    pub need_epoch_reset: bool,
    pub miners_this_epoch: u32,
    pub miners_last_epoch: u32,
}

/// The values of an accounts state.
pub struct AccountsView {
    pub proof: ProofView,
    pub busses: Seq<BusInfo>,
    pub current_bus_id: usize,
    pub last_reset_at: i64,
    pub base_reward_rate: u64,
    pub need_epoch_reset: bool,
    pub miners_this_epoch: u32,
    pub miners_last_epoch: u32,
}

impl View for AccountsState {
    type V = AccountsView;

    open spec fn view(&self) -> AccountsView {
        AccountsView {
            proof: self.proof@,
            busses: self.busses@,
            current_bus_id: self.current_bus_id,
            last_reset_at: self.last_reset_at,
            base_reward_rate: self.base_reward_rate,
            need_epoch_reset: self.need_epoch_reset,
            miners_this_epoch: self.miners_this_epoch,
            miners_last_epoch: self.miners_last_epoch,
        }
    }
}

impl AccountsState {
    /// The state before any fetch: the default proof, no busses, bus 0,
    /// epoch at 0, no reset needed, no miners counted.
    pub fn new() -> (s: Self)
        ensures
            s@ == (AccountsView {
                proof: ProofView { challenge: "loading..."@, stake: 0, last_hash_at: 0, total_hashes: 0 },
                busses: Seq::empty(),
                current_bus_id: 0,
                last_reset_at: 0,
                base_reward_rate: 0,
                need_epoch_reset: false,
                miners_this_epoch: 0,
                miners_last_epoch: 0,
            }),
    {
        AccountsState {
            proof: ProofAccountResource::default(),
            busses: Vec::new(),
            current_bus_id: 0,
            last_reset_at: 0,
            base_reward_rate: 0,
            need_epoch_reset: false,
            miners_this_epoch: 0,
            miners_last_epoch: 0,
        }
    }
}

/// The busses after an update for `bus`: every bus with its number is
/// replaced by it, the others stay.
pub open spec fn busses_after_update(busses: Seq<BusInfo>, bus: BusInfo) -> Seq<BusInfo> {
    busses.map_values(|b: BusInfo| if b.id == bus.id { bus } else { b })
}

/// The accounts state after a treasury configuration change: a new
/// `last_reset_at` starts a new epoch, which moves this epoch's miner count to
/// the last epoch and restarts it at zero.
pub open spec fn after_treasury_config(s: AccountsView, last_reset_at: i64, base_reward_rate: u64) -> AccountsView {
    if s.last_reset_at != last_reset_at {
        AccountsView {
            last_reset_at,
            base_reward_rate,
            miners_last_epoch: s.miners_this_epoch,
            miners_this_epoch: 0,
            ..s
        }
    } else {
        AccountsView { last_reset_at, base_reward_rate, ..s }
    }
}

/// Compares two account keys byte by byte.
pub fn keys_equal(a: &[u8; 32], b: &[u8; 32]) -> (eq: bool)
    ensures
        eq == (a@ == b@),
{
    let mut i: usize = 0;
    while i < 32
        invariant
            i <= 32,
            a@.len() == 32,
            b@.len() == 32,
            forall|j: int| 0 <= j < i ==> a@[j] == b@[j],
        decreases 32 - i,
    {
        if a[i] != b[i] {
            return false;
        }
        i = i + 1;
    }
    assert(a@ =~= b@);
    true
}

/// Replaces every bus that has the number of `bus` by `bus`.
pub fn update_bus(busses: &mut Vec<BusInfo>, bus: BusInfo)
    ensures
        final(busses)@ == busses_after_update(old(busses)@, bus),
{
    let n = busses.len();
    let mut i: usize = 0;
    while i < n
        invariant
            i <= n,
            n == old(busses)@.len(),
            busses@.len() == n,
            forall|j: int| 0 <= j < i ==> busses@[j] == (if old(busses)@[j].id == bus.id { bus } else { old(busses)@[j] }),
            forall|j: int| i <= j < n ==> busses@[j] == old(busses)@[j],
        decreases n - i,
    {
        if busses[i].id == bus.id {
            busses.set(i, bus);
        }
        i = i + 1;
    }
    assert(busses@ =~= busses_after_update(old(busses)@, bus));
}

impl AccountsState {
    /// Applies an account change pushed by a subscription. A proof account
    /// replaces the shown proof only when its authority is the unlocked
    /// wallet. Returns whether the change was a proof account, which the
    /// front end passes on as a proof-updated event.
    pub fn apply_update(&mut self, wallet: Option<&[u8; 32]>, update: AccountUpdate) -> (proof_event: bool)
        ensures
            proof_event == (update is Proof),
            match update {
                AccountUpdate::Proof(p) => if wallet is Some && p.authority@ == wallet->0@ {
                    final(self)@ == AccountsView {
                        proof: ProofView {
                            challenge: p.challenge_text@,
                            stake: p.balance,
                            last_hash_at: p.last_hash_at,
                            total_hashes: p.total_hashes,
                        },
                        ..old(self)@
                    }
                } else {
                    final(self)@ == old(self)@
                },
                AccountUpdate::Bus(b) => final(self)@ == AccountsView {
                    busses: busses_after_update(old(self)@.busses, b),
                    ..old(self)@
                },
                AccountUpdate::TreasuryConfig { last_reset_at, base_reward_rate } => final(self)@
                    == after_treasury_config(old(self)@, last_reset_at, base_reward_rate),
            },
    {
        match update {
            AccountUpdate::Proof(p) => {
                let from_wallet = match wallet {
                    Some(w) => keys_equal(&p.authority, w),
                    None => false,
                };
                if from_wallet {
                    self.proof = ProofAccountResource {
                        challenge: p.challenge_text,
                        stake: p.balance,
                        last_hash_at: p.last_hash_at,
                        total_hashes: p.total_hashes,
                    };
                }
                true
            },
            AccountUpdate::Bus(b) => {
                update_bus(&mut self.busses, b);
                false
            },
            AccountUpdate::TreasuryConfig { last_reset_at, base_reward_rate } => {
                if self.last_reset_at != last_reset_at {
                    self.miners_last_epoch = self.miners_this_epoch;
                    self.miners_this_epoch = 0;
                }
                self.last_reset_at = last_reset_at;
                self.base_reward_rate = base_reward_rate;
                false
            },
        }
    }
}

/// The treasury values a UI data fetch reads.
#[derive(Clone, Copy, PartialEq, Eq, Debug, Structural)]
pub struct TreasuryInfo {
    pub last_reset_at: i64,
    pub base_reward_rate: u64,
    pub need_epoch_reset: bool,
}

impl AccountsState {
    /// Takes over the result of a UI data fetch: the proof (or its not-found
    /// stand-in), the treasury values (all zero and no reset needed when the
    /// treasury could not be read) and the busses. The miner counts stay.
    pub fn apply_fetch(&mut self, proof: ProofAccountResource, treasury: Option<TreasuryInfo>, busses: Vec<BusInfo>)
        ensures
            final(self)@ == (AccountsView {
                proof: proof@,
                busses: busses@,
                last_reset_at: match treasury { Some(t) => t.last_reset_at, None => 0 },
                base_reward_rate: match treasury { Some(t) => t.base_reward_rate, None => 0 },
                need_epoch_reset: match treasury { Some(t) => t.need_epoch_reset, None => false },
                ..old(self)@
            }),
    {
        self.proof = proof;
        self.busses = busses;
        match treasury {
            Some(t) => {
                self.last_reset_at = t.last_reset_at;
                self.base_reward_rate = t.base_reward_rate;
                self.need_epoch_reset = t.need_epoch_reset;
            },
            None => {
                self.last_reset_at = 0;
                self.base_reward_rate = 0;
                self.need_epoch_reset = false;
            },
        }
    }
}

/// A bus update keeps the number of busses, replaces each bus that has the
/// updated number, and leaves every other bus as it was.
pub proof fn law_bus_update_replaces_only_matching(busses: Seq<BusInfo>, bus: BusInfo, i: int)
    requires
        0 <= i < busses.len(),
    ensures
        busses_after_update(busses, bus).len() == busses.len(),
        busses[i].id == bus.id ==> busses_after_update(busses, bus)[i] == bus,
        busses[i].id != bus.id ==> busses_after_update(busses, bus)[i] == busses[i],
{
}

/// Receiving the same treasury configuration twice has the effect of
/// receiving it once: the epoch's miner count is moved only once.
pub proof fn law_treasury_config_idempotent(s: AccountsView, last_reset_at: i64, base_reward_rate: u64)
    ensures
        after_treasury_config(
            after_treasury_config(s, last_reset_at, base_reward_rate),
            last_reset_at,
            base_reward_rate,
        ) == after_treasury_config(s, last_reset_at, base_reward_rate),
{
}

/// A configuration with the same `last_reset_at` leaves both miner counts
/// alone; a new one moves this epoch's count to the last epoch.
pub proof fn law_epoch_rollover(s: AccountsView, last_reset_at: i64, base_reward_rate: u64)
    ensures
        ({
            let t = after_treasury_config(s, last_reset_at, base_reward_rate);
            &&& s.last_reset_at == last_reset_at ==> t.miners_this_epoch == s.miners_this_epoch
                && t.miners_last_epoch == s.miners_last_epoch
            &&& s.last_reset_at != last_reset_at ==> t.miners_last_epoch == s.miners_this_epoch
                && t.miners_this_epoch == 0
            &&& t.last_reset_at == last_reset_at
        }),
{
}

/// The bus a mine transaction goes to: the first of the busses holding the
/// most rewards, or bus 0 while no busses are known.
pub fn find_best_bus(busses: &Vec<BusInfo>) -> (best: usize)
    ensures
        busses.len() == 0 ==> best == 0,
        busses.len() > 0 ==> {
            &&& best < busses.len()
            &&& forall|j: int| 0 <= j < busses.len() ==> busses@[j].rewards <= busses@[best as int].rewards
            &&& forall|j: int| 0 <= j < best ==> busses@[j].rewards < busses@[best as int].rewards
        },
{
    let n = busses.len();
    if n == 0 {
        return 0;
    }
    let mut best: usize = 0;
    let mut i: usize = 1;
    while i < n
        invariant
            1 <= i <= n,
            n == busses.len(),
            best < i,
            forall|j: int| 0 <= j < i ==> busses@[j].rewards <= busses@[best as int].rewards,
            forall|j: int| 0 <= j < best ==> busses@[j].rewards < busses@[best as int].rewards,
        decreases n - i,
    {
        if busses[i].rewards > busses[best].rewards {
            best = i;
        }
        i = i + 1;
    }
    best
}

/// How a bus row is drawn.
#[derive(Clone, Copy, PartialEq, Eq, Debug, Structural)]
pub enum BusHighlight {
    /// The bus of the transaction being submitted.
    Submitting,
    /// The bus of the last mine transaction, while not submitting.
    Selected,
    Plain,
}

/// How bus row `index` is drawn.
pub open spec fn bus_highlight(index: int, current_bus_id: usize, status: MinerStatus) -> BusHighlight {
    if index == current_bus_id {
        if status == MinerStatus::Processing {
            BusHighlight::Submitting
        } else {
            BusHighlight::Selected
        }
    } else {
        BusHighlight::Plain
    }
}

/// How the eight bus rows are drawn, or `None` (rows left as they are) while
/// fewer than eight busses are known.
pub fn bus_highlights(busses_len: usize, current_bus_id: usize, status: MinerStatus) -> (rows: Option<Vec<BusHighlight>>)
    ensures
        busses_len <= 7 ==> rows is None,
        busses_len > 7 ==> rows is Some && rows->0@ == Seq::new(8, |i: int| bus_highlight(i, current_bus_id, status)),
{
    if busses_len <= 7 {
        return None;
    }
    let mut rows: Vec<BusHighlight> = Vec::new();
    let mut i: usize = 0;
    while i < 8
        invariant
            i <= 8,
            rows@ == Seq::new(i as nat, |k: int| bus_highlight(k, current_bus_id, status)),
        decreases 8 - i,
    {
        let row = if i == current_bus_id {
            if status == MinerStatus::Processing {
                BusHighlight::Submitting
            } else {
                BusHighlight::Selected
            }
        } else {
            BusHighlight::Plain
        };
        rows.push(row);
        i = i + 1;
        assert(rows@ =~= Seq::new(i as nat, |k: int| bus_highlight(k, current_bus_id, status)));
    }
    Some(rows)
}

} // verus!
