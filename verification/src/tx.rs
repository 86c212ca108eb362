use vstd::prelude::*;
use crate::accounts::ProofAccountResource;
use crate::text::{decimal_string, decimal_text, parse_u64, texts_equal, u64_text_value};

verus! {

/// The kinds of transaction the app sends.
#[derive(Clone, Copy, PartialEq, Eq, Debug, Structural)]
pub enum TxType {
    Mine,
    Register,
    ResetEpoch,
    CreateAta,
    Stake,
    Claim,
    Airdrop,
}

/// The name a transaction kind is shown under.
pub open spec fn tx_type_label(t: TxType) -> Seq<char> {
    match t {
        TxType::Mine => "Mine"@,
        TxType::Register => "Register"@,
        TxType::ResetEpoch => "Reset"@,
        TxType::CreateAta => "Create Ata"@,
        TxType::Stake => "Stake"@,
        TxType::Claim => "Claim"@,
        TxType::Airdrop => "Airdrop"@,
    }
}

impl TxType {
    /// The name the transaction list shows for this kind.
    pub fn to_string(&self) -> (s: String)
        ensures
            s@ == tx_type_label(*self),
    {
        match self {
            TxType::Mine => String::from_str("Mine"),
            TxType::Register => String::from_str("Register"),
            TxType::ResetEpoch => String::from_str("Reset"),
            TxType::CreateAta => String::from_str("Create Ata"),
            TxType::Stake => String::from_str("Stake"),
            TxType::Claim => String::from_str("Claim"),
            TxType::Airdrop => String::from_str("Airdrop"),
        }
    }
}

/// How a finished transaction-building task is handled, by the name it gives.
#[derive(Clone, Copy, PartialEq, Eq, Debug, Structural)]
pub enum TaskTxKind {
    /// A transaction to send and follow.
    Follow(TxType),
    /// An airdrop, which is done once it is sent.
    Airdrop,
    /// A name the app does not know.
    Unknown,
}

/// The kind a task name stands for.
pub open spec fn task_tx_kind(name: Seq<char>) -> TaskTxKind {
    if name == "Mine"@ {
        TaskTxKind::Follow(TxType::Mine)
    } else if name == "Register"@ {
        TaskTxKind::Follow(TxType::Register)
    } else if name == "Reset"@ {
        TaskTxKind::Follow(TxType::ResetEpoch)
    } else if name == "Claim"@ {
        TaskTxKind::Follow(TxType::Claim)
    } else if name == "Stake"@ {
        TaskTxKind::Follow(TxType::Stake)
    } else if name == "CreateAta"@ {
        TaskTxKind::Follow(TxType::CreateAta)
    } else if name == "Airdrop"@ {
        TaskTxKind::Airdrop
    } else {
        TaskTxKind::Unknown
    }
}

/// Reads the kind of transaction a task built from the name it gives.
pub fn task_kind(name: &str) -> (k: TaskTxKind)
    ensures
        k == task_tx_kind(name@),
{
    if texts_equal(name, "Mine") {
        TaskTxKind::Follow(TxType::Mine)
    } else if texts_equal(name, "Register") {
        TaskTxKind::Follow(TxType::Register)
    } else if texts_equal(name, "Reset") {
        TaskTxKind::Follow(TxType::ResetEpoch)
    } else if texts_equal(name, "Claim") {
        TaskTxKind::Follow(TxType::Claim)
    } else if texts_equal(name, "Stake") {
        TaskTxKind::Follow(TxType::Stake)
    } else if texts_equal(name, "CreateAta") {
        TaskTxKind::Follow(TxType::CreateAta)
    } else if texts_equal(name, "Airdrop") {
        TaskTxKind::Airdrop
    } else {
        TaskTxKind::Unknown
    }
}

/// The progress of a sent transaction.
#[derive(Clone, Copy, PartialEq, Eq, Debug, Structural)]
pub enum TxProgress {
    Sending,
    Processed,
    Success,
    Failed,
}

/// The status word shown for a transaction's progress.
pub open spec fn tx_progress_label(p: TxProgress) -> Seq<char> {
    match p {
        TxProgress::Sending => "SENDING"@,
        TxProgress::Processed => "PROCESSED"@,
        TxProgress::Success => "SUCCESS"@,
        TxProgress::Failed => "FAILED"@,
    }
}

impl TxProgress {
    /// The status word: `SENDING`, `PROCESSED`, `SUCCESS` or `FAILED`.
    pub fn status_text(&self) -> (s: String)
        ensures
            s@ == tx_progress_label(*self),
    {
        match self {
            TxProgress::Sending => String::from_str("SENDING"),
            TxProgress::Processed => String::from_str("PROCESSED"),
            TxProgress::Success => String::from_str("SUCCESS"),
            TxProgress::Failed => String::from_str("FAILED"),
        }
    }

    /// Whether the transaction is finished: it succeeded or failed.
    pub open spec fn spec_is_final(self) -> bool {
        self == TxProgress::Success || self == TxProgress::Failed
    }
}

/// A transaction's status line and error text.
#[derive(Clone, Debug)]
pub struct TxStatus {
    pub status: String,
    pub error: String,
}

/// How long a hash search took and the difficulty it reached.
#[derive(Clone, Copy, PartialEq, Eq, Debug, Structural)]
pub struct HashStatus {
    pub hash_time: u64,
    pub hash_difficulty: u32,
}

/// A transaction that is being sent and followed until it is confirmed.
pub struct TxProcessor {
    pub tx_type: TxType,
    pub status: TxProgress,
    pub error: String,
    /// The stake when a mine transaction was sent, to show what it earned.
    pub staked_balance: Option<u64>,
    /// The proof challenge when the transaction was sent.
    pub challenge: String,
    /// The transaction's signature, once a send returned one.
    pub signature: Option<String>,
    pub hash_status: Option<HashStatus>,
}

/// The values of a transaction processor.
pub struct TxProcessorView {
    pub tx_type: TxType,
    pub status: TxProgress,
    pub error: Seq<char>,
    pub staked_balance: Option<u64>,
    pub challenge: Seq<char>,
    pub signature: Option<Seq<char>>,
    pub hash_status: Option<HashStatus>,
}

pub open spec fn opt_text(s: Option<String>) -> Option<Seq<char>> {
    match s {
        Some(t) => Some(t@),
        None => None,
    }
}

impl View for TxProcessor {
    type V = TxProcessorView;

    open spec fn view(&self) -> TxProcessorView {
        TxProcessorView {
            tx_type: self.tx_type,
            status: self.status,
            error: self.error@,
            staked_balance: self.staked_balance,
            challenge: self.challenge@,
            signature: opt_text(self.signature),
            hash_status: self.hash_status,
        }
    }
}

/// The stake a new transaction remembers: for a mine transaction sent between
/// 54 and 61 seconds after the proof's last hash (the hash time read as a
/// `u64`, as the clock's seconds are), the current stake; nothing otherwise.
pub open spec fn tracked_stake(tx_type: TxType, now: u64, last_hash_at: i64, stake: u64) -> Option<u64> {
    if tx_type == TxType::Mine {
        let since = now - (last_hash_at as u64);
        if since >= 62 || since <= 53 {
            None
        } else {
            Some(stake)
        }
    } else {
        None
    }
}

/// A hash search's time and difficulty, as a hash status.
pub open spec fn hash_status_of(hash_time: Option<(u64, u32)>) -> Option<HashStatus> {
    match hash_time {
        Some(h) => Some(HashStatus { hash_time: h.0, hash_difficulty: h.1 }),
        None => None,
    }
}

/// The empty text.
pub open spec fn no_text() -> Seq<char> {
    Seq::empty()
}

impl TxProcessor {
    /// A freshly sent transaction: sending, no error, no signature yet, the
    /// proof's current challenge, and for a mine transaction the stake to
    /// compare against later. For a mine transaction the proof's last hash
    /// time, read as a `u64`, must not lie after `now`.
    pub fn new(tx_type: TxType, hash_time: Option<(u64, u32)>, now: u64, proof: &ProofAccountResource) -> (p: Self)
        requires
            tx_type == TxType::Mine ==> (proof.last_hash_at as u64) <= now,
        ensures
            p@ == (TxProcessorView {
                tx_type,
                status: TxProgress::Sending,
                error: no_text(),
                staked_balance: tracked_stake(tx_type, now, proof.last_hash_at, proof.stake),
                challenge: proof.challenge@,
                signature: None,
                hash_status: hash_status_of(hash_time),
            }),
    {
        let staked_balance = if tx_type == TxType::Mine {
            let since = now - (proof.last_hash_at as u64);
            if since >= 62 || since <= 53 {
                None
            } else {
                Some(proof.stake)
            }
        } else {
            None
        };
        let hash_status = match hash_time {
            Some(h) => Some(HashStatus { hash_time: h.0, hash_difficulty: h.1 }),
            None => None,
        };
        TxProcessor {
            tx_type,
            status: TxProgress::Sending,
            error: String::new(),
            staked_balance,
            challenge: proof.challenge.clone(),
            signature: None,
            hash_status,
        }
    }

    /// Whether the transaction is sent again when its send interval comes
    /// round: as long as it has neither succeeded nor failed.
    pub fn should_resend(&self) -> (b: bool)
        ensures
            b == !self.status.spec_is_final(),
    {
        !(self.status == TxProgress::Success || self.status == TxProgress::Failed)
    }

    /// Records the outcome of one send: a returned signature replaces the
    /// known one; a failed send changes nothing.
    pub fn record_send(&mut self, signature: Option<String>)
        ensures
            final(self)@ == (match signature {
                Some(s) => TxProcessorView { signature: Some(s@), ..old(self)@ },
                None => old(self)@,
            }),
    {
        match signature {
            Some(s) => {
                self.signature = Some(s);
            },
            None => {},
        }
    }
}

/// How far the cluster has confirmed a transaction.
#[derive(Clone, Copy, PartialEq, Eq, Debug, Structural)]
pub enum Commitment {
    Processed,
    Confirmed,
    Finalized,
}

/// What a signature lookup reports: the confirmation level, if any, and the
/// transaction's error, if it failed.
pub struct SignatureStatus {
    pub confirmation: Option<Commitment>,
    pub error: Option<String>,
}

/// The progress and error text a signature lookup sets, or `None` when it
/// reports no confirmation yet (which leaves the transaction as it was).
pub open spec fn checked_progress(status: Option<SignatureStatus>) -> Option<(TxProgress, Seq<char>)> {
    match status {
        None => None,
        Some(s) => match s.confirmation {
            None => None,
            Some(c) => match s.error {
                Some(e) => Some((TxProgress::Failed, e@)),
                None => if c == Commitment::Processed {
                    Some((TxProgress::Processed, no_text()))
                } else {
                    Some((TxProgress::Success, no_text()))
                },
            },
        },
    }
}

/// A transaction after a signature lookup.
pub open spec fn after_signature_check(p: TxProcessorView, status: Option<SignatureStatus>) -> TxProcessorView {
    match checked_progress(status) {
        Some(r) => TxProcessorView { status: r.0, error: r.1, ..p },
        None => p,
    }
}

impl TxProcessor {
    /// Applies a signature lookup: processed, confirmed or finalized without
    /// error gives `PROCESSED`, `SUCCESS`, `SUCCESS`; with an error, `FAILED`
    /// and that error.
    pub fn apply_signature_status(&mut self, status: &Option<SignatureStatus>)
        ensures
            final(self)@ == after_signature_check(old(self)@, *status),
    {
        match status {
            None => {},
            Some(s) => match s.confirmation {
                None => {},
                Some(c) => match &s.error {
                    Some(e) => {
                        self.status = TxProgress::Failed;
                        self.error = e.clone();
                    },
                    None => {
                        if c == Commitment::Processed {
                            self.status = TxProgress::Processed;
                        } else {
                            self.status = TxProgress::Success;
                        }
                        self.error = String::new();
                    },
                },
            },
        }
    }
}

pub open spec fn processor_views(ps: Seq<TxProcessor>) -> Seq<TxProcessorView> {
    ps.map_values(|p: TxProcessor| p@)
}

/// The transactions after the first `k` results of a batch of signature
/// lookups, each applied to the transaction its target index names (results
/// whose target is out of range are skipped).
pub open spec fn after_signature_checks(
    ps: Seq<TxProcessorView>,
    targets: Seq<usize>,
    statuses: Seq<Option<SignatureStatus>>,
    k: int,
) -> Seq<TxProcessorView>
    decreases k,
{
    if k <= 0 {
        ps
    } else {
        let prev = after_signature_checks(ps, targets, statuses, k - 1);
        let t = targets[k - 1] as int;
        if t < prev.len() {
            prev.update(t, after_signature_check(prev[t], statuses[k - 1]))
        } else {
            prev
        }
    }
}

proof fn lemma_after_signature_checks_len(
    ps: Seq<TxProcessorView>,
    targets: Seq<usize>,
    statuses: Seq<Option<SignatureStatus>>,
    k: int,
)
    ensures
        after_signature_checks(ps, targets, statuses, k).len() == ps.len(),
    decreases k,
{
    if k > 0 {
        lemma_after_signature_checks_len(ps, targets, statuses, k - 1);
    }
}

/// Applies a batch of signature lookups: result `i` goes to the transaction
/// at `targets[i]`. When the batch's target, signature and result counts
/// differ, nothing is applied and `false` is returned.
pub fn apply_signature_checks(
    processors: &mut Vec<TxProcessor>,
    targets: &Vec<usize>,
    signatures_len: usize,
    statuses: &Vec<Option<SignatureStatus>>,
) -> (applied: bool)
    ensures
        applied == (targets.len() == signatures_len && signatures_len == statuses.len()),
        applied ==> processor_views(final(processors)@) == after_signature_checks(
            processor_views(old(processors)@),
            targets@,
            statuses@,
            targets.len() as int,
        ),
        !applied ==> processor_views(final(processors)@) == processor_views(old(processors)@),
{
    if !(targets.len() == signatures_len && signatures_len == statuses.len()) {
        return false;
    }
    let n = targets.len();
    let mut i: usize = 0;
    while i < n
        invariant
            i <= n,
            n == targets.len(),
            n == statuses.len(),
            processor_views(processors@) == after_signature_checks(
                processor_views(old(processors)@),
                targets@,
                statuses@,
                i as int,
            ),
        decreases n - i,
    {
        let t = targets[i];
        proof {
            lemma_after_signature_checks_len(processor_views(old(processors)@), targets@, statuses@, i as int);
        }
        let ghost before = processor_views(processors@);
        if t < processors.len() {
            let mut p = processors.remove(t);
            assert(p@ == before[t as int]);
            p.apply_signature_status(&statuses[i]);
            processors.insert(t, p);
            assert(processor_views(processors@) =~= before.update(t as int, after_signature_check(before[t as int], statuses@[i as int])));
        }
        i = i + 1;
    }
    true
}

/// A signature lookup that reports a confirmation level decides the
/// transaction's progress. With an error the transaction has failed, with
/// exactly that error, whatever the level; without one it is processed at
/// `Processed` and has succeeded at `Confirmed` or `Finalized`, with no error
/// left. A lookup without a confirmation level (or without a status) leaves
/// the transaction as it was, and a lookup never changes anything but the
/// progress and the error.
pub proof fn law_signature_lookup_outcome(p: TxProcessorView, status: Option<SignatureStatus>)
    ensures
        ({
            let q = after_signature_check(p, status);
            &&& q.tx_type == p.tx_type
            &&& q.staked_balance == p.staked_balance
            &&& q.challenge == p.challenge
            &&& q.signature == p.signature
            &&& q.hash_status == p.hash_status
            &&& (status is Some && status->0.confirmation is Some && status->0.error is Some)
                ==> q.status == TxProgress::Failed && q.error == status->0.error->0@
            &&& (status is Some && status->0.confirmation == Some(Commitment::Processed)
                && status->0.error is None) ==> q.status == TxProgress::Processed && q.error.len() == 0
            &&& (status is Some && (status->0.confirmation == Some(Commitment::Confirmed)
                || status->0.confirmation == Some(Commitment::Finalized)) && status->0.error is None)
                ==> q.status == TxProgress::Success && q.error.len() == 0
            &&& (status is None || status->0.confirmation is None) ==> q == p
        }),
{
}

proof fn lemma_untargeted_unchanged(
    ps: Seq<TxProcessorView>,
    targets: Seq<usize>,
    statuses: Seq<Option<SignatureStatus>>,
    k: int,
    idx: int,
)
    requires
        0 <= k <= targets.len(),
        0 <= idx < ps.len(),
        forall|j: int| 0 <= j < k ==> targets[j] != idx,
    ensures
        after_signature_checks(ps, targets, statuses, k)[idx] == ps[idx],
    decreases k,
{
    if k > 0 {
        lemma_untargeted_unchanged(ps, targets, statuses, k - 1, idx);
        lemma_after_signature_checks_len(ps, targets, statuses, k - 1);
    }
}

proof fn lemma_single_target_applied(
    ps: Seq<TxProcessorView>,
    targets: Seq<usize>,
    statuses: Seq<Option<SignatureStatus>>,
    i: int,
    k: int,
)
    requires
        0 <= i < k <= targets.len(),
        targets[i] < ps.len(),
        forall|j: int| 0 <= j < k && j != i ==> targets[j] != targets[i],
    ensures
        after_signature_checks(ps, targets, statuses, k)[targets[i] as int]
            == after_signature_check(ps[targets[i] as int], statuses[i]),
    decreases k,
{
    let t = targets[i] as int;
    lemma_after_signature_checks_len(ps, targets, statuses, k - 1);
    if k == i + 1 {
        lemma_untargeted_unchanged(ps, targets, statuses, i, t);
    } else {
        lemma_single_target_applied(ps, targets, statuses, i, k - 1);
    }
}

/// Every result of a batch of signature lookups is applied: a transaction
/// that exactly one lookup of the batch targets ends as that single lookup
/// makes it (so a batch of one in-range lookup changes its transaction just as
/// `apply_signature_status` does), and a transaction that no lookup targets is
/// left as it was. The batch keeps the number of transactions.
pub proof fn law_signature_batch_applies_each(
    ps: Seq<TxProcessorView>,
    targets: Seq<usize>,
    statuses: Seq<Option<SignatureStatus>>,
    i: int,
    idx: int,
)
    requires
        0 <= i < targets.len(),
        targets[i] < ps.len(),
        forall|j: int| 0 <= j < targets.len() && j != i ==> targets[j] != targets[i],
        0 <= idx < ps.len(),
    ensures
        after_signature_checks(ps, targets, statuses, targets.len() as int).len() == ps.len(),
        after_signature_checks(ps, targets, statuses, targets.len() as int)[targets[i] as int]
            == after_signature_check(ps[targets[i] as int], statuses[i]),
        (forall|j: int| 0 <= j < targets.len() ==> targets[j] != idx)
            ==> after_signature_checks(ps, targets, statuses, targets.len() as int)[idx] == ps[idx],
{
    lemma_after_signature_checks_len(ps, targets, statuses, targets.len() as int);
    lemma_single_target_applied(ps, targets, statuses, i, targets.len() as int);
    if forall|j: int| 0 <= j < targets.len() ==> targets[j] != idx {
        lemma_untargeted_unchanged(ps, targets, statuses, targets.len() as int, idx);
    }
}

/// What a finished transaction reports to the transaction list.
pub struct TxResultRecord {
    /// The name the transaction is listed under.
    pub tx_type: String,
    pub sig: String,
    /// Seconds from sending to the report.
    pub tx_time: u64,
    pub hash_status: Option<HashStatus>,
    pub tx_status: TxStatus,
    /// For a mine transaction whose stake was remembered, the stake it added
    /// (shown as `+… ORE.` after the status).
    pub ore_gain: Option<u64>,
}

/// The values of a report.
pub struct TxResultView {
    pub tx_type: Seq<char>,
    pub sig: Seq<char>,
    pub tx_time: u64,
    pub hash_status: Option<HashStatus>,
    pub status: Seq<char>,
    pub error: Seq<char>,
    pub ore_gain: Option<u64>,
}

impl View for TxResultRecord {
    type V = TxResultView;

    open spec fn view(&self) -> TxResultView {
        TxResultView {
            tx_type: self.tx_type@,
            sig: self.sig@,
            tx_time: self.tx_time,
            hash_status: self.hash_status,
            status: self.tx_status.status@,
            error: self.tx_status.error@,
            ore_gain: self.ore_gain,
        }
    }
}

/// The signature text a finished transaction reports: its signature, or
/// `FAILED` when no send returned one.
pub open spec fn reported_signature(p: TxProcessorView) -> Seq<char> {
    match p.signature {
        Some(s) => s,
        None => "FAILED"@,
    }
}

/// What a transaction reports when its result is checked: nothing until it
/// has succeeded or failed; a succeeded mine transaction with a remembered
/// stake waits for the proof's challenge to change and then reports the stake
/// it added; every other finished transaction reports at once.
pub open spec fn finished_report(p: TxProcessorView, proof_challenge: Seq<char>, proof_stake: u64, elapsed: u64) -> Option<TxResultView> {
    if !p.status.spec_is_final() {
        None
    } else {
        let report = TxResultView {
            tx_type: tx_type_label(p.tx_type),
            sig: reported_signature(p),
            tx_time: elapsed,
            hash_status: p.hash_status,
            status: tx_progress_label(p.status),
            error: p.error,
            ore_gain: None,
        };
        if p.tx_type == TxType::Mine && p.status == TxProgress::Success && p.staked_balance is Some {
            if p.challenge != proof_challenge {
                Some(TxResultView { ore_gain: Some((proof_stake - p.staked_balance->0) as u64), ..report })
            } else {
                None
            }
        } else {
            Some(report)
        }
    }
}

impl TxProcessor {
    /// Checks whether the transaction has a result to report, `elapsed`
    /// seconds after it was created. An airdrop must carry its signature once
    /// it is finished, and a mine transaction that waits on a new challenge
    /// must not have lost stake by then.
    pub fn finished_report(&self, proof: &ProofAccountResource, elapsed: u64) -> (r: Option<TxResultRecord>)
        requires
            self.status.spec_is_final() && self.tx_type == TxType::Airdrop ==> self.signature is Some,
            self.tx_type == TxType::Mine && self.status == TxProgress::Success
                && self.staked_balance is Some && self.challenge@ != proof.challenge@
                ==> proof.stake >= self.staked_balance->0,
        ensures
            match finished_report(self@, proof.challenge@, proof.stake, elapsed) {
                Some(v) => r is Some && r->0@ == v,
                None => r is None,
            },
    {
        if !(self.status == TxProgress::Success || self.status == TxProgress::Failed) {
            return None;
        }
        let mut ore_gain: Option<u64> = None;
        if self.tx_type == TxType::Mine && self.status == TxProgress::Success {
            match self.staked_balance {
                Some(prev) => {
                    if texts_equal(self.challenge.as_str(), proof.challenge.as_str()) {
                        return None;
                    }
                    ore_gain = Some(proof.stake - prev);
                },
                None => {},
            }
        }
        let sig = match &self.signature {
            Some(s) => s.clone(),
            None => String::from_str("FAILED"),
        };
        Some(
            TxResultRecord {
                tx_type: self.tx_type.to_string(),
                sig,
                tx_time: elapsed,
                hash_status: self.hash_status,
                tx_status: TxStatus { status: self.status.status_text(), error: self.error.clone() },
                ore_gain,
            },
        )
    }
}

/// A failed transaction is reported at once, whatever its kind, its
/// remembered stake or the proof's challenge: under its kind's name, as
/// `FAILED` with its error, the elapsed time, and no ORE gain. A transaction
/// that has not finished is never reported, and the only finished one that
/// waits is a succeeded mine transaction with a remembered stake while the
/// proof's challenge is still the one it was sent under.
pub proof fn law_failed_transactions_report_at_once(
    p: TxProcessorView,
    proof_challenge: Seq<char>,
    proof_stake: u64,
    elapsed: u64,
)
    ensures
        p.status == TxProgress::Failed ==> ({
            let r = finished_report(p, proof_challenge, proof_stake, elapsed);
            &&& r is Some
            &&& r->0.tx_type == tx_type_label(p.tx_type)
            &&& r->0.status == "FAILED"@
            &&& r->0.error == p.error
            &&& r->0.tx_time == elapsed
            &&& r->0.ore_gain is None
        }),
        (p.status == TxProgress::Sending || p.status == TxProgress::Processed)
            ==> finished_report(p, proof_challenge, proof_stake, elapsed) is None,
        (p.status == TxProgress::Success || p.status == TxProgress::Failed)
            && finished_report(p, proof_challenge, proof_stake, elapsed) is None ==> {
            &&& p.status == TxProgress::Success
            &&& p.tx_type == TxType::Mine
            &&& p.staked_balance is Some
            &&& p.challenge == proof_challenge
        },
{
}

/// What a transaction-building task hands back: the name of what it built,
/// the signature of an already sent transaction, and the hash search's time
/// and difficulty for a mine transaction.
pub struct TaskTxData {
    pub tx_type: String,
    pub signature: Option<String>,
    pub hash_time: Option<(u64, u32)>,
}

/// What becomes of a finished transaction-building task.
pub enum ProcessedTask {
    /// Send and follow this transaction.
    Track(TxProcessor),
    /// List this result at once.
    Report(TxResultRecord),
    /// Drop the task (its name is unknown).
    Ignore,
}

/// The report for a task that failed: listed under its name, with its
/// signature if any (else empty), as `FAILED` with the task's error.
pub open spec fn failed_task_report(data: TaskTxData, error: Seq<char>) -> TxResultView {
    TxResultView {
        tx_type: data.tx_type@,
        sig: match data.signature {
            Some(s) => s@,
            None => no_text(),
        },
        tx_time: 0,
        hash_status: None,
        status: "FAILED"@,
        error,
        ore_gain: None,
    }
}

/// Turns a finished transaction-building task into a transaction to follow,
/// an immediate report, or nothing. An airdrop task must carry its signature,
/// and for a mine task the proof's last hash time, read as a `u64`, must not
/// lie after `now`.
pub fn process_task_result(task: Result<TaskTxData, (TaskTxData, String)>, now: u64, proof: &ProofAccountResource) -> (out: ProcessedTask)
    requires
        task matches Ok(d) ==> (task_tx_kind(d.tx_type@) == TaskTxKind::Airdrop ==> d.signature is Some),
        task matches Ok(d) ==> (task_tx_kind(d.tx_type@) == TaskTxKind::Follow(TxType::Mine)
            ==> (proof.last_hash_at as u64) <= now),
    ensures
        match task {
            Ok(d) => match task_tx_kind(d.tx_type@) {
                TaskTxKind::Follow(t) => out matches ProcessedTask::Track(p) && p@ == (TxProcessorView {
                    tx_type: t,
                    status: TxProgress::Sending,
                    error: no_text(),
                    staked_balance: tracked_stake(t, now, proof.last_hash_at, proof.stake),
                    challenge: proof.challenge@,
                    signature: None,
                    hash_status: hash_status_of(d.hash_time),
                }),
                TaskTxKind::Airdrop => out matches ProcessedTask::Report(r) && r@ == (TxResultView {
                    tx_type: d.tx_type@,
                    sig: d.signature->0@,
                    tx_time: 0,
                    hash_status: None,
                    status: "SUCCESS"@,
                    error: no_text(),
                    ore_gain: None,
                }),
                TaskTxKind::Unknown => out is Ignore,
            },
            Err((d, e)) => out matches ProcessedTask::Report(r) && r@ == failed_task_report(d, e@),
        },
{
    match task {
        Ok(d) => match task_kind(d.tx_type.as_str()) {
            TaskTxKind::Follow(t) => ProcessedTask::Track(TxProcessor::new(t, d.hash_time, now, proof)),
            TaskTxKind::Airdrop => {
                let sig = match d.signature {
                    Some(s) => s,
                    None => String::new(),
                };
                ProcessedTask::Report(
                    TxResultRecord {
                        tx_type: d.tx_type,
                        sig,
                        tx_time: 0,
                        hash_status: None,
                        tx_status: TxStatus { status: String::from_str("SUCCESS"), error: String::new() },
                        ore_gain: None,
                    },
                )
            },
            TaskTxKind::Unknown => ProcessedTask::Ignore,
        },
        Err((d, e)) => {
            let sig = match d.signature {
                Some(s) => s,
                None => String::new(),
            };
            ProcessedTask::Report(
                TxResultRecord {
                    tx_type: d.tx_type,
                    sig,
                    tx_time: 0,
                    hash_status: None,
                    tx_status: TxStatus { status: String::from_str("FAILED"), error: e },
                    ore_gain: None,
                },
            )
        },
    }
}


/// The name a transaction kind is listed under reads back as that kind for
/// mine, register, reset, stake and claim transactions.
pub proof fn law_listed_name_reads_back(t: TxType)
    requires
        t != TxType::CreateAta,
        t != TxType::Airdrop,
    ensures
        task_tx_kind(tx_type_label(t)) == TaskTxKind::Follow(t),
{
    reveal_strlit("Mine");
    reveal_strlit("Register");
    reveal_strlit("Reset");
    reveal_strlit("Claim");
    reveal_strlit("Stake");
    let l = tx_type_label(t);
    if t != TxType::Mine {
        assert(l != "Mine"@) by {
            if l == "Mine"@ {
                assert(l[0] == "Mine"@[0]);
            }
        }
    }
    if t != TxType::Mine && t != TxType::Register {
        assert(l != "Register"@) by {
            if l == "Register"@ {
                assert(l.len() == "Register"@.len());
            }
        }
    }
    if t == TxType::Claim || t == TxType::Stake {
        assert(l != "Reset"@) by {
            if l == "Reset"@ {
                assert(l[0] == "Reset"@[0]);
            }
        }
    }
    if t == TxType::Stake {
        assert(l != "Claim"@) by {
            if l == "Claim"@ {
                assert(l[0] == "Claim"@[0]);
            }
        }
    }
}

/// What a wallet registration comes to.
#[derive(Clone, Copy, PartialEq, Eq, Debug, Structural)]
pub enum RegisterDecision {
    /// The wallet already has a proof account; nothing is sent.
    AlreadyRegistered,
    /// The balance could not be read; nothing is sent.
    BalanceUnavailable,
    /// The wallet holds no SOL; nothing is sent.
    InsufficientBalance,
    /// Send a registration transaction (listed as `Register`).
    SendRegister,
}

/// Decides a wallet registration from whether its proof account exists and
/// its SOL balance in lamports (`None` when the lookup failed).
pub fn register_decision(proof_exists: bool, balance: Option<u64>) -> (d: RegisterDecision)
    ensures
        d == (if proof_exists {
            RegisterDecision::AlreadyRegistered
        } else {
            match balance {
                None => RegisterDecision::BalanceUnavailable,
                Some(b) => if b == 0 {
                    RegisterDecision::InsufficientBalance
                } else {
                    RegisterDecision::SendRegister
                },
            }
        }),
{
    if proof_exists {
        return RegisterDecision::AlreadyRegistered;
    }
    match balance {
        None => RegisterDecision::BalanceUnavailable,
        Some(b) => if b == 0 {
            RegisterDecision::InsufficientBalance
        } else {
            RegisterDecision::SendRegister
        },
    }
}

/// What a claim of mining rewards comes to.
#[derive(Clone, Copy, PartialEq, Eq, Debug, Structural)]
pub enum ClaimDecision {
    /// Claim this amount into the wallet's token account (task `Claim`).
    Claim { amount: u64 },
    /// The wallet has no token account yet: create it (task `CreateAta`).
    CreateTokenAccount,
}

/// Decides a claim: the whole stake when the wallet's token account exists,
/// otherwise creating that account first.
pub fn claim_decision(token_account_exists: bool, stake: u64) -> (d: ClaimDecision)
    ensures
        d == (if token_account_exists {
            ClaimDecision::Claim { amount: stake }
        } else {
            ClaimDecision::CreateTokenAccount
        }),
{
    if token_account_exists {
        ClaimDecision::Claim { amount: stake }
    } else {
        ClaimDecision::CreateTokenAccount
    }
}

impl ClaimDecision {
    /// The name the claim task reports: `Claim` or `CreateAta`.
    pub fn task_name(&self) -> (s: String)
        ensures
            s@ == (match *self {
                ClaimDecision::Claim { .. } => "Claim"@,
                ClaimDecision::CreateTokenAccount => "CreateAta"@,
            }),
    {
        match self {
            ClaimDecision::Claim { .. } => String::from_str("Claim"),
            ClaimDecision::CreateTokenAccount => String::from_str("CreateAta"),
        }
    }
}

/// What staking comes to.
#[derive(Clone, Copy, PartialEq, Eq, Debug, Structural)]
pub enum StakeDecision {
    /// Stake this amount from the wallet's token account (task `Stake`).
    Stake { amount: u64 },
    /// The token account's amount is not a number; nothing is sent.
    UnreadableAmount,
    /// The wallet has no token account yet: create it (task `Create ATA`).
    CreateTokenAccount,
}

/// Decides staking from the wallet's token account amount as the RPC writes
/// it (`None` when there is no token account): the whole amount is staked.
pub fn stake_decision(token_amount: Option<&str>) -> (d: StakeDecision)
    ensures
        d == (match token_amount {
            None => StakeDecision::CreateTokenAccount,
            Some(a) => match u64_text_value(a@) {
                Some(v) => StakeDecision::Stake { amount: v },
                None => StakeDecision::UnreadableAmount,
            },
        }),
{
    match token_amount {
        None => StakeDecision::CreateTokenAccount,
        Some(a) => match parse_u64(a) {
            Some(v) => StakeDecision::Stake { amount: v },
            None => StakeDecision::UnreadableAmount,
        },
    }
}

impl StakeDecision {
    /// The name the stake task reports: `Stake`, or `Create ATA` for the
    /// account creation; nothing when no transaction is built.
    pub fn task_name(&self) -> (s: Option<String>)
        ensures
            match *self {
                StakeDecision::Stake { .. } => s is Some && s->0@ == "Stake"@,
                StakeDecision::UnreadableAmount => s is None,
                StakeDecision::CreateTokenAccount => s is Some && s->0@ == "Create ATA"@,
            },
    {
        match self {
            StakeDecision::Stake { .. } => Some(String::from_str("Stake")),
            StakeDecision::UnreadableAmount => None,
            StakeDecision::CreateTokenAccount => Some(String::from_str("Create ATA")),
        }
    }
}

/// A row of the transaction list.
pub struct UiListItem {
    pub id: String,
    pub landed_at: String,
    pub sig: String,
    pub tx_time: String,
    pub hash_time: String,
    pub status: String,
}

/// The hash column of a transaction row: `<seconds> - <difficulty>`, or
/// `N/A - ` when no hash search belongs to the transaction.
pub open spec fn hash_column(hash_status: Option<HashStatus>) -> Seq<char> {
    match hash_status {
        Some(h) => decimal_text(h.hash_time as nat) + " - "@ + decimal_text(h.hash_difficulty as nat),
        None => "N/A"@ + " - "@,
    }
}

/// The status column of a transaction row: the status, two spaces, the error.
pub open spec fn status_column(status: Seq<char>, error: Seq<char>) -> Seq<char> {
    status + "  "@ + error
}

/// Builds the row that the transaction list shows for a result.
pub fn tx_result_list_item(
    tx_type: String,
    sig: String,
    tx_time: u64,
    hash_status: Option<HashStatus>,
    tx_status: &TxStatus,
    landed_at: String,
) -> (item: UiListItem)
    ensures
        item.id@ == tx_type@,
        item.landed_at@ == landed_at@,
        item.sig@ == sig@,
        item.tx_time@ == decimal_text(tx_time as nat),
        item.hash_time@ == hash_column(hash_status),
        item.status@ == status_column(tx_status.status@, tx_status.error@),
{
    let mut hash_time = match hash_status {
        Some(h) => decimal_string(h.hash_time),
        None => String::from_str("N/A"),
    };
    hash_time.append(" - ");
    match hash_status {
        Some(h) => {
            let d = decimal_string(h.hash_difficulty as u64);
            hash_time.append(d.as_str());
        },
        None => {},
    }
    proof {
        assert(("N/A"@ + " - "@) + Seq::<char>::empty() =~= "N/A"@ + " - "@);
    }
    let mut status = tx_status.status.clone();
    status.append("  ");
    status.append(tx_status.error.as_str());
    UiListItem { id: tx_type, landed_at, sig, tx_time: decimal_string(tx_time), hash_time, status }
}

} // verus!
