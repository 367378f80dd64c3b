//! The payment processor: a service that makes payments, beside a wallet daemon that scans.

use vstd::prelude::*;

use crate::driver::{result_view, text_result_view};
use crate::drivers::launch::LaunchPolicy;
use crate::drivers::new_wallet::ScanStatusResponse;
use crate::drivers::polling::{past, past_deadline, sent, sent_metrics};
use crate::drivers::shared::{
    derive_address, derive_wallet_keys, derived_address, join_path, pair_view, path_in, wallet_keys,
};
use crate::drivers::usage::Usage;
use crate::metrics::{ScanMetrics, TxMetrics, TxView};
use crate::text::{decimal, decimal_is_injective, decimal_text, same_text};

verus! {

/// Blocks per day, at one block every two minutes.
pub const BLOCKS_PER_DAY: u64 = 720;

/// Seconds that the wallet daemon has to answer.
pub const DAEMON_READY_SECS: u64 = 30;

/// Seconds that the payment processor has to answer.
pub const PROCESSOR_READY_SECS: u64 = 60;

/// Milliseconds between two looks at the health endpoint of a starting payment processor.
pub const PROCESSOR_PAUSE_MS: u64 = 500;

/// Seconds within which a scan has to reach the tip.
pub const SCAN_SECS: u64 = 3600;

/// Seconds within which a payment has to be confirmed.
pub const CONFIRMATION_SECS: u64 = 600;

/// Seconds after which a payment that has not failed counts as seen by the mempool.
pub const MEMPOOL_SECS: u64 = 5;

/// How the wallet daemon is started.
pub fn launch_policy() -> (r: LaunchPolicy)
    ensures
        r.ready_secs == DAEMON_READY_SECS,
        r.rest_after_last,
{
    LaunchPolicy { ready_secs: DAEMON_READY_SECS, rest_after_last: true }
}

/// The birthday, in days, of a scan from a height.
pub fn birthday_days(height: u64) -> (r: u64)
    ensures
        r == height / BLOCKS_PER_DAY,
{
    height / BLOCKS_PER_DAY
}

/// The wallet's own address, or why there is none.
pub fn self_address(seed_words: &str) -> (r: Result<String, String>)
    ensures
        text_result_view(r) == match derived_address(seed_words@) {
            Some(address) => Ok(address),
            None => Err("failed to reconstruct cipher seed for address"@),
        },
{
    match derive_address(seed_words) {
        Some(address) => Ok(address),
        None => Err("failed to reconstruct cipher seed for address".to_owned()),
    }
}

/// What the payment processor has to know.
pub struct ProcessorSettings {
    pub data_dir: String,
    pub base_node_url: String,
    /// Where the wallet daemon is reached, once it is running.
    pub daemon_url: Option<String>,
    pub console_wallet_bin: String,
    pub password: String,
    pub port: u16,
    pub confirmation_window: u64,
    pub seed_words: String,
}

/// A setting of the payment processor's environment.
pub open spec fn setting(pairs: Seq<(String, String)>) -> Seq<(Seq<char>, Seq<char>)> {
    Seq::new(pairs.len(), |i: int| (pairs[i].0@, pairs[i].1@))
}

/// The environment of the payment processor, given the wallet daemon's address and the wallet's
/// keys.
pub open spec fn environment(settings: ProcessorSettings, daemon_url: Seq<char>, view_key: Seq<char>, spend_key: Seq<char>) -> Seq<(Seq<char>, Seq<char>)> {
    seq![
        ("DATABASE_URL"@, "sqlite:"@ + path_in(settings.data_dir@, "payments.db"@)),
        ("TARI_NETWORK"@, "Esmeralda"@),
        ("BASE_NODE"@, settings.base_node_url@),
        ("PAYMENT_RECEIVER"@, daemon_url),
        ("CONSOLE_WALLET_PATH"@, settings.console_wallet_bin@),
        ("CONSOLE_WALLET_BASE_PATH"@, settings.data_dir@),
        ("CONSOLE_WALLET_PASSWORD"@, settings.password@),
        ("LISTEN_PORT"@, decimal(settings.port as nat)),
        ("LISTEN_IP"@, "127.0.0.1"@),
        ("ACCOUNTS__DEFAULT__NAME"@, "default"@),
        ("ACCOUNTS__DEFAULT__VIEW_KEY"@, view_key),
        ("ACCOUNTS__DEFAULT__PUBLIC_SPEND_KEY"@, spend_key),
        (
            "CONFIRMATION_CHECKER_REQUIRED_CONFIRMATIONS"@,
            decimal(settings.confirmation_window as nat),
        ),
        ("REVEAL_PII"@, "1"@),
        ("MAX_INPUT_COUNT_PER_TX"@, "400"@),
    ]
}

/// The environment in which the payment processor runs. The wallet daemon has to run before it, and
/// the seed words have to have keys.
pub fn processor_environment(settings: &ProcessorSettings) -> (r: Result<Vec<(String, String)>, String>)
    ensures
        match settings.daemon_url {
            None => r is Err && r->Err_0@ == "PR daemon URL not set before starting PP daemon"@,
            Some(daemon_url) => match wallet_keys(settings.seed_words@) {
                Err(message) => r is Err && r->Err_0@ == message,
                Ok((view_key, spend_key)) => r is Ok && setting(r->Ok_0@) == environment(
                    *settings,
                    daemon_url@,
                    view_key,
                    spend_key,
                ),
            },
        },
{
    let daemon_url = match &settings.daemon_url {
        Some(url) => url.clone(),
        None => return Err("PR daemon URL not set before starting PP daemon".to_owned()),
    };
    let (view_key, spend_key) = match derive_wallet_keys(settings.seed_words.as_str()) {
        Ok(keys) => keys,
        Err(message) => return Err(message),
    };
    let ghost listed = environment(*settings, daemon_url@, view_key@, spend_key@);
    let database = join_path(settings.data_dir.as_str(), "payments.db");
    let mut pairs: Vec<(String, String)> = Vec::new();
    pairs.push(("DATABASE_URL".to_owned(), "sqlite:".to_owned().concat(database.as_str())));
    pairs.push(("TARI_NETWORK".to_owned(), "Esmeralda".to_owned()));
    pairs.push(("BASE_NODE".to_owned(), settings.base_node_url.clone()));
    pairs.push(("PAYMENT_RECEIVER".to_owned(), daemon_url));
    pairs.push(("CONSOLE_WALLET_PATH".to_owned(), settings.console_wallet_bin.clone()));
    pairs.push(("CONSOLE_WALLET_BASE_PATH".to_owned(), settings.data_dir.clone()));
    pairs.push(("CONSOLE_WALLET_PASSWORD".to_owned(), settings.password.clone()));
    pairs.push(("LISTEN_PORT".to_owned(), decimal_text(settings.port as u64)));
    pairs.push(("LISTEN_IP".to_owned(), "127.0.0.1".to_owned()));
    pairs.push(("ACCOUNTS__DEFAULT__NAME".to_owned(), "default".to_owned()));
    pairs.push(("ACCOUNTS__DEFAULT__VIEW_KEY".to_owned(), view_key));
    pairs.push(("ACCOUNTS__DEFAULT__PUBLIC_SPEND_KEY".to_owned(), spend_key));
    pairs.push(
        (
            "CONFIRMATION_CHECKER_REQUIRED_CONFIRMATIONS".to_owned(),
            decimal_text(settings.confirmation_window),
        ),
    );
    pairs.push(("REVEAL_PII".to_owned(), "1".to_owned()));
    pairs.push(("MAX_INPUT_COUNT_PER_TX".to_owned(), "400".to_owned()));
    proof {
        assert(setting(pairs@) =~= listed);
    }
    Ok(pairs)
}

/// The endpoint that tells whether the payment processor is up.
pub fn health_url(api_url: &str) -> (r: String)
    ensures
        r@ == api_url@ + "/health/version"@,
{
    api_url.to_owned().concat("/health/version")
}

/// Where the start of the payment processor stands: what has to be done next.
#[derive(PartialEq, Eq, Debug)]
pub enum StartStage {
    /// Ask the health endpoint.
    Probe,
    /// Wait before asking again.
    Pause,
    /// Collect the process if it has ended: it has not answered in time.
    Collect,
    /// The processor is up and to be kept.
    Ready,
    Failed(String),
}

pub enum StartStageView {
    Probe,
    Pause,
    Collect,
    Ready,
    Failed(Seq<char>),
}

impl View for StartStage {
    type V = StartStageView;

    open spec fn view(&self) -> StartStageView {
        match *self {
            StartStage::Probe => StartStageView::Probe,
            StartStage::Pause => StartStageView::Pause,
            StartStage::Collect => StartStageView::Collect,
            StartStage::Ready => StartStageView::Ready,
            StartStage::Failed(error) => StartStageView::Failed(error@),
        }
    }
}

/// What came of the last step of a start.
#[derive(Clone, Copy, PartialEq, Eq, Structural, Debug)]
pub enum StartEvent {
    /// Whether the health endpoint gave any answer.
    Answered(bool),
    Paused,
    Collected,
}

impl StartStageView {
    /// The event is one that the stage waits for.
    pub open spec fn awaits(self, event: StartEvent) -> bool {
        match self {
            StartStageView::Probe => event is Answered,
            StartStageView::Pause => event is Paused,
            StartStageView::Collect => event is Collected,
            StartStageView::Ready | StartStageView::Failed(_) => false,
        }
    }

    /// The stage of a processor that was spawned `now_ns` ago and has not answered yet.
    pub open spec fn starting(now_ns: u64) -> StartStageView {
        if past(now_ns, PROCESSOR_READY_SECS) {
            StartStageView::Collect
        } else {
            StartStageView::Probe
        }
    }

    /// The start after an event, `now_ns` after the processor was spawned.
    ///
    /// The processor is ready once its health endpoint answers, whatever it says. It is asked from
    /// time to time until its time is over, and then has failed.
    pub open spec fn after(self, api_url: Seq<char>, event: StartEvent, now_ns: u64) -> StartStageView {
        match (self, event) {
            (StartStageView::Probe, StartEvent::Answered(answered)) => if answered {
                StartStageView::Ready
            } else {
                StartStageView::Pause
            },
            (StartStageView::Pause, StartEvent::Paused) => Self::starting(now_ns),
            (StartStageView::Collect, StartEvent::Collected) => StartStageView::Failed(
                "PP daemon did not become ready within 60s at "@ + api_url + "/health/version"@,
            ),
            _ => self,
        }
    }
}

impl StartStage {
    /// The stage of a processor that was spawned `now_ns` ago and has not answered yet.
    pub fn starting(now_ns: u64) -> (r: StartStage)
        ensures
            r@ == StartStageView::starting(now_ns),
    {
        if past_deadline(now_ns, PROCESSOR_READY_SECS) {
            StartStage::Collect
        } else {
            StartStage::Probe
        }
    }

    /// Goes on after an event, `now_ns` after the processor was spawned.
    pub fn resume(self, api_url: &str, event: StartEvent, now_ns: u64) -> (r: StartStage)
        requires
            self@.awaits(event),
        ensures
            r@ == self@.after(api_url@, event, now_ns),
    {
        match event {
            StartEvent::Answered(true) => StartStage::Ready,
            StartEvent::Answered(false) => StartStage::Pause,
            StartEvent::Paused => Self::starting(now_ns),
            StartEvent::Collected => StartStage::Failed(
                "PP daemon did not become ready within 60s at ".to_owned().concat(api_url).concat(
                    "/health/version",
                ),
            ),
        }
    }
}

/// The processor is ready only through an answer of its health endpoint, which is asked in time only;
/// after that time it has failed.
pub proof fn processor_starts_are_real(stage: StartStageView, api_url: Seq<char>, event: StartEvent, now_ns: u64)
    requires
        stage.awaits(event),
    ensures
        ({
            let after = stage.after(api_url, event, now_ns);
            &&& after is Ready == (stage is Probe && event == StartEvent::Answered(true))
            &&& after is Probe == (stage is Pause && !past(now_ns, PROCESSOR_READY_SECS))
            &&& after is Collect == (stage is Pause && past(now_ns, PROCESSOR_READY_SECS))
            &&& after is Failed == stage is Collect
        }),
{
}

/// A scan that the wallet daemon is making.
#[derive(Clone, Copy, PartialEq, Eq, Structural, Debug)]
pub struct ProcessorScan {
    pub from_height: u64,
    /// The tip when the scan began, which it has to reach.
    pub h_tip_start: u64,
}

impl ProcessorScan {
    /// Decides after a status report whether the scan is done, goes on, or has taken too long.
    pub fn judge(&self, status: ScanStatusResponse, elapsed_ns: u64) -> (r: Result<bool, String>)
        ensures
            result_view(r) == if status.last_scanned_height >= self.h_tip_start {
                Ok(true)
            } else if past(elapsed_ns, SCAN_SECS) {
                Err(
                    "scan from height "@ + decimal(self.from_height as nat)
                        + " did not reach tip within 3600s"@,
                )
            } else {
                Ok(false)
            },
    {
        if status.last_scanned_height >= self.h_tip_start {
            return Ok(true);
        }
        if past_deadline(elapsed_ns, SCAN_SECS) {
            return Err(
                "scan from height ".to_owned().concat(
                    decimal_text(self.from_height).as_str(),
                ).concat(" did not reach tip within 3600s"),
            );
        }
        Ok(false)
    }

    /// The metrics of the scan that ended with a status report, after `wall_clock_ns`, with what the
    /// daemon used at most.
    pub fn metrics(&self, status: ScanStatusResponse, wall_clock_ns: u64, h_tip_end: u64, peak: Usage) -> (r: ScanMetrics)
        ensures
            r == (ScanMetrics {
                wall_clock_ns,
                blocks_scanned: if h_tip_end >= self.from_height {
                    (h_tip_end - self.from_height) as u64
                } else {
                    0
                },
                h_tip_start: self.h_tip_start,
                h_tip_end,
                outputs_found: status.outputs_found,
                peak_rss_kb: peak.memory_bytes / 1024,
                peak_cpu_bits: peak.cpu_bits,
            }),
    {
        ScanMetrics {
            wall_clock_ns,
            blocks_scanned: h_tip_end.saturating_sub(self.from_height),
            h_tip_start: self.h_tip_start,
            h_tip_end,
            outputs_found: status.outputs_found,
            peak_rss_kb: peak.memory_bytes / 1024,
            peak_cpu_bits: peak.cpu_bits,
        }
    }
}

/// An amount as the payment processor takes it: a signed 64-bit number, which wraps around where
/// the amount does not fit.
pub open spec fn wire_amount(amount_ut: u64) -> i64 {
    if amount_ut <= i64::MAX {
        amount_ut as i64
    } else {
        (amount_ut - 0x1_0000_0000_0000_0000) as i64
    }
}

fn wire_amount_of(amount_ut: u64) -> (r: i64)
    ensures
        r == wire_amount(amount_ut),
{
    if amount_ut <= i64::MAX as u64 {
        amount_ut as i64
    } else {
        (amount_ut as i128 - 0x1_0000_0000_0000_0000i128) as i64
    }
}

/// A payment that the payment processor is asked for.
#[derive(PartialEq, Eq, Debug)]
pub struct PaymentRequest {
    pub client_id: String,
    pub account_name: String,
    pub recipient_address: String,
    pub amount: i64,
}

/// One item of a batch of payments.
#[derive(PartialEq, Eq, Debug)]
pub struct BatchItem {
    pub client_id: String,
    pub recipient_address: String,
    pub amount: i64,
}

/// The request for a single payment; `stamp` tells it apart from others.
pub fn payment_request(to_address: &str, amount_ut: u64, stamp: u64) -> (r: PaymentRequest)
    ensures
        r.client_id@ == "bench-single-"@ + decimal(stamp as nat),
        r.account_name@ == "default"@,
        r.recipient_address@ == to_address@,
        r.amount == wire_amount(amount_ut),
{
    PaymentRequest {
        client_id: "bench-single-".to_owned().concat(decimal_text(stamp).as_str()),
        account_name: "default".to_owned(),
        recipient_address: to_address.to_owned(),
        amount: wire_amount_of(amount_ut),
    }
}

/// The items of a batch of payments, in order; `stamp` tells the batch apart from others, and each
/// of `item_stamps` its item.
pub fn batch_items(recipients: &Vec<(String, u64)>, stamp: u64, item_stamps: &Vec<u64>) -> (r: Vec<BatchItem>)
    requires
        item_stamps@.len() == recipients@.len(),
    ensures
        r@.len() == recipients@.len(),
        forall|i: int|
            0 <= i < r@.len() ==> (#[trigger] r@[i]).client_id@ == "bench-batch-"@ + decimal(
                stamp as nat,
            ) + "-item-"@ + decimal(item_stamps@[i] as nat),
        forall|i: int|
            0 <= i < r@.len() ==> (#[trigger] r@[i]).recipient_address@ == recipients@[i].0@
                && r@[i].amount == wire_amount(recipients@[i].1),
{
    let batch_id = "bench-batch-".to_owned().concat(decimal_text(stamp).as_str());
    let mut items: Vec<BatchItem> = Vec::new();
    let mut i: usize = 0;
    while i < recipients.len()
        invariant
            i <= recipients.len(),
            item_stamps@.len() == recipients@.len(),
            items@.len() == i,
            batch_id@ == "bench-batch-"@ + decimal(stamp as nat),
            forall|j: int|
                0 <= j < i ==> (#[trigger] items@[j]).client_id@ == "bench-batch-"@ + decimal(
                    stamp as nat,
                ) + "-item-"@ + decimal(item_stamps@[j] as nat),
            forall|j: int|
                0 <= j < i ==> (#[trigger] items@[j]).recipient_address@ == recipients@[j].0@
                    && items@[j].amount == wire_amount(recipients@[j].1),
        decreases recipients.len() - i,
    {
        items.push(
            BatchItem {
                client_id: batch_id.clone().concat("-item-").concat(
                    decimal_text(item_stamps[i]).as_str(),
                ),
                recipient_address: recipients[i].0.clone(),
                amount: wire_amount_of(recipients[i].1),
            },
        );
        i = i + 1;
    }
    items
}

/// What is said of a request that the payment processor refuses; `subject` is what was asked for.
pub fn rejection(subject: &str, status: &str, body: &str) -> (r: String)
    ensures
        r@ == "PP rejected "@ + subject@ + " (HTTP "@ + status@ + "): "@ + body@,
{
    "PP rejected ".to_owned().concat(subject).concat(" (HTTP ").concat(status).concat("): ").concat(
        body,
    )
}

/// What the payment processor tells of a payment.
#[derive(PartialEq, Eq, Debug)]
pub struct PaymentState {
    pub status: String,
    pub failure_reason: Option<String>,
}

/// Where a payment has got to.
#[derive(PartialEq, Eq, Debug)]
pub enum PaymentProgress {
    Done,
    /// For the given reason, which may be empty.
    Failed(String),
    UnderWay,
}

pub enum PaymentProgressView {
    Done,
    Failed(Seq<char>),
    UnderWay,
}

impl View for PaymentProgress {
    type V = PaymentProgressView;

    open spec fn view(&self) -> PaymentProgressView {
        match *self {
            PaymentProgress::Done => PaymentProgressView::Done,
            PaymentProgress::Failed(reason) => PaymentProgressView::Failed(reason@),
            PaymentProgress::UnderWay => PaymentProgressView::UnderWay,
        }
    }
}

/// What a state of a payment means.
pub open spec fn progress_of(state: PaymentState) -> PaymentProgressView {
    if state.status@ == "Completed"@ || state.status@ == "Mined"@ || state.status@ == "Confirmed"@ {
        PaymentProgressView::Done
    } else if state.status@ == "Failed"@ || state.status@ == "Cancelled"@ {
        PaymentProgressView::Failed(
            match state.failure_reason {
                Some(reason) => reason@,
                None => Seq::empty(),
            },
        )
    } else {
        PaymentProgressView::UnderWay
    }
}

/// Tells what a state of a payment means.
pub fn payment_progress(state: &PaymentState) -> (r: PaymentProgress)
    ensures
        r@ == progress_of(*state),
{
    let status = state.status.as_str();
    if same_text(status, "Completed") || same_text(status, "Mined") || same_text(
        status,
        "Confirmed",
    ) {
        PaymentProgress::Done
    } else if same_text(status, "Failed") || same_text(status, "Cancelled") {
        let reason = match &state.failure_reason {
            Some(reason) => reason.clone(),
            None => String::new(),
        };
        PaymentProgress::Failed(reason)
    } else {
        PaymentProgress::UnderWay
    }
}

/// What a look at the payments of a batch shows, in order, as far as it could be had: a failure if
/// there is one, the first of them; otherwise whether every one of them is known to be done. A
/// payment whose state could not be had counts as under way.
pub open spec fn batch_progress(states: Seq<Option<PaymentState>>) -> PaymentProgressView
    decreases states.len(),
{
    if states.len() == 0 {
        PaymentProgressView::Done
    } else {
        let rest = batch_progress(states.drop_first());
        match states.first() {
            None => match rest {
                PaymentProgressView::Failed(reason) => PaymentProgressView::Failed(reason),
                _ => PaymentProgressView::UnderWay,
            },
            Some(state) => match progress_of(state) {
                PaymentProgressView::Done => rest,
                PaymentProgressView::Failed(reason) => PaymentProgressView::Failed(reason),
                PaymentProgressView::UnderWay => match rest {
                    PaymentProgressView::Failed(reason) => PaymentProgressView::Failed(reason),
                    _ => PaymentProgressView::UnderWay,
                },
            },
        }
    }
}

/// Judges a look at the payments of a batch. Nothing behind the first failure has to be looked at.
pub fn judge_batch(states: &Vec<Option<PaymentState>>) -> (r: PaymentProgress)
    ensures
        r@ == batch_progress(states@),
{
    let mut all_done = true;
    let mut i: usize = 0;
    proof {
        assert(states@.skip(0) =~= states@);
    }
    while i < states.len()
        invariant
            i <= states.len(),
            batch_progress(states@) == match batch_progress(states@.skip(i as int)) {
                PaymentProgressView::Done => if all_done {
                    PaymentProgressView::Done
                } else {
                    PaymentProgressView::UnderWay
                },
                other => other,
            },
        decreases states.len() - i,
    {
        proof {
            let rest = states@.skip(i as int);
            assert(rest.first() == states@[i as int]);
            assert(rest.drop_first() =~= states@.skip(i + 1));
        }
        match &states[i] {
            Some(state) => match payment_progress(state) {
                PaymentProgress::Done => {},
                PaymentProgress::Failed(reason) => {
                    return PaymentProgress::Failed(reason);
                },
                PaymentProgress::UnderWay => {
                    all_done = false;
                },
            },
            None => {
                all_done = false;
            },
        }
        i = i + 1;
    }
    proof {
        assert(states@.skip(states@.len() as int) =~= Seq::empty());
    }
    if all_done {
        PaymentProgress::Done
    } else {
        PaymentProgress::UnderWay
    }
}

/// A batch is done if and only if every payment of it is known to be done, and failed if and only if
/// a payment of it is known to have failed.
pub proof fn a_batch_is_as_good_as_its_payments(states: Seq<Option<PaymentState>>)
    ensures
        batch_progress(states) is Done <==> forall|i: int|
            0 <= i < states.len() ==> (#[trigger] states[i]) is Some && progress_of(
                states[i]->0,
            ) is Done,
        batch_progress(states) is Failed <==> exists|i: int|
            0 <= i < states.len() && ((#[trigger] states[i]) matches Some(state) && progress_of(
                state,
            ) is Failed),
    decreases states.len(),
{
    if states.len() > 0 {
        let rest = states.drop_first();
        a_batch_is_as_good_as_its_payments(rest);
        assert(forall|i: int| 0 <= i < rest.len() ==> rest[i] == states[i + 1]);
        assert(states[0] == states.first());
        if batch_progress(states) is Done {
            assert forall|i: int| 0 <= i < states.len() implies (#[trigger] states[i]) is Some
                && progress_of(states[i]->0) is Done by {
                if i > 0 {
                    assert(rest[i - 1] == states[i]);
                }
            }
        }
        if forall|i: int|
            0 <= i < states.len() ==> (#[trigger] states[i]) is Some && progress_of(
                states[i]->0,
            ) is Done {
            assert forall|i: int| 0 <= i < rest.len() implies (#[trigger] rest[i]) is Some
                && progress_of(rest[i]->0) is Done by {
                assert(rest[i] == states[i + 1]);
            }
        }
        if batch_progress(rest) is Failed {
            let i = choose|i: int|
                0 <= i < rest.len() && ((#[trigger] rest[i]) matches Some(state) && progress_of(
                    state,
                ) is Failed);
            assert(states[i + 1] == rest[i]);
        }
        if exists|i: int|
            0 <= i < states.len() && ((#[trigger] states[i]) matches Some(state) && progress_of(
                state,
            ) is Failed) {
            let i = choose|i: int|
                0 <= i < states.len() && ((#[trigger] states[i]) matches Some(state) && progress_of(
                    state,
                ) is Failed);
            if i > 0 {
                assert(rest[i - 1] == states[i]);
            }
        }
    }
}

/// Where the wait for a payment or a batch stands: what has to be done next.
#[derive(PartialEq, Eq, Debug)]
pub enum PaymentStage {
    /// Look at the payment, or at those of the batch.
    Look,
    /// Wait before the next look.
    Pause,
    Confirmed(TxMetrics),
    Failed(String),
}

pub enum PaymentStageView {
    Look,
    Pause,
    Confirmed(TxView),
    Failed(Seq<char>),
}

impl View for PaymentStage {
    type V = PaymentStageView;

    open spec fn view(&self) -> PaymentStageView {
        match *self {
            PaymentStage::Look => PaymentStageView::Look,
            PaymentStage::Pause => PaymentStageView::Pause,
            PaymentStage::Confirmed(tx) => PaymentStageView::Confirmed(tx@),
            PaymentStage::Failed(error) => PaymentStageView::Failed(error@),
        }
    }
}

/// A payment, or a batch of payments, whose confirmation is waited for.
#[derive(PartialEq, Eq, Debug)]
pub struct PaymentWatch {
    pub batch: bool,
    pub tx_id: String,
    pub construction_ns: u64,
    /// When the payment counted as seen by the mempool, zero before that.
    pub mempool_ns: u64,
    pub stage: PaymentStage,
}

pub struct PaymentWatchView {
    pub batch: bool,
    pub tx_id: Seq<char>,
    pub construction_ns: u64,
    pub mempool_ns: u64,
    pub stage: PaymentStageView,
}

impl View for PaymentWatch {
    type V = PaymentWatchView;

    open spec fn view(&self) -> PaymentWatchView {
        PaymentWatchView {
            batch: self.batch,
            tx_id: self.tx_id@,
            construction_ns: self.construction_ns,
            mempool_ns: self.mempool_ns,
            stage: self.stage@,
        }
    }
}

/// What a look at a payment has shown.
pub open spec fn look_view(look: Result<PaymentProgress, String>) -> Result<PaymentProgressView, Seq<char>> {
    match look {
        Ok(progress) => Ok(progress@),
        Err(message) => Err(message@),
    }
}

impl PaymentWatchView {
    /// What is said of a payment that is not confirmed in time.
    pub open spec fn overdue(self) -> Seq<char> {
        if self.batch {
            "batch "@ + self.tx_id + " was not fully confirmed within 600s"@
        } else {
            "payment "@ + self.tx_id + " was not confirmed within 600s"@
        }
    }

    /// What is said of a payment that has failed.
    pub open spec fn failure(self, reason: Seq<char>) -> Seq<char> {
        if self.batch {
            "batch payment failed: "@ + reason
        } else {
            "payment "@ + self.tx_id + " failed: "@ + reason
        }
    }

    /// The watch at the beginning of a round, `now_ns` into the payment.
    pub open spec fn next_round(self, now_ns: u64) -> PaymentWatchView {
        PaymentWatchView {
            stage: if past(now_ns, CONFIRMATION_SECS) {
                PaymentStageView::Failed(self.overdue())
            } else {
                PaymentStageView::Look
            },
            ..self
        }
    }

    /// The watch after a look, `now_ns` into the payment. A payment that is confirmed before it was
    /// seen by the mempool was seen at that moment; its fee is not known and counts as zero.
    pub open spec fn after_look(self, look: Result<PaymentProgressView, Seq<char>>, now_ns: u64) -> PaymentWatchView {
        match look {
            Err(error) => PaymentWatchView { stage: PaymentStageView::Failed(error), ..self },
            Ok(PaymentProgressView::Done) => {
                let mempool_ns = if self.mempool_ns == 0 {
                    now_ns
                } else {
                    self.mempool_ns
                };
                PaymentWatchView {
                    mempool_ns,
                    stage: PaymentStageView::Confirmed(
                        sent(self.tx_id, self.construction_ns, mempool_ns, now_ns, 0),
                    ),
                    ..self
                }
            },
            Ok(PaymentProgressView::Failed(reason)) => PaymentWatchView {
                stage: PaymentStageView::Failed(self.failure(reason)),
                ..self
            },
            Ok(PaymentProgressView::UnderWay) => PaymentWatchView {
                mempool_ns: if self.mempool_ns == 0 && past(now_ns, MEMPOOL_SECS) {
                    now_ns
                } else {
                    self.mempool_ns
                },
                stage: PaymentStageView::Pause,
                ..self
            },
        }
    }
}

impl PaymentWatch {
    fn overdue(&self) -> (r: String)
        ensures
            r@ == self@.overdue(),
    {
        if self.batch {
            "batch ".to_owned().concat(self.tx_id.as_str()).concat(
                " was not fully confirmed within 600s",
            )
        } else {
            "payment ".to_owned().concat(self.tx_id.as_str()).concat(
                " was not confirmed within 600s",
            )
        }
    }

    /// Begins a round, `now_ns` into the payment: the first, or another after a pause.
    pub fn next_round(self, now_ns: u64) -> (r: PaymentWatch)
        ensures
            r@ == self@.next_round(now_ns),
    {
        let mut watch = self;
        watch.stage = if past_deadline(now_ns, CONFIRMATION_SECS) {
            PaymentStage::Failed(watch.overdue())
        } else {
            PaymentStage::Look
        };
        watch
    }

    /// The watch for a payment that was accepted after `construction_ns`.
    pub fn begin(batch: bool, tx_id: String, construction_ns: u64, now_ns: u64) -> (r: PaymentWatch)
        ensures
            r@ == (PaymentWatchView {
                batch,
                tx_id: tx_id@,
                construction_ns,
                mempool_ns: 0,
                stage: PaymentStageView::Pause,
            }).next_round(now_ns),
    {
        let watch = PaymentWatch {
            batch,
            tx_id,
            construction_ns,
            mempool_ns: 0,
            stage: PaymentStage::Pause,
        };
        watch.next_round(now_ns)
    }

    /// Takes in a look, `now_ns` into the payment.
    pub fn after_look(self, look: Result<PaymentProgress, String>, now_ns: u64) -> (r: PaymentWatch)
        ensures
            r@ == self@.after_look(look_view(look), now_ns),
    {
        let mut watch = self;
        match look {
            Err(error) => {
                watch.stage = PaymentStage::Failed(error);
            },
            Ok(PaymentProgress::Done) => {
                if watch.mempool_ns == 0 {
                    watch.mempool_ns = now_ns;
                }
                watch.stage = PaymentStage::Confirmed(
                    sent_metrics(
                        watch.tx_id.clone(),
                        watch.construction_ns,
                        watch.mempool_ns,
                        now_ns,
                        0,
                    ),
                );
            },
            Ok(PaymentProgress::Failed(reason)) => {
                let message = if watch.batch {
                    "batch payment failed: ".to_owned().concat(reason.as_str())
                } else {
                    "payment ".to_owned().concat(watch.tx_id.as_str()).concat(" failed: ").concat(
                        reason.as_str(),
                    )
                };
                watch.stage = PaymentStage::Failed(message);
            },
            Ok(PaymentProgress::UnderWay) => {
                if watch.mempool_ns == 0 && past_deadline(now_ns, MEMPOOL_SECS) {
                    watch.mempool_ns = now_ns;
                }
                watch.stage = PaymentStage::Pause;
            },
        }
        watch
    }
}

/// A payment is confirmed only by a look that shows it done, and then it was seen by the mempool no
/// later than it was confirmed.
pub proof fn payments_are_confirmed_by_a_look(watch: PaymentWatchView, look: Result<PaymentProgressView, Seq<char>>, now_ns: u64)
    requires
        watch.mempool_ns <= now_ns,
    ensures
        watch.after_look(look, now_ns).stage is Confirmed <==> look == Ok::<
            PaymentProgressView,
            Seq<char>,
        >(PaymentProgressView::Done),
        watch.after_look(look, now_ns).mempool_ns <= now_ns,
        watch.after_look(look, now_ns).stage matches PaymentStageView::Confirmed(tx)
            ==> tx.broadcast_to_mempool_ns <= tx.broadcast_to_confirmed_ns,
{
}

/// The birthday of a height is the number of whole days of 720 blocks up to it.
pub proof fn birthdays_are_whole_days(height: u64, r: u64)
    requires
        call_ensures(birthday_days, (height,), r),
    ensures
        r * 720 <= height < (r + 1) * 720,
{
}

/// A scan is done once the daemon has reached the tip at which it began, also if it is late; before that
/// it goes on for an hour and has failed after it.
pub proof fn daemon_scans_reach_their_tip(
    scan: ProcessorScan,
    status: ScanStatusResponse,
    elapsed_ns: u64,
    r: Result<bool, String>,
)
    requires
        call_ensures(ProcessorScan::judge, (&scan, status, elapsed_ns), r),
    ensures
        r is Ok && r->Ok_0 <==> status.last_scanned_height >= scan.h_tip_start,
        r is Err <==> status.last_scanned_height < scan.h_tip_start && elapsed_ns
            > 3_600_000_000_000,
{
}

/// A scan reports the blocks from its start up to the tip at its end, and the rest as it was read, the
/// memory in kilobytes.
pub proof fn daemon_scans_report_their_blocks(
    scan: ProcessorScan,
    status: ScanStatusResponse,
    wall_clock_ns: u64,
    h_tip_end: u64,
    peak: Usage,
    r: ScanMetrics,
)
    requires
        call_ensures(ProcessorScan::metrics, (&scan, status, wall_clock_ns, h_tip_end, peak), r),
    ensures
        scan.from_height <= h_tip_end ==> r.blocks_scanned + scan.from_height == h_tip_end,
        scan.from_height > h_tip_end ==> r.blocks_scanned == 0,
        r.wall_clock_ns == wall_clock_ns,
        r.h_tip_start == scan.h_tip_start,
        r.h_tip_end == h_tip_end,
        r.outputs_found == status.outputs_found,
        r.peak_rss_kb * 1024 <= peak.memory_bytes < (r.peak_rss_kb + 1) * 1024,
        r.peak_cpu_bits == peak.cpu_bits,
{
}

/// A payment is asked for with the amount and the address that were given; amounts that a signed number
/// does not hold differ from it by 2^64, so that no two amounts are mixed up.
pub proof fn payments_are_asked_for_as_given(to_address: &str, amount: u64, stamp: u64, r: PaymentRequest)
    requires
        call_ensures(payment_request, (to_address, amount, stamp), r),
    ensures
        r.recipient_address@ == to_address@,
        amount <= i64::MAX ==> r.amount == amount,
        amount > i64::MAX ==> r.amount + 0x1_0000_0000_0000_0000 == amount,
        r.client_id@ == "bench-single-"@ + decimal(stamp as nat),
        r.account_name@ == "default"@,
{
}

/// A batch asks for one payment to each recipient, in order, with its own address and amount; the items
/// of a batch are told apart by their stamps.
pub proof fn batches_pay_each_recipient(
    recipients: &Vec<(String, u64)>,
    stamp: u64,
    item_stamps: &Vec<u64>,
    r: Vec<BatchItem>,
    i: int,
    j: int,
)
    requires
        call_ensures(batch_items, (recipients, stamp, item_stamps), r),
        item_stamps@.len() == recipients@.len(),
        0 <= i < recipients@.len(),
        0 <= j < recipients@.len(),
    ensures
        r@.len() == recipients@.len(),
        r@[i].recipient_address@ == recipients@[i].0@,
        recipients@[i].1 <= i64::MAX ==> r@[i].amount == recipients@[i].1,
        recipients@[i].1 > i64::MAX ==> r@[i].amount + 0x1_0000_0000_0000_0000 == recipients@[i].1,
        r@[i].client_id@ == r@[j].client_id@ ==> item_stamps@[i] == item_stamps@[j],
{
    assert(r@[i].recipient_address@ == recipients@[i].0@);
    let head = "bench-batch-"@ + decimal(stamp as nat) + "-item-"@;
    let a = decimal(item_stamps@[i] as nat);
    let b = decimal(item_stamps@[j] as nat);
    assert(r@[i].client_id@ == head + a);
    assert(r@[j].client_id@ == head + b);
    if r@[i].client_id@ == r@[j].client_id@ {
        assert((head + a).skip(head.len() as int) =~= a);
        assert((head + b).skip(head.len() as int) =~= b);
        decimal_is_injective(item_stamps@[i] as nat, item_stamps@[j] as nat);
    }
}

/// A payment is done in three states and has failed in two; in every other it is under way. A failure
/// tells its reason, or none.
pub proof fn payments_are_done_failed_or_under_way(state: PaymentState, r: PaymentProgress)
    requires
        call_ensures(payment_progress, (&state,), r),
    ensures
        ({
            let status = state.status@;
            let done = status == "Completed"@ || status == "Mined"@ || status == "Confirmed"@;
            let failed = status == "Failed"@ || status == "Cancelled"@;
            &&& r is Done <==> done
            &&& r is Failed <==> failed
            &&& r is UnderWay <==> !done && !failed
        }),
        r matches PaymentProgress::Failed(reason) ==> {
            &&& state.failure_reason matches Some(told) ==> reason@ == told@
            &&& state.failure_reason is None ==> reason@.len() == 0
        },
{
    reveal_strlit("Completed");
    reveal_strlit("Mined");
    reveal_strlit("Confirmed");
    reveal_strlit("Failed");
    reveal_strlit("Cancelled");
    assert("Completed"@[0] == 'C' && "Mined"@[0] == 'M' && "Confirmed"@[8] == 'd' && "Failed"@[0]
        == 'F' && "Cancelled"@[1] == 'a' && "Completed"@[1] == 'o' && "Confirmed"@[1] == 'o');
    match r {
        PaymentProgress::Failed(reason) => {
            assert(progress_of(state) == PaymentProgressView::Failed(reason@));
        },
        PaymentProgress::Done => {},
        PaymentProgress::UnderWay => {},
    }
}

/// The failure of a batch is that of its first payment that has failed, whatever stands behind it.
pub proof fn a_batch_fails_with_its_first_failure(states: Seq<Option<PaymentState>>, n: int)
    requires
        0 <= n < states.len(),
        states[n] is Some,
        progress_of(states[n]->0) is Failed,
        forall|i: int|
            0 <= i < n ==> ((#[trigger] states[i]) matches Some(state) ==> !(progress_of(
                state,
            ) is Failed)),
    ensures
        batch_progress(states) == progress_of(states[n]->0),
    decreases n,
{
    let rest = states.drop_first();
    assert(states.first() == states[0]);
    if n > 0 {
        assert(rest[n - 1] == states[n]);
        assert forall|i: int| 0 <= i < n - 1 implies ((#[trigger] rest[i]) matches Some(state)
            ==> !(progress_of(state) is Failed)) by {
            assert(rest[i] == states[i + 1]);
        }
        a_batch_fails_with_its_first_failure(rest, n - 1);
    }
}

/// A watch over a payment goes as it should: a look that shows it done confirms it, with its id and its
/// times; a look that shows it failed, or that could not be had, fails it; otherwise it is looked at
/// again after a pause, for ten minutes. It counts as seen by the mempool from the first look on that
/// is more than five seconds into it, or from its confirmation on, and that moment stays.
pub proof fn payments_are_watched_until_they_are_done(
    watch: PaymentWatch,
    look: Result<PaymentProgress, String>,
    now_ns: u64,
    r: PaymentWatch,
    round: PaymentWatch,
)
    requires
        call_ensures(PaymentWatch::after_look, (watch, look, now_ns), r),
        call_ensures(PaymentWatch::next_round, (watch, now_ns), round),
    ensures
        r.batch == watch.batch && r.tx_id@ == watch.tx_id@ && r.construction_ns
            == watch.construction_ns,
        watch.mempool_ns > 0 ==> r.mempool_ns == watch.mempool_ns,
        watch.mempool_ns == 0 && look is Ok && look->Ok_0 is UnderWay ==> r.mempool_ns == if now_ns
            > 5_000_000_000 {
            now_ns
        } else {
            0
        },
        look is Ok && look->Ok_0 is UnderWay <==> r.stage is Pause,
        look is Ok && look->Ok_0 is Done <==> r.stage is Confirmed,
        look matches Err(error) ==> r.stage matches PaymentStage::Failed(told) && told@ == error@,
        look is Ok && look->Ok_0 is Failed ==> r.stage is Failed,
        r.stage matches PaymentStage::Confirmed(tx) ==> {
            &&& tx.success && tx.error is None && tx.fee_paid == 0
            &&& tx.tx_id@ == watch.tx_id@
            &&& tx.construction_ns == watch.construction_ns
            &&& tx.broadcast_to_confirmed_ns == now_ns
            &&& tx.broadcast_to_mempool_ns == if watch.mempool_ns > 0 {
                watch.mempool_ns
            } else {
                now_ns
            }
        },
        round.stage is Failed <==> now_ns > 600_000_000_000,
        round.stage is Look <==> now_ns <= 600_000_000_000,
        round.mempool_ns == watch.mempool_ns && round.tx_id@ == watch.tx_id@,
{
    if let PaymentStage::Confirmed(tx) = r.stage {
        assert(r@.stage == PaymentStageView::Confirmed(tx@));
        assert(tx@.error is None);
    }
    if let PaymentStage::Failed(told) = r.stage {
        assert(r@.stage == PaymentStageView::Failed(told@));
    }
}

/// The start of a processor is carried out as it is described.
pub proof fn processor_starts_go_as_they_are_described(
    stage: StartStage,
    api_url: &str,
    event: StartEvent,
    now_ns: u64,
    r: StartStage,
    first: StartStage,
)
    requires
        call_ensures(StartStage::resume, (stage, api_url, event, now_ns), r),
        call_ensures(StartStage::starting, (now_ns,), first),
    ensures
        r@ == stage@.after(api_url@, event, now_ns),
        first is Collect <==> now_ns > 60_000_000_000,
        first is Probe <==> now_ns <= 60_000_000_000,
{
}

/// The wallet's own address is the one that its words derive, and there is none for words that are no seed
/// phrase.
pub proof fn the_own_address_is_derived(seed_words: &str, r: Result<String, String>, derived: Option<String>)
    requires
        call_ensures(self_address, (seed_words,), r),
        call_ensures(derive_address, (seed_words,), derived),
    ensures
        r is Ok <==> derived is Some,
        r matches Ok(address) ==> address@ == derived->0@,
{
    if let Some(text) = derived {
        assert(derived_address(seed_words@) == Some(text@));
    }
}

/// The processor runs only beside a daemon and with seed words that have keys. It is told where that
/// daemon and the base node are, which port to listen on, how many confirmations to ask for, and the
/// wallet's own keys, each under its name.
pub proof fn processors_are_told_what_they_need(
    settings: ProcessorSettings,
    words: &str,
    keys: Result<(String, String), String>,
    r: Result<Vec<(String, String)>, String>,
)
    requires
        words@ == settings.seed_words@,
        call_ensures(derive_wallet_keys, (words,), keys),
        call_ensures(processor_environment, (&settings,), r),
    ensures
        r is Ok <==> settings.daemon_url is Some && keys is Ok,
        r matches Ok(pairs) ==> {
            let told = setting(pairs@);
            &&& told.len() == 15
            &&& told.contains(("BASE_NODE"@, settings.base_node_url@))
            &&& told.contains(("PAYMENT_RECEIVER"@, settings.daemon_url->0@))
            &&& told.contains(("CONSOLE_WALLET_PATH"@, settings.console_wallet_bin@))
            &&& told.contains(("CONSOLE_WALLET_BASE_PATH"@, settings.data_dir@))
            &&& told.contains(("CONSOLE_WALLET_PASSWORD"@, settings.password@))
            &&& told.contains(("LISTEN_PORT"@, decimal(settings.port as nat)))
            &&& told.contains(("ACCOUNTS__DEFAULT__VIEW_KEY"@, (keys->Ok_0).0@))
            &&& told.contains(("ACCOUNTS__DEFAULT__PUBLIC_SPEND_KEY"@, (keys->Ok_0).1@))
            &&& told.contains(
                (
                    "CONFIRMATION_CHECKER_REQUIRED_CONFIRMATIONS"@,
                    decimal(settings.confirmation_window as nat),
                ),
            )
        },
{
    assert(pair_view(keys) == wallet_keys(settings.seed_words@));
    if let Ok(pairs) = r {
        let told = setting(pairs@);
        let listed = environment(
            settings,
            settings.daemon_url->0@,
            (keys->Ok_0).0@,
            (keys->Ok_0).1@,
        );
        assert(told == listed);
        assert(told[2] == listed[2] && told[3] == listed[3] && told[4] == listed[4]);
        assert(told[5] == listed[5] && told[6] == listed[6] && told[7] == listed[7]);
        assert(told[10] == listed[10] && told[11] == listed[11] && told[12] == listed[12]);
    }
}

/// A watch begins with its payment's id and the time of its construction, not yet seen by the mempool, and
/// with a look, unless it is late already.
pub proof fn watches_begin_with_a_look(batch: bool, tx_id: String, construction_ns: u64, now_ns: u64, r: PaymentWatch)
    requires
        call_ensures(PaymentWatch::begin, (batch, tx_id, construction_ns, now_ns), r),
    ensures
        r.batch == batch,
        r.tx_id@ == tx_id@,
        r.construction_ns == construction_ns,
        r.mempool_ns == 0,
        now_ns <= 600_000_000_000 ==> r.stage is Look,
        now_ns > 600_000_000_000 ==> r.stage is Failed,
{
}

/// What is said of a payment that failed, or that is late, names the payment, and the reason where there
/// is one.
pub proof fn failed_payments_are_named(watch: PaymentWatchView, reason: Seq<char>, now_ns: u64)
    ensures
        ({
            let failed = watch.after_look(Ok(PaymentProgressView::Failed(reason)), now_ns).stage;
            let late = watch.next_round(now_ns).stage;
            &&& watch.batch ==> failed == PaymentStageView::Failed(
                "batch payment failed: "@ + reason,
            )
            &&& !watch.batch ==> failed == PaymentStageView::Failed(
                "payment "@ + watch.tx_id + " failed: "@ + reason,
            )
            &&& now_ns > 600_000_000_000 && watch.batch ==> late == PaymentStageView::Failed(
                "batch "@ + watch.tx_id + " was not fully confirmed within 600s"@,
            )
            &&& now_ns > 600_000_000_000 && !watch.batch ==> late == PaymentStageView::Failed(
                "payment "@ + watch.tx_id + " was not confirmed within 600s"@,
            )
        }),
{
}

} // verus!
