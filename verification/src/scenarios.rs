//! The benchmark scenarios `B0` and `S0` to `S7`.
//!
//! A scenario is a conversation with a wallet driver. [`ScenarioRun::call`] says what the scenario
//! asks next, [`ScenarioRun::resume`] takes the reply. Every call is made once: a scenario never
//! repeats a call that failed, never delays one and never limits how many run at a time.

use vstd::arithmetic::power2::pow2;
use vstd::prelude::*;

use crate::config::{stated_fee_rate, Config};
use crate::driver::{
    outcome_views, tx_result_view, Call, CallView, OutcomeView, Reply, ReplyView,
    SendOutcome,
};
use crate::metrics::{
    balance_delta, charged_fees, fee_sum, success_total, successes_are_bounded, tx_totals, tx_views,
    tx_views_push, wrapped_delta, ResultView, ScanMetrics, ScenarioResult, TxMetrics, TxView,
};
use crate::plan::{
    concurrent_plan, concurrent_shape, configured_plan, throughput_plan, throughput_shape,
    steps_are_countable, throughput_scenario_counts, volume_plan, volume_scenario_counts, volume_shape, Dispatch, PlanView,
    SendPlan, ShapeView,
};
use crate::text::{decimal, decimal_text};

verus! {

/// Outputs that a rediscovery scan has to find, where no other target is configured.
pub const REDISCOVERY_TARGET: u64 = 512;

/// A scenario with what it needs to know.
#[derive(PartialEq, Eq, Debug)]
pub enum Task {
    /// Scan an empty wallet from genesis.
    B0,
    /// Observe the funding transaction.
    S0 { a_fund: u64 },
    /// Build up outputs.
    S1(SendPlan),
    /// Scan from genesis after the build-up, for at least `target` outputs.
    S2 { target: u64, expected_balance: u64 },
    /// Scan from the birthday after the build-up, for at least `target` outputs.
    S3 { h_birth: u64, target: u64, expected_balance: u64 },
    /// Send concurrently.
    S4(SendPlan),
    /// Compare batches with single sends.
    S5(SendPlan),
    /// Scan from genesis after the throughput comparison.
    S6 { expected_balance: u64 },
    /// Scan from the birthday after the throughput comparison.
    S7 { h_birth: u64, expected_balance: u64 },
}

pub enum TaskView {
    B0,
    S0 { a_fund: u64 },
    S1(PlanView),
    S2 { target: u64, expected_balance: u64 },
    S3 { h_birth: u64, target: u64, expected_balance: u64 },
    S4(PlanView),
    S5(PlanView),
    S6 { expected_balance: u64 },
    S7 { h_birth: u64, expected_balance: u64 },
}

impl View for Task {
    type V = TaskView;

    open spec fn view(&self) -> TaskView {
        match *self {
            Task::B0 => TaskView::B0,
            Task::S0 { a_fund } => TaskView::S0 { a_fund },
            Task::S1(plan) => TaskView::S1(plan@),
            Task::S2 { target, expected_balance } => TaskView::S2 { target, expected_balance },
            Task::S3 { h_birth, target, expected_balance } => TaskView::S3 {
                h_birth,
                target,
                expected_balance,
            },
            Task::S4(plan) => TaskView::S4(plan@),
            Task::S5(plan) => TaskView::S5(plan@),
            Task::S6 { expected_balance } => TaskView::S6 { expected_balance },
            Task::S7 { h_birth, expected_balance } => TaskView::S7 { h_birth, expected_balance },
        }
    }
}

impl TaskView {
    pub open spec fn name(self) -> Seq<char> {
        match self {
            TaskView::B0 => "B0"@,
            TaskView::S0 { .. } => "S0"@,
            TaskView::S1(_) => "S1"@,
            TaskView::S2 { .. } => "S2"@,
            TaskView::S3 { .. } => "S3"@,
            TaskView::S4(_) => "S4"@,
            TaskView::S5(_) => "S5"@,
            TaskView::S6 { .. } => "S6"@,
            TaskView::S7 { .. } => "S7"@,
        }
    }

    /// What the scenario sends, if it sends.
    pub open spec fn plan(self) -> Option<PlanView> {
        match self {
            TaskView::S1(plan) => Some(plan),
            TaskView::S4(plan) => Some(plan),
            TaskView::S5(plan) => Some(plan),
            _ => None,
        }
    }

    /// Each sending scenario has a plan of its own shape, with step counts that 64 bits hold.
    pub open spec fn valid(self) -> bool {
        match self {
            TaskView::S1(plan) => plan.shape is Volume && plan.shape.countable(),
            TaskView::S4(plan) => plan.shape is Concurrent,
            TaskView::S5(plan) => plan.shape is Throughput,
            _ => true,
        }
    }

    /// The balance that a scan has to recover.
    pub open spec fn checkpoint(self) -> Option<u64> {
        match self {
            TaskView::S2 { expected_balance, .. } => Some(expected_balance),
            TaskView::S3 { expected_balance, .. } => Some(expected_balance),
            TaskView::S6 { expected_balance } => Some(expected_balance),
            TaskView::S7 { expected_balance, .. } => Some(expected_balance),
            _ => None,
        }
    }

    /// The number of outputs that the scan has to find, if it reports outputs.
    pub open spec fn target(self) -> Option<u64> {
        match self {
            TaskView::S2 { target, .. } => Some(target),
            TaskView::S3 { target, .. } => Some(target),
            _ => None,
        }
    }

    /// How the scan starts.
    pub open spec fn scan_call(self) -> CallView {
        match self {
            TaskView::S3 { h_birth, .. } => CallView::ScanFromBirthday { height: h_birth },
            TaskView::S7 { h_birth, .. } => CallView::ScanFromBirthday { height: h_birth },
            _ => CallView::ScanFromGenesis,
        }
    }
}

/// Where a scenario stands: what it waits for, and what it has learnt.
#[derive(PartialEq, Eq, Debug)]
pub enum Stage {
    Scan,
    ScanBalance { scan: ScanMetrics },
    BirthTip,
    Funding { h_birth: u64 },
    FundedBalance { h_birth: u64, funding: TxMetrics },
    FundedTip { h_birth: u64, funding: TxMetrics, observed: u64 },
    InitialBalance,
    SelfAddress { initial: u64 },
    /// `sent` steps of the plan have been made, with the transactions `txs`.
    Sending { address: String, initial: u64, txs: Vec<TxMetrics>, sent: u128 },
    FinalBalance { initial: u64, txs: Vec<TxMetrics> },
    Finished { result: ScenarioResult },
    Failed { error: String },
}

pub enum StageView {
    Scan,
    ScanBalance { scan: ScanMetrics },
    BirthTip,
    Funding { h_birth: u64 },
    FundedBalance { h_birth: u64, funding: TxView },
    FundedTip { h_birth: u64, funding: TxView, observed: u64 },
    InitialBalance,
    SelfAddress { initial: u64 },
    Sending { address: Seq<char>, initial: u64, txs: Seq<TxView>, sent: nat },
    FinalBalance { initial: u64, txs: Seq<TxView> },
    Finished { result: ResultView },
    Failed { error: Seq<char> },
}

impl View for Stage {
    type V = StageView;

    open spec fn view(&self) -> StageView {
        match *self {
            Stage::Scan => StageView::Scan,
            Stage::ScanBalance { scan } => StageView::ScanBalance { scan },
            Stage::BirthTip => StageView::BirthTip,
            Stage::Funding { h_birth } => StageView::Funding { h_birth },
            Stage::FundedBalance { h_birth, funding } => StageView::FundedBalance {
                h_birth,
                funding: funding@,
            },
            Stage::FundedTip { h_birth, funding, observed } => StageView::FundedTip {
                h_birth,
                funding: funding@,
                observed,
            },
            Stage::InitialBalance => StageView::InitialBalance,
            Stage::SelfAddress { initial } => StageView::SelfAddress { initial },
            Stage::Sending { address, initial, txs, sent } => StageView::Sending {
                address: address@,
                initial,
                txs: tx_views(txs@),
                sent: sent as nat,
            },
            Stage::FinalBalance { initial, txs } => StageView::FinalBalance {
                initial,
                txs: tx_views(txs@),
            },
            Stage::Finished { result } => StageView::Finished { result: result@ },
            Stage::Failed { error } => StageView::Failed { error: error@ },
        }
    }
}

/// A transaction that was not made, because of `error`.
pub open spec fn failed_tx(tx_id: Seq<char>, construction_ns: u64, confirmed_ns: u64, error: Seq<char>) -> TxView {
    TxView {
        tx_id,
        construction_ns,
        broadcast_to_mempool_ns: 0,
        broadcast_to_confirmed_ns: confirmed_ns,
        fee_paid: 0,
        success: false,
        error: Some(error),
    }
}

/// The transaction of a send: the driver's own, or a failed one that took as long as the call.
pub open spec fn sent_tx(outcome: Result<TxView, Seq<char>>, call_ns: u64) -> TxView {
    match outcome {
        Ok(tx) => tx,
        Err(error) => failed_tx(Seq::empty(), call_ns, 0, error),
    }
}

/// A number of seconds in nanoseconds; the largest 64-bit number where they do not fit.
pub open spec fn secs_in_ns(secs: u64) -> u64 {
    if secs * 1_000_000_000 <= u64::MAX {
        (secs * 1_000_000_000) as u64
    } else {
        u64::MAX
    }
}

/// The transaction of a concurrent send.
pub open spec fn concurrent_tx(outcome: OutcomeView, timeout_secs: u64) -> TxView {
    match outcome {
        OutcomeView::Sent(tx) => tx,
        OutcomeView::Failed(error) => failed_tx(Seq::empty(), 0, 0, error),
        OutcomeView::TimedOut => failed_tx(
            Seq::empty(),
            secs_in_ns(timeout_secs),
            0,
            "send_single timed out after "@ + decimal(timeout_secs as nat) + "s"@,
        ),
    }
}

/// The transactions of a burst of concurrent sends, in order.
pub open spec fn concurrent_txs(outcomes: Seq<OutcomeView>, timeout_secs: u64) -> Seq<TxView> {
    Seq::new(outcomes.len(), |i: int| concurrent_tx(outcomes[i], timeout_secs))
}

/// The balance that the fees of the successful transactions leave, never below zero.
pub open spec fn settled(initial: u64, txs: Seq<TxView>) -> u64 {
    if charged_fees(txs) >= initial {
        0
    } else {
        (initial - charged_fees(txs)) as u64
    }
}

/// A balance delta against an empty wallet: zero minus what is there, within 64 signed bits.
pub open spec fn delta_from_zero(observed: u64) -> i64 {
    if observed <= i64::MAX {
        (0 - observed) as i64
    } else if observed == 0x8000_0000_0000_0000 {
        i64::MAX
    } else {
        (0x1_0000_0000_0000_0000 - observed) as i64
    }
}

/// The result of a scenario that has one outcome.
pub open spec fn single_outcome(name: Seq<char>, wall_clock_ns: u64, success: bool, balance_delta: i64) -> ResultView {
    ResultView {
        scenario_name: name,
        wall_clock_ns,
        total_fees: 0,
        success_count: if success {
            1
        } else {
            0
        },
        failure_count: if success {
            0
        } else {
            1
        },
        balance_delta,
        tx_metrics: Seq::empty(),
        scan_metrics: None,
        recorded_birth_height: None,
        error: None,
    }
}

/// A scan found enough outputs: any number if none is required, otherwise none reported or at least
/// the target.
pub open spec fn outputs_suffice(task: TaskView, outputs_found: u64) -> bool {
    match task.target() {
        Some(target) => outputs_found > 0 ==> outputs_found >= target,
        None => true,
    }
}

/// The result of a scan: it succeeds if there is no checkpoint, or if the observed balance is the
/// checkpoint and enough outputs were found.
pub open spec fn scan_result(task: TaskView, scan: ScanMetrics, observed: u64, wall_clock_ns: u64) -> ResultView {
    let outcome = match task.checkpoint() {
        None => single_outcome(task.name(), wall_clock_ns, true, delta_from_zero(observed)),
        Some(expected) => single_outcome(
            task.name(),
            wall_clock_ns,
            outputs_suffice(task, scan.outputs_found) && observed == expected,
            wrapped_delta(expected, observed),
        ),
    };
    ResultView { scan_metrics: Some(scan), ..outcome }
}

/// The result of the funding scenario: it succeeds if the funding transaction did and the wallet
/// holds at least the funding amount.
pub open spec fn funding_result(a_fund: u64, h_birth: u64, funding: TxView, observed: u64, wall_clock_ns: u64) -> ResultView {
    ResultView {
        tx_metrics: seq![funding],
        recorded_birth_height: Some(h_birth),
        ..single_outcome(
            "S0"@,
            wall_clock_ns,
            funding.success && observed >= a_fund,
            wrapped_delta(a_fund, observed),
        )
    }
}

/// The result of a sending scenario.
pub open spec fn sending_result(name: Seq<char>, wall_clock_ns: u64, expected: u64, observed: u64, txs: Seq<TxView>) -> ResultView {
    ResultView {
        scenario_name: name,
        wall_clock_ns,
        total_fees: (fee_sum(txs) % 0x1_0000_0000_0000_0000) as u64,
        success_count: success_total(txs) as u64,
        failure_count: (txs.len() - success_total(txs)) as u64,
        balance_delta: wrapped_delta(expected, observed),
        tx_metrics: txs,
        scan_metrics: None,
        recorded_birth_height: None,
        error: None,
    }
}

/// The result of a scenario that could not be completed.
pub open spec fn error_result(name: Seq<char>, error: Seq<char>) -> ResultView {
    ResultView {
        tx_metrics: seq![failed_tx(Seq::empty(), 0, 0, error)],
        error: Some(error),
        ..single_outcome(name, 0, false, 0)
    }
}

/// A scenario under way.
pub struct RunView {
    pub task: TaskView,
    pub stage: StageView,
}

/// The stage after a send: the next step of the plan, or the final balance once the plan is done
/// or, in the build-up scenario, once a transaction has failed.
pub open spec fn after_send(task: TaskView, address: Seq<char>, initial: u64, txs: Seq<TxView>, sent: nat) -> StageView {
    let halted = task is S1 && txs.len() > 0 && !txs.last().success;
    if !halted && sent < task.plan()->0.shape.steps().len() {
        StageView::Sending { address, initial, txs, sent }
    } else {
        StageView::FinalBalance { initial, txs }
    }
}

impl RunView {
    /// The scenario before its first call.
    pub open spec fn begin(task: TaskView) -> RunView {
        RunView {
            task,
            stage: match task {
                TaskView::S0 { .. } => StageView::BirthTip,
                TaskView::S1(_) | TaskView::S4(_) | TaskView::S5(_) => StageView::InitialBalance,
                _ => StageView::Scan,
            },
        }
    }

    /// The stage is one that the task passes through.
    pub open spec fn wf(self) -> bool {
        &&& self.task.valid()
        &&& match self.stage {
            StageView::Scan | StageView::ScanBalance { .. } => self.task.plan() is None && !(
            self.task is S0),
            StageView::BirthTip | StageView::Funding { .. } | StageView::FundedBalance { .. }
            | StageView::FundedTip { .. } => self.task is S0,
            StageView::InitialBalance | StageView::SelfAddress { .. } | StageView::FinalBalance {
                ..
            } => self.task.plan() is Some,
            StageView::Sending { sent, .. } => self.task.plan() matches Some(plan) && sent
                < plan.shape.steps().len(),
            StageView::Finished { result } => result.scenario_name == self.task.name(),
            StageView::Failed { .. } => true,
        }
    }

    /// What the scenario asks next; nothing once it has ended.
    pub open spec fn call(self) -> Option<CallView> {
        match self.stage {
            StageView::Scan => Some(self.task.scan_call()),
            StageView::ScanBalance { .. } | StageView::FundedBalance { .. }
            | StageView::InitialBalance | StageView::FinalBalance { .. } => Some(
                CallView::GetBalance,
            ),
            StageView::BirthTip | StageView::FundedTip { .. } => Some(CallView::GetTipHeight),
            StageView::Funding { .. } => Some(
                CallView::ObserveFunding { expected_amount_ut: self.task->S0_a_fund },
            ),
            StageView::SelfAddress { .. } => Some(CallView::GetSelfAddress),
            StageView::Sending { address, sent, .. } => {
                let plan = self.task.plan()->0;
                Some(plan.call(plan.shape.steps()[sent as int], address))
            },
            StageView::Finished { .. } | StageView::Failed { .. } => None,
        }
    }

    /// The scenario after a reply that arrived `elapsed_ns` into it.
    pub open spec fn after(self, reply: ReplyView, elapsed_ns: u64) -> RunView {
        RunView {
            task: self.task,
            stage: match (self.stage, reply) {
                (StageView::Scan, ReplyView::Scan(Ok(scan))) => StageView::ScanBalance { scan },
                (StageView::ScanBalance { scan }, ReplyView::Number(Ok(observed))) =>
                    StageView::Finished {
                        result: scan_result(self.task, scan, observed, elapsed_ns),
                    },
                (StageView::BirthTip, ReplyView::Number(Ok(h_birth))) => StageView::Funding {
                    h_birth,
                },
                (StageView::Funding { h_birth }, ReplyView::Tx { outcome, .. }) =>
                    StageView::FundedBalance {
                        h_birth,
                        funding: match outcome {
                            Ok(tx) => tx,
                            Err(error) => failed_tx("incoming-funding"@, 0, elapsed_ns, error),
                        },
                    },
                (
                    StageView::FundedBalance { h_birth, funding },
                    ReplyView::Number(Ok(observed)),
                ) => StageView::FundedTip { h_birth, funding, observed },
                (
                    StageView::FundedTip { h_birth, funding, observed },
                    ReplyView::Number(Ok(_)),
                ) => StageView::Finished {
                    result: funding_result(
                        self.task->S0_a_fund,
                        h_birth,
                        funding,
                        observed,
                        elapsed_ns,
                    ),
                },
                (StageView::InitialBalance, ReplyView::Number(Ok(initial))) =>
                    StageView::SelfAddress { initial },
                (StageView::SelfAddress { initial }, ReplyView::Address(Ok(address))) => after_send(
                    self.task,
                    address,
                    initial,
                    Seq::empty(),
                    0,
                ),
                (
                    StageView::Sending { address, initial, txs, sent },
                    ReplyView::Tx { outcome, call_ns },
                ) => after_send(
                    self.task,
                    address,
                    initial,
                    txs.push(sent_tx(outcome, call_ns)),
                    sent + 1,
                ),
                (
                    StageView::Sending { address, initial, txs, sent },
                    ReplyView::Txs(outcomes),
                ) => after_send(
                    self.task,
                    address,
                    initial,
                    txs + concurrent_txs(outcomes, self.task.plan()->0.shape.timeout_secs()),
                    sent + 1,
                ),
                (
                    StageView::FinalBalance { initial, txs },
                    ReplyView::Number(Ok(observed)),
                ) => StageView::Finished {
                    result: sending_result(
                        self.task.name(),
                        elapsed_ns,
                        settled(initial, txs),
                        observed,
                        txs,
                    ),
                },
                (_, ReplyView::Number(Err(error))) => StageView::Failed { error },
                (_, ReplyView::Address(Err(error))) => StageView::Failed { error },
                (_, ReplyView::Scan(Err(error))) => StageView::Failed { error },
                (stage, _) => stage,
            },
        }
    }
}

/// A scenario under way.
#[derive(PartialEq, Eq, Debug)]
pub struct ScenarioRun {
    pub task: Task,
    pub stage: Stage,
}

impl View for ScenarioRun {
    type V = RunView;

    open spec fn view(&self) -> RunView {
        RunView { task: self.task@, stage: self.stage@ }
    }
}

/// What has become of a scenario.
#[derive(PartialEq, Eq, Debug)]
pub enum Outcome {
    Finished(ScenarioResult),
    Failed(String),
    UnderWay(ScenarioRun),
}

fn failed_tx_of(tx_id: String, construction_ns: u64, confirmed_ns: u64, error: String) -> (r: TxMetrics)
    ensures
        r@ == failed_tx(tx_id@, construction_ns, confirmed_ns, error@),
{
    TxMetrics {
        tx_id,
        construction_ns,
        broadcast_to_mempool_ns: 0,
        broadcast_to_confirmed_ns: confirmed_ns,
        fee_paid: 0,
        success: false,
        error: Some(error),
    }
}

fn no_text() -> (r: String)
    ensures
        r@ == Seq::<char>::empty(),
{
    proof {
        reveal_strlit("");
    }
    let r = "".to_owned();
    assert(r@ =~= Seq::<char>::empty());
    r
}

/// The transaction of a send.
pub fn sent_tx_of(outcome: Result<TxMetrics, String>, call_ns: u64) -> (r: TxMetrics)
    ensures
        r@ == sent_tx(tx_result_view(outcome), call_ns),
{
    match outcome {
        Ok(tx) => tx,
        Err(error) => failed_tx_of(no_text(), call_ns, 0, error),
    }
}

fn timeout_message(timeout_secs: u64) -> (r: String)
    ensures
        r@ == "send_single timed out after "@ + decimal(timeout_secs as nat) + "s"@,
{
    "send_single timed out after ".to_owned().concat(decimal_text(timeout_secs).as_str()).concat(
        "s",
    )
}

/// The transaction of a concurrent send.
pub fn concurrent_tx_of(outcome: SendOutcome, timeout_secs: u64) -> (r: TxMetrics)
    ensures
        r@ == concurrent_tx(outcome@, timeout_secs),
{
    match outcome {
        SendOutcome::Sent(tx) => tx,
        SendOutcome::Failed(error) => failed_tx_of(no_text(), 0, 0, error),
        SendOutcome::TimedOut => {
            let construction_ns: u64 = match timeout_secs.checked_mul(1_000_000_000) {
                Some(ns) => ns,
                None => u64::MAX,
            };
            failed_tx_of(no_text(), construction_ns, 0, timeout_message(timeout_secs))
        },
    }
}

/// Appends the transactions of a burst of concurrent sends.
fn append_concurrent(txs: &mut Vec<TxMetrics>, outcomes: Vec<SendOutcome>, timeout_secs: u64)
    ensures
        tx_views(final(txs)@) == tx_views(old(txs)@) + concurrent_txs(
            outcome_views(outcomes@),
            timeout_secs,
        ),
{
    let ghost before = tx_views(txs@);
    let ghost views = outcome_views(outcomes@);
    for outcome in it: outcomes
        invariant
            views == outcome_views(it.seq()),
            tx_views(txs@) == before + concurrent_txs(views.take(it.index()), timeout_secs),
    {
        let ghost grown = txs@;
        let tx = concurrent_tx_of(outcome, timeout_secs);
        txs.push(tx);
        proof {
            tx_views_push(grown, tx);
            assert(concurrent_txs(views.take(it.index() + 1), timeout_secs) =~= concurrent_txs(
                views.take(it.index()),
                timeout_secs,
            ).push(tx@));
        }
    }
    proof {
        assert(views.take(views.len() as int) =~= views);
    }
}

/// The balance that the fees of the successful transactions leave.
pub fn settled_balance(initial: u64, txs: &Vec<TxMetrics>) -> (r: u64)
    ensures
        r == settled(initial, tx_views(txs@)),
{
    let ghost views = tx_views(txs@);
    let mut expected: u64 = initial;
    let mut i: usize = 0;
    while i < txs.len()
        invariant
            i <= txs.len(),
            views == tx_views(txs@),
            expected == settled(initial, views.take(i as int)),
        decreases txs.len() - i,
    {
        proof {
            let next = views.take(i + 1);
            assert(next.drop_last() =~= views.take(i as int));
            assert(next.last() == txs@[i as int]@);
        }
        if txs[i].success {
            expected = expected.saturating_sub(txs[i].fee_paid);
        }
        i = i + 1;
    }
    proof {
        assert(views.take(views.len() as int) =~= views);
    }
    expected
}

fn scan_balance_delta(observed: u64) -> (r: i64)
    ensures
        r == delta_from_zero(observed),
{
    if observed <= i64::MAX as u64 {
        0 - observed as i64
    } else if observed == 0x8000_0000_0000_0000 {
        i64::MAX
    } else {
        (0x1_0000_0000_0000_0000i128 - observed as i128) as i64
    }
}

fn single_outcome_of(name: String, wall_clock_ns: u64, success: bool, balance_delta: i64) -> (r: ScenarioResult)
    ensures
        r@ == single_outcome(name@, wall_clock_ns, success, balance_delta),
{
    let r = ScenarioResult {
        scenario_name: name,
        wall_clock_ns,
        total_fees: 0,
        success_count: if success {
            1
        } else {
            0
        },
        failure_count: if success {
            0
        } else {
            1
        },
        balance_delta,
        tx_metrics: Vec::new(),
        scan_metrics: None,
        recorded_birth_height: None,
        error: None,
    };
    assert(r@.tx_metrics =~= Seq::empty());
    r
}

/// The result of a scenario that could not be completed: one failure, with its cause.
pub fn scenario_error_result(name: &str, error: String) -> (r: ScenarioResult)
    ensures
        r@ == error_result(name@, error@),
{
    let mut r = single_outcome_of(name.to_owned(), 0, false, 0);
    r.tx_metrics.push(failed_tx_of(no_text(), 0, 0, error.clone()));
    r.error = Some(error);
    assert(r@.tx_metrics =~= seq![failed_tx(Seq::empty(), 0, 0, error@)]);
    r
}

/// The result of a sending scenario.
fn finalize_scenario(name: String, wall_clock_ns: u64, expected: u64, observed: u64, txs: Vec<TxMetrics>) -> (r: ScenarioResult)
    ensures
        r@ == sending_result(name@, wall_clock_ns, expected, observed, tx_views(txs@)),
{
    let totals = tx_totals(&txs);
    ScenarioResult {
        scenario_name: name,
        wall_clock_ns,
        total_fees: totals.total_fees,
        success_count: totals.success_count,
        failure_count: totals.failure_count,
        balance_delta: balance_delta(expected, observed),
        tx_metrics: txs,
        scan_metrics: None,
        recorded_birth_height: None,
        error: None,
    }
}

impl Task {
    /// The scenario's name.
    pub fn name(&self) -> (r: String)
        ensures
            r@ == self@.name(),
    {
        match self {
            Task::B0 => "B0".to_owned(),
            Task::S0 { .. } => "S0".to_owned(),
            Task::S1(_) => "S1".to_owned(),
            Task::S2 { .. } => "S2".to_owned(),
            Task::S3 { .. } => "S3".to_owned(),
            Task::S4(_) => "S4".to_owned(),
            Task::S5(_) => "S5".to_owned(),
            Task::S6 { .. } => "S6".to_owned(),
            Task::S7 { .. } => "S7".to_owned(),
        }
    }

    /// What the scenario sends, if it sends.
    pub fn plan(&self) -> (r: Option<&SendPlan>)
        ensures
            match r {
                Some(plan) => self@.plan() == Some(plan@),
                None => self@.plan() is None,
            },
    {
        match self {
            Task::S1(plan) => Some(plan),
            Task::S4(plan) => Some(plan),
            Task::S5(plan) => Some(plan),
            _ => None,
        }
    }

    fn scan_call(&self) -> (r: Call)
        ensures
            r@ == self@.scan_call(),
    {
        match self {
            Task::S3 { h_birth, .. } => Call::ScanFromBirthday { height: *h_birth },
            Task::S7 { h_birth, .. } => Call::ScanFromBirthday { height: *h_birth },
            _ => Call::ScanFromGenesis,
        }
    }

    fn scan_result(&self, scan: ScanMetrics, observed: u64, wall_clock_ns: u64) -> (r: ScenarioResult)
        ensures
            r@ == scan_result(self@, scan, observed, wall_clock_ns),
    {
        let (checkpoint, target): (Option<u64>, Option<u64>) = match self {
            Task::S2 { target, expected_balance } => (Some(*expected_balance), Some(*target)),
            Task::S3 { target, expected_balance, .. } => (Some(*expected_balance), Some(*target)),
            Task::S6 { expected_balance } => (Some(*expected_balance), None),
            Task::S7 { expected_balance, .. } => (Some(*expected_balance), None),
            _ => (None, None),
        };
        let mut r = match checkpoint {
            None => single_outcome_of(
                self.name(),
                wall_clock_ns,
                true,
                scan_balance_delta(observed),
            ),
            Some(expected) => {
                let outputs_ok = match target {
                    Some(target) => scan.outputs_found == 0 || scan.outputs_found >= target,
                    None => true,
                };
                single_outcome_of(
                    self.name(),
                    wall_clock_ns,
                    outputs_ok && observed == expected,
                    balance_delta(expected, observed),
                )
            },
        };
        r.scan_metrics = Some(scan);
        r
    }

    /// The stage after a send.
    fn after_send(&self, address: String, initial: u64, txs: Vec<TxMetrics>, sent: u128) -> (r: Stage)
        requires
            self@.valid(),
            self@.plan() is Some,
        ensures
            r@ == after_send(self@, address@, initial, tx_views(txs@), sent as nat),
    {
        let halted = match self {
            Task::S1(_) => txs.len() > 0 && !txs[txs.len() - 1].success,
            _ => false,
        };
        match self.plan() {
            Some(plan) => match plan.shape.step_at(sent) {
                Some(_) if !halted => Stage::Sending { address, initial, txs, sent },
                _ => Stage::FinalBalance { initial, txs },
            },
            None => Stage::FinalBalance { initial, txs },
        }
    }
}

/// The result of the funding scenario.
pub fn funding_result_of(a_fund: u64, h_birth: u64, funding: TxMetrics, observed: u64, wall_clock_ns: u64) -> (r: ScenarioResult)
    ensures
        r@ == funding_result(a_fund, h_birth, funding@, observed, wall_clock_ns),
{
    let success = funding.success && observed >= a_fund;
    let mut r = single_outcome_of(
        "S0".to_owned(),
        wall_clock_ns,
        success,
        balance_delta(a_fund, observed),
    );
    r.tx_metrics.push(funding);
    r.recorded_birth_height = Some(h_birth);
    assert(r@.tx_metrics =~= seq![funding@]);
    r
}

/// The steps of a task that can be held are fewer than `2^66`.
proof fn task_is_countable(task: Task)
    requires
        task@.valid(),
    ensures
        task@.plan() matches Some(plan) ==> plan.shape.steps().len() < 0x4_0000_0000_0000_0000,
{
    match task {
        Task::S1(plan) => steps_are_countable(plan.shape),
        Task::S4(plan) => steps_are_countable(plan.shape),
        Task::S5(plan) => steps_are_countable(plan.shape),
        _ => {},
    }
}

impl ScenarioRun {
    /// The scenario before its first call.
    pub fn begin(task: Task) -> (r: ScenarioRun)
        requires
            task@.valid(),
        ensures
            r@ == RunView::begin(task@),
            r@.wf(),
    {
        let stage = match &task {
            Task::S0 { .. } => Stage::BirthTip,
            Task::S1(_) | Task::S4(_) | Task::S5(_) => Stage::InitialBalance,
            _ => Stage::Scan,
        };
        ScenarioRun { task, stage }
    }

    /// What the scenario asks next; nothing once it has ended.
    pub fn call(&self) -> (r: Option<Call>)
        requires
            self@.wf(),
        ensures
            match r {
                Some(call) => self@.call() == Some(call@),
                None => self@.call() is None,
            },
    {
        match &self.stage {
            Stage::Scan => Some(self.task.scan_call()),
            Stage::ScanBalance { .. } | Stage::FundedBalance { .. } | Stage::InitialBalance
            | Stage::FinalBalance { .. } => Some(Call::GetBalance),
            Stage::BirthTip | Stage::FundedTip { .. } => Some(Call::GetTipHeight),
            Stage::Funding { .. } => match &self.task {
                Task::S0 { a_fund } => Some(Call::ObserveFunding { expected_amount_ut: *a_fund }),
                _ => None,
            },
            Stage::SelfAddress { .. } => Some(Call::GetSelfAddress),
            Stage::Sending { address, sent, .. } => match self.task.plan() {
                Some(plan) => match plan.shape.step_at(*sent) {
                    Some(step) => Some(plan.call(step, address)),
                    None => None,
                },
                None => None,
            },
            Stage::Finished { .. } | Stage::Failed { .. } => None,
        }
    }

    /// Takes the reply to the scenario's call, which arrived `elapsed_ns` into the scenario.
    pub fn resume(self, reply: Reply, elapsed_ns: u64) -> (r: ScenarioRun)
        requires
            self@.wf(),
            self@.call() matches Some(call) && reply@.answers(call),
        ensures
            r@ == self@.after(reply@, elapsed_ns),
            r@.wf(),
    {
        let ScenarioRun { task, stage } = self;
        proof {
            task_is_countable(task);
        }
        let next = match reply {
            Reply::Number(Err(error)) => Stage::Failed { error },
            Reply::Address(Err(error)) => Stage::Failed { error },
            Reply::Scan(Err(error)) => Stage::Failed { error },
            Reply::Number(Ok(number)) => match stage {
                Stage::ScanBalance { scan } => Stage::Finished {
                    result: task.scan_result(scan, number, elapsed_ns),
                },
                Stage::BirthTip => Stage::Funding { h_birth: number },
                Stage::FundedBalance { h_birth, funding } => Stage::FundedTip {
                    h_birth,
                    funding,
                    observed: number,
                },
                Stage::FundedTip { h_birth, funding, observed } => match &task {
                    Task::S0 { a_fund } => Stage::Finished {
                        result: funding_result_of(*a_fund, h_birth, funding, observed, elapsed_ns),
                    },
                    _ => Stage::FundedTip { h_birth, funding, observed },
                },
                Stage::InitialBalance => Stage::SelfAddress { initial: number },
                Stage::FinalBalance { initial, txs } => {
                    let expected: u64 = settled_balance(initial, &txs);
                    Stage::Finished {
                        result: finalize_scenario(task.name(), elapsed_ns, expected, number, txs),
                    }
                },
                other => other,
            },
            Reply::Scan(Ok(scan)) => Stage::ScanBalance { scan },
            Reply::Address(Ok(address)) => match stage {
                Stage::SelfAddress { initial } => {
                    let txs: Vec<TxMetrics> = Vec::new();
                    assert(tx_views(txs@) =~= Seq::empty());
                    task.after_send(address, initial, txs, 0)
                },
                other => other,
            },
            Reply::Tx { outcome, call_ns } => match stage {
                Stage::Funding { h_birth } => Stage::FundedBalance {
                    h_birth,
                    funding: match outcome {
                        Ok(tx) => tx,
                        Err(error) => failed_tx_of(
                            "incoming-funding".to_owned(),
                            0,
                            elapsed_ns,
                            error,
                        ),
                    },
                },
                Stage::Sending { address, initial, txs, sent } => {
                    let mut txs = txs;
                    let tx = sent_tx_of(outcome, call_ns);
                    proof {
                        tx_views_push(txs@, tx);
                    }
                    txs.push(tx);
                    task.after_send(address, initial, txs, sent + 1)
                },
                other => other,
            },
            Reply::Txs(outcomes) => match stage {
                Stage::Sending { address, initial, txs, sent } => {
                    let mut txs = txs;
                    let timeout_secs: u64 = match task.plan() {
                        Some(plan) => plan.shape.timeout_secs(),
                        None => 0,
                    };
                    append_concurrent(&mut txs, outcomes, timeout_secs);
                    task.after_send(address, initial, txs, sent + 1)
                },
                other => other,
            },
            Reply::Done(_) => stage,
        };
        ScenarioRun { task, stage: next }
    }

    /// How the scenario ended, or the scenario itself while it is under way.
    pub fn outcome(self) -> (r: Outcome)
        ensures
            match r {
                Outcome::Finished(result) => self@.stage == (StageView::Finished {
                    result: result@,
                }),
                Outcome::Failed(error) => self@.stage == (StageView::Failed { error: error@ }),
                Outcome::UnderWay(run) => run@ == self@ && !(self@.stage is Finished) && !(
                self@.stage is Failed),
            },
    {
        let ScenarioRun { task, stage } = self;
        match stage {
            Stage::Finished { result } => Outcome::Finished(result),
            Stage::Failed { error } => Outcome::Failed(error),
            stage => Outcome::UnderWay(ScenarioRun { task, stage }),
        }
    }
}

/// The baseline scenario: scan an empty wallet from genesis.
pub fn run_b0() -> (r: ScenarioRun)
    ensures
        r@ == RunView::begin(TaskView::B0),
        r@.wf(),
{
    ScenarioRun::begin(Task::B0)
}

/// The funding scenario: record the tip height, observe the incoming funding.
pub fn run_s0(config: &Config) -> (r: ScenarioRun)
    ensures
        r@ == RunView::begin(TaskView::S0 { a_fund: config.benchmark.a_fund }),
        r@.wf(),
{
    ScenarioRun::begin(Task::S0 { a_fund: config.benchmark.a_fund })
}

/// The build-up scenario.
pub fn run_s1(config: &Config) -> (r: ScenarioRun)
    requires
        stated_fee_rate(*config) is Some,
        volume_shape(*config).countable(),
    ensures
        r@ == RunView::begin(TaskView::S1(configured_plan(*config, volume_shape(*config)))),
        r@.wf(),
{
    ScenarioRun::begin(Task::S1(volume_plan(config)))
}

/// Rediscovery from genesis after the build-up, with the usual target of outputs.
pub fn run_s2(expected_balance: u64) -> (r: ScenarioRun)
    ensures
        r@ == RunView::begin(TaskView::S2 { target: REDISCOVERY_TARGET, expected_balance }),
        r@.wf(),
{
    ScenarioRun::begin(Task::S2 { target: REDISCOVERY_TARGET, expected_balance })
}

/// Rediscovery from the birthday after the build-up, with the usual target of outputs.
pub fn run_s3(h_birth: u64, expected_balance: u64) -> (r: ScenarioRun)
    ensures
        r@ == RunView::begin(
            TaskView::S3 { h_birth, target: REDISCOVERY_TARGET, expected_balance },
        ),
        r@.wf(),
{
    ScenarioRun::begin(Task::S3 { h_birth, target: REDISCOVERY_TARGET, expected_balance })
}

/// The concurrency scenario.
pub fn run_s4(config: &Config) -> (r: ScenarioRun)
    requires
        stated_fee_rate(*config) is Some,
    ensures
        r@ == RunView::begin(TaskView::S4(configured_plan(*config, concurrent_shape(*config)))),
        r@.wf(),
{
    ScenarioRun::begin(Task::S4(concurrent_plan(config)))
}

/// The throughput scenario.
pub fn run_s5(config: &Config) -> (r: ScenarioRun)
    requires
        stated_fee_rate(*config) is Some,
    ensures
        r@ == RunView::begin(TaskView::S5(configured_plan(*config, throughput_shape(*config)))),
        r@.wf(),
{
    ScenarioRun::begin(Task::S5(throughput_plan(config)))
}

/// Recovery from genesis after the throughput scenario.
pub fn run_s6(expected_balance: u64) -> (r: ScenarioRun)
    ensures
        r@ == RunView::begin(TaskView::S6 { expected_balance }),
        r@.wf(),
{
    ScenarioRun::begin(Task::S6 { expected_balance })
}

/// Recovery from the birthday after the throughput scenario.
pub fn run_s7(h_birth: u64, expected_balance: u64) -> (r: ScenarioRun)
    ensures
        r@ == RunView::begin(TaskView::S7 { h_birth, expected_balance }),
        r@.wf(),
{
    ScenarioRun::begin(Task::S7 { h_birth, expected_balance })
}

impl RunView {
    /// The most calls that the scenario may still make.
    pub open spec fn calls_left(self) -> nat {
        let steps: nat = match self.task.plan() {
            Some(plan) => plan.shape.steps().len(),
            None => 0,
        };
        match self.stage {
            StageView::Scan => 2,
            StageView::ScanBalance { .. } => 1,
            StageView::BirthTip => 4,
            StageView::Funding { .. } => 3,
            StageView::FundedBalance { .. } => 2,
            StageView::FundedTip { .. } => 1,
            StageView::InitialBalance => steps + 3,
            StageView::SelfAddress { .. } => steps + 2,
            StageView::Sending { sent, .. } => (steps - sent + 1) as nat,
            StageView::FinalBalance { .. } => 1,
            StageView::Finished { .. } | StageView::Failed { .. } => 0,
        }
    }
}

/// Every reply brings a scenario closer to its end, and a scenario asks something exactly while it
/// has calls left: it cannot wait for ever, nor ask the same thing without end.
pub proof fn every_reply_is_progress(run: RunView, reply: ReplyView, elapsed_ns: u64)
    requires
        run.wf(),
        run.call() matches Some(call) && reply.answers(call),
    ensures
        run.after(reply, elapsed_ns).wf(),
        run.after(reply, elapsed_ns).task == run.task,
        run.after(reply, elapsed_ns).calls_left() < run.calls_left(),
        run.after(reply, elapsed_ns).call() is None <==> run.after(reply, elapsed_ns).calls_left()
            == 0,
{
}

/// A failed send or a failed funding observation is recorded; it never fails the scenario.
pub proof fn failed_sends_do_not_fail_the_scenario(run: RunView, reply: ReplyView, elapsed_ns: u64)
    requires
        run.wf(),
        run.call() matches Some(call) && reply.answers(call),
        reply is Tx || reply is Txs,
    ensures
        !(run.after(reply, elapsed_ns).stage is Failed),
{
}

/// Where a scenario stands after the replies so far, each with the time at which it arrived.
pub open spec fn reached(task: TaskView, replies: Seq<(ReplyView, u64)>) -> RunView
    decreases replies.len(),
{
    if replies.len() == 0 {
        RunView::begin(task)
    } else {
        reached(task, replies.drop_last()).after(replies.last().0, replies.last().1)
    }
}

/// Each of the replies answers what the scenario asked at that point.
pub open spec fn conversation(task: TaskView, replies: Seq<(ReplyView, u64)>) -> bool
    decreases replies.len(),
{
    replies.len() > 0 ==> {
        &&& conversation(task, replies.drop_last())
        &&& reached(task, replies.drop_last()).call() matches Some(call) && replies.last().0.answers(
            call,
        )
    }
}

/// The transactions that the first `n` steps attempt.
pub open spec fn attempts(steps: Seq<Dispatch>, n: nat) -> nat
    decreases n,
{
    if n == 0 {
        0
    } else {
        attempts(steps, (n - 1) as nat) + match steps[n - 1] {
            Dispatch::Concurrent(count) => count as nat,
            _ => 1,
        }
    }
}

/// The transactions recorded so far.
pub open spec fn recorded(stage: StageView) -> Seq<TxView> {
    match stage {
        StageView::Sending { txs, .. } => txs,
        StageView::FinalBalance { txs, .. } => txs,
        StageView::Finished { result } => result.tx_metrics,
        _ => Seq::empty(),
    }
}

/// A sending scenario reads the balance, then its address, and then makes the steps of its plan in
/// order: the call after `2 + k` replies is step `k`, so no step is repeated and none is left out.
/// Every attempted transaction is recorded once. The plan is carried out to its end, except that
/// the build-up scenario ends with its first failed transaction.
pub proof fn sends_are_made_once_in_order(task: TaskView, replies: Seq<(ReplyView, u64)>)
    requires
        task.valid(),
        task.plan() is Some,
        conversation(task, replies),
    ensures
        ({
            let run = reached(task, replies);
            let steps = task.plan()->0.shape.steps();
            let n = replies.len();
            let txs = recorded(run.stage);
            &&& run.task == task
            &&& run.wf()
            &&& match run.stage {
                StageView::InitialBalance => n == 0,
                StageView::SelfAddress { .. } => n == 1,
                StageView::Sending { sent, .. } => {
                    &&& sent == n - 2
                    &&& txs.len() == attempts(steps, sent)
                    &&& task is S1 ==> forall|i: int| 0 <= i < txs.len() ==> (#[trigger] txs[i]).success
                },
                StageView::FinalBalance { .. } => {
                    &&& 2 <= n <= steps.len() + 2
                    &&& txs.len() == attempts(steps, (n - 2) as nat)
                    &&& n - 2 == steps.len() || (task is S1 && !txs.last().success)
                    &&& task is S1 ==> forall|i: int|
                        0 <= i < txs.len() - 1 ==> (#[trigger] txs[i]).success
                },
                StageView::Finished { .. } => {
                    &&& 3 <= n <= steps.len() + 3
                    &&& txs.len() == attempts(steps, (n - 3) as nat)
                    &&& n - 3 == steps.len() || (task is S1 && !txs.last().success)
                    &&& task is S1 ==> forall|i: int|
                        0 <= i < txs.len() - 1 ==> (#[trigger] txs[i]).success
                },
                StageView::Failed { .. } => true,
                _ => false,
            }
        }),
    decreases replies.len(),
{
    if replies.len() > 0 {
        let before = replies.drop_last();
        sends_are_made_once_in_order(task, before);
        let run = reached(task, before);
        every_reply_is_progress(run, replies.last().0, replies.last().1);
        if let ShapeView::Volume { rounds, fanout } = task.plan()->0.shape {
            volume_scenario_counts(rounds, fanout);
        }
    }
}

/// A finished scenario counts every transaction as a success or as a failure, and a scenario
/// without sends counts as one success or one failure.
pub proof fn counts_add_up(task: TaskView, replies: Seq<(ReplyView, u64)>)
    requires
        task.valid(),
        conversation(task, replies),
        reached(task, replies).stage is Finished,
        recorded(reached(task, replies).stage).len() < 0x1_0000_0000_0000_0000,
    ensures
        ({
            let result = reached(task, replies).stage->result;
            &&& result.scenario_name == task.name()
            &&& result.success_count + result.failure_count == if task.plan() is Some {
                result.tx_metrics.len() as int
            } else {
                1
            }
        }),
{
    run_is_wf(task, replies);
    let before = replies.drop_last();
    run_is_wf(task, before);
    let run = reached(task, before);
    match run.stage {
        StageView::FinalBalance { txs, .. } => successes_are_bounded(txs),
        _ => {},
    }
}

/// Whatever the replies, a scenario stays on the way of its own task.
pub proof fn run_is_wf(task: TaskView, replies: Seq<(ReplyView, u64)>)
    requires
        task.valid(),
        conversation(task, replies),
    ensures
        reached(task, replies).wf(),
        reached(task, replies).task == task,
    decreases replies.len(),
{
    if replies.len() > 0 {
        run_is_wf(task, replies.drop_last());
        every_reply_is_progress(
            reached(task, replies.drop_last()),
            replies.last().0,
            replies.last().1,
        );
    }
}

/// A recovery scan succeeds if and only if it recovers the checkpoint balance and, where outputs
/// have to be rediscovered and are reported, at least its target of them. Its balance delta is zero
/// if and only if the balance is the checkpoint.
pub proof fn scans_validate_the_checkpoint(task: TaskView, scan: ScanMetrics, observed: u64, wall_clock_ns: u64)
    requires
        task.checkpoint() is Some,
    ensures
        ({
            let result = scan_result(task, scan, observed, wall_clock_ns);
            let enough = task.target() is None || scan.outputs_found == 0 || scan.outputs_found
                >= task.target()->0;
            &&& result.success_count == 1 <==> observed == task.checkpoint()->0 && enough
            &&& result.failure_count == 1 - result.success_count
            &&& result.balance_delta == 0 <==> observed == task.checkpoint()->0
            &&& result.scan_metrics == Some(scan)
        }),
{
}

/// The balance delta of a sending scenario is zero if and only if the fees of its successful
/// transactions explain the change of the balance.
pub proof fn fees_explain_the_balance(name: Seq<char>, wall_clock_ns: u64, initial: u64, observed: u64, txs: Seq<TxView>)
    requires
        charged_fees(txs) <= initial,
    ensures
        sending_result(name, wall_clock_ns, settled(initial, txs), observed, txs).balance_delta == 0
            <==> observed == initial - charged_fees(txs),
{
}

/// The balance that a sending scenario has to leave is the initial balance less the fee of each
/// transaction that succeeded, never below zero: a further transaction takes its own fee off if it
/// succeeded, and nothing if it did not.
pub proof fn each_success_takes_its_fee_off_the_balance(
    initial: u64,
    before: &Vec<TxMetrics>,
    tx: TxMetrics,
    txs: &Vec<TxMetrics>,
    was: u64,
    is: u64,
)
    requires
        txs@ == before@.push(tx),
        call_ensures(settled_balance, (initial, before), was),
        call_ensures(settled_balance, (initial, txs), is),
    ensures
        before@.len() == 0 ==> was == initial,
        !tx.success ==> is == was,
        tx.success && tx.fee_paid <= was ==> is == was - tx.fee_paid,
        tx.success && tx.fee_paid > was ==> is == 0,
{
    tx_views_push(before@, tx);
    assert(tx_views(txs@).drop_last() =~= tx_views(before@));
    assert(tx_views(txs@).last() == tx@);
}

/// The funding scenario succeeds if and only if the funding transaction did and the observed balance is
/// not below the funding amount: what succeeds with one balance succeeds with every larger one, and
/// what fails with one fails with every smaller one. Its delta is the funding amount less the
/// balance, and it records the birth height and the transaction.
pub proof fn more_than_the_funding_is_enough(
    a_fund: u64,
    h_birth: u64,
    funding: TxMetrics,
    observed: u64,
    more: u64,
    wall_clock_ns: u64,
    r: ScenarioResult,
    better: ScenarioResult,
)
    requires
        observed <= more,
        call_ensures(funding_result_of, (a_fund, h_birth, funding, observed, wall_clock_ns), r),
        call_ensures(funding_result_of, (a_fund, h_birth, funding, more, wall_clock_ns), better),
    ensures
        r.success_count == 1 <==> funding.success && !(observed < a_fund),
        r.success_count + r.failure_count == 1,
        r.success_count == 1 ==> better.success_count == 1,
        better.failure_count == 1 ==> r.failure_count == 1,
        r.balance_delta == 0 <==> observed == a_fund,
        i64::MIN <= a_fund - observed <= i64::MAX ==> r.balance_delta == a_fund - observed,
        r.recorded_birth_height == Some(h_birth),
        r.tx_metrics@.len() == 1 && r.tx_metrics@[0]@ == funding@,
        r.total_fees == 0,
        r.wall_clock_ns == wall_clock_ns,
        r.scenario_name@ == "S0"@,
        r.scan_metrics is None,
        r.error is None,
{
    assert(r@.tx_metrics.len() == r.tx_metrics@.len());
    assert(r@.tx_metrics[0] == r.tx_metrics@[0]@);
}

/// The funding scenario reads the tip, waits for the configured funding, reads the balance and then the
/// tip again. The first tip is the birth height. A funding that was not observed is recorded as a
/// failed transaction without a fee, and the scenario fails; otherwise it succeeds if the transaction
/// did and the wallet holds at least the funding amount.
pub proof fn funding_is_observed_and_then_checked(
    a_fund: u64,
    h_birth: u64,
    outcome: Result<TxView, Seq<char>>,
    call_ns: u64,
    balance: u64,
    tip: u64,
    times: (u64, u64, u64, u64),
)
    ensures
        ({
            let start = RunView::begin(TaskView::S0 { a_fund });
            let born = start.after(ReplyView::Number(Ok(h_birth)), times.0);
            let funded = born.after(ReplyView::Tx { outcome, call_ns }, times.1);
            let counted = funded.after(ReplyView::Number(Ok(balance)), times.2);
            let end = counted.after(ReplyView::Number(Ok(tip)), times.3);
            let result = end.stage->result;
            &&& start.call() == Some(CallView::GetTipHeight)
            &&& born.call() == Some(CallView::ObserveFunding { expected_amount_ut: a_fund })
            &&& funded.call() == Some(CallView::GetBalance)
            &&& counted.call() == Some(CallView::GetTipHeight)
            &&& end.call() is None
            &&& end.stage is Finished
            &&& result.success_count == 1 <==> outcome is Ok && outcome->Ok_0.success && balance
                >= a_fund
            &&& result.success_count + result.failure_count == 1
            &&& result.recorded_birth_height == Some(h_birth)
            &&& result.balance_delta == 0 <==> balance == a_fund
            &&& result.wall_clock_ns == times.3
            &&& result.tx_metrics.len() == 1
            &&& match outcome {
                Ok(tx) => result.tx_metrics[0] == tx,
                Err(error) => {
                    let tx = result.tx_metrics[0];
                    &&& !tx.success
                    &&& tx.fee_paid == 0
                    &&& tx.error == Some(error)
                    &&& tx.tx_id == "incoming-funding"@
                    &&& tx.construction_ns == 0
                    &&& tx.broadcast_to_mempool_ns == 0
                    &&& tx.broadcast_to_confirmed_ns == times.1
                },
            }
        }),
{
}

/// A scan scenario makes its scan and then reads the balance. The baseline always succeeds and shows
/// what an empty wallet should not hold; a recovery scan succeeds if the balance is the one expected
/// and, where outputs have to be rediscovered and are reported, there are at least as many as the
/// target. What the scan measured is reported as it is.
pub proof fn scans_are_followed_by_a_look_at_the_balance(
    task: TaskView,
    scan: ScanMetrics,
    balance: u64,
    scanned_ns: u64,
    end_ns: u64,
)
    requires
        !(task is S0) && !(task is S1) && !(task is S4) && !(task is S5),
    ensures
        ({
            let start = RunView::begin(task);
            let scanned = start.after(ReplyView::Scan(Ok(scan)), scanned_ns);
            let end = scanned.after(ReplyView::Number(Ok(balance)), end_ns);
            let result = end.stage->result;
            &&& start.call() == match task {
                TaskView::S3 { h_birth, .. } => Some(CallView::ScanFromBirthday { height: h_birth }),
                TaskView::S7 { h_birth, .. } => Some(CallView::ScanFromBirthday { height: h_birth }),
                _ => Some(CallView::ScanFromGenesis),
            }
            &&& scanned.call() == Some(CallView::GetBalance)
            &&& end.call() is None
            &&& end.stage is Finished
            &&& result.scan_metrics == Some(scan)
            &&& result.wall_clock_ns == end_ns
            &&& result.tx_metrics.len() == 0
            &&& result.total_fees == 0
            &&& result.recorded_birth_height is None
            &&& result.error is None
            &&& result.success_count + result.failure_count == 1
            &&& match task {
                TaskView::S2 { target, expected_balance } => {
                    &&& result.success_count == 1 <==> balance == expected_balance && !(0
                        < scan.outputs_found < target)
                    &&& result.balance_delta == 0 <==> balance == expected_balance
                    &&& i64::MIN <= expected_balance - balance <= i64::MAX ==> result.balance_delta
                        == expected_balance - balance
                },
                TaskView::S3 { target, expected_balance, .. } => {
                    &&& result.success_count == 1 <==> balance == expected_balance && !(0
                        < scan.outputs_found < target)
                    &&& result.balance_delta == 0 <==> balance == expected_balance
                    &&& i64::MIN <= expected_balance - balance <= i64::MAX ==> result.balance_delta
                        == expected_balance - balance
                },
                TaskView::S6 { expected_balance } => {
                    &&& result.success_count == 1 <==> balance == expected_balance
                    &&& result.balance_delta == 0 <==> balance == expected_balance
                    &&& i64::MIN <= expected_balance - balance <= i64::MAX ==> result.balance_delta
                        == expected_balance - balance
                },
                TaskView::S7 { expected_balance, .. } => {
                    &&& result.success_count == 1 <==> balance == expected_balance
                    &&& result.balance_delta == 0 <==> balance == expected_balance
                    &&& i64::MIN <= expected_balance - balance <= i64::MAX ==> result.balance_delta
                        == expected_balance - balance
                },
                _ => {
                    &&& result.success_count == 1
                    &&& result.balance_delta == 0 <==> balance == 0
                    &&& balance <= i64::MAX ==> result.balance_delta + balance == 0
                },
            }
        }),
{
}

/// What the wallet cannot tell fails a scenario with the wallet's own words, whichever scenario it is
/// and wherever it stands: a balance, a height, an address or a scan.
pub proof fn what_cannot_be_told_fails_the_scenario(run: RunView, error: Seq<char>, elapsed_ns: u64)
    ensures
        run.after(ReplyView::Number(Err(error)), elapsed_ns).stage == (StageView::Failed { error }),
        run.after(ReplyView::Address(Err(error)), elapsed_ns).stage == (StageView::Failed { error }),
        run.after(ReplyView::Scan(Err(error)), elapsed_ns).stage == (StageView::Failed { error }),
        run.after(ReplyView::Number(Err(error)), elapsed_ns).call() is None,
{
}

/// A scenario that failed is reported as one failure with its cause: no fees, no delta, no scan, no
/// birth height, and one transaction that did not succeed.
pub proof fn failures_are_reported_with_their_cause(name: &str, error: String, r: ScenarioResult)
    requires
        call_ensures(scenario_error_result, (name, error), r),
    ensures
        r.scenario_name@ == name@,
        r.success_count == 0,
        r.failure_count == 1,
        r.total_fees == 0,
        r.balance_delta == 0,
        r.wall_clock_ns == 0,
        r.scan_metrics is None,
        r.recorded_birth_height is None,
        r.error is Some && r.error->0@ == error@,
        r.tx_metrics@.len() == 1,
        !r.tx_metrics@[0].success,
        r.tx_metrics@[0].fee_paid == 0,
        r.tx_metrics@[0].tx_id@.len() == 0,
        r.tx_metrics@[0].construction_ns == 0,
        r.tx_metrics@[0].broadcast_to_mempool_ns == 0,
        r.tx_metrics@[0].broadcast_to_confirmed_ns == 0,
        r.tx_metrics@[0].error is Some && r.tx_metrics@[0].error->0@ == error@,
{
    assert(r@.tx_metrics.len() == r.tx_metrics@.len());
    assert(r@.tx_metrics[0] == r.tx_metrics@[0]@);
    assert(r@.error == Some(error@));
}

/// A send that the driver made is recorded as the driver tells it; one that failed has no fee, did not
/// succeed, and took as long as the call.
pub proof fn sends_are_recorded_as_they_came(outcome: Result<TxMetrics, String>, call_ns: u64, r: TxMetrics)
    requires
        call_ensures(sent_tx_of, (outcome, call_ns), r),
    ensures
        match outcome {
            Ok(tx) => r@ == tx@,
            Err(error) => {
                &&& !r.success
                &&& r.fee_paid == 0
                &&& r.tx_id@.len() == 0
                &&& r.construction_ns == call_ns
                &&& r.broadcast_to_mempool_ns == 0
                &&& r.broadcast_to_confirmed_ns == 0
                &&& r.error is Some && r.error->0@ == error@
            },
        },
{
    if let Err(error) = outcome {
        assert(r@.error == Some(error@));
    }
}

/// A concurrent send is recorded as the driver tells it; one that failed took no time, and one that ran
/// out of its time budget took all of it. Neither has a fee.
pub proof fn concurrent_sends_are_recorded_as_they_came(outcome: SendOutcome, timeout_secs: u64, r: TxMetrics)
    requires
        call_ensures(concurrent_tx_of, (outcome, timeout_secs), r),
    ensures
        outcome matches SendOutcome::Sent(tx) ==> r@ == tx@,
        !(outcome is Sent) ==> {
            &&& !r.success
            &&& r.fee_paid == 0
            &&& r.tx_id@.len() == 0
            &&& r.broadcast_to_mempool_ns == 0
            &&& r.broadcast_to_confirmed_ns == 0
            &&& r.error is Some
        },
        outcome matches SendOutcome::Failed(error) ==> r.construction_ns == 0 && r.error->0@
            == error@,
        outcome is TimedOut && timeout_secs * 1_000_000_000 <= u64::MAX ==> r.construction_ns
            == timeout_secs * 1_000_000_000,
        outcome is TimedOut ==> r.error->0@ == "send_single timed out after "@ + decimal(
            timeout_secs as nat,
        ) + "s"@,
{
    if !(outcome is Sent) {
        assert(r@.error is Some);
        assert(r@.error->0 == r.error->0@);
    }
}

/// Each reply to a send adds to the transactions of a scenario, behind those before it: one for a single
/// send or a batch, and one for each send of a burst, in the order of the outcomes; a send of a burst
/// that ran out of time took the plan's time budget. The initial balance and the address stay the
/// same.
pub proof fn replies_are_recorded_behind_each_other(run: RunView, reply: ReplyView, elapsed_ns: u64)
    requires
        run.wf(),
        run.stage is Sending,
        run.call() matches Some(call) && reply.answers(call),
    ensures
        ({
            let before = run.stage->Sending_txs;
            let stage = run.after(reply, elapsed_ns).stage;
            let after = recorded(stage);
            &&& stage is Sending || stage is FinalBalance
            &&& after.take(before.len() as int) == before
            &&& match reply {
                ReplyView::Tx { outcome, call_ns } => {
                    &&& after.len() == before.len() + 1
                    &&& outcome matches Ok(tx) ==> after.last() == tx
                    &&& outcome matches Err(error) ==> {
                        &&& !after.last().success
                        &&& after.last().fee_paid == 0
                        &&& after.last().construction_ns == call_ns
                        &&& after.last().error == Some(error)
                    }
                },
                ReplyView::Txs(outcomes) => {
                    &&& after.len() == before.len() + outcomes.len()
                    &&& forall|i: int|
                        0 <= i < outcomes.len() ==> match #[trigger] outcomes[i] {
                            OutcomeView::Sent(tx) => after[before.len() + i] == tx,
                            OutcomeView::Failed(error) => !after[before.len() + i].success
                                && after[before.len() + i].fee_paid == 0 && after[before.len()
                                + i].error == Some(error),
                            OutcomeView::TimedOut => {
                                let tx = after[before.len() + i];
                                let budget = run.task.plan()->0.shape->timeout_secs;
                                &&& !tx.success
                                &&& tx.fee_paid == 0
                                &&& tx.error == Some(
                                    "send_single timed out after "@ + decimal(budget as nat) + "s"@,
                                )
                                &&& budget * 1_000_000_000 <= u64::MAX ==> tx.construction_ns
                                    == budget * 1_000_000_000
                            },
                        }
                },
                _ => false,
            }
            &&& match stage {
                StageView::Sending { address, initial, .. } => address
                    == run.stage->Sending_address && initial == run.stage->Sending_initial,
                StageView::FinalBalance { initial, .. } => initial == run.stage->Sending_initial,
                _ => false,
            }
        }),
{
    let before = run.stage->Sending_txs;
    let after = recorded(run.after(reply, elapsed_ns).stage);
    assert(after.take(before.len() as int) =~= before);
    match run.task.plan()->0.shape {
        ShapeView::Volume { rounds, fanout } => volume_scenario_counts(rounds, fanout),
        ShapeView::Throughput { m, k } => throughput_scenario_counts(m, k),
        ShapeView::Concurrent { .. } => {},
    }
}

/// A sending scenario is settled against the balance that the wallet told at its beginning and the one
/// that it told at its end: the delta is zero if and only if the fees of the successful transactions
/// are what the balance has lost. It counts every fee, every success and every failure.
pub proof fn a_sending_scenario_is_settled_against_its_first_balance(task: TaskView, replies: Seq<(ReplyView, u64)>)
    requires
        task.valid(),
        task.plan() is Some,
        conversation(task, replies),
    ensures
        ({
            let stage = reached(task, replies).stage;
            let txs = recorded(stage);
            &&& stage is InitialBalance ==> reached(task, replies).call() == Some(
                CallView::GetBalance,
            )
            &&& stage is SelfAddress ==> reached(task, replies).call() == Some(
                CallView::GetSelfAddress,
            ) && replies[0].0 == ReplyView::Number(Ok(stage->SelfAddress_initial)) && replies.len()
                == 1
            &&& stage is Sending ==> replies[0].0 == ReplyView::Number(Ok(stage->Sending_initial))
                && replies[1].0 == ReplyView::Address(Ok(stage->Sending_address))
            &&& stage is FinalBalance ==> replies[0].0 == ReplyView::Number(
                Ok(stage->FinalBalance_initial),
            ) && reached(task, replies).call() == Some(CallView::GetBalance)
            &&& stage is Finished ==> {
                let result = stage->result;
                &&& replies[0].0 is Number && replies[0].0->Number_0 is Ok
                &&& replies.last().0 is Number && replies.last().0->Number_0 is Ok
                &&& charged_fees(txs) <= replies[0].0->Number_0->Ok_0 ==> (result.balance_delta == 0
                    <==> replies.last().0->Number_0->Ok_0 + charged_fees(txs)
                    == replies[0].0->Number_0->Ok_0)
                &&& charged_fees(txs) > replies[0].0->Number_0->Ok_0 ==> (result.balance_delta == 0
                    <==> replies.last().0->Number_0->Ok_0 == 0)
                &&& fee_sum(txs) <= u64::MAX ==> result.total_fees == fee_sum(txs)
                &&& txs.len() <= u64::MAX ==> result.success_count == success_total(txs)
                    && result.failure_count == txs.len() - success_total(txs)
                &&& result.wall_clock_ns == replies.last().1
                &&& result.scan_metrics is None
                &&& result.recorded_birth_height is None
                &&& result.error is None
            }
        }),
    decreases replies.len(),
{
    if replies.len() > 0 {
        let before = replies.drop_last();
        a_sending_scenario_is_settled_against_its_first_balance(task, before);
        sends_are_made_once_in_order(task, before);
        sends_are_made_once_in_order(task, replies);
        let run = reached(task, before);
        if before.len() > 0 {
            assert(before[0] == replies[0]);
        }
        if before.len() > 1 {
            assert(before[1] == replies[1]);
        }
        let txs = recorded(reached(task, replies).stage);
        successes_are_bounded(txs);
    }
}

/// Under a configuration, each transaction of the build-up scenario pays the configured amount, or one
/// where that is zero, to each of its recipients, all of them the wallet itself, at the configured fee
/// rate. There are two recipients in each of the first `2^rounds - 1` transactions, and the configured
/// number of them in the fan-outs that follow.
pub proof fn the_build_up_pays_the_wallet_itself(config: Config, run: ScenarioRun, replies: Seq<(ReplyView, u64)>)
    requires
        call_ensures(run_s1, (&config,), run),
        stated_fee_rate(config) is Some,
        volume_shape(config).countable(),
        conversation(run@.task, replies),
        reached(run@.task, replies).stage is Sending,
    ensures
        ({
            let n = replies.len() - 2;
            let doubled = pow2(config.benchmark.doubling_rounds as nat) - 1;
            reached(run@.task, replies).call() matches Some(CallView::SendBatch {
                recipients,
                fee_rate,
            }) && {
                &&& 0 <= n
                &&& Some(fee_rate) == stated_fee_rate(config)
                &&& recipients.len() == if n < doubled {
                    2
                } else {
                    config.benchmark.fanout_outputs_per_tx as int
                }
                &&& forall|i: int|
                    0 <= i < recipients.len() ==> replies[1].0 == ReplyView::Address(
                        Ok((#[trigger] recipients[i]).0),
                    ) && recipients[i].1 > 0 && (recipients[i].1 == config.benchmark.tx_amount_ut
                        || config.benchmark.tx_amount_ut == 0 && recipients[i].1 == 1)
            }
        }),
{
    let task = run@.task;
    assert(run@.wf());
    sends_are_made_once_in_order(task, replies);
    a_sending_scenario_is_settled_against_its_first_balance(task, replies);
    volume_scenario_counts(
        config.benchmark.doubling_rounds,
        config.benchmark.fanout_outputs_per_tx,
    );
}

/// Under a configuration, each burst of the concurrency scenario makes as many sends as the
/// configuration gives it, of the configured amount at the configured fee rate to the wallet itself,
/// each within the configured time.
pub proof fn bursts_pay_the_wallet_itself(config: Config, run: ScenarioRun, replies: Seq<(ReplyView, u64)>)
    requires
        call_ensures(run_s4, (&config,), run),
        stated_fee_rate(config) is Some,
        conversation(run@.task, replies),
        reached(run@.task, replies).stage is Sending,
    ensures
        ({
            let n = replies.len() - 2;
            reached(run@.task, replies).call() matches Some(CallView::SendConcurrent {
                count,
                to_address,
                amount_ut,
                fee_rate,
                timeout_secs,
            }) && {
                &&& 0 <= n < config.benchmark.concurrent_batches@.len()
                &&& count == config.benchmark.concurrent_batches@[n]
                &&& replies[1].0 == ReplyView::Address(Ok(to_address))
                &&& amount_ut > 0 && (amount_ut == config.benchmark.tx_amount_ut
                    || config.benchmark.tx_amount_ut == 0 && amount_ut == 1)
                &&& Some(fee_rate) == stated_fee_rate(config)
                &&& timeout_secs == config.benchmark.s4_t_budget_secs
            }
        }),
{
    let task = run@.task;
    assert(run@.wf());
    sends_are_made_once_in_order(task, replies);
    a_sending_scenario_is_settled_against_its_first_balance(task, replies);
}

/// Under a configuration, the throughput scenario makes the same payments twice: first in whole batches
/// of the configured size, then one by one. Every payment is of the configured amount, or of one where
/// that is zero, at the configured fee rate, and goes to the wallet itself.
pub proof fn both_arms_make_the_same_payments(config: Config, run: ScenarioRun, replies: Seq<(ReplyView, u64)>)
    requires
        call_ensures(run_s5, (&config,), run),
        stated_fee_rate(config) is Some,
        conversation(run@.task, replies),
        reached(run@.task, replies).stage is Sending,
    ensures
        ({
            let n = replies.len() - 2;
            let m = config.benchmark.s5_m;
            let k = config.benchmark.s5_k;
            let batched = k > 0 && n < m as int / k as int;
            &&& 0 <= n
            &&& match reached(run@.task, replies).call() {
                Some(CallView::SendBatch { recipients, fee_rate }) => {
                    &&& batched
                    &&& recipients.len() == k
                    &&& Some(fee_rate) == stated_fee_rate(config)
                    &&& forall|i: int|
                        0 <= i < recipients.len() ==> replies[1].0 == ReplyView::Address(
                            Ok((#[trigger] recipients[i]).0),
                        ) && recipients[i].1 > 0 && (recipients[i].1
                            == config.benchmark.tx_amount_ut || config.benchmark.tx_amount_ut == 0
                            && recipients[i].1 == 1)
                },
                Some(CallView::SendSingle { to_address, amount_ut, fee_rate }) => {
                    &&& !batched
                    &&& replies[1].0 == ReplyView::Address(Ok(to_address))
                    &&& Some(fee_rate) == stated_fee_rate(config)
                    &&& amount_ut > 0 && (amount_ut == config.benchmark.tx_amount_ut
                        || config.benchmark.tx_amount_ut == 0 && amount_ut == 1)
                },
                _ => false,
            }
        }),
{
    let task = run@.task;
    assert(run@.wf());
    sends_are_made_once_in_order(task, replies);
    a_sending_scenario_is_settled_against_its_first_balance(task, replies);
    throughput_scenario_counts(config.benchmark.s5_m, config.benchmark.s5_k);
}

/// A scenario that is carried out does what is said of it: it begins before its first call, makes the
/// call that is said, takes a reply as is said, and ends as is said.
pub proof fn scenarios_go_as_they_are_described(
    task: Task,
    first: ScenarioRun,
    run: ScenarioRun,
    call: Option<Call>,
    reply: Reply,
    elapsed_ns: u64,
    next: ScenarioRun,
    outcome: Outcome,
)
    requires
        call_ensures(ScenarioRun::begin, (task,), first),
        call_ensures(ScenarioRun::call, (&run,), call),
        call_ensures(ScenarioRun::resume, (run, reply, elapsed_ns), next),
        call_ensures(ScenarioRun::outcome, (run,), outcome),
    ensures
        first@ == RunView::begin(task@),
        run@.call() is Some == call is Some,
        call matches Some(c) ==> run@.call()->0 == c@,
        next@ == run@.after(reply@, elapsed_ns),
        match outcome {
            Outcome::Finished(result) => run@.stage is Finished && run@.stage->result == result@,
            Outcome::Failed(error) => run@.stage is Failed && run@.stage->error == error@,
            Outcome::UnderWay(same) => same@ == run@ && !(run@.stage is Finished) && !(
            run@.stage is Failed),
        },
{
}

/// A scenario that is run on its own is the one of its name: it stands before its first call and knows
/// the funding amount, the balance to find, the outputs to find and the birth height that it was
/// given.
pub proof fn scenarios_know_what_they_were_given(
    config: Config,
    h_birth: u64,
    expected: u64,
    runs: (ScenarioRun, ScenarioRun, ScenarioRun, ScenarioRun, ScenarioRun, ScenarioRun),
)
    requires
        call_ensures(run_b0, (), runs.0),
        call_ensures(run_s0, (&config,), runs.1),
        call_ensures(run_s2, (expected,), runs.2),
        call_ensures(run_s3, (h_birth, expected), runs.3),
        call_ensures(run_s6, (expected,), runs.4),
        call_ensures(run_s7, (h_birth, expected), runs.5),
    ensures
        runs.0@.task is B0 && runs.0@.stage is Scan,
        runs.1@.task matches TaskView::S0 { a_fund } && a_fund == config.benchmark.a_fund,
        runs.1@.stage is BirthTip,
        runs.2@.task matches TaskView::S2 { target, expected_balance } && target == 512
            && expected_balance == expected,
        runs.3@.task matches TaskView::S3 { h_birth: h, target, expected_balance } && h == h_birth
            && target == 512 && expected_balance == expected,
        runs.4@.task matches TaskView::S6 { expected_balance } && expected_balance == expected,
        runs.5@.task matches TaskView::S7 { h_birth: h, expected_balance } && h == h_birth
            && expected_balance == expected,
        runs.2@.stage is Scan && runs.3@.stage is Scan && runs.4@.stage is Scan
            && runs.5@.stage is Scan,
{
}

} // verus!
