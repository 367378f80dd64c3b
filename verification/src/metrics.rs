//! What a benchmark run measures: per transaction, per scan and per scenario.
//!
//! Durations are whole nanoseconds. A CPU load is held as the bit pattern of a non-negative
//! 64-bit float, which orders as the load itself does.

use vstd::prelude::*;

verus! {

/// Resource use and progress of one wallet scan.
#[derive(Clone, Copy, PartialEq, Eq, Structural, Debug)]
pub struct ScanMetrics {
    pub wall_clock_ns: u64,
    /// Blocks that the scan covered; with `wall_clock_ns` it gives the blocks per second.
    pub blocks_scanned: u64,
    pub h_tip_start: u64,
    pub h_tip_end: u64,
    pub outputs_found: u64,
    pub peak_rss_kb: u64,
    /// Bit pattern of the highest CPU load seen, in percent.
    pub peak_cpu_bits: u64,
}

/// Timing and outcome of one transaction.
#[derive(Clone, PartialEq, Eq, Debug)]
pub struct TxMetrics {
    pub tx_id: String,
    pub construction_ns: u64,
    pub broadcast_to_mempool_ns: u64,
    pub broadcast_to_confirmed_ns: u64,
    pub fee_paid: u64,
    pub success: bool,
    pub error: Option<String>,
}

/// Outcome of one scenario.
#[derive(Clone, PartialEq, Eq, Debug)]
pub struct ScenarioResult {
    pub scenario_name: String,
    pub wall_clock_ns: u64,
    pub total_fees: u64,
    pub success_count: u64,
    pub failure_count: u64,
    pub balance_delta: i64,
    pub tx_metrics: Vec<TxMetrics>,
    pub scan_metrics: Option<ScanMetrics>,
    pub recorded_birth_height: Option<u64>,
    pub error: Option<String>,
}

/// The characters of a text that may be absent.
pub open spec fn text_view(text: Option<String>) -> Option<Seq<char>> {
    match text {
        Some(t) => Some(t@),
        None => None,
    }
}

pub struct TxView {
    pub tx_id: Seq<char>,
    pub construction_ns: u64,
    pub broadcast_to_mempool_ns: u64,
    pub broadcast_to_confirmed_ns: u64,
    pub fee_paid: u64,
    pub success: bool,
    pub error: Option<Seq<char>>,
}

impl View for TxMetrics {
    type V = TxView;

    open spec fn view(&self) -> TxView {
        TxView {
            tx_id: self.tx_id@,
            construction_ns: self.construction_ns,
            broadcast_to_mempool_ns: self.broadcast_to_mempool_ns,
            broadcast_to_confirmed_ns: self.broadcast_to_confirmed_ns,
            fee_paid: self.fee_paid,
            success: self.success,
            error: text_view(self.error),
        }
    }
}

/// The transactions of `txs`, each by its view.
pub open spec fn tx_views(txs: Seq<TxMetrics>) -> Seq<TxView> {
    Seq::new(txs.len(), |i: int| txs[i]@)
}

pub struct ResultView {
    pub scenario_name: Seq<char>,
    pub wall_clock_ns: u64,
    pub total_fees: u64,
    pub success_count: u64,
    pub failure_count: u64,
    pub balance_delta: i64,
    pub tx_metrics: Seq<TxView>,
    pub scan_metrics: Option<ScanMetrics>,
    pub recorded_birth_height: Option<u64>,
    pub error: Option<Seq<char>>,
}

impl View for ScenarioResult {
    type V = ResultView;

    open spec fn view(&self) -> ResultView {
        ResultView {
            scenario_name: self.scenario_name@,
            wall_clock_ns: self.wall_clock_ns,
            total_fees: self.total_fees,
            success_count: self.success_count,
            failure_count: self.failure_count,
            balance_delta: self.balance_delta,
            tx_metrics: tx_views(self.tx_metrics@),
            scan_metrics: self.scan_metrics,
            recorded_birth_height: self.recorded_birth_height,
            error: text_view(self.error),
        }
    }
}

/// The results of `results`, each by its view.
pub open spec fn result_views(results: Seq<ScenarioResult>) -> Seq<ResultView> {
    Seq::new(results.len(), |i: int| results[i]@)
}

/// The fees of all transactions of `txs` together.
pub open spec fn fee_sum(txs: Seq<TxView>) -> nat
    decreases txs.len(),
{
    if txs.len() == 0 {
        0
    } else {
        fee_sum(txs.drop_last()) + txs.last().fee_paid as nat
    }
}

/// The number of transactions of `txs` that succeeded.
pub open spec fn success_total(txs: Seq<TxView>) -> nat
    decreases txs.len(),
{
    if txs.len() == 0 {
        0
    } else {
        success_total(txs.drop_last()) + if txs.last().success {
            1nat
        } else {
            0
        }
    }
}

/// The fees of the successful transactions of `txs` together.
pub open spec fn charged_fees(txs: Seq<TxView>) -> nat
    decreases txs.len(),
{
    if txs.len() == 0 {
        0
    } else {
        charged_fees(txs.drop_last()) + if txs.last().success {
            txs.last().fee_paid as nat
        } else {
            0
        }
    }
}

/// The difference of two balances as a 64-bit signed number, wrapping around where it does not fit.
pub open spec fn wrapped_delta(expected: u64, observed: u64) -> i64 {
    let d = expected - observed;
    if d > i64::MAX {
        (d - 0x1_0000_0000_0000_0000) as i64
    } else if d < i64::MIN {
        (d + 0x1_0000_0000_0000_0000) as i64
    } else {
        d as i64
    }
}

/// Expected minus observed balance, wrapping around where 64 signed bits do not hold it.
pub fn balance_delta(expected: u64, observed: u64) -> (r: i64)
    ensures
        r == wrapped_delta(expected, observed),
{
    let d: i128 = expected as i128 - observed as i128;
    if d > i64::MAX as i128 {
        (d - 0x1_0000_0000_0000_0000i128) as i64
    } else if d < i64::MIN as i128 {
        (d + 0x1_0000_0000_0000_0000i128) as i64
    } else {
        d as i64
    }
}

/// A balance delta of zero means that the balances agree, and only that; a delta that fits is the
/// plain difference.
pub proof fn delta_is_the_difference(expected: u64, observed: u64)
    ensures
        wrapped_delta(expected, observed) == 0 <==> expected == observed,
        i64::MIN <= expected - observed <= i64::MAX ==> wrapped_delta(expected, observed) == expected
            - observed,
{
}

/// The view of a run of transactions one longer.
pub proof fn tx_views_push(txs: Seq<TxMetrics>, tx: TxMetrics)
    ensures
        tx_views(txs.push(tx)) == tx_views(txs).push(tx@),
{
    assert(tx_views(txs.push(tx)) =~= tx_views(txs).push(tx@));
}

/// The view of a run of results one longer.
pub proof fn result_views_push(results: Seq<ScenarioResult>, result: ScenarioResult)
    ensures
        result_views(results.push(result)) == result_views(results).push(result@),
{
    assert(result_views(results.push(result)) =~= result_views(results).push(result@));
}

/// Never more successes than transactions.
pub proof fn successes_are_bounded(txs: Seq<TxView>)
    ensures
        success_total(txs) <= txs.len(),
    decreases txs.len(),
{
    if txs.len() > 0 {
        successes_are_bounded(txs.drop_last());
    }
}

/// What a scenario made of transactions amounts to.
pub struct TxTotals {
    pub total_fees: u64,
    pub success_count: u64,
    pub failure_count: u64,
}

/// Adds up the fees (modulo 2^64) and counts successes and failures.
pub fn tx_totals(txs: &Vec<TxMetrics>) -> (r: TxTotals)
    ensures
        r.total_fees as nat == fee_sum(tx_views(txs@)) % 0x1_0000_0000_0000_0000,
        r.success_count == success_total(tx_views(txs@)),
        r.failure_count == txs@.len() - success_total(tx_views(txs@)),
{
    let ghost views = tx_views(txs@);
    let mut total_fees: u64 = 0;
    let mut success_count: u64 = 0;
    let mut i: usize = 0;
    while i < txs.len()
        invariant
            i <= txs.len(),
            views == tx_views(txs@),
            total_fees as nat == fee_sum(views.take(i as int)) % 0x1_0000_0000_0000_0000,
            success_count == success_total(views.take(i as int)),
            success_count <= i,
        decreases txs.len() - i,
    {
        proof {
            let next = views.take(i + 1);
            assert(next.drop_last() =~= views.take(i as int));
            assert(next.last() == txs@[i as int]@);
        }
        total_fees = total_fees.wrapping_add(txs[i].fee_paid);
        if txs[i].success {
            success_count = success_count + 1;
        }
        i = i + 1;
    }
    proof {
        assert(views.take(views.len() as int) =~= views);
    }
    TxTotals { total_fees, success_count, failure_count: txs.len() as u64 - success_count }
}

/// A transaction and a result are seen as they are: nothing is added, dropped or mixed up between what
/// they hold and what is said of them.
pub proof fn views_tell_what_is_there(tx: TxMetrics, result: ScenarioResult)
    ensures
        tx@.tx_id == tx.tx_id@,
        tx@.construction_ns == tx.construction_ns,
        tx@.broadcast_to_mempool_ns == tx.broadcast_to_mempool_ns,
        tx@.broadcast_to_confirmed_ns == tx.broadcast_to_confirmed_ns,
        tx@.fee_paid == tx.fee_paid,
        tx@.success == tx.success,
        tx@.error is Some == tx.error is Some,
        tx.error matches Some(error) ==> tx@.error->0 == error@,
        result@.scenario_name == result.scenario_name@,
        result@.wall_clock_ns == result.wall_clock_ns,
        result@.total_fees == result.total_fees,
        result@.success_count == result.success_count,
        result@.failure_count == result.failure_count,
        result@.balance_delta == result.balance_delta,
        result@.tx_metrics.len() == result.tx_metrics@.len(),
        forall|i: int|
            0 <= i < result.tx_metrics@.len() ==> #[trigger] result@.tx_metrics[i]
                == result.tx_metrics@[i]@,
        result@.scan_metrics == result.scan_metrics,
        result@.recorded_birth_height == result.recorded_birth_height,
        result@.error is Some == result.error is Some,
        result.error matches Some(error) ==> result@.error->0 == error@,
{
}

/// Fees and successes are counted transaction by transaction. One transaction has its own fee; it is
/// charged if the transaction succeeded, and then counts as one success. What two lists come to
/// together is what each comes to alone.
pub proof fn fees_and_successes_add_up(a: Seq<TxView>, b: Seq<TxView>, tx: TxView)
    ensures
        fee_sum(seq![tx]) == tx.fee_paid,
        charged_fees(seq![tx]) == if tx.success {
            tx.fee_paid as nat
        } else {
            0
        },
        success_total(seq![tx]) == if tx.success {
            1nat
        } else {
            0
        },
        fee_sum(a + b) == fee_sum(a) + fee_sum(b),
        charged_fees(a + b) == charged_fees(a) + charged_fees(b),
        success_total(a + b) == success_total(a) + success_total(b),
    decreases b.len(),
{
    reveal_with_fuel(fee_sum, 2);
    reveal_with_fuel(charged_fees, 2);
    reveal_with_fuel(success_total, 2);
    assert(seq![tx].drop_last() =~= Seq::empty());
    if b.len() == 0 {
        assert(a + b =~= a);
    } else {
        fees_and_successes_add_up(a, b.drop_last(), tx);
        assert((a + b).drop_last() =~= a + b.drop_last());
    }
}

/// If every transaction succeeded, every fee is charged; if none did, none is.
pub proof fn only_successful_transactions_are_charged(txs: Seq<TxView>)
    ensures
        (forall|i: int| 0 <= i < txs.len() ==> (#[trigger] txs[i]).success) ==> charged_fees(txs)
            == fee_sum(txs) && success_total(txs) == txs.len(),
        (forall|i: int| 0 <= i < txs.len() ==> !(#[trigger] txs[i]).success) ==> charged_fees(txs)
            == 0 && success_total(txs) == 0,
        charged_fees(txs) <= fee_sum(txs),
    decreases txs.len(),
{
    if txs.len() > 0 {
        let before = txs.drop_last();
        only_successful_transactions_are_charged(before);
        assert(forall|i: int| 0 <= i < before.len() ==> before[i] == txs[i]);
        assert(txs.last() == txs[txs.len() - 1]);
    }
}

/// The totals of a list grow with each transaction by its fee and by one success or one failure.
pub proof fn totals_grow_with_each_transaction(
    before: &Vec<TxMetrics>,
    tx: TxMetrics,
    txs: &Vec<TxMetrics>,
    was: TxTotals,
    is: TxTotals,
)
    requires
        txs@ == before@.push(tx),
        call_ensures(tx_totals, (before,), was),
        call_ensures(tx_totals, (txs,), is),
    ensures
        is.success_count == was.success_count + if tx.success {
            1int
        } else {
            0
        },
        is.failure_count == was.failure_count + if tx.success {
            0int
        } else {
            1
        },
        is.total_fees as int == (was.total_fees + tx.fee_paid) % 0x1_0000_0000_0000_0000,
        before@.len() == 0 ==> was.success_count == 0 && was.failure_count == 0 && was.total_fees
            == 0,
{
    tx_views_push(before@, tx);
    assert(tx_views(txs@).drop_last() =~= tx_views(before@));
    assert(tx_views(txs@).last() == tx@);
}

/// The balance delta is what is expected less what is observed: it is zero if the two agree and only
/// then, the plain difference where 64 signed bits hold it, and apart from that difference by whole
/// multiples of 2^64 elsewhere.
pub proof fn deltas_are_expected_less_observed(expected: u64, observed: u64, r: i64)
    requires
        call_ensures(balance_delta, (expected, observed), r),
    ensures
        r == 0 <==> expected == observed,
        i64::MIN <= expected - observed <= i64::MAX ==> r == expected - observed,
        r == expected - observed || r == expected - observed + 0x1_0000_0000_0000_0000 || r
            == expected - observed - 0x1_0000_0000_0000_0000,
{
}

} // verus!
