//! The report on a benchmark run against one wallet.

use serde_json::Value;
use vstd::prelude::*;

use crate::config::Config;
use crate::driver::ReplyView;
use crate::metrics::{
    result_views, text_view, tx_views, ResultView, ScenarioResult, TxMetrics, TxView,
};
use crate::plan::{throughput_scenario_counts, Dispatch, ShapeView};
use crate::scenarios::{attempts, conversation, reached, recorded, sends_are_made_once_in_order, TaskView};
use crate::text::same_text;

verus! {

/// A quotient of two throughputs, not divided out.
#[derive(Clone, Copy, PartialEq, Eq, Structural, Debug)]
pub struct ThroughputRatio {
    pub numerator: u128,
    pub denominator: u128,
}

/// Where and how a wallet was measured, and what came out.
#[derive(PartialEq, Eq, Debug)]
pub struct BenchmarkReport {
    pub cpu_model: String,
    pub ram_kb: u64,
    pub os: String,
    pub disk_type: String,
    pub network_path: String,
    pub console_wallet_version: String,
    pub minotari_cli_version: String,
    pub base_node_version: String,
    /// How much longer the scan after the build-up took than the baseline, in nanoseconds.
    pub scan_delta_s2_minus_b0: Option<i128>,
    /// How much longer the scan after the throughput scenario took than the one after the build-up.
    pub scan_delta_s6_minus_s2: Option<i128>,
    /// The throughput of single sends over that of batches.
    pub s5_throughput_multiplier: Option<ThroughputRatio>,
    pub wallet_mode: String,
    /// The configuration of the run.
    pub config_snapshot: Value,
    pub scenarios: Vec<ScenarioResult>,
    pub error: Option<String>,
}

/// The first result under a name.
pub open spec fn result_named(results: Seq<ResultView>, name: Seq<char>) -> Option<ResultView>
    decreases results.len(),
{
    if results.len() == 0 {
        None
    } else if results.first().scenario_name == name {
        Some(results.first())
    } else {
        result_named(results.drop_first(), name)
    }
}

/// How long the scan of the first result under a name took.
pub open spec fn scan_time(results: Seq<ResultView>, name: Seq<char>) -> Option<u64> {
    match result_named(results, name) {
        Some(result) => match result.scan_metrics {
            Some(scan) => Some(scan.wall_clock_ns),
            None => None,
        },
        None => None,
    }
}

/// How much longer the scan `later` took than the scan `earlier`, if both were made.
pub open spec fn scan_delta(results: Seq<ResultView>, later: Seq<char>, earlier: Seq<char>) -> Option<i128> {
    match (scan_time(results, earlier), scan_time(results, later)) {
        (Some(a), Some(b)) => Some((b - a) as i128),
        _ => None,
    }
}

/// Construction, mempool and confirmation times of all transactions together.
pub open spec fn tx_time(txs: Seq<TxView>) -> nat
    decreases txs.len(),
{
    if txs.len() == 0 {
        0
    } else {
        let tx = txs.last();
        tx_time(txs.drop_last()) + (tx.construction_ns + tx.broadcast_to_mempool_ns
            + tx.broadcast_to_confirmed_ns) as nat
    }
}

/// A number that 128 bits hold: the largest such number stands for all above it.
pub open spec fn capped(n: nat) -> u128 {
    if n <= u128::MAX {
        n as u128
    } else {
        u128::MAX
    }
}

/// The whole batches of `k` that `m` payments make, none if `k` is zero.
pub open spec fn batch_count(m: u64, k: u64) -> u64 {
    if k == 0 {
        0
    } else {
        m / k
    }
}

/// The throughput multiplier: payments per time in the `m` single sends over payments per time in
/// the batches of `k` payments each, that is `(m / single) / (n * k / batch)` for `n` batches. There
/// is one if the throughput scenario made at least one batch and all its sends, and if batches and
/// single sends took any time.
pub open spec fn multiplier(results: Seq<ResultView>, m: u64, k: u64) -> Option<ThroughputRatio> {
    let batches = batch_count(m, k) as int;
    match result_named(results, "S5"@) {
        None => None,
        Some(result) => if result.tx_metrics.len() < batches + m || batches == 0 {
            None
        } else {
            let batch_ns = tx_time(result.tx_metrics.take(batches));
            let single_ns = tx_time(result.tx_metrics.subrange(batches, batches + m));
            if batch_ns > 0 && single_ns > 0 {
                Some(
                    ThroughputRatio {
                        numerator: capped((m as nat) * batch_ns),
                        denominator: capped(((batches * k) as nat) * single_ns),
                    },
                )
            } else {
                None
            }
        },
    }
}

/// Multiplying a capped number by a positive one and capping again is capping the product.
proof fn capped_product(factor: nat, n: nat)
    requires
        factor > 0,
    ensures
        capped(factor * capped(n) as nat) == capped(factor * n),
{
    if n > u128::MAX {
        assert(factor * n >= n) by (nonlinear_arith)
            requires
                factor > 0,
        ;
        assert(factor * u128::MAX as nat >= u128::MAX as nat) by (nonlinear_arith)
            requires
                factor > 0,
        ;
    }
}

/// Multiplies, up to the largest number that 128 bits hold.
fn multiply(a: u64, b: u128) -> (r: u128)
    ensures
        r == capped((a as nat) * (b as nat)),
{
    match (a as u128).checked_mul(b) {
        Some(product) => product,
        None => u128::MAX,
    }
}

/// The batches of `k` hold between one and `m` payments.
proof fn batches_hold_at_most_all(m: u64, k: u64)
    requires
        batch_count(m, k) > 0,
    ensures
        0 < batch_count(m, k) * k <= m,
        m > 0,
{
    let n = batch_count(m, k) as int;
    assert(0 < n * k <= m) by (nonlinear_arith)
        requires
            k > 0,
            n == m as int / k as int,
            n > 0,
    ;
}

/// Finds the first result under a name.
fn find_result<'a>(results: &'a Vec<ScenarioResult>, name: &str) -> (r: Option<&'a ScenarioResult>)
    ensures
        match r {
            Some(result) => result_named(result_views(results@), name@) == Some(result@),
            None => result_named(result_views(results@), name@) is None,
        },
{
    let ghost views = result_views(results@);
    let mut i: usize = 0;
    proof {
        assert(views.skip(0) =~= views);
    }
    while i < results.len()
        invariant
            i <= results.len(),
            views == result_views(results@),
            result_named(views, name@) == result_named(views.skip(i as int), name@),
        decreases results.len() - i,
    {
        proof {
            assert(views.skip(i as int).first() == results@[i as int]@);
            assert(views.skip(i as int).drop_first() =~= views.skip(i + 1));
        }
        if same_text(results[i].scenario_name.as_str(), name) {
            return Some(&results[i]);
        }
        i = i + 1;
    }
    None
}

/// How long the scan of a scenario took, if it was made.
pub fn scan_duration(results: &Vec<ScenarioResult>, name: &str) -> (r: Option<u64>)
    ensures
        r == scan_time(result_views(results@), name@),
{
    match find_result(results, name) {
        Some(result) => match &result.scan_metrics {
            Some(scan) => Some(scan.wall_clock_ns),
            None => None,
        },
        None => None,
    }
}

/// Adds up the times of the transactions from `from` on and before `to`.
pub fn tx_duration_sum(txs: &Vec<TxMetrics>, from: usize, to: usize) -> (r: u128)
    requires
        from <= to <= txs@.len(),
    ensures
        r == capped(tx_time(tx_views(txs@).subrange(from as int, to as int))),
{
    let ghost views = tx_views(txs@);
    let mut total: u128 = 0;
    let mut i: usize = from;
    proof {
        assert(views.subrange(from as int, from as int) =~= Seq::empty());
    }
    while i < to
        invariant
            from <= i <= to <= txs@.len(),
            views == tx_views(txs@),
            total == capped(tx_time(views.subrange(from as int, i as int))),
        decreases to - i,
    {
        let tx = &txs[i];
        proof {
            let next = views.subrange(from as int, i + 1);
            assert(next.drop_last() =~= views.subrange(from as int, i as int));
            assert(next.last() == txs@[i as int]@);
        }
        let ns: u128 = tx.construction_ns as u128 + tx.broadcast_to_mempool_ns as u128
            + tx.broadcast_to_confirmed_ns as u128;
        total = total.saturating_add(ns);
        i = i + 1;
    }
    total
}

fn delta_of(results: &Vec<ScenarioResult>, later: &str, earlier: &str) -> (r: Option<i128>)
    ensures
        r == scan_delta(result_views(results@), later@, earlier@),
{
    match (scan_duration(results, earlier), scan_duration(results, later)) {
        (Some(a), Some(b)) => Some(b as i128 - a as i128),
        _ => None,
    }
}

/// The throughput multiplier of a run under a configuration.
pub fn throughput_multiplier(results: &Vec<ScenarioResult>, config: &Config) -> (r: Option<ThroughputRatio>)
    ensures
        r == multiplier(result_views(results@), config.benchmark.s5_m, config.benchmark.s5_k),
{
    let m: u64 = config.benchmark.s5_m;
    let k: u64 = config.benchmark.s5_k;
    let batches: u64 = if k == 0 {
        0
    } else {
        m / k
    };
    match find_result(results, "S5") {
        None => None,
        Some(result) => {
            if (result.tx_metrics.len() as u128) < batches as u128 + m as u128 || batches == 0 {
                return None;
            }
            let batch_ns: u128 = tx_duration_sum(&result.tx_metrics, 0, batches as usize);
            let single_ns: u128 = tx_duration_sum(
                &result.tx_metrics,
                batches as usize,
                (batches + m) as usize,
            );
            proof {
                let txs = result@.tx_metrics;
                assert(txs.subrange(0, batches as int) =~= txs.take(batches as int));
            }
            if batch_ns > 0 && single_ns > 0 {
                proof {
                    let txs = result@.tx_metrics;
                    batches_hold_at_most_all(m, k);
                    capped_product(m as nat, tx_time(txs.take(batches as int)));
                    capped_product(
                        (batches * k) as nat,
                        tx_time(txs.subrange(batches as int, batches + m)),
                    );
                }
                let batched: u64 = batches * k;
                Some(
                    ThroughputRatio {
                        numerator: multiply(m, batch_ns),
                        denominator: multiply(batched, single_ns),
                    },
                )
            } else {
                None
            }
        },
    }
}

/// Where a run was made.
#[derive(PartialEq, Eq, Debug)]
pub struct Environment {
    pub cpu_model: String,
    pub ram_kb: u64,
    pub os: String,
}

/// Puts the report on a run together.
pub fn build_report(
    environment: &Environment,
    wallet_mode: String,
    config_snapshot: Value,
    scenarios: Vec<ScenarioResult>,
    config: &Config,
    setup_error: Option<String>,
) -> (r: BenchmarkReport)
    ensures
        r.cpu_model@ == environment.cpu_model@,
        r.ram_kb == environment.ram_kb,
        r.os@ == environment.os@,
        r.disk_type@ == "unknown"@,
        r.network_path@ == "remote:"@ + config.network.base_node_grpc_url@,
        r.console_wallet_version@ == config.versions.console_wallet@,
        r.minotari_cli_version@ == config.versions.minotari_cli@,
        r.base_node_version@ == config.versions.base_node@,
        r.scan_delta_s2_minus_b0 == scan_delta(result_views(scenarios@), "S2"@, "B0"@),
        r.scan_delta_s6_minus_s2 == scan_delta(result_views(scenarios@), "S6"@, "S2"@),
        r.s5_throughput_multiplier == multiplier(
            result_views(scenarios@),
            config.benchmark.s5_m,
            config.benchmark.s5_k,
        ),
        r.wallet_mode == wallet_mode,
        r.config_snapshot == config_snapshot,
        r.scenarios == scenarios,
        r.error == setup_error,
{
    BenchmarkReport {
        cpu_model: environment.cpu_model.clone(),
        ram_kb: environment.ram_kb,
        os: environment.os.clone(),
        disk_type: "unknown".to_owned(),
        network_path: "remote:".to_owned().concat(config.network.base_node_grpc_url.as_str()),
        console_wallet_version: config.versions.console_wallet.clone(),
        minotari_cli_version: config.versions.minotari_cli.clone(),
        base_node_version: config.versions.base_node.clone(),
        scan_delta_s2_minus_b0: delta_of(&scenarios, "S2", "B0"),
        scan_delta_s6_minus_s2: delta_of(&scenarios, "S6", "S2"),
        s5_throughput_multiplier: throughput_multiplier(&scenarios, config),
        wallet_mode,
        config_snapshot,
        scenarios,
        error: setup_error,
    }
}

/// What a report says of the machine: the brand of the first processor and the name of the
/// operating system, "unknown" where there is none, and the memory in kilobytes.
pub fn describe_environment(
    cpu_brand: Option<String>,
    memory_bytes: u64,
    os_version: Option<String>,
    os_name: Option<String>,
) -> (r: Environment)
    ensures
        r.cpu_model@ == match text_view(cpu_brand) {
            Some(brand) => if brand.len() > 0 {
                brand
            } else {
                "unknown"@
            },
            None => "unknown"@,
        },
        r.ram_kb == memory_bytes / 1024,
        r.os@ == match (text_view(os_version), text_view(os_name)) {
            (Some(version), _) => version,
            (None, Some(name)) => name,
            (None, None) => "unknown"@,
        },
{
    let cpu_model = match cpu_brand {
        Some(brand) => if brand.as_str().is_empty() {
            "unknown".to_owned()
        } else {
            brand
        },
        None => "unknown".to_owned(),
    };
    let os = match os_version {
        Some(version) => version,
        None => match os_name {
            Some(name) => name,
            None => "unknown".to_owned(),
        },
    };
    Environment { cpu_model, ram_kb: memory_bytes / 1024, os }
}

/// Steps without concurrent sends attempt one transaction each.
proof fn one_attempt_per_step(steps: Seq<Dispatch>, n: nat)
    requires
        n <= steps.len(),
        forall|i: int| 0 <= i < steps.len() ==> !((#[trigger] steps[i]) is Concurrent),
    ensures
        attempts(steps, n) == n,
    decreases n,
{
    if n > 0 {
        one_attempt_per_step(steps, (n - 1) as nat);
    }
}

/// A throughput scenario that finishes has recorded every batch and every single send, so that the
/// report has a multiplier if there is a batch at all and both kinds of sends took any time. It is
/// above zero.
pub proof fn a_finished_throughput_scenario_has_a_multiplier(
    task: TaskView,
    replies: Seq<(ReplyView, u64)>,
    results: Seq<ResultView>,
    m: u64,
    k: u64,
)
    requires
        task matches TaskView::S5(plan) && plan.shape == (ShapeView::Throughput { m, k }),
        conversation(task, replies),
        reached(task, replies).stage is Finished,
        result_named(results, "S5"@) == Some(reached(task, replies).stage->result),
    ensures
        ({
            let txs = recorded(reached(task, replies).stage);
            &&& txs.len() == batch_count(m, k) + m
            &&& multiplier(results, m, k) is Some <==> {
                &&& batch_count(m, k) > 0
                &&& tx_time(txs.take(batch_count(m, k) as int)) > 0
                &&& tx_time(txs.skip(batch_count(m, k) as int)) > 0
            }
            &&& multiplier(results, m, k) matches Some(ratio) ==> ratio.numerator > 0
                && ratio.denominator > 0
        }),
{
    sends_are_made_once_in_order(task, replies);
    throughput_scenario_counts(m, k);
    let steps = task.plan()->0.shape.steps();
    one_attempt_per_step(steps, steps.len());
    let txs = recorded(reached(task, replies).stage);
    let n = batch_count(m, k) as int;
    assert(txs.skip(n) =~= txs.subrange(n, n + m));
    if n > 0 {
        batches_hold_at_most_all(m, k);
        let batch_ns = tx_time(txs.take(n));
        let single_ns = tx_time(txs.subrange(n, n + m));
        if batch_ns > 0 && single_ns > 0 {
            assert(m * batch_ns > 0) by (nonlinear_arith)
                requires
                    m > 0,
                    batch_ns > 0,
            ;
            assert((n * k) * single_ns > 0) by (nonlinear_arith)
                requires
                    n * k > 0,
                    single_ns > 0,
            ;
        }
    }
}

/// A result is found under its name if there is one, and it is the first of that name.
pub proof fn the_first_result_of_a_name_is_found(results: Seq<ResultView>, name: Seq<char>)
    ensures
        match result_named(results, name) {
            Some(result) => exists|i: int|
                {
                    &&& 0 <= i < results.len()
                    &&& #[trigger] results[i] == result
                    &&& result.scenario_name == name
                    &&& forall|j: int|
                        0 <= j < i ==> (#[trigger] results[j]).scenario_name != name
                },
            None => forall|i: int|
                0 <= i < results.len() ==> (#[trigger] results[i]).scenario_name != name,
        },
    decreases results.len(),
{
    if results.len() > 0 {
        let rest = results.drop_first();
        assert(results[0] == results.first());
        if results.first().scenario_name != name {
            the_first_result_of_a_name_is_found(rest, name);
            assert(forall|i: int| 0 <= i < rest.len() ==> rest[i] == results[i + 1]);
            match result_named(rest, name) {
                Some(result) => {
                    let i = choose|i: int|
                        {
                            &&& 0 <= i < rest.len()
                            &&& #[trigger] rest[i] == result
                            &&& result.scenario_name == name
                            &&& forall|j: int|
                                0 <= j < i ==> (#[trigger] rest[j]).scenario_name != name
                        };
                    assert(results[i + 1] == result);
                    assert forall|j: int| 0 <= j < i + 1 implies (#[trigger]
                    results[j]).scenario_name != name by {
                        if j > 0 {
                            assert(rest[j - 1] == results[j]);
                        }
                    }
                },
                None => {
                    assert forall|j: int| 0 <= j < results.len() implies (#[trigger]
                    results[j]).scenario_name != name by {
                        if j > 0 {
                            assert(rest[j - 1] == results[j]);
                        }
                    }
                },
            }
        }
    }
}

/// The time of a scan is that of the first result under its name, if that one made a scan.
pub proof fn scan_times_are_those_of_their_scenario(
    results: &Vec<ScenarioResult>,
    name: &str,
    n: int,
    r: Option<u64>,
)
    requires
        call_ensures(scan_duration, (results, name), r),
        0 <= n < results@.len(),
        results@[n].scenario_name@ == name@,
        forall|i: int| 0 <= i < n ==> (#[trigger] results@[i]).scenario_name@ != name@,
    ensures
        r is Some <==> results@[n].scan_metrics is Some,
        r matches Some(ns) ==> ns == results@[n].scan_metrics->0.wall_clock_ns,
{
    let views = result_views(results@);
    the_first_result_of_a_name_is_found(views, name@);
    assert(views[n].scenario_name == name@);
    assert forall|i: int| 0 <= i < n implies (#[trigger] views[i]).scenario_name != name@ by {
        assert(results@[i].scenario_name@ != name@);
    }
    let found = result_named(views, name@);
    assert(found is Some);
    let i = choose|i: int|
        {
            &&& 0 <= i < views.len()
            &&& #[trigger] views[i] == found->0
            &&& found->0.scenario_name == name@
            &&& forall|j: int| 0 <= j < i ==> (#[trigger] views[j]).scenario_name != name@
        };
    assert(i == n);
}

/// The times of transactions add up transaction by transaction: one takes the time of its construction,
/// of its way to the mempool and of its confirmation together.
pub proof fn times_add_up(a: Seq<TxView>, b: Seq<TxView>, tx: TxView)
    ensures
        tx_time(seq![tx]) == tx.construction_ns + tx.broadcast_to_mempool_ns
            + tx.broadcast_to_confirmed_ns,
        tx_time(a + b) == tx_time(a) + tx_time(b),
    decreases b.len(),
{
    reveal_with_fuel(tx_time, 2);
    assert(seq![tx].drop_last() =~= Seq::empty());
    if b.len() == 0 {
        assert(a + b =~= a);
    } else {
        times_add_up(a, b.drop_last(), tx);
        assert((a + b).drop_last() =~= a + b.drop_last());
    }
}

/// The time of a stretch of transactions grows with each by its three times, and that of none is zero.
pub proof fn each_transaction_takes_its_time(
    txs: &Vec<TxMetrics>,
    from: usize,
    to: usize,
    end: usize,
    was: u128,
    is: u128,
)
    requires
        from <= to < txs@.len(),
        end == to + 1,
        call_ensures(tx_duration_sum, (txs, from, to), was),
        call_ensures(tx_duration_sum, (txs, from, end), is),
        is < u128::MAX,
    ensures
        from == to ==> was == 0,
        is == was + txs@[to as int].construction_ns + txs@[to as int].broadcast_to_mempool_ns
            + txs@[to as int].broadcast_to_confirmed_ns,
{
    let views = tx_views(txs@);
    let next = views.subrange(from as int, to + 1);
    assert(next.drop_last() =~= views.subrange(from as int, to as int));
    assert(next.last() == txs@[to as int]@);
}

/// The delta of two scans is the time of the later less that of the earlier, if both were made: swapped,
/// it changes its sign, and against itself it is zero.
pub proof fn scan_deltas_are_later_less_earlier(results: Seq<ResultView>, later: Seq<char>, earlier: Seq<char>)
    ensures
        scan_delta(results, later, earlier) is Some <==> scan_time(results, later) is Some
            && scan_time(results, earlier) is Some,
        scan_delta(results, later, earlier) matches Some(delta) ==> {
            &&& delta + scan_time(results, earlier)->0 == scan_time(results, later)->0
            &&& scan_delta(results, earlier, later) == Some((0 - delta) as i128)
            &&& delta > 0 <==> scan_time(results, later)->0 > scan_time(results, earlier)->0
        },
{
}

/// The multiplier compares payments per time: it is above one if and only if the single sends made more
/// payments in their time than the batches did in theirs. With whole batches and equal times it is
/// exactly one.
pub proof fn the_multiplier_compares_throughputs(results: &Vec<ScenarioResult>, config: Config, r: Option<ThroughputRatio>, n: int)
    requires
        call_ensures(throughput_multiplier, (results, &config), r),
        0 <= n < results@.len(),
        results@[n].scenario_name@ == "S5"@,
        forall|i: int| 0 <= i < n ==> (#[trigger] results@[i]).scenario_name@ != "S5"@,
    ensures
        ({
            let m = config.benchmark.s5_m as int;
            let k = config.benchmark.s5_k as int;
            let batches: int = if k == 0 {
                0
            } else {
                m / k
            };
            let txs = tx_views(results@[n].tx_metrics@);
            let batch_ns = tx_time(txs.take(batches)) as int;
            let single_ns = tx_time(txs.subrange(batches, batches + m)) as int;
            &&& r is Some <==> {
                &&& batches > 0
                &&& txs.len() >= batches + m
                &&& batch_ns > 0
                &&& single_ns > 0
            }
            &&& r is Some && m * batch_ns <= u128::MAX && (batches * k) * single_ns <= u128::MAX ==> {
                &&& r->0.denominator > 0
                &&& r->0.numerator > r->0.denominator <==> m * batch_ns > (batches * k) * single_ns
                &&& batches * k == m && batch_ns == single_ns ==> r->0.numerator
                    == r->0.denominator
                &&& r->0.numerator * ((batches * k) * single_ns) == r->0.denominator * (m
                    * batch_ns)
            }
        }),
{
    let views = result_views(results@);
    the_first_result_of_a_name_is_found(views, "S5"@);
    assert(views[n].scenario_name == "S5"@);
    assert forall|i: int| 0 <= i < n implies (#[trigger] views[i]).scenario_name != "S5"@ by {
        assert(results@[i].scenario_name@ != "S5"@);
    }
    let found = result_named(views, "S5"@);
    assert(found is Some);
    let i = choose|i: int|
        {
            &&& 0 <= i < views.len()
            &&& #[trigger] views[i] == found->0
            &&& found->0.scenario_name == "S5"@
            &&& forall|j: int| 0 <= j < i ==> (#[trigger] views[j]).scenario_name != "S5"@
        };
    assert(i == n);
    assert(found->0 == results@[n]@);
    let m = config.benchmark.s5_m;
    let k = config.benchmark.s5_k;
    if r is Some {
        batches_hold_at_most_all(m, k);
        let batches = batch_count(m, k) as int;
        let txs = tx_views(results@[n].tx_metrics@);
        let single_ns = tx_time(txs.subrange(batches, batches + m)) as int;
        assert((batches * k) * single_ns > 0) by (nonlinear_arith)
            requires
                batches * k > 0,
                single_ns > 0,
        ;
        let a = m * tx_time(txs.take(batches)) as int;
        let b = (batches * k) * single_ns;
        assert(a * b == b * a) by (nonlinear_arith);
    }
}

/// A report tells of the machine, the configuration and the run what they are, and compares the scans of
/// the scenarios that it names: the one after the build-up with the baseline, and the one after the
/// throughput scenario with the one after the build-up.
pub proof fn reports_tell_the_run(
    environment: Environment,
    wallet_mode: String,
    snapshot: Value,
    scenarios: Vec<ScenarioResult>,
    config: Config,
    error: Option<String>,
    r: BenchmarkReport,
)
    requires
        call_ensures(
            build_report,
            (&environment, wallet_mode, snapshot, scenarios, &config, error),
            r,
        ),
    ensures
        r.cpu_model@ == environment.cpu_model@,
        r.ram_kb == environment.ram_kb,
        r.os@ == environment.os@,
        r.disk_type@ == "unknown"@,
        r.network_path@ == "remote:"@ + config.network.base_node_grpc_url@,
        r.console_wallet_version@ == config.versions.console_wallet@,
        r.minotari_cli_version@ == config.versions.minotari_cli@,
        r.base_node_version@ == config.versions.base_node@,
        r.wallet_mode@ == wallet_mode@,
        r.config_snapshot == snapshot,
        r.scenarios@ == scenarios@,
        r.error == error,
        ({
            let views = result_views(scenarios@);
            let (b0, s2, s6) = (
                scan_time(views, "B0"@),
                scan_time(views, "S2"@),
                scan_time(views, "S6"@),
            );
            &&& r.scan_delta_s2_minus_b0 is Some <==> s2 is Some && b0 is Some
            &&& r.scan_delta_s2_minus_b0 matches Some(delta) ==> delta == s2->0 - b0->0
            &&& r.scan_delta_s6_minus_s2 is Some <==> s6 is Some && s2 is Some
            &&& r.scan_delta_s6_minus_s2 matches Some(delta) ==> delta == s6->0 - s2->0
        }),
{
}

/// A machine is described by what it tells of itself, the memory in whole kilobytes.
pub proof fn machines_are_described_by_what_they_tell(
    brand: Option<String>,
    memory: u64,
    version: Option<String>,
    name: Option<String>,
    r: Environment,
)
    requires
        call_ensures(describe_environment, (brand, memory, version, name), r),
    ensures
        r.ram_kb * 1024 <= memory < (r.ram_kb + 1) * 1024,
        brand matches Some(text) ==> text@.len() > 0 ==> r.cpu_model@ == text@,
        brand is None || brand->0@.len() == 0 ==> r.cpu_model@ == "unknown"@,
        version matches Some(text) ==> r.os@ == text@,
        version is None ==> (name matches Some(text) ==> r.os@ == text@),
        version is None && name is None ==> r.os@ == "unknown"@,
{
}

} // verus!
