use std::collections::VecDeque;

use harness::config::{
    BenchmarkParams, BinaryPaths, Config, DataDirs, NetworkConfig, Passwords, VersionPins,
};
use harness::driver::{Call, Reply, SendOutcome};
use harness::metrics::{ScanMetrics, ScenarioResult, TxMetrics};
use harness::scenarios::{
    run_b0, run_s0, run_s1, run_s2, run_s3, run_s4, run_s5, run_s6, run_s7, scenario_error_result,
    Outcome, ScenarioRun, REDISCOVERY_TARGET,
};
use harness::suite::{run_all_scenarios, run_old_wallet_scenarios, run_single_scenario, Suite};

/// A wallet that answers from a script and notes what it is asked.
struct FakeDriver {
    balance_values: VecDeque<u64>,
    scan_outputs_found: u64,
    single_calls: usize,
    concurrent_calls: Vec<u64>,
    batch_calls: Vec<usize>,
    funding_result: Result<TxMetrics, String>,
    send_single_result: Result<TxMetrics, String>,
    send_batch_results: VecDeque<Result<TxMetrics, String>>,
    scan_error: Option<String>,
    reset_result: Result<(), String>,
    tip_height: u64,
    scan_birthday_heights: Vec<u64>,
    asked: Vec<&'static str>,
}

impl FakeDriver {
    fn new() -> Self {
        FakeDriver {
            balance_values: VecDeque::from([10_000, 10_000]),
            scan_outputs_found: REDISCOVERY_TARGET,
            single_calls: 0,
            concurrent_calls: Vec::new(),
            batch_calls: Vec::new(),
            funding_result: Ok(sample_tx_metric("funding")),
            send_single_result: Ok(sample_tx_metric("single")),
            send_batch_results: VecDeque::from([Ok(sample_tx_metric("batch"))]),
            scan_error: None,
            reset_result: Ok(()),
            tip_height: 123,
            scan_birthday_heights: Vec::new(),
            asked: Vec::new(),
        }
    }

    fn with_balances(mut self, balances: &[u64]) -> Self {
        self.balance_values = balances.iter().copied().collect();
        self
    }

    fn balance(&mut self) -> u64 {
        if self.balance_values.len() > 1 {
            self.balance_values.pop_front().unwrap()
        } else {
            *self.balance_values.front().unwrap_or(&0)
        }
    }

    fn scan(&self) -> Reply {
        Reply::Scan(match &self.scan_error {
            Some(error) => Err(error.clone()),
            None => Ok(sample_scan_metrics(self.scan_outputs_found)),
        })
    }

    fn answer(&mut self, call: &Call) -> Reply {
        match call {
            Call::GetBalance => {
                self.asked.push("balance");
                Reply::Number(Ok(self.balance()))
            },
            Call::GetTipHeight => {
                self.asked.push("tip");
                Reply::Number(Ok(self.tip_height))
            },
            Call::GetSelfAddress => {
                self.asked.push("address");
                Reply::Address(Ok("faux-self-address".to_string()))
            },
            Call::ObserveFunding { .. } => {
                self.asked.push("funding");
                Reply::Tx { outcome: self.funding_result.clone(), call_ns: 5 }
            },
            Call::ScanFromGenesis => {
                self.asked.push("genesis");
                self.scan()
            },
            Call::ScanFromBirthday { height } => {
                self.asked.push("birthday");
                self.scan_birthday_heights.push(*height);
                self.scan()
            },
            Call::SendSingle { to_address, .. } => {
                assert_eq!(to_address, "faux-self-address");
                self.asked.push("single");
                self.single_calls += 1;
                Reply::Tx { outcome: self.send_single_result.clone(), call_ns: 7 }
            },
            Call::SendBatch { recipients, .. } => {
                self.asked.push("batch");
                self.batch_calls.push(recipients.len());
                let outcome = if self.send_batch_results.len() > 1 {
                    self.send_batch_results.pop_front().unwrap()
                } else {
                    self.send_batch_results[0].clone()
                };
                Reply::Tx { outcome, call_ns: 11 }
            },
            Call::SendConcurrent { count, .. } => {
                self.asked.push("concurrent");
                self.concurrent_calls.push(*count);
                self.single_calls += *count as usize;
                let outcomes = (0..*count)
                    .map(|_| match &self.send_single_result {
                        Ok(tx) => SendOutcome::Sent(tx.clone()),
                        Err(error) => SendOutcome::Failed(error.clone()),
                    })
                    .collect();
                Reply::Txs(outcomes)
            },
            Call::Reset => {
                self.asked.push("reset");
                Reply::Done(self.reset_result.clone())
            },
            Call::AwaitPending { timeout_secs } => {
                assert_eq!(*timeout_secs, 300);
                self.asked.push("pending");
                Reply::Done(Err("still pending".to_string()))
            },
        }
    }
}

fn play(driver: &mut FakeDriver, run: ScenarioRun) -> Result<ScenarioResult, String> {
    let mut run = run;
    let mut elapsed_ns = 0;
    loop {
        run = match run.call() {
            Some(call) => {
                let reply = driver.answer(&call);
                assert!(reply.answers(&call));
                elapsed_ns += 1_000_000_000;
                run.resume(reply, elapsed_ns)
            },
            None => match run.outcome() {
                Outcome::Finished(result) => return Ok(result),
                Outcome::Failed(error) => return Err(error),
                Outcome::UnderWay(_) => unreachable!(),
            },
        };
    }
}

fn play_suite(driver: &mut FakeDriver, suite: Suite) -> Vec<ScenarioResult> {
    let mut suite = suite;
    let mut now_ns = 0;
    while let Some(call) = suite.call() {
        let reply = driver.answer(&call);
        assert!(reply.answers(&call));
        now_ns += 1_000_000_000;
        suite = suite.resume(reply, now_ns);
    }
    suite.into_results()
}

fn sample_tx_metric(tx_id: &str) -> TxMetrics {
    TxMetrics {
        tx_id: tx_id.to_string(),
        construction_ns: 100_000_000,
        broadcast_to_mempool_ns: 200_000_000,
        broadcast_to_confirmed_ns: 300_000_000,
        fee_paid: 1,
        success: true,
        error: None,
    }
}

fn sample_scan_metrics(outputs_found: u64) -> ScanMetrics {
    ScanMetrics {
        wall_clock_ns: 1_000_000_000,
        blocks_scanned: 100,
        h_tip_start: 10,
        h_tip_end: 20,
        outputs_found,
        peak_rss_kb: 0,
        peak_cpu_bits: 0,
    }
}

fn sample_config() -> Config {
    Config {
        benchmark: BenchmarkParams {
            a_fund: 10_000,
            c_min: 3,
            volume_target: 512,
            doubling_rounds: 2,
            fanout_outputs_per_tx: 3,
            concurrent_batches: vec![2],
            s4_t_budget_secs: 60,
            s5_m: 12,
            s5_k: 3,
            tx_amount_ut: 200,
            fee_rate: "1".to_string(),
            scan_interval_secs: 1,
        },
        paths: BinaryPaths {
            wallet_bin: String::new(),
            minotari_bin: String::new(),
            payment_processor_bin: String::new(),
            console_wallet_bin: String::new(),
        },
        network: NetworkConfig {
            base_node_grpc_url: String::new(),
            base_node_http_url: String::new(),
            grpc_port: 0,
        },
        passwords: Passwords {
            old_wallet: String::new(),
            new_wallet: String::new(),
            payment_processor: String::new(),
            library_wallet: String::new(),
        },
        data: DataDirs {
            old_wallet: String::new(),
            new_wallet: String::new(),
            payment_processor: String::new(),
        },
        versions: VersionPins {
            console_wallet: String::new(),
            minotari_cli: String::new(),
            base_node: String::new(),
        },
        seeds: None,
    }
}

#[test]
fn s0_records_observed_funding_tx_metrics() {
    let mut driver = FakeDriver::new().with_balances(&[10_000]);
    let result = play(&mut driver, run_s0(&sample_config())).unwrap();

    assert_eq!(result.scenario_name, "S0");
    assert_eq!(result.success_count, 1);
    assert_eq!(result.failure_count, 0);
    assert_eq!(result.tx_metrics.len(), 1);
    assert_eq!(result.tx_metrics[0].tx_id, "funding");
    assert!(result.tx_metrics[0].broadcast_to_confirmed_ns > 0);
}

#[test]
fn s1_uses_two_output_doubling_and_fanout_batches() {
    let mut driver = FakeDriver::new().with_balances(&[10_000, 10_000]);
    let result = play(&mut driver, run_s1(&sample_config())).unwrap();

    assert_eq!(result.scenario_name, "S1");
    assert_eq!(driver.single_calls, 0);
    assert_eq!(driver.batch_calls, vec![2, 2, 2, 3, 3, 3, 3]);
    assert_eq!(result.success_count, 7);
}

#[test]
fn s5_runs_both_arms_for_payment_processor() {
    let mut driver = FakeDriver::new().with_balances(&[10_000, 10_000]);
    let result = play(&mut driver, run_s5(&sample_config())).unwrap();

    assert_eq!(result.scenario_name, "S5");
    assert_eq!(driver.batch_calls, vec![3, 3, 3, 3]);
    assert_eq!(driver.single_calls, 12);
    assert_eq!(result.tx_metrics.len(), 16); // 4 batch + 12 individual
}

#[test]
fn s5_runs_both_arms_for_non_payment_processor() {
    let mut driver = FakeDriver::new().with_balances(&[10_000, 10_000]);
    let result = play(&mut driver, run_s5(&sample_config())).unwrap();

    assert_eq!(result.scenario_name, "S5");
    assert_eq!(driver.batch_calls, vec![3, 3, 3, 3]);
    assert_eq!(driver.single_calls, 12);
    assert_eq!(result.tx_metrics.len(), 16); // 4 batch + 12 individual
}

#[test]
fn s2_fails_when_balance_does_not_match_expected_checkpoint() {
    let mut driver = FakeDriver::new().with_balances(&[8_000]);
    driver.scan_outputs_found = REDISCOVERY_TARGET;
    let result = play(&mut driver, run_s2(10_000)).unwrap();

    assert_eq!(result.success_count, 0);
    assert_eq!(result.failure_count, 1);
    assert_eq!(result.balance_delta, 2_000);
}

#[test]
fn s0_surfaces_funding_observation_failure() {
    let mut driver = FakeDriver::new().with_balances(&[0]);
    driver.funding_result = Err("no funding observed".to_string());
    let result = play(&mut driver, run_s0(&sample_config())).unwrap();

    assert_eq!(result.success_count, 0);
    assert_eq!(result.failure_count, 1);
    assert_eq!(result.tx_metrics.len(), 1);
    assert_eq!(result.tx_metrics[0].tx_id, "incoming-funding");
    assert_eq!(result.tx_metrics[0].error.as_deref(), Some("no funding observed"));
    // The observation failed with the second reply.
    assert_eq!(result.tx_metrics[0].broadcast_to_confirmed_ns, 2_000_000_000);
}

#[test]
fn b0_scan_failure_produces_error_result() {
    let mut driver = FakeDriver::new();
    driver.scan_outputs_found = REDISCOVERY_TARGET;
    let result = play(&mut driver, run_b0()).unwrap();
    assert_eq!(result.scenario_name, "B0");
    // B0 records one scan metric even when outputs_found < REDISCOVERY_TARGET
    assert!(result.scan_metrics.is_some());
}

#[test]
fn b0_with_zero_scan_outputs_still_produces_scenario() {
    let mut driver = FakeDriver::new();
    driver.scan_outputs_found = 0;
    let result = play(&mut driver, run_b0()).unwrap();
    assert_eq!(result.scenario_name, "B0");
    let scan = result.scan_metrics.unwrap();
    assert_eq!(scan.outputs_found, 0);
}

#[test]
fn s0_records_h_birth_from_tip_height() {
    let mut driver = FakeDriver::new().with_balances(&[10_000]);
    driver.tip_height = 99_999;
    let result = play(&mut driver, run_s0(&sample_config())).unwrap();

    assert_eq!(result.recorded_birth_height, Some(99_999));
}

#[test]
fn s1_with_zero_doubling_rounds_skips_to_fanout() {
    let mut cfg = sample_config();
    cfg.benchmark.doubling_rounds = 0;
    cfg.benchmark.fanout_outputs_per_tx = 2;
    let mut driver = FakeDriver::new().with_balances(&[10_000, 10_000]);
    let result = play(&mut driver, run_s1(&cfg)).unwrap();

    // No doubling rounds, one fan-out batch of 2 outputs (1 << 0 = 1 batch)
    assert_eq!(driver.batch_calls, vec![2]);
    assert_eq!(result.success_count, 1);
}

#[test]
fn s1_with_zero_fanout_skips_fanout_entirely() {
    let mut cfg = sample_config();
    cfg.benchmark.doubling_rounds = 1;
    cfg.benchmark.fanout_outputs_per_tx = 0;
    let mut driver = FakeDriver::new().with_balances(&[10_000, 10_000]);
    let result = play(&mut driver, run_s1(&cfg)).unwrap();

    // One doubling round (1 x 2-output batch) and no fan-out
    assert_eq!(driver.batch_calls, vec![2]);
    assert_eq!(result.success_count, 1);
}

#[test]
fn s3_passes_birthday_height_to_driver() {
    let mut driver = FakeDriver::new().with_balances(&[10_000]);
    driver.scan_outputs_found = REDISCOVERY_TARGET;
    let result = play(&mut driver, run_s3(42, 10_000)).unwrap();

    assert_eq!(result.scenario_name, "S3");
    assert_eq!(driver.scan_birthday_heights, vec![42]);
}

#[test]
fn s4_with_empty_concurrent_batches_produces_no_tx() {
    let mut cfg = sample_config();
    cfg.benchmark.concurrent_batches = vec![];
    let mut driver = FakeDriver::new().with_balances(&[10_000]);
    let result = play(&mut driver, run_s4(&cfg)).unwrap();

    assert_eq!(result.success_count, 0);
    assert_eq!(result.tx_metrics.len(), 0);
}

#[test]
fn s4_runs_all_concurrent_batches() {
    let mut cfg = sample_config();
    cfg.benchmark.concurrent_batches = vec![3, 5];
    let mut driver = FakeDriver::new().with_balances(&[10_000]);
    driver.tip_height = 200;
    let result = play(&mut driver, run_s4(&cfg)).unwrap();

    // 3 + 5 = 8 single calls expected
    assert_eq!(driver.single_calls, 8);
    assert_eq!(driver.concurrent_calls, vec![3, 5]);
    assert_eq!(result.success_count, 8);
    assert_eq!(result.tx_metrics.len(), 8);
}

#[test]
fn s5_with_zero_s5k_skips_batch_arm() {
    let mut cfg = sample_config();
    cfg.benchmark.s5_m = 6;
    cfg.benchmark.s5_k = 0;
    let mut driver = FakeDriver::new().with_balances(&[10_000, 10_000]);
    let result = play(&mut driver, run_s5(&cfg)).unwrap();

    // Without a batch size only the individual arm runs
    assert_eq!(driver.batch_calls.len(), 0);
    assert_eq!(driver.single_calls, 6);
    assert_eq!(result.success_count, 6);
}

#[test]
fn s6_with_zero_balance_still_produces_scenario() {
    let mut driver = FakeDriver::new().with_balances(&[0]);
    driver.scan_outputs_found = 100;
    let result = play(&mut driver, run_s6(0)).unwrap();

    assert_eq!(result.scenario_name, "S6");
    assert!(result.scan_metrics.is_some());
    assert_eq!(result.balance_delta, 0);
}

#[test]
fn s7_passes_correct_birthday_height() {
    let mut driver = FakeDriver::new().with_balances(&[10_000]);
    driver.scan_outputs_found = REDISCOVERY_TARGET;
    let result = play(&mut driver, run_s7(99, 10_000)).unwrap();

    assert_eq!(result.scenario_name, "S7");
    assert_eq!(driver.scan_birthday_heights, vec![99]);
}

#[test]
fn reset_failure_is_propagated_through_run_all() {
    let mut driver = FakeDriver::new().with_balances(&[10_000, 10_000]);
    driver.reset_result = Err("reset failed".to_string());
    let config = sample_config();
    let results = play_suite(&mut driver, run_all_scenarios(&config));
    // All 9 scenarios (B0 + S0-S7) should be present
    assert_eq!(results.len(), 9);
    for r in &results {
        assert!(
            r.success_count > 0 || r.failure_count > 0 || r.scan_metrics.is_some(),
            "{} should have success count, failure count, or scan metrics",
            r.scenario_name
        );
    }
}

#[test]
fn suites_rediscover_the_configured_number_of_outputs() {
    let outcome = |target: u64, found: u64| {
        let mut config = sample_config();
        config.benchmark.volume_target = target;
        let mut driver = FakeDriver::new().with_balances(&[10_000]);
        driver.scan_outputs_found = found;
        let results = play_suite(&mut driver, run_all_scenarios(&config));
        (results[3].success_count, results[4].success_count)
    };
    assert_eq!(outcome(100, 100), (1, 1));
    assert_eq!(outcome(100, 99), (0, 0));
    assert_eq!(outcome(100, 0), (1, 1));
    assert_eq!(outcome(1_000, 512), (0, 0));
}

#[test]
fn nine_results_come_in_order() {
    let mut driver = FakeDriver::new();
    let results = play_suite(&mut driver, run_all_scenarios(&sample_config()));
    let names: Vec<&str> = results.iter().map(|r| r.scenario_name.as_str()).collect();
    assert_eq!(names, vec!["B0", "S0", "S1", "S2", "S3", "S4", "S5", "S6", "S7"]);
    assert_eq!(driver.asked.iter().filter(|name| **name == "reset").count(), 4);
    assert_eq!(driver.asked.iter().filter(|name| **name == "pending").count(), 0);
    // Both birthday scans start at the tip that the funding scenario saw.
    assert_eq!(driver.scan_birthday_heights, vec![123, 123]);
}

#[test]
fn the_console_wallet_is_not_wiped_between_scenarios() {
    let mut driver = FakeDriver::new();
    let results = play_suite(&mut driver, run_old_wallet_scenarios(&sample_config()));
    assert_eq!(results.len(), 9);
    assert_eq!(driver.asked.iter().filter(|name| **name == "reset").count(), 0);
    assert_eq!(driver.asked.iter().filter(|name| **name == "pending").count(), 2);
    // The baseline scan, its balance, and then the address to fund.
    assert_eq!(driver.asked[..4].to_vec(), vec!["genesis", "balance", "address", "tip"]);
}

#[test]
fn a_failing_scenario_is_isolated() {
    let mut driver = FakeDriver::new();
    driver.scan_error = Some("scan broke".to_string());
    let results = play_suite(&mut driver, run_all_scenarios(&sample_config()));
    assert_eq!(results.len(), 9);
    for i in [0, 3, 4, 7, 8] {
        assert_eq!(results[i].error.as_deref(), Some("scan broke"));
        assert_eq!(results[i].failure_count, 1);
        assert_eq!(results[i].tx_metrics.len(), 1);
        assert_eq!(results[i].tx_metrics[0].error.as_deref(), Some("scan broke"));
    }
    for i in [1, 2, 5, 6] {
        assert_eq!(results[i].error, None);
        assert!(results[i].success_count > 0);
    }
}

#[test]
fn recovery_scans_are_held_to_the_checkpoint() {
    // Baseline, funding, two balances of the build-up, then the checkpoint and its scans.
    let mut driver =
        FakeDriver::new().with_balances(&[0, 10_000, 10_000, 9_993, 9_993, 9_993, 9_000, 9_000]);
    let results = play_suite(&mut driver, run_all_scenarios(&sample_config()));
    assert_eq!(results[2].balance_delta, 0); // seven fees of one explain the change
    assert_eq!(results[3].success_count, 1); // the first scan finds the checkpoint
    assert_eq!(results[4].success_count, 0); // the second does not
    assert_eq!(results[4].balance_delta, 993);
}

#[test]
fn the_build_up_stops_at_the_first_failure() {
    let mut driver = FakeDriver::new().with_balances(&[100, 98]);
    driver.send_batch_results = VecDeque::from([
        Ok(sample_tx_metric("a")),
        Ok(sample_tx_metric("b")),
        Err("rejected".to_string()),
    ]);
    let result = play(&mut driver, run_s1(&sample_config())).unwrap();
    assert_eq!(driver.batch_calls, vec![2, 2, 2]);
    assert_eq!(result.success_count, 2);
    assert_eq!(result.failure_count, 1);
    assert_eq!(result.total_fees, 2);
    assert_eq!(result.balance_delta, 0);
    let failed = &result.tx_metrics[2];
    assert_eq!(failed.tx_id, "");
    assert_eq!(failed.construction_ns, 11);
    assert_eq!(failed.error.as_deref(), Some("rejected"));
}

#[test]
fn the_throughput_scenario_goes_on_after_failures() {
    let mut driver = FakeDriver::new();
    driver.send_single_result = Err("busy".to_string());
    let result = play(&mut driver, run_s5(&sample_config())).unwrap();
    // Each step is made once: a failed send is recorded, not repeated.
    assert_eq!(driver.single_calls, 12);
    assert_eq!(result.success_count, 4);
    assert_eq!(result.failure_count, 12);
    assert_eq!(result.tx_metrics[4].construction_ns, 7);
}

#[test]
fn concurrent_failures_and_timeouts_are_recorded() {
    let mut cfg = sample_config();
    cfg.benchmark.concurrent_batches = vec![3];
    let run = run_s4(&cfg);
    let run = run.resume(Reply::Number(Ok(50)), 1);
    let run = run.resume(Reply::Address(Ok("self".to_string())), 2);
    assert_eq!(
        run.call(),
        Some(Call::SendConcurrent {
            count: 3,
            to_address: "self".to_string(),
            amount_ut: 200,
            fee_rate: 1,
            timeout_secs: 60,
        })
    );
    let outcomes = vec![
        SendOutcome::Sent(sample_tx_metric("ok")),
        SendOutcome::Failed("locked".to_string()),
        SendOutcome::TimedOut,
    ];
    let run = run.resume(Reply::Txs(outcomes), 3);
    let run = run.resume(Reply::Number(Ok(49)), 4);
    let result = match run.outcome() {
        Outcome::Finished(result) => result,
        other => panic!("{other:?}"),
    };
    assert_eq!(result.wall_clock_ns, 4);
    assert_eq!((result.success_count, result.failure_count), (1, 2));
    assert_eq!(result.balance_delta, 0);
    assert_eq!(result.tx_metrics[1].error.as_deref(), Some("locked"));
    assert_eq!(result.tx_metrics[1].construction_ns, 0);
    assert_eq!(
        result.tx_metrics[2].error.as_deref(),
        Some("send_single timed out after 60s")
    );
    assert_eq!(result.tx_metrics[2].construction_ns, 60_000_000_000);
}

#[test]
fn a_replay_of_the_wrong_kind_is_told_apart() {
    assert!(Reply::Number(Ok(1)).answers(&Call::GetBalance));
    assert!(!Reply::Done(Ok(())).answers(&Call::GetBalance));
    assert!(!Reply::Txs(vec![]).answers(&Call::SendConcurrent {
        count: 1,
        to_address: String::new(),
        amount_ut: 1,
        fee_rate: 1,
        timeout_secs: 1,
    }));
}

#[test]
fn rediscovery_counts_outputs_only_where_they_are_reported() {
    for (outputs, success) in [(0, 1), (1, 0), (511, 0), (512, 1), (513, 1)] {
        let mut driver = FakeDriver::new().with_balances(&[10_000]);
        driver.scan_outputs_found = outputs;
        let result = play(&mut driver, run_s2(10_000)).unwrap();
        assert_eq!(result.success_count, success, "{outputs} outputs");
        let result = play(&mut driver, run_s6(10_000)).unwrap();
        assert_eq!(result.success_count, 1);
    }
}

#[test]
fn an_unreadable_balance_fails_the_scenario() {
    let run = run_s2(10).resume(Reply::Scan(Ok(sample_scan_metrics(0))), 1);
    let run = run.resume(Reply::Number(Err("no balance".to_string())), 2);
    assert_eq!(run.call(), None);
    assert!(matches!(run.outcome(), Outcome::Failed(error) if error == "no balance"));
}

#[test]
fn balance_deltas_at_the_edges() {
    for (observed, delta) in [
        (0, 0),
        (5, -5),
        (i64::MAX as u64, -i64::MAX),
        (1 << 63, i64::MAX),
        (u64::MAX, 1),
    ] {
        let mut driver = FakeDriver::new().with_balances(&[observed]);
        let result = play(&mut driver, run_b0()).unwrap();
        assert_eq!(result.balance_delta, delta);
        assert_eq!(result.success_count, 1);
    }
}

#[test]
fn funding_below_the_amount_is_a_failure() {
    let mut driver = FakeDriver::new().with_balances(&[9_999]);
    let result = play(&mut driver, run_s0(&sample_config())).unwrap();
    assert_eq!((result.success_count, result.failure_count), (0, 1));
    assert_eq!(result.balance_delta, 1);
}

#[test]
fn fees_never_take_the_expected_balance_below_zero() {
    let mut driver = FakeDriver::new().with_balances(&[3, 0]);
    let result = play(&mut driver, run_s1(&sample_config())).unwrap();
    assert_eq!(result.total_fees, 7);
    assert_eq!(result.balance_delta, 0);
}

#[test]
fn a_zero_amount_is_sent_as_one() {
    let mut cfg = sample_config();
    cfg.benchmark.tx_amount_ut = 0;
    cfg.benchmark.s5_k = 0;
    let run = run_s5(&cfg).resume(Reply::Number(Ok(1)), 1);
    let run = run.resume(Reply::Address(Ok("me".to_string())), 2);
    assert_eq!(
        run.call(),
        Some(Call::SendSingle { to_address: "me".to_string(), amount_ut: 1, fee_rate: 1 })
    );
}

#[test]
fn single_scenarios_go_by_their_names() {
    let config = sample_config();
    for name in ["S0", "S1", "S4", "S5"] {
        let run = run_single_scenario(&config, name).unwrap();
        assert_eq!(run.task.name(), name);
    }
    assert_eq!(
        run_single_scenario(&config, "S2").unwrap_err(),
        "unsupported single scenario: S2 (use S0, S1, S4, or S5)"
    );
}

#[test]
fn an_error_result_is_one_failure() {
    let result = scenario_error_result("S3", "boom".to_string());
    assert_eq!(result.scenario_name, "S3");
    assert_eq!((result.success_count, result.failure_count), (0, 1));
    assert_eq!(result.error.as_deref(), Some("boom"));
    assert_eq!(result.tx_metrics.len(), 1);
    assert!(!result.tx_metrics[0].success);
}

#[test]
fn scenario_times_start_when_the_scenario_does() {
    let mut driver = FakeDriver::new();
    let results = play_suite(&mut driver, run_all_scenarios(&sample_config()));
    // Two replies for the baseline, four for the funding; one second each.
    assert_eq!(results[0].wall_clock_ns, 2_000_000_000);
    assert_eq!(results[1].wall_clock_ns, 4_000_000_000);
    assert_eq!(results[3].wall_clock_ns, 2_000_000_000);
}
