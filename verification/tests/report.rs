use harness::config::{
    BenchmarkParams, BinaryPaths, Config, DataDirs, NetworkConfig, Passwords, VersionPins,
};
use harness::metrics::{balance_delta, tx_totals, ScanMetrics, ScenarioResult, TxMetrics};
use harness::report::{
    build_report, describe_environment, scan_duration, throughput_multiplier, tx_duration_sum,
    ThroughputRatio,
};

fn config(s5_m: u64, s5_k: u64) -> Config {
    Config {
        benchmark: BenchmarkParams {
            a_fund: 1,
            c_min: 1,
            volume_target: 1,
            doubling_rounds: 1,
            fanout_outputs_per_tx: 1,
            concurrent_batches: vec![],
            s4_t_budget_secs: 1,
            s5_m,
            s5_k,
            tx_amount_ut: 1,
            fee_rate: "1".to_string(),
            scan_interval_secs: 1,
        },
        paths: BinaryPaths {
            wallet_bin: String::new(),
            minotari_bin: String::new(),
            payment_processor_bin: String::new(),
            console_wallet_bin: String::new(),
        },
        network: NetworkConfig {
            base_node_grpc_url: "http://node:18142".to_string(),
            base_node_http_url: String::new(),
            grpc_port: 0,
        },
        passwords: Passwords {
            old_wallet: String::new(),
            new_wallet: String::new(),
            payment_processor: String::new(),
            library_wallet: String::new(),
        },
        data: DataDirs {
            old_wallet: String::new(),
            new_wallet: String::new(),
            payment_processor: String::new(),
        },
        versions: VersionPins {
            console_wallet: "v1".to_string(),
            minotari_cli: "v2".to_string(),
            base_node: "v3".to_string(),
        },
        seeds: None,
    }
}

fn tx(ns: u64) -> TxMetrics {
    TxMetrics {
        tx_id: String::new(),
        construction_ns: ns,
        broadcast_to_mempool_ns: 10 * ns,
        broadcast_to_confirmed_ns: 100 * ns,
        fee_paid: 3,
        success: ns % 2 == 0,
        error: None,
    }
}

fn result(name: &str, scan_ns: Option<u64>, txs: Vec<TxMetrics>) -> ScenarioResult {
    ScenarioResult {
        scenario_name: name.to_string(),
        wall_clock_ns: 0,
        total_fees: 0,
        success_count: 0,
        failure_count: 0,
        balance_delta: 0,
        tx_metrics: txs,
        scan_metrics: scan_ns.map(|wall_clock_ns| ScanMetrics {
            wall_clock_ns,
            blocks_scanned: 0,
            h_tip_start: 0,
            h_tip_end: 0,
            outputs_found: 0,
            peak_rss_kb: 0,
            peak_cpu_bits: 0,
        }),
        recorded_birth_height: None,
        error: None,
    }
}

#[test]
fn reports_hold_the_run() {
    let environment = describe_environment(
        Some("AMD".to_string()),
        4096,
        None,
        Some("Linux".to_string()),
    );
    let scenarios = vec![
        result("B0", Some(100), vec![]),
        result("S2", Some(70), vec![]),
        result("S5", None, vec![tx(1), tx(2), tx(3), tx(4), tx(5), tx(6)]),
        result("S6", Some(95), vec![]),
    ];
    let report = build_report(
        &environment,
        "new_wallet".to_string(),
        serde_json::from_str("{\"network\":[1,2]}").unwrap(),
        scenarios,
        &config(4, 2),
        Some("setup".to_string()),
    );
    assert_eq!(report.cpu_model, "AMD");
    assert_eq!(report.ram_kb, 4);
    assert_eq!(report.os, "Linux");
    assert_eq!(report.disk_type, "unknown");
    assert_eq!(report.network_path, "remote:http://node:18142");
    assert_eq!(report.console_wallet_version, "v1");
    assert_eq!(report.minotari_cli_version, "v2");
    assert_eq!(report.base_node_version, "v3");
    assert_eq!(report.scan_delta_s2_minus_b0, Some(-30));
    assert_eq!(report.scan_delta_s6_minus_s2, Some(25));
    assert_eq!(
        report.s5_throughput_multiplier,
        Some(ThroughputRatio { numerator: 4 * 3 * 111, denominator: 2 * 2 * 18 * 111 })
    );
    assert_eq!(report.wallet_mode, "new_wallet");
    assert_eq!(report.config_snapshot.to_string(), "{\"network\":[1,2]}");
    assert_eq!(report.scenarios.len(), 4);
    assert_eq!(report.error.as_deref(), Some("setup"));
}

#[test]
fn deltas_need_both_scans() {
    let report = build_report(
        &describe_environment(None, 0, None, None),
        String::new(),
        serde_json::Value::Null,
        vec![result("B0", None, vec![]), result("S2", Some(1), vec![])],
        &config(1, 1),
        None,
    );
    assert_eq!(report.scan_delta_s2_minus_b0, None);
    assert_eq!(report.scan_delta_s6_minus_s2, None);
    assert_eq!(report.s5_throughput_multiplier, None);
    assert_eq!((report.cpu_model.as_str(), report.os.as_str()), ("unknown", "unknown"));
}

#[test]
fn empty_brands_are_unknown() {
    let environment = describe_environment(
        Some(String::new()),
        1023,
        Some("Debian 12".to_string()),
        Some("Linux".to_string()),
    );
    assert_eq!(environment.cpu_model, "unknown");
    assert_eq!(environment.ram_kb, 0);
    assert_eq!(environment.os, "Debian 12");
}

#[test]
fn multipliers_need_a_whole_run() {
    let run = |n: u64| vec![result("S5", None, (1..=n).map(tx).collect())];
    // Two batches and four single sends.
    assert!(throughput_multiplier(&run(6), &config(4, 2)).is_some());
    assert!(throughput_multiplier(&run(7), &config(4, 2)).is_some());
    assert_eq!(throughput_multiplier(&run(5), &config(4, 2)), None);
    // No batch at all.
    assert_eq!(throughput_multiplier(&run(6), &config(4, 0)), None);
    assert_eq!(throughput_multiplier(&run(6), &config(4, 5)), None);
    // Batches that took no time.
    let idle = vec![result("S5", None, (0..6).map(|_| tx(0)).collect())];
    assert_eq!(throughput_multiplier(&idle, &config(4, 2)), None);
    // Single sends that took no time.
    let idle = vec![result("S5", None, vec![tx(1), tx(1), tx(0), tx(0), tx(0), tx(0)])];
    assert_eq!(throughput_multiplier(&idle, &config(4, 2)), None);
    // Counts that no run can have.
    assert_eq!(throughput_multiplier(&run(6), &config(u64::MAX, 1)), None);
}

#[test]
fn multipliers_are_single_throughput_over_batch_throughput() {
    // One batch of two payments, then two single sends that take twice as long together.
    let run = vec![result("S5", None, vec![tx(2), tx(2), tx(2)])];
    let ratio = throughput_multiplier(&run, &config(2, 2)).unwrap();
    assert_eq!(ratio, ThroughputRatio { numerator: 2 * 222, denominator: 2 * 444 });
    assert_eq!(ratio.numerator as f64 / ratio.denominator as f64, 0.5);
    // Five payments make two batches of two: four payments in batches, five single ones.
    let run = vec![result("S5", None, (1..=7).map(tx).collect())];
    let ratio = throughput_multiplier(&run, &config(5, 2)).unwrap();
    assert_eq!(ratio, ThroughputRatio { numerator: 5 * 3 * 111, denominator: 4 * 25 * 111 });
    let long = u64::MAX / 100;
    let run = vec![result("S5", None, vec![tx(long), tx(long)])];
    let ratio = throughput_multiplier(&run, &config(1, 1)).unwrap();
    assert_eq!((ratio.numerator, ratio.denominator), (long as u128 * 111, long as u128 * 111));
}

#[test]
fn the_first_result_under_a_name_counts() {
    let results = vec![result("B0", Some(1), vec![]), result("B0", Some(2), vec![])];
    assert_eq!(scan_duration(&results, "B0"), Some(1));
    assert_eq!(scan_duration(&results, "S2"), None);
}

#[test]
fn times_add_up() {
    let txs = vec![tx(1), tx(2), tx(u64::MAX / 100)];
    assert_eq!(tx_duration_sum(&txs, 0, 2), 333);
    assert_eq!(tx_duration_sum(&txs, 1, 1), 0);
    assert_eq!(tx_duration_sum(&txs, 2, 3), (u64::MAX / 100) as u128 * 111);
}

#[test]
fn totals_count_every_transaction() {
    let mut txs = vec![tx(1), tx(2), tx(4)];
    let totals = tx_totals(&txs);
    assert_eq!((totals.total_fees, totals.success_count, totals.failure_count), (9, 2, 1));
    txs[0].fee_paid = u64::MAX;
    assert_eq!(tx_totals(&txs).total_fees, 5);
}

#[test]
fn deltas_are_expected_minus_observed() {
    assert_eq!(balance_delta(10, 7), 3);
    assert_eq!(balance_delta(7, 10), -3);
    assert_eq!(balance_delta(0, i64::MAX as u64 + 2), i64::MAX);
    assert_eq!(balance_delta(u64::MAX, 0), -1);
}
