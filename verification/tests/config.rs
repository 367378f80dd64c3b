use harness::config::{
    config_seed_for, parse_args, parse_fee_rate, require_nonempty_path, stated_fee_rate_of,
    BenchmarkParams, BinaryPaths, Config, DataDirs, NetworkConfig, Passwords, SeedPhrases,
    VersionPins,
};

fn config(fee_rate: &str) -> Config {
    Config {
        benchmark: BenchmarkParams {
            a_fund: 1,
            c_min: 1,
            volume_target: 1,
            doubling_rounds: 1,
            fanout_outputs_per_tx: 1,
            concurrent_batches: vec![],
            s4_t_budget_secs: 1,
            s5_m: 1,
            s5_k: 1,
            tx_amount_ut: 1,
            fee_rate: fee_rate.to_string(),
            scan_interval_secs: 1,
        },
        paths: BinaryPaths {
            wallet_bin: String::new(),
            minotari_bin: String::new(),
            payment_processor_bin: String::new(),
            console_wallet_bin: String::new(),
        },
        network: NetworkConfig {
            base_node_grpc_url: String::new(),
            base_node_http_url: String::new(),
            grpc_port: 0,
        },
        passwords: Passwords {
            old_wallet: String::new(),
            new_wallet: String::new(),
            payment_processor: String::new(),
            library_wallet: String::new(),
        },
        data: DataDirs {
            old_wallet: String::new(),
            new_wallet: String::new(),
            payment_processor: String::new(),
        },
        versions: VersionPins {
            console_wallet: String::new(),
            minotari_cli: String::new(),
            base_node: String::new(),
        },
        seeds: None,
    }
}

#[test]
fn fee_rates_are_decimal_numbers() {
    assert_eq!(stated_fee_rate_of(&config("25")), Some(25));
    assert_eq!(parse_fee_rate(&config("25")), 25);
    assert_eq!(stated_fee_rate_of(&config("")), None);
    assert_eq!(stated_fee_rate_of(&config("1.5")), None);
}

#[test]
fn paths_must_not_be_empty() {
    assert_eq!(require_nonempty_path("wallet_bin", "  /bin/wallet \n").unwrap(), "/bin/wallet");
    assert_eq!(
        require_nonempty_path("wallet_bin", " \t").unwrap_err(),
        "wallet_bin must not be empty"
    );
}

#[test]
fn seeds_are_looked_up_by_mode() {
    let mut config = config("1");
    assert_eq!(config_seed_for(&config, "old_wallet"), None);
    config.seeds = Some(SeedPhrases {
        old_wallet: Some("old".to_string()),
        new_wallet: Some("new".to_string()),
        payment_processor: None,
        library_wallet: Some("library".to_string()),
    });
    assert_eq!(config_seed_for(&config, "old_wallet").as_deref(), Some("old"));
    assert_eq!(config_seed_for(&config, "new_wallet").as_deref(), Some("new"));
    assert_eq!(config_seed_for(&config, "payment_processor"), None);
    assert_eq!(config_seed_for(&config, "library_wallet").as_deref(), Some("library"));
    assert_eq!(config_seed_for(&config, "other"), None);
}

#[test]
fn the_command_line_is_read() {
    let args = |list: &[&str]| list.iter().map(|arg| arg.to_string()).collect::<Vec<_>>();
    let options = parse_args(&args(&["harness"]));
    assert!(!options.print_addresses && !options.use_library_wallet);
    assert_eq!(options.scenario_name, None);
    assert_eq!(options.config_path, "config.toml");

    let options = parse_args(&args(&[
        "harness", "--scenario", "S4", "--config", "a.toml", "--config", "b.toml",
        "--print-addresses", "--library-wallet",
    ]));
    assert!(options.print_addresses && options.use_library_wallet);
    assert_eq!(options.scenario_name.as_deref(), Some("S4"));
    assert_eq!(options.config_path, "a.toml");

    let options = parse_args(&args(&["harness", "--config"]));
    assert_eq!(options.config_path, "config.toml");
}
