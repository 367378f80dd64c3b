use harness::drivers::new_wallet::ScanStatusResponse;
use harness::drivers::payment_processor::{
    batch_items, birthday_days, health_url, judge_batch, launch_policy, payment_progress,
    payment_request, processor_environment, rejection, self_address,
    PaymentProgress, PaymentStage, PaymentState, PaymentWatch, ProcessorScan, ProcessorSettings,
    StartEvent, StartStage,
};
use harness::drivers::shared::{
    derive_address, derive_wallet_keys, load_or_create_seed_words, StoredWords,
};
use harness::drivers::usage::Usage;

const SECOND: u64 = 1_000_000_000;

fn settings(daemon_url: Option<&str>, seed_words: &str) -> ProcessorSettings {
    ProcessorSettings {
        data_dir: "/data".to_string(),
        base_node_url: "http://node".to_string(),
        daemon_url: daemon_url.map(|url| url.to_string()),
        console_wallet_bin: "/bin/console".to_string(),
        password: "pw".to_string(),
        port: 9000,
        confirmation_window: 3,
        seed_words: seed_words.to_string(),
    }
}

#[test]
fn the_processor_has_its_environment() {
    let words = load_or_create_seed_words(StoredWords::Missing, None).unwrap().words;
    let (view_key, spend_key) = derive_wallet_keys(&words).unwrap();
    let pairs = processor_environment(&settings(Some("http://daemon"), &words)).unwrap();
    let lookup = |name: &str| {
        pairs.iter().find(|(key, _)| key == name).map(|(_, value)| value.as_str())
    };
    assert_eq!(pairs.len(), 15);
    assert_eq!(lookup("DATABASE_URL"), Some("sqlite:/data/payments.db"));
    assert_eq!(lookup("TARI_NETWORK"), Some("Esmeralda"));
    assert_eq!(lookup("BASE_NODE"), Some("http://node"));
    assert_eq!(lookup("PAYMENT_RECEIVER"), Some("http://daemon"));
    assert_eq!(lookup("CONSOLE_WALLET_PATH"), Some("/bin/console"));
    assert_eq!(lookup("CONSOLE_WALLET_BASE_PATH"), Some("/data"));
    assert_eq!(lookup("CONSOLE_WALLET_PASSWORD"), Some("pw"));
    assert_eq!(lookup("LISTEN_PORT"), Some("9000"));
    assert_eq!(lookup("LISTEN_IP"), Some("127.0.0.1"));
    assert_eq!(lookup("ACCOUNTS__DEFAULT__NAME"), Some("default"));
    assert_eq!(lookup("ACCOUNTS__DEFAULT__VIEW_KEY"), Some(view_key.as_str()));
    assert_eq!(lookup("ACCOUNTS__DEFAULT__PUBLIC_SPEND_KEY"), Some(spend_key.as_str()));
    assert_eq!(lookup("CONFIRMATION_CHECKER_REQUIRED_CONFIRMATIONS"), Some("3"));
    assert_eq!(lookup("REVEAL_PII"), Some("1"));
    assert_eq!(lookup("MAX_INPUT_COUNT_PER_TX"), Some("400"));
}

#[test]
fn the_processor_needs_a_daemon_and_keys() {
    assert_eq!(
        processor_environment(&settings(None, "no seed")).unwrap_err(),
        "PR daemon URL not set before starting PP daemon"
    );
    assert_eq!(
        processor_environment(&settings(Some("http://daemon"), "no seed")).unwrap_err(),
        "failed to reconstruct cipher seed for key derivation"
    );
}

#[test]
fn the_processor_has_a_minute_to_answer() {
    assert_eq!(health_url("http://pp"), "http://pp/health/version");
    let after = |stage: StartStage, event: StartEvent, now_ns: u64| {
        stage.resume("http://pp", event, now_ns)
    };
    assert_eq!(StartStage::starting(0), StartStage::Probe);
    assert_eq!(
        after(StartStage::Probe, StartEvent::Answered(true), 99 * SECOND),
        StartStage::Ready
    );
    assert_eq!(after(StartStage::Probe, StartEvent::Answered(false), 0), StartStage::Pause);
    assert_eq!(after(StartStage::Pause, StartEvent::Paused, 60 * SECOND), StartStage::Probe);
    assert_eq!(after(StartStage::Pause, StartEvent::Paused, 60 * SECOND + 1), StartStage::Collect);
    assert_eq!(
        after(StartStage::Collect, StartEvent::Collected, 61 * SECOND),
        StartStage::Failed(
            "PP daemon did not become ready within 60s at http://pp/health/version".to_string()
        )
    );
    assert_eq!(launch_policy().ready_secs, 30);
    assert!(launch_policy().rest_after_last);
}

#[test]
fn birthdays_are_heights_in_days() {
    assert_eq!(birthday_days(0), 0);
    assert_eq!(birthday_days(719), 0);
    assert_eq!(birthday_days(1440), 2);
}

#[test]
fn the_processor_wallet_has_an_address() {
    let words = load_or_create_seed_words(StoredWords::Missing, None).unwrap().words;
    assert_eq!(self_address(&words).unwrap(), derive_address(&words).unwrap());
    assert_eq!(
        self_address("no seed").unwrap_err(),
        "failed to reconstruct cipher seed for address"
    );
}

#[test]
fn scans_reach_the_tip_itself() {
    let scan = ProcessorScan { from_height: 10, h_tip_start: 100 };
    let status = |height: u64| ScanStatusResponse { last_scanned_height: height, outputs_found: 2 };
    assert_eq!(scan.judge(status(99), 3600 * SECOND), Ok(false));
    assert_eq!(scan.judge(status(100), u64::MAX), Ok(true));
    assert_eq!(
        scan.judge(status(99), 3600 * SECOND + 1).unwrap_err(),
        "scan from height 10 did not reach tip within 3600s"
    );
    let peak = Usage { memory_bytes: 4_096, cpu_bits: 8 };
    let metrics = scan.metrics(status(100), 5, 110, peak);
    assert_eq!((metrics.peak_rss_kb, metrics.peak_cpu_bits), (4, 8));
    assert_eq!((metrics.blocks_scanned, metrics.h_tip_start, metrics.h_tip_end), (100, 100, 110));
    assert_eq!(metrics.outputs_found, 2);
    assert_eq!(scan.metrics(status(100), 5, 9, peak).blocks_scanned, 0);
}

#[test]
fn requests_name_their_recipients() {
    let request = payment_request("addr", 7, 42);
    assert_eq!(request.client_id, "bench-single-42");
    assert_eq!(request.account_name, "default");
    assert_eq!((request.recipient_address.as_str(), request.amount), ("addr", 7));
    assert_eq!(payment_request("a", u64::MAX, 0).amount, -1);
    assert_eq!(payment_request("a", i64::MAX as u64, 0).amount, i64::MAX);
    assert_eq!(payment_request("a", 1 << 63, 0).amount, i64::MIN);
    let recipients = vec![("a".to_string(), 1), ("b".to_string(), 2)];
    let items = batch_items(&recipients, 5, &vec![6, 7]);
    assert_eq!(items.len(), 2);
    assert_eq!(items[0].client_id, "bench-batch-5-item-6");
    assert_eq!(items[1].client_id, "bench-batch-5-item-7");
    assert_eq!((items[1].recipient_address.as_str(), items[1].amount), ("b", 2));
    assert_eq!(rejection("payment", "409 Conflict", "dup"), "PP rejected payment (HTTP 409 Conflict): dup");
}

fn state(status: &str, reason: Option<&str>) -> PaymentState {
    PaymentState {
        status: status.to_string(),
        failure_reason: reason.map(|reason| reason.to_string()),
    }
}

#[test]
fn states_have_their_meaning() {
    for status in ["Completed", "Mined", "Confirmed"] {
        assert_eq!(payment_progress(&state(status, None)), PaymentProgress::Done);
    }
    for status in ["Failed", "Cancelled"] {
        assert_eq!(
            payment_progress(&state(status, Some("why"))),
            PaymentProgress::Failed("why".to_string())
        );
        assert_eq!(payment_progress(&state(status, None)), PaymentProgress::Failed(String::new()));
    }
    for status in ["Received", "completed", ""] {
        assert_eq!(payment_progress(&state(status, None)), PaymentProgress::UnderWay);
    }
}

#[test]
fn batches_are_as_good_as_their_payments() {
    let done = || Some(state("Mined", None));
    let open = || Some(state("Batched", None));
    let failed = |why: &str| Some(state("Failed", Some(why)));
    assert_eq!(judge_batch(&vec![]), PaymentProgress::Done);
    assert_eq!(judge_batch(&vec![done(), done()]), PaymentProgress::Done);
    // A payment whose state could not be had is not known to be done.
    assert_eq!(judge_batch(&vec![done(), None, done()]), PaymentProgress::UnderWay);
    assert_eq!(judge_batch(&vec![None]), PaymentProgress::UnderWay);
    assert_eq!(judge_batch(&vec![None, failed("a")]), PaymentProgress::Failed("a".to_string()));
    assert_eq!(judge_batch(&vec![done(), open()]), PaymentProgress::UnderWay);
    assert_eq!(
        judge_batch(&vec![open(), failed("a"), failed("b")]),
        PaymentProgress::Failed("a".to_string())
    );
}

#[test]
fn payments_are_watched_until_they_are_confirmed() {
    let watch = PaymentWatch::begin(false, "p1".to_string(), 100, 100);
    assert_eq!(watch.stage, PaymentStage::Look);
    let watch = watch.after_look(Ok(PaymentProgress::UnderWay), 5 * SECOND);
    assert_eq!((&watch.stage, watch.mempool_ns), (&PaymentStage::Pause, 0));
    let watch = watch.next_round(5 * SECOND).after_look(Ok(PaymentProgress::UnderWay), 5 * SECOND + 1);
    assert_eq!(watch.mempool_ns, 5 * SECOND + 1);
    let watch = watch.next_round(6 * SECOND).after_look(Ok(PaymentProgress::UnderWay), 7 * SECOND);
    assert_eq!(watch.mempool_ns, 5 * SECOND + 1);
    let watch = watch.next_round(8 * SECOND).after_look(Ok(PaymentProgress::Done), 9 * SECOND);
    match watch.stage {
        PaymentStage::Confirmed(tx) => {
            assert_eq!(tx.tx_id, "p1");
            assert_eq!(tx.construction_ns, 100);
            assert_eq!(tx.broadcast_to_mempool_ns, 5 * SECOND + 1);
            assert_eq!(tx.broadcast_to_confirmed_ns, 9 * SECOND);
            assert_eq!((tx.fee_paid, tx.success), (0, true));
        },
        other => panic!("{other:?}"),
    }
    let watch = PaymentWatch::begin(true, "b".to_string(), 3, 3);
    let payment = || Some(state("Confirmed", None));
    let watch = watch.after_look(Ok(judge_batch(&vec![payment(), None])), 4);
    assert_eq!(watch.stage, PaymentStage::Pause);
    let watch = watch.next_round(5).after_look(Ok(judge_batch(&vec![payment(), payment()])), 6);
    match watch.stage {
        PaymentStage::Confirmed(tx) => {
            assert_eq!((tx.tx_id.as_str(), tx.success, tx.fee_paid), ("b", true, 0));
            assert!(tx.broadcast_to_mempool_ns <= tx.broadcast_to_confirmed_ns);
        },
        other => panic!("{other:?}"),
    }
    let watch = PaymentWatch::begin(false, "p2".to_string(), 1, 1);
    match watch.after_look(Ok(PaymentProgress::Done), 2).stage {
        PaymentStage::Confirmed(tx) => assert_eq!(tx.broadcast_to_mempool_ns, 2),
        other => panic!("{other:?}"),
    }
}

#[test]
fn payments_fail_for_their_reasons() {
    let begin = |batch: bool| PaymentWatch::begin(batch, "x".to_string(), 0, 0);
    let failed = |watch: PaymentWatch, error: &str| {
        assert_eq!(watch.stage, PaymentStage::Failed(error.to_string()));
    };
    let why = || Ok(PaymentProgress::Failed("why".to_string()));
    failed(begin(false).after_look(why(), 1), "payment x failed: why");
    failed(begin(true).after_look(why(), 1), "batch payment failed: why");
    failed(begin(false).after_look(Err("net".to_string()), 1), "net");
    failed(begin(false).next_round(600 * SECOND + 1), "payment x was not confirmed within 600s");
    failed(begin(true).next_round(600 * SECOND + 1), "batch x was not fully confirmed within 600s");
    assert_eq!(begin(true).next_round(600 * SECOND).stage, PaymentStage::Look);
}
