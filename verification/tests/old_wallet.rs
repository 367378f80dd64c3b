use harness::drivers::old_wallet::{
    choose_address, grpc_url, judge_transfer, latest_incoming_tx_id,
    payment_recipients, pending_cleared, rescan_height, set_seed_birthday, start_args, transfer_metrics, utxo_count,
    CompletedTx, ConfirmEvent, ConfirmStage, FsError, FsErrorKind, FundingRound, FundingWatch,
    Pending, ProcessState, Progress, ScanEvent, ScanStage, StartEvent, StartStage, Transfer,
    TransferResult, TxInfo, TxStatus, WalletBalance, Wipe, WipeStage,
};
use harness::drivers::usage::Usage;
use harness::drivers::shared::{
    load_or_create_seed_words, seed_words_with_birthday, StoredWords,
};
use harness::metrics::ScanMetrics;

const SECOND: u64 = 1_000_000_000;

#[test]
fn the_wallet_process_has_its_arguments() {
    assert_eq!(
        start_args(18143, "pw", "a b", "/data").join("|"),
        "--grpc-enabled|--grpc-address|/ip4/127.0.0.1/tcp/18143|--password|pw|--seed-words|a b|\
         --base-path=/data|--non-interactive-mode"
    );
    assert_eq!(grpc_url(18143), "http://127.0.0.1:18143");
}

/// A start under a timeout of two minutes that goes through events, each with its time.
fn start(events: Vec<(StartEvent, u64)>) -> StartStage {
    events.into_iter().fold(StartStage::Spawn, |stage, (event, now_ns)| {
        stage.resume(120, event, now_ns)
    })
}

fn spawned() -> (StartEvent, u64) {
    (StartEvent::Spawned(Ok(())), 0)
}

fn running() -> (StartEvent, u64) {
    (StartEvent::Found(ProcessState::Running), 1)
}

fn ended(stderr: &str) -> (StartEvent, u64) {
    (StartEvent::Ended { stderr: stderr.to_string() }, 200 * SECOND)
}

fn start_failed(message: &str) -> StartStage {
    StartStage::Failed(message.to_string())
}

#[test]
fn starts_end_with_a_connection() {
    let refused = || (StartEvent::Connected(false), 2);
    let paused = |now_ns: u64| (StartEvent::Paused, now_ns);
    assert_eq!(start(vec![spawned()]), StartStage::Look);
    assert_eq!(start(vec![spawned(), running()]), StartStage::Connect);
    assert_eq!(start(vec![spawned(), running(), refused()]), StartStage::Pause);
    let waiting = || vec![spawned(), running(), refused(), paused(120 * SECOND)];
    assert_eq!(start(waiting()), StartStage::Look);
    let mut taken = waiting();
    taken.push(running());
    taken.push((StartEvent::Connected(true), 121 * SECOND));
    assert_eq!(start(taken), StartStage::Ready);
}

#[test]
fn starts_are_ended_after_the_timeout() {
    let overdue = || {
        vec![
            spawned(),
            running(),
            (StartEvent::Connected(false), 2),
            (StartEvent::Paused, 120 * SECOND + 1),
        ]
    };
    assert_eq!(start(overdue()), StartStage::Kill);
    let with_output = |stderr: &str| {
        let mut events = overdue();
        events.push(ended(stderr));
        start(events)
    };
    assert_eq!(with_output(""), start_failed("wallet gRPC did not become ready within 120s"));
    assert_eq!(
        with_output("boom"),
        start_failed("wallet gRPC did not become ready within 120s. stderr:\nboom")
    );
}

#[test]
fn starts_fail_with_their_process() {
    assert_eq!(
        start(vec![(StartEvent::Spawned(Err("no such file".to_string())), 0)]),
        start_failed("failed to spawn wallet process: no such file")
    );
    let exited = || ProcessState::Exited("exit status: 1".to_string());
    let found = |state: ProcessState| (StartEvent::Found(state), 1);
    assert_eq!(
        start(vec![spawned(), found(exited())]),
        StartStage::Settle { status: "exit status: 1".to_string() }
    );
    assert_eq!(
        start(vec![spawned(), found(exited()), ended("")]),
        start_failed("wallet process exited early with exit status: 1")
    );
    assert_eq!(
        start(vec![spawned(), found(exited()), ended("boom")]),
        start_failed("wallet process exited early with exit status: 1. stderr:\nboom")
    );
    assert_eq!(
        start(vec![spawned(), found(ProcessState::Unknown("denied".to_string()))]),
        start_failed("failed to check wallet process status: denied")
    );
}

#[test]
fn one_sided_addresses_come_first() {
    let choose = |a: &str, b: &str| choose_address(a.to_string(), b.to_string());
    assert_eq!(choose("one", "two"), Ok("one".to_string()));
    assert_eq!(choose("", "two"), Ok("two".to_string()));
    assert_eq!(choose("", ""), Err("wallet returned no printable address".to_string()));
}

#[test]
fn outputs_are_counted_over_all_buckets() {
    assert_eq!(utxo_count(&vec![]), 0);
    assert_eq!(utxo_count(&vec![3, 4, 5]), 12);
    assert_eq!(utxo_count(&vec![u64::MAX, 2]), 1);
}

#[test]
fn rescans_never_start_at_zero() {
    assert_eq!(rescan_height(None), 1);
    assert_eq!(rescan_height(Some(0)), 1);
    assert_eq!(rescan_height(Some(77)), 77);
}

#[test]
fn the_birthday_of_the_seed_words_is_set() {
    let words = load_or_create_seed_words(StoredWords::Missing, None).unwrap().words;
    assert_eq!(set_seed_birthday(&words, 3), seed_words_with_birthday(&words, 3));
    assert!(set_seed_birthday("no seed", 3).is_err());
}

fn done() -> ScanEvent {
    ScanEvent::Done(Ok(()))
}

fn progress(scanned_height: u64, usage: Option<(u64, u64)>) -> ScanEvent {
    ScanEvent::Progressed(Ok(Progress {
        usage: usage.map(|(memory_bytes, cpu_bits)| Usage { memory_bytes, cpu_bits }),
        scanned_height,
        tip_height: 105,
    }))
}

fn watching(from_height: Option<u64>) -> ScanStage {
    let mut stage = ScanStage::Stop;
    for next in [ScanStage::Wipe, ScanStage::SetBirthday, ScanStage::ReadTip] {
        stage = stage.resume(from_height, done(), 1);
        assert_eq!(stage, next);
    }
    stage = stage.resume(from_height, ScanEvent::Read(Ok(100)), 2);
    assert_eq!(stage, ScanStage::Start { target_tip: 100 });
    stage = stage.resume(from_height, done(), 3);
    assert_eq!(stage, ScanStage::Rescan { target_tip: 100 });
    stage.resume(from_height, ScanEvent::Rescanning(Ok(true)), 10)
}

#[test]
fn a_scan_runs_to_its_target() {
    let from = Some(40);
    let mut stage = watching(from);
    stage = stage.resume(from, progress(50, Some((7 * 1024 + 1023, 2))), 20);
    assert!(matches!(stage, ScanStage::Pause { .. }));
    stage = stage.resume(from, done(), 30);
    stage = stage.resume(from, progress(60, Some((7 * 1024, 9))), 40);
    stage = stage.resume(from, done(), 50);
    stage = stage.resume(from, progress(100, None), 60);
    assert!(matches!(stage, ScanStage::Count { wall_clock_ns: 50, .. }));
    assert_eq!(
        stage.resume(from, ScanEvent::Read(Ok(512)), 70),
        ScanStage::Finished(ScanMetrics {
            wall_clock_ns: 50,
            blocks_scanned: 60,
            h_tip_start: 100,
            h_tip_end: 105,
            outputs_found: 512,
            peak_rss_kb: 7,
            peak_cpu_bits: 9,
        })
    );
}

#[test]
fn a_scan_that_takes_too_long_fails() {
    let stage = watching(None).resume(None, progress(99, None), 20);
    assert!(matches!(
        stage.resume(None, done(), 10 + 1800 * SECOND),
        ScanStage::Watch { .. }
    ));
    let stage = watching(None).resume(None, progress(99, None), 20);
    assert_eq!(
        stage.resume(None, done(), 11 + 1800 * SECOND),
        ScanStage::Failed("wallet scan did not reach target tip 100 within 1800s".to_string())
    );
}

#[test]
fn every_error_ends_a_scan() {
    let failed = ScanStage::Failed("x".to_string());
    let error = || "x".to_string();
    assert_eq!(ScanStage::Wipe.resume(None, ScanEvent::Done(Err(error())), 1), failed);
    assert_eq!(ScanStage::ReadTip.resume(None, ScanEvent::Read(Err(error())), 1), failed);
    let rescan = ScanStage::Rescan { target_tip: 1 };
    assert_eq!(rescan.resume(None, ScanEvent::Rescanning(Err(error())), 1), failed);
    assert_eq!(watching(None).resume(None, ScanEvent::Progressed(Err(error())), 1), failed);
    let rescan = ScanStage::Rescan { target_tip: 1 };
    assert_eq!(
        rescan.resume(None, ScanEvent::Rescanning(Ok(false)), 1),
        ScanStage::Failed("wallet process is not running".to_string())
    );
}

fn told(status: TxStatus, reason: &str, mined: u64) -> ConfirmEvent {
    ConfirmEvent::Told(Ok(Some(TxInfo {
        status,
        rejected_reason: reason.to_string(),
        mined_in_block_height: mined,
    })))
}

#[test]
fn confirmations_are_waited_for() {
    let pending = Pending { tx_id: 5, confirmation_window: 3 };
    for status in [
        TxStatus::MinedConfirmed,
        TxStatus::MinedConfirmedLocked,
        TxStatus::OneSidedConfirmed,
        TxStatus::OneSidedConfirmedLocked,
        TxStatus::CoinbaseConfirmed,
        TxStatus::CoinbaseConfirmedLocked,
    ] {
        assert_eq!(
            ConfirmStage::Ask.resume(pending, told(status, "", 0), 7),
            ConfirmStage::Confirmed { after_ns: 7 }
        );
    }
    assert_eq!(
        ConfirmStage::Ask.resume(pending, told(TxStatus::Rejected, "", 9), 7),
        ConfirmStage::Failed("transaction was rejected".to_string())
    );
    assert_eq!(
        ConfirmStage::Ask.resume(pending, told(TxStatus::Rejected, "double spend", 9), 7),
        ConfirmStage::Failed("double spend".to_string())
    );
    let stage = ConfirmStage::Ask.resume(pending, told(TxStatus::Other, "", 100), 7);
    assert_eq!(stage, ConfirmStage::ReadTip { confirmed_from: 102 });
    assert_eq!(stage.resume(pending, ConfirmEvent::Tip(Ok(101)), 8), ConfirmStage::Pause);
    let stage = ConfirmStage::ReadTip { confirmed_from: 102 };
    assert_eq!(
        stage.resume(pending, ConfirmEvent::Tip(Ok(102)), 8),
        ConfirmStage::Confirmed { after_ns: 8 }
    );
    assert_eq!(ConfirmStage::Ask.resume(pending, told(TxStatus::Other, "", 0), 7), ConfirmStage::Pause);
    assert_eq!(ConfirmStage::Ask.resume(pending, ConfirmEvent::Told(Ok(None)), 7), ConfirmStage::Pause);
    assert_eq!(
        ConfirmStage::Pause.resume(pending, ConfirmEvent::Paused, 600 * SECOND),
        ConfirmStage::Ask
    );
    assert_eq!(
        ConfirmStage::Pause.resume(pending, ConfirmEvent::Paused, 600 * SECOND + 1),
        ConfirmStage::Failed("transaction 5 was not confirmed within 600s".to_string())
    );
    assert_eq!(
        ConfirmStage::Ask.resume(pending, ConfirmEvent::Told(Err("down".to_string())), 7),
        ConfirmStage::Failed("down".to_string())
    );
}

#[test]
fn windows_at_the_edges() {
    for (window, height, from) in [(0, 10, 10), (1, 10, 10), (2, u64::MAX, u64::MAX)] {
        let pending = Pending { tx_id: 1, confirmation_window: window };
        assert_eq!(
            ConfirmStage::Ask.resume(pending, told(TxStatus::Other, "", height), 0),
            ConfirmStage::ReadTip { confirmed_from: from }
        );
    }
}

fn transfer(id: u64, success: bool, message: &str, fee: Option<u64>) -> TransferResult {
    TransferResult {
        address: format!("addr{id}"),
        transaction_id: id,
        is_success: success,
        failure_message: message.to_string(),
        fee,
    }
}

#[test]
fn transfers_are_made_whole() {
    assert_eq!(judge_transfer(&vec![]), Err("transfer returned no results".to_string()));
    let results = vec![transfer(1, true, "", Some(9)), transfer(2, true, "", None)];
    assert_eq!(judge_transfer(&results), Ok(Transfer { transaction_id: 1, fee_paid: 9 }));
    let results = vec![transfer(1, true, "", None)];
    assert_eq!(judge_transfer(&results), Ok(Transfer { transaction_id: 1, fee_paid: 0 }));
    let results = vec![
        transfer(1, false, "", None),
        transfer(2, true, "ignored", None),
        transfer(3, false, "no funds", None),
    ];
    assert_eq!(judge_transfer(&results), Err("recipient addr1 failed; no funds".to_string()));
    let tx = transfer_metrics(Transfer { transaction_id: 8, fee_paid: 2 }, 1, 2, 3);
    assert_eq!((tx.tx_id.as_str(), tx.fee_paid, tx.success), ("8", 2, true));
    let payments = payment_recipients(&vec![("a".to_string(), 5), ("b".to_string(), 6)], 7);
    assert_eq!(payments.len(), 2);
    assert_eq!((payments[1].address.as_str(), payments[1].amount, payments[1].fee_per_gram), ("b", 6, 7));
}

#[test]
fn the_latest_funding_is_found() {
    let tx = |tx_id, inbound, amount, timestamp| CompletedTx { tx_id, inbound, amount, timestamp };
    let txs = vec![
        tx(1, true, 100, 5),
        tx(2, true, 100, 9),
        tx(3, false, 100, 20),
        tx(4, true, 99, 30),
        tx(5, true, 500, 9),
        tx(6, true, 100, 1),
    ];
    assert_eq!(latest_incoming_tx_id(&txs, 100).as_deref(), Some("5"));
    assert_eq!(latest_incoming_tx_id(&txs, 501), None);
    assert_eq!(latest_incoming_tx_id(&vec![], 0), None);
}

fn fs_error(kind: FsErrorKind, code: Option<i32>, message: &str) -> FsError {
    FsError { kind, code, message: message.to_string() }
}

#[test]
fn a_wipe_removes_and_creates() {
    let wipe = Wipe::begin().resume(Ok(()));
    assert_eq!(wipe.stage, WipeStage::Create);
    let wipe = wipe.resume(Ok(()));
    assert_eq!(wipe.stage, WipeStage::Settle);
    assert_eq!(wipe.resume(Ok(())).stage, WipeStage::Wiped);
}

#[test]
fn a_wipe_is_tried_twenty_times() {
    let mut wipe = Wipe::begin();
    for attempt in 0..20 {
        assert_eq!((&wipe.stage, wipe.attempt), (&WipeStage::Remove, attempt));
        wipe = wipe.resume(Err(fs_error(FsErrorKind::Other, Some(32), &format!("busy {attempt}"))));
        assert_eq!(wipe.stage, WipeStage::Retry);
        wipe = wipe.resume(Ok(()));
    }
    assert_eq!(wipe.stage, WipeStage::Failed("busy 19".to_string()));
}

#[test]
fn some_errors_of_a_wipe_do_not_pass() {
    for (kind, code, retried) in [
        (FsErrorKind::NotFound, None, true),
        (FsErrorKind::PermissionDenied, None, true),
        (FsErrorKind::AlreadyExists, None, false),
        (FsErrorKind::Other, Some(5), false),
    ] {
        let wipe = Wipe::begin().resume(Err(fs_error(kind, code, "e")));
        assert_eq!(wipe.stage == WipeStage::Retry, retried);
    }
    for (kind, code, retried) in [
        (FsErrorKind::NotFound, None, false),
        (FsErrorKind::PermissionDenied, None, true),
        (FsErrorKind::AlreadyExists, None, true),
        (FsErrorKind::Other, Some(32), true),
        (FsErrorKind::Other, None, false),
    ] {
        let wipe = Wipe::begin().resume(Ok(())).resume(Err(fs_error(kind, code, "e")));
        assert_eq!(wipe.stage == WipeStage::Retry, retried);
        assert!(retried || wipe.stage == WipeStage::Failed("e".to_string()));
    }
}

#[test]
fn funding_is_first_pending_and_then_available() {
    let balance = |available, pending_incoming| WalletBalance { available, pending_incoming };
    let watch = match FundingWatch::begin().round(100, balance(0, 99), None, 1) {
        FundingRound::Wait(watch) => watch,
        other => panic!("{other:?}"),
    };
    assert_eq!(watch.first_seen_ns, None);
    let watch = match watch.round(100, balance(0, 100), Some("tx1".to_string()), 2) {
        FundingRound::Wait(watch) => watch,
        other => panic!("{other:?}"),
    };
    assert_eq!(watch.first_seen_ns, Some(2));
    match watch.round(100, balance(100, 0), Some("tx2".to_string()), 9) {
        FundingRound::Arrived(tx) => {
            assert_eq!(tx.tx_id, "tx1");
            assert_eq!((tx.broadcast_to_mempool_ns, tx.broadcast_to_confirmed_ns), (2, 9));
        },
        other => panic!("{other:?}"),
    }
    match FundingWatch::begin().round(100, balance(100, 0), None, 4) {
        FundingRound::Arrived(tx) => {
            assert_eq!(tx.tx_id, "incoming-funding");
            assert_eq!((tx.broadcast_to_mempool_ns, tx.broadcast_to_confirmed_ns), (4, 4));
        },
        other => panic!("{other:?}"),
    }
}

#[test]
fn pending_transactions_have_to_clear_in_time() {
    assert_eq!(pending_cleared(0, 0, 301 * SECOND, 300), Ok(true));
    assert_eq!(pending_cleared(1, 0, 300 * SECOND, 300), Ok(false));
    assert_eq!(pending_cleared(0, 1, 0, 300), Ok(false));
    assert_eq!(
        pending_cleared(0, 1, 300 * SECOND + 1, 300),
        Err("transactions still pending after 300s".to_string())
    );
}
