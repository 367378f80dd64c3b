use harness::drivers::library_wallet::{
    batch_tx, check_batch, completed_metrics, completion_overdue, judge_recovery, poll_transaction,
    self_address, Lookup, RecoveryEvent,
};
use harness::drivers::shared::{derive_address, load_or_create_seed_words, StoredWords};
use harness::drivers::usage::Usage;

const SECOND: u64 = 1_000_000_000;

#[test]
fn recoveries_are_judged() {
    let completed = RecoveryEvent::Completed { num_recovered: 8, final_height: 150 };
    let peak = Usage::none().with(Some(Usage { memory_bytes: 2_047, cpu_bits: 3 })).with(None);
    let metrics = judge_recovery(&completed, 100, 160, 5, peak).unwrap();
    assert_eq!((metrics.peak_rss_kb, metrics.peak_cpu_bits), (1, 3));
    assert_eq!((metrics.blocks_scanned, metrics.outputs_found), (50, 8));
    assert_eq!((metrics.h_tip_start, metrics.h_tip_end, metrics.wall_clock_ns), (100, 160, 5));
    assert_eq!(judge_recovery(&completed, 151, 160, 5, peak).unwrap().blocks_scanned, 0);
    let failed = RecoveryEvent::RoundFailed {
        num_retries: 2,
        retry_limit: 3,
        error: "no peers".to_string(),
    };
    assert_eq!(
        judge_recovery(&failed, 0, 0, 0, peak).unwrap_err(),
        "scan failed after 2/3 retries: no peers"
    );
    let other = RecoveryEvent::Unexpected("Progress".to_string());
    assert_eq!(judge_recovery(&other, 0, 0, 0, peak).unwrap_err(), "unexpected scan event: Progress");
}

#[test]
fn batches_need_recipients_and_transactions() {
    assert_eq!(
        check_batch(&vec![]).unwrap_err(),
        "send_batch called with empty recipients"
    );
    assert_eq!(check_batch(&vec![("a".to_string(), 1)]), Ok(()));
    assert_eq!(batch_tx(&vec![]).unwrap_err(), "send_batch returned no tx_ids");
    assert_eq!(batch_tx(&vec![4, 5]), Ok(4));
}

#[test]
fn transactions_are_polled() {
    assert_eq!(poll_transaction(7, Lookup::Completed { fee_paid: 3 }), Ok(Some(3)));
    assert_eq!(poll_transaction(7, Lookup::Absent), Ok(None));
    assert_eq!(
        poll_transaction(7, Lookup::Broken("db".to_string())).unwrap_err(),
        "transaction 7 query failed: db"
    );
    assert_eq!(completion_overdue(7, 3600 * SECOND), Ok(()));
    assert_eq!(
        completion_overdue(7, 3600 * SECOND + 1).unwrap_err(),
        "transaction 7 not confirmed within 3600s"
    );
    let tx = completed_metrics(7, 1, 9, 3);
    assert_eq!(tx.tx_id, "7");
    assert_eq!((tx.construction_ns, tx.broadcast_to_mempool_ns, tx.broadcast_to_confirmed_ns), (1, 1, 9));
    assert_eq!(tx.fee_paid, 3);
}

#[test]
fn the_library_wallet_has_an_address() {
    let words = load_or_create_seed_words(StoredWords::Missing, None).unwrap().words;
    assert_eq!(self_address(&words).unwrap(), derive_address(&words).unwrap());
    assert_eq!(
        self_address("no seed").unwrap_err(),
        "failed to reconstruct cipher seed for address derivation"
    );
}
