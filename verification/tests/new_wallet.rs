use std::str::FromStr;

use harness::drivers::new_wallet::{
    account_url, balance_args, cli_outcome, create_args, daemon_args, database_path, draft_request,
    finish_draft, genesis_scan_start, judge_reply, judge_submission, launch_policy,
    load_or_create_wallet_words, local_url, query_url, self_address, sign_transaction,
    sign_transaction_checked, submission_url, version_url, DaemonScan, HttpResponse,
    ScanStatusResponse, SendEvent, SendStage, SignedDraft, SubmitReply, TxLocation,
};
use harness::drivers::shared::{derive_address, load_or_create_seed_words, StoredWords};
use harness::drivers::usage::Usage;
use harness::metrics::ScanMetrics;
use tari_common::configuration::Network;
use tari_common_types::dammsum::compute_checksum;
use tari_common_types::seeds::cipher_seed::CipherSeed;
use tari_common_types::seeds::mnemonic::Mnemonic;
use tari_common_types::seeds::seed_words::SeedWords;
use tari_common_types::tari_address::TariAddress;
use tari_common_types::transaction::TxId;
use tari_common_types::types::FixedHash;
use tari_transaction_components::consensus::ConsensusConstantsBuilder;
use tari_transaction_components::key_manager::wallet_types::{SeedWordsWallet, WalletType};
use tari_transaction_components::key_manager::{KeyManager, SerializedKeyString, TariKeyId};
use tari_transaction_components::offline_signing::models::{
    PaymentRecipient, PrepareOneSidedTransactionForSigningResult,
};
use tari_transaction_components::offline_signing::prepare_one_sided_transaction_for_signing;
use tari_transaction_components::test_helpers::create_test_input;
use tari_transaction_components::transaction_components::memo_field::TxType;
use tari_transaction_components::transaction_components::{MemoField, OutputFeatures};
use tari_transaction_components::{MicroMinotari, TransactionBuilder};

const SECOND: u64 = 1_000_000_000;

fn fresh_words() -> String {
    load_or_create_seed_words(StoredWords::Missing, None).unwrap().words
}

/// A draft as the daemon makes it, in JSON.
fn drafted(words: &str, tx_id: u64) -> String {
    drafted_with(words, tx_id, None)
}

/// A draft as the daemon makes it, in JSON, of an input under some script key.
fn drafted_with(words: &str, tx_id: u64, script_key: Option<TariKeyId>) -> String {
    let seed = CipherSeed::from_mnemonic(&SeedWords::from_str(words).unwrap(), None).unwrap();
    let wallet = WalletType::SeedWords(SeedWordsWallet::construct_new(seed).unwrap());
    let manager = KeyManager::new(wallet).unwrap();
    let mut input = create_test_input(MicroMinotari(10_000), 0, &manager, vec![], None);
    if let Some(key) = script_key {
        input.set_script_key_id(key);
    }
    let constants = ConsensusConstantsBuilder::new(Network::Esmeralda).build();
    let mut builder =
        TransactionBuilder::new(constants, manager.clone(), Network::Esmeralda).unwrap();
    builder.with_lock_height(0).with_fee_per_gram(MicroMinotari(5));
    builder.with_fee(MicroMinotari(77));
    builder.with_input(input).unwrap();
    let own = TariAddress::from_str(&derive_address(words).unwrap()).unwrap();
    let other = TariAddress::from_str(&derive_address(&fresh_words()).unwrap()).unwrap();
    let recipients = [PaymentRecipient {
        amount: MicroMinotari(5_000),
        output_features: OutputFeatures::default(),
        address: other,
        payment_id: MemoField::new_empty(),
    }];
    let prepared = prepare_one_sided_transaction_for_signing(
        TxId::from(tx_id),
        builder,
        &recipients,
        MemoField::new_empty(),
        own,
    )
    .unwrap();
    serde_json::to_string(&prepared).unwrap()
}

#[test]
fn drafts_are_signed_with_the_wallet_keys() {
    let words = fresh_words();
    let body = drafted(&words, 4711);
    let signed = sign_transaction(&words, &body).unwrap();
    assert_eq!(signed.tx_id, 4711);
    let draft: serde_json::Value = serde_json::from_str(&body).unwrap();
    assert_eq!(draft["info"]["fee"].as_u64(), Some(signed.fee_paid));
    assert_eq!((signed.nonce_hex.len(), signed.signature_hex.len()), (64, 64));
    assert!(signed.nonce_hex.chars().all(|c| c.is_ascii_hexdigit()));

    let submission: serde_json::Value = serde_json::from_str(&signed.submission).unwrap();
    assert_eq!(submission["jsonrpc"], "2.0");
    assert_eq!(submission["id"], "1");
    assert_eq!(submission["method"], "submit_transaction");
    let kernels = &submission["params"]["transaction"]["body"]["kernels"];
    assert_eq!(kernels.as_array().unwrap().len(), 1);
    assert!(kernels[0].to_string().contains(&signed.nonce_hex));
    assert!(kernels[0].to_string().contains(&signed.signature_hex));
}

#[test]
fn drafts_of_another_wallet_are_not_signed() {
    let body = drafted(&fresh_words(), 1);
    let error = sign_transaction(&fresh_words(), &body).unwrap_err();
    assert!(error.starts_with("failed to sign locked transaction: "), "{error}");
    assert_eq!(
        sign_transaction("no seed", &body).unwrap_err(),
        "failed to reconstruct cipher seed for new_wallet key manager"
    );
}

#[test]
fn drafts_whose_amounts_overflow_are_not_signed() {
    let words = fresh_words();
    let body = drafted(&words, 8);
    assert_eq!(sign_transaction_checked(&words, &body).unwrap().unwrap().tx_id, 8);
    assert!(sign_transaction_checked(&words, "{}").unwrap().is_err());
    let with_amounts = |recipients: &[u64], outputs: usize| {
        let mut draft: PrepareOneSidedTransactionForSigningResult =
            serde_json::from_str(&body).unwrap();
        let recipient = draft.info.recipients[0].clone();
        draft.info.recipients = recipients
            .iter()
            .map(|amount| PaymentRecipient { amount: MicroMinotari(*amount), ..recipient.clone() })
            .collect();
        // The input holds 10,000 µT.
        draft.info.outputs = vec![draft.info.inputs[0].clone(); outputs];
        sign_transaction_checked(&words, &serde_json::to_string(&draft).unwrap())
    };
    // Both totals fit, their sum does not.
    assert_eq!(with_amounts(&[u64::MAX - 9_999], 1), None);
    assert_eq!(with_amounts(&[u64::MAX - 19_999], 2), None);
    // The sum fits, or one of the totals does not: the draft was tampered with all the same.
    for result in [
        with_amounts(&[u64::MAX - 10_000], 1),
        with_amounts(&[u64::MAX, u64::MAX], 1),
        with_amounts(&[u64::MAX], 0),
    ] {
        let error = result.unwrap().unwrap_err();
        assert!(error.starts_with("failed to sign locked transaction: "), "{error}");
    }
}

/// What comes of a draft after a change to its JSON.
fn sign_changed(
    words: &str,
    body: &str,
    change: impl Fn(&mut serde_json::Value),
) -> Option<Result<SignedDraft, String>> {
    let mut draft: serde_json::Value = serde_json::from_str(body).unwrap();
    change(&mut draft["info"]);
    sign_transaction_checked(words, &draft.to_string())
}

/// An address with a payment id; `told` says whether its features tell of it.
fn address_with_payment_id(address: &TariAddress, length: usize, told: bool) -> TariAddress {
    let mut bytes = address.with_memo_field_payment_id(vec![7; length]).unwrap().to_vec();
    assert_eq!(bytes.len(), 67 + length);
    if !told {
        bytes[1] = address.to_vec()[1];
        bytes.pop();
        bytes.push(compute_checksum(&bytes));
    }
    TariAddress::from_bytes(&bytes).unwrap()
}

fn memo_from(sender: TariAddress, payment_id: usize) -> serde_json::Value {
    let kind = TxType::PaymentToOther;
    let fee = MicroMinotari(1);
    let payment_id = vec![5; payment_id];
    let memo = MemoField::address_and_data_unchecked(sender, true, fee, kind, payment_id);
    serde_json::to_value(memo).unwrap()
}

fn memo_to(recipient: TariAddress, hashes: usize) -> serde_json::Value {
    let kind = TxType::PaymentToOther;
    let (amount, fee) = (MicroMinotari(2), MicroMinotari(1));
    let hashes = vec![FixedHash::zero(); hashes];
    let memo =
        MemoField::transaction_info_unchecked(recipient, true, amount, fee, kind, hashes, vec![]);
    serde_json::to_value(memo).unwrap()
}

fn assert_refused(result: Option<Result<SignedDraft, String>>) {
    let error = result.unwrap().unwrap_err();
    assert!(error.starts_with("failed to sign locked transaction: "), "{error}");
}

/// Tries memos of a draft at the limits of their lengths and beyond.
fn try_memos(place: &str) {
    let words = fresh_words();
    let body = drafted(&words, 8);
    let own = TariAddress::from_str(&derive_address(&words).unwrap()).unwrap();
    let with_memo = |memo: serde_json::Value| {
        sign_changed(&words, &body, |info| *info.pointer_mut(place).unwrap() = memo.clone())
    };
    // A memo that was changed breaks the draft's own signature.
    assert_refused(with_memo(memo_from(own.clone(), 255)));
    assert_eq!(with_memo(memo_from(own.clone(), 256)), None);
    assert_refused(with_memo(memo_to(own.clone(), 255)));
    assert_eq!(with_memo(memo_to(own.clone(), 256)), None);
    let sender = |length| memo_from(address_with_payment_id(&own, length, true), 0);
    assert_refused(with_memo(sender(188)));
    assert_eq!(with_memo(sender(189)), None);
}

#[test]
fn drafts_with_a_memo_too_long_are_not_signed() {
    try_memos("/payment_id");
}

#[test]
fn drafts_with_a_recipient_memo_too_long_are_not_signed() {
    try_memos("/recipients/0/payment_id");
}

#[test]
fn drafts_with_an_input_memo_too_long_are_not_signed() {
    try_memos("/inputs/0/payment_id");
}

#[test]
fn drafts_with_an_output_memo_too_long_are_not_signed() {
    let words = fresh_words();
    let body = drafted(&words, 8);
    let own = TariAddress::from_str(&derive_address(&words).unwrap()).unwrap();
    let with_output = |memo: Option<serde_json::Value>| {
        sign_changed(&words, &body, |info| {
            let mut output = info["inputs"][0].clone();
            if let Some(memo) = &memo {
                output["payment_id"] = memo.clone();
            }
            info["outputs"] = serde_json::Value::Array(vec![output]);
        })
    };
    assert_refused(with_output(None));
    assert_eq!(with_output(Some(memo_from(own, 256))), None);
}

#[test]
fn drafts_with_inconsistent_recipients_are_not_signed() {
    let words = fresh_words();
    let body = drafted(&words, 8);
    let own = TariAddress::from_str(&derive_address(&words).unwrap()).unwrap();
    let with_recipient = |address: &TariAddress| {
        let value = serde_json::to_value(address).unwrap();
        sign_changed(&words, &body, |info| info["recipients"][0]["address"] = value.clone())
    };
    let told = address_with_payment_id(&own, 10, true);
    let untold = address_with_payment_id(&own, 10, false);
    assert_eq!((told.get_size(), untold.get_size()), (77, 67));
    assert_refused(with_recipient(&told));
    assert_eq!(with_recipient(&untold), None);
}

#[test]
fn drafts_with_inconsistent_memos_are_not_signed() {
    let words = fresh_words();
    let body = drafted(&words, 8);
    let own = TariAddress::from_str(&derive_address(&words).unwrap()).unwrap();
    let untold = address_with_payment_id(&own, 10, false);
    let at = |place: &str, value: serde_json::Value| {
        sign_changed(&words, &body, |info| *info.pointer_mut(place).unwrap() = value.clone())
    };
    assert_refused(at("/recipients/0/payment_id", memo_from(untold.clone(), 45)));
    assert_eq!(at("/recipients/0/payment_id", memo_from(untold.clone(), 46)), None);
    // The memo of an input is not sealed again.
    assert_refused(at("/inputs/0/payment_id", memo_from(untold, 46)));
}

/// A key derived from a key, and so on; the id has as many dots as are asked for.
fn nested_key(dots: usize) -> TariKeyId {
    let shared = format!("dh_commitment_mask.{}.view_key", "00".repeat(32));
    let inner = format!("{}{shared}", "derived.".repeat(dots - 3));
    TariKeyId::Derived { key: SerializedKeyString::from(inner) }
}

#[test]
fn drafts_with_deep_key_ids_are_not_signed() {
    let words = fresh_words();
    let body = drafted(&words, 8);
    for place in ["/inputs/0/script_key_id", "/inputs/0/commitment_mask_key_id"] {
        let with_depth = |depth: usize| {
            let value = serde_json::to_value(nested_key(depth)).unwrap();
            sign_changed(&words, &body, |info| *info.pointer_mut(place).unwrap() = value.clone())
        };
        assert_refused(with_depth(64));
        assert_eq!(with_depth(65), None);
    }
}

#[test]
fn keys_are_derived_up_to_the_limit() {
    let words = fresh_words();
    let body = drafted_with(&words, 9, Some(nested_key(64)));
    assert_eq!(sign_transaction_checked(&words, &body).unwrap().unwrap().tx_id, 9);
}

#[test]
fn unreadable_drafts_are_quoted() {
    assert_eq!(
        sign_transaction("no seed", "{\"oops\":1}").unwrap_err(),
        "failed to parse daemon create_unsigned_transaction response: {\"oops\":1}"
    );
    let long = "x".repeat(1001);
    let error = sign_transaction("no seed", &long).unwrap_err();
    assert_eq!(error.len(), "failed to parse daemon create_unsigned_transaction response: ".len() + 1000);
}

#[test]
fn submissions_are_framed() {
    let draft = finish_draft(
        9,
        3,
        Some((vec![1, 0xab], vec![0xff])),
        Ok("{\"body\":{}}".to_string()),
    )
    .unwrap();
    assert_eq!(draft.nonce_hex, "01ab");
    assert_eq!(draft.signature_hex, "ff");
    assert_eq!(
        draft.submission,
        "{\"id\":\"1\",\"jsonrpc\":\"2.0\",\"method\":\"submit_transaction\",\
         \"params\":{\"transaction\":{\"body\":{}}}}"
    );
    assert_eq!(
        finish_draft(9, 3, None, Ok(String::new())).unwrap_err(),
        "signed transaction has no kernel"
    );
    assert_eq!(
        finish_draft(9, 3, Some((vec![], vec![])), Err("bad".to_string())).unwrap_err(),
        "failed to serialize signed transaction: bad"
    );
}

fn response(success: bool, body: &str) -> HttpResponse {
    HttpResponse { success, status: "500 Internal Server Error".to_string(), body: body.to_string() }
}

#[test]
fn replies_to_submissions_are_judged() {
    let judge = |body: &str| judge_submission(7, &response(true, body));
    assert_eq!(judge("{\"result\":{\"accepted\":true}}"), Ok(()));
    for (body, error) in [
        ("{\"error\":\"full\"}", "base node rejected transaction 7: full"),
        ("{\"error\":{\"message\":\"late\"}}", "base node rejected transaction 7: late"),
        ("{\"error\":{\"code\":3}}", "base node rejected transaction 7: unknown JSON-RPC error"),
        (
            "{\"error\":null,\"result\":{\"accepted\":true}}",
            "base node rejected transaction 7: unknown JSON-RPC error",
        ),
        (
            "{\"result\":{\"accepted\":false,\"rejection_reason\":\"orphan\"}}",
            "transaction 7 was rejected by the network: orphan",
        ),
        (
            "{\"result\":{\"accepted\":false}}",
            "transaction 7 was rejected by the network: unknown",
        ),
        (
            "{\"result\":{\"accepted\":\"yes\"}}",
            "submit_transaction response missing result.accepted: {\"result\":{\"accepted\":\"yes\"}}",
        ),
        ("[1]", "submit_transaction response missing result.accepted: [1]"),
        ("nonsense", "failed to parse submit_transaction response: nonsense"),
    ] {
        assert_eq!(judge(body), Err(error.to_string()));
    }
    assert_eq!(
        judge_submission(7, &response(false, "down")),
        Err("base node submit_transaction returned HTTP 500 Internal Server Error: down".to_string())
    );
    let reply = SubmitReply { error: None, accepted: Some(true), rejection_reason: None };
    assert_eq!(judge_reply(7, &reply, ""), Ok(()));
}

fn draft() -> SignedDraft {
    SignedDraft {
        tx_id: 12,
        fee_paid: 34,
        nonce_hex: "aa".to_string(),
        signature_hex: "bb".to_string(),
        submission: "{}".to_string(),
    }
}

const WINDOW: u64 = 3;

fn located(location: &str) -> SendEvent {
    SendEvent::Located(Ok(TxLocation { location: location.to_string(), mined_height: None }))
}

fn mined(height: u64) -> SendEvent {
    SendEvent::Located(Ok(TxLocation { location: "Mined".to_string(), mined_height: Some(height) }))
}

fn submitted() -> SendStage {
    let stage = SendStage::Draft.resume(WINDOW, SendEvent::Drafted(Ok(draft())), 10);
    let accepted = response(true, "{\"result\":{\"accepted\":true}}");
    stage.resume(WINDOW, SendEvent::Submitted(Ok(accepted)), 25)
}

#[test]
fn a_transaction_is_looked_up_until_it_is_confirmed() {
    let mut stage = submitted();
    let mut now = 25;
    // A mined transaction whose height is not told is looked up again.
    for location in ["None", "NotStored", "InMempool", "Mined"] {
        now += SECOND;
        stage = stage.resume(WINDOW, located(location), now);
        assert!(matches!(stage, SendStage::Pause { .. }));
        stage = stage.resume(WINDOW, SendEvent::Paused, now);
        assert!(matches!(stage, SendStage::Query { .. }));
    }
    // Mined at 100, it has three confirmations once the tip is 102.
    for tip in [100, 101] {
        now += SECOND;
        stage = stage.resume(WINDOW, mined(100), now);
        assert!(matches!(stage, SendStage::ReadTip { confirmed_from: 102, .. }));
        stage = stage.resume(WINDOW, SendEvent::Tip(Ok(tip)), now);
        assert!(matches!(stage, SendStage::Pause { .. }));
        stage = stage.resume(WINDOW, SendEvent::Paused, now);
    }
    stage = stage.resume(WINDOW, mined(100), now + 1);
    match stage.resume(WINDOW, SendEvent::Tip(Ok(102)), now + 5) {
        SendStage::Sent(tx) => {
            assert_eq!(tx.tx_id, "12");
            assert_eq!(tx.construction_ns, 10);
            assert_eq!(tx.broadcast_to_mempool_ns, 15);
            assert_eq!(tx.broadcast_to_confirmed_ns, 6 * SECOND + 5);
            assert_eq!(tx.fee_paid, 34);
            assert!(tx.success);
        },
        other => panic!("{other:?}"),
    }
}

#[test]
fn the_block_of_a_transaction_is_its_first_confirmation() {
    for (window, confirmed_from) in [(0, 100), (1, 100), (2, 101), (u64::MAX, u64::MAX)] {
        match submitted().resume(window, mined(100), 30) {
            SendStage::ReadTip { confirmed_from: from, .. } => assert_eq!(from, confirmed_from),
            other => panic!("{other:?}"),
        }
    }
}

#[test]
fn sends_fail_for_their_reasons() {
    let failed = |stage: SendStage, error: &str| {
        assert_eq!(stage, SendStage::Failed(error.to_string()));
    };
    failed(
        SendStage::Draft.resume(WINDOW, SendEvent::Drafted(Err("no draft".to_string())), 1),
        "no draft",
    );
    let stage = SendStage::Draft.resume(WINDOW, SendEvent::Drafted(Ok(draft())), 1);
    failed(stage.resume(WINDOW, SendEvent::Submitted(Err("no node".to_string())), 2), "no node");
    let stage = SendStage::Draft.resume(WINDOW, SendEvent::Drafted(Ok(draft())), 1);
    failed(
        stage.resume(WINDOW, SendEvent::Submitted(Ok(response(true, "{\"error\":\"full\"}"))), 2),
        "base node rejected transaction 12: full",
    );
    failed(
        submitted().resume(WINDOW, located("Orphaned"), 30),
        "transaction 12 is in unexpected state \"Orphaned\"",
    );
    failed(
        submitted().resume(WINDOW, located("a\"b\n"), 30),
        "transaction 12 is in unexpected state \"a\\\"b\\n\"",
    );
    failed(
        submitted().resume(WINDOW, SendEvent::Located(Err("gone".to_string())), 30),
        "gone",
    );
    failed(
        submitted()
            .resume(WINDOW, mined(7), 30)
            .resume(WINDOW, SendEvent::Tip(Err("no tip".to_string())), 31),
        "no tip",
    );
    let stage = submitted().resume(WINDOW, located("None"), 30);
    failed(
        stage.resume(WINDOW, SendEvent::Paused, 25 + 600 * SECOND + 1),
        "transaction 12 was not confirmed within 600s (last status from base node)",
    );
    let stage = submitted().resume(WINDOW, located("None"), 30);
    assert!(matches!(
        stage.resume(WINDOW, SendEvent::Paused, 25 + 600 * SECOND),
        SendStage::Query { .. }
    ));
}

#[test]
fn scans_end_near_the_tip() {
    let scan = DaemonScan {
        from_height: 100,
        timeout_secs: 120,
        h_tip_start: 1_000,
        polling_since_ns: 3 * SECOND,
    };
    let status = |height: u64| ScanStatusResponse { last_scanned_height: height, outputs_found: 4 };
    assert_eq!(scan.judge(status(949), 0), Ok(false));
    assert_eq!(scan.judge(status(950), u64::MAX), Ok(true));
    assert_eq!(scan.judge(status(949), 120 * SECOND), Ok(false));
    assert_eq!(
        scan.judge(status(949), 120 * SECOND + 1).unwrap_err(),
        "daemon did not finish scanning within 120s (scanned to 949, tip was 1000)"
    );
    assert_eq!(
        scan.metrics(status(960), 5, None, Usage { memory_bytes: 10_239, cpu_bits: 6 }),
        ScanMetrics {
            wall_clock_ns: 5,
            blocks_scanned: 860,
            h_tip_start: 1_000,
            h_tip_end: 1_000,
            outputs_found: 4,
            peak_rss_kb: 9,
            peak_cpu_bits: 6,
        }
    );
    assert_eq!(scan.metrics(status(60), 5, Some(1_002), Usage::none()).blocks_scanned, 0);
    assert_eq!(scan.metrics(status(60), 5, Some(1_002), Usage::none()).h_tip_end, 1_002);

    let blind = DaemonScan { h_tip_start: 0, ..scan };
    assert_eq!(blind.judge(status(0), 33 * SECOND), Ok(false));
    assert_eq!(blind.judge(status(0), 33 * SECOND + 1), Ok(true));
    assert_eq!(blind.judge(status(1), 0), Ok(true));
}

#[test]
fn genesis_scans_leave_out_no_block() {
    assert_eq!(genesis_scan_start(), (0, 0));
}

#[test]
fn commands_have_their_arguments() {
    assert_eq!(
        create_args("pw", "/d/wallet.db", "a b c").join("|"),
        "create|--password|pw|--database-path|/d/wallet.db|--account-name|default|--seed-words|a b c"
    );
    assert_eq!(
        balance_args("/d/wallet.db").join("|"),
        "balance|--database-path|/d/wallet.db|--account-name|default"
    );
    assert_eq!(
        daemon_args("pw", "db", 8080, "http://n", Some(1)).join("|"),
        "daemon|--password|pw|--database-path|db|--api-port|8080|--base-url|http://n|--scan-interval-secs|1"
    );
    assert_eq!(daemon_args("pw", "db", 8080, "http://n", None).len(), 9);
    assert_eq!(cli_outcome(true, "out\n".to_string(), "err"), Ok("out\n".to_string()));
    assert_eq!(
        cli_outcome(false, "out".to_string(), " broken \n"),
        Err("minotari CLI command failed: broken".to_string())
    );
}

#[test]
fn endpoints_have_their_urls() {
    assert_eq!(local_url(65535), "http://127.0.0.1:65535");
    assert_eq!(version_url("http://d"), "http://d/version");
    assert_eq!(account_url("http://d", "scan_status"), "http://d/accounts/default/scan_status");
    assert_eq!(submission_url("http://n/"), "http://n/json_rpc");
    assert_eq!(
        query_url("http://n/", "0a", "0b"),
        "http://n/transactions?excess_sig_nonce=0a&excess_sig_sig=0b"
    );
    assert_eq!(database_path("data"), "data/wallet.db");
    let request = draft_request(vec![("a".to_string(), 5)]);
    assert_eq!(request.seconds_to_lock_utxos, 3600);
    assert_eq!(request.recipients, vec![("a".to_string(), 5)]);
    assert_eq!(launch_policy(120).ready_secs, 120);
}

#[test]
fn a_database_without_words_is_refused() {
    assert_eq!(
        load_or_create_wallet_words("/d", StoredWords::Missing, true, None).unwrap_err(),
        "existing wallet database found at /d/wallet.db but /d/seed_words.txt is missing; \
         wipe the data dir or restore the seed file"
    );
    let words = load_or_create_wallet_words("/d", StoredWords::Found(" w ".to_string()), true, None);
    assert_eq!(words.unwrap().words, "w");
    assert!(load_or_create_wallet_words("/d", StoredWords::Missing, false, None).unwrap().persist);
}

#[test]
fn the_wallet_has_one_address() {
    let words = fresh_words();
    assert_eq!(self_address(&words).unwrap(), derive_address(&words).unwrap());
    assert_eq!(
        self_address("no seed").unwrap_err(),
        "failed to reconstruct cipher seed for new_wallet address"
    );
}
