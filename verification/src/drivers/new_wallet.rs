//! The wallet behind the `minotari` command line: a daemon scans and drafts, the driver signs and
//! submits.

use serde_json::Value;
use tari_transaction_components::key_manager::KeyManager;
use tari_transaction_components::offline_signing::models::{
    PrepareOneSidedTransactionForSigningResult, SignedOneSidedTransactionResult,
};
use vstd::prelude::*;

use crate::driver::{result_view, text_result_view};
use crate::drivers::launch::LaunchPolicy;
use crate::drivers::polling::{
    confirmation_height, confirmation_tip, past, past_deadline, sent, sent_metrics,
};
use crate::drivers::shared::{
    derive_address, derived_address, join_path, load_or_create_seed_words, path_in,
    seed_words_path, words_settled, LoadedWords, StoredWords,
    DEFAULT_ACCOUNT_NAME,
};
use crate::drivers::usage::Usage;
use crate::json::{
    flag_in, json_flag, json_member, json_text, json_value, member, parse_json, text_in,
};
use crate::metrics::{text_view, ScanMetrics, TxMetrics, TxView};
use crate::signable::{is_signable, signable};
use crate::tari::{
    byte_pair_view, draft_in, encode_hex, kernel_signature, kernel_signature_of, key_manager_of,
    may_sign, open_key_manager, read_draft, recover_seed, seed_of, sign_draft, transaction_json,
    transaction_json_of,
};
use crate::text::{
    debug_quoted, debug_text, decimal, decimal_text, excerpt, excerpt_of, hex_digits, same_text,
    texts, trim, trim_end, trim_end_text, trim_text, CharClass,
};

verus! {

/// Blocks that a scan may stay behind the tip.
pub const SCAN_TOLERANCE: u64 = 50;

/// Seconds that a scan without a known tip waits for a first report.
pub const FALLBACK_SECS: u64 = 30;

/// Seconds within which a submitted transaction has to be confirmed.
pub const CONFIRMATION_SECS: u64 = 600;

/// Seconds for which a draft locks the outputs that it spends.
pub const DRAFT_LOCK_SECS: u64 = 3600;

/// Bytes of an unreadable response that an error quotes.
pub const EXCERPT_BYTES: u64 = 1000;

/// How the daemon is started.
pub fn launch_policy(startup_timeout_secs: u64) -> (r: LaunchPolicy)
    ensures
        r.ready_secs == startup_timeout_secs,
        !r.rest_after_last,
{
    LaunchPolicy { ready_secs: startup_timeout_secs, rest_after_last: false }
}

/// The wallet database inside a data directory.
pub fn database_path(data_dir: &str) -> (r: String)
    ensures
        r@ == path_in(data_dir@, "wallet.db"@),
{
    join_path(data_dir, "wallet.db")
}

/// What is said of a wallet database without seed words.
pub open spec fn orphaned_database(data_dir: Seq<char>) -> Seq<char> {
    "existing wallet database found at "@ + path_in(data_dir, "wallet.db"@) + " but "@ + path_in(
        data_dir,
        "seed_words.txt"@,
    ) + " is missing; wipe the data dir or restore the seed file"@
}

/// Settles which seed words the wallet uses: those that any wallet would, except that a database
/// without stored words is refused.
pub fn load_or_create_wallet_words(
    data_dir: &str,
    stored: StoredWords,
    database_exists: bool,
    config_seed: Option<&str>,
) -> (r: Result<LoadedWords, String>)
    ensures
        if stored is Missing && database_exists {
            r is Err && r->Err_0@ == orphaned_database(data_dir@)
        } else {
            words_settled(stored, config_seed, r)
        },
{
    if database_exists {
        if let StoredWords::Missing = stored {
            return Err(
                "existing wallet database found at ".to_owned().concat(
                    database_path(data_dir).as_str(),
                ).concat(" but ").concat(seed_words_path(data_dir).as_str()).concat(
                    " is missing; wipe the data dir or restore the seed file",
                ),
            );
        }
    }
    load_or_create_seed_words(stored, config_seed)
}

/// Arguments of the command that creates a wallet.
pub fn create_args(password: &str, database: &str, seed_words: &str) -> (r: Vec<String>)
    ensures
        texts(r@) == seq![
            "create"@,
            "--password"@,
            password@,
            "--database-path"@,
            database@,
            "--account-name"@,
            DEFAULT_ACCOUNT_NAME@,
            "--seed-words"@,
            seed_words@,
        ],
{
    let mut args: Vec<String> = Vec::new();
    args.push("create".to_owned());
    args.push("--password".to_owned());
    args.push(password.to_owned());
    args.push("--database-path".to_owned());
    args.push(database.to_owned());
    args.push("--account-name".to_owned());
    args.push(DEFAULT_ACCOUNT_NAME.to_owned());
    args.push("--seed-words".to_owned());
    args.push(seed_words.to_owned());
    proof {
        assert(texts(args@) =~= seq![
            "create"@,
            "--password"@,
            password@,
            "--database-path"@,
            database@,
            "--account-name"@,
            DEFAULT_ACCOUNT_NAME@,
            "--seed-words"@,
            seed_words@,
        ]);
    }
    args
}

/// Arguments of the command that prints the balance.
pub fn balance_args(database: &str) -> (r: Vec<String>)
    ensures
        texts(r@) == seq![
            "balance"@,
            "--database-path"@,
            database@,
            "--account-name"@,
            DEFAULT_ACCOUNT_NAME@,
        ],
{
    let mut args: Vec<String> = Vec::new();
    args.push("balance".to_owned());
    args.push("--database-path".to_owned());
    args.push(database.to_owned());
    args.push("--account-name".to_owned());
    args.push(DEFAULT_ACCOUNT_NAME.to_owned());
    proof {
        assert(texts(args@) =~= seq![
            "balance"@,
            "--database-path"@,
            database@,
            "--account-name"@,
            DEFAULT_ACCOUNT_NAME@,
        ]);
    }
    args
}

/// The arguments with which the daemon is spawned, up to the scan interval.
pub open spec fn daemon_arguments(password: Seq<char>, database: Seq<char>, port: u16, base_node_url: Seq<char>) -> Seq<Seq<char>> {
    seq![
        "daemon"@,
        "--password"@,
        password,
        "--database-path"@,
        database,
        "--api-port"@,
        decimal(port as nat),
        "--base-url"@,
        base_node_url,
    ]
}

/// Arguments of the command that runs the daemon.
pub fn daemon_args(
    password: &str,
    database: &str,
    port: u16,
    base_node_url: &str,
    scan_interval_secs: Option<u64>,
) -> (r: Vec<String>)
    ensures
        texts(r@) == daemon_arguments(password@, database@, port, base_node_url@)
            + match scan_interval_secs {
            Some(interval) => seq!["--scan-interval-secs"@, decimal(interval as nat)],
            None => Seq::empty(),
        },
{
    let mut args: Vec<String> = Vec::new();
    args.push("daemon".to_owned());
    args.push("--password".to_owned());
    args.push(password.to_owned());
    args.push("--database-path".to_owned());
    args.push(database.to_owned());
    args.push("--api-port".to_owned());
    args.push(decimal_text(port as u64));
    args.push("--base-url".to_owned());
    args.push(base_node_url.to_owned());
    let ghost common = daemon_arguments(password@, database@, port, base_node_url@);
    proof {
        assert(texts(args@) =~= common);
    }
    match scan_interval_secs {
        Some(interval) => {
            args.push("--scan-interval-secs".to_owned());
            args.push(decimal_text(interval));
            proof {
                assert(texts(args@) =~= common + seq![
                    "--scan-interval-secs"@,
                    decimal(interval as nat),
                ]);
            }
        },
        None => {
            proof {
                assert(texts(args@) =~= common + Seq::<Seq<char>>::empty());
            }
        },
    }
    args
}

/// What a finished command gives: its output, or its error output without white space around it.
pub fn cli_outcome(success: bool, stdout: String, stderr: &str) -> (r: Result<String, String>)
    ensures
        text_result_view(r) == if success {
            Ok(stdout@)
        } else {
            Err("minotari CLI command failed: "@ + trim(stderr@))
        },
{
    if success {
        Ok(stdout)
    } else {
        Err("minotari CLI command failed: ".to_owned().concat(trim_text(stderr).as_str()))
    }
}

/// The address under which a local daemon is reached.
pub fn local_url(port: u16) -> (r: String)
    ensures
        r@ == "http://127.0.0.1:"@ + decimal(port as nat),
{
    "http://127.0.0.1:".to_owned().concat(decimal_text(port as u64).as_str())
}

/// The endpoint that tells whether a daemon is up.
pub fn version_url(daemon_url: &str) -> (r: String)
    ensures
        r@ == daemon_url@ + "/version"@,
{
    daemon_url.to_owned().concat("/version")
}

/// An endpoint of the wallet's account.
pub open spec fn account_endpoint(daemon_url: Seq<char>, name: Seq<char>) -> Seq<char> {
    daemon_url + "/accounts/"@ + DEFAULT_ACCOUNT_NAME@ + "/"@ + name
}

/// The URL of an endpoint of the wallet's account.
pub fn account_url(daemon_url: &str, name: &str) -> (r: String)
    ensures
        r@ == account_endpoint(daemon_url@, name@),
{
    daemon_url.to_owned().concat("/accounts/").concat(DEFAULT_ACCOUNT_NAME).concat("/").concat(name)
}

/// The wallet's own address, or why there is none.
pub fn self_address(seed_words: &str) -> (r: Result<String, String>)
    ensures
        text_result_view(r) == match derived_address(seed_words@) {
            Some(address) => Ok(address),
            None => Err("failed to reconstruct cipher seed for new_wallet address"@),
        },
{
    match derive_address(seed_words) {
        Some(address) => Ok(address),
        None => Err("failed to reconstruct cipher seed for new_wallet address".to_owned()),
    }
}

/// Start height and birthday, in days, of a scan from genesis. It leaves out no block: it starts at
/// the first one, and a wallet born on the first day of the seed calendar is older than the chain.
pub fn genesis_scan_start() -> (r: (u64, u64))
    ensures
        r == (0u64, 0u64),
{
    (0, 0)
}

/// What the daemon reports of its scan.
#[derive(Clone, Copy, PartialEq, Eq, Structural, Debug)]
pub struct ScanStatusResponse {
    pub last_scanned_height: u64,
    pub outputs_found: u64,
}

/// A scan that the daemon is making.
#[derive(Clone, Copy, PartialEq, Eq, Structural, Debug)]
pub struct DaemonScan {
    pub from_height: u64,
    pub timeout_secs: u64,
    /// The tip when the scan began, zero if it could not be read.
    pub h_tip_start: u64,
    /// When polling began, in nanoseconds into the scan.
    pub polling_since_ns: u64,
}

impl DaemonScan {
    /// The scan has got far enough: to within the tolerance of the tip or, if the tip is not known,
    /// to any block at all or past the time to wait for one.
    pub open spec fn done(self, last_scanned_height: u64, elapsed_ns: u64) -> bool {
        if self.h_tip_start == 0 {
            last_scanned_height > 0 || past(
                if elapsed_ns >= self.polling_since_ns {
                    (elapsed_ns - self.polling_since_ns) as u64
                } else {
                    0
                },
                FALLBACK_SECS,
            )
        } else {
            last_scanned_height + SCAN_TOLERANCE >= self.h_tip_start
        }
    }

    /// What is said of a scan that has not got far enough in time.
    pub open spec fn overdue(self, last_scanned_height: u64) -> Seq<char> {
        "daemon did not finish scanning within "@ + decimal(self.timeout_secs as nat)
            + "s (scanned to "@ + decimal(last_scanned_height as nat) + ", tip was "@ + decimal(
            self.h_tip_start as nat,
        ) + ")"@
    }

    /// Decides after a status report whether the scan is done, goes on, or has taken too long.
    pub fn judge(&self, status: ScanStatusResponse, elapsed_ns: u64) -> (r: Result<bool, String>)
        ensures
            result_view(r) == if self.done(status.last_scanned_height, elapsed_ns) {
                Ok(true)
            } else if self.h_tip_start != 0 && past(elapsed_ns, self.timeout_secs) {
                Err(self.overdue(status.last_scanned_height))
            } else {
                Ok(false)
            },
    {
        if self.h_tip_start == 0 {
            let waited: u64 = elapsed_ns.saturating_sub(self.polling_since_ns);
            return Ok(status.last_scanned_height > 0 || past_deadline(waited, FALLBACK_SECS));
        }
        if status.last_scanned_height >= self.h_tip_start.saturating_sub(SCAN_TOLERANCE) {
            return Ok(true);
        }
        if past_deadline(elapsed_ns, self.timeout_secs) {
            return Err(
                "daemon did not finish scanning within ".to_owned().concat(
                    decimal_text(self.timeout_secs).as_str(),
                ).concat("s (scanned to ").concat(
                    decimal_text(status.last_scanned_height).as_str(),
                ).concat(", tip was ").concat(decimal_text(self.h_tip_start).as_str()).concat(")"),
            );
        }
        Ok(false)
    }

    /// The metrics of the scan that ended with a status report, after `wall_clock_ns`; the tip at
    /// its end counts as unchanged if it cannot be read. `peak` is what the daemon used at most.
    pub fn metrics(&self, status: ScanStatusResponse, wall_clock_ns: u64, tip_end: Option<u64>, peak: Usage) -> (r: ScanMetrics)
        ensures
            r == (ScanMetrics {
                wall_clock_ns,
                blocks_scanned: if status.last_scanned_height >= self.from_height {
                    (status.last_scanned_height - self.from_height) as u64
                } else {
                    0
                },
                h_tip_start: self.h_tip_start,
                h_tip_end: match tip_end {
                    Some(tip) => tip,
                    None => self.h_tip_start,
                },
                outputs_found: status.outputs_found,
                peak_rss_kb: peak.memory_bytes / 1024,
                peak_cpu_bits: peak.cpu_bits,
            }),
    {
        ScanMetrics {
            wall_clock_ns,
            blocks_scanned: status.last_scanned_height.saturating_sub(self.from_height),
            h_tip_start: self.h_tip_start,
            h_tip_end: match tip_end {
                Some(tip) => tip,
                None => self.h_tip_start,
            },
            outputs_found: status.outputs_found,
            peak_rss_kb: peak.memory_bytes / 1024,
            peak_cpu_bits: peak.cpu_bits,
        }
    }
}

/// What the daemon is asked to draft.
#[derive(PartialEq, Eq, Debug)]
pub struct DraftRequest {
    pub recipients: Vec<(String, u64)>,
    pub seconds_to_lock_utxos: u64,
}

/// The request for a draft of payments.
pub fn draft_request(recipients: Vec<(String, u64)>) -> (r: DraftRequest)
    ensures
        r.recipients == recipients,
        r.seconds_to_lock_utxos == DRAFT_LOCK_SECS,
{
    DraftRequest { recipients, seconds_to_lock_utxos: DRAFT_LOCK_SECS }
}

/// The base node's endpoint for submissions.
pub fn submission_url(base_node_url: &str) -> (r: String)
    ensures
        r@ == trim_end(base_node_url@, CharClass::Slash) + "/json_rpc"@,
{
    trim_end_text(base_node_url, CharClass::Slash).concat("/json_rpc")
}

/// The base node's endpoint for the state of a transaction, which its kernel's excess signature
/// identifies.
pub fn query_url(base_node_url: &str, nonce_hex: &str, signature_hex: &str) -> (r: String)
    ensures
        r@ == trim_end(base_node_url@, CharClass::Slash) + "/transactions?excess_sig_nonce="@
            + nonce_hex@ + "&excess_sig_sig="@ + signature_hex@,
{
    trim_end_text(base_node_url, CharClass::Slash).concat("/transactions?excess_sig_nonce=").concat(
        nonce_hex,
    ).concat("&excess_sig_sig=").concat(signature_hex)
}

/// A transaction that is ready to be submitted.
#[derive(PartialEq, Eq, Debug)]
pub struct SignedDraft {
    pub tx_id: u64,
    pub fee_paid: u64,
    pub nonce_hex: String,
    pub signature_hex: String,
    /// The body of the submission.
    pub submission: String,
}

pub struct SignedDraftView {
    pub tx_id: u64,
    pub fee_paid: u64,
    pub nonce_hex: Seq<char>,
    pub signature_hex: Seq<char>,
    pub submission: Seq<char>,
}

impl View for SignedDraft {
    type V = SignedDraftView;

    open spec fn view(&self) -> SignedDraftView {
        SignedDraftView {
            tx_id: self.tx_id,
            fee_paid: self.fee_paid,
            nonce_hex: self.nonce_hex@,
            signature_hex: self.signature_hex@,
            submission: self.submission@,
        }
    }
}

/// A signed draft or the text of an error, by their views.
pub open spec fn signed_result_view(r: Result<SignedDraft, String>) -> Result<SignedDraftView, Seq<char>> {
    match r {
        Ok(draft) => Ok(draft@),
        Err(message) => Err(message@),
    }
}

/// The JSON-RPC request that submits a transaction, given as JSON text.
pub open spec fn submission_of(transaction: Seq<char>) -> Seq<char> {
    "{\"id\":\"1\",\"jsonrpc\":\"2.0\",\"method\":\"submit_transaction\",\"params\":{\"transaction\":"@
        + transaction + "}}"@
}

/// What a signed transaction comes to: its kernel identifies it, and it has to be writable as JSON.
pub open spec fn draft_signed(
    tx_id: u64,
    fee_paid: u64,
    kernel: Option<(Seq<u8>, Seq<u8>)>,
    transaction: Result<Seq<char>, Seq<char>>,
) -> Result<SignedDraftView, Seq<char>> {
    match (kernel, transaction) {
        (None, _) => Err("signed transaction has no kernel"@),
        (Some(_), Err(reason)) => Err("failed to serialize signed transaction: "@ + reason),
        (Some((nonce, signature)), Ok(transaction)) => Ok(
            SignedDraftView {
                tx_id,
                fee_paid,
                nonce_hex: hex_digits(nonce),
                signature_hex: hex_digits(signature),
                submission: submission_of(transaction),
            },
        ),
    }
}

/// Makes the submission of a signed transaction.
pub fn finish_draft(
    tx_id: u64,
    fee_paid: u64,
    kernel: Option<(Vec<u8>, Vec<u8>)>,
    transaction: Result<String, String>,
) -> (r: Result<SignedDraft, String>)
    ensures
        signed_result_view(r) == draft_signed(
            tx_id,
            fee_paid,
            byte_pair_view(kernel),
            text_result_view(transaction),
        ),
{
    let (nonce, signature) = match kernel {
        Some(pair) => pair,
        None => return Err("signed transaction has no kernel".to_owned()),
    };
    match transaction {
        Err(reason) => Err(
            "failed to serialize signed transaction: ".to_owned().concat(reason.as_str()),
        ),
        Ok(transaction) => Ok(
            SignedDraft {
                tx_id,
                fee_paid,
                nonce_hex: encode_hex(&nonce),
                signature_hex: encode_hex(&signature),
                submission:
                    "{\"id\":\"1\",\"jsonrpc\":\"2.0\",\"method\":\"submit_transaction\",\"params\":{\"transaction\":".to_owned().concat(
                transaction.as_str()).concat("}}"),
            },
        ),
    }
}

/// `message` says that a draft response cannot be read, quoting its beginning.
pub open spec fn unreadable_draft(message: Seq<char>, body: Seq<char>) -> bool {
    exists|head: Seq<char>| #[trigger]
        excerpt_of(head, body, EXCERPT_BYTES as nat) && message
            == "failed to parse daemon create_unsigned_transaction response: "@ + head
}

/// What comes of a draft that was signed with the given outcome.
pub open spec fn draft_settled(
    tx_id: u64,
    fee_paid: u64,
    outcome: Result<SignedOneSidedTransactionResult, Seq<char>>,
) -> Result<SignedDraftView, Seq<char>> {
    match outcome {
        Ok(signed) => draft_signed(
            tx_id,
            fee_paid,
            kernel_signature_of(signed),
            transaction_json_of(signed),
        ),
        Err(reason) => Err("failed to sign locked transaction: "@ + reason),
    }
}

/// A draft has come to `result` by an outcome that signing it with the key manager can have.
pub open spec fn may_settle(
    manager: KeyManager,
    draft: (PrepareOneSidedTransactionForSigningResult, u64, u64),
    result: Result<SignedDraftView, Seq<char>>,
) -> bool {
    exists|outcome: Result<SignedOneSidedTransactionResult, Seq<char>>|
        #[trigger] may_sign(manager, draft.0, outcome) && result == draft_settled(
            draft.1,
            draft.2,
            outcome,
        )
}

/// What may come of a draft in a JSON text under seed words.
pub open spec fn may_be_signed(seed_words: Seq<char>, body: Seq<char>, r: Result<SignedDraft, String>) -> bool {
    match draft_in(body) {
        Err(_) => r is Err && unreadable_draft(r->Err_0@, body),
        Ok(draft) => match seed_of(seed_words) {
            Err(_) => r is Err && r->Err_0@
                == "failed to reconstruct cipher seed for new_wallet key manager"@,
            Ok(seed) => may_settle(key_manager_of(seed), draft, signed_result_view(r)),
        },
    }
}

/// The draft in a JSON text, if there is one, can be signed.
pub open spec fn draft_is_signable(body: Seq<char>) -> bool {
    draft_in(body) matches Ok(draft) ==> signable(draft.0)
}

/// Reads the daemon's draft, signs it with the keys of the seed words and makes its submission.
///
/// The draft fails if it cannot be read or if the seed words are no seed phrase, in this order.
/// A signature rests on chance, so that the contract speaks of some outcome that signing this draft
/// with these keys can have.
pub fn sign_transaction(seed_words: &str, body: &str) -> (r: Result<SignedDraft, String>)
    requires
        draft_is_signable(body@),
    ensures
        may_be_signed(seed_words@, body@, r),
{
    let draft = match read_draft(body) {
        Ok(draft) => draft,
        Err(_) => {
            let head = excerpt(body, EXCERPT_BYTES);
            let message = "failed to parse daemon create_unsigned_transaction response: ".to_owned().concat(
                head.as_str(),
            );
            assert(excerpt_of(head@, body@, EXCERPT_BYTES as nat));
            return Err(message);
        },
    };
    let seed = match recover_seed(seed_words) {
        Ok(seed) => seed,
        Err(_) => return Err(
            "failed to reconstruct cipher seed for new_wallet key manager".to_owned(),
        ),
    };
    let manager = match open_key_manager(seed) {
        Ok(manager) => manager,
        Err(_) => return Err(
            "failed to construct seed-words wallet for new_wallet key manager".to_owned(),
        ),
    };
    let ghost payload = draft.payload;
    let signed = sign_draft(&manager, draft.payload);
    let ghost outcome = result_view(signed);
    let r = match signed {
        Err(reason) => Err("failed to sign locked transaction: ".to_owned().concat(reason.as_str())),
        Ok(signed) => finish_draft(
            draft.tx_id,
            draft.fee_paid,
            kernel_signature(&signed),
            transaction_json(&signed),
        ),
    };
    proof {
        let parts = (payload, draft.tx_id, draft.fee_paid);
        let manager = key_manager_of(seed_of(seed_words@)->Ok_0);
        assert(draft_in(body@) == Ok::<_, Seq<char>>(parts));
        assert(may_sign(manager, parts.0, outcome));
        assert(may_settle(manager, parts, signed_result_view(r)));
    }
    r
}

/// Signs the daemon's draft if it can be signed or cannot be read.
pub fn sign_transaction_checked(seed_words: &str, body: &str) -> (r: Option<Result<SignedDraft, String>>)
    ensures
        match r {
            Some(signed) => draft_is_signable(body@) && may_be_signed(seed_words@, body@, signed),
            None => !draft_is_signable(body@),
        },
{
    if let Ok(draft) = read_draft(body) {
        proof {
            let parts = (draft.payload, draft.tx_id, draft.fee_paid);
            assert(draft_in(body@) == Ok::<_, Seq<char>>(parts));
        }
        if !is_signable(&draft.payload) {
            return None;
        }
    }
    Some(sign_transaction(seed_words, body))
}

/// What the base node's reply to a submission holds.
#[derive(PartialEq, Eq, Debug)]
pub struct SubmitReply {
    /// An error, with its message if it has one.
    pub error: Option<Option<String>>,
    pub accepted: Option<bool>,
    pub rejection_reason: Option<String>,
}

pub struct SubmitReplyView {
    pub error: Option<Option<Seq<char>>>,
    pub accepted: Option<bool>,
    pub rejection_reason: Option<Seq<char>>,
}

impl View for SubmitReply {
    type V = SubmitReplyView;

    open spec fn view(&self) -> SubmitReplyView {
        SubmitReplyView {
            error: match self.error {
                Some(message) => Some(text_view(message)),
                None => None,
            },
            accepted: self.accepted,
            rejection_reason: text_view(self.rejection_reason),
        }
    }
}

/// The text of a member that is a string.
pub open spec fn member_text(value: Value, key: Seq<char>) -> Option<Seq<char>> {
    match json_member(value, key) {
        Some(found) => json_text(found),
        None => None,
    }
}

/// The reply in a JSON value: the error is itself a string or an object with a message; the verdict
/// stands in the result.
pub open spec fn reply_in(value: Value) -> SubmitReplyView {
    SubmitReplyView {
        error: match json_member(value, "error"@) {
            None => None,
            Some(error) => Some(
                match json_text(error) {
                    Some(text) => Some(text),
                    None => member_text(error, "message"@),
                },
            ),
        },
        accepted: match json_member(value, "result"@) {
            None => None,
            Some(result) => match json_member(result, "accepted"@) {
                None => None,
                Some(accepted) => json_flag(accepted),
            },
        },
        rejection_reason: match json_member(value, "result"@) {
            None => None,
            Some(result) => member_text(result, "rejection_reason"@),
        },
    }
}

fn text_of_member(value: &Value, key: &str) -> (r: Option<String>)
    ensures
        text_view(r) == member_text(*value, key@),
{
    match member(value, key) {
        Some(found) => text_in(found),
        None => None,
    }
}

/// Picks the reply out of a JSON value.
pub fn read_reply(value: &Value) -> (r: SubmitReply)
    ensures
        r@ == reply_in(*value),
{
    let error = match member(value, "error") {
        None => None,
        Some(error) => match text_in(error) {
            Some(text) => Some(Some(text)),
            None => Some(text_of_member(error, "message")),
        },
    };
    match member(value, "result") {
        None => SubmitReply { error, accepted: None, rejection_reason: None },
        Some(result) => SubmitReply {
            error,
            accepted: match member(result, "accepted") {
                Some(accepted) => flag_in(accepted),
                None => None,
            },
            rejection_reason: text_of_member(result, "rejection_reason"),
        },
    }
}

/// Why a submission is not accepted, if it is not.
pub open spec fn refusal(tx_id: u64, reply: SubmitReplyView, body: Seq<char>) -> Option<Seq<char>> {
    match reply.error {
        Some(message) => Some(
            "base node rejected transaction "@ + decimal(tx_id as nat) + ": "@ + match message {
                Some(text) => text,
                None => "unknown JSON-RPC error"@,
            },
        ),
        None => match reply.accepted {
            None => Some("submit_transaction response missing result.accepted: "@ + body),
            Some(false) => Some(
                "transaction "@ + decimal(tx_id as nat) + " was rejected by the network: "@
                    + match reply.rejection_reason {
                    Some(reason) => reason,
                    None => "unknown"@,
                },
            ),
            Some(true) => None,
        },
    }
}

/// Judges the reply to a submission.
pub fn judge_reply(tx_id: u64, reply: &SubmitReply, body: &str) -> (r: Result<(), String>)
    ensures
        match r {
            Ok(()) => refusal(tx_id, reply@, body@) is None,
            Err(message) => refusal(tx_id, reply@, body@) == Some(message@),
        },
{
    if let Some(message) = &reply.error {
        let text = match message {
            Some(text) => text.clone(),
            None => "unknown JSON-RPC error".to_owned(),
        };
        return Err(
            "base node rejected transaction ".to_owned().concat(
                decimal_text(tx_id).as_str(),
            ).concat(": ").concat(text.as_str()),
        );
    }
    match reply.accepted {
        None => Err("submit_transaction response missing result.accepted: ".to_owned().concat(body)),
        Some(true) => Ok(()),
        Some(false) => {
            let reason = match &reply.rejection_reason {
                Some(reason) => reason.clone(),
                None => "unknown".to_owned(),
            };
            Err(
                "transaction ".to_owned().concat(decimal_text(tx_id).as_str()).concat(
                    " was rejected by the network: ",
                ).concat(reason.as_str()),
            )
        },
    }
}

/// An HTTP response.
#[derive(PartialEq, Eq, Debug)]
pub struct HttpResponse {
    pub success: bool,
    /// The status as text.
    pub status: String,
    pub body: String,
}

pub struct HttpResponseView {
    pub success: bool,
    pub status: Seq<char>,
    pub body: Seq<char>,
}

impl View for HttpResponse {
    type V = HttpResponseView;

    open spec fn view(&self) -> HttpResponseView {
        HttpResponseView { success: self.success, status: self.status@, body: self.body@ }
    }
}

/// Why the base node's response to a submission is no acceptance, if it is none.
pub open spec fn submission_fault(tx_id: u64, response: HttpResponseView) -> Option<Seq<char>> {
    if !response.success {
        Some(
            "base node submit_transaction returned HTTP "@ + response.status + ": "@
                + response.body,
        )
    } else {
        match json_value(response.body) {
            Err(_) => Some("failed to parse submit_transaction response: "@ + response.body),
            Ok(value) => refusal(tx_id, reply_in(value), response.body),
        }
    }
}

/// Judges the base node's response to a submission.
pub fn judge_submission(tx_id: u64, response: &HttpResponse) -> (r: Result<(), String>)
    ensures
        match r {
            Ok(()) => submission_fault(tx_id, response@) is None,
            Err(message) => submission_fault(tx_id, response@) == Some(message@),
        },
{
    if !response.success {
        return Err(
            "base node submit_transaction returned HTTP ".to_owned().concat(
                response.status.as_str(),
            ).concat(": ").concat(response.body.as_str()),
        );
    }
    match parse_json(response.body.as_str()) {
        Err(_) => Err(
            "failed to parse submit_transaction response: ".to_owned().concat(
                response.body.as_str(),
            ),
        ),
        Ok(value) => judge_reply(tx_id, &read_reply(&value), response.body.as_str()),
    }
}

/// Where a transaction of this wallet stands.
#[derive(PartialEq, Eq, Debug)]
pub enum SendStage {
    /// To be drafted and signed.
    Draft,
    /// To be submitted.
    Submit { draft: SignedDraft, construction_ns: u64 },
    /// To be looked up at the base node. `mempool_ns` is how long the submission took, `since_ns`
    /// when it was accepted.
    Query { draft: SignedDraft, construction_ns: u64, mempool_ns: u64, since_ns: u64 },
    /// Mined, and confirmed from the given tip on: the tip is to be read.
    ReadTip {
        draft: SignedDraft,
        construction_ns: u64,
        mempool_ns: u64,
        since_ns: u64,
        confirmed_from: u64,
    },
    /// To be looked up again after a pause.
    Pause { draft: SignedDraft, construction_ns: u64, mempool_ns: u64, since_ns: u64 },
    Sent(TxMetrics),
    Failed(String),
}

pub enum SendStageView {
    Draft,
    Submit { draft: SignedDraftView, construction_ns: u64 },
    Query { draft: SignedDraftView, construction_ns: u64, mempool_ns: u64, since_ns: u64 },
    ReadTip {
        draft: SignedDraftView,
        construction_ns: u64,
        mempool_ns: u64,
        since_ns: u64,
        confirmed_from: u64,
    },
    Pause { draft: SignedDraftView, construction_ns: u64, mempool_ns: u64, since_ns: u64 },
    Sent(TxView),
    Failed(Seq<char>),
}

impl View for SendStage {
    type V = SendStageView;

    open spec fn view(&self) -> SendStageView {
        match *self {
            SendStage::Draft => SendStageView::Draft,
            SendStage::Submit { draft, construction_ns } => SendStageView::Submit {
                draft: draft@,
                construction_ns,
            },
            SendStage::Query { draft, construction_ns, mempool_ns, since_ns } =>
                SendStageView::Query { draft: draft@, construction_ns, mempool_ns, since_ns },
            SendStage::ReadTip { draft, construction_ns, mempool_ns, since_ns, confirmed_from } =>
                SendStageView::ReadTip {
                    draft: draft@,
                    construction_ns,
                    mempool_ns,
                    since_ns,
                    confirmed_from,
                },
            SendStage::Pause { draft, construction_ns, mempool_ns, since_ns } =>
                SendStageView::Pause { draft: draft@, construction_ns, mempool_ns, since_ns },
            SendStage::Sent(tx) => SendStageView::Sent(tx@),
            SendStage::Failed(error) => SendStageView::Failed(error@),
        }
    }
}

/// Where the base node says that a transaction is.
#[derive(PartialEq, Eq, Debug)]
pub struct TxLocation {
    pub location: String,
    /// The height of the block that holds it, once it is mined.
    pub mined_height: Option<u64>,
}

pub struct TxLocationView {
    pub location: Seq<char>,
    pub mined_height: Option<u64>,
}

impl View for TxLocation {
    type V = TxLocationView;

    open spec fn view(&self) -> TxLocationView {
        TxLocationView { location: self.location@, mined_height: self.mined_height }
    }
}

/// What happened to a transaction under way.
#[derive(PartialEq, Eq, Debug)]
pub enum SendEvent {
    Drafted(Result<SignedDraft, String>),
    Submitted(Result<HttpResponse, String>),
    /// The base node told the location of the transaction.
    Located(Result<TxLocation, String>),
    /// The height of the chain tip was read.
    Tip(Result<u64, String>),
    Paused,
}

pub enum SendEventView {
    Drafted(Result<SignedDraftView, Seq<char>>),
    Submitted(Result<HttpResponseView, Seq<char>>),
    Located(Result<TxLocationView, Seq<char>>),
    Tip(Result<u64, Seq<char>>),
    Paused,
}

impl View for SendEvent {
    type V = SendEventView;

    open spec fn view(&self) -> SendEventView {
        match *self {
            SendEvent::Drafted(r) => SendEventView::Drafted(signed_result_view(r)),
            SendEvent::Submitted(Ok(response)) => SendEventView::Submitted(Ok(response@)),
            SendEvent::Submitted(Err(error)) => SendEventView::Submitted(Err(error@)),
            SendEvent::Located(Ok(found)) => SendEventView::Located(Ok(found@)),
            SendEvent::Located(Err(error)) => SendEventView::Located(Err(error@)),
            SendEvent::Tip(r) => SendEventView::Tip(result_view(r)),
            SendEvent::Paused => SendEventView::Paused,
        }
    }
}

/// The time between two moments, none if the later comes first.
pub open spec fn between(from_ns: u64, to_ns: u64) -> u64 {
    if to_ns >= from_ns {
        (to_ns - from_ns) as u64
    } else {
        0
    }
}

impl SendStageView {
    /// The event is one that the stage waits for.
    pub open spec fn awaits(self, event: SendEventView) -> bool {
        match self {
            SendStageView::Draft => event is Drafted,
            SendStageView::Submit { .. } => event is Submitted,
            SendStageView::Query { .. } => event is Located,
            SendStageView::ReadTip { .. } => event is Tip,
            SendStageView::Pause { .. } => event is Paused,
            SendStageView::Sent(_) | SendStageView::Failed(_) => false,
        }
    }

    /// The transaction after an event, `now_ns` into the send.
    ///
    /// Construction ends with the signature. A transaction that the base node accepts is looked up
    /// until it is mined and the tip has got far enough for the confirmations of the window, for at
    /// most the confirmation time.
    pub open spec fn after(self, confirmation_window: u64, event: SendEventView, now_ns: u64) -> SendStageView {
        match (self, event) {
            (SendStageView::Draft, SendEventView::Drafted(Ok(draft))) => SendStageView::Submit {
                draft,
                construction_ns: now_ns,
            },
            (SendStageView::Draft, SendEventView::Drafted(Err(error))) => SendStageView::Failed(
                error,
            ),
            (
                SendStageView::Submit { draft, construction_ns },
                SendEventView::Submitted(Ok(response)),
            ) => match submission_fault(draft.tx_id, response) {
                Some(error) => SendStageView::Failed(error),
                None => SendStageView::Query {
                    draft,
                    construction_ns,
                    mempool_ns: between(construction_ns, now_ns),
                    since_ns: now_ns,
                },
            },
            (SendStageView::Submit { .. }, SendEventView::Submitted(Err(error))) =>
                SendStageView::Failed(error),
            (
                SendStageView::Query { draft, construction_ns, mempool_ns, since_ns },
                SendEventView::Located(Ok(found)),
            ) => if found.location == "Mined"@ && found.mined_height is Some {
                SendStageView::ReadTip {
                    draft,
                    construction_ns,
                    mempool_ns,
                    since_ns,
                    confirmed_from: confirmation_tip(found.mined_height->0, confirmation_window),
                }
            } else if found.location == "Mined"@ || found.location == "None"@ || found.location
                == "NotStored"@ || found.location == "InMempool"@ {
                SendStageView::Pause { draft, construction_ns, mempool_ns, since_ns }
            } else {
                SendStageView::Failed(
                    "transaction "@ + decimal(draft.tx_id as nat) + " is in unexpected state "@
                        + debug_quoted(found.location),
                )
            },
            (
                SendStageView::ReadTip {
                    draft,
                    construction_ns,
                    mempool_ns,
                    since_ns,
                    confirmed_from,
                },
                SendEventView::Tip(Ok(tip)),
            ) => if tip >= confirmed_from {
                SendStageView::Sent(
                    sent(
                        decimal(draft.tx_id as nat),
                        construction_ns,
                        mempool_ns,
                        between(since_ns, now_ns),
                        draft.fee_paid,
                    ),
                )
            } else {
                SendStageView::Pause { draft, construction_ns, mempool_ns, since_ns }
            },
            (SendStageView::ReadTip { .. }, SendEventView::Tip(Err(error))) =>
                SendStageView::Failed(error),
            (SendStageView::Query { .. }, SendEventView::Located(Err(error))) =>
                SendStageView::Failed(error),
            (
                SendStageView::Pause { draft, construction_ns, mempool_ns, since_ns },
                SendEventView::Paused,
            ) => if past(between(since_ns, now_ns), CONFIRMATION_SECS) {
                SendStageView::Failed(
                    "transaction "@ + decimal(draft.tx_id as nat)
                        + " was not confirmed within 600s (last status from base node)"@,
                )
            } else {
                SendStageView::Query { draft, construction_ns, mempool_ns, since_ns }
            },
            (stage, _) => stage,
        }
    }
}

impl SendStage {
    /// Goes on after an event, `now_ns` into the send.
    pub fn resume(self, confirmation_window: u64, event: SendEvent, now_ns: u64) -> (r: SendStage)
        requires
            self@.awaits(event@),
        ensures
            r@ == self@.after(confirmation_window, event@, now_ns),
    {
        match event {
            SendEvent::Drafted(Err(error)) => SendStage::Failed(error),
            SendEvent::Submitted(Err(error)) => SendStage::Failed(error),
            SendEvent::Located(Err(error)) => SendStage::Failed(error),
            SendEvent::Tip(Err(error)) => SendStage::Failed(error),
            SendEvent::Drafted(Ok(draft)) => SendStage::Submit { draft, construction_ns: now_ns },
            SendEvent::Submitted(Ok(response)) => match self {
                SendStage::Submit { draft, construction_ns } => match judge_submission(
                    draft.tx_id,
                    &response,
                ) {
                    Err(error) => SendStage::Failed(error),
                    Ok(()) => SendStage::Query {
                        draft,
                        construction_ns,
                        mempool_ns: now_ns.saturating_sub(construction_ns),
                        since_ns: now_ns,
                    },
                },
                other => other,
            },
            SendEvent::Located(Ok(found)) => match self {
                SendStage::Query { draft, construction_ns, mempool_ns, since_ns } => {
                    let location = found.location.as_str();
                    let mined = same_text(location, "Mined");
                    match found.mined_height {
                        Some(height) if mined => SendStage::ReadTip {
                            draft,
                            construction_ns,
                            mempool_ns,
                            since_ns,
                            confirmed_from: confirmation_height(height, confirmation_window),
                        },
                        _ => if mined || same_text(location, "None") || same_text(
                            location,
                            "NotStored",
                        ) || same_text(location, "InMempool") {
                            SendStage::Pause { draft, construction_ns, mempool_ns, since_ns }
                        } else {
                            SendStage::Failed(
                                "transaction ".to_owned().concat(
                                    decimal_text(draft.tx_id).as_str(),
                                ).concat(" is in unexpected state ").concat(
                                    debug_text(location).as_str(),
                                ),
                            )
                        },
                    }
                },
                other => other,
            },
            SendEvent::Tip(Ok(tip)) => match self {
                SendStage::ReadTip {
                    draft,
                    construction_ns,
                    mempool_ns,
                    since_ns,
                    confirmed_from,
                } => {
                    if tip >= confirmed_from {
                        SendStage::Sent(
                            sent_metrics(
                                decimal_text(draft.tx_id),
                                construction_ns,
                                mempool_ns,
                                now_ns.saturating_sub(since_ns),
                                draft.fee_paid,
                            ),
                        )
                    } else {
                        SendStage::Pause { draft, construction_ns, mempool_ns, since_ns }
                    }
                },
                other => other,
            },
            SendEvent::Paused => match self {
                SendStage::Pause { draft, construction_ns, mempool_ns, since_ns } => {
                    if past_deadline(now_ns.saturating_sub(since_ns), CONFIRMATION_SECS) {
                        SendStage::Failed(
                            "transaction ".to_owned().concat(
                                decimal_text(draft.tx_id).as_str(),
                            ).concat(" was not confirmed within 600s (last status from base node)"),
                        )
                    } else {
                        SendStage::Query { draft, construction_ns, mempool_ns, since_ns }
                    }
                },
                other => other,
            },
        }
    }
}

/// A transaction counts as sent only if the base node has said at which height it is mined and the
/// tip then has the confirmations of the window; it is submitted once, and keeps its id and its fee
/// from the draft on.
pub proof fn only_confirmed_transactions_are_sent(
    stage: SendStageView,
    confirmation_window: u64,
    event: SendEventView,
    now_ns: u64,
)
    requires
        stage.awaits(event),
    ensures
        ({
            let after = stage.after(confirmation_window, event, now_ns);
            &&& after is Sent ==> {
                &&& stage is ReadTip
                &&& event is Tip
                &&& event->Tip_0 is Ok
                &&& event->Tip_0->Ok_0 >= stage->confirmed_from
            }
            &&& after is ReadTip ==> {
                &&& stage is Query
                &&& event is Located
                &&& event->Located_0 is Ok
                &&& event->Located_0->Ok_0.location == "Mined"@
                &&& event->Located_0->Ok_0.mined_height is Some
                &&& after->confirmed_from == confirmation_tip(
                    event->Located_0->Ok_0.mined_height->0,
                    confirmation_window,
                )
            }
            &&& after is Submit ==> stage is Draft
            &&& !(after is Draft)
            &&& match (stage, after) {
                (SendStageView::Submit { draft, .. }, SendStageView::Query { draft: next, .. }) =>
                    next == draft && submission_fault(
                        draft.tx_id,
                        event->Submitted_0->Ok_0,
                    ) is None,
                (SendStageView::Query { draft, .. }, SendStageView::Pause { draft: next, .. }) =>
                    next == draft,
                (SendStageView::Query { draft, .. }, SendStageView::ReadTip { draft: next, .. }) =>
                    next == draft,
                (SendStageView::ReadTip { draft, .. }, SendStageView::Pause { draft: next, .. }) =>
                    next == draft,
                (SendStageView::Pause { draft, .. }, SendStageView::Query { draft: next, .. }) =>
                    next == draft,
                (SendStageView::ReadTip { draft, .. }, SendStageView::Sent(tx)) => tx.tx_id
                    == decimal(draft.tx_id as nat) && tx.fee_paid == draft.fee_paid,
                _ => true,
            }
        }),
{
}

/// A scan is done once the daemon is within fifty blocks of the tip at which it began, also if it is late;
/// before that it goes on up to its timeout and has failed after it. Without a known tip it is done
/// with the first block, or half a minute after polling began, and never fails.
pub proof fn daemon_scans_come_close_to_the_tip(
    scan: DaemonScan,
    status: ScanStatusResponse,
    elapsed_ns: u64,
    r: Result<bool, String>,
)
    requires
        call_ensures(DaemonScan::judge, (&scan, status, elapsed_ns), r),
    ensures
        scan.h_tip_start > 0 ==> {
            &&& r is Ok && r->Ok_0 <==> scan.h_tip_start - status.last_scanned_height <= 50
            &&& r is Err <==> scan.h_tip_start - status.last_scanned_height > 50 && elapsed_ns
                > scan.timeout_secs * 1_000_000_000
        },
        scan.h_tip_start == 0 ==> {
            &&& r is Ok
            &&& r->Ok_0 <==> status.last_scanned_height > 0 || elapsed_ns - scan.polling_since_ns
                > 30_000_000_000
        },
{
}

/// A scan reports the blocks from its start up to where the daemon got, and the rest as it was read, the
/// memory in kilobytes; a tip that cannot be read at its end counts as the one at its beginning.
pub proof fn daemon_scans_report_their_blocks(
    scan: DaemonScan,
    status: ScanStatusResponse,
    wall_clock_ns: u64,
    tip_end: Option<u64>,
    peak: Usage,
    r: ScanMetrics,
)
    requires
        call_ensures(DaemonScan::metrics, (&scan, status, wall_clock_ns, tip_end, peak), r),
    ensures
        scan.from_height <= status.last_scanned_height ==> r.blocks_scanned + scan.from_height
            == status.last_scanned_height,
        scan.from_height > status.last_scanned_height ==> r.blocks_scanned == 0,
        r.wall_clock_ns == wall_clock_ns,
        r.h_tip_start == scan.h_tip_start,
        tip_end is None ==> r.h_tip_end == r.h_tip_start,
        tip_end matches Some(tip) ==> r.h_tip_end == tip,
        r.outputs_found == status.outputs_found,
        r.peak_rss_kb * 1024 <= peak.memory_bytes < (r.peak_rss_kb + 1) * 1024,
        r.peak_cpu_bits == peak.cpu_bits,
{
}

/// A wallet database without the words that it was made with is refused, whatever the configuration says;
/// in every other case the words are settled as for any wallet: stored ones win.
pub proof fn databases_need_their_words(
    data_dir: &str,
    stored: StoredWords,
    database_exists: bool,
    config_seed: Option<&str>,
    r: Result<LoadedWords, String>,
)
    requires
        call_ensures(
            load_or_create_wallet_words,
            (data_dir, stored, database_exists, config_seed),
            r,
        ),
    ensures
        stored is Missing && database_exists ==> r is Err,
        stored matches StoredWords::Found(text) ==> r is Ok && r->Ok_0.words@ == trim(text@)
            && !r->Ok_0.persist,
        stored matches StoredWords::Unreadable(reason) ==> r is Err && r->Err_0@ == reason@,
        stored is Missing && !database_exists && config_seed is None ==> r is Ok && r->Ok_0.persist,
        stored is Missing && !database_exists && config_seed is Some ==> (r is Ok <==> seed_of(
            config_seed->0@,
        ) is Ok),
        stored is Missing && r is Ok && config_seed is Some ==> r->Ok_0.words@ == config_seed->0@
            && r->Ok_0.persist,
{
}

/// A command that succeeded gives its output as it is; one that failed gives its error output, without
/// white space around it.
pub proof fn commands_give_their_output(success: bool, stdout: String, stderr: &str, r: Result<String, String>)
    requires
        call_ensures(cli_outcome, (success, stdout, stderr), r),
    ensures
        r is Ok <==> success,
        success ==> r->Ok_0@ == stdout@,
        !success ==> r->Err_0@ == "minotari CLI command failed: "@ + trim(stderr@),
{
}

/// A draft asks for the payments that were given, and locks what it spends for an hour.
pub proof fn drafts_ask_for_the_given_payments(recipients: Vec<(String, u64)>, r: DraftRequest)
    requires
        call_ensures(draft_request, (recipients,), r),
    ensures
        r.recipients@ == recipients@,
        r.seconds_to_lock_utxos == 3600,
{
}

/// A signed transaction is ready to be submitted if it has a kernel and can be written. It keeps the id
/// and the fee of its draft, is looked up by nonce and signature of its kernel, in this order, and
/// its submission holds it as it was written.
pub proof fn signed_drafts_keep_their_id_and_fee(
    tx_id: u64,
    fee_paid: u64,
    kernel: Option<(Vec<u8>, Vec<u8>)>,
    transaction: Result<String, String>,
    r: Result<SignedDraft, String>,
)
    requires
        call_ensures(finish_draft, (tx_id, fee_paid, kernel, transaction), r),
    ensures
        r is Ok <==> kernel is Some && transaction is Ok,
        r matches Ok(draft) ==> {
            &&& draft.tx_id == tx_id
            &&& draft.fee_paid == fee_paid
            &&& draft.nonce_hex@ == hex_digits((kernel->0).0@)
            &&& draft.signature_hex@ == hex_digits((kernel->0).1@)
            &&& exists|head: Seq<char>, tail: Seq<char>| #[trigger]
                (head + transaction->Ok_0@ + tail) == draft.submission@
        },
{
    if let Ok(draft) = r {
        let head =
            "{\"id\":\"1\",\"jsonrpc\":\"2.0\",\"method\":\"submit_transaction\",\"params\":{\"transaction\":"@;
        assert(signed_result_view(r) == Ok::<SignedDraftView, Seq<char>>(draft@));
        assert(draft.submission@ == head + transaction->Ok_0@ + "}}"@);
    }
}

/// A submission is accepted if and only if the reply holds no error and says that it is accepted. A
/// refusal names the transaction, and tells the error or the reason that the reply gives.
pub proof fn submissions_are_accepted_by_a_clear_word(tx_id: u64, reply: SubmitReply, body: &str, r: Result<(), String>)
    requires
        call_ensures(judge_reply, (tx_id, &reply, body), r),
    ensures
        r is Ok <==> reply.error is None && reply.accepted == Some(true),
        reply.error matches Some(Some(text)) ==> r->Err_0@ == "base node rejected transaction "@
            + decimal(tx_id as nat) + ": "@ + text@,
        reply.error is None && reply.accepted == Some(false) ==> (reply.rejection_reason
            matches Some(reason) ==> r->Err_0@ == "transaction "@ + decimal(tx_id as nat)
            + " was rejected by the network: "@ + reason@),
{
    if let Some(Some(text)) = reply.error {
        assert(reply@.error == Some(Some(text@)));
    }
    if let Some(reason) = reply.rejection_reason {
        assert(reply@.rejection_reason == Some(reason@));
    }
}

/// A response to a submission is an acceptance if and only if it is a success, can be read, holds no
/// error, and says that the transaction is accepted.
pub proof fn responses_are_acceptances_in_full(tx_id: u64, response: HttpResponse, r: Result<(), String>)
    requires
        call_ensures(judge_submission, (tx_id, &response), r),
    ensures
        r is Ok <==> {
            &&& response.success
            &&& json_value(response.body@) is Ok
            &&& json_member(json_value(response.body@)->Ok_0, "error"@) is None
            &&& json_member(json_value(response.body@)->Ok_0, "result"@) matches Some(result)
                && json_member(result, "accepted"@) matches Some(accepted) && json_flag(accepted)
                == Some(true)
        },
{
}

/// A send goes from its draft through its submission and its lookup to its confirmation. It reports the
/// time up to the signature, from there to the acceptance, and from there to the confirmation, with the
/// id and the fee of the draft; and it counts as confirmed if and only if the tip has as many blocks
/// from the mined one on as the window asks for.
pub proof fn sends_are_measured_step_by_step(
    draft: SignedDraftView,
    response: HttpResponseView,
    mined: u64,
    window: u64,
    tip: u64,
    t: Seq<u64>,
)
    requires
        submission_fault(draft.tx_id, response) is None,
        mined + window <= u64::MAX,
        window > 0,
        t.len() == 4,
        forall|i: int, j: int| 0 <= i <= j < 4 ==> t[i] <= t[j],
    ensures
        ({
            let signed = SendStageView::Draft.after(window, SendEventView::Drafted(Ok(draft)), t[0]);
            let accepted = signed.after(window, SendEventView::Submitted(Ok(response)), t[1]);
            let found = TxLocationView { location: "Mined"@, mined_height: Some(mined) };
            let located = accepted.after(window, SendEventView::Located(Ok(found)), t[2]);
            let end = located.after(window, SendEventView::Tip(Ok(tip)), t[3]);
            let tx = end->Sent_0;
            &&& signed is Submit && accepted is Query && located is ReadTip
            &&& end is Sent <==> tip - mined + 1 >= window
            &&& tip - mined + 1 < window ==> end is Pause
            &&& end is Sent ==> {
                &&& tx.tx_id == decimal(draft.tx_id as nat)
                &&& tx.fee_paid == draft.fee_paid
                &&& tx.success && tx.error is None
                &&& tx.construction_ns == t[0]
                &&& tx.broadcast_to_mempool_ns == t[1] - t[0]
                &&& tx.broadcast_to_confirmed_ns == t[3] - t[1]
            }
        }),
{
    assert(t[0] <= t[1] && t[1] <= t[3]);
}

/// A send that is not mined yet is looked up again after a pause, for ten minutes from its acceptance on;
/// a state that no transaction under way has ends it. Every error ends it with its cause.
pub proof fn sends_are_looked_up_for_ten_minutes(
    draft: SignedDraftView,
    times: (u64, u64, u64, u64),
    window: u64,
    found: TxLocationView,
    error: Seq<char>,
    stage: SendStageView,
)
    ensures
        ({
            let query = SendStageView::Query {
                draft,
                construction_ns: times.0,
                mempool_ns: times.1,
                since_ns: times.2,
            };
            let pause = SendStageView::Pause {
                draft,
                construction_ns: times.0,
                mempool_ns: times.1,
                since_ns: times.2,
            };
            let looked = query.after(window, SendEventView::Located(Ok(found)), times.3);
            let known = found.location == "None"@ || found.location == "NotStored"@
                || found.location == "InMempool"@;
            let mined = found.location == "Mined"@;
            let again = pause.after(window, SendEventView::Paused, times.3);
            &&& mined && found.mined_height is Some <==> looked is ReadTip
            &&& mined && found.mined_height is None || known && !mined <==> looked == pause
            &&& !mined && !known <==> looked is Failed
            &&& times.3 - times.2 > 600_000_000_000 <==> again is Failed
            &&& times.3 - times.2 <= 600_000_000_000 <==> again == query
            &&& query.after(window, SendEventView::Located(Err(error)), times.3)
                == SendStageView::Failed(error)
        }),
        stage is Draft ==> stage.after(window, SendEventView::Drafted(Err(error)), times.3)
            == SendStageView::Failed(error),
        stage is Submit ==> stage.after(window, SendEventView::Submitted(Err(error)), times.3)
            == SendStageView::Failed(error),
        stage is ReadTip ==> stage.after(window, SendEventView::Tip(Err(error)), times.3)
            == SendStageView::Failed(error),
{
}

/// A send is carried out as it is described.
pub proof fn sends_go_as_they_are_described(
    stage: SendStage,
    window: u64,
    event: SendEvent,
    now_ns: u64,
    r: SendStage,
)
    requires
        call_ensures(SendStage::resume, (stage, window, event, now_ns), r),
    ensures
        r@ == stage@.after(window, event@, now_ns),
{
}

/// A scan from genesis starts at the first block, with the earliest birthday.
pub proof fn genesis_is_the_beginning(r: (u64, u64), height: u64, birthday: u64)
    requires
        call_ensures(genesis_scan_start, (), r),
    ensures
        r.0 <= height && r.1 <= birthday,
{
}

/// A draft that was signed keeps the id and the fee that its daemon gave it. It is signed only if it can
/// be read and the seed words are a seed phrase.
pub proof fn signing_keeps_the_id_and_the_fee(seed_words: &str, body: &str, r: Option<Result<SignedDraft, String>>)
    requires
        call_ensures(sign_transaction_checked, (seed_words, body), r),
    ensures
        r is None ==> draft_in(body@) is Ok && !signable((draft_in(body@)->Ok_0).0),
        r matches Some(Ok(draft)) ==> {
            &&& draft_in(body@) is Ok
            &&& seed_of(seed_words@) is Ok
            &&& draft.tx_id == (draft_in(body@)->Ok_0).1
            &&& draft.fee_paid == (draft_in(body@)->Ok_0).2
        },
{
    if let Some(signed) = r {
        assert(may_be_signed(seed_words@, body@, signed));
        if let Ok(draft) = signed {
            assert(signed_result_view(signed) == Ok::<SignedDraftView, Seq<char>>(draft@));
            let parts = draft_in(body@)->Ok_0;
            let manager = key_manager_of(seed_of(seed_words@)->Ok_0);
            assert(may_settle(manager, parts, signed_result_view(signed)));
        }
    }
}

/// The wallet's own address is the one that its words derive, and there is none for words that are no seed
/// phrase.
pub proof fn the_own_address_is_derived(seed_words: &str, r: Result<String, String>, derived: Option<String>)
    requires
        call_ensures(self_address, (seed_words,), r),
        call_ensures(derive_address, (seed_words,), derived),
    ensures
        r is Ok <==> derived is Some,
        r is Ok <==> seed_of(seed_words@) is Ok,
        r matches Ok(address) ==> address@ == derived->0@,
{
    if let Some(text) = derived {
        assert(text_view(derived) == Some(text@));
    }
}

/// A reply tells its error, which is a text or has a message, its verdict, and the reason of a rejection,
/// each as far as it is there.
pub proof fn replies_tell_their_error_and_their_verdict(value: Value, r: SubmitReply)
    requires
        call_ensures(read_reply, (&value,), r),
    ensures
        r.error is Some <==> json_member(value, "error"@) is Some,
        json_member(value, "error"@) matches Some(error) ==> {
            &&& json_text(error) matches Some(text) ==> r.error->0 is Some && r.error->0->0@ == text
            &&& json_text(error) is None ==> (json_member(error, "message"@) matches Some(message)
                ==> (json_text(message) matches Some(text) ==> r.error->0 is Some && r.error->0->0@
                == text))
            &&& json_text(error) is None && json_member(error, "message"@) is None ==> r.error->0
                is None
        },
        json_member(value, "result"@) is None ==> r.accepted is None && r.rejection_reason is None,
        json_member(value, "result"@) matches Some(result) ==> {
            &&& json_member(result, "accepted"@) matches Some(word) ==> r.accepted == json_flag(word)
            &&& json_member(result, "accepted"@) is None ==> r.accepted is None
            &&& json_member(result, "rejection_reason"@) matches Some(reason) ==> (json_text(reason)
                matches Some(text) ==> r.rejection_reason is Some && r.rejection_reason->0@ == text)
            &&& json_member(result, "rejection_reason"@) is None ==> r.rejection_reason is None
        },
{
    assert(r@ == reply_in(value));
    assert(text_view(r.rejection_reason) == r@.rejection_reason);
    if let Some(message) = r.error {
        assert(r@.error == Some(text_view(message)));
    }
}

/// The time between two moments is what lies between them, and nothing if they stand the other way
/// round.
pub proof fn times_between_are_differences(from_ns: u64, to_ns: u64)
    ensures
        from_ns <= to_ns ==> from_ns + between(from_ns, to_ns) == to_ns,
        from_ns >= to_ns ==> between(from_ns, to_ns) == 0,
{
}

} // verus!
