//! The wallet as a library inside the harness.

use vstd::prelude::*;

use crate::driver::{result_view, text_result_view};
use crate::drivers::polling::{past, past_deadline, sent, sent_metrics};
use crate::drivers::shared::{derive_address, derived_address};
use crate::drivers::usage::Usage;
use crate::metrics::{ScanMetrics, TxMetrics};
use crate::text::{decimal, decimal_text};

verus! {

/// Seconds within which a transaction has to complete.
pub const COMPLETION_SECS: u64 = 3600;

/// The wallet's own address, or why there is none.
pub fn self_address(seed_words: &str) -> (r: Result<String, String>)
    ensures
        text_result_view(r) == match derived_address(seed_words@) {
            Some(address) => Ok(address),
            None => Err("failed to reconstruct cipher seed for address derivation"@),
        },
{
    match derive_address(seed_words) {
        Some(address) => Ok(address),
        None => Err("failed to reconstruct cipher seed for address derivation".to_owned()),
    }
}

/// How a recovery scan ended.
#[derive(PartialEq, Eq, Debug)]
pub enum RecoveryEvent {
    Completed { num_recovered: u64, final_height: u64 },
    RoundFailed { num_retries: u64, retry_limit: u64, error: String },
    /// An event of another kind, by its description.
    Unexpected(String),
}

/// What a recovery scan comes to: metrics if it completed, whose blocks are those above the tip at
/// which it began and whose peaks are those of the process, and an error otherwise.
pub open spec fn recovered(event: RecoveryEvent, h_tip_start: u64, h_tip_end: u64, wall_clock_ns: u64, peak: Usage) -> Result<ScanMetrics, Seq<char>> {
    match event {
        RecoveryEvent::Completed { num_recovered, final_height } => Ok(
            ScanMetrics {
                wall_clock_ns,
                blocks_scanned: if final_height >= h_tip_start {
                    (final_height - h_tip_start) as u64
                } else {
                    0
                },
                h_tip_start,
                h_tip_end,
                outputs_found: num_recovered,
                peak_rss_kb: peak.memory_bytes / 1024,
                peak_cpu_bits: peak.cpu_bits,
            },
        ),
        RecoveryEvent::RoundFailed { num_retries, retry_limit, error } => Err(
            "scan failed after "@ + decimal(num_retries as nat) + "/"@ + decimal(retry_limit as nat)
                + " retries: "@ + error@,
        ),
        RecoveryEvent::Unexpected(description) => Err("unexpected scan event: "@ + description@),
    }
}

/// Judges how a recovery scan ended.
pub fn judge_recovery(event: &RecoveryEvent, h_tip_start: u64, h_tip_end: u64, wall_clock_ns: u64, peak: Usage) -> (r: Result<ScanMetrics, String>)
    ensures
        result_view(r) == recovered(*event, h_tip_start, h_tip_end, wall_clock_ns, peak),
{
    match event {
        RecoveryEvent::Completed { num_recovered, final_height } => Ok(
            ScanMetrics {
                wall_clock_ns,
                blocks_scanned: final_height.saturating_sub(h_tip_start),
                h_tip_start,
                h_tip_end,
                outputs_found: *num_recovered,
                peak_rss_kb: peak.memory_bytes / 1024,
                peak_cpu_bits: peak.cpu_bits,
            },
        ),
        RecoveryEvent::RoundFailed { num_retries, retry_limit, error } => Err(
            "scan failed after ".to_owned().concat(decimal_text(*num_retries).as_str()).concat(
                "/",
            ).concat(decimal_text(*retry_limit).as_str()).concat(" retries: ").concat(
                error.as_str(),
            ),
        ),
        RecoveryEvent::Unexpected(description) => Err(
            "unexpected scan event: ".to_owned().concat(description.as_str()),
        ),
    }
}

/// A batch has to have recipients.
pub fn check_batch(recipients: &Vec<(String, u64)>) -> (r: Result<(), String>)
    ensures
        result_view(r) == if recipients@.len() == 0 {
            Err("send_batch called with empty recipients"@)
        } else {
            Ok(())
        },
{
    if recipients.len() == 0 {
        Err("send_batch called with empty recipients".to_owned())
    } else {
        Ok(())
    }
}

/// The transaction that stands for a batch: the first that the wallet made for it.
pub fn batch_tx(tx_ids: &Vec<u64>) -> (r: Result<u64, String>)
    ensures
        result_view(r) == if tx_ids@.len() == 0 {
            Err("send_batch returned no tx_ids"@)
        } else {
            Ok(tx_ids@[0])
        },
{
    if tx_ids.len() == 0 {
        Err("send_batch returned no tx_ids".to_owned())
    } else {
        Ok(tx_ids[0])
    }
}

/// What the wallet says of a transaction.
#[derive(PartialEq, Eq, Debug)]
pub enum Lookup {
    /// It is completed, with the given fee.
    Completed { fee_paid: u64 },
    /// The wallet does not know it as completed.
    Absent,
    /// The wallet cannot say, for the given reason.
    Broken(String),
}

/// What to do about a transaction that is waited for: its fee if it is completed, nothing if it is
/// still absent.
pub fn poll_transaction(tx_id: u64, lookup: Lookup) -> (r: Result<Option<u64>, String>)
    ensures
        result_view(r) == match lookup {
            Lookup::Completed { fee_paid } => Ok(Some(fee_paid)),
            Lookup::Absent => Ok(None),
            Lookup::Broken(reason) => Err(
                "transaction "@ + decimal(tx_id as nat) + " query failed: "@ + reason@,
            ),
        },
{
    match lookup {
        Lookup::Completed { fee_paid } => Ok(Some(fee_paid)),
        Lookup::Absent => Ok(None),
        Lookup::Broken(reason) => Err(
            "transaction ".to_owned().concat(decimal_text(tx_id).as_str()).concat(
                " query failed: ",
            ).concat(reason.as_str()),
        ),
    }
}

/// The error of a transaction that does not complete in time; none before that.
pub fn completion_overdue(tx_id: u64, elapsed_ns: u64) -> (r: Result<(), String>)
    ensures
        match r {
            Ok(()) => !past(elapsed_ns, COMPLETION_SECS),
            Err(message) => past(elapsed_ns, COMPLETION_SECS) && message@ == "transaction "@
                + decimal(tx_id as nat) + " not confirmed within 3600s"@,
        },
{
    if past_deadline(elapsed_ns, COMPLETION_SECS) {
        Err(
            "transaction ".to_owned().concat(decimal_text(tx_id).as_str()).concat(
                " not confirmed within 3600s",
            ),
        )
    } else {
        Ok(())
    }
}

/// The metrics of a completed transaction: it was in the mempool once it was constructed.
pub fn completed_metrics(tx_id: u64, construction_ns: u64, completed_ns: u64, fee_paid: u64) -> (r: TxMetrics)
    ensures
        r@ == sent(
            decimal(tx_id as nat),
            construction_ns,
            construction_ns,
            completed_ns,
            fee_paid,
        ),
{
    sent_metrics(decimal_text(tx_id), construction_ns, construction_ns, completed_ns, fee_paid)
}

/// A recovery scan that completed reports the blocks above the tip at which it began, the outputs that it
/// recovered, its time and the peaks of the process, the memory in kilobytes; any other end of it is
/// an error.
pub proof fn completed_recoveries_are_measured(
    event: RecoveryEvent,
    tips: (u64, u64),
    wall_clock_ns: u64,
    peak: Usage,
    r: Result<ScanMetrics, String>,
)
    requires
        call_ensures(judge_recovery, (&event, tips.0, tips.1, wall_clock_ns, peak), r),
    ensures
        r is Ok <==> event is Completed,
        event matches RecoveryEvent::Completed { num_recovered, final_height } ==> {
            let metrics = r->Ok_0;
            &&& final_height >= tips.0 ==> metrics.blocks_scanned + tips.0 == final_height
            &&& final_height < tips.0 ==> metrics.blocks_scanned == 0
            &&& metrics.outputs_found == num_recovered
            &&& metrics.h_tip_start == tips.0
            &&& metrics.h_tip_end == tips.1
            &&& metrics.wall_clock_ns == wall_clock_ns
            &&& metrics.peak_rss_kb * 1024 <= peak.memory_bytes < (metrics.peak_rss_kb + 1) * 1024
            &&& metrics.peak_cpu_bits == peak.cpu_bits
        },
{
}

/// A batch stands under the first of the transactions that were made for it, and needs recipients and
/// transactions at all.
pub proof fn batches_stand_under_their_first_transaction(
    recipients: &Vec<(String, u64)>,
    checked: Result<(), String>,
    tx_ids: &Vec<u64>,
    r: Result<u64, String>,
)
    requires
        call_ensures(check_batch, (recipients,), checked),
        call_ensures(batch_tx, (tx_ids,), r),
    ensures
        checked is Ok <==> recipients@.len() > 0,
        r is Ok <==> tx_ids@.len() > 0,
        r matches Ok(id) ==> id == tx_ids@.first(),
{
}

/// A transaction is waited for until the wallet has it as completed, which tells its fee; a wallet that
/// cannot say ends the wait, and so does the end of an hour.
pub proof fn completion_is_waited_for(
    tx_id: u64,
    lookup: Lookup,
    r: Result<Option<u64>, String>,
    elapsed_ns: u64,
    overdue: Result<(), String>,
)
    requires
        call_ensures(poll_transaction, (tx_id, lookup), r),
        call_ensures(completion_overdue, (tx_id, elapsed_ns), overdue),
    ensures
        lookup matches Lookup::Completed { fee_paid } ==> r is Ok && r->Ok_0 == Some(fee_paid),
        lookup is Absent <==> r is Ok && r->Ok_0 is None,
        lookup is Broken <==> r is Err,
        overdue is Err <==> elapsed_ns > 3_600_000_000_000,
{
}

/// A completed transaction was in the mempool when it was constructed; its metrics tell its id, its fee
/// and its times.
pub proof fn completed_transactions_are_measured(tx_id: u64, constructed: u64, completed: u64, fee: u64, r: TxMetrics)
    requires
        call_ensures(completed_metrics, (tx_id, constructed, completed, fee), r),
    ensures
        r.success && r.error is None,
        r.tx_id@ == decimal(tx_id as nat),
        r.fee_paid == fee,
        r.construction_ns == constructed,
        r.broadcast_to_mempool_ns == constructed,
        r.broadcast_to_confirmed_ns == completed,
{
    assert(r@.error is None);
}

/// The wallet's own address is the one that its words derive, and there is none for words that are no seed
/// phrase.
pub proof fn the_own_address_is_derived(seed_words: &str, r: Result<String, String>, derived: Option<String>)
    requires
        call_ensures(self_address, (seed_words,), r),
        call_ensures(derive_address, (seed_words,), derived),
    ensures
        r is Ok <==> derived is Some,
        r matches Ok(address) ==> address@ == derived->0@,
{
    if let Some(text) = derived {
        assert(derived_address(seed_words@) == Some(text@));
    }
}

} // verus!
