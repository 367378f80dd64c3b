//! What the drivers' polling loops share: deadlines, confirmations, and the watch for incoming
//! funding.

use vstd::prelude::*;

use crate::metrics::{text_view, TxMetrics, TxView};
use crate::text::{decimal, decimal_text};

verus! {

/// Seconds within which incoming funding has to be observed.
pub const FUNDING_TIMEOUT_SECS: u64 = 600;

/// More than `limit_secs` seconds have passed.
pub open spec fn past(elapsed_ns: u64, limit_secs: u64) -> bool {
    elapsed_ns > limit_secs * 1_000_000_000
}

/// Tells whether more than `limit_secs` seconds have passed.
pub fn past_deadline(elapsed_ns: u64, limit_secs: u64) -> (r: bool)
    ensures
        r == past(elapsed_ns, limit_secs),
{
    elapsed_ns as u128 > limit_secs as u128 * 1_000_000_000u128
}

/// A successful transaction.
pub open spec fn sent(tx_id: Seq<char>, construction_ns: u64, mempool_ns: u64, confirmed_ns: u64, fee_paid: u64) -> TxView {
    TxView {
        tx_id,
        construction_ns,
        broadcast_to_mempool_ns: mempool_ns,
        broadcast_to_confirmed_ns: confirmed_ns,
        fee_paid,
        success: true,
        error: None,
    }
}

/// The metrics of a successful transaction.
pub fn sent_metrics(tx_id: String, construction_ns: u64, mempool_ns: u64, confirmed_ns: u64, fee_paid: u64) -> (r: TxMetrics)
    ensures
        r@ == sent(tx_id@, construction_ns, mempool_ns, confirmed_ns, fee_paid),
{
    TxMetrics {
        tx_id,
        construction_ns,
        broadcast_to_mempool_ns: mempool_ns,
        broadcast_to_confirmed_ns: confirmed_ns,
        fee_paid,
        success: true,
        error: None,
    }
}

/// What is said of funding that did not arrive.
pub open spec fn funding_missing(expected_amount_ut: u64) -> Seq<char> {
    "incoming funding of at least "@ + decimal(expected_amount_ut as nat)
        + " uT was not observed within 600s"@
}

/// The error of a funding watch that has run out of time; none before that.
pub fn funding_overdue(expected_amount_ut: u64, elapsed_ns: u64) -> (r: Option<String>)
    ensures
        text_view(r) == if past(elapsed_ns, FUNDING_TIMEOUT_SECS) {
            Some(funding_missing(expected_amount_ut))
        } else {
            None
        },
{
    if past_deadline(elapsed_ns, FUNDING_TIMEOUT_SECS) {
        Some(
            "incoming funding of at least ".to_owned().concat(
                decimal_text(expected_amount_ut).as_str(),
            ).concat(" uT was not observed within 600s"),
        )
    } else {
        None
    }
}

/// The funding as seen through the balance: it has arrived once the balance is at least the
/// expected amount, and was seen in the mempool and confirmed at that moment.
pub fn funding_in_balance(expected_amount_ut: u64, available: u64, elapsed_ns: u64) -> (r: Option<TxMetrics>)
    ensures
        match r {
            Some(tx) => available >= expected_amount_ut && tx@ == sent(
                "incoming-funding"@,
                0,
                elapsed_ns,
                elapsed_ns,
                0,
            ),
            None => available < expected_amount_ut,
        },
{
    if available >= expected_amount_ut {
        Some(sent_metrics("incoming-funding".to_owned(), 0, elapsed_ns, elapsed_ns, 0))
    } else {
        None
    }
}

/// The tip at which a mined transaction has the confirmations of the window, at least one.
pub open spec fn confirmation_tip(mined_height: u64, confirmation_window: u64) -> u64 {
    let more: int = if confirmation_window == 0 {
        0
    } else {
        confirmation_window - 1
    };
    if mined_height + more > u64::MAX {
        u64::MAX
    } else {
        (mined_height + more) as u64
    }
}

/// The tip at which a transaction that is mined at a height has the confirmations of the window.
pub fn confirmation_height(mined_height: u64, confirmation_window: u64) -> (r: u64)
    ensures
        r == confirmation_tip(mined_height, confirmation_window),
{
    let more: u64 = if confirmation_window == 0 {
        0
    } else {
        confirmation_window - 1
    };
    mined_height.saturating_add(more)
}

/// A transaction with a window of `n` confirmations is confirmed from the tip on that is `n - 1`
/// blocks above the block that holds it.
pub proof fn the_block_itself_is_a_confirmation(mined_height: u64, confirmation_window: u64, tip: u64)
    requires
        mined_height + confirmation_window <= u64::MAX,
        confirmation_window > 0,
    ensures
        tip >= confirmation_tip(mined_height, confirmation_window) <==> tip - mined_height + 1
            >= confirmation_window,
{
}

/// What a wait for the chain tip does next.
#[derive(PartialEq, Eq, Debug)]
pub enum TipWait {
    Reached,
    Wait,
    Overdue(String),
}

/// Decides how a wait for a tip height goes on, given the current height.
pub fn wait_for_tip_height(current_tip: u64, expected_tip: u64, elapsed_ns: u64, timeout_secs: u64) -> (r: TipWait)
    ensures
        match r {
            TipWait::Reached => current_tip >= expected_tip,
            TipWait::Wait => current_tip < expected_tip && !past(elapsed_ns, timeout_secs),
            TipWait::Overdue(message) => current_tip < expected_tip && past(
                elapsed_ns,
                timeout_secs,
            ) && message@ == "tip height did not reach "@ + decimal(expected_tip as nat)
                + " before timeout"@,
        },
{
    if current_tip >= expected_tip {
        TipWait::Reached
    } else if past_deadline(elapsed_ns, timeout_secs) {
        TipWait::Overdue(
            "tip height did not reach ".to_owned().concat(
                decimal_text(expected_tip).as_str(),
            ).concat(" before timeout"),
        )
    } else {
        TipWait::Wait
    }
}

/// A deadline is over once more than its seconds have gone by, not at its last moment; what is over stays
/// over, and a longer deadline is over no earlier.
pub proof fn deadlines_last_their_seconds(elapsed_ns: u64, secs: u64, later_ns: u64, more_secs: u64, r: bool, later: bool, longer: bool)
    requires
        elapsed_ns <= later_ns,
        secs <= more_secs,
        call_ensures(past_deadline, (elapsed_ns, secs), r),
        call_ensures(past_deadline, (later_ns, secs), later),
        call_ensures(past_deadline, (elapsed_ns, more_secs), longer),
    ensures
        r <==> elapsed_ns - secs * 1_000_000_000 >= 1,
        r ==> later,
        longer ==> r,
{
}

/// The metrics of a transaction that went through tell its id, its fee and its times, each in its place.
pub proof fn successes_are_measured_as_they_went(tx_id: String, ns: (u64, u64, u64), fee_paid: u64, r: TxMetrics)
    requires
        call_ensures(sent_metrics, (tx_id, ns.0, ns.1, ns.2, fee_paid), r),
    ensures
        r.success,
        r.error is None,
        r.tx_id@ == tx_id@,
        r.fee_paid == fee_paid,
        r.construction_ns == ns.0,
        r.broadcast_to_mempool_ns == ns.1,
        r.broadcast_to_confirmed_ns == ns.2,
{
    assert(r@.error is None);
}

/// Funding that is seen through the balance has arrived if and only if the balance is not below the
/// expected amount: what is enough once is enough with every larger balance. It costs the wallet
/// nothing, and was seen and confirmed at the same moment.
pub proof fn a_larger_balance_is_funded_too(
    expected: u64,
    available: u64,
    more: u64,
    elapsed_ns: u64,
    r: Option<TxMetrics>,
    better: Option<TxMetrics>,
)
    requires
        available <= more,
        call_ensures(funding_in_balance, (expected, available, elapsed_ns), r),
        call_ensures(funding_in_balance, (expected, more, elapsed_ns), better),
    ensures
        r is None <==> available < expected,
        r is Some ==> better is Some,
        r matches Some(tx) ==> {
            &&& tx.success && tx.error is None
            &&& tx.tx_id@ == "incoming-funding"@
            &&& tx.fee_paid == 0 && tx.construction_ns == 0
            &&& tx.broadcast_to_mempool_ns == elapsed_ns
            &&& tx.broadcast_to_confirmed_ns == elapsed_ns
        },
{
    if let Some(tx) = r {
        assert(tx@.error is None);
    }
}

/// A watch for funding is overdue once ten minutes are over, and says then what it has waited for.
pub proof fn funding_is_watched_for_ten_minutes(expected: u64, elapsed_ns: u64, r: Option<String>)
    requires
        call_ensures(funding_overdue, (expected, elapsed_ns), r),
    ensures
        r is Some <==> elapsed_ns > 600_000_000_000,
        r matches Some(message) ==> message@ == "incoming funding of at least "@ + decimal(
            expected as nat,
        ) + " uT was not observed within 600s"@,
{
}

/// A transaction that is mined at a height has the confirmations of a window from the tip on at which the
/// blocks from its own up to the tip are as many as the window, its own block being the first. A
/// window of zero asks for no more than one of one does.
pub proof fn windows_count_the_block_itself(mined_height: u64, window: u64, r: u64)
    requires
        call_ensures(confirmation_height, (mined_height, window), r),
        mined_height + window <= u64::MAX,
    ensures
        window > 0 ==> r - mined_height + 1 == window,
        window == 0 ==> r == mined_height,
{
}

/// A wait for a tip ends with the tip once it is as high as expected, also if it is late; before that it
/// goes on within its time and is overdue after it.
pub proof fn tips_are_waited_for(current: u64, expected: u64, elapsed_ns: u64, timeout_secs: u64, r: TipWait)
    requires
        call_ensures(wait_for_tip_height, (current, expected, elapsed_ns, timeout_secs), r),
    ensures
        r is Reached <==> !(current < expected),
        r is Overdue <==> current < expected && elapsed_ns > timeout_secs * 1_000_000_000,
        r is Wait <==> current < expected && elapsed_ns <= timeout_secs * 1_000_000_000,
{
}

} // verus!
