//! The conversation between a scenario and a wallet: what a scenario asks of the wallet driver,
//! and what the driver replies.

use vstd::prelude::*;

use crate::metrics::{ScanMetrics, TxMetrics, TxView};

verus! {

/// One request to the wallet driver.
#[derive(PartialEq, Eq, Debug)]
pub enum Call {
    /// Spendable balance in µT.
    GetBalance,
    /// Height of the chain tip.
    GetTipHeight,
    /// The wallet's own address.
    GetSelfAddress,
    /// Wait for an incoming funding transaction.
    ObserveFunding { expected_amount_ut: u64 },
    ScanFromGenesis,
    ScanFromBirthday { height: u64 },
    /// One transaction to one recipient.
    SendSingle { to_address: String, amount_ut: u64, fee_rate: u64 },
    /// One transaction to many recipients.
    SendBatch { recipients: Vec<(String, u64)>, fee_rate: u64 },
    /// `count` single sends at once, each with its own time budget.
    SendConcurrent {
        count: u64,
        to_address: String,
        amount_ut: u64,
        fee_rate: u64,
        timeout_secs: u64,
    },
    /// Wipe the wallet data.
    Reset,
    /// Wait until no transaction is pending.
    AwaitPending { timeout_secs: u64 },
}

/// How one of several concurrent sends ended.
#[derive(PartialEq, Eq, Debug)]
pub enum SendOutcome {
    Sent(TxMetrics),
    Failed(String),
    TimedOut,
}

/// The driver's reply to a call.
#[derive(PartialEq, Eq, Debug)]
pub enum Reply {
    /// A balance or a height.
    Number(Result<u64, String>),
    Address(Result<String, String>),
    Scan(Result<ScanMetrics, String>),
    /// A transaction, with the time that the call took.
    Tx { outcome: Result<TxMetrics, String>, call_ns: u64 },
    /// The outcomes of concurrent sends.
    Txs(Vec<SendOutcome>),
    Done(Result<(), String>),
}

pub enum CallView {
    GetBalance,
    GetTipHeight,
    GetSelfAddress,
    ObserveFunding { expected_amount_ut: u64 },
    ScanFromGenesis,
    ScanFromBirthday { height: u64 },
    SendSingle { to_address: Seq<char>, amount_ut: u64, fee_rate: u64 },
    SendBatch { recipients: Seq<(Seq<char>, u64)>, fee_rate: u64 },
    SendConcurrent {
        count: u64,
        to_address: Seq<char>,
        amount_ut: u64,
        fee_rate: u64,
        timeout_secs: u64,
    },
    Reset,
    AwaitPending { timeout_secs: u64 },
}

pub enum OutcomeView {
    Sent(TxView),
    Failed(Seq<char>),
    TimedOut,
}

pub enum ReplyView {
    Number(Result<u64, Seq<char>>),
    Address(Result<Seq<char>, Seq<char>>),
    Scan(Result<ScanMetrics, Seq<char>>),
    Tx { outcome: Result<TxView, Seq<char>>, call_ns: u64 },
    Txs(Seq<OutcomeView>),
    Done(Result<(), Seq<char>>),
}

/// Recipients, each by the characters of its address.
pub open spec fn recipient_views(recipients: Seq<(String, u64)>) -> Seq<(Seq<char>, u64)> {
    Seq::new(recipients.len(), |i: int| (recipients[i].0@, recipients[i].1))
}

/// Outcomes, each by its view.
pub open spec fn outcome_views(outcomes: Seq<SendOutcome>) -> Seq<OutcomeView> {
    Seq::new(outcomes.len(), |i: int| outcomes[i]@)
}

/// A result whose error is a text, by the characters of the text.
pub open spec fn result_view<T>(result: Result<T, String>) -> Result<T, Seq<char>> {
    match result {
        Ok(value) => Ok(value),
        Err(message) => Err(message@),
    }
}

/// A transaction or the text of an error, by their views.
pub open spec fn tx_result_view(result: Result<TxMetrics, String>) -> Result<TxView, Seq<char>> {
    match result {
        Ok(tx) => Ok(tx@),
        Err(message) => Err(message@),
    }
}

/// A text or the text of an error, by their characters.
pub open spec fn text_result_view(result: Result<String, String>) -> Result<Seq<char>, Seq<char>> {
    match result {
        Ok(text) => Ok(text@),
        Err(message) => Err(message@),
    }
}

impl View for Call {
    type V = CallView;

    open spec fn view(&self) -> CallView {
        match *self {
            Call::GetBalance => CallView::GetBalance,
            Call::GetTipHeight => CallView::GetTipHeight,
            Call::GetSelfAddress => CallView::GetSelfAddress,
            Call::ObserveFunding { expected_amount_ut } => CallView::ObserveFunding {
                expected_amount_ut,
            },
            Call::ScanFromGenesis => CallView::ScanFromGenesis,
            Call::ScanFromBirthday { height } => CallView::ScanFromBirthday { height },
            Call::SendSingle { to_address, amount_ut, fee_rate } => CallView::SendSingle {
                to_address: to_address@,
                amount_ut,
                fee_rate,
            },
            Call::SendBatch { recipients, fee_rate } => CallView::SendBatch {
                recipients: recipient_views(recipients@),
                fee_rate,
            },
            Call::SendConcurrent { count, to_address, amount_ut, fee_rate, timeout_secs } =>
                CallView::SendConcurrent {
                    count,
                    to_address: to_address@,
                    amount_ut,
                    fee_rate,
                    timeout_secs,
                },
            Call::Reset => CallView::Reset,
            Call::AwaitPending { timeout_secs } => CallView::AwaitPending { timeout_secs },
        }
    }
}

impl View for SendOutcome {
    type V = OutcomeView;

    open spec fn view(&self) -> OutcomeView {
        match *self {
            SendOutcome::Sent(tx) => OutcomeView::Sent(tx@),
            SendOutcome::Failed(message) => OutcomeView::Failed(message@),
            SendOutcome::TimedOut => OutcomeView::TimedOut,
        }
    }
}

impl View for Reply {
    type V = ReplyView;

    open spec fn view(&self) -> ReplyView {
        match *self {
            Reply::Number(n) => ReplyView::Number(result_view(n)),
            Reply::Address(a) => ReplyView::Address(text_result_view(a)),
            Reply::Scan(s) => ReplyView::Scan(result_view(s)),
            Reply::Tx { outcome, call_ns } => ReplyView::Tx {
                outcome: tx_result_view(outcome),
                call_ns,
            },
            Reply::Txs(outcomes) => ReplyView::Txs(outcome_views(outcomes@)),
            Reply::Done(d) => ReplyView::Done(result_view(d)),
        }
    }
}

impl ReplyView {
    /// The reply is of the kind that the call asks for.
    pub open spec fn answers(self, call: CallView) -> bool {
        match call {
            CallView::GetBalance | CallView::GetTipHeight => self is Number,
            CallView::GetSelfAddress => self is Address,
            CallView::ScanFromGenesis | CallView::ScanFromBirthday { .. } => self is Scan,
            CallView::ObserveFunding { .. } | CallView::SendSingle { .. } | CallView::SendBatch {
                ..
            } => self is Tx,
            CallView::SendConcurrent { count, .. } => self matches ReplyView::Txs(outcomes)
                && outcomes.len() == count,
            CallView::Reset | CallView::AwaitPending { .. } => self is Done,
        }
    }
}

impl Reply {
    /// Tells whether the reply is of the kind that the call asks for.
    pub fn answers(&self, call: &Call) -> (r: bool)
        ensures
            r == self@.answers(call@),
    {
        match call {
            Call::GetBalance | Call::GetTipHeight => matches!(self, Reply::Number(_)),
            Call::GetSelfAddress => matches!(self, Reply::Address(_)),
            Call::ScanFromGenesis | Call::ScanFromBirthday { .. } => matches!(self, Reply::Scan(_)),
            Call::ObserveFunding { .. } | Call::SendSingle { .. } | Call::SendBatch { .. } => {
                matches!(self, Reply::Tx { .. })
            },
            Call::SendConcurrent { count, .. } => match self {
                Reply::Txs(outcomes) => outcomes.len() as u64 == *count,
                _ => false,
            },
            Call::Reset | Call::AwaitPending { .. } => matches!(self, Reply::Done(_)),
        }
    }
}

/// Calls and replies are seen as they are: what a call asks for and what a reply brings is told without
/// anything added, dropped or mixed up.
pub proof fn calls_and_replies_tell_what_is_there(call: Call, reply: Reply)
    ensures
        match call {
            Call::GetBalance => call@ is GetBalance,
            Call::GetTipHeight => call@ is GetTipHeight,
            Call::GetSelfAddress => call@ is GetSelfAddress,
            Call::ObserveFunding { expected_amount_ut } => call@ matches CallView::ObserveFunding {
                expected_amount_ut: amount,
            } && amount == expected_amount_ut,
            Call::ScanFromGenesis => call@ is ScanFromGenesis,
            Call::ScanFromBirthday { height } => call@ matches CallView::ScanFromBirthday {
                height: from,
            } && from == height,
            Call::SendSingle { to_address, amount_ut, fee_rate } => call@
                matches CallView::SendSingle { to_address: to, amount_ut: amount, fee_rate: rate }
                && to == to_address@ && amount == amount_ut && rate == fee_rate,
            Call::SendBatch { recipients, fee_rate } => call@ matches CallView::SendBatch {
                recipients: to,
                fee_rate: rate,
            } && rate == fee_rate && to.len() == recipients@.len() && forall|i: int|
                0 <= i < to.len() ==> (#[trigger] to[i]).0 == recipients@[i].0@ && to[i].1
                    == recipients@[i].1,
            Call::SendConcurrent { count, to_address, amount_ut, fee_rate, timeout_secs } => call@
                matches CallView::SendConcurrent {
                count: n,
                to_address: to,
                amount_ut: amount,
                fee_rate: rate,
                timeout_secs: budget,
            } && n == count && to == to_address@ && amount == amount_ut && rate == fee_rate
                && budget == timeout_secs,
            Call::Reset => call@ is Reset,
            Call::AwaitPending { timeout_secs } => call@ matches CallView::AwaitPending {
                timeout_secs: budget,
            } && budget == timeout_secs,
        },
        match reply {
            Reply::Number(Ok(n)) => reply@ matches ReplyView::Number(Ok(m)) && m == n,
            Reply::Number(Err(e)) => reply@ matches ReplyView::Number(Err(m)) && m == e@,
            Reply::Address(Ok(a)) => reply@ matches ReplyView::Address(Ok(b)) && b == a@,
            Reply::Address(Err(e)) => reply@ matches ReplyView::Address(Err(m)) && m == e@,
            Reply::Scan(Ok(s)) => reply@ matches ReplyView::Scan(Ok(t)) && t == s,
            Reply::Scan(Err(e)) => reply@ matches ReplyView::Scan(Err(m)) && m == e@,
            Reply::Tx { outcome, call_ns } => reply@ matches ReplyView::Tx {
                outcome: seen,
                call_ns: ns,
            } && ns == call_ns && match outcome {
                Ok(tx) => seen matches Ok(view) && view == tx@,
                Err(e) => seen matches Err(m) && m == e@,
            },
            Reply::Txs(outcomes) => reply@ matches ReplyView::Txs(seen) && seen.len()
                == outcomes@.len() && forall|i: int|
                0 <= i < seen.len() ==> match outcomes@[i] {
                    SendOutcome::Sent(tx) => #[trigger] seen[i] == OutcomeView::Sent(tx@),
                    SendOutcome::Failed(e) => seen[i] == OutcomeView::Failed(e@),
                    SendOutcome::TimedOut => seen[i] is TimedOut,
                },
            Reply::Done(Ok(())) => reply@ matches ReplyView::Done(Ok(_)),
            Reply::Done(Err(e)) => reply@ matches ReplyView::Done(Err(m)) && m == e@,
        },
{
}

/// A reply answers a call if it brings what the call asks for: a number for a balance or a height, an
/// address, a scan, a transaction, the end of a preparation, and for a burst one outcome for each of
/// its sends.
pub proof fn replies_answer_what_was_asked(reply: Reply, call: Call, r: bool)
    requires
        call_ensures(Reply::answers, (&reply, &call), r),
    ensures
        r ==> (reply is Number <==> call is GetBalance || call is GetTipHeight),
        r ==> (reply is Address <==> call is GetSelfAddress),
        r ==> (reply is Scan <==> call is ScanFromGenesis || call is ScanFromBirthday),
        r ==> (reply is Tx <==> call is ObserveFunding || call is SendSingle || call is SendBatch),
        r ==> (reply is Txs <==> call is SendConcurrent),
        r ==> (reply is Done <==> call is Reset || call is AwaitPending),
        (reply matches Reply::Txs(outcomes) && call matches Call::SendConcurrent { count, .. }) ==> (
        r <==> reply->Txs_0@.len() == call->SendConcurrent_count),
        reply is Number && (call is GetBalance || call is GetTipHeight) ==> r,
        reply is Address && call is GetSelfAddress ==> r,
        reply is Scan && (call is ScanFromGenesis || call is ScanFromBirthday) ==> r,
        reply is Tx && (call is ObserveFunding || call is SendSingle || call is SendBatch) ==> r,
        reply is Done && (call is Reset || call is AwaitPending) ==> r,
{
}

} // verus!
