//! The console wallet, a process of its own that is driven over gRPC.

use vstd::prelude::*;

use crate::driver::{result_view, text_result_view};
use crate::drivers::new_wallet::between;
use crate::drivers::polling::{
    confirmation_height, confirmation_tip, past, past_deadline, sent, sent_metrics,
};
use crate::drivers::shared::{is_reborn, rebirthed, seed_words_with_birthday};
use crate::drivers::usage::{peak_of, Usage};
use crate::metrics::{text_view, ScanMetrics, TxMetrics};
use crate::text::{decimal, decimal_text, texts};

verus! {

/// Seconds within which a scan has to reach its target.
pub const SCAN_SECS: u64 = 1800;

/// Seconds within which a transaction has to be confirmed.
pub const CONFIRMATION_SECS: u64 = 600;

/// Milliseconds between two looks at a starting process.
pub const START_PAUSE_MS: u64 = 500;

/// Milliseconds that a process has to hand over its error output after it has ended.
pub const SETTLE_MS: u64 = 100;

/// Attempts to wipe the data directory.
pub const WIPE_ATTEMPTS: u64 = 20;

/// The error code of a file that another process holds, on Windows.
pub const SHARING_VIOLATION: i32 = 32;

/// The address under which the wallet's gRPC server is reached.
pub fn grpc_url(grpc_port: u16) -> (r: String)
    ensures
        r@ == "http://127.0.0.1:"@ + decimal(grpc_port as nat),
{
    "http://127.0.0.1:".to_owned().concat(decimal_text(grpc_port as u64).as_str())
}

/// Arguments of the wallet process.
pub fn start_args(grpc_port: u16, password: &str, seed_words: &str, data_dir: &str) -> (r: Vec<String>)
    ensures
        texts(r@) == seq![
            "--grpc-enabled"@,
            "--grpc-address"@,
            "/ip4/127.0.0.1/tcp/"@ + decimal(grpc_port as nat),
            "--password"@,
            password@,
            "--seed-words"@,
            seed_words@,
            "--base-path="@ + data_dir@,
            "--non-interactive-mode"@,
        ],
{
    let mut args: Vec<String> = Vec::new();
    args.push("--grpc-enabled".to_owned());
    args.push("--grpc-address".to_owned());
    args.push("/ip4/127.0.0.1/tcp/".to_owned().concat(decimal_text(grpc_port as u64).as_str()));
    args.push("--password".to_owned());
    args.push(password.to_owned());
    args.push("--seed-words".to_owned());
    args.push(seed_words.to_owned());
    args.push("--base-path=".to_owned().concat(data_dir));
    args.push("--non-interactive-mode".to_owned());
    proof {
        assert(texts(args@) =~= seq![
            "--grpc-enabled"@,
            "--grpc-address"@,
            "/ip4/127.0.0.1/tcp/"@ + decimal(grpc_port as nat),
            "--password"@,
            password@,
            "--seed-words"@,
            seed_words@,
            "--base-path="@ + data_dir@,
            "--non-interactive-mode"@,
        ]);
    }
    args
}

/// The wallet process, as far as it can be told.
#[derive(PartialEq, Eq, Debug)]
pub enum ProcessState {
    Running,
    /// It has ended, with the given status.
    Exited(String),
    /// Its state cannot be told, for the given reason.
    Unknown(String),
}

/// A message with the error output of the process, if there is any.
pub open spec fn with_stderr(message: Seq<char>, stderr: Seq<char>) -> Seq<char> {
    if stderr.len() > 0 {
        message + ". stderr:\n"@ + stderr
    } else {
        message
    }
}

fn add_stderr(message: String, stderr: &str) -> (r: String)
    ensures
        r@ == with_stderr(message@, stderr@),
{
    if stderr.is_empty() {
        message
    } else {
        message.concat(". stderr:\n").concat(stderr)
    }
}

/// Where the start of the wallet process stands: what has to be done next.
#[derive(PartialEq, Eq, Debug)]
pub enum StartStage {
    /// Spawn the process.
    Spawn,
    /// Look whether the process is still running.
    Look,
    /// Connect to the port of its gRPC server.
    Connect,
    /// Wait before looking again.
    Pause,
    /// Give the process that has ended with the given status time to hand over its error output.
    Settle { status: String },
    /// End the process, which has taken too long.
    Kill,
    /// The process is up and to be kept.
    Ready,
    /// There is no process to be kept.
    Failed(String),
}

pub enum StartStageView {
    Spawn,
    Look,
    Connect,
    Pause,
    Settle { status: Seq<char> },
    Kill,
    Ready,
    Failed(Seq<char>),
}

impl View for StartStage {
    type V = StartStageView;

    open spec fn view(&self) -> StartStageView {
        match *self {
            StartStage::Spawn => StartStageView::Spawn,
            StartStage::Look => StartStageView::Look,
            StartStage::Connect => StartStageView::Connect,
            StartStage::Pause => StartStageView::Pause,
            StartStage::Settle { status } => StartStageView::Settle { status: status@ },
            StartStage::Kill => StartStageView::Kill,
            StartStage::Ready => StartStageView::Ready,
            StartStage::Failed(error) => StartStageView::Failed(error@),
        }
    }
}

/// What came of the last step of a start.
#[derive(PartialEq, Eq, Debug)]
pub enum StartEvent {
    Spawned(Result<(), String>),
    Found(ProcessState),
    /// Whether the port took the connection.
    Connected(bool),
    Paused,
    /// The process has ended, with the given error output.
    Ended { stderr: String },
}

impl StartStageView {
    /// The event is one that the stage waits for.
    pub open spec fn awaits(self, event: StartEvent) -> bool {
        match self {
            StartStageView::Spawn => event is Spawned,
            StartStageView::Look => event is Found,
            StartStageView::Connect => event is Connected,
            StartStageView::Pause => event is Paused,
            StartStageView::Settle { .. } | StartStageView::Kill => event is Ended,
            StartStageView::Ready | StartStageView::Failed(_) => false,
        }
    }

    /// The stage of a process that has been starting for `now_ns` and is not up yet.
    pub open spec fn starting(timeout_secs: u64, now_ns: u64) -> StartStageView {
        if past(now_ns, timeout_secs) {
            StartStageView::Kill
        } else {
            StartStageView::Look
        }
    }

    /// The start after an event, `now_ns` after the process was spawned.
    ///
    /// The process is ready once its port takes a connection. As long as it does not, the process is
    /// looked at from time to time: it fails if it has ended or if its state cannot be told. After
    /// the timeout it is ended, and fails.
    pub open spec fn after(self, timeout_secs: u64, event: StartEvent, now_ns: u64) -> StartStageView {
        match (self, event) {
            (StartStageView::Spawn, StartEvent::Spawned(Err(reason))) => StartStageView::Failed(
                "failed to spawn wallet process: "@ + reason@,
            ),
            (StartStageView::Spawn, StartEvent::Spawned(Ok(()))) => Self::starting(
                timeout_secs,
                now_ns,
            ),
            (StartStageView::Look, StartEvent::Found(ProcessState::Running)) => StartStageView::Connect,
            (StartStageView::Look, StartEvent::Found(ProcessState::Exited(status))) =>
            StartStageView::Settle { status: status@ },
            (StartStageView::Look, StartEvent::Found(ProcessState::Unknown(reason))) =>
            StartStageView::Failed("failed to check wallet process status: "@ + reason@),
            (StartStageView::Connect, StartEvent::Connected(accepted)) => if accepted {
                StartStageView::Ready
            } else {
                StartStageView::Pause
            },
            (StartStageView::Pause, StartEvent::Paused) => Self::starting(timeout_secs, now_ns),
            (StartStageView::Settle { status }, StartEvent::Ended { stderr }) => StartStageView::Failed(
                with_stderr("wallet process exited early with "@ + status, stderr@),
            ),
            (StartStageView::Kill, StartEvent::Ended { stderr }) => StartStageView::Failed(
                with_stderr(
                    "wallet gRPC did not become ready within "@ + decimal(timeout_secs as nat)
                        + "s"@,
                    stderr@,
                ),
            ),
            _ => self,
        }
    }
}

impl StartStage {
    /// The stage of a process that has been starting for `now_ns` and is not up yet.
    fn starting(timeout_secs: u64, now_ns: u64) -> (r: StartStage)
        ensures
            r@ == StartStageView::starting(timeout_secs, now_ns),
    {
        if past_deadline(now_ns, timeout_secs) {
            StartStage::Kill
        } else {
            StartStage::Look
        }
    }

    /// Goes on after an event, `now_ns` after the process was spawned.
    pub fn resume(self, timeout_secs: u64, event: StartEvent, now_ns: u64) -> (r: StartStage)
        requires
            self@.awaits(event),
        ensures
            r@ == self@.after(timeout_secs, event, now_ns),
    {
        match event {
            StartEvent::Spawned(Err(reason)) => StartStage::Failed(
                "failed to spawn wallet process: ".to_owned().concat(reason.as_str()),
            ),
            StartEvent::Spawned(Ok(())) => Self::starting(timeout_secs, now_ns),
            StartEvent::Found(ProcessState::Running) => StartStage::Connect,
            StartEvent::Found(ProcessState::Exited(status)) => StartStage::Settle { status },
            StartEvent::Found(ProcessState::Unknown(reason)) => StartStage::Failed(
                "failed to check wallet process status: ".to_owned().concat(reason.as_str()),
            ),
            StartEvent::Connected(accepted) => {
                if accepted {
                    StartStage::Ready
                } else {
                    StartStage::Pause
                }
            },
            StartEvent::Paused => Self::starting(timeout_secs, now_ns),
            StartEvent::Ended { stderr } => {
                let message = match self {
                    StartStage::Settle { status } => "wallet process exited early with ".to_owned().concat(
                        status.as_str(),
                    ),
                    _ => "wallet gRPC did not become ready within ".to_owned().concat(
                        decimal_text(timeout_secs).as_str(),
                    ).concat("s"),
                };
                StartStage::Failed(add_stderr(message, stderr.as_str()))
            },
        }
    }
}

/// A start is ready only through a connection that was taken, and a connection is tried only by a
/// process that was found running. A process is looked at in time only: after the timeout it is
/// ended. One that was ended, or has ended, never becomes ready.
pub proof fn starts_are_real(stage: StartStageView, timeout_secs: u64, event: StartEvent, now_ns: u64)
    requires
        stage.awaits(event),
    ensures
        ({
            let after = stage.after(timeout_secs, event, now_ns);
            let under_way = stage is Pause || stage is Spawn && event->Spawned_0 is Ok;
            &&& after is Ready == (stage is Connect && event == StartEvent::Connected(true))
            &&& after is Connect == (stage is Look && event->Found_0 is Running)
            &&& after is Look == (under_way && !past(now_ns, timeout_secs))
            &&& after is Kill == (under_way && past(now_ns, timeout_secs))
            &&& stage is Kill || stage is Settle ==> after is Failed
        }),
{
}

/// The address that the wallet goes by: its one-sided one or, if that is missing, its interactive
/// one.
pub fn choose_address(one_sided: String, interactive: String) -> (r: Result<String, String>)
    ensures
        text_result_view(r) == if one_sided@.len() > 0 {
            Ok(one_sided@)
        } else if interactive@.len() > 0 {
            Ok(interactive@)
        } else {
            Err("wallet returned no printable address"@)
        },
{
    if !one_sided.as_str().is_empty() {
        Ok(one_sided)
    } else if !interactive.as_str().is_empty() {
        Ok(interactive)
    } else {
        Err("wallet returned no printable address".to_owned())
    }
}

/// The sum of numbers.
pub open spec fn total(counts: Seq<u64>) -> nat
    decreases counts.len(),
{
    if counts.len() == 0 {
        0
    } else {
        total(counts.drop_last()) + counts.last() as nat
    }
}

/// The outputs in all buckets of a coin histogram together, modulo 2^64.
pub fn utxo_count(bucket_counts: &Vec<u64>) -> (r: u64)
    ensures
        r as nat == total(bucket_counts@) % 0x1_0000_0000_0000_0000,
{
    let mut sum: u64 = 0;
    let mut i: usize = 0;
    while i < bucket_counts.len()
        invariant
            i <= bucket_counts.len(),
            sum as nat == total(bucket_counts@.take(i as int)) % 0x1_0000_0000_0000_0000,
        decreases bucket_counts.len() - i,
    {
        proof {
            let next = bucket_counts@.take(i + 1);
            assert(next.drop_last() =~= bucket_counts@.take(i as int));
            assert(next.last() == bucket_counts@[i as int]);
        }
        sum = sum.wrapping_add(bucket_counts[i]);
        i = i + 1;
    }
    proof {
        assert(bucket_counts@.take(bucket_counts@.len() as int) =~= bucket_counts@);
    }
    sum
}

/// The wallet's seed words with another birthday.
pub fn set_seed_birthday(seed_words: &str, birthday_days: u64) -> (r: Result<String, String>)
    ensures
        text_result_view(r) == rebirthed(seed_words@, birthday_days),
        r matches Ok(phrase) ==> is_reborn(phrase@, seed_words@, birthday_days),
{
    seed_words_with_birthday(seed_words, birthday_days)
}

/// The height from which the wallet is told to rescan: never zero, which the wallet does not
/// understand as genesis.
pub open spec fn rescan_start(from_height: Option<u64>) -> u64 {
    match from_height {
        Some(height) => if height > 0 {
            height
        } else {
            1
        },
        None => 1,
    }
}

/// The height from which the wallet is told to rescan.
pub fn rescan_height(from_height: Option<u64>) -> (r: u64)
    ensures
        r == rescan_start(from_height),
        r > 0,
{
    match from_height {
        Some(height) if height > 0 => height,
        _ => 1,
    }
}

/// How far a scan has got, and what the wallet process uses, if it was found.
#[derive(Clone, Copy, PartialEq, Eq, Structural, Debug)]
pub struct Progress {
    pub usage: Option<Usage>,
    pub scanned_height: u64,
    pub tip_height: u64,
}

/// A rescan of the wallet from which progress is read.
#[derive(Clone, Copy, PartialEq, Eq, Structural, Debug)]
pub struct Rescan {
    /// The tip before the scan, which it has to reach.
    pub target_tip: u64,
    pub from_height: Option<u64>,
    /// When the wallet was told to rescan.
    pub since_ns: u64,
    pub peak: Usage,
    pub h_tip_end: u64,
}

impl Rescan {
    /// The rescan with a progress report taken into account.
    pub open spec fn seen(self, progress: Progress) -> Rescan {
        Rescan {
            peak: self.peak.raised(progress.usage),
            h_tip_end: progress.tip_height,
            ..self
        }
    }

    /// The metrics of the finished scan.
    pub open spec fn result(self, wall_clock_ns: u64, outputs_found: u64) -> ScanMetrics {
        let from: u64 = match self.from_height {
            Some(height) => height,
            None => 0,
        };
        ScanMetrics {
            wall_clock_ns,
            blocks_scanned: if self.target_tip >= from {
                (self.target_tip - from) as u64
            } else {
                0
            },
            h_tip_start: self.target_tip,
            h_tip_end: self.h_tip_end,
            outputs_found,
            peak_rss_kb: self.peak.memory_bytes / 1024,
            peak_cpu_bits: self.peak.cpu_bits,
        }
    }

    /// Takes a progress report into account.
    pub fn see(self, progress: Progress) -> (r: Rescan)
        ensures
            r == self.seen(progress),
    {
        let mut rescan = self;
        rescan.peak = rescan.peak.with(progress.usage);
        rescan.h_tip_end = progress.tip_height;
        rescan
    }

    /// The metrics of the finished scan.
    pub fn metrics(self, wall_clock_ns: u64, outputs_found: u64) -> (r: ScanMetrics)
        ensures
            r == self.result(wall_clock_ns, outputs_found),
    {
        let from: u64 = match self.from_height {
            Some(height) => height,
            None => 0,
        };
        ScanMetrics {
            wall_clock_ns,
            blocks_scanned: self.target_tip.saturating_sub(from),
            h_tip_start: self.target_tip,
            h_tip_end: self.h_tip_end,
            outputs_found,
            peak_rss_kb: self.peak.memory_bytes / 1024,
            peak_cpu_bits: self.peak.cpu_bits,
        }
    }
}

/// Where a scan stands: what has to be done next.
#[derive(PartialEq, Eq, Debug)]
pub enum ScanStage {
    /// Stop the wallet process.
    Stop,
    /// Wipe the data directory.
    Wipe,
    /// Give the seed words the birthday of the scan.
    SetBirthday,
    /// Read the tip of the chain.
    ReadTip,
    /// Start the wallet process.
    Start { target_tip: u64 },
    /// Tell the wallet to rescan.
    Rescan { target_tip: u64 },
    /// Read how far the scan has got.
    Watch { rescan: Rescan },
    /// Wait before the next look.
    Pause { rescan: Rescan },
    /// Count the outputs that the scan has found.
    Count { rescan: Rescan, wall_clock_ns: u64 },
    Finished(ScanMetrics),
    Failed(String),
}

pub enum ScanStageView {
    Stop,
    Wipe,
    SetBirthday,
    ReadTip,
    Start { target_tip: u64 },
    Rescan { target_tip: u64 },
    Watch { rescan: Rescan },
    Pause { rescan: Rescan },
    Count { rescan: Rescan, wall_clock_ns: u64 },
    Finished(ScanMetrics),
    Failed(Seq<char>),
}

impl View for ScanStage {
    type V = ScanStageView;

    open spec fn view(&self) -> ScanStageView {
        match *self {
            ScanStage::Stop => ScanStageView::Stop,
            ScanStage::Wipe => ScanStageView::Wipe,
            ScanStage::SetBirthday => ScanStageView::SetBirthday,
            ScanStage::ReadTip => ScanStageView::ReadTip,
            ScanStage::Start { target_tip } => ScanStageView::Start { target_tip },
            ScanStage::Rescan { target_tip } => ScanStageView::Rescan { target_tip },
            ScanStage::Watch { rescan } => ScanStageView::Watch { rescan },
            ScanStage::Pause { rescan } => ScanStageView::Pause { rescan },
            ScanStage::Count { rescan, wall_clock_ns } => ScanStageView::Count {
                rescan,
                wall_clock_ns,
            },
            ScanStage::Finished(metrics) => ScanStageView::Finished(metrics),
            ScanStage::Failed(error) => ScanStageView::Failed(error@),
        }
    }
}

/// What came of the last step of a scan.
#[derive(PartialEq, Eq, Debug)]
pub enum ScanEvent {
    Done(Result<(), String>),
    /// A height or a count was read.
    Read(Result<u64, String>),
    /// The wallet was told to rescan; the process is running, or not.
    Rescanning(Result<bool, String>),
    Progressed(Result<Progress, String>),
}

pub enum ScanEventView {
    Done(Result<(), Seq<char>>),
    Read(Result<u64, Seq<char>>),
    Rescanning(Result<bool, Seq<char>>),
    Progressed(Result<Progress, Seq<char>>),
}

impl View for ScanEvent {
    type V = ScanEventView;

    open spec fn view(&self) -> ScanEventView {
        match *self {
            ScanEvent::Done(r) => ScanEventView::Done(result_view(r)),
            ScanEvent::Read(r) => ScanEventView::Read(result_view(r)),
            ScanEvent::Rescanning(r) => ScanEventView::Rescanning(result_view(r)),
            ScanEvent::Progressed(r) => ScanEventView::Progressed(result_view(r)),
        }
    }
}

impl ScanStageView {
    /// The event is one that the stage waits for.
    pub open spec fn awaits(self, event: ScanEventView) -> bool {
        match self {
            ScanStageView::Stop | ScanStageView::Wipe | ScanStageView::SetBirthday
            | ScanStageView::Start { .. } | ScanStageView::Pause { .. } => event is Done,
            ScanStageView::ReadTip | ScanStageView::Count { .. } => event is Read,
            ScanStageView::Rescan { .. } => event is Rescanning,
            ScanStageView::Watch { .. } => event is Progressed,
            ScanStageView::Finished(_) | ScanStageView::Failed(_) => false,
        }
    }

    /// The scan after an event, `now_ns` into it. Every error ends it.
    pub open spec fn after(self, from_height: Option<u64>, event: ScanEventView, now_ns: u64) -> ScanStageView {
        match (self, event) {
            (_, ScanEventView::Done(Err(error))) => ScanStageView::Failed(error),
            (_, ScanEventView::Read(Err(error))) => ScanStageView::Failed(error),
            (_, ScanEventView::Rescanning(Err(error))) => ScanStageView::Failed(error),
            (_, ScanEventView::Progressed(Err(error))) => ScanStageView::Failed(error),
            (ScanStageView::Stop, _) => ScanStageView::Wipe,
            (ScanStageView::Wipe, _) => ScanStageView::SetBirthday,
            (ScanStageView::SetBirthday, _) => ScanStageView::ReadTip,
            (ScanStageView::ReadTip, ScanEventView::Read(Ok(target_tip))) => ScanStageView::Start {
                target_tip,
            },
            (ScanStageView::Start { target_tip }, _) => ScanStageView::Rescan { target_tip },
            (ScanStageView::Rescan { target_tip }, ScanEventView::Rescanning(Ok(running))) =>
                if running {
                    ScanStageView::Watch {
                        rescan: Rescan {
                            target_tip,
                            from_height,
                            since_ns: now_ns,
                            peak: Usage::zero(),
                            h_tip_end: 0,
                        },
                    }
                } else {
                    ScanStageView::Failed("wallet process is not running"@)
                },
            (ScanStageView::Watch { rescan }, ScanEventView::Progressed(Ok(progress))) =>
                if progress.scanned_height >= rescan.target_tip {
                    ScanStageView::Count {
                        rescan: rescan.seen(progress),
                        wall_clock_ns: between(rescan.since_ns, now_ns),
                    }
                } else {
                    ScanStageView::Pause { rescan: rescan.seen(progress) }
                },
            (ScanStageView::Pause { rescan }, _) => if past(
                between(rescan.since_ns, now_ns),
                SCAN_SECS,
            ) {
                ScanStageView::Failed(
                    "wallet scan did not reach target tip "@ + decimal(rescan.target_tip as nat)
                        + " within 1800s"@,
                )
            } else {
                ScanStageView::Watch { rescan }
            },
            (ScanStageView::Count { rescan, wall_clock_ns }, ScanEventView::Read(Ok(count))) =>
                ScanStageView::Finished(rescan.result(wall_clock_ns, count)),
            (stage, _) => stage,
        }
    }
}

impl ScanStage {
    /// Goes on after an event, `now_ns` into the scan.
    pub fn resume(self, from_height: Option<u64>, event: ScanEvent, now_ns: u64) -> (r: ScanStage)
        requires
            self@.awaits(event@),
        ensures
            r@ == self@.after(from_height, event@, now_ns),
    {
        match event {
            ScanEvent::Done(Err(error)) => ScanStage::Failed(error),
            ScanEvent::Read(Err(error)) => ScanStage::Failed(error),
            ScanEvent::Rescanning(Err(error)) => ScanStage::Failed(error),
            ScanEvent::Progressed(Err(error)) => ScanStage::Failed(error),
            ScanEvent::Done(Ok(())) => match self {
                ScanStage::Stop => ScanStage::Wipe,
                ScanStage::Wipe => ScanStage::SetBirthday,
                ScanStage::SetBirthday => ScanStage::ReadTip,
                ScanStage::Start { target_tip } => ScanStage::Rescan { target_tip },
                ScanStage::Pause { rescan } => {
                    if past_deadline(now_ns.saturating_sub(rescan.since_ns), SCAN_SECS) {
                        ScanStage::Failed(
                            "wallet scan did not reach target tip ".to_owned().concat(
                                decimal_text(rescan.target_tip).as_str(),
                            ).concat(" within 1800s"),
                        )
                    } else {
                        ScanStage::Watch { rescan }
                    }
                },
                other => other,
            },
            ScanEvent::Read(Ok(number)) => match self {
                ScanStage::ReadTip => ScanStage::Start { target_tip: number },
                ScanStage::Count { rescan, wall_clock_ns } => ScanStage::Finished(
                    rescan.metrics(wall_clock_ns, number),
                ),
                other => other,
            },
            ScanEvent::Rescanning(Ok(running)) => match self {
                ScanStage::Rescan { target_tip } => {
                    if running {
                        ScanStage::Watch {
                            rescan: Rescan {
                                target_tip,
                                from_height,
                                since_ns: now_ns,
                                peak: Usage::none(),
                                h_tip_end: 0,
                            },
                        }
                    } else {
                        ScanStage::Failed("wallet process is not running".to_owned())
                    }
                },
                other => other,
            },
            ScanEvent::Progressed(Ok(progress)) => match self {
                ScanStage::Watch { rescan } => {
                    if progress.scanned_height >= rescan.target_tip {
                        ScanStage::Count {
                            rescan: rescan.see(progress),
                            wall_clock_ns: now_ns.saturating_sub(rescan.since_ns),
                        }
                    } else {
                        ScanStage::Pause { rescan: rescan.see(progress) }
                    }
                },
                other => other,
            },
        }
    }
}

/// A scan is finished only after the wallet has reported the tip that was read before it began; its
/// peaks never shrink.
pub proof fn scans_reach_their_target(stage: ScanStageView, from_height: Option<u64>, event: ScanEventView, now_ns: u64)
    requires
        stage.awaits(event),
    ensures
        ({
            let after = stage.after(from_height, event, now_ns);
            &&& after is Finished ==> stage is Count
            &&& after is Count ==> stage is Watch && event->Progressed_0->Ok_0.scanned_height
                >= stage->Watch_rescan.target_tip
            &&& match (stage, after) {
                (ScanStageView::Watch { rescan }, ScanStageView::Pause { rescan: next }) => {
                    &&& next.peak.memory_bytes >= rescan.peak.memory_bytes
                    &&& next.peak.cpu_bits >= rescan.peak.cpu_bits
                    &&& next.target_tip == rescan.target_tip
                },
                (ScanStageView::Watch { rescan }, ScanStageView::Count { rescan: next, .. }) => {
                    &&& next.peak.memory_bytes >= rescan.peak.memory_bytes
                    &&& next.peak.cpu_bits >= rescan.peak.cpu_bits
                    &&& next.target_tip == rescan.target_tip
                },
                _ => true,
            }
        }),
{
}

/// A rescan with progress reports taken into account, one after the other.
pub open spec fn seen_all(rescan: Rescan, reports: Seq<Progress>) -> Rescan
    decreases reports.len(),
{
    if reports.len() == 0 {
        rescan
    } else {
        seen_all(rescan, reports.drop_last()).seen(reports.last())
    }
}

/// What progress reports say of the resources in use.
pub open spec fn usages(reports: Seq<Progress>) -> Seq<Option<Usage>> {
    Seq::new(reports.len(), |i: int| reports[i].usage)
}

/// The metrics of a scan tell the largest memory that any of its progress reports gave, in
/// kilobytes, and the largest CPU load.
pub proof fn scans_tell_the_peak_of_their_reports(rescan: Rescan, reports: Seq<Progress>, wall_clock_ns: u64, outputs_found: u64)
    requires
        rescan.peak == Usage::zero(),
    ensures
        ({
            let metrics = seen_all(rescan, reports).result(wall_clock_ns, outputs_found);
            let peak = peak_of(usages(reports));
            &&& metrics.peak_rss_kb == peak.memory_bytes / 1024
            &&& metrics.peak_cpu_bits == peak.cpu_bits
        }),
        seen_all(rescan, reports).peak == peak_of(usages(reports)),
    decreases reports.len(),
{
    if reports.len() > 0 {
        scans_tell_the_peak_of_their_reports(
            rescan,
            reports.drop_last(),
            wall_clock_ns,
            outputs_found,
        );
        assert(usages(reports).drop_last() =~= usages(reports.drop_last()));
        assert(usages(reports).last() == reports.last().usage);
    }
}

/// The states of a transaction that matter here.
#[derive(Clone, Copy, PartialEq, Eq, Structural, Debug)]
pub enum TxStatus {
    MinedConfirmed,
    MinedConfirmedLocked,
    OneSidedConfirmed,
    OneSidedConfirmedLocked,
    CoinbaseConfirmed,
    CoinbaseConfirmedLocked,
    Rejected,
    /// Any other state.
    Other,
}

/// What the wallet tells of a transaction.
#[derive(PartialEq, Eq, Debug)]
pub struct TxInfo {
    pub status: TxStatus,
    pub rejected_reason: String,
    /// Zero if the transaction is not mined.
    pub mined_in_block_height: u64,
}

impl TxStatus {
    pub open spec fn confirmed(self) -> bool {
        !(self is Rejected) && !(self is Other)
    }

    /// Tells whether the state is one of confirmation.
    pub fn is_confirmed(self) -> (r: bool)
        ensures
            r == self.confirmed(),
    {
        match self {
            TxStatus::MinedConfirmed | TxStatus::MinedConfirmedLocked | TxStatus::OneSidedConfirmed
            | TxStatus::OneSidedConfirmedLocked | TxStatus::CoinbaseConfirmed
            | TxStatus::CoinbaseConfirmedLocked => true,
            TxStatus::Rejected | TxStatus::Other => false,
        }
    }
}

/// Where the wait for a confirmation stands: what has to be done next.
#[derive(PartialEq, Eq, Debug)]
pub enum ConfirmStage {
    /// Ask the wallet about the transaction.
    Ask,
    /// Read the tip: the transaction is mined and confirmed from the given tip on.
    ReadTip { confirmed_from: u64 },
    /// Wait before asking again.
    Pause,
    /// Confirmed after the given time.
    Confirmed { after_ns: u64 },
    Failed(String),
}

pub enum ConfirmStageView {
    Ask,
    ReadTip { confirmed_from: u64 },
    Pause,
    Confirmed { after_ns: u64 },
    Failed(Seq<char>),
}

impl View for ConfirmStage {
    type V = ConfirmStageView;

    open spec fn view(&self) -> ConfirmStageView {
        match *self {
            ConfirmStage::Ask => ConfirmStageView::Ask,
            ConfirmStage::ReadTip { confirmed_from } => ConfirmStageView::ReadTip {
                confirmed_from,
            },
            ConfirmStage::Pause => ConfirmStageView::Pause,
            ConfirmStage::Confirmed { after_ns } => ConfirmStageView::Confirmed { after_ns },
            ConfirmStage::Failed(error) => ConfirmStageView::Failed(error@),
        }
    }
}

/// What came of the last step of a wait for a confirmation.
#[derive(PartialEq, Eq, Debug)]
pub enum ConfirmEvent {
    /// What the wallet tells of the transaction, if it knows it.
    Told(Result<Option<TxInfo>, String>),
    Tip(Result<u64, String>),
    Paused,
}

/// A transaction whose confirmation is waited for.
#[derive(Clone, Copy, PartialEq, Eq, Structural, Debug)]
pub struct Pending {
    pub tx_id: u64,
    pub confirmation_window: u64,
}

impl ConfirmStage {
    /// The event is one that the stage waits for.
    pub open spec fn awaits(self, event: ConfirmEvent) -> bool {
        match self {
            ConfirmStage::Ask => event is Told,
            ConfirmStage::ReadTip { .. } => event is Tip,
            ConfirmStage::Pause => event is Paused,
            ConfirmStage::Confirmed { .. } | ConfirmStage::Failed(_) => false,
        }
    }

    /// The wait after an event, `now_ns` into it.
    ///
    /// A confirmed transaction ends it, and so does a rejected one; one that is mined is confirmed
    /// once the tip has got far enough. Otherwise the wallet is asked again, for at most the
    /// confirmation time.
    pub open spec fn after(self, pending: Pending, event: ConfirmEvent, now_ns: u64) -> ConfirmStageView {
        match (self, event) {
            (_, ConfirmEvent::Told(Err(error))) => ConfirmStageView::Failed(error@),
            (_, ConfirmEvent::Tip(Err(error))) => ConfirmStageView::Failed(error@),
            (ConfirmStage::Ask, ConfirmEvent::Told(Ok(Some(info)))) => if info.status.confirmed() {
                ConfirmStageView::Confirmed { after_ns: now_ns }
            } else if info.status is Rejected {
                ConfirmStageView::Failed(
                    if info.rejected_reason@.len() == 0 {
                        "transaction was rejected"@
                    } else {
                        info.rejected_reason@
                    },
                )
            } else if info.mined_in_block_height > 0 {
                ConfirmStageView::ReadTip {
                    confirmed_from: confirmation_tip(
                        info.mined_in_block_height,
                        pending.confirmation_window,
                    ),
                }
            } else {
                ConfirmStageView::Pause
            },
            (ConfirmStage::Ask, ConfirmEvent::Told(Ok(None))) => ConfirmStageView::Pause,
            (ConfirmStage::ReadTip { confirmed_from }, ConfirmEvent::Tip(Ok(tip))) => if tip
                >= confirmed_from {
                ConfirmStageView::Confirmed { after_ns: now_ns }
            } else {
                ConfirmStageView::Pause
            },
            (ConfirmStage::Pause, ConfirmEvent::Paused) => if past(now_ns, CONFIRMATION_SECS) {
                ConfirmStageView::Failed(
                    "transaction "@ + decimal(pending.tx_id as nat)
                        + " was not confirmed within 600s"@,
                )
            } else {
                ConfirmStageView::Ask
            },
            (stage, _) => stage@,
        }
    }

    /// Goes on after an event, `now_ns` into the wait.
    pub fn resume(self, pending: Pending, event: ConfirmEvent, now_ns: u64) -> (r: ConfirmStage)
        requires
            self.awaits(event),
        ensures
            r@ == self.after(pending, event, now_ns),
    {
        match event {
            ConfirmEvent::Told(Err(error)) => ConfirmStage::Failed(error),
            ConfirmEvent::Tip(Err(error)) => ConfirmStage::Failed(error),
            ConfirmEvent::Told(Ok(None)) => ConfirmStage::Pause,
            ConfirmEvent::Told(Ok(Some(info))) => {
                if info.status.is_confirmed() {
                    ConfirmStage::Confirmed { after_ns: now_ns }
                } else if info.status == TxStatus::Rejected {
                    if info.rejected_reason.as_str().is_empty() {
                        ConfirmStage::Failed("transaction was rejected".to_owned())
                    } else {
                        ConfirmStage::Failed(info.rejected_reason)
                    }
                } else if info.mined_in_block_height > 0 {
                    ConfirmStage::ReadTip {
                        confirmed_from: confirmation_height(
                            info.mined_in_block_height,
                            pending.confirmation_window,
                        ),
                    }
                } else {
                    ConfirmStage::Pause
                }
            },
            ConfirmEvent::Tip(Ok(tip)) => match self {
                ConfirmStage::ReadTip { confirmed_from } => {
                    if tip >= confirmed_from {
                        ConfirmStage::Confirmed { after_ns: now_ns }
                    } else {
                        ConfirmStage::Pause
                    }
                },
                other => other,
            },
            ConfirmEvent::Paused => {
                if past_deadline(now_ns, CONFIRMATION_SECS) {
                    ConfirmStage::Failed(
                        "transaction ".to_owned().concat(
                            decimal_text(pending.tx_id).as_str(),
                        ).concat(" was not confirmed within 600s"),
                    )
                } else {
                    ConfirmStage::Ask
                }
            },
        }
    }
}

/// A transaction counts as confirmed only if the wallet says so, or if it is mined and the chain
/// has grown by the confirmations of the window, the block that holds it included.
pub proof fn confirmations_are_real(stage: ConfirmStage, pending: Pending, event: ConfirmEvent, now_ns: u64)
    requires
        stage.awaits(event),
        stage.after(pending, event, now_ns) is Confirmed,
    ensures
        match event {
            ConfirmEvent::Told(Ok(Some(info))) => info.status.confirmed(),
            ConfirmEvent::Tip(Ok(tip)) => stage is ReadTip && tip >= stage->confirmed_from,
            _ => false,
        },
{
}

/// One payment of a transfer.
#[derive(PartialEq, Eq, Debug)]
pub struct PaymentRecipient {
    pub address: String,
    pub amount: u64,
    pub fee_per_gram: u64,
}

pub open spec fn payment_views(payments: Seq<PaymentRecipient>) -> Seq<(Seq<char>, u64, u64)> {
    Seq::new(
        payments.len(),
        |i: int| (payments[i].address@, payments[i].amount, payments[i].fee_per_gram),
    )
}

/// The payments of a transfer: one for each recipient, all at the same fee rate.
pub fn payment_recipients(recipients: &Vec<(String, u64)>, fee_rate: u64) -> (r: Vec<PaymentRecipient>)
    ensures
        payment_views(r@) == Seq::new(
            recipients@.len(),
            |i: int| (recipients@[i].0@, recipients@[i].1, fee_rate),
        ),
{
    let mut payments: Vec<PaymentRecipient> = Vec::new();
    let mut i: usize = 0;
    while i < recipients.len()
        invariant
            i <= recipients.len(),
            payments@.len() == i,
            forall|j: int|
                0 <= j < i ==> (#[trigger] payments@[j]).address@ == recipients@[j].0@
                    && payments@[j].amount == recipients@[j].1 && payments@[j].fee_per_gram
                    == fee_rate,
        decreases recipients.len() - i,
    {
        payments.push(
            PaymentRecipient {
                address: recipients[i].0.clone(),
                amount: recipients[i].1,
                fee_per_gram: fee_rate,
            },
        );
        i = i + 1;
    }
    proof {
        assert(payment_views(payments@) =~= Seq::new(
            recipients@.len(),
            |i: int| (recipients@[i].0@, recipients@[i].1, fee_rate),
        ));
    }
    payments
}

/// What the wallet says of one payment of a transfer.
#[derive(PartialEq, Eq, Debug)]
pub struct TransferResult {
    pub address: String,
    pub transaction_id: u64,
    pub is_success: bool,
    pub failure_message: String,
    /// The fee, if the wallet tells it.
    pub fee: Option<u64>,
}

/// The complaint about a payment that failed.
pub open spec fn complaint(result: TransferResult) -> Seq<char> {
    if result.failure_message@.len() == 0 {
        "recipient "@ + result.address@ + " failed"@
    } else {
        result.failure_message@
    }
}

/// The complaints about the payments that failed, with semicolons between them; nothing if none
/// has.
pub open spec fn complaints(results: Seq<TransferResult>) -> Option<Seq<char>>
    decreases results.len(),
{
    if results.len() == 0 {
        None
    } else if results.last().is_success {
        complaints(results.drop_last())
    } else {
        match complaints(results.drop_last()) {
            None => Some(complaint(results.last())),
            Some(before) => Some(before + "; "@ + complaint(results.last())),
        }
    }
}

/// A transfer that the wallet has made.
#[derive(Clone, Copy, PartialEq, Eq, Structural, Debug)]
pub struct Transfer {
    pub transaction_id: u64,
    pub fee_paid: u64,
}

/// What a transfer has come to: it is made if all its payments are. The first result tells its id
/// and its fee, which counts as zero if the wallet does not tell it.
pub open spec fn transferred(results: Seq<TransferResult>) -> Result<Transfer, Seq<char>> {
    if results.len() == 0 {
        Err("transfer returned no results"@)
    } else {
        match complaints(results) {
            Some(message) => Err(message),
            None => Ok(
                Transfer {
                    transaction_id: results[0].transaction_id,
                    fee_paid: match results[0].fee {
                        Some(fee) => fee,
                        None => 0,
                    },
                },
            ),
        }
    }
}

/// Judges the results of a transfer.
pub fn judge_transfer(results: &Vec<TransferResult>) -> (r: Result<Transfer, String>)
    ensures
        result_view(r) == transferred(results@),
{
    if results.len() == 0 {
        return Err("transfer returned no results".to_owned());
    }
    let mut failures: Option<String> = None;
    let mut i: usize = 0;
    while i < results.len()
        invariant
            i <= results.len(),
            text_view(failures) == complaints(results@.take(i as int)),
        decreases results.len() - i,
    {
        let result = &results[i];
        proof {
            let next = results@.take(i + 1);
            assert(next.drop_last() =~= results@.take(i as int));
            assert(next.last() == results@[i as int]);
        }
        if !result.is_success {
            let message = if result.failure_message.as_str().is_empty() {
                "recipient ".to_owned().concat(result.address.as_str()).concat(" failed")
            } else {
                result.failure_message.clone()
            };
            failures = match failures {
                None => Some(message),
                Some(before) => Some(before.concat("; ").concat(message.as_str())),
            };
        }
        i = i + 1;
    }
    proof {
        assert(results@.take(results@.len() as int) =~= results@);
    }
    match failures {
        Some(message) => Err(message),
        None => Ok(
            Transfer {
                transaction_id: results[0].transaction_id,
                fee_paid: match results[0].fee {
                    Some(fee) => fee,
                    None => 0,
                },
            },
        ),
    }
}

/// A transfer is made only if every payment of it is, and it then has the id of the first.
pub proof fn a_transfer_is_made_whole(results: Seq<TransferResult>)
    ensures
        transferred(results) is Ok <==> results.len() > 0 && forall|i: int|
            0 <= i < results.len() ==> (#[trigger] results[i]).is_success,
{
    no_complaints(results);
}

/// There is nothing to complain about if and only if every payment succeeded.
proof fn no_complaints(results: Seq<TransferResult>)
    ensures
        complaints(results) is None <==> forall|i: int|
            0 <= i < results.len() ==> (#[trigger] results[i]).is_success,
    decreases results.len(),
{
    if results.len() > 0 {
        let before = results.drop_last();
        no_complaints(before);
        assert(forall|i: int| 0 <= i < before.len() ==> before[i] == results[i]);
        if complaints(results) is None {
            assert forall|i: int| 0 <= i < results.len() implies (#[trigger]
            results[i]).is_success by {
                if i < before.len() {
                    assert(before[i].is_success);
                }
            }
        } else if results.last().is_success {
            let i = choose|i: int| 0 <= i < before.len() && !(#[trigger] before[i]).is_success;
            assert(!results[i].is_success);
        } else {
            assert(!results[results.len() - 1].is_success);
        }
    }
}

/// The metrics of a transfer that has been confirmed.
pub fn transfer_metrics(transfer: Transfer, construction_ns: u64, mempool_ns: u64, confirmed_ns: u64) -> (r: TxMetrics)
    ensures
        r@ == sent(
            decimal(transfer.transaction_id as nat),
            construction_ns,
            mempool_ns,
            confirmed_ns,
            transfer.fee_paid,
        ),
{
    sent_metrics(
        decimal_text(transfer.transaction_id),
        construction_ns,
        mempool_ns,
        confirmed_ns,
        transfer.fee_paid,
    )
}

/// A transaction that the wallet has completed.
#[derive(Clone, Copy, PartialEq, Eq, Structural, Debug)]
pub struct CompletedTx {
    pub tx_id: u64,
    pub inbound: bool,
    pub amount: u64,
    pub timestamp: u64,
}

/// The transaction could be the expected funding.
pub open spec fn funds(tx: CompletedTx, expected_amount_ut: u64) -> bool {
    tx.inbound && tx.amount >= expected_amount_ut
}

/// The latest transaction that could be the funding; of those at the same time, the last.
pub open spec fn latest_funding(txs: Seq<CompletedTx>, expected_amount_ut: u64) -> Option<CompletedTx>
    decreases txs.len(),
{
    if txs.len() == 0 {
        None
    } else {
        let before = latest_funding(txs.drop_last(), expected_amount_ut);
        let tx = txs.last();
        if funds(tx, expected_amount_ut) && (before matches Some(other) ==> tx.timestamp
            >= other.timestamp) {
            Some(tx)
        } else {
            before
        }
    }
}

/// The id of the latest transaction that could be the funding, if there is one.
pub fn latest_incoming_tx_id(txs: &Vec<CompletedTx>, expected_amount_ut: u64) -> (r: Option<String>)
    ensures
        text_view(r) == match latest_funding(txs@, expected_amount_ut) {
            Some(tx) => Some(decimal(tx.tx_id as nat)),
            None => None,
        },
{
    let mut latest: Option<CompletedTx> = None;
    let mut i: usize = 0;
    while i < txs.len()
        invariant
            i <= txs.len(),
            latest == latest_funding(txs@.take(i as int), expected_amount_ut),
        decreases txs.len() - i,
    {
        let tx = txs[i];
        proof {
            let next = txs@.take(i + 1);
            assert(next.drop_last() =~= txs@.take(i as int));
            assert(next.last() == tx);
        }
        if tx.inbound && tx.amount >= expected_amount_ut {
            let newer = match latest {
                Some(other) => tx.timestamp >= other.timestamp,
                None => true,
            };
            if newer {
                latest = Some(tx);
            }
        }
        i = i + 1;
    }
    proof {
        assert(txs@.take(txs@.len() as int) =~= txs@);
    }
    match latest {
        Some(tx) => Some(decimal_text(tx.tx_id)),
        None => None,
    }
}

/// The latest funding is one of the transactions that could be the funding, and none of those is
/// later; there is one if there is any candidate.
pub proof fn the_latest_funding_is_the_latest(txs: Seq<CompletedTx>, expected_amount_ut: u64)
    ensures
        match latest_funding(txs, expected_amount_ut) {
            Some(tx) => {
                &&& txs.contains(tx)
                &&& funds(tx, expected_amount_ut)
                &&& forall|i: int|
                    0 <= i < txs.len() && funds(txs[i], expected_amount_ut) ==> (#[trigger]
                    txs[i]).timestamp <= tx.timestamp
            },
            None => forall|i: int|
                0 <= i < txs.len() ==> !funds(#[trigger] txs[i], expected_amount_ut),
        },
    decreases txs.len(),
{
    if txs.len() > 0 {
        let before = txs.drop_last();
        the_latest_funding_is_the_latest(before, expected_amount_ut);
        assert(forall|i: int| 0 <= i < before.len() ==> before[i] == txs[i]);
        assert(txs[txs.len() - 1] == txs.last());
        if let Some(tx) = latest_funding(before, expected_amount_ut) {
            let k = choose|k: int| 0 <= k < before.len() && before[k] == tx;
            assert(txs[k] == tx);
        }
        assert forall|i: int| 0 <= i < txs.len() && funds(txs[i], expected_amount_ut) implies (
        latest_funding(txs, expected_amount_ut) matches Some(tx) && (#[trigger] txs[i]).timestamp
            <= tx.timestamp) by {
            if i < before.len() {
                assert(funds(before[i], expected_amount_ut));
            }
        }
    }
}

/// The kinds of file system errors that matter here.
#[derive(Clone, Copy, PartialEq, Eq, Structural, Debug)]
pub enum FsErrorKind {
    NotFound,
    PermissionDenied,
    AlreadyExists,
    Other,
}

/// A file system error.
#[derive(PartialEq, Eq, Debug)]
pub struct FsError {
    pub kind: FsErrorKind,
    /// The error code of the operating system.
    pub code: Option<i32>,
    pub message: String,
}

/// The error may pass: access is denied, or the file is in use, or what is to go has gone.
pub open spec fn removal_may_pass(error: FsError) -> bool {
    error.kind is NotFound || error.kind is PermissionDenied || error.code == Some(SHARING_VIOLATION)
}

/// The error may pass: access is denied, or the file is in use, or what is to come is there.
pub open spec fn creation_may_pass(error: FsError) -> bool {
    error.kind is AlreadyExists || error.kind is PermissionDenied || error.code == Some(
        SHARING_VIOLATION,
    )
}

fn is_sharing_violation(code: Option<i32>) -> (r: bool)
    ensures
        r == (code == Some(SHARING_VIOLATION)),
{
    match code {
        Some(code) => code == SHARING_VIOLATION,
        None => false,
    }
}

/// Where a wipe of the data directory stands: what has to be done next.
#[derive(PartialEq, Eq, Debug)]
pub enum WipeStage {
    /// Remove the directory, if it is there.
    Remove,
    /// Create it anew.
    Create,
    /// Wait before another attempt.
    Retry,
    /// Let the new directory settle.
    Settle,
    Wiped,
    Failed(String),
}

pub enum WipeStageView {
    Remove,
    Create,
    Retry,
    Settle,
    Wiped,
    Failed(Seq<char>),
}

impl View for WipeStage {
    type V = WipeStageView;

    open spec fn view(&self) -> WipeStageView {
        match *self {
            WipeStage::Remove => WipeStageView::Remove,
            WipeStage::Create => WipeStageView::Create,
            WipeStage::Retry => WipeStageView::Retry,
            WipeStage::Settle => WipeStageView::Settle,
            WipeStage::Wiped => WipeStageView::Wiped,
            WipeStage::Failed(error) => WipeStageView::Failed(error@),
        }
    }
}

/// A wipe of the data directory.
#[derive(PartialEq, Eq, Debug)]
pub struct Wipe {
    pub stage: WipeStage,
    /// Attempts before the current one.
    pub attempt: u64,
    /// The last error that might have passed.
    pub last_error: Option<String>,
}

pub struct WipeView {
    pub stage: WipeStageView,
    pub attempt: u64,
    pub last_error: Option<Seq<char>>,
}

impl View for Wipe {
    type V = WipeView;

    open spec fn view(&self) -> WipeView {
        WipeView {
            stage: self.stage@,
            attempt: self.attempt,
            last_error: text_view(self.last_error),
        }
    }
}

impl WipeView {
    pub open spec fn wf(self) -> bool {
        self.attempt < WIPE_ATTEMPTS
    }

    pub open spec fn begin() -> WipeView {
        WipeView { stage: WipeStageView::Remove, attempt: 0, last_error: None }
    }

    /// The wipe after a step with the given outcome. Errors that may pass lead to another attempt,
    /// up to the last; others end the wipe.
    pub open spec fn after(self, outcome: Result<(), FsError>) -> WipeView {
        match (self.stage, outcome) {
            (WipeStageView::Remove, Ok(())) => WipeView { stage: WipeStageView::Create, ..self },
            (WipeStageView::Remove, Err(error)) => self.troubled(error, removal_may_pass(error)),
            (WipeStageView::Create, Ok(())) => WipeView { stage: WipeStageView::Settle, ..self },
            (WipeStageView::Create, Err(error)) => self.troubled(error, creation_may_pass(error)),
            (WipeStageView::Retry, _) => if self.attempt + 1 < WIPE_ATTEMPTS {
                WipeView {
                    stage: WipeStageView::Remove,
                    attempt: (self.attempt + 1) as u64,
                    ..self
                }
            } else {
                WipeView {
                    stage: WipeStageView::Failed(
                        match self.last_error {
                            Some(message) => message,
                            None => "wallet data directory reset timed out"@,
                        },
                    ),
                    ..self
                }
            },
            (WipeStageView::Settle, _) => WipeView { stage: WipeStageView::Wiped, ..self },
            (WipeStageView::Wiped, _) | (WipeStageView::Failed(_), _) => self,
        }
    }

    /// The wipe after an error.
    pub open spec fn troubled(self, error: FsError, may_pass: bool) -> WipeView {
        if may_pass {
            WipeView {
                stage: WipeStageView::Retry,
                last_error: Some(error.message@),
                ..self
            }
        } else {
            WipeView { stage: WipeStageView::Failed(error.message@), ..self }
        }
    }
}

impl Wipe {
    /// A wipe before its first step.
    pub fn begin() -> (r: Wipe)
        ensures
            r@ == WipeView::begin(),
            r@.wf(),
    {
        Wipe { stage: WipeStage::Remove, attempt: 0, last_error: None }
    }

    fn trouble(self, error: FsError, may_pass: bool) -> (r: Wipe)
        ensures
            r@ == self@.troubled(error, may_pass),
    {
        let mut wipe = self;
        if may_pass {
            wipe.stage = WipeStage::Retry;
            wipe.last_error = Some(error.message);
        } else {
            wipe.stage = WipeStage::Failed(error.message);
        }
        wipe
    }

    /// Goes on after a step with the given outcome.
    pub fn resume(self, outcome: Result<(), FsError>) -> (r: Wipe)
        requires
            self@.wf(),
        ensures
            r@ == self@.after(outcome),
            r@.wf(),
    {
        let mut wipe = self;
        match (&wipe.stage, outcome) {
            (WipeStage::Remove, Ok(())) => {
                wipe.stage = WipeStage::Create;
                wipe
            },
            (WipeStage::Remove, Err(error)) => {
                let may_pass = error.kind == FsErrorKind::NotFound || error.kind
                    == FsErrorKind::PermissionDenied || is_sharing_violation(error.code);
                wipe.trouble(error, may_pass)
            },
            (WipeStage::Create, Ok(())) => {
                wipe.stage = WipeStage::Settle;
                wipe
            },
            (WipeStage::Create, Err(error)) => {
                let may_pass = error.kind == FsErrorKind::AlreadyExists || error.kind
                    == FsErrorKind::PermissionDenied || is_sharing_violation(error.code);
                wipe.trouble(error, may_pass)
            },
            (WipeStage::Retry, _) => {
                if wipe.attempt + 1 < WIPE_ATTEMPTS {
                    wipe.attempt = wipe.attempt + 1;
                    wipe.stage = WipeStage::Remove;
                } else {
                    wipe.stage = WipeStage::Failed(
                        match &wipe.last_error {
                            Some(message) => message.clone(),
                            None => "wallet data directory reset timed out".to_owned(),
                        },
                    );
                }
                wipe
            },
            (WipeStage::Settle, _) => {
                wipe.stage = WipeStage::Wiped;
                wipe
            },
            (WipeStage::Wiped, _) | (WipeStage::Failed(_), _) => wipe,
        }
    }
}

/// A wipe succeeds only by creating the directory, and every step of it but the last brings it
/// closer to its end.
pub proof fn wipes_are_bounded(wipe: WipeView, outcome: Result<(), FsError>)
    requires
        wipe.wf(),
        !(wipe.stage is Wiped),
        !(wipe.stage is Failed),
    ensures
        wipe.after(outcome).wf(),
        wipe.after(outcome).stage is Settle ==> wipe.stage is Create && outcome is Ok,
        wipe.after(outcome).stage is Wiped ==> wipe.stage is Settle,
        wipe_steps_left(wipe.after(outcome)) < wipe_steps_left(wipe),
{
}

/// The most steps that a wipe may still take.
pub open spec fn wipe_steps_left(wipe: WipeView) -> int {
    match wipe.stage {
        WipeStageView::Remove => 4 * (WIPE_ATTEMPTS - wipe.attempt) + 3,
        WipeStageView::Create => 4 * (WIPE_ATTEMPTS - wipe.attempt) + 2,
        WipeStageView::Retry => 4 * (WIPE_ATTEMPTS - wipe.attempt) + 1,
        WipeStageView::Settle => 1,
        WipeStageView::Wiped | WipeStageView::Failed(_) => 0,
    }
}

/// The wallet's balance.
#[derive(Clone, Copy, PartialEq, Eq, Structural, Debug)]
pub struct WalletBalance {
    pub available: u64,
    pub pending_incoming: u64,
}

/// Decides how a wait for pending transactions goes on: they have cleared once nothing is pending
/// either way.
pub fn pending_cleared(
    pending_incoming: u64,
    pending_outgoing: u64,
    elapsed_ns: u64,
    timeout_secs: u64,
) -> (r: Result<bool, String>)
    ensures
        result_view(r) == if pending_incoming == 0 && pending_outgoing == 0 {
            Ok(true)
        } else if past(elapsed_ns, timeout_secs) {
            Err(
                "transactions still pending after "@ + decimal(timeout_secs as nat) + "s"@,
            )
        } else {
            Ok(false)
        },
{
    if pending_incoming == 0 && pending_outgoing == 0 {
        return Ok(true);
    }
    if past_deadline(elapsed_ns, timeout_secs) {
        return Err(
            "transactions still pending after ".to_owned().concat(
                decimal_text(timeout_secs).as_str(),
            ).concat("s"),
        );
    }
    Ok(false)
}

/// A watch for incoming funding.
#[derive(PartialEq, Eq, Debug)]
pub struct FundingWatch {
    /// When the funding was first seen, pending or available.
    pub first_seen_ns: Option<u64>,
    /// The id of the transaction that brings it.
    pub tx_id: Option<String>,
}

pub struct FundingWatchView {
    pub first_seen_ns: Option<u64>,
    pub tx_id: Option<Seq<char>>,
}

impl View for FundingWatch {
    type V = FundingWatchView;

    open spec fn view(&self) -> FundingWatchView {
        FundingWatchView { first_seen_ns: self.first_seen_ns, tx_id: text_view(self.tx_id) }
    }
}

/// How a round of a funding watch ends.
#[derive(PartialEq, Eq, Debug)]
pub enum FundingRound {
    Arrived(TxMetrics),
    Wait(FundingWatch),
}

impl FundingWatchView {
    pub open spec fn begin() -> FundingWatchView {
        FundingWatchView { first_seen_ns: None, tx_id: None }
    }

    /// The watch with what a round has shown: the first transaction id stays, and so does the first
    /// moment at which the funding was pending or available.
    pub open spec fn seen(self, expected: u64, balance: WalletBalance, latest: Option<Seq<char>>, elapsed_ns: u64) -> FundingWatchView {
        FundingWatchView {
            first_seen_ns: match self.first_seen_ns {
                Some(ns) => Some(ns),
                None => if balance.pending_incoming >= expected || balance.available >= expected {
                    Some(elapsed_ns)
                } else {
                    None
                },
            },
            tx_id: match self.tx_id {
                Some(id) => Some(id),
                None => latest,
            },
        }
    }
}

impl FundingWatch {
    /// A watch before its first round.
    pub fn begin() -> (r: FundingWatch)
        ensures
            r@ == FundingWatchView::begin(),
    {
        FundingWatch { first_seen_ns: None, tx_id: None }
    }

    /// Takes in a round: the balance, and the latest transaction that could be the funding, which
    /// has to be looked up only while none is known. The funding has arrived once it is available.
    pub fn round(
        self,
        expected_amount_ut: u64,
        balance: WalletBalance,
        latest: Option<String>,
        elapsed_ns: u64,
    ) -> (r: FundingRound)
        ensures
            ({
                let seen = self@.seen(expected_amount_ut, balance, text_view(latest), elapsed_ns);
                match r {
                    FundingRound::Arrived(tx) => balance.available >= expected_amount_ut && tx@
                        == sent(
                        match seen.tx_id {
                            Some(id) => id,
                            None => "incoming-funding"@,
                        },
                        0,
                        seen.first_seen_ns->0,
                        elapsed_ns,
                        0,
                    ),
                    FundingRound::Wait(watch) => balance.available < expected_amount_ut && watch@
                        == seen,
                }
            }),
    {
        let tx_id = match self.tx_id {
            Some(id) => Some(id),
            None => latest,
        };
        let first_seen_ns = match self.first_seen_ns {
            Some(ns) => Some(ns),
            None => if balance.pending_incoming >= expected_amount_ut || balance.available
                >= expected_amount_ut {
                Some(elapsed_ns)
            } else {
                None
            },
        };
        if balance.available >= expected_amount_ut {
            let mempool_ns: u64 = match first_seen_ns {
                Some(ns) => ns,
                None => elapsed_ns,
            };
            let id = match tx_id {
                Some(id) => id,
                None => "incoming-funding".to_owned(),
            };
            FundingRound::Arrived(sent_metrics(id, 0, mempool_ns, elapsed_ns, 0))
        } else {
            FundingRound::Wait(FundingWatch { first_seen_ns, tx_id })
        }
    }
}

/// A finished scan reports the blocks from its start up to the tip that it had to reach: from genesis as
/// many as that tip is high, the same as from height zero, and none from above the tip. The rest is
/// reported as it was read, the memory in kilobytes.
pub proof fn scans_report_the_blocks_up_to_their_tip(
    rescan: Rescan,
    wall_clock_ns: u64,
    outputs_found: u64,
    r: ScanMetrics,
)
    requires
        call_ensures(Rescan::metrics, (rescan, wall_clock_ns, outputs_found), r),
    ensures
        rescan.from_height is None ==> r.blocks_scanned == rescan.target_tip,
        rescan.from_height matches Some(start) ==> {
            &&& start <= rescan.target_tip ==> r.blocks_scanned + start == rescan.target_tip
            &&& start > rescan.target_tip ==> r.blocks_scanned == 0
        },
        r.h_tip_start == rescan.target_tip,
        r.h_tip_end == rescan.h_tip_end,
        r.outputs_found == outputs_found,
        r.wall_clock_ns == wall_clock_ns,
        r.peak_cpu_bits == rescan.peak.cpu_bits,
        r.peak_rss_kb * 1024 <= rescan.peak.memory_bytes < (r.peak_rss_kb + 1) * 1024,
{
}

/// A scan stops the wallet, wipes its data, sets the birthday, reads the tip, starts the wallet, tells it
/// to rescan and then watches it until it has reached that tip, with a pause after each look that
/// shows less. It reports the time from the order to rescan on, the blocks up to the tip, the outputs
/// that are counted at the end, and the last tip that the wallet told.
pub proof fn scans_are_made_step_by_step(
    from_height: Option<u64>,
    tip: u64,
    short: Progress,
    reached: Progress,
    count: u64,
    t: Seq<u64>,
)
    requires
        t.len() == 10,
        forall|i: int, j: int| 0 <= i <= j < 10 ==> t[i] <= t[j],
        t[7] - t[5] <= 1_800_000_000_000,
        short.scanned_height < tip,
        reached.scanned_height >= tip,
    ensures
        ({
            let done = ScanEventView::Done(Ok(()));
            let stopped = ScanStageView::Stop.after(from_height, done, t[0]);
            let wiped = stopped.after(from_height, done, t[1]);
            let reborn = wiped.after(from_height, done, t[2]);
            let started = reborn.after(from_height, ScanEventView::Read(Ok(tip)), t[3]);
            let running = started.after(from_height, done, t[4]);
            let watched = running.after(from_height, ScanEventView::Rescanning(Ok(true)), t[5]);
            let paused = watched.after(from_height, ScanEventView::Progressed(Ok(short)), t[6]);
            let watched_again = paused.after(from_height, done, t[7]);
            let there = watched_again.after(
                from_height,
                ScanEventView::Progressed(Ok(reached)),
                t[8],
            );
            let end = there.after(from_height, ScanEventView::Read(Ok(count)), t[9]);
            let metrics = end->Finished_0;
            &&& stopped is Wipe && wiped is SetBirthday && reborn is ReadTip
            &&& started is Start && running is Rescan && watched is Watch
            &&& paused is Pause && watched_again is Watch && there is Count && end is Finished
            &&& metrics.wall_clock_ns == t[8] - t[5]
            &&& metrics.h_tip_start == tip
            &&& metrics.h_tip_end == reached.tip_height
            &&& metrics.outputs_found == count
            &&& match from_height {
                None => metrics.blocks_scanned == tip,
                Some(start) => if start <= tip {
                    metrics.blocks_scanned + start == tip
                } else {
                    metrics.blocks_scanned == 0
                },
            }
        }),
{
    assert(t[5] <= t[7] && t[5] <= t[8]);
}

/// Whatever goes wrong in a scan ends it with its cause. A wallet that is not running ends it, and so
/// does a scan that has not reached its tip more than half an hour after the order to rescan.
pub proof fn scans_end_with_what_goes_wrong(
    stage: ScanStageView,
    from_height: Option<u64>,
    error: Seq<char>,
    now_ns: u64,
    rescan: Rescan,
)
    ensures
        stage.after(from_height, ScanEventView::Done(Err(error)), now_ns) == ScanStageView::Failed(
            error,
        ),
        stage.after(from_height, ScanEventView::Read(Err(error)), now_ns) == ScanStageView::Failed(
            error,
        ),
        stage.after(from_height, ScanEventView::Rescanning(Err(error)), now_ns)
            == ScanStageView::Failed(error),
        stage.after(from_height, ScanEventView::Progressed(Err(error)), now_ns)
            == ScanStageView::Failed(error),
        stage is Rescan ==> stage.after(from_height, ScanEventView::Rescanning(Ok(false)), now_ns)
            == ScanStageView::Failed("wallet process is not running"@),
        (ScanStageView::Pause { rescan }).after(from_height, ScanEventView::Done(Ok(())), now_ns)
            is Failed <==> now_ns - rescan.since_ns > 1_800_000_000_000,
        now_ns - rescan.since_ns <= 1_800_000_000_000 ==> (ScanStageView::Pause { rescan }).after(
            from_height,
            ScanEventView::Done(Ok(())),
            now_ns,
        ) == (ScanStageView::Watch { rescan }),
{
}

/// A progress report raises the peaks where it is above them and never lowers them, brings the tip up to
/// date, and leaves the scan's start, target and beginning alone.
pub proof fn reports_raise_the_peaks(rescan: Rescan, progress: Progress, r: Rescan)
    requires
        call_ensures(Rescan::see, (rescan, progress), r),
    ensures
        r.h_tip_end == progress.tip_height,
        r.target_tip == rescan.target_tip,
        r.from_height == rescan.from_height,
        r.since_ns == rescan.since_ns,
        progress.usage is None ==> r.peak == rescan.peak,
        progress.usage matches Some(usage) ==> {
            &&& r.peak.memory_bytes >= rescan.peak.memory_bytes
            &&& r.peak.memory_bytes >= usage.memory_bytes
            &&& r.peak.memory_bytes == rescan.peak.memory_bytes || r.peak.memory_bytes
                == usage.memory_bytes
            &&& r.peak.cpu_bits >= rescan.peak.cpu_bits
            &&& r.peak.cpu_bits >= usage.cpu_bits
            &&& r.peak.cpu_bits == rescan.peak.cpu_bits || r.peak.cpu_bits == usage.cpu_bits
        },
{
}

/// The wallet is told to rescan from the height that is asked for, and from the first block where that is
/// genesis.
pub proof fn rescans_start_where_they_are_told(from_height: Option<u64>, r: u64)
    requires
        call_ensures(rescan_height, (from_height,), r),
    ensures
        r >= 1,
        from_height is None ==> r == 1,
        from_height matches Some(height) ==> height <= r && (r == height || r == 1 && height == 0),
{
}

/// The outputs of a wallet are those in each of its buckets together.
pub proof fn every_bucket_counts(before: &Vec<u64>, count: u64, buckets: &Vec<u64>, was: u64, is: u64)
    requires
        buckets@ == before@.push(count),
        call_ensures(utxo_count, (before,), was),
        call_ensures(utxo_count, (buckets,), is),
    ensures
        before@.len() == 0 ==> was == 0,
        is as int == (was + count) % 0x1_0000_0000_0000_0000,
{
    assert(buckets@.drop_last() =~= before@);
    assert(buckets@.last() == count);
}

/// A wallet goes by its one-sided address as long as it has one, by its interactive one otherwise, and by
/// none if it has neither.
pub proof fn the_one_sided_address_comes_first(one_sided: String, interactive: String, r: Result<String, String>)
    requires
        call_ensures(choose_address, (one_sided, interactive), r),
    ensures
        one_sided@.len() > 0 ==> r is Ok && r->Ok_0@ == one_sided@,
        one_sided@.len() == 0 && interactive@.len() > 0 ==> r is Ok && r->Ok_0@ == interactive@,
        r is Err <==> one_sided@.len() == 0 && interactive@.len() == 0,
{
}

/// A transaction is confirmed in the six states of confirmation and in no other.
pub proof fn six_states_are_confirmations(status: TxStatus, r: bool)
    requires
        call_ensures(TxStatus::is_confirmed, (status,), r),
    ensures
        r <==> status is MinedConfirmed || status is MinedConfirmedLocked || status
            is OneSidedConfirmed || status is OneSidedConfirmedLocked || status is CoinbaseConfirmed
            || status is CoinbaseConfirmedLocked,
{
}

/// A transaction that is mined at a height is confirmed by a tip if and only if the blocks from that
/// height up to the tip, both included, are as many as the window asks for, at least one; until then
/// it is asked for again. It is confirmed at the moment at which that was seen.
pub proof fn mined_transactions_are_confirmed_by_the_window(
    pending: Pending,
    info: TxInfo,
    tip: u64,
    told_ns: u64,
    read_ns: u64,
    stage: ConfirmStage,
)
    requires
        call_ensures(
            ConfirmStage::resume,
            (ConfirmStage::Ask, pending, ConfirmEvent::Told(Ok(Some(info))), told_ns),
            stage,
        ),
        info.status is Other,
        info.mined_in_block_height > 0,
        info.mined_in_block_height + pending.confirmation_window <= u64::MAX,
    ensures
        stage is ReadTip,
        ({
            let after = stage.after(pending, ConfirmEvent::Tip(Ok(tip)), read_ns);
            let confirmed = tip >= info.mined_in_block_height && tip - info.mined_in_block_height
                + 1 >= pending.confirmation_window;
            &&& confirmed ==> after == (ConfirmStageView::Confirmed { after_ns: read_ns })
            &&& !confirmed ==> after is Pause
        }),
{
}

/// A wait for a confirmation ends at once with a state of confirmation or of rejection; a transaction
/// that is neither confirmed nor mined is waited for, until ten minutes are over. What cannot be read
/// ends the wait with its cause.
pub proof fn waits_for_a_confirmation_end(pending: Pending, info: TxInfo, error: String, confirmed_from: u64, now_ns: u64)
    ensures
        ({
            let told = ConfirmStage::Ask.after(
                pending,
                ConfirmEvent::Told(Ok(Some(info))),
                now_ns,
            );
            &&& info.status is Rejected ==> told is Failed
            &&& info.status is Rejected && info.rejected_reason@.len() > 0 ==> told
                == ConfirmStageView::Failed(info.rejected_reason@)
            &&& !(info.status is Rejected) && !(info.status is Other) ==> told == (
            ConfirmStageView::Confirmed { after_ns: now_ns })
            &&& info.status is Other && info.mined_in_block_height == 0 ==> told is Pause
        }),
        ConfirmStage::Ask.after(pending, ConfirmEvent::Told(Ok(None)), now_ns) is Pause,
        ConfirmStage::Ask.after(pending, ConfirmEvent::Told(Err(error)), now_ns)
            == ConfirmStageView::Failed(error@),
        (ConfirmStage::ReadTip { confirmed_from }).after(
            pending,
            ConfirmEvent::Tip(Err(error)),
            now_ns,
        ) == ConfirmStageView::Failed(error@),
        ConfirmStage::Pause.after(pending, ConfirmEvent::Paused, now_ns) is Failed <==> now_ns
            > 600_000_000_000,
        now_ns <= 600_000_000_000 ==> ConfirmStage::Pause.after(
            pending,
            ConfirmEvent::Paused,
            now_ns,
        ) is Ask,
{
}

/// A transfer has one payment for each recipient, in order: to its address, of its amount, at the fee
/// rate.
pub proof fn transfers_pay_each_recipient(
    recipients: &Vec<(String, u64)>,
    fee_rate: u64,
    r: Vec<PaymentRecipient>,
    i: int,
)
    requires
        call_ensures(payment_recipients, (recipients, fee_rate), r),
        0 <= i < recipients@.len(),
    ensures
        r@.len() == recipients@.len(),
        r@[i].address@ == recipients@[i].0@,
        r@[i].amount == recipients@[i].1,
        r@[i].fee_per_gram == fee_rate,
{
    assert(payment_views(r@).len() == r@.len());
    assert(payment_views(r@)[i] == (recipients@[i].0@, recipients@[i].1, fee_rate));
}

/// A transfer is made if it has results and all of them are successes, and then has the id and the fee of
/// its first result, zero where no fee is told. A single failure fails it with its own message, or
/// with one that names the recipient.
pub proof fn transfers_are_judged_by_all_their_results(results: &Vec<TransferResult>, r: Result<Transfer, String>)
    requires
        call_ensures(judge_transfer, (results,), r),
    ensures
        r is Ok <==> results@.len() > 0 && forall|i: int|
            0 <= i < results@.len() ==> (#[trigger] results@[i]).is_success,
        r matches Ok(transfer) ==> {
            &&& transfer.transaction_id == results@[0].transaction_id
            &&& results@[0].fee is None ==> transfer.fee_paid == 0
            &&& results@[0].fee matches Some(fee) ==> transfer.fee_paid == fee
        },
        results@.len() == 0 ==> r->Err_0@ == "transfer returned no results"@,
        results@.len() == 1 && !results@[0].is_success && results@[0].failure_message@.len() > 0
            ==> r->Err_0@ == results@[0].failure_message@,
        results@.len() == 1 && !results@[0].is_success && results@[0].failure_message@.len() == 0
            ==> r->Err_0@ == "recipient "@ + results@[0].address@ + " failed"@,
{
    a_transfer_is_made_whole(results@);
    reveal_with_fuel(complaints, 2);
}

/// The metrics of a transfer tell its id, its fee and its times, each in its place, and that it
/// succeeded.
pub proof fn transfers_are_measured_as_they_went(transfer: Transfer, ns: (u64, u64, u64), r: TxMetrics)
    requires
        call_ensures(transfer_metrics, (transfer, ns.0, ns.1, ns.2), r),
    ensures
        r.success,
        r.error is None,
        r.tx_id@ == decimal(transfer.transaction_id as nat),
        r.fee_paid == transfer.fee_paid,
        r.construction_ns == ns.0,
        r.broadcast_to_mempool_ns == ns.1,
        r.broadcast_to_confirmed_ns == ns.2,
{
    assert(r@.error is None);
}

/// The funding is found among the incoming transactions of at least the expected amount: it is one of
/// those, and none of them is later. There is none only if there is no such transaction.
pub proof fn the_funding_is_the_latest_incoming_transaction(
    txs: &Vec<CompletedTx>,
    expected_amount_ut: u64,
    r: Option<String>,
)
    requires
        call_ensures(latest_incoming_tx_id, (txs, expected_amount_ut), r),
    ensures
        r is None <==> forall|i: int|
            0 <= i < txs@.len() ==> !((#[trigger] txs@[i]).inbound && txs@[i].amount
                >= expected_amount_ut),
        r matches Some(id) ==> exists|i: int|
            {
                &&& 0 <= i < txs@.len()
                &&& id@ == decimal((#[trigger] txs@[i]).tx_id as nat)
                &&& txs@[i].inbound && txs@[i].amount >= expected_amount_ut
                &&& forall|j: int|
                    0 <= j < txs@.len() && (#[trigger] txs@[j]).inbound && txs@[j].amount
                        >= expected_amount_ut ==> txs@[j].timestamp <= txs@[i].timestamp
            },
{
    the_latest_funding_is_the_latest(txs@, expected_amount_ut);
    match latest_funding(txs@, expected_amount_ut) {
        Some(tx) => {
            let i = choose|i: int| 0 <= i < txs@.len() && txs@[i] == tx;
            assert(txs@[i].inbound && txs@[i].amount >= expected_amount_ut);
            assert forall|j: int|
                0 <= j < txs@.len() && (#[trigger] txs@[j]).inbound && txs@[j].amount
                    >= expected_amount_ut implies txs@[j].timestamp <= txs@[i].timestamp by {
                assert(funds(txs@[j], expected_amount_ut));
            }
            assert(r is Some);
            assert(r->0@ == decimal(txs@[i].tx_id as nat));
        },
        None => {
            assert forall|i: int| 0 <= i < txs@.len() implies !((#[trigger] txs@[i]).inbound
                && txs@[i].amount >= expected_amount_ut) by {
                assert(!funds(txs@[i], expected_amount_ut));
            }
        },
    }
}

/// A wipe removes the directory and creates it anew. Denied access and files in use lead to another
/// attempt, and so does a directory that is gone when it is to be removed or there when it is to be
/// created; any other error ends the wipe with its message. After twenty attempts it has failed with
/// the last error.
pub proof fn wipes_try_again_where_it_may_help(wipe: WipeView, error: FsError)
    requires
        wipe.wf(),
    ensures
        ({
            let after = wipe.after(Err(error));
            let held = error.kind is PermissionDenied || error.code == Some(32i32);
            let again = match wipe.stage {
                WipeStageView::Remove => held || error.kind is NotFound,
                WipeStageView::Create => held || error.kind is AlreadyExists,
                _ => false,
            };
            &&& wipe.stage is Remove || wipe.stage is Create ==> (after.stage is Retry <==> again)
            &&& wipe.stage is Remove || wipe.stage is Create ==> (again ==> after.last_error == Some(
                error.message@,
            ))
            &&& wipe.stage is Remove || wipe.stage is Create ==> (!again ==> after.stage
                == WipeStageView::Failed(error.message@))
        }),
        wipe.stage is Remove ==> wipe.after(Ok(())).stage is Create,
        wipe.stage is Create ==> wipe.after(Ok(())).stage is Settle,
        wipe.stage is Settle ==> wipe.after(Ok(())).stage is Wiped,
        wipe.stage is Retry && wipe.attempt < 19 ==> wipe.after(Ok(())).stage is Remove
            && wipe.after(Ok(())).attempt == wipe.attempt + 1,
        wipe.stage is Retry && wipe.attempt >= 19 ==> wipe.after(Ok(())).stage is Failed,
        wipe.stage is Retry && wipe.attempt >= 19 && wipe.last_error is Some ==> wipe.after(
            Ok(()),
        ).stage == WipeStageView::Failed(wipe.last_error->0),
        WipeView::begin().stage is Remove && WipeView::begin().attempt == 0,
{
}

/// Transactions have cleared if and only if nothing is pending either way; they are waited for up to the
/// timeout, and are an error after it.
pub proof fn nothing_pending_is_cleared(incoming: u64, outgoing: u64, elapsed_ns: u64, timeout_secs: u64, r: Result<bool, String>)
    requires
        call_ensures(pending_cleared, (incoming, outgoing, elapsed_ns, timeout_secs), r),
    ensures
        r is Ok && r->Ok_0 <==> incoming == 0 && outgoing == 0,
        r is Err <==> incoming + outgoing > 0 && elapsed_ns > timeout_secs * 1_000_000_000,
{
}

/// Funding has arrived if and only if the available balance holds it. It was in the mempool from the
/// first moment on at which it was pending or available, and goes by the first transaction that was
/// found for it. Neither changes afterwards.
pub proof fn funding_is_seen_once(
    watch: FundingWatch,
    expected: u64,
    balance: WalletBalance,
    latest: Option<String>,
    elapsed_ns: u64,
    r: FundingRound,
)
    requires
        call_ensures(FundingWatch::round, (watch, expected, balance, latest, elapsed_ns), r),
    ensures
        r is Arrived <==> balance.available >= expected,
        r matches FundingRound::Arrived(tx) ==> {
            &&& tx.success && tx.error is None && tx.fee_paid == 0 && tx.construction_ns == 0
            &&& tx.broadcast_to_confirmed_ns == elapsed_ns
            &&& watch.first_seen_ns matches Some(ns) ==> tx.broadcast_to_mempool_ns == ns
            &&& watch.first_seen_ns is None ==> tx.broadcast_to_mempool_ns == elapsed_ns
            &&& watch.tx_id matches Some(id) ==> tx.tx_id@ == id@
            &&& watch.tx_id is None ==> (latest matches Some(id) ==> tx.tx_id@ == id@)
            &&& watch.tx_id is None && latest is None ==> tx.tx_id@ == "incoming-funding"@
        },
        r matches FundingRound::Wait(next) ==> {
            &&& watch.first_seen_ns is Some ==> next.first_seen_ns == watch.first_seen_ns
            &&& watch.first_seen_ns is None && balance.pending_incoming >= expected
                ==> next.first_seen_ns == Some(elapsed_ns)
            &&& watch.first_seen_ns is None && balance.pending_incoming < expected
                ==> next.first_seen_ns is None
            &&& watch.tx_id matches Some(id) ==> next.tx_id is Some && next.tx_id->0@ == id@
            &&& watch.tx_id is None ==> (latest matches Some(id) ==> next.tx_id is Some
                && next.tx_id->0@ == id@)
            &&& watch.tx_id is None && latest is None ==> next.tx_id is None
        },
{
    match r {
        FundingRound::Arrived(tx) => {
            assert(tx@.error is None);
        },
        FundingRound::Wait(next) => {
            assert(text_view(next.tx_id) == next@.tx_id);
        },
    }
}

/// The error of a start that failed ends with the error output of the process, where there is any.
pub proof fn error_output_is_told(message: Seq<char>, stderr: Seq<char>)
    ensures
        stderr.len() == 0 ==> with_stderr(message, stderr) == message,
        stderr.len() > 0 ==> with_stderr(message, stderr) == message + ". stderr:\n"@ + stderr,
{
}

/// The steps that are carried out in a start, a scan, a wait for a confirmation and a wipe are those that
/// are said of them.
pub proof fn steps_go_as_they_are_described(
    start: (StartStage, u64, StartEvent, u64, StartStage),
    scan: (ScanStage, Option<u64>, ScanEvent, u64, ScanStage),
    confirm: (ConfirmStage, Pending, ConfirmEvent, u64, ConfirmStage),
    wipe: (Wipe, Result<(), FsError>, Wipe),
)
    requires
        call_ensures(StartStage::resume, (start.0, start.1, start.2, start.3), start.4),
        call_ensures(ScanStage::resume, (scan.0, scan.1, scan.2, scan.3), scan.4),
        call_ensures(
            ConfirmStage::resume,
            (confirm.0, confirm.1, confirm.2, confirm.3),
            confirm.4,
        ),
        call_ensures(Wipe::resume, (wipe.0, wipe.1), wipe.2),
    ensures
        start.4@ == start.0@.after(start.1, start.2, start.3),
        scan.4@ == scan.0@.after(scan.1, scan.2@, scan.3),
        confirm.4@ == confirm.0.after(confirm.1, confirm.2, confirm.3),
        wipe.2@ == wipe.0@.after(wipe.1),
{
}

/// The words that a scan sets are the wallet's own with the birthday of the scan.
pub proof fn birthdays_are_set_on_the_own_words(words: &str, days: u64, r: Result<String, String>, reborn: Result<String, String>)
    requires
        call_ensures(set_seed_birthday, (words, days), r),
        call_ensures(seed_words_with_birthday, (words, days), reborn),
    ensures
        r is Ok <==> reborn is Ok,
        r matches Ok(phrase) ==> phrase@ == reborn->Ok_0@,
        r matches Err(error) ==> error@ == reborn->Err_0@,
{
    assert(text_result_view(r) == text_result_view(reborn));
}

/// Every failed payment of a transfer is complained about, in order: a further failure adds its complaint
/// behind the others, and a further success adds nothing.
pub proof fn every_failure_is_complained_about(before: &Vec<TransferResult>, next: TransferResult, results: &Vec<TransferResult>, was: Result<Transfer, String>, is: Result<Transfer, String>)
    requires
        before@.len() > 0,
        results@ == before@.push(next),
        call_ensures(judge_transfer, (before,), was),
        call_ensures(judge_transfer, (results,), is),
    ensures
        next.is_success && was is Err ==> is is Err && is->Err_0@ == was->Err_0@,
        next.is_success && was is Ok ==> is is Ok,
        !next.is_success && was is Err && next.failure_message@.len() > 0 ==> is is Err
            && is->Err_0@ == was->Err_0@ + "; "@ + next.failure_message@,
        !next.is_success && was is Ok && next.failure_message@.len() > 0 ==> is is Err
            && is->Err_0@ == next.failure_message@,
{
    assert(results@.drop_last() =~= before@);
    assert(results@.last() == next);
    assert(results@[0] == before@[0]);
}

/// A start that failed tells why: the reason why the process could not be spawned or looked at, the status
/// with which it ended, or the time that it had. Where the process ended, its error output follows,
/// if there is any.
pub proof fn failed_starts_tell_why(
    timeout_secs: u64,
    status: String,
    reason: String,
    stderr: String,
    now_ns: u64,
    spawn: StartStage,
    look: StartStage,
    settle: StartStage,
    kill: StartStage,
)
    requires
        call_ensures(
            StartStage::resume,
            (StartStage::Spawn, timeout_secs, StartEvent::Spawned(Err(reason)), now_ns),
            spawn,
        ),
        call_ensures(
            StartStage::resume,
            (
                StartStage::Look,
                timeout_secs,
                StartEvent::Found(ProcessState::Unknown(reason)),
                now_ns,
            ),
            look,
        ),
        call_ensures(
            StartStage::resume,
            ((StartStage::Settle { status }), timeout_secs, (StartEvent::Ended { stderr }), now_ns),
            settle,
        ),
        call_ensures(
            StartStage::resume,
            (StartStage::Kill, timeout_secs, (StartEvent::Ended { stderr }), now_ns),
            kill,
        ),
    ensures
        spawn@ == StartStageView::Failed("failed to spawn wallet process: "@ + reason@),
        look@ == StartStageView::Failed("failed to check wallet process status: "@ + reason@),
        ({
            let output = if stderr@.len() > 0 {
                ". stderr:\n"@ + stderr@
            } else {
                Seq::empty()
            };
            &&& settle@ == StartStageView::Failed(
                "wallet process exited early with "@ + status@ + output,
            )
            &&& kill@ == StartStageView::Failed(
                "wallet gRPC did not become ready within "@ + decimal(timeout_secs as nat) + "s"@
                    + output,
            )
        }),
{
    let settled = "wallet process exited early with "@ + status@;
    let killed = "wallet gRPC did not become ready within "@ + decimal(timeout_secs as nat) + "s"@;
    assert(settled + ". stderr:\n"@ + stderr@ =~= settled + (". stderr:\n"@ + stderr@));
    assert(killed + ". stderr:\n"@ + stderr@ =~= killed + (". stderr:\n"@ + stderr@));
    assert(settled + Seq::<char>::empty() =~= settled);
    assert(killed + Seq::<char>::empty() =~= killed);
}

} // verus!
