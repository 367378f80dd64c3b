//! A whole benchmark run against one wallet: all scenarios in order, with what has to happen
//! between them.
//!
//! A suite is a conversation with a wallet driver, as a scenario is. A scenario that cannot be
//! completed is reported as failed, and the suite goes on with the next one.

use vstd::prelude::*;

use crate::config::{stated_fee_rate, Config, CONFIRMATION_TIMEOUT_SECS};
use crate::driver::{Call, CallView, Reply, ReplyView};
use crate::metrics::{
    result_views, result_views_push, ResultView, ScanMetrics, ScenarioResult, TxView,
};
use crate::plan::{
    concurrent_plan, concurrent_shape, configured_plan, throughput_plan, throughput_shape,
    volume_plan, volume_shape, PlanView, SendPlan,
};
use crate::scenarios::{
    error_result, every_reply_is_progress, run_s0, run_s1, run_s4, run_s5, scenario_error_result,
    Outcome, RunView, ScenarioRun, StageView, Task, TaskView,
};
use crate::text::same_text;

verus! {

/// The scenarios.
#[derive(Clone, Copy, PartialEq, Eq, Structural, Debug)]
pub enum Scenario {
    B0,
    S0,
    S1,
    S2,
    S3,
    S4,
    S5,
    S6,
    S7,
}

/// One item of a suite's program.
#[derive(Clone, Copy, PartialEq, Eq, Structural, Debug)]
pub enum Item {
    Play(Scenario),
    /// Read the balance that the next recovery scans have to find.
    Checkpoint,
    /// Wipe the wallet.
    Reset,
    /// Let pending transactions clear.
    AwaitPending,
    /// Announce the wallet's address, to which the funding goes.
    ShowAddress,
}

/// How a suite prepares its recovery scans.
#[derive(Clone, Copy, PartialEq, Eq, Structural, Debug)]
pub enum Protocol {
    /// The wallet is wiped before each recovery scan.
    Wipe,
    /// The driver rescans in place; only pending transactions have to clear.
    Settle,
}

impl Protocol {
    /// What a suite does, in order.
    pub open spec fn program(self) -> Seq<Item> {
        match self {
            Protocol::Wipe => seq![
                Item::Play(Scenario::B0),
                Item::Play(Scenario::S0),
                Item::Play(Scenario::S1),
                Item::Checkpoint,
                Item::Reset,
                Item::Play(Scenario::S2),
                Item::Reset,
                Item::Play(Scenario::S3),
                Item::Play(Scenario::S4),
                Item::Play(Scenario::S5),
                Item::Checkpoint,
                Item::Reset,
                Item::Play(Scenario::S6),
                Item::Reset,
                Item::Play(Scenario::S7),
            ],
            Protocol::Settle => seq![
                Item::Play(Scenario::B0),
                Item::ShowAddress,
                Item::Play(Scenario::S0),
                Item::Play(Scenario::S1),
                Item::Checkpoint,
                Item::AwaitPending,
                Item::Play(Scenario::S2),
                Item::Play(Scenario::S3),
                Item::Play(Scenario::S4),
                Item::Play(Scenario::S5),
                Item::Checkpoint,
                Item::AwaitPending,
                Item::Play(Scenario::S6),
                Item::Play(Scenario::S7),
            ],
        }
    }

    /// The item at position `n` of the program, if there is one.
    pub fn item_at(self, n: usize) -> (r: Option<Item>)
        ensures
            r == if n < self.program().len() {
                Some(self.program()[n as int])
            } else {
                None
            },
    {
        match self {
            Protocol::Wipe => match n {
                0 => Some(Item::Play(Scenario::B0)),
                1 => Some(Item::Play(Scenario::S0)),
                2 => Some(Item::Play(Scenario::S1)),
                3 => Some(Item::Checkpoint),
                4 => Some(Item::Reset),
                5 => Some(Item::Play(Scenario::S2)),
                6 => Some(Item::Reset),
                7 => Some(Item::Play(Scenario::S3)),
                8 => Some(Item::Play(Scenario::S4)),
                9 => Some(Item::Play(Scenario::S5)),
                10 => Some(Item::Checkpoint),
                11 => Some(Item::Reset),
                12 => Some(Item::Play(Scenario::S6)),
                13 => Some(Item::Reset),
                14 => Some(Item::Play(Scenario::S7)),
                _ => None,
            },
            Protocol::Settle => match n {
                0 => Some(Item::Play(Scenario::B0)),
                1 => Some(Item::ShowAddress),
                2 => Some(Item::Play(Scenario::S0)),
                3 => Some(Item::Play(Scenario::S1)),
                4 => Some(Item::Checkpoint),
                5 => Some(Item::AwaitPending),
                6 => Some(Item::Play(Scenario::S2)),
                7 => Some(Item::Play(Scenario::S3)),
                8 => Some(Item::Play(Scenario::S4)),
                9 => Some(Item::Play(Scenario::S5)),
                10 => Some(Item::Checkpoint),
                11 => Some(Item::AwaitPending),
                12 => Some(Item::Play(Scenario::S6)),
                13 => Some(Item::Play(Scenario::S7)),
                _ => None,
            },
        }
    }
}

/// What the configuration says about the scenarios.
#[derive(PartialEq, Eq, Debug)]
pub struct Settings {
    pub a_fund: u64,
    /// Outputs that the scans after the build-up have to find, where they report outputs.
    pub volume_target: u64,
    pub s1: SendPlan,
    pub s4: SendPlan,
    pub s5: SendPlan,
}

pub struct SettingsView {
    pub a_fund: u64,
    pub volume_target: u64,
    pub s1: PlanView,
    pub s4: PlanView,
    pub s5: PlanView,
}

impl View for Settings {
    type V = SettingsView;

    open spec fn view(&self) -> SettingsView {
        SettingsView {
            a_fund: self.a_fund,
            volume_target: self.volume_target,
            s1: self.s1@,
            s4: self.s4@,
            s5: self.s5@,
        }
    }
}

impl SettingsView {
    pub open spec fn valid(self) -> bool {
        &&& TaskView::S1(self.s1).valid()
        &&& TaskView::S4(self.s4).valid()
        &&& TaskView::S5(self.s5).valid()
    }

    /// The settings under a configuration.
    pub open spec fn of(config: Config) -> SettingsView {
        SettingsView {
            a_fund: config.benchmark.a_fund,
            volume_target: config.benchmark.volume_target,
            s1: configured_plan(config, volume_shape(config)),
            s4: configured_plan(config, concurrent_shape(config)),
            s5: configured_plan(config, throughput_shape(config)),
        }
    }

    /// A scenario with what it needs to know: the settings, the birth height and the balance that
    /// recovery scans have to find.
    pub open spec fn task(self, scenario: Scenario, h_birth: u64, checkpoint: u64) -> TaskView {
        match scenario {
            Scenario::B0 => TaskView::B0,
            Scenario::S0 => TaskView::S0 { a_fund: self.a_fund },
            Scenario::S1 => TaskView::S1(self.s1),
            Scenario::S2 => TaskView::S2 {
                target: self.volume_target,
                expected_balance: checkpoint,
            },
            Scenario::S3 => TaskView::S3 {
                h_birth,
                target: self.volume_target,
                expected_balance: checkpoint,
            },
            Scenario::S4 => TaskView::S4(self.s4),
            Scenario::S5 => TaskView::S5(self.s5),
            Scenario::S6 => TaskView::S6 { expected_balance: checkpoint },
            Scenario::S7 => TaskView::S7 { h_birth, expected_balance: checkpoint },
        }
    }
}

/// A benchmark run against one wallet.
#[derive(PartialEq, Eq, Debug)]
pub struct Suite {
    pub protocol: Protocol,
    pub settings: Settings,
    /// The item of the program that is under way.
    pub position: usize,
    /// The scenario that is under way, if the item is one.
    pub current: Option<ScenarioRun>,
    /// When the item began, in nanoseconds into the suite.
    pub started_ns: u64,
    pub results: Vec<ScenarioResult>,
    /// The tip height before the funding.
    pub h_birth: u64,
    /// The balance that recovery scans have to find.
    pub checkpoint: u64,
}

pub struct SuiteView {
    pub protocol: Protocol,
    pub settings: SettingsView,
    pub position: nat,
    pub current: Option<RunView>,
    pub started_ns: u64,
    pub results: Seq<ResultView>,
    pub h_birth: u64,
    pub checkpoint: u64,
}

impl View for Suite {
    type V = SuiteView;

    open spec fn view(&self) -> SuiteView {
        SuiteView {
            protocol: self.protocol,
            settings: self.settings@,
            position: self.position as nat,
            current: match self.current {
                Some(run) => Some(run@),
                None => None,
            },
            started_ns: self.started_ns,
            results: result_views(self.results@),
            h_birth: self.h_birth,
            checkpoint: self.checkpoint,
        }
    }
}

/// The scenarios among the first `n` items of a program.
pub open spec fn played(program: Seq<Item>, n: nat) -> Seq<Scenario>
    decreases n,
{
    if n == 0 {
        Seq::empty()
    } else {
        match program[n - 1] {
            Item::Play(scenario) => played(program, (n - 1) as nat).push(scenario),
            _ => played(program, (n - 1) as nat),
        }
    }
}

impl Scenario {
    /// The scenario's name in reports.
    pub open spec fn label(self) -> Seq<char> {
        match self {
            Scenario::B0 => "B0"@,
            Scenario::S0 => "S0"@,
            Scenario::S1 => "S1"@,
            Scenario::S2 => "S2"@,
            Scenario::S3 => "S3"@,
            Scenario::S4 => "S4"@,
            Scenario::S5 => "S5"@,
            Scenario::S6 => "S6"@,
            Scenario::S7 => "S7"@,
        }
    }
}

impl SuiteView {
    /// The suite before its first call.
    pub open spec fn begin(protocol: Protocol, settings: SettingsView) -> SuiteView {
        SuiteView {
            protocol,
            settings,
            position: 0,
            current: Some(RunView::begin(TaskView::B0)),
            started_ns: 0,
            results: Seq::empty(),
            h_birth: 0,
            checkpoint: 0,
        }
    }

    /// The item that is under way, if the suite has not ended.
    pub open spec fn item(self) -> Option<Item> {
        if self.position < self.protocol.program().len() {
            Some(self.protocol.program()[self.position as int])
        } else {
            None
        }
    }

    /// The scenario under way is the one that the program asks for, and there is a result for every
    /// scenario before it, under its name and in order.
    pub open spec fn wf(self) -> bool {
        &&& self.settings.valid()
        &&& self.position <= self.protocol.program().len()
        &&& match self.item() {
            Some(Item::Play(scenario)) => self.current matches Some(run) && run.wf()
                && run.call() is Some && run.task == self.settings.task(
                scenario,
                self.h_birth,
                self.checkpoint,
            ),
            _ => self.current is None,
        }
        &&& self.results.len() == played(self.protocol.program(), self.position).len()
        &&& forall|i: int|
            0 <= i < self.results.len() ==> (#[trigger] self.results[i]).scenario_name == played(
                self.protocol.program(),
                self.position,
            )[i].label()
    }

    /// What the suite asks next; nothing once it has ended.
    pub open spec fn call(self) -> Option<CallView> {
        match self.item() {
            Some(Item::Play(_)) => self.current->0.call(),
            Some(Item::Checkpoint) => Some(CallView::GetBalance),
            Some(Item::Reset) => Some(CallView::Reset),
            Some(Item::AwaitPending) => Some(
                CallView::AwaitPending { timeout_secs: CONFIRMATION_TIMEOUT_SECS },
            ),
            Some(Item::ShowAddress) => Some(CallView::GetSelfAddress),
            None => None,
        }
    }

    /// The suite at the next item, which begins `now_ns` into the suite.
    pub open spec fn advanced(self, now_ns: u64) -> SuiteView {
        let next = SuiteView {
            position: self.position + 1,
            current: None,
            started_ns: now_ns,
            ..self
        };
        match next.item() {
            Some(Item::Play(scenario)) => SuiteView {
                current: Some(
                    RunView::begin(self.settings.task(scenario, self.h_birth, self.checkpoint)),
                ),
                ..next
            },
            _ => next,
        }
    }

    /// The suite with the result of the scenario under way.
    pub open spec fn concluded(self, result: ResultView, now_ns: u64) -> SuiteView {
        SuiteView {
            results: self.results.push(result),
            h_birth: if self.current->0.task is S0 {
                match result.recorded_birth_height {
                    Some(height) => height,
                    None => 0,
                }
            } else {
                self.h_birth
            },
            ..self
        }.advanced(now_ns)
    }

    /// The suite after a reply that arrived `now_ns` into it.
    pub open spec fn after(self, reply: ReplyView, now_ns: u64) -> SuiteView {
        match self.item() {
            Some(Item::Play(_)) => {
                let elapsed_ns = if now_ns >= self.started_ns {
                    (now_ns - self.started_ns) as u64
                } else {
                    0
                };
                let run = self.current->0.after(reply, elapsed_ns);
                match run.stage {
                    StageView::Finished { result } => self.concluded(result, now_ns),
                    StageView::Failed { error } => self.concluded(
                        error_result(run.task.name(), error),
                        now_ns,
                    ),
                    _ => SuiteView { current: Some(run), ..self },
                }
            },
            Some(Item::Checkpoint) => SuiteView {
                checkpoint: match reply {
                    ReplyView::Number(Ok(balance)) => balance,
                    _ => 0,
                },
                ..self
            }.advanced(now_ns),
            Some(_) => self.advanced(now_ns),
            None => self,
        }
    }
}

impl Settings {
    /// The settings under a configuration with a valid fee rate.
    pub fn of(config: &Config) -> (r: Settings)
        requires
            stated_fee_rate(*config) is Some,
        ensures
            r@ == SettingsView::of(*config),
    {
        Settings {
            a_fund: config.benchmark.a_fund,
            volume_target: config.benchmark.volume_target,
            s1: volume_plan(config),
            s4: concurrent_plan(config),
            s5: throughput_plan(config),
        }
    }

    /// A scenario with what it needs to know.
    fn task(&self, scenario: Scenario, h_birth: u64, checkpoint: u64) -> (r: Task)
        ensures
            r@ == self@.task(scenario, h_birth, checkpoint),
    {
        match scenario {
            Scenario::B0 => Task::B0,
            Scenario::S0 => Task::S0 { a_fund: self.a_fund },
            Scenario::S1 => Task::S1(self.s1.duplicate()),
            Scenario::S2 => Task::S2 {
                target: self.volume_target,
                expected_balance: checkpoint,
            },
            Scenario::S3 => Task::S3 {
                h_birth,
                target: self.volume_target,
                expected_balance: checkpoint,
            },
            Scenario::S4 => Task::S4(self.s4.duplicate()),
            Scenario::S5 => Task::S5(self.s5.duplicate()),
            Scenario::S6 => Task::S6 { expected_balance: checkpoint },
            Scenario::S7 => Task::S7 { h_birth, expected_balance: checkpoint },
        }
    }
}

impl Suite {
    /// The suite before its first call.
    pub fn begin(protocol: Protocol, settings: Settings) -> (r: Suite)
        requires
            settings@.valid(),
        ensures
            r@ == SuiteView::begin(protocol, settings@),
            r@.wf(),
    {
        let r = Suite {
            protocol,
            settings,
            position: 0,
            current: Some(ScenarioRun::begin(Task::B0)),
            started_ns: 0,
            results: Vec::new(),
            h_birth: 0,
            checkpoint: 0,
        };
        assert(r@.results =~= Seq::empty());
        r
    }

    /// What the suite asks next; nothing once it has ended.
    pub fn call(&self) -> (r: Option<Call>)
        requires
            self@.wf(),
        ensures
            match r {
                Some(call) => self@.call() == Some(call@),
                None => self@.call() is None,
            },
    {
        match self.protocol.item_at(self.position) {
            Some(Item::Play(_)) => match &self.current {
                Some(run) => run.call(),
                None => None,
            },
            Some(Item::Checkpoint) => Some(Call::GetBalance),
            Some(Item::Reset) => Some(Call::Reset),
            Some(Item::AwaitPending) => Some(
                Call::AwaitPending { timeout_secs: CONFIRMATION_TIMEOUT_SECS },
            ),
            Some(Item::ShowAddress) => Some(Call::GetSelfAddress),
            None => None,
        }
    }

    /// Moves to the next item.
    fn advance(self, now_ns: u64) -> (r: Suite)
        requires
            self@.settings.valid(),
            self@.position < self@.protocol.program().len(),
        ensures
            r@ == self@.advanced(now_ns),
    {
        let mut next = self;
        next.position = next.position + 1;
        next.started_ns = now_ns;
        next.current = match next.protocol.item_at(next.position) {
            Some(Item::Play(scenario)) => Some(
                ScenarioRun::begin(next.settings.task(scenario, next.h_birth, next.checkpoint)),
            ),
            _ => None,
        };
        next
    }

    /// Notes the result of the scenario under way and moves to the next item.
    fn conclude(self, scenario: Scenario, result: ScenarioResult, now_ns: u64) -> (r: Suite)
        requires
            self@.settings.valid(),
            self@.position < self@.protocol.program().len(),
        ensures
            r@ == (SuiteView {
                results: self@.results.push(result@),
                h_birth: if scenario is S0 {
                    match result@.recorded_birth_height {
                        Some(height) => height,
                        None => 0,
                    }
                } else {
                    self@.h_birth
                },
                ..self@
            }).advanced(now_ns),
    {
        let mut suite = self;
        if let Scenario::S0 = scenario {
            suite.h_birth = match result.recorded_birth_height {
                Some(height) => height,
                None => 0,
            };
        }
        proof {
            result_views_push(suite.results@, result);
        }
        suite.results.push(result);
        suite.advance(now_ns)
    }

    /// Takes the reply to the suite's call, which arrived `now_ns` into the suite.
    pub fn resume(self, reply: Reply, now_ns: u64) -> (r: Suite)
        requires
            self@.wf(),
            self@.call() matches Some(call) && reply@.answers(call),
        ensures
            r@ == self@.after(reply@, now_ns),
            r@.wf(),
    {
        proof {
            suite_stays_on_its_way(self@, reply@, now_ns);
        }
        let mut suite = self;
        match suite.protocol.item_at(suite.position) {
            Some(Item::Play(scenario)) => {
                let elapsed_ns: u64 = now_ns.saturating_sub(suite.started_ns);
                match suite.current.take() {
                    Some(run) => {
                        let next = run.resume(reply, elapsed_ns);
                        let name = next.task.name();
                        match next.outcome() {
                            Outcome::Finished(result) => suite.conclude(scenario, result, now_ns),
                            Outcome::Failed(error) => {
                                let result = scenario_error_result(name.as_str(), error);
                                suite.conclude(scenario, result, now_ns)
                            },
                            Outcome::UnderWay(run) => {
                                suite.current = Some(run);
                                suite
                            },
                        }
                    },
                    None => suite,
                }
            },
            Some(Item::Checkpoint) => {
                suite.checkpoint = match reply {
                    Reply::Number(Ok(balance)) => balance,
                    _ => 0,
                };
                suite.advance(now_ns)
            },
            Some(_) => suite.advance(now_ns),
            None => suite,
        }
    }

    /// The results so far; all of them once the suite has ended.
    pub fn into_results(self) -> (r: Vec<ScenarioResult>)
        ensures
            result_views(r@) == self@.results,
    {
        self.results
    }
}

/// Whatever the wallet replies, the suite goes on with its program: the scenario under way is the
/// one that the program asks for, and every scenario before it has its one result, under its name
/// and in order.
pub proof fn suite_stays_on_its_way(suite: SuiteView, reply: ReplyView, now_ns: u64)
    requires
        suite.wf(),
        suite.call() matches Some(call) && reply.answers(call),
    ensures
        suite.after(reply, now_ns).wf(),
        suite.after(reply, now_ns).protocol == suite.protocol,
        suite.after(reply, now_ns).settings == suite.settings,
{
    if let Some(Item::Play(_)) = suite.item() {
        let elapsed_ns = if now_ns >= suite.started_ns {
            (now_ns - suite.started_ns) as u64
        } else {
            0
        };
        every_reply_is_progress(suite.current->0, reply, elapsed_ns);
    }
}

impl SuiteView {
    /// The most calls that the suite may still make.
    pub open spec fn calls_left(self) -> nat {
        calls_from(self.protocol, self.settings, self.position) + match self.current {
            Some(run) => run.calls_left(),
            None => if self.item() is Some {
                1
            } else {
                0
            },
        }
    }
}

/// The most calls that the items after position `n` make.
pub open spec fn calls_from(protocol: Protocol, settings: SettingsView, n: nat) -> nat
    decreases protocol.program().len() - n,
{
    if n + 1 >= protocol.program().len() {
        0
    } else {
        calls_from(protocol, settings, n + 1) + match protocol.program()[n as int + 1] {
            Item::Play(scenario) => RunView::begin(settings.task(scenario, 0, 0)).calls_left(),
            _ => 1,
        }
    }
}

/// Every reply brings a suite closer to its end.
pub proof fn every_reply_brings_the_end_closer(suite: SuiteView, reply: ReplyView, now_ns: u64)
    requires
        suite.wf(),
        suite.call() matches Some(call) && reply.answers(call),
    ensures
        suite.after(reply, now_ns).calls_left() < suite.calls_left(),
{
    let after = suite.after(reply, now_ns);
    if let Some(Item::Play(scenario)) = suite.item() {
        let elapsed_ns = if now_ns >= suite.started_ns {
            (now_ns - suite.started_ns) as u64
        } else {
            0
        };
        every_reply_is_progress(suite.current->0, reply, elapsed_ns);
    }
}

/// A suite that has ended holds nine results: the baseline and the eight scenarios, in order, each
/// under its name, whatever the wallet replied.
pub proof fn nine_results_in_order(suite: SuiteView)
    requires
        suite.wf(),
        suite.call() is None,
    ensures
        suite.results.len() == 9,
        suite.results[0].scenario_name == "B0"@,
        suite.results[1].scenario_name == "S0"@,
        suite.results[2].scenario_name == "S1"@,
        suite.results[3].scenario_name == "S2"@,
        suite.results[4].scenario_name == "S3"@,
        suite.results[5].scenario_name == "S4"@,
        suite.results[6].scenario_name == "S5"@,
        suite.results[7].scenario_name == "S6"@,
        suite.results[8].scenario_name == "S7"@,
{
    reveal_with_fuel(played, 16);
    assert(suite.item() is None);
    let order = played(suite.protocol.program(), suite.position);
    assert(order =~= seq![
        Scenario::B0,
        Scenario::S0,
        Scenario::S1,
        Scenario::S2,
        Scenario::S3,
        Scenario::S4,
        Scenario::S5,
        Scenario::S6,
        Scenario::S7,
    ]);
    assert(forall|i: int|
        0 <= i < 9 ==> (#[trigger] suite.results[i]).scenario_name == order[i].label());
}

/// Where a suite stands after the replies so far, each with the time at which it arrived.
pub open spec fn suite_reached(protocol: Protocol, settings: SettingsView, replies: Seq<(ReplyView, u64)>) -> SuiteView
    decreases replies.len(),
{
    if replies.len() == 0 {
        SuiteView::begin(protocol, settings)
    } else {
        suite_reached(protocol, settings, replies.drop_last()).after(
            replies.last().0,
            replies.last().1,
        )
    }
}

/// Each of the replies answers what the suite asked at that point.
pub open spec fn suite_conversation(protocol: Protocol, settings: SettingsView, replies: Seq<(ReplyView, u64)>) -> bool
    decreases replies.len(),
{
    replies.len() > 0 ==> {
        &&& suite_conversation(protocol, settings, replies.drop_last())
        &&& suite_reached(protocol, settings, replies.drop_last()).call() matches Some(call)
            && replies.last().0.answers(call)
    }
}

/// Whatever a wallet replies, a suite ends after a bounded number of calls, and when it has ended it
/// has reported all nine scenarios in order.
pub proof fn every_run_reports_nine_scenarios(protocol: Protocol, settings: SettingsView, replies: Seq<(ReplyView, u64)>)
    requires
        settings.valid(),
        suite_conversation(protocol, settings, replies),
    ensures
        ({
            let suite = suite_reached(protocol, settings, replies);
            let names = seq!["B0"@, "S0"@, "S1"@, "S2"@, "S3"@, "S4"@, "S5"@, "S6"@, "S7"@];
            &&& suite.wf()
            &&& replies.len() + suite.calls_left() <= SuiteView::begin(protocol, settings).calls_left()
            &&& suite.call() is None ==> suite.results.len() == 9 && forall|i: int|
                0 <= i < 9 ==> (#[trigger] suite.results[i]).scenario_name == names[i]
        }),
    decreases replies.len(),
{
    let suite = suite_reached(protocol, settings, replies);
    if replies.len() > 0 {
        let before = suite_reached(protocol, settings, replies.drop_last());
        every_run_reports_nine_scenarios(protocol, settings, replies.drop_last());
        suite_stays_on_its_way(before, replies.last().0, replies.last().1);
        every_reply_brings_the_end_closer(before, replies.last().0, replies.last().1);
    }
    if suite.call() is None {
        nine_results_in_order(suite);
    }
}

/// A wipe that fails, and pending transactions that do not clear, change nothing in what the suite
/// does next.
pub proof fn preparation_failures_are_ignored(suite: SuiteView, error: Seq<char>, now_ns: u64)
    requires
        suite.item() == Some(Item::Reset) || suite.item() == Some(Item::AwaitPending),
    ensures
        suite.after(ReplyView::Done(Err(error)), now_ns) == suite.after(
            ReplyView::Done(Ok(())),
            now_ns,
        ),
{
}

/// A scenario that fails is reported as one failure with its cause; the results before it stay, and
/// the suite moves to the next item.
pub proof fn a_failed_scenario_does_not_stop_the_suite(suite: SuiteView, reply: ReplyView, now_ns: u64)
    requires
        suite.wf(),
        suite.item() matches Some(Item::Play(_)),
        suite.call() matches Some(call) && reply.answers(call),
        suite.current->0.after(reply, 0).stage is Failed,
    ensures
        ({
            let after = suite.after(reply, now_ns);
            let error = suite.current->0.after(reply, 0).stage->error;
            &&& after.position == suite.position + 1
            &&& after.results == suite.results.push(error_result(suite.current->0.task.name(), error))
            &&& after.results.last().failure_count == 1
            &&& after.results.last().error == Some(error)
        }),
{
}

/// The scans after the build-up have to find the configured number of outputs, where they report
/// outputs; no other scenario has such a target.
pub proof fn rediscovery_scans_have_the_configured_target(config: Config, scenario: Scenario, h_birth: u64, checkpoint: u64)
    ensures
        SettingsView::of(config).task(scenario, h_birth, checkpoint).target() == if scenario is S2
            || scenario is S3 {
            Some(config.benchmark.volume_target)
        } else {
            None
        },
{
}

/// The balance that recovery scans have to find is the one read at the last checkpoint, zero if it
/// could not be read; the birth height is the one that the funding scenario recorded, zero if it
/// recorded none. Nothing else changes either of them.
pub proof fn checkpoint_and_birth_height_are_kept(suite: SuiteView, reply: ReplyView, now_ns: u64)
    requires
        suite.wf(),
        suite.call() matches Some(call) && reply.answers(call),
    ensures
        ({
            let after = suite.after(reply, now_ns);
            &&& suite.item() == Some(Item::Checkpoint) ==> after.checkpoint == match reply {
                ReplyView::Number(Ok(balance)) => balance,
                _ => 0,
            }
            &&& suite.item() != Some(Item::Checkpoint) ==> after.checkpoint == suite.checkpoint
            &&& suite.item() != Some(Item::Play(Scenario::S0)) ==> after.h_birth == suite.h_birth
            &&& suite.item() == Some(Item::Play(Scenario::S0)) && after.position != suite.position
                ==> after.h_birth == match after.results.last().recorded_birth_height {
                Some(height) => height,
                None => 0,
            }
        }),
{
}

/// All scenarios against a wallet that is wiped before each recovery scan.
pub fn run_all_scenarios(config: &Config) -> (r: Suite)
    requires
        stated_fee_rate(*config) is Some,
        volume_shape(*config).countable(),
    ensures
        r@ == SuiteView::begin(Protocol::Wipe, SettingsView::of(*config)),
        r@.wf(),
{
    Suite::begin(Protocol::Wipe, Settings::of(config))
}

/// All scenarios against the console wallet, which rescans in place.
pub fn run_old_wallet_scenarios(config: &Config) -> (r: Suite)
    requires
        stated_fee_rate(*config) is Some,
        volume_shape(*config).countable(),
    ensures
        r@ == SuiteView::begin(Protocol::Settle, SettingsView::of(*config)),
        r@.wf(),
{
    Suite::begin(Protocol::Settle, Settings::of(config))
}

/// The scenario that can be run on its own under a name.
pub open spec fn single_task(config: Config, name: Seq<char>) -> Option<TaskView> {
    let settings = SettingsView::of(config);
    if name == "S0"@ {
        Some(settings.task(Scenario::S0, 0, 0))
    } else if name == "S1"@ {
        Some(settings.task(Scenario::S1, 0, 0))
    } else if name == "S4"@ {
        Some(settings.task(Scenario::S4, 0, 0))
    } else if name == "S5"@ {
        Some(settings.task(Scenario::S5, 0, 0))
    } else {
        None
    }
}

/// A scenario to run on its own, by its name; an error for those that cannot.
pub fn run_single_scenario(config: &Config, name: &str) -> (r: Result<ScenarioRun, String>)
    requires
        name@ == "S1"@ || name@ == "S4"@ || name@ == "S5"@ ==> stated_fee_rate(*config) is Some,
        name@ == "S1"@ ==> volume_shape(*config).countable(),
    ensures
        match r {
            Ok(run) => single_task(*config, name@) matches Some(task) && run@ == RunView::begin(task)
                && run@.wf(),
            Err(message) => single_task(*config, name@) is None && message@
                == "unsupported single scenario: "@ + name@ + " (use S0, S1, S4, or S5)"@,
        },
{
    if same_text(name, "S0") {
        Ok(run_s0(config))
    } else if same_text(name, "S1") {
        Ok(run_s1(config))
    } else if same_text(name, "S4") {
        Ok(run_s4(config))
    } else if same_text(name, "S5") {
        Ok(run_s5(config))
    } else {
        Err(
            "unsupported single scenario: ".to_owned().concat(name).concat(
                " (use S0, S1, S4, or S5)",
            ),
        )
    }
}

/// The scenario sends, so that the balance changes with it.
pub open spec fn sends(item: Item) -> bool {
    item == Item::Play(Scenario::S1) || item == Item::Play(Scenario::S4) || item == Item::Play(
        Scenario::S5,
    )
}

/// The scenario recovers a balance by a scan.
pub open spec fn recovers(item: Item) -> bool {
    item == Item::Play(Scenario::S2) || item == Item::Play(Scenario::S3) || item == Item::Play(
        Scenario::S6,
    ) || item == Item::Play(Scenario::S7)
}

/// The balance that a recovery scan is held to is read before any wipe: a checkpoint follows the build-up
/// or the throughput scenario directly, so that nothing is wiped in between. Every recovery scan has a
/// checkpoint before it, and no scenario between the two sends anything. Where the wallet is wiped, it
/// is wiped directly before each recovery scan and at no other time; where it is not, pending
/// transactions are waited for directly behind each checkpoint and at no other time.
pub proof fn checkpoints_are_read_before_the_wallet_is_wiped(protocol: Protocol, p: int)
    requires
        0 <= p < protocol.program().len(),
    ensures
        ({
            let program = protocol.program();
            &&& program[p] is Checkpoint ==> p > 0 && (program[p - 1] == Item::Play(Scenario::S1)
                || program[p - 1] == Item::Play(Scenario::S5))
            &&& program[p] == Item::Play(Scenario::S1) || program[p] == Item::Play(Scenario::S5)
                ==> p + 1 < program.len() && program[p + 1] is Checkpoint
            &&& recovers(program[p]) ==> exists|c: int|
                0 <= c < p && (#[trigger] program[c]) is Checkpoint && forall|i: int|
                    c < i < p ==> !sends(#[trigger] program[i]) && !(program[i] is Checkpoint)
            &&& protocol is Wipe && recovers(program[p]) ==> p > 0 && program[p - 1] is Reset
            &&& program[p] is Reset ==> protocol is Wipe && p + 1 < program.len() && recovers(
                program[p + 1],
            )
            &&& protocol is Settle && program[p] is Checkpoint ==> p + 1 < program.len()
                && program[p + 1] is AwaitPending
            &&& program[p] is AwaitPending ==> protocol is Settle && program[p - 1] is Checkpoint
            &&& program[p] is ShowAddress ==> program[p + 1] == Item::Play(Scenario::S0)
            &&& protocol is Settle && program[p] == Item::Play(Scenario::S0) ==> program[p - 1]
                is ShowAddress
        }),
{
    let program = protocol.program();
    if recovers(program[p]) {
        let c: int = match protocol {
            Protocol::Wipe => if p < 10 {
                3
            } else {
                10
            },
            Protocol::Settle => if p < 10 {
                4
            } else {
                10
            },
        };
        assert(program[c] is Checkpoint);
    }
}

/// A suite plays the baseline first and then each scenario once, in their order.
pub proof fn every_scenario_is_played_once(protocol: Protocol, p: int, q: int)
    requires
        0 <= p < q < protocol.program().len(),
    ensures
        ({
            let program = protocol.program();
            &&& program[0] == Item::Play(Scenario::B0)
            &&& program[p] is Play && program[q] is Play ==> scenario_number(program[p]->Play_0)
                < scenario_number(program[q]->Play_0)
        }),
{
}

/// The place of a scenario in the order of the scenarios.
pub open spec fn scenario_number(scenario: Scenario) -> int {
    match scenario {
        Scenario::B0 => 0,
        Scenario::S0 => 1,
        Scenario::S1 => 2,
        Scenario::S2 => 3,
        Scenario::S3 => 4,
        Scenario::S4 => 5,
        Scenario::S5 => 6,
        Scenario::S6 => 7,
        Scenario::S7 => 8,
    }
}

/// Each item of a program makes its own call: a checkpoint reads the balance, a wipe wipes, a wait waits
/// for pending transactions, an announcement asks for the address, and a scenario makes its own calls.
pub proof fn items_make_their_calls(suite: SuiteView)
    ensures
        suite.item() == Some(Item::Checkpoint) ==> suite.call() == Some(CallView::GetBalance),
        suite.item() == Some(Item::Reset) ==> suite.call() == Some(CallView::Reset),
        suite.item() == Some(Item::AwaitPending) ==> suite.call() == Some(
            CallView::AwaitPending { timeout_secs: 300 },
        ),
        suite.item() == Some(Item::ShowAddress) ==> suite.call() == Some(CallView::GetSelfAddress),
        suite.item() matches Some(Item::Play(_)) ==> suite.call() == suite.current->0.call(),
        suite.item() is None ==> suite.call() is None,
{
}

/// What a suite that wipes does from a checkpoint on: it reads the balance, wipes the wallet, scans from
/// genesis and reads the balance again, and then the same once more from the birth height. Each of the
/// two scans succeeds if and only if it finds the balance that was read before the wipe and, after the
/// build-up, at least the configured outputs where it reports any. Failed wipes change nothing.
pub proof fn recovery_is_held_to_the_balance_before_the_wipe(
    suite: SuiteView,
    balance: u64,
    wiped: Result<(), Seq<char>>,
    scan: ScanMetrics,
    recovered: u64,
    wiped_again: Result<(), Seq<char>>,
    later_scan: ScanMetrics,
    later_recovered: u64,
    t: Seq<u64>,
)
    requires
        suite.wf(),
        suite.protocol is Wipe,
        suite.item() == Some(Item::Checkpoint),
        t.len() == 7,
        forall|i: int, j: int| 0 <= i <= j < 7 ==> t[i] <= t[j],
    ensures
        ({
            let held = suite.after(ReplyView::Number(Ok(balance)), t[0]);
            let empty = held.after(ReplyView::Done(wiped), t[1]);
            let scanned = empty.after(ReplyView::Scan(Ok(scan)), t[2]);
            let found = scanned.after(ReplyView::Number(Ok(recovered)), t[3]);
            let empty_again = found.after(ReplyView::Done(wiped_again), t[4]);
            let scanned_again = empty_again.after(ReplyView::Scan(Ok(later_scan)), t[5]);
            let end = scanned_again.after(ReplyView::Number(Ok(later_recovered)), t[6]);
            let first = found.results.last();
            let second = end.results.last();
            let enough = suite.position > 3 || !(0 < scan.outputs_found
                < suite.settings.volume_target);
            let enough_again = suite.position > 3 || !(0 < later_scan.outputs_found
                < suite.settings.volume_target);
            &&& suite.call() == Some(CallView::GetBalance)
            &&& held.call() == Some(CallView::Reset)
            &&& empty.call() == Some(CallView::ScanFromGenesis)
            &&& scanned.call() == Some(CallView::GetBalance)
            &&& found.call() == Some(CallView::Reset)
            &&& empty_again.call() == Some(CallView::ScanFromBirthday { height: suite.h_birth })
            &&& scanned_again.call() == Some(CallView::GetBalance)
            &&& found.results == suite.results.push(first)
            &&& end.results == found.results.push(second)
            &&& first.success_count == 1 <==> recovered == balance && enough
            &&& first.failure_count == 1 - first.success_count
            &&& first.balance_delta == 0 <==> recovered == balance
            &&& first.scan_metrics == Some(scan)
            &&& first.wall_clock_ns == t[3] - t[1]
            &&& second.success_count == 1 <==> later_recovered == balance && enough_again
            &&& second.failure_count == 1 - second.success_count
            &&& second.balance_delta == 0 <==> later_recovered == balance
            &&& second.scan_metrics == Some(later_scan)
            &&& second.wall_clock_ns == t[6] - t[4]
        }),
{
    let program = suite.protocol.program();
    assert(suite.position == 3 || suite.position == 10);
    assert(t[1] <= t[3] && t[4] <= t[6]);
}

/// What a suite that rescans in place does from a checkpoint on: it reads the balance, waits for pending
/// transactions, and then scans from genesis and from the birth height without any wipe. Each scan
/// succeeds if and only if it finds the balance that was read and, after the build-up, at least the
/// configured outputs where it reports any. Transactions that do not clear change nothing.
pub proof fn rescans_are_held_to_the_balance_before_them(
    suite: SuiteView,
    balance: u64,
    cleared: Result<(), Seq<char>>,
    scan: ScanMetrics,
    recovered: u64,
    later_scan: ScanMetrics,
    later_recovered: u64,
    t: Seq<u64>,
)
    requires
        suite.wf(),
        suite.protocol is Settle,
        suite.item() == Some(Item::Checkpoint),
        t.len() == 6,
        forall|i: int, j: int| 0 <= i <= j < 6 ==> t[i] <= t[j],
    ensures
        ({
            let held = suite.after(ReplyView::Number(Ok(balance)), t[0]);
            let settled = held.after(ReplyView::Done(cleared), t[1]);
            let scanned = settled.after(ReplyView::Scan(Ok(scan)), t[2]);
            let found = scanned.after(ReplyView::Number(Ok(recovered)), t[3]);
            let scanned_again = found.after(ReplyView::Scan(Ok(later_scan)), t[4]);
            let end = scanned_again.after(ReplyView::Number(Ok(later_recovered)), t[5]);
            let first = found.results.last();
            let second = end.results.last();
            let enough = suite.position > 4 || !(0 < scan.outputs_found
                < suite.settings.volume_target);
            let enough_again = suite.position > 4 || !(0 < later_scan.outputs_found
                < suite.settings.volume_target);
            &&& suite.call() == Some(CallView::GetBalance)
            &&& held.call() == Some(CallView::AwaitPending { timeout_secs: 300 })
            &&& settled.call() == Some(CallView::ScanFromGenesis)
            &&& scanned.call() == Some(CallView::GetBalance)
            &&& found.call() == Some(CallView::ScanFromBirthday { height: suite.h_birth })
            &&& scanned_again.call() == Some(CallView::GetBalance)
            &&& found.results == suite.results.push(first)
            &&& end.results == found.results.push(second)
            &&& first.success_count == 1 <==> recovered == balance && enough
            &&& first.failure_count == 1 - first.success_count
            &&& first.balance_delta == 0 <==> recovered == balance
            &&& first.scan_metrics == Some(scan)
            &&& first.wall_clock_ns == t[3] - t[1]
            &&& second.success_count == 1 <==> later_recovered == balance && enough_again
            &&& second.failure_count == 1 - second.success_count
            &&& second.balance_delta == 0 <==> later_recovered == balance
            &&& second.scan_metrics == Some(later_scan)
            &&& second.wall_clock_ns == t[5] - t[3]
        }),
{
    let program = suite.protocol.program();
    assert(suite.position == 4 || suite.position == 10);
    assert(t[1] <= t[3] && t[3] <= t[5]);
}

/// The birth height from which a suite rescans is the tip that it read before it waited for the funding,
/// and zero if the funding scenario could not be completed.
pub proof fn the_birth_height_is_the_tip_before_the_funding(
    suite: SuiteView,
    tip: u64,
    outcome: Result<TxView, Seq<char>>,
    call_ns: u64,
    balance: u64,
    later_tip: u64,
    error: Seq<char>,
    t: Seq<u64>,
)
    requires
        suite.wf(),
        suite.item() == Some(Item::Play(Scenario::S0)),
        suite.current->0.stage is BirthTip,
        t.len() == 4,
    ensures
        ({
            let born = suite.after(ReplyView::Number(Ok(tip)), t[0]);
            let funded = born.after(ReplyView::Tx { outcome, call_ns }, t[1]);
            let counted = funded.after(ReplyView::Number(Ok(balance)), t[2]);
            let end = counted.after(ReplyView::Number(Ok(later_tip)), t[3]);
            &&& suite.call() == Some(CallView::GetTipHeight)
            &&& born.call() == Some(
                CallView::ObserveFunding { expected_amount_ut: suite.settings.a_fund },
            )
            &&& funded.call() == Some(CallView::GetBalance)
            &&& counted.call() == Some(CallView::GetTipHeight)
            &&& end.h_birth == tip
            &&& end.position == suite.position + 1
            &&& suite.after(ReplyView::Number(Err(error)), t[0]).h_birth == 0
            &&& born.after(ReplyView::Tx { outcome, call_ns }, t[1]).after(
                ReplyView::Number(Err(error)),
                t[2],
            ).h_birth == 0
        }),
{
}

/// A suite under a configuration plays the scenarios that can also be run on their own, under the same
/// configuration; and a scenario that is asked for by its name is that scenario.
pub proof fn suites_play_the_scenarios_of_their_configuration(
    config: Config,
    h_birth: u64,
    checkpoint: u64,
    settings: Settings,
    suite: Suite,
    old_suite: Suite,
    s0: ScenarioRun,
    s1: ScenarioRun,
    s4: ScenarioRun,
    s5: ScenarioRun,
)
    requires
        stated_fee_rate(config) is Some,
        volume_shape(config).countable(),
        call_ensures(Settings::of, (&config,), settings),
        call_ensures(run_all_scenarios, (&config,), suite),
        call_ensures(run_old_wallet_scenarios, (&config,), old_suite),
        call_ensures(run_s0, (&config,), s0),
        call_ensures(run_s1, (&config,), s1),
        call_ensures(run_s4, (&config,), s4),
        call_ensures(run_s5, (&config,), s5),
    ensures
        suite@.settings == settings@ && old_suite@.settings == settings@,
        suite@.protocol is Wipe && old_suite@.protocol is Settle,
        suite@.position == 0 && old_suite@.position == 0,
        suite@.results.len() == 0 && old_suite@.results.len() == 0,
        suite@.call() == Some(CallView::ScanFromGenesis),
        old_suite@.call() == Some(CallView::ScanFromGenesis),
        suite@.settings.volume_target == config.benchmark.volume_target,
        suite@.settings.a_fund == config.benchmark.a_fund,
        suite@.settings.task(Scenario::S0, h_birth, checkpoint) == s0@.task,
        suite@.settings.task(Scenario::S1, h_birth, checkpoint) == s1@.task,
        suite@.settings.task(Scenario::S4, h_birth, checkpoint) == s4@.task,
        suite@.settings.task(Scenario::S5, h_birth, checkpoint) == s5@.task,
        single_task(config, "S0"@) == Some(s0@.task),
        single_task(config, "S1"@) == Some(s1@.task),
        single_task(config, "S4"@) == Some(s4@.task),
        single_task(config, "S5"@) == Some(s5@.task),
{
    reveal_strlit("S0");
    reveal_strlit("S1");
    reveal_strlit("S4");
    reveal_strlit("S5");
    assert("S0"@[1] != "S1"@[1] && "S0"@[1] != "S4"@[1] && "S0"@[1] != "S5"@[1]);
    assert("S1"@[1] != "S4"@[1] && "S1"@[1] != "S5"@[1] && "S4"@[1] != "S5"@[1]);
}

/// A scenario can be run on its own under its name if it is one of the four that need no scan before
/// them, and under no other name.
pub proof fn four_scenarios_run_on_their_own(config: Config, name: &str, r: Result<ScenarioRun, String>)
    requires
        call_ensures(run_single_scenario, (&config, name), r),
    ensures
        r is Ok <==> name@ == "S0"@ || name@ == "S1"@ || name@ == "S4"@ || name@ == "S5"@,
        r matches Ok(run) ==> run@.task.name() == name@ && run@ == RunView::begin(run@.task),
{
    reveal_strlit("S0");
    reveal_strlit("S1");
    reveal_strlit("S4");
    reveal_strlit("S5");
    assert("S0"@[1] != "S1"@[1] && "S0"@[1] != "S4"@[1] && "S0"@[1] != "S5"@[1]);
    assert("S1"@[1] != "S4"@[1] && "S1"@[1] != "S5"@[1] && "S4"@[1] != "S5"@[1]);
}

/// A suite that is carried out does what is said of it.
pub proof fn suites_go_as_they_are_described(
    protocol: Protocol,
    settings: Settings,
    first: Suite,
    suite: Suite,
    call: Option<Call>,
    reply: Reply,
    now_ns: u64,
    next: Suite,
    results: Vec<ScenarioResult>,
)
    requires
        call_ensures(Suite::begin, (protocol, settings), first),
        call_ensures(Suite::call, (&suite,), call),
        call_ensures(Suite::resume, (suite, reply, now_ns), next),
        call_ensures(Suite::into_results, (suite,), results),
    ensures
        first@.protocol == protocol && first@.settings == settings@ && first@.position == 0,
        suite@.call() is Some == call is Some,
        call matches Some(c) ==> suite@.call()->0 == c@,
        next@ == suite@.after(reply@, now_ns),
        results@.len() == suite.results@.len(),
        forall|i: int|
            0 <= i < results@.len() ==> (#[trigger] results@[i])@ == suite.results@[i]@,
{
    assert(result_views(results@) == result_views(suite.results@));
    assert(result_views(results@).len() == results@.len());
    assert forall|i: int| 0 <= i < results@.len() implies (#[trigger] results@[i])@
        == suite.results@[i]@ by {
        assert(result_views(results@)[i] == result_views(suite.results@)[i]);
    }
}

/// An item of a program is found where it stands in it.
pub proof fn items_are_found_where_they_stand(protocol: Protocol, n: usize, item: Option<Item>)
    requires
        call_ensures(Protocol::item_at, (protocol, n), item),
    ensures
        item is Some <==> n < protocol.program().len(),
        item matches Some(found) ==> found == protocol.program()[n as int],
{
}

} // verus!
