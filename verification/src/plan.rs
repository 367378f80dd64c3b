//! Which transactions the sending scenarios issue, and in what order.

use vstd::arithmetic::power2::{lemma_pow2_pos, lemma_pow2_strictly_increases, lemma_pow2_unfold, pow2};
use vstd::prelude::*;

use crate::config::{parse_fee_rate, stated_fee_rate, Config};
use crate::driver::{recipient_views, Call, CallView};

verus! {

/// One step of a sending scenario.
#[derive(Clone, Copy, PartialEq, Eq, Structural, Debug)]
pub enum Dispatch {
    /// One transaction to that many recipients.
    Batch(u64),
    /// One transaction to one recipient.
    Single,
    /// That many single transactions at once.
    Concurrent(u64),
}

/// The shape of a sending scenario.
#[derive(PartialEq, Eq, Debug)]
pub enum Shape {
    /// Rounds of two-output transactions, each round twice as long as the one before, then as many
    /// fan-out transactions as a further round would have.
    Volume { rounds: u64, fanout: u64 },
    /// Bursts of concurrent transactions.
    Concurrent { batches: Vec<u64>, timeout_secs: u64 },
    /// `m` payments in transactions of `k` recipients, then the same `m` payments one by one.
    Throughput { m: u64, k: u64 },
}

pub enum ShapeView {
    Volume { rounds: u64, fanout: u64 },
    Concurrent { batches: Seq<u64>, timeout_secs: u64 },
    Throughput { m: u64, k: u64 },
}

impl View for Shape {
    type V = ShapeView;

    open spec fn view(&self) -> ShapeView {
        match *self {
            Shape::Volume { rounds, fanout } => ShapeView::Volume { rounds, fanout },
            Shape::Concurrent { batches, timeout_secs } => ShapeView::Concurrent {
                batches: batches@,
                timeout_secs,
            },
            Shape::Throughput { m, k } => ShapeView::Throughput { m, k },
        }
    }
}

/// What a sending scenario does: its shape, and amount and fee rate of each payment.
#[derive(PartialEq, Eq, Debug)]
pub struct SendPlan {
    pub amount_ut: u64,
    pub fee_rate: u64,
    pub shape: Shape,
}

pub struct PlanView {
    pub amount_ut: u64,
    pub fee_rate: u64,
    pub shape: ShapeView,
}

impl View for SendPlan {
    type V = PlanView;

    open spec fn view(&self) -> PlanView {
        PlanView { amount_ut: self.amount_ut, fee_rate: self.fee_rate, shape: self.shape@ }
    }
}

/// The same step `n` times.
pub open spec fn repeated(step: Dispatch, n: nat) -> Seq<Dispatch> {
    Seq::new(n, |i: int| step)
}

/// The first `rounds` doubling rounds: round `r` issues `2^r` two-output transactions.
pub open spec fn doubling(rounds: nat) -> Seq<Dispatch>
    decreases rounds,
{
    if rounds == 0 {
        Seq::empty()
    } else {
        doubling((rounds - 1) as nat) + repeated(Dispatch::Batch(2), pow2((rounds - 1) as nat))
    }
}

impl ShapeView {
    /// The round counts that 64-bit transaction counts admit.
    pub open spec fn countable(self) -> bool {
        match self {
            ShapeView::Volume { rounds, fanout } => rounds <= 64 && (fanout == 0 || rounds < 64),
            _ => true,
        }
    }

    /// The steps of the scenario, in order.
    pub open spec fn steps(self) -> Seq<Dispatch> {
        match self {
            ShapeView::Volume { rounds, fanout } => doubling(rounds as nat) + if fanout == 0 {
                Seq::empty()
            } else {
                repeated(Dispatch::Batch(fanout), pow2(rounds as nat))
            },
            ShapeView::Concurrent { batches, .. } => Seq::new(
                batches.len(),
                |i: int| Dispatch::Concurrent(batches[i]),
            ),
            ShapeView::Throughput { m, k } => if k == 0 {
                repeated(Dispatch::Single, m as nat)
            } else {
                repeated(Dispatch::Batch(k), (m / k) as nat) + repeated(Dispatch::Single, m as nat)
            },
        }
    }

    /// The time budget of one concurrent transaction.
    pub open spec fn timeout_secs(self) -> u64 {
        match self {
            ShapeView::Concurrent { timeout_secs, .. } => timeout_secs,
            _ => 0,
        }
    }
}

/// `n` payments of `amount_ut` to one address.
pub open spec fn payments(address: Seq<char>, amount_ut: u64, n: nat) -> Seq<(Seq<char>, u64)> {
    Seq::new(n, |i: int| (address, amount_ut))
}

impl PlanView {
    /// The call that a step makes.
    pub open spec fn call(self, step: Dispatch, address: Seq<char>) -> CallView {
        match step {
            Dispatch::Batch(n) => CallView::SendBatch {
                recipients: payments(address, self.amount_ut, n as nat),
                fee_rate: self.fee_rate,
            },
            Dispatch::Single => CallView::SendSingle {
                to_address: address,
                amount_ut: self.amount_ut,
                fee_rate: self.fee_rate,
            },
            Dispatch::Concurrent(count) => CallView::SendConcurrent {
                count,
                to_address: address,
                amount_ut: self.amount_ut,
                fee_rate: self.fee_rate,
                timeout_secs: self.shape.timeout_secs(),
            },
        }
    }
}

/// `rounds` doubling rounds issue `2^rounds - 1` transactions, all with two outputs.
pub proof fn doubling_rounds_add_up(rounds: nat)
    ensures
        doubling(rounds).len() == pow2(rounds) - 1,
        forall|i: int| 0 <= i < doubling(rounds).len() ==> doubling(rounds)[i] == Dispatch::Batch(2),
    decreases rounds,
{
    lemma_pow2_pos(rounds);
    if rounds > 0 {
        doubling_rounds_add_up((rounds - 1) as nat);
        lemma_pow2_unfold(rounds);
    } else {
        vstd::arithmetic::power2::lemma2_to64();
    }
}

/// The volume scenario issues `2^rounds - 1` two-output transactions and then, unless the fan-out
/// is switched off, `2^rounds` transactions of `fanout` outputs each.
pub proof fn volume_scenario_counts(rounds: u64, fanout: u64)
    ensures
        ({
            let steps = (ShapeView::Volume { rounds, fanout }).steps();
            let doubled = pow2(rounds as nat) - 1;
            &&& steps.len() == doubled + if fanout == 0 {
                0
            } else {
                pow2(rounds as nat) as int
            }
            &&& forall|i: int| 0 <= i < doubled ==> steps[i] == Dispatch::Batch(2)
            &&& forall|i: int| doubled <= i < steps.len() ==> steps[i] == Dispatch::Batch(fanout)
        }),
{
    doubling_rounds_add_up(rounds as nat);
}

/// The throughput scenario makes the same payments twice: whole batches first, then one by one. It
/// takes `m / k` batch transactions (none if `k` is zero) and `m` single ones.
pub proof fn throughput_scenario_counts(m: u64, k: u64)
    ensures
        ({
            let steps = (ShapeView::Throughput { m, k }).steps();
            let batches: int = if k == 0 {
                0
            } else {
                (m / k) as int
            };
            &&& steps.len() == batches + m
            &&& forall|i: int| 0 <= i < batches ==> steps[i] == Dispatch::Batch(k)
            &&& forall|i: int| batches <= i < steps.len() ==> steps[i] == Dispatch::Single
        }),
{
}

/// The concurrency scenario makes one burst for each configured size, of exactly that many sends.
pub proof fn concurrent_scenario_counts(batches: Seq<u64>, timeout_secs: u64)
    ensures
        ({
            let steps = (ShapeView::Concurrent { batches, timeout_secs }).steps();
            &&& steps.len() == batches.len()
            &&& forall|i: int|
                0 <= i < batches.len() ==> #[trigger] steps[i] == Dispatch::Concurrent(batches[i])
        }),
{
}

/// Two to the power `n`.
fn power_of_two(n: u64) -> (r: u128)
    requires
        n <= 64,
    ensures
        r == pow2(n as nat),
        r <= 0x1_0000_0000_0000_0000,
{
    let mut value: u128 = 1;
    let mut i: u64 = 0;
    proof {
        vstd::arithmetic::power2::lemma2_to64();
    }
    while i < n
        invariant
            i <= n <= 64,
            value == pow2(i as nat),
            value <= 0x1_0000_0000_0000_0000,
            pow2(64) == 0x1_0000_0000_0000_0000,
        decreases n - i,
    {
        proof {
            lemma_pow2_unfold((i + 1) as nat);
            if i + 1 < 64 {
                lemma_pow2_strictly_increases((i + 1) as nat, 64);
            }
        }
        value = value * 2;
        i = i + 1;
    }
    value
}

/// A plan that can be held has fewer than `2^66` steps.
pub proof fn steps_are_countable(shape: Shape)
    requires
        shape@.countable(),
    ensures
        shape@.steps().len() < 0x4_0000_0000_0000_0000,
{
    match shape {
        Shape::Volume { rounds, fanout } => {
            volume_scenario_counts(rounds, fanout);
            vstd::arithmetic::power2::lemma2_to64();
            if rounds < 64 {
                lemma_pow2_strictly_increases(rounds as nat, 64);
            }
        },
        Shape::Concurrent { batches, .. } => {
            assert(batches@.len() == batches.len());
        },
        Shape::Throughput { m, k } => {
            throughput_scenario_counts(m, k);
            if k != 0 {
                assert(m / k <= m) by (nonlinear_arith)
                    requires
                        k > 0,
                ;
            }
        },
    }
}

impl Shape {
    /// The step at position `n`, if there is one.
    pub fn step_at(&self, n: u128) -> (r: Option<Dispatch>)
        requires
            self@.countable(),
        ensures
            r == if n < self@.steps().len() {
                Some(self@.steps()[n as int])
            } else {
                None
            },
    {
        match self {
            Shape::Volume { rounds, fanout } => {
                let power: u128 = power_of_two(*rounds);
                proof {
                    doubling_rounds_add_up(*rounds as nat);
                    volume_scenario_counts(*rounds, *fanout);
                    lemma_pow2_pos(*rounds as nat);
                }
                if n < power - 1 {
                    Some(Dispatch::Batch(2))
                } else if *fanout != 0 && n - (power - 1) < power {
                    Some(Dispatch::Batch(*fanout))
                } else {
                    None
                }
            },
            Shape::Concurrent { batches, .. } => {
                if n < batches.len() as u128 {
                    Some(Dispatch::Concurrent(batches[n as usize]))
                } else {
                    None
                }
            },
            Shape::Throughput { m, k } => {
                let whole: u64 = if *k == 0 {
                    0
                } else {
                    *m / *k
                };
                proof {
                    throughput_scenario_counts(*m, *k);
                }
                if n < whole as u128 {
                    Some(Dispatch::Batch(*k))
                } else if n < whole as u128 + *m as u128 {
                    Some(Dispatch::Single)
                } else {
                    None
                }
            },
        }
    }

    /// Tells whether 64-bit transaction counts admit the shape.
    pub fn is_countable(&self) -> (r: bool)
        ensures
            r == self@.countable(),
    {
        match self {
            Shape::Volume { rounds, fanout } => *rounds <= 64 && (*fanout == 0 || *rounds != 64),
            _ => true,
        }
    }

    /// The time budget of one concurrent transaction.
    pub fn timeout_secs(&self) -> (r: u64)
        ensures
            r == self@.timeout_secs(),
    {
        match self {
            Shape::Concurrent { timeout_secs, .. } => *timeout_secs,
            _ => 0,
        }
    }

    /// A copy of the shape.
    pub fn duplicate(&self) -> (r: Shape)
        ensures
            r@ == self@,
    {
        match self {
            Shape::Volume { rounds, fanout } => Shape::Volume { rounds: *rounds, fanout: *fanout },
            Shape::Concurrent { batches, timeout_secs } => Shape::Concurrent {
                batches: copy_numbers(batches),
                timeout_secs: *timeout_secs,
            },
            Shape::Throughput { m, k } => Shape::Throughput { m: *m, k: *k },
        }
    }
}

/// A copy of a list of numbers.
fn copy_numbers(numbers: &Vec<u64>) -> (r: Vec<u64>)
    ensures
        r@ == numbers@,
{
    let mut out: Vec<u64> = Vec::new();
    let mut i: usize = 0;
    while i < numbers.len()
        invariant
            i <= numbers.len(),
            out@ == numbers@.take(i as int),
        decreases numbers.len() - i,
    {
        out.push(numbers[i]);
        proof {
            assert(numbers@.take(i + 1) =~= numbers@.take(i as int).push(numbers@[i as int]));
        }
        i = i + 1;
    }
    proof {
        assert(numbers@.take(numbers@.len() as int) =~= numbers@);
    }
    out
}

/// `n` payments of `amount_ut` to one address.
pub fn payments_to(address: &String, amount_ut: u64, n: u64) -> (r: Vec<(String, u64)>)
    ensures
        recipient_views(r@) == payments(address@, amount_ut, n as nat),
{
    let mut out: Vec<(String, u64)> = Vec::new();
    let mut i: u64 = 0;
    while i < n
        invariant
            i <= n,
            out@.len() == i,
            forall|j: int| 0 <= j < i ==> (#[trigger] out@[j]).0@ == address@ && out@[j].1 == amount_ut,
        decreases n - i,
    {
        out.push((address.clone(), amount_ut));
        i = i + 1;
    }
    proof {
        assert(recipient_views(out@) =~= payments(address@, amount_ut, n as nat));
    }
    out
}

impl SendPlan {
    /// The call that a step makes.
    pub fn call(&self, step: Dispatch, address: &String) -> (r: Call)
        ensures
            r@ == self@.call(step, address@),
    {
        match step {
            Dispatch::Batch(n) => Call::SendBatch {
                recipients: payments_to(address, self.amount_ut, n),
                fee_rate: self.fee_rate,
            },
            Dispatch::Single => Call::SendSingle {
                to_address: address.clone(),
                amount_ut: self.amount_ut,
                fee_rate: self.fee_rate,
            },
            Dispatch::Concurrent(count) => Call::SendConcurrent {
                count,
                to_address: address.clone(),
                amount_ut: self.amount_ut,
                fee_rate: self.fee_rate,
                timeout_secs: self.shape.timeout_secs(),
            },
        }
    }

    /// A copy of the plan.
    pub fn duplicate(&self) -> (r: SendPlan)
        ensures
            r@ == self@,
    {
        SendPlan {
            amount_ut: self.amount_ut,
            fee_rate: self.fee_rate,
            shape: self.shape.duplicate(),
        }
    }
}

/// The amount of each payment: the configured one, but never zero.
pub open spec fn payment_amount(config: Config) -> u64 {
    if config.benchmark.tx_amount_ut == 0 {
        1
    } else {
        config.benchmark.tx_amount_ut
    }
}

/// The plan of a sending scenario under a configuration with a valid fee rate.
pub open spec fn configured_plan(config: Config, shape: ShapeView) -> PlanView {
    PlanView {
        amount_ut: payment_amount(config),
        fee_rate: stated_fee_rate(config)->0,
        shape,
    }
}

/// The shape of the volume scenario under a configuration.
pub open spec fn volume_shape(config: Config) -> ShapeView {
    ShapeView::Volume {
        rounds: config.benchmark.doubling_rounds,
        fanout: config.benchmark.fanout_outputs_per_tx,
    }
}

/// The shape of the concurrency scenario under a configuration.
pub open spec fn concurrent_shape(config: Config) -> ShapeView {
    ShapeView::Concurrent {
        batches: config.benchmark.concurrent_batches@,
        timeout_secs: config.benchmark.s4_t_budget_secs,
    }
}

/// The shape of the throughput scenario under a configuration.
pub open spec fn throughput_shape(config: Config) -> ShapeView {
    ShapeView::Throughput { m: config.benchmark.s5_m, k: config.benchmark.s5_k }
}

fn plan_of(config: &Config, shape: Shape) -> (r: SendPlan)
    requires
        stated_fee_rate(*config) is Some,
    ensures
        r@ == configured_plan(*config, shape@),
{
    SendPlan {
        amount_ut: if config.benchmark.tx_amount_ut == 0 {
            1
        } else {
            config.benchmark.tx_amount_ut
        },
        fee_rate: parse_fee_rate(config),
        shape,
    }
}

/// The plan of the volume scenario.
pub fn volume_plan(config: &Config) -> (r: SendPlan)
    requires
        stated_fee_rate(*config) is Some,
    ensures
        r@ == configured_plan(*config, volume_shape(*config)),
{
    plan_of(
        config,
        Shape::Volume {
            rounds: config.benchmark.doubling_rounds,
            fanout: config.benchmark.fanout_outputs_per_tx,
        },
    )
}

/// The plan of the concurrency scenario.
pub fn concurrent_plan(config: &Config) -> (r: SendPlan)
    requires
        stated_fee_rate(*config) is Some,
    ensures
        r@ == configured_plan(*config, concurrent_shape(*config)),
{
    plan_of(
        config,
        Shape::Concurrent {
            batches: copy_numbers(&config.benchmark.concurrent_batches),
            timeout_secs: config.benchmark.s4_t_budget_secs,
        },
    )
}

/// The plan of the throughput scenario.
pub fn throughput_plan(config: &Config) -> (r: SendPlan)
    requires
        stated_fee_rate(*config) is Some,
    ensures
        r@ == configured_plan(*config, throughput_shape(*config)),
{
    plan_of(config, Shape::Throughput { m: config.benchmark.s5_m, k: config.benchmark.s5_k })
}

/// Every payment of a plan is of the plan's amount at the plan's fee rate, and goes to the given address:
/// a batch of `n` pays it to each of its `n` recipients, so that it pays what `n` single sends pay, and
/// a burst of `n` pays it `n` times.
pub proof fn every_payment_is_of_the_planned_amount(plan: SendPlan, step: Dispatch, address: String, call: Call)
    requires
        call_ensures(SendPlan::call, (&plan, step, &address), call),
    ensures
        match step {
            Dispatch::Batch(n) => match call {
                Call::SendBatch { recipients, fee_rate } => {
                    &&& fee_rate == plan.fee_rate
                    &&& recipients@.len() == n
                    &&& forall|i: int|
                        0 <= i < n ==> (#[trigger] recipients@[i]).0@ == address@
                            && recipients@[i].1 == plan.amount_ut
                },
                _ => false,
            },
            Dispatch::Single => match call {
                Call::SendSingle { to_address, amount_ut, fee_rate } => {
                    &&& to_address@ == address@
                    &&& amount_ut == plan.amount_ut
                    &&& fee_rate == plan.fee_rate
                },
                _ => false,
            },
            Dispatch::Concurrent(n) => match call {
                Call::SendConcurrent { count, to_address, amount_ut, fee_rate, timeout_secs } => {
                    &&& count == n
                    &&& to_address@ == address@
                    &&& amount_ut == plan.amount_ut
                    &&& fee_rate == plan.fee_rate
                    &&& plan.shape matches Shape::Concurrent { timeout_secs: budget, .. }
                        ==> timeout_secs == budget
                },
                _ => false,
            },
        },
{
    assert(call@ == plan@.call(step, address@));
    if let Call::SendBatch { recipients, .. } = call {
        let views = recipient_views(recipients@);
        assert(views == payments(address@, plan.amount_ut, step->Batch_0 as nat));
        assert(views.len() == recipients@.len());
        assert forall|i: int| 0 <= i < recipients@.len() implies (#[trigger] recipients@[i]).0@
            == address@ && recipients@[i].1 == plan.amount_ut by {
            assert(views[i] == (recipients@[i].0@, recipients@[i].1));
        }
    }
}

/// Plans follow the configuration: each payment is of the configured amount, or of one where that is
/// zero, at the configured fee rate; and each scenario has the counts that the configuration gives it.
pub proof fn plans_follow_the_configuration(config: Config, s1: SendPlan, s4: SendPlan, s5: SendPlan)
    requires
        call_ensures(volume_plan, (&config,), s1),
        call_ensures(concurrent_plan, (&config,), s4),
        call_ensures(throughput_plan, (&config,), s5),
        stated_fee_rate(config) is Some,
    ensures
        s1.amount_ut == s4.amount_ut == s5.amount_ut,
        s1.amount_ut == config.benchmark.tx_amount_ut || s1.amount_ut == 1
            && config.benchmark.tx_amount_ut == 0,
        s1.amount_ut > 0,
        s1.fee_rate == s4.fee_rate == s5.fee_rate,
        stated_fee_rate(config) == Some(s1.fee_rate),
        s1.shape matches Shape::Volume { rounds, fanout } && rounds
            == config.benchmark.doubling_rounds && fanout
            == config.benchmark.fanout_outputs_per_tx,
        s4.shape matches Shape::Concurrent { batches, timeout_secs } && batches@
            == config.benchmark.concurrent_batches@ && timeout_secs
            == config.benchmark.s4_t_budget_secs,
        s5.shape matches Shape::Throughput { m, k } && m == config.benchmark.s5_m && k
            == config.benchmark.s5_k,
{
}

/// A step is found where the order of the steps has it: the volume scenario has its two-output
/// transactions at the positions below `2^rounds - 1` and its fan-outs at the `2^rounds` positions
/// from there; the concurrency scenario has one burst for each configured size, in that order; the
/// throughput scenario has its whole batches first and then one single send for each payment.
pub proof fn steps_stand_in_their_order(shape: Shape, n: u128, step: Option<Dispatch>)
    requires
        shape@.countable(),
        call_ensures(Shape::step_at, (&shape, n), step),
    ensures
        match shape {
            Shape::Volume { rounds, fanout } => {
                let doubled = pow2(rounds as nat) - 1;
                &&& n < doubled ==> step == Some(Dispatch::Batch(2))
                &&& doubled <= n < doubled + pow2(rounds as nat) && fanout > 0 ==> step == Some(
                    Dispatch::Batch(fanout),
                )
                &&& n >= doubled && (fanout == 0 || n >= doubled + pow2(rounds as nat)) ==> step
                    is None
            },
            Shape::Concurrent { batches, .. } => {
                &&& n < batches@.len() ==> step == Some(Dispatch::Concurrent(batches@[n as int]))
                &&& n >= batches@.len() ==> step is None
            },
            Shape::Throughput { m, k } => {
                let whole: int = if k == 0 {
                    0
                } else {
                    m as int / k as int
                };
                &&& n < whole ==> step == Some(Dispatch::Batch(k))
                &&& whole <= n < whole + m ==> step == Some(Dispatch::Single)
                &&& n >= whole + m ==> step is None
            },
        },
{
    match shape {
        Shape::Volume { rounds, fanout } => {
            volume_scenario_counts(rounds, fanout);
            lemma_pow2_pos(rounds as nat);
        },
        Shape::Concurrent { batches, timeout_secs } => {
            concurrent_scenario_counts(batches@, timeout_secs);
        },
        Shape::Throughput { m, k } => {
            throughput_scenario_counts(m, k);
        },
    }
}

} // verus!
