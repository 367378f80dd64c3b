//! Starting a daemon whose port may be taken: try a port, wait for the daemon's API, and try
//! another port if it does not answer in time.

use vstd::prelude::*;

use crate::drivers::polling::{past, past_deadline};

verus! {

/// Ports that are tried before giving up.
pub const MAX_ATTEMPTS: u64 = 5;

/// Milliseconds between two looks at the API of a starting daemon.
pub const PROBE_PAUSE_MS: u64 = 250;

/// Milliseconds before another port is tried.
pub const RETRY_PAUSE_MS: u64 = 500;

/// How a launch is carried out.
#[derive(Clone, Copy, PartialEq, Eq, Structural, Debug)]
pub struct LaunchPolicy {
    /// Seconds that the daemon has to answer.
    pub ready_secs: u64,
    /// Rest after the last attempt too.
    pub rest_after_last: bool,
}

/// What a launch does next.
#[derive(Clone, Copy, PartialEq, Eq, Structural, Debug)]
pub enum LaunchStep {
    /// Spawn the daemon on a port: the reserved one at the first attempt, a free one later.
    Spawn,
    /// Ask the daemon's API for its version.
    Probe,
    /// Wait before the next probe.
    ProbePause,
    /// End the daemon that did not answer.
    Discard,
    /// Wait before the next attempt.
    RetryPause,
    /// The daemon is up.
    Ready,
    /// No attempt succeeded.
    GaveUp,
}

/// A launch under way.
#[derive(Clone, Copy, PartialEq, Eq, Structural, Debug)]
pub struct Launch {
    pub policy: LaunchPolicy,
    /// Attempts before the current one.
    pub attempt: u64,
    pub step: LaunchStep,
}

impl Launch {
    pub open spec fn wf(self) -> bool {
        self.attempt < MAX_ATTEMPTS
    }

    /// The launch after the current step; `answered` tells whether a probe was answered, and
    /// `elapsed_ns` how long ago the daemon was spawned.
    pub open spec fn after(self, answered: bool, elapsed_ns: u64) -> Launch {
        let probing = Launch {
            step: if past(elapsed_ns, self.policy.ready_secs) {
                LaunchStep::Discard
            } else {
                LaunchStep::Probe
            },
            ..self
        };
        let last = self.attempt + 1 >= MAX_ATTEMPTS;
        match self.step {
            LaunchStep::Spawn | LaunchStep::ProbePause => probing,
            LaunchStep::Probe => Launch {
                step: if answered {
                    LaunchStep::Ready
                } else {
                    LaunchStep::ProbePause
                },
                ..self
            },
            LaunchStep::Discard => Launch {
                step: if last && !self.policy.rest_after_last {
                    LaunchStep::GaveUp
                } else {
                    LaunchStep::RetryPause
                },
                ..self
            },
            LaunchStep::RetryPause => if last {
                Launch { step: LaunchStep::GaveUp, ..self }
            } else {
                Launch { attempt: (self.attempt + 1) as u64, step: LaunchStep::Spawn, ..self }
            },
            LaunchStep::Ready | LaunchStep::GaveUp => self,
        }
    }

    /// A launch before its first attempt.
    pub fn begin(policy: LaunchPolicy) -> (r: Launch)
        ensures
            r == (Launch { policy, attempt: 0, step: LaunchStep::Spawn }),
            r.wf(),
    {
        Launch { policy, attempt: 0, step: LaunchStep::Spawn }
    }

    /// Goes on after the current step.
    pub fn resume(self, answered: bool, elapsed_ns: u64) -> (r: Launch)
        requires
            self.wf(),
        ensures
            r == self.after(answered, elapsed_ns),
            r.wf(),
    {
        let last = self.attempt + 1 >= MAX_ATTEMPTS;
        let mut next = self;
        match self.step {
            LaunchStep::Spawn | LaunchStep::ProbePause => {
                next.step = if past_deadline(elapsed_ns, self.policy.ready_secs) {
                    LaunchStep::Discard
                } else {
                    LaunchStep::Probe
                };
            },
            LaunchStep::Probe => {
                next.step = if answered {
                    LaunchStep::Ready
                } else {
                    LaunchStep::ProbePause
                };
            },
            LaunchStep::Discard => {
                next.step = if last && !self.policy.rest_after_last {
                    LaunchStep::GaveUp
                } else {
                    LaunchStep::RetryPause
                };
            },
            LaunchStep::RetryPause => {
                if last {
                    next.step = LaunchStep::GaveUp;
                } else {
                    next.attempt = self.attempt + 1;
                    next.step = LaunchStep::Spawn;
                }
            },
            LaunchStep::Ready | LaunchStep::GaveUp => {},
        }
        next
    }

    /// Spawns that the launch may still make.
    pub open spec fn spawns_left(self) -> int {
        MAX_ATTEMPTS - self.attempt - if self.step is Spawn {
            0int
        } else {
            1
        }
    }
}

/// A launch is ready only through a probe that was answered; it makes at most as many spawns as
/// there are attempts, and gives up only after the last of them.
pub proof fn launches_are_bounded(launch: Launch, answered: bool, elapsed_ns: u64)
    requires
        launch.wf(),
    ensures
        ({
            let after = launch.after(answered, elapsed_ns);
            &&& after.wf()
            &&& after.step is Ready && !(launch.step is Ready) ==> launch.step is Probe && answered
            &&& after.step is GaveUp && !(launch.step is GaveUp) ==> launch.attempt + 1
                == MAX_ATTEMPTS
            &&& after.spawns_left() <= launch.spawns_left()
            &&& launch.step is Spawn ==> after.spawns_left() == launch.spawns_left() - 1
            &&& after.step is Probe && !(launch.step is Probe) ==> !past(
                elapsed_ns,
                launch.policy.ready_secs,
            )
        }),
{
}

/// A launch goes as it should: what was spawned is probed until it answers or its time is over, with a
/// pause after each probe without an answer; then it is discarded, and after a rest another is
/// spawned, five in all. After the last there is a rest only if the policy asks for it.
pub proof fn launches_try_five_times(launch: Launch, answered: bool, elapsed_ns: u64, r: Launch)
    requires
        launch.wf(),
        call_ensures(Launch::resume, (launch, answered, elapsed_ns), r),
    ensures
        ({
            let over = elapsed_ns > launch.policy.ready_secs * 1_000_000_000;
            let waiting = launch.step is Spawn || launch.step is ProbePause;
            let last = launch.attempt >= 4;
            &&& r.policy == launch.policy
            &&& waiting && !over ==> r.step is Probe
            &&& waiting && over ==> r.step is Discard
            &&& launch.step is Probe && answered ==> r.step is Ready
            &&& launch.step is Probe && !answered ==> r.step is ProbePause
            &&& launch.step is Discard && last && !launch.policy.rest_after_last ==> r.step is GaveUp
            &&& launch.step is Discard && (!last || launch.policy.rest_after_last) ==> r.step
                is RetryPause
            &&& launch.step is RetryPause && last ==> r.step is GaveUp
            &&& launch.step is RetryPause && !last ==> r.step is Spawn && r.attempt
                == launch.attempt + 1
            &&& !(launch.step is RetryPause) ==> r.attempt == launch.attempt
        }),
{
}

/// A launch begins with its first attempt.
pub proof fn launches_begin_with_a_spawn(policy: LaunchPolicy, r: Launch)
    requires
        call_ensures(Launch::begin, (policy,), r),
    ensures
        r.step is Spawn && r.attempt == 0 && r.policy == policy,
{
}

} // verus!
