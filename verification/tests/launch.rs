use harness::drivers::launch::{Launch, LaunchPolicy, LaunchStep, MAX_ATTEMPTS};
use harness::drivers::polling::{
    funding_in_balance, funding_overdue, past_deadline, wait_for_tip_height, TipWait,
};

const SECOND: u64 = 1_000_000_000;

fn spawns(policy: LaunchPolicy, answer_at: Option<u64>) -> (u64, u64, LaunchStep) {
    let mut launch = Launch::begin(policy);
    let (mut spawned, mut probes, mut elapsed) = (0, 0, 0);
    loop {
        let mut answered = false;
        match launch.step {
            LaunchStep::Spawn => {
                spawned += 1;
                elapsed = 0;
            },
            LaunchStep::Probe => {
                probes += 1;
                answered = answer_at == Some(probes);
            },
            LaunchStep::ProbePause => elapsed += SECOND,
            LaunchStep::Discard | LaunchStep::RetryPause => {},
            LaunchStep::Ready | LaunchStep::GaveUp => return (spawned, probes, launch.step),
        }
        launch = launch.resume(answered, elapsed);
    }
}

#[test]
fn a_daemon_that_answers_is_ready() {
    let policy = LaunchPolicy { ready_secs: 2, rest_after_last: false };
    assert_eq!(spawns(policy, Some(1)), (1, 1, LaunchStep::Ready));
    // Looks at 0, 1 and 2 seconds, then another port.
    assert_eq!(spawns(policy, Some(3)), (1, 3, LaunchStep::Ready));
    assert_eq!(spawns(policy, Some(4)), (2, 4, LaunchStep::Ready));
}

#[test]
fn a_launch_gives_up_after_five_ports() {
    for rest_after_last in [false, true] {
        let policy = LaunchPolicy { ready_secs: 2, rest_after_last };
        assert_eq!(spawns(policy, None), (MAX_ATTEMPTS, 15, LaunchStep::GaveUp));
    }
}

#[test]
fn the_rest_after_the_last_attempt_is_a_matter_of_policy() {
    for (rest_after_last, step) in [(false, LaunchStep::GaveUp), (true, LaunchStep::RetryPause)] {
        let policy = LaunchPolicy { ready_secs: 1, rest_after_last };
        let launch = Launch { policy, attempt: 4, step: LaunchStep::Discard };
        assert_eq!(launch.resume(false, 0).step, step);
    }
}

#[test]
fn deadlines_are_met_to_the_nanosecond() {
    assert!(!past_deadline(5 * SECOND, 5));
    assert!(past_deadline(5 * SECOND + 1, 5));
    assert!(!past_deadline(u64::MAX, u64::MAX));
}

#[test]
fn funding_is_seen_in_the_balance() {
    let tx = funding_in_balance(100, 100, 7).unwrap();
    assert_eq!(tx.tx_id, "incoming-funding");
    assert_eq!((tx.broadcast_to_mempool_ns, tx.broadcast_to_confirmed_ns), (7, 7));
    assert!(tx.success);
    assert_eq!(funding_in_balance(100, 99, 7), None);
    assert_eq!(funding_overdue(100, 600 * SECOND), None);
    assert_eq!(
        funding_overdue(100, 600 * SECOND + 1).unwrap(),
        "incoming funding of at least 100 uT was not observed within 600s"
    );
}

#[test]
fn tips_are_waited_for() {
    assert_eq!(wait_for_tip_height(5, 5, u64::MAX, 1), TipWait::Reached);
    assert_eq!(wait_for_tip_height(4, 5, SECOND, 1), TipWait::Wait);
    assert_eq!(
        wait_for_tip_height(4, 5, SECOND + 1, 1),
        TipWait::Overdue("tip height did not reach 5 before timeout".to_string())
    );
}
