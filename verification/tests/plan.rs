use harness::plan::{Dispatch, Shape};

#[test]
fn sends_are_countable_up_to_a_limit() {
    assert!(Shape::Volume { rounds: 63, fanout: 3 }.is_countable());
    assert!(Shape::Volume { rounds: 64, fanout: 0 }.is_countable());
    assert!(!Shape::Volume { rounds: 64, fanout: 1 }.is_countable());
    assert!(!Shape::Volume { rounds: 65, fanout: 0 }.is_countable());
    assert!(Shape::Throughput { m: u64::MAX, k: 1 }.is_countable());
}

#[test]
fn doubling_rounds_come_before_the_fanout() {
    let shape = Shape::Volume { rounds: 2, fanout: 5 };
    let steps: Vec<_> = (0..).map_while(|n| shape.step_at(n)).collect();
    let mut expected = vec![Dispatch::Batch(2); 3];
    expected.extend(vec![Dispatch::Batch(5); 4]);
    assert_eq!(steps, expected);
}

#[test]
fn batches_come_before_single_sends() {
    let shape = Shape::Throughput { m: 5, k: 2 };
    let steps: Vec<_> = (0..).map_while(|n| shape.step_at(n)).collect();
    let mut expected = vec![Dispatch::Batch(2); 2];
    expected.extend(vec![Dispatch::Single; 5]);
    assert_eq!(steps, expected);
}
