use harness::drivers::polling::confirmation_height;
use harness::drivers::usage::Usage;

#[test]
fn peaks_are_the_largest_readings() {
    let reading = |memory_bytes: u64, cpu_bits: u64| Some(Usage { memory_bytes, cpu_bits });
    let mut peak = Usage::none();
    assert_eq!(peak, Usage { memory_bytes: 0, cpu_bits: 0 });
    for reading in [reading(5, 9), None, reading(8, 2), reading(7, 3)] {
        peak = peak.with(reading);
    }
    assert_eq!(peak, Usage { memory_bytes: 8, cpu_bits: 9 });
}

#[test]
fn confirmations_include_the_block_itself() {
    assert_eq!(confirmation_height(100, 0), 100);
    assert_eq!(confirmation_height(100, 1), 100);
    assert_eq!(confirmation_height(100, 3), 102);
    assert_eq!(confirmation_height(u64::MAX, 3), u64::MAX);
}
