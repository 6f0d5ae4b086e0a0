use std::collections::HashSet;
use std::time::{Duration, Instant, SystemTime, UNIX_EPOCH};

use snowflake::snowflake::{next_timestamp_and_sequence, Advance, Snowflake, SnowflakeError, DEFAULT_EPOCH};

/// Test the number of IDs generated per second using a single thread
#[test]
fn test_ids_per_second_single_thread() {
    // Create a new Snowflake instance
    let snowflake = Snowflake::new(1, None).unwrap();
    let duration = Duration::from_secs(1);

    let start = Instant::now();
    let mut count = 0;
    // Generate IDs for one second
    while start.elapsed() < duration {
        if snowflake.generate().is_ok() {
            count += 1;
        }
    }

    println!("Generated {} IDs per second with a single thread", count);
    assert!(count > 0);
}

/// Test that creating a Snowflake with a node ID out of range returns an error
#[test]
fn test_node_out_of_range() {
    assert!(Snowflake::new(1024, None).is_err());
}

/// The node id boundaries: 1023 is the largest valid node, 1024 the smallest
/// invalid one, and the failure names the machine id range.
#[test]
fn test_node_range_boundaries() {
    assert!(matches!(
        Snowflake::new(1024, None),
        Err(SnowflakeError::MachineIdOutOfRange)
    ));
    assert!(Snowflake::new(1023, None).is_ok());
    assert!(Snowflake::new(0, None).is_ok());
}

/// A generated ID parses back to the node that minted it, and its timestamp
/// field plus the generator's epoch falls inside the wall-clock window of the
/// call.
#[test]
fn test_round_trip() {
    let snowflake = Snowflake::new(5, None).unwrap();
    let before = SystemTime::now()
        .duration_since(UNIX_EPOCH)
        .unwrap()
        .as_millis() as u64;
    let id = snowflake.generate().unwrap();
    let after = SystemTime::now()
        .duration_since(UNIX_EPOCH)
        .unwrap()
        .as_millis() as u64;
    let (timestamp, node, sequence) = Snowflake::parse_id(id);
    assert_eq!(node, 5);
    assert!(sequence <= 4095);
    let absolute = timestamp + DEFAULT_EPOCH as u64;
    assert!(before <= absolute && absolute <= after);
}

/// A custom epoch shifts the embedded timestamp by exactly the difference
/// from the default epoch.
#[test]
fn test_custom_epoch() {
    let epoch = 1_700_000_000_000i64;
    let snowflake = Snowflake::new(9, Some(epoch)).unwrap();
    let before = SystemTime::now()
        .duration_since(UNIX_EPOCH)
        .unwrap()
        .as_millis() as u64;
    let id = snowflake.generate().unwrap();
    let after = SystemTime::now()
        .duration_since(UNIX_EPOCH)
        .unwrap()
        .as_millis() as u64;
    let (timestamp, node, _) = Snowflake::parse_id(id);
    assert_eq!(node, 9);
    let absolute = timestamp + epoch as u64;
    assert!(before <= absolute && absolute <= after);
}

/// Single-threaded uniqueness: every successful ID is distinct, and successes
/// plus errors account for every call.
#[test]
fn test_unique_ids_single_thread() {
    let snowflake = Snowflake::new(1, None).unwrap();
    let mut ids = HashSet::new();
    let mut errors = 0usize;
    let total = 10_000usize;
    for _ in 0..total {
        match snowflake.generate() {
            Ok(id) => {
                assert!(ids.insert(id), "Duplicate ID detected: {}", id);
            }
            Err(_) => {
                errors += 1;
            }
        }
    }
    assert_eq!(ids.len() + errors, total);
}

/// Successive IDs from one generator decode to strictly increasing
/// (timestamp, sequence) pairs.
#[test]
fn test_monotonic_pairs() {
    let snowflake = Snowflake::new(2, None).unwrap();
    let mut previous: Option<(u64, u16)> = None;
    for _ in 0..5_000 {
        if let Ok(id) = snowflake.generate() {
            let (timestamp, _, sequence) = Snowflake::parse_id(id);
            if let Some((pt, ps)) = previous {
                assert!(
                    pt < timestamp || (pt == timestamp && ps < sequence),
                    "pairs not strictly increasing"
                );
            }
            previous = Some((timestamp, sequence));
        }
    }
}

/// Sequence wraparound, driven through the decision function with a stubbed
/// clock value: 4096 claims fill one millisecond, the 4097th must wait, and
/// the pair committed after the wait has a greater timestamp and sequence 0.
#[test]
fn test_sequence_wraparound() {
    let now = 100i64;
    // First claim of the fresh millisecond.
    let first = next_timestamp_and_sequence(now, 99, 4095);
    assert_eq!(first, Advance::Next(100, 0));
    // Claims 2..=4096 stay in the same millisecond.
    let mut last_sequence = 0i64;
    for _ in 1..4096 {
        match next_timestamp_and_sequence(now, 100, last_sequence) {
            Advance::Next(timestamp, sequence) => {
                assert_eq!(timestamp, 100);
                assert_eq!(sequence, last_sequence + 1);
                last_sequence = sequence;
            }
            other => panic!("unexpected decision: {:?}", other),
        }
    }
    assert_eq!(last_sequence, 4095);
    // The 4097th claim exhausts the millisecond.
    assert_eq!(
        next_timestamp_and_sequence(now, 100, 4095),
        Advance::ExhaustedMillis
    );
    // Once the clock advances, the next pair has a strictly greater
    // timestamp and sequence 0.
    assert_eq!(
        next_timestamp_and_sequence(101, 100, 4095),
        Advance::Next(101, 0)
    );
}

/// A clock reading behind the last committed timestamp is refused.
#[test]
fn test_clock_behind_decision() {
    assert_eq!(next_timestamp_and_sequence(99, 100, 0), Advance::ClockBehind);
}

/// Each error kind describes itself.
#[test]
fn test_error_messages() {
    assert_eq!(
        SnowflakeError::ClockMovedBackwards.message(),
        "Clock moved backwards"
    );
    assert_eq!(
        SnowflakeError::MachineIdOutOfRange.message(),
        "Machine ID is out of range"
    );
    assert_eq!(
        SnowflakeError::SequenceOverflow.message(),
        "Sequence overflow"
    );
}
