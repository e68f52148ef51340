//! Clocks, fault points, ids, and the stand-in daemon's arguments.

use agent_os::clock::{ClockTime, TestClock};
use agent_os::faults::ArmedFaults;
use agent_os::ids::{uuid_v7, DeterministicIds, Uuid};
use agent_os::process::{exit_poll, parse_exit_after, ArgError, ExitPoll};

#[test]
fn test_clock_advances() {
    let clock = TestClock::new(1_000);
    assert_eq!(clock.now_unix_ms(), 1_000);
    clock.advance(250);
    assert_eq!(clock.now_unix_ms(), 1_250);
    clock.set(42);
    assert_eq!(clock.now_unix_ms(), 42);
    clock.advance(-50);
    assert_eq!(clock.now_unix_ms(), -8);
}

#[test]
fn cloned_clocks_share_their_time_source() {
    let clock = TestClock::new(5);
    let clone = clock.clone();
    clone.advance(10);
    assert_eq!(clock.now_unix_ms(), 15);
}

#[test]
fn clocks_stop_at_the_ends_of_their_range() {
    let clock = TestClock::new(i64::MAX - 1);
    clock.advance(5);
    assert_eq!(clock.now_unix_ms(), i64::MAX);
    clock.set(i64::MIN + 1);
    clock.advance(-2);
    assert_eq!(clock.now_unix_ms(), i64::MIN);
    let mut time = ClockTime { unix_ms: i64::MAX };
    time.advance(i64::MIN);
    assert_eq!(time.unix_ms, -1);
    time.set(3);
    assert_eq!(time, ClockTime { unix_ms: 3 });
}

#[test]
fn clock_moves_add_up() {
    let clock = TestClock::new(100);
    clock.advance(20);
    clock.advance(-7);
    assert_eq!(clock.now_unix_ms(), 113);
}

#[test]
fn test_fault_fires_once() {
    let mut faults = ArmedFaults::new();
    assert!(!faults.is_triggered("io"));
    faults.arm("io");
    assert!(!faults.is_triggered("io"));
    faults.trigger("io");
    assert!(faults.is_triggered("io"));
    faults.trigger("io");
    assert!(faults.is_triggered("io"));
    faults.assert_triggered("io");
    faults.arm("io");
    assert!(!faults.is_triggered("io"), "re-arming resets the point");
    faults.trigger("io");
    assert!(faults.is_triggered("io"));
}

#[test]
fn triggering_an_unarmed_point_is_a_no_op() {
    let mut faults = ArmedFaults::new();
    faults.trigger("never-armed");
    assert!(!faults.is_triggered("never-armed"));
}

#[test]
fn an_untriggered_fault_is_named() {
    let mut faults = ArmedFaults::default();
    faults.arm("clock");
    assert_eq!(
        faults.check_triggered("clock"),
        Err("fault point \"clock\" was armed but never triggered".to_string())
    );
    assert!(!faults.is_triggered("clock"));
    faults.trigger("clock");
    assert_eq!(faults.check_triggered("clock"), Ok(()));
    faults.assert_triggered("clock");
}

#[test]
fn inject_unarmed_point_returns_false() {
    let mut faults = ArmedFaults::new();
    assert!(!faults.inject("io"), "an unarmed point must not fire");
    assert!(!faults.is_triggered("io"));
}

#[test]
fn inject_armed_point_fires_exactly_once() {
    let mut faults = ArmedFaults::new();
    faults.arm("io");
    assert!(faults.inject("io"), "the first inject must fire");
    assert!(faults.is_triggered("io"));
    faults.assert_triggered("io");
    assert!(!faults.inject("io"), "the second inject must not fire");
}

#[test]
fn inject_rearmed_point_fires_again() {
    let mut faults = ArmedFaults::new();
    faults.arm("io");
    assert!(faults.inject("io"));
    faults.arm("io");
    assert!(!faults.is_triggered("io"), "re-arming resets the point");
    assert!(faults.inject("io"), "the re-armed point must fire again");
}

#[test]
fn inject_marks_point_triggered_for_assertions() {
    let mut faults = ArmedFaults::new();
    faults.arm("clock");
    assert!(faults.inject("clock"));
    faults.assert_triggered("clock");
}

const POINTS: [&str; 4] = ["clock", "fs", "io", "net"];

/// Runs pseudo-random calls against a model of two flags for each point.
fn run_calls(seed: u64, inject: bool) {
    let mut faults = ArmedFaults::new();
    let mut armed = [false; 4];
    let mut fired = [false; 4];
    let mut state: u64 = seed;
    for _ in 0..64 {
        state = state.wrapping_mul(6364136223846793005).wrapping_add(1442695040888963407);
        let index = ((state >> 33) % 4) as usize;
        if (state >> 40) % 2 == 0 {
            faults.arm(POINTS[index]);
            armed[index] = true;
            fired[index] = false;
        } else {
            let expected = armed[index] && !fired[index];
            if inject {
                assert_eq!(faults.inject(POINTS[index]), expected);
            } else {
                faults.trigger(POINTS[index]);
            }
            if expected {
                fired[index] = true;
            }
        }
        for i in 0..4 {
            assert_eq!(faults.is_triggered(POINTS[i]), fired[i]);
            assert_eq!(faults.check_triggered(POINTS[i]).is_ok(), fired[i]);
        }
    }
}

#[test]
fn prop_inject_once_per_arm() {
    for seed in 0..50 {
        run_calls(seed, true);
    }
}

#[test]
fn prop_faults() {
    for seed in 100..150 {
        run_calls(seed, false);
    }
}

#[test]
fn test_ids_are_time_sorted() {
    let mut provider = DeterministicIds::new(1_700_000_000_000);
    let first = provider.new_uuid_v7();
    let second = provider.new_uuid_v7();
    assert_eq!(first.get_version_num(), 7);
    assert_eq!(second.get_version_num(), 7);
    assert!(first < second, "ids must be strictly increasing");

    let mut previous = second;
    let mut seen = std::collections::HashSet::new();
    assert!(seen.insert(first));
    assert!(seen.insert(second));
    for _ in 0..256 {
        let next = provider.new_uuid_v7();
        assert_eq!(next.get_version_num(), 7);
        assert!(previous < next, "ids must be strictly increasing");
        assert!(seen.insert(next), "ids must be unique");
        previous = next;
    }
}

#[test]
fn ids_embed_the_seed_timestamp() {
    let mut provider = DeterministicIds::new(1_700_000_000_000);
    let id = provider.new_uuid_v7();
    let bytes = id.as_bytes();
    let timestamp = u64::from_be_bytes([
        0, 0, bytes[0], bytes[1], bytes[2], bytes[3], bytes[4], bytes[5],
    ]);
    assert_eq!(timestamp, 1_700_000_000_000);
}

#[test]
fn same_seed_replays_the_same_sequence() {
    let mut left = DeterministicIds::new(7);
    let mut right = DeterministicIds::new(7);
    for _ in 0..8 {
        assert_eq!(left.new_uuid_v7(), right.new_uuid_v7());
    }
}

#[test]
fn ids_agree_with_the_uuid_crate() {
    let id = uuid_v7(1_700_000_000_000, 5);
    let expected = uuid::Uuid::from_bytes([
        0x01, 0x8b, 0xcf, 0xe5, 0x68, 0x00, 0x70, 0x00, 0x80, 0, 0, 0, 0, 0, 0, 5,
    ]);
    assert_eq!(id, Uuid { number: expected.as_u128() });
    assert_eq!(expected.get_version_num(), 7);
    assert_eq!(id.as_bytes(), expected.into_bytes());
}

#[test]
fn test_temp_daemon_rejects_invalid_exit_after() {
    let bad = vec!["--exit-after-ms".to_string(), "not-a-number".to_string()];
    assert!(matches!(parse_exit_after(&bad), Err(ArgError::BadValue(v)) if v == "not-a-number"));
    let missing = vec!["--exit-after-ms".to_string()];
    assert!(matches!(parse_exit_after(&missing), Err(ArgError::MissingValue)));
}

#[test]
fn test_temp_daemon_exits_cleanly() {
    let args = vec!["--exit-after-ms".to_string(), "0".to_string()];
    assert!(matches!(parse_exit_after(&args), Ok(Some(0))));
    assert!(matches!(parse_exit_after(&Vec::new()), Ok(None)));
    let more = vec![
        "other".to_string(),
        "--exit-after-ms".to_string(),
        "5".to_string(),
        "--exit-after-ms".to_string(),
        "+17".to_string(),
    ];
    assert!(matches!(parse_exit_after(&more), Ok(Some(17))));
}

#[test]
fn an_exit_counts_at_the_deadline() {
    assert_eq!(exit_poll(true, true), ExitPoll::Exited);
    assert_eq!(exit_poll(false, true), ExitPoll::TimedOut);
    assert_eq!(exit_poll(false, false), ExitPoll::Again);
}
