use std::fmt;
use std::time::Instant;

use cloud_hypervisor::progress::{
    Duration, MemoryTransmissionInfo, MigrationProgress, MigrationState,
    MigrationStateOngoingPhase, NonZeroU32, TransportationMode,
};

fn tcp_mode() -> TransportationMode {
    TransportationMode::Tcp {
        connections: NonZeroU32::new(2).unwrap(),
        tls: true,
    }
}

fn wait_millis(millis: u64) {
    let start = Instant::now();
    while start.elapsed() <= std::time::Duration::from_millis(millis) {}
}

#[test]
fn new_initializes_valid_state() {
    let target = Duration::from_millis(150);
    let progress = MigrationProgress::new(tcp_mode(), target);

    assert_eq!(progress.timestamp_snapshot_ms, progress.timestamp_begin_ms);
    assert_eq!(progress.timestamp_snapshot_relative_ms, 0);
    assert_eq!(progress.downtime_configured_ms, 150);
    assert_eq!(progress.downtime_estimated_ms, 0);

    match progress.state {
        MigrationState::Ongoing {
            phase,
            vcpu_throttle_percent,
        } => {
            assert_eq!(phase, MigrationStateOngoingPhase::Starting);
            assert_eq!(vcpu_throttle_percent, 0);
        }
        _ => panic!("expected Ongoing state"),
    }

    assert_eq!(
        progress.memory_transmission_info,
        MemoryTransmissionInfo::default()
    );
}

#[test]
fn update_changes_phase_and_preserves_previous_values() {
    let mut progress =
        MigrationProgress::new(TransportationMode::Local, Duration::from_millis(200));

    let initial_timestamp = progress.timestamp_snapshot_ms;

    wait_millis(1);

    progress.update(MigrationStateOngoingPhase::MemoryPrecopy, None, None, None);

    match progress.state {
        MigrationState::Ongoing {
            phase,
            vcpu_throttle_percent,
        } => {
            assert_eq!(phase, MigrationStateOngoingPhase::MemoryPrecopy);
            assert_eq!(vcpu_throttle_percent, 0); // unchanged
        }
        _ => panic!("expected Ongoing"),
    }

    assert!(progress.timestamp_snapshot_ms >= initial_timestamp);
    assert!(progress.timestamp_snapshot_relative_ms > 0);

    // If no estimated downtime provided, fallback to configured value
    assert_eq!(
        progress.downtime_estimated_ms,
        progress.downtime_configured_ms
    );
}

#[test]
fn update_replaces_memory_info_and_throttle() {
    let mut progress =
        MigrationProgress::new(TransportationMode::Local, Duration::from_millis(100));

    let mem = MemoryTransmissionInfo {
        memory_iteration: 3,
        memory_transmission_bps: 10_000,
        memory_bytes_total: 1_000_000,
        memory_bytes_transmitted: 400_000,
        memory_bytes_remaining_iteration: 100_000,
        memory_pages_4k_transmitted: 100,
        memory_pages_4k_remaining_iteration: 25,
        memory_pages_constant_count: 10,
        memory_dirty_rate_pps: 500,
    };

    progress.update(
        MigrationStateOngoingPhase::MemoryPrecopy,
        Some(mem),
        Some(42),
        Some(Duration::from_millis(55)),
    );

    assert_eq!(progress.memory_transmission_info, mem);
    assert_eq!(progress.downtime_estimated_ms, 55);

    match progress.state {
        MigrationState::Ongoing {
            phase,
            vcpu_throttle_percent,
        } => {
            assert_eq!(phase, MigrationStateOngoingPhase::MemoryPrecopy);
            assert_eq!(vcpu_throttle_percent, 42);
        }
        _ => panic!("expected Ongoing"),
    }
}

#[test]
fn mark_as_finished_transitions_state() {
    let mut progress =
        MigrationProgress::new(TransportationMode::Local, Duration::from_millis(10));

    wait_millis(1);
    progress.mark_as_finished();

    match progress.state {
        MigrationState::Finished {} => {}
        _ => panic!("expected Finished"),
    }

    assert!(progress.timestamp_snapshot_relative_ms > 0);
}

#[test]
fn mark_as_failed_sets_error_strings() {
    #[derive(Debug)]
    struct TestError;

    impl fmt::Display for TestError {
        fn fmt(&self, f: &mut fmt::Formatter<'_>) -> fmt::Result {
            f.write_str("test error")
        }
    }

    let mut progress =
        MigrationProgress::new(TransportationMode::Local, Duration::from_millis(10));

    progress.mark_as_failed(format!("{TestError}"), format!("{TestError:?}"));

    match &progress.state {
        MigrationState::Failed {
            error_msg,
            error_msg_debug,
        } => {
            assert_eq!(error_msg, "test error");
            assert!(error_msg_debug.contains("TestError"));
        }
        _ => panic!("expected Failed"),
    }
    assert_eq!(progress.state.to_string(), "failed: test error");
}

#[test]
fn display_formats_are_stable() {
    let mut progress =
        MigrationProgress::new(TransportationMode::Local, Duration::from_millis(10));

    progress.update(
        MigrationStateOngoingPhase::MemoryPrecopy,
        None,
        Some(12),
        None,
    );

    let s = progress.state.to_string();
    assert!(s.contains("ongoing"));
    assert!(s.contains("phase=memory (precopy)"));
    assert!(s.contains("vcpu_throttle=12"));

    progress.mark_as_cancelled();
    assert_eq!(progress.state.to_string(), "cancelled");
}

#[test]
fn throttle_is_kept_until_it_is_replaced() {
    let mut progress = MigrationProgress::new_at(tcp_mode(), Duration::new(1, 2_500_000), 1_000);
    assert_eq!(progress.downtime_configured_ms, 1_002);
    progress.update_at(
        MigrationStateOngoingPhase::Started,
        None,
        Some(100),
        None,
        1_010,
    );
    progress.update_at(MigrationStateOngoingPhase::Completing, None, None, None, 1_020);
    assert_eq!(
        progress.state,
        MigrationState::Ongoing {
            phase: MigrationStateOngoingPhase::Completing,
            vcpu_throttle_percent: 100,
        }
    );
    assert_eq!(
        progress.state.to_string(),
        "ongoing: phase=completing, vcpu_throttle=100"
    );
    assert_eq!(progress.timestamp_snapshot_relative_ms, 20);
}

#[test]
fn the_end_keeps_what_was_reported() {
    let mut progress = MigrationProgress::new_at(tcp_mode(), Duration::from_millis(7), 50);
    progress.update_at(
        MigrationStateOngoingPhase::MemoryFds,
        None,
        None,
        Some(Duration::from_millis(9)),
        60,
    );
    let before = progress.clone();
    progress.mark_as_finished_at(75);
    assert_eq!(progress.timestamp_begin_ms, 50);
    assert_eq!(progress.timestamp_snapshot_ms, 75);
    assert_eq!(progress.timestamp_snapshot_relative_ms, 25);
    assert_eq!(progress.downtime_estimated_ms, 9);
    assert_eq!(progress.transportation_mode, before.transportation_mode);
    assert_eq!(progress.state.state_name(), "finished");

    let mut cancelled = before.clone();
    cancelled.mark_as_cancelled_at(61);
    assert_eq!(cancelled.state, MigrationState::Cancelled {});

    let mut failed = before;
    failed.mark_as_failed_at("a".to_string(), "b".to_string(), 62);
    assert_eq!(failed.state.state_name(), "failed");
    assert_eq!(failed.timestamp_snapshot_relative_ms, 12);
}

#[test]
fn phases_in_words() {
    assert_eq!(MigrationStateOngoingPhase::Starting.to_string(), "starting");
    assert_eq!(MigrationStateOngoingPhase::Started.to_string(), "started");
    assert_eq!(MigrationStateOngoingPhase::MemoryFds.to_string(), "memory FDs");
    assert_eq!(
        MigrationStateOngoingPhase::MemoryPrecopy.to_string(),
        "memory (precopy)"
    );
    assert_eq!(MigrationStateOngoingPhase::Completing.to_string(), "completing");
}

#[test]
fn zero_is_no_number_of_connections() {
    assert!(NonZeroU32::new(0).is_none());
    assert_eq!(NonZeroU32::new(3).unwrap().get(), 3);
    assert_eq!(Duration::from_millis(1_234).as_millis(), 1_234);
}

#[test]
fn known_estimate_stays() {
    let mut progress =
        MigrationProgress::new(TransportationMode::Local, Duration::from_millis(100));
    progress.update(
        MigrationStateOngoingPhase::MemoryPrecopy,
        None,
        None,
        Some(Duration::from_millis(55)),
    );
    progress.update(MigrationStateOngoingPhase::Completing, None, None, None);
    assert_eq!(progress.downtime_estimated_ms, 55);
    // An estimate of zero is none.
    progress.update(
        MigrationStateOngoingPhase::Completing,
        None,
        None,
        Some(Duration::from_millis(0)),
    );
    assert_eq!(progress.downtime_estimated_ms, 0);
    progress.update(MigrationStateOngoingPhase::Completing, None, None, None);
    assert_eq!(progress.downtime_estimated_ms, 100);
}
