use cloud_hypervisor::block::{
    wait_for_active_requests, Block, BlockError, BlockErrorKind, BlockSetup, DiskProperties, DiskTopology, DrainStep, Error,
    PausePhase, ResizePhase, WRITEBACK_OFFSET,
};
use cloud_hypervisor::block_mirror::{
    advance_commands, advance_install, create_mirror_queue_commands, initialize_mirror, AckError,
    CommandEvent, CommandPhase, InstallPhase, MirrorError, StartFacts,
    MIRROR_COMMAND_ACK_TIMEOUT_SECS,
};
use cloud_hypervisor::fcntl::{
    LockAction, LockError, LockGranularity, LockGranularityChoice, LockType, F_RDLCK, F_UNLCK,
    F_WRLCK,
};
use cloud_hypervisor::mirror::{MirrorFailure, MirrorPhase, MirrorState};
use cloud_hypervisor::virtio::{
    VIRTIO_BLK_F_BLK_SIZE, VIRTIO_BLK_F_CONFIG_WCE, VIRTIO_BLK_F_DISCARD, VIRTIO_BLK_F_FLUSH,
    VIRTIO_BLK_F_MQ, VIRTIO_BLK_F_RO, VIRTIO_BLK_F_SEG_MAX, VIRTIO_BLK_F_TOPOLOGY,
    VIRTIO_BLK_F_WRITE_ZEROES, VIRTIO_F_ACCESS_PLATFORM, VIRTIO_F_VERSION_1,
    VIRTIO_RING_F_EVENT_IDX, VIRTIO_RING_F_INDIRECT_DESC,
};
use virtio_queue::{Queue, QueueT};

fn setup() -> BlockSetup {
    BlockSetup {
        id: "test".to_string(),
        disk_path: "/disk".to_string(),
        read_only: false,
        access_platform_enabled: false,
        num_queues: 1,
        queue_size: 128,
        serial: vec![1, 2, 3],
        rate_limited: false,
        sparse: true,
        disable_sector0_writes: false,
        lock_granularity: LockGranularityChoice::QemuCompatible,
    }
}

fn disk() -> DiskProperties {
    DiskProperties {
        logical_size: Ok(1 << 20),
        supports_sparse_operations: false,
        topology: DiskTopology {
            logical_block_size: 512,
            physical_block_size: 4096,
            minimum_io_size: 4096,
            optimal_io_size: 0,
        },
        max_discard_write_zeroes_seg: 1,
    }
}

fn features(flags: &[u32]) -> u64 {
    flags.iter().map(|flag| 1u64 << flag).sum()
}

fn block() -> Block {
    Block::new(setup(), disk(), None).unwrap()
}

fn failure(kind: BlockErrorKind) -> BlockError {
    BlockError {
        kind,
        message: "it failed".to_string(),
    }
}

fn io_failure() -> BlockError {
    failure(BlockErrorKind::Io)
}

fn queue(size: u16) -> Queue {
    let mut queue = Queue::new(128).unwrap();
    queue.set_size(size);
    queue
}

/// An active device with one queue.
fn active_block() -> Block {
    let mut block = block();
    block.begin_activate();
    block.activate_queue(0, &mut queue(128));
    block.activated();
    block
}

fn facts() -> StartFacts {
    StartFacts {
        source_supported: Ok(()),
        destination_supported: Ok(()),
        source_size: Ok(1 << 20),
        destination_size: Ok(1 << 20),
    }
}

#[test]
fn mirror_rejects_qcow2_backing_source() {
    // An image with a backing file cannot take part in a mirror.
    let error = block()
        .start_mirror(StartFacts {
            source_supported: Err(failure(BlockErrorKind::UnsupportedFeature)),
            ..facts()
        })
        .unwrap_err();

    assert!(matches!(
        error,
        MirrorError::Unsupported(error)
            if error.kind() == BlockErrorKind::UnsupportedFeature
    ));
}

#[test]
fn mirror_rejects_qcow2_backing_destination() {
    let error = block()
        .start_mirror(StartFacts {
            destination_supported: Err(failure(BlockErrorKind::UnsupportedFeature)),
            ..facts()
        })
        .unwrap_err();

    assert!(matches!(
        error,
        MirrorError::Unsupported(error)
            if error.kind() == BlockErrorKind::UnsupportedFeature
    ));
}

#[test]
fn mirror_needs_an_active_device_and_equal_sizes() {
    assert!(matches!(
        block().start_mirror(facts()),
        Err(MirrorError::DeviceNotActive)
    ));
    let mut block = active_block();
    assert_eq!(block.start_mirror(facts()).unwrap(), 1 << 20);
    assert!(matches!(
        block.start_mirror(StartFacts {
            destination_size: Ok(5),
            ..facts()
        }),
        Err(MirrorError::DestinationSizeMismatch {
            source_size: 1_048_576,
            destination_size: 5,
        })
    ));
    assert!(matches!(
        block.start_mirror(StartFacts {
            source_size: Err(io_failure()),
            ..facts()
        }),
        Err(MirrorError::Backend(_))
    ));
    block.paused = true;
    assert!(matches!(
        block.start_mirror(facts()),
        Err(MirrorError::DevicePaused)
    ));
    assert!(matches!(
        Block::supports_mirroring(Err(io_failure())),
        Err(MirrorError::Unsupported(_))
    ));
}

#[test]
fn features_of_a_new_device() {
    let always = [
        VIRTIO_F_VERSION_1,
        VIRTIO_BLK_F_FLUSH,
        VIRTIO_BLK_F_CONFIG_WCE,
        VIRTIO_BLK_F_BLK_SIZE,
        VIRTIO_BLK_F_TOPOLOGY,
        VIRTIO_BLK_F_SEG_MAX,
        VIRTIO_RING_F_EVENT_IDX,
        VIRTIO_RING_F_INDIRECT_DESC,
    ];
    assert_eq!(block().avail_features, features(&always));

    let everything = Block::new(
        BlockSetup {
            read_only: true,
            access_platform_enabled: true,
            num_queues: 4,
            ..setup()
        },
        DiskProperties {
            supports_sparse_operations: true,
            ..disk()
        },
        None,
    )
    .unwrap();
    assert_eq!(
        everything.avail_features,
        features(&always)
            | features(&[
                VIRTIO_BLK_F_WRITE_ZEROES,
                VIRTIO_BLK_F_DISCARD,
                VIRTIO_F_ACCESS_PLATFORM,
                VIRTIO_BLK_F_RO,
                VIRTIO_BLK_F_MQ,
            ])
    );
    assert!(everything.read_only());
    assert!(!block().read_only());

    let dense = Block::new(
        BlockSetup {
            sparse: false,
            ..setup()
        },
        DiskProperties {
            supports_sparse_operations: true,
            ..disk()
        },
        None,
    )
    .unwrap();
    assert_eq!(
        dense.avail_features,
        features(&always) | features(&[VIRTIO_BLK_F_WRITE_ZEROES])
    );
    assert_eq!(dense.config.write_zeroes_may_unmap, 0);
}

#[test]
fn configuration_of_a_new_device() {
    let config = block().config;
    assert_eq!(config.capacity, 2048);
    assert_eq!(config.seg_max, 126);
    assert_eq!(config.blk_size, 512);
    assert_eq!(config.physical_block_exp, 3);
    assert_eq!(config.min_io_size, 8);
    assert_eq!(config.opt_io_size, 0);
    assert_eq!(config.writeback, 1);
    assert_eq!(config.num_queues, 0);
    assert_eq!(config.max_discard_sectors, 0);

    let sparse = Block::new(
        BlockSetup {
            num_queues: 2,
            ..setup()
        },
        DiskProperties {
            supports_sparse_operations: true,
            topology: DiskTopology {
                logical_block_size: 4096,
                ..disk().topology
            },
            ..disk()
        },
        None,
    )
    .unwrap()
    .config;
    assert_eq!(sparse.physical_block_exp, 0);
    assert_eq!(sparse.num_queues, 2);
    assert_eq!(sparse.max_discard_sectors, u32::MAX);
    assert_eq!(sparse.max_discard_seg, 1);
    assert_eq!(sparse.discard_sector_alignment, 8);
    assert_eq!(sparse.max_write_zeroes_sectors, u32::MAX);
    assert_eq!(sparse.write_zeroes_may_unmap, 1);
}

#[test]
fn disk_without_a_size_is_an_error() {
    assert!(matches!(
        Block::new(
            setup(),
            DiskProperties {
                logical_size: Err(io_failure()),
                ..disk()
            },
            None
        ),
        Err(Error::DiskSize(e)) if e.kind() == BlockErrorKind::Io
    ));
}

#[test]
fn snapshot_restores_the_device() {
    let mut before = block();
    before.acked_features = features(&[VIRTIO_BLK_F_FLUSH]);
    before.config.writeback = 0;
    before.disk_nsectors = 77;
    let state = before.snapshot().unwrap();
    assert_eq!(state.disk_path, "/disk");
    let after = Block::new(
        setup(),
        DiskProperties {
            logical_size: Err(io_failure()),
            ..disk()
        },
        Some(state),
    )
    .unwrap();
    assert_eq!(after.disk_nsectors, 77);
    assert_eq!(after.avail_features, before.avail_features);
    assert_eq!(after.acked_features, before.acked_features);
    assert_eq!(after.config, before.config);
    assert!(after.paused);

    before.mirror_started();
    assert!(matches!(before.snapshot(), Err(Error::MirrorActive)));
    before.mirror_cancelled();
    assert!(before.snapshot().is_ok());
}

#[test]
fn cache_mode_follows_the_features() {
    let mut block = block();
    let flush = features(&[VIRTIO_BLK_F_FLUSH]);
    let wce = features(&[VIRTIO_BLK_F_CONFIG_WCE]);
    for (acked, desired, enabled) in [
        (0, true, false),
        (flush, false, true),
        (wce, true, false),
        (flush | wce, true, true),
        (flush | wce, false, false),
    ] {
        block.acked_features = acked;
        assert_eq!(block.is_writeback_enabled(desired), enabled);
        block.write_config(WRITEBACK_OFFSET, &[u8::from(desired)]);
        assert_eq!(block.writeback, enabled);
        assert_eq!(block.config.writeback, u8::from(enabled));
        // The next activation keeps the mode.
        block.begin_activate();
        assert_eq!(block.writeback, enabled);
    }
    // Nothing else can be written.
    block.acked_features = flush | wce;
    block.set_writeback_mode(false);
    block.write_config(WRITEBACK_OFFSET, &[1, 0]);
    block.write_config(0, &[1]);
    assert!(!block.writeback);
    block.reset();
    assert!(block.writeback);
}

#[test]
fn activation_starts_one_worker_for_each_queue() {
    let mut block = block();
    block.acked_features = features(&[VIRTIO_RING_F_EVENT_IDX]);
    block.begin_activate();
    let mut first = queue(64);
    let activation = block.activate_queue(0, &mut first);
    assert!(first.state().event_idx_enabled);
    assert_eq!(activation.queue_index, 0);
    assert_eq!(activation.ring_depth, 64);
    assert_eq!(activation.config.queue_size, 64);
    assert_eq!(activation.config.serial_len, 3);
    block.activate_queue(1, &mut queue(32));
    assert_eq!(block.queue_cmd_senders, [64, 32]);
    block.activated();
    assert!(block.active);
    block.reset();
    assert!(block.queue_cmd_senders.is_empty());
}

#[test]
fn read_only_feature_is_forced() {
    let mut block = Block::new(
        BlockSetup {
            read_only: true,
            ..setup()
        },
        disk(),
        None,
    )
    .unwrap();
    assert!(block.acknowledge_read_only());
    assert_eq!(block.acked_features, features(&[VIRTIO_BLK_F_RO]));
    assert!(!block.acknowledge_read_only());
    assert_eq!(block.image_lock_type(), LockType::Read);
}

#[test]
fn image_is_locked_by_the_chosen_granularity() {
    let mut block = block();
    let request = block.try_lock_image(Ok(1), Ok(2));
    match request.action() {
        LockAction::SetLock(lock) => {
            assert_eq!(lock.l_start, 100);
            assert_eq!(lock.l_type, F_RDLCK as i16);
        }
        _ => panic!("the first lock is set"),
    }
    assert!(block.image_locked(Ok(())).is_ok());
    assert_eq!(block.held_lock, LockType::Write);
    assert!(matches!(
        block.image_locked(Err(LockError::AlreadyLocked)),
        Err(Error::LockDiskImage {
            error: LockError::AlreadyLocked,
            lock_type: LockType::Write,
            path,
        }) if path == "/disk"
    ));
    match block.unlock_image(Ok(1), Ok(2)).action() {
        LockAction::SetLock(lock) => assert_eq!(lock.l_type, F_UNLCK as i16),
        _ => panic!("the first lock is cleared"),
    }
    assert!(block.image_unlocked(Err(LockError::Io(5))).is_err());
    assert_eq!(block.held_lock, LockType::Write);
    assert!(block.image_unlocked(Ok(())).is_ok());
    assert_eq!(block.held_lock, LockType::Unlock);

    block.lock_granularity_choice = LockGranularityChoice::ByteRange;
    for (logical, physical, granularity) in [
        (Ok(10), Ok(4), LockGranularity::ByteRange(0, 10)),
        (Ok(10), Ok(40), LockGranularity::ByteRange(0, 40)),
        (Ok(10), Err(()), LockGranularity::ByteRange(0, 10)),
        (Err(()), Ok(4), LockGranularity::ByteRange(0, 4)),
        (Err(()), Err(()), LockGranularity::WholeFile),
    ] {
        assert_eq!(block.lock_granularity(logical, physical), granularity);
    }
    block.lock_granularity_choice = LockGranularityChoice::Full;
    assert_eq!(
        block.lock_granularity(Ok(1), Ok(1)),
        LockGranularity::WholeFile
    );
    match block.lock_destination(Ok(1), Ok(1)).action() {
        LockAction::SetLock(lock) => assert_eq!(lock.l_type, F_WRLCK as i16),
        _ => panic!("the lock is set"),
    }
    match block.relock_destination(Ok(1), Ok(1)).action() {
        LockAction::SetLock(lock) => assert_eq!(lock.l_type, F_WRLCK as i16),
        _ => panic!("the lock is set"),
    }
}

#[test]
fn resize_changes_the_capacity() {
    let mut block = block();
    assert!(matches!(
        block.resize(1000),
        ResizePhase::Finished(Err(Error::InvalidSize))
    ));
    let mut phase = block.resize(1 << 21);
    while !matches!(phase, ResizePhase::Finished(_)) {
        phase = block.continue_resize(phase, Ok(()));
    }
    assert!(matches!(phase, ResizePhase::Finished(Ok(()))));
    assert_eq!(block.disk_nsectors, 4096);
    assert_eq!(block.config.capacity, 4096);
    assert!(!block.paused);
    block.mirror_started();
    assert!(matches!(
        block.resize(512),
        ResizePhase::Finished(Err(Error::MirrorActive))
    ));
}

#[test]
fn resize_fails_with_the_step_that_failed() {
    let mut block = block();
    assert!(matches!(
        block.continue_resize(ResizePhase::ResizingDisk(1), Err(io_failure())),
        ResizePhase::Finished(Err(Error::DiskResize(_)))
    ));
    assert!(matches!(
        block.continue_resize(ResizePhase::Pausing(1), Err(io_failure())),
        ResizePhase::Finished(Err(Error::PauseVcpus(_)))
    ));
    assert_eq!(block.disk_nsectors, 2048);
    assert!(matches!(
        block.continue_resize(ResizePhase::Resuming, Err(io_failure())),
        ResizePhase::Finished(Err(Error::ResumeVcpus(_)))
    ));
    assert!(matches!(
        block.continue_resize(ResizePhase::Signalling, Err(io_failure())),
        ResizePhase::Finished(Err(Error::ConfigChange(_)))
    ));
}

#[test]
fn device_stays_paused_when_it_cannot_be_resumed() {
    let mut block = block();
    let phase = block.continue_resize(ResizePhase::Pausing(8), Ok(()));
    assert!(block.paused);
    assert!(matches!(
        block.continue_resize(phase, Err(io_failure())),
        ResizePhase::Finished(Err(Error::ResumeVcpus(_)))
    ));
    assert!(block.paused);
    assert_eq!(block.config.capacity, 8);
}

#[test]
fn configuration_space_is_little_endian() {
    let mut block = block();
    block.config.capacity = 0x0102_0304_0506_0708;
    block.config.num_queues = 0x0a0b;
    block.config.writeback = 1;
    let bytes = block.config.to_bytes();
    assert_eq!(bytes.len(), 60);
    assert_eq!(&bytes[..8], &[8, 7, 6, 5, 4, 3, 2, 1]);
    assert_eq!(bytes[WRITEBACK_OFFSET as usize], 1);
    assert_eq!(&bytes[34..36], &[0x0b, 0x0a]);
    block.config.writeback = 0;
    assert_eq!(block.config.to_bytes()[WRITEBACK_OFFSET as usize], 0);
}

#[test]
fn guest_reads_what_it_wrote() {
    let mut block = block();
    block.ack_features(1 << VIRTIO_BLK_F_FLUSH | 1 << VIRTIO_BLK_F_CONFIG_WCE | 1 << VIRTIO_BLK_F_RO);
    // What is not offered cannot be acknowledged.
    assert_eq!(
        block.acked_features,
        1 << VIRTIO_BLK_F_FLUSH | 1 << VIRTIO_BLK_F_CONFIG_WCE
    );
    for mode in [0, 1] {
        block.write_config(WRITEBACK_OFFSET, &[mode]);
        let mut data = [0xff];
        block.read_config(WRITEBACK_OFFSET, &mut data);
        assert_eq!(data, [mode]);
    }
    let mut data = [0xff; 2];
    block.read_config(58, &mut data);
    assert_eq!(data, [0, 0]);
    let mut data = [0xff; 2];
    block.read_config(59, &mut data);
    assert_eq!(data, [0xff, 0xff]);
    block.read_config(u64::MAX, &mut data);
    assert_eq!(data, [0xff, 0xff]);
}

#[test]
fn pause_waits_for_active_requests() {
    let mut next_warning = 1;
    assert_eq!(
        wait_for_active_requests(2, 0, &mut next_warning),
        DrainStep::Wait(false)
    );
    assert_eq!(
        wait_for_active_requests(2, 1, &mut next_warning),
        DrainStep::Wait(true)
    );
    assert_eq!(next_warning, 6);
    assert_eq!(
        wait_for_active_requests(2, 5, &mut next_warning),
        DrainStep::Wait(false)
    );
    assert_eq!(
        wait_for_active_requests(1, 30, &mut next_warning),
        DrainStep::TimedOut
    );
    assert_eq!(
        wait_for_active_requests(0, 99, &mut next_warning),
        DrainStep::Drained
    );
}

#[test]
fn pause_stops_draining_however_it_ends() {
    for (drained, parked) in [(true, true), (true, false), (false, false)] {
        let mut block = block();
        let phase = block.pause();
        assert!(block.draining_active_requests);
        let mut phase = block.continue_pause(phase, drained);
        if drained {
            assert_eq!(phase, PausePhase::Parking);
            phase = block.continue_pause(phase, parked);
        }
        assert_eq!(phase, PausePhase::Finished(drained && parked));
        assert!(!block.draining_active_requests);
        assert_eq!(block.paused, drained && parked);
        block.resume();
        block.resumed();
        assert!(!block.paused);
    }
}

#[test]
fn mirror_is_completed_only_when_ready() {
    let mut block = active_block();
    assert!(matches!(
        block.complete_mirror(None),
        Err(MirrorError::NotActive)
    ));
    let mut state = MirrorState::new(1 << 20, "test".into());
    assert!(matches!(
        block.complete_mirror(Some(&state)),
        Err(MirrorError::NotReady)
    ));
    assert!(matches!(
        Block::begin_switch_over(&mut state),
        Err(MirrorError::NotReady)
    ));
    state.transition_to_phase(MirrorPhase::Ready);
    assert!(block.complete_mirror(Some(&state)).is_ok());
    assert!(Block::begin_switch_over(&mut state).is_ok());
    assert!(matches!(state.phase(), MirrorPhase::Completing));
    assert!(matches!(
        block.cancel_mirror(Some(&mut state)),
        Err(MirrorError::CompletionInProgress)
    ));
    Block::end_switch_over(&mut state);
    assert!(matches!(state.phase(), MirrorPhase::Completed));
    block.mirror_completed("/other".to_string());
    assert_eq!(block.disk_path, "/other");
    assert_eq!(block.held_lock, LockType::Write);
    assert!(!block.mirror_active);
}

#[test]
fn failed_mirror_can_be_cancelled_but_not_completed() {
    let mut block = active_block();
    let mut state = MirrorState::new(1 << 20, "test".into());
    state.transition_to_phase(MirrorPhase::Ready);
    state.transition_to_phase(MirrorPhase::Failed(
        MirrorFailure::DestinationSubmit.into(),
    ));
    assert!(matches!(
        Block::begin_switch_over(&mut state),
        Err(MirrorError::NotReady)
    ));
    assert!(block.cancel_mirror(Some(&mut state)).is_ok());
    assert!(matches!(state.phase(), MirrorPhase::Cancelling));
    // A cancellation can be retried.
    assert!(block.cancel_mirror(Some(&mut state)).is_ok());
    assert!(matches!(
        block.cancel_mirror(None),
        Err(MirrorError::NotActive)
    ));
    block.paused = true;
    assert!(matches!(
        block.cancel_mirror(Some(&mut state)),
        Err(MirrorError::DevicePaused)
    ));
    assert!(matches!(
        block.complete_mirror(Some(&state)),
        Err(MirrorError::DevicePaused)
    ));
}

#[test]
fn commands_are_sent_to_every_queue() {
    let mut phase = create_mirror_queue_commands(2);
    let mut names = Vec::new();
    loop {
        let event = match &phase {
            CommandPhase::Finished(result) => {
                assert!(result.is_ok());
                break;
            }
            CommandPhase::Waiting(i) => {
                names.push(format!("wait {i}"));
                CommandEvent::Ack(Ok(Ok(())))
            }
            CommandPhase::Creating(i) => {
                names.push(format!("create {i}"));
                CommandEvent::Tried(Ok(()))
            }
            CommandPhase::FillingSlot(i) => {
                names.push(format!("fill {i}"));
                CommandEvent::Done(true)
            }
            CommandPhase::Notifying(i) => {
                names.push(format!("notify {i}"));
                CommandEvent::Tried(Ok(()))
            }
            CommandPhase::Created => CommandEvent::Done(true),
        };
        phase = advance_commands(2, phase, event);
    }
    assert_eq!(
        names,
        [
            "create 0", "create 1", "fill 0", "notify 0", "fill 1", "notify 1", "wait 0", "wait 1"
        ]
    );
    assert_eq!(MIRROR_COMMAND_ACK_TIMEOUT_SECS, 5);
}

#[test]
fn commands_fail_with_the_step_that_failed() {
    let fails = |phase, event| match advance_commands(2, phase, event) {
        CommandPhase::Finished(Err(error)) => error,
        _ => panic!("the commands go on"),
    };
    assert!(matches!(
        fails(
            CommandPhase::Creating(0),
            CommandEvent::Tried(Err(io_failure()))
        ),
        MirrorError::Backend(e) if e.message == "it failed"
    ));
    assert!(matches!(
        fails(CommandPhase::FillingSlot(1), CommandEvent::Done(false)),
        MirrorError::CommandSlotOccupied
    ));
    assert!(matches!(
        fails(
            CommandPhase::Notifying(0),
            CommandEvent::Tried(Err(io_failure()))
        ),
        MirrorError::NotifyWorker(_)
    ));
    assert!(matches!(
        fails(
            CommandPhase::Waiting(0),
            CommandEvent::Ack(Err(AckError::Timeout))
        ),
        MirrorError::Ack(AckError::Timeout)
    ));
    assert!(matches!(
        fails(
            CommandPhase::Waiting(0),
            CommandEvent::Ack(Ok(Err(MirrorError::RegisterNotifier(io_failure()))))
        ),
        MirrorError::RegisterNotifier(_)
    ));
}

#[test]
fn failed_installation_is_reverted() {
    let (mut state, mut phase) = initialize_mirror(1, 4096, "test".into());
    for event in [
        CommandEvent::Tried(Ok(())),
        CommandEvent::Done(true),
        CommandEvent::Done(true),
        CommandEvent::Tried(Ok(())),
        CommandEvent::Ack(Ok(Ok(()))),
    ] {
        phase = advance_install(1, &mut state, phase, event);
    }
    assert!(matches!(phase, InstallPhase::Spawning));
    // The copy worker cannot be started.
    let event = CommandEvent::Tried(Err(failure(BlockErrorKind::Other)));
    phase = advance_install(1, &mut state, phase, event);
    assert!(matches!(phase, InstallPhase::Reverting(_, _)));
    let MirrorPhase::Failed(reason) = state.phase() else {
        panic!("the mirror has not failed");
    };
    assert_eq!(*reason, MirrorFailure::Installation);
    // The revert fails too, but the first error is reported.
    let event = CommandEvent::Tried(Err(io_failure()));
    phase = advance_install(1, &mut state, phase, event);
    assert!(matches!(
        phase,
        InstallPhase::Finished(Err(MirrorError::Backend(e))) if e.kind() == BlockErrorKind::Other
    ));
}

#[test]
fn installation_ends_early_without_a_backend() {
    let (mut state, phase) = initialize_mirror(2, 4096, "test".into());
    assert_eq!(state.disk_id(), "test");
    assert_eq!(state.status().total_bytes, 4096);
    assert!(matches!(
        advance_install(
            2,
            &mut state,
            phase,
            CommandEvent::Tried(Err(io_failure()))
        ),
        InstallPhase::Finished(Err(MirrorError::Backend(_)))
    ));
    assert!(matches!(state.phase(), MirrorPhase::Running));
}

#[test]
fn installation_without_queues_waits_for_nothing() {
    let (mut state, phase) = initialize_mirror(0, 512, "test".into());
    assert!(matches!(
        phase,
        InstallPhase::Sending(CommandPhase::Created)
    ));
    let phase = advance_install(0, &mut state, phase, CommandEvent::Done(true));
    assert!(matches!(phase, InstallPhase::Spawning));
    assert!(matches!(
        advance_install(0, &mut state, phase, CommandEvent::Tried(Ok(()))),
        InstallPhase::Finished(Ok(()))
    ));
}
