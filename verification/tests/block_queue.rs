use cloud_hypervisor::block::{BlockError, BlockErrorKind};
use cloud_hypervisor::block_complete::{
    BlockCounters, CompleteEvent, CompletePhase, CompletionCounts, IoCounters, LATENCY_SCALE,
};
use cloud_hypervisor::block_mirror::MirrorError;
use cloud_hypervisor::block_queue::{
    BlockEpollHandler, BlockQueueCommandKind, ExecuteOutcome, QueueConfig, QueueError,
    SubmitAction, SubmitEvent, SubmitPhase,
};
use cloud_hypervisor::block_request::{
    check_request, has_feature, ExecuteError, Request, RequestType,
};
use cloud_hypervisor::block_worker::{
    worker_event, WorkerAnswer, WorkerError, WorkerEvent, WorkerPhase,
};
use cloud_hypervisor::virtio::VIRTIO_BLK_F_RO;

fn config() -> QueueConfig {
    QueueConfig {
        queue_size: 8,
        acked_features: 0,
        disable_sector0_writes: false,
        serial_len: 20,
        rate_limited: false,
    }
}

fn request(request_type: RequestType, sector: u64) -> Request {
    Request {
        request_type,
        sector,
        data_descriptors: vec![(0x1000, 512), (0x2000, 100)],
        status_addr: 0x9000 + sector,
        writeback: true,
    }
}

/// Runs a submission over a list of requests, and records what it needed done.
fn submit(
    handler: &mut BlockEpollHandler,
    mut requests: Vec<(u16, Request, ExecuteOutcome)>,
    batch_ok: bool,
    budget: impl Fn(SubmitAction) -> bool,
) -> (Result<(), QueueError>, Vec<SubmitAction>) {
    let mut actions = Vec::new();
    let mut current = None;
    let mut phase = handler.begin_submit();
    loop {
        let action = phase.action();
        let event = match action {
            SubmitAction::LoadDraining => SubmitEvent::Draining(false),
            SubmitAction::NextChain => {
                SubmitEvent::Chain(Ok(requests.first().map(|(head, _, _)| *head)))
            }
            SubmitAction::Parse(_) => {
                let (_, parsed, outcome) = requests.remove(0);
                current = Some(outcome);
                SubmitEvent::Parsed(Ok(parsed))
            }
            SubmitAction::ConsumeOps | SubmitAction::ConsumeBytes(_) => {
                SubmitEvent::Consumed(budget(action))
            }
            SubmitAction::Execute(_) => SubmitEvent::Executed(true, current.unwrap()),
            SubmitAction::SubmitBatch => SubmitEvent::Done(batch_ok),
            SubmitAction::Finish(result) => return (result, actions),
            _ => SubmitEvent::Done(true),
        };
        if action != SubmitAction::LoadDraining {
            actions.push(action);
        }
        phase = handler.advance_submit(phase, event);
    }
}

#[test]
fn requests_are_handed_to_the_disk() {
    let mut handler = BlockEpollHandler::new(config());
    let (result, actions) = submit(
        &mut handler,
        vec![
            (3, request(RequestType::In, 1), ExecuteOutcome::Pending),
            (4, request(RequestType::Out, 2), ExecuteOutcome::Batched),
            (5, request(RequestType::Flush, 3), ExecuteOutcome::Completed),
        ],
        true,
        |_| true,
    );
    assert_eq!(result, Ok(()));
    assert_eq!(
        actions,
        [
            SubmitAction::NextChain,
            SubmitAction::Parse(3),
            SubmitAction::Execute(3),
            SubmitAction::NextChain,
            SubmitAction::Parse(4),
            SubmitAction::Execute(4),
            SubmitAction::NextChain,
            SubmitAction::Parse(5),
            SubmitAction::Execute(5),
            SubmitAction::WriteStatus(0x9003, 0),
            SubmitAction::AddUsed(5, 1),
            SubmitAction::EnableNotification,
            SubmitAction::NextChain,
            SubmitAction::SubmitBatch,
        ]
    );
    assert_eq!(handler.active_request_count(), 2);
    assert!(!handler.is_drained());
}

#[test]
fn serial_number_counts_for_the_used_length() {
    let mut handler = BlockEpollHandler::new(config());
    let (_, actions) = submit(
        &mut handler,
        vec![(
            1,
            request(RequestType::GetDeviceId, 0),
            ExecuteOutcome::Completed,
        )],
        true,
        |_| true,
    );
    assert!(actions.contains(&SubmitAction::AddUsed(1, 21)));
    let (_, actions) = submit(
        &mut handler,
        vec![(
            1,
            request(RequestType::GetDeviceId, 0),
            ExecuteOutcome::Failed(2),
        )],
        true,
        |_| true,
    );
    assert!(actions.contains(&SubmitAction::WriteStatus(0x9000, 2)));
    assert!(actions.contains(&SubmitAction::AddUsed(1, 1)));
    assert!(handler.is_drained());
}

#[test]
fn failed_batch_is_returned_to_the_guest() {
    let mut handler = BlockEpollHandler::new(config());
    let (result, actions) = submit(
        &mut handler,
        vec![
            (1, request(RequestType::In, 1), ExecuteOutcome::Batched),
            (2, request(RequestType::In, 2), ExecuteOutcome::Batched),
        ],
        false,
        |_| true,
    );
    assert_eq!(result, Ok(()));
    let tail = &actions[actions.len() - 7..];
    assert_eq!(
        tail,
        [
            SubmitAction::SubmitBatch,
            SubmitAction::WriteStatus(0x9001, 1),
            SubmitAction::AddUsed(1, 1),
            SubmitAction::EnableNotification,
            SubmitAction::WriteStatus(0x9002, 1),
            SubmitAction::AddUsed(2, 1),
            SubmitAction::EnableNotification,
        ]
    );
    assert_eq!(handler.active_request_count(), 0);
}

#[test]
fn writes_to_a_read_only_disk_are_rejected() {
    let mut handler = BlockEpollHandler::new(QueueConfig {
        acked_features: 1 << VIRTIO_BLK_F_RO,
        ..config()
    });
    let (result, actions) = submit(
        &mut handler,
        vec![(1, request(RequestType::Out, 5), ExecuteOutcome::Pending)],
        true,
        |_| true,
    );
    assert_eq!(result, Ok(()));
    assert!(actions.contains(&SubmitAction::WriteStatus(0x9005, 1)));
    assert!(!actions.contains(&SubmitAction::Execute(1)));
    assert!(handler.is_drained());
}

#[test]
fn rules_of_requests() {
    let ro = 1 << VIRTIO_BLK_F_RO;
    assert!(has_feature(ro, VIRTIO_BLK_F_RO as u64));
    assert!(!has_feature(ro, 6));
    for (request_type, allowed) in [
        (RequestType::In, true),
        (RequestType::GetDeviceId, true),
        (RequestType::Flush, true),
        (RequestType::Out, false),
        (RequestType::Discard, false),
        (RequestType::WriteZeroes, false),
        (RequestType::Unsupported(9), false),
    ] {
        assert_eq!(
            check_request(ro, &request(request_type, 1), false).is_ok(),
            allowed
        );
        assert!(check_request(0, &request(request_type, 1), false).is_ok());
    }
    assert_eq!(
        check_request(0, &request(RequestType::Out, 0), true),
        Err(ExecuteError::ReadOnly)
    );
    assert!(check_request(0, &request(RequestType::In, 0), true).is_ok());
    assert!(check_request(0, &request(RequestType::Out, 1), true).is_ok());
    assert_eq!(request(RequestType::In, 0).data_len(), 612);
}

#[test]
fn rate_limiter_puts_a_request_back() {
    let limited = QueueConfig {
        rate_limited: true,
        ..config()
    };
    let requests = || vec![(1, request(RequestType::In, 1), ExecuteOutcome::Pending)];

    // No operation left.
    let (_, actions) = submit(
        &mut BlockEpollHandler::new(limited),
        requests(),
        true,
        |_| false,
    );
    assert_eq!(
        actions[2..],
        [
            SubmitAction::ConsumeOps,
            SubmitAction::GoToPreviousPosition,
            SubmitAction::SubmitBatch
        ]
    );

    // No bytes left: the operation is given back.
    let (_, actions) = submit(
        &mut BlockEpollHandler::new(limited),
        requests(),
        true,
        |action| action == SubmitAction::ConsumeOps,
    );
    assert_eq!(
        actions[2..],
        [
            SubmitAction::ConsumeOps,
            SubmitAction::ConsumeBytes(612),
            SubmitAction::ReplenishOps,
            SubmitAction::GoToPreviousPosition,
            SubmitAction::SubmitBatch
        ]
    );

    // A flush needs no bytes.
    let (_, actions) = submit(
        &mut BlockEpollHandler::new(limited),
        vec![(1, request(RequestType::Flush, 1), ExecuteOutcome::Pending)],
        true,
        |_| true,
    );
    assert_eq!(
        actions[2..4],
        [SubmitAction::ConsumeOps, SubmitAction::Execute(1)]
    );
}

#[test]
fn one_run_is_bounded_by_the_queue_size() {
    let mut handler = BlockEpollHandler::new(QueueConfig {
        queue_size: 2,
        ..config()
    });
    let (result, actions) = submit(
        &mut handler,
        (0..5)
            .map(|head| (head, request(RequestType::In, 1), ExecuteOutcome::Pending))
            .collect(),
        true,
        |_| true,
    );
    assert_eq!(result, Ok(()));
    let fetched = actions
        .iter()
        .filter(|action| **action == SubmitAction::NextChain)
        .count();
    assert_eq!(fetched, 2);
    assert_eq!(handler.active_request_count(), 2);
}

#[test]
fn head_index_must_not_be_used_twice() {
    let mut handler = BlockEpollHandler::new(config());
    let (result, _) = submit(
        &mut handler,
        vec![
            (7, request(RequestType::In, 1), ExecuteOutcome::Pending),
            (7, request(RequestType::In, 2), ExecuteOutcome::Pending),
        ],
        true,
        |_| true,
    );
    assert_eq!(result, Err(QueueError::QueueDuplicatedHeadIndex));
    assert_eq!(handler.active_request_count(), 1);
}

#[test]
fn nothing_is_submitted_while_draining_or_before_a_command() {
    let mut handler = BlockEpollHandler::new(config());
    let phase = handler.begin_submit();
    assert_eq!(handler.active_request_count(), 1);
    let phase = handler.advance_submit(phase, SubmitEvent::Draining(true));
    assert!(matches!(phase, SubmitPhase::Finished(Ok(()))));
    assert_eq!(handler.active_request_count(), 0);

    assert_eq!(
        handler.set_pending_command(BlockQueueCommandKind::InstallMirror),
        None
    );
    let phase = handler.begin_submit();
    let phase = handler.advance_submit(phase, SubmitEvent::Draining(false));
    assert!(matches!(phase, SubmitPhase::Finished(Ok(()))));
    assert_eq!(
        handler.take_pending_command(),
        Some(BlockQueueCommandKind::InstallMirror)
    );
}

#[test]
fn submission_fails_with_the_step_that_failed() {
    let fails = |phase, event| {
        let mut handler = BlockEpollHandler::new(config());
        handler.begin_submit();
        match handler.advance_submit(phase, event) {
            SubmitPhase::Finished(Err(error)) => {
                assert_eq!(handler.active_request_count(), 0);
                error
            }
            _ => panic!("the run goes on"),
        }
    };
    assert_eq!(
        fails(SubmitPhase::Fetching, SubmitEvent::Chain(Err(()))),
        QueueError::QueueIterator
    );
    assert_eq!(
        fails(SubmitPhase::Parsing(1), SubmitEvent::Parsed(Err(()))),
        QueueError::RequestParsing
    );
}

fn counts() -> CompletionCounts {
    CompletionCounts::new(BlockCounters::default())
}

/// Runs a completion over a list of results, and records the statuses and lengths.
fn complete(
    handler: &mut BlockEpollHandler,
    counts: &mut CompletionCounts,
    mut completions: Vec<(u64, i32)>,
    latency: u64,
) -> (Result<(), QueueError>, Vec<(u16, u8, u32)>, usize) {
    let mut returned = Vec::new();
    let mut syncs = 0;
    let mut phase = CompletePhase::Polling;
    loop {
        let event = match &phase {
            CompletePhase::Finished(result) => return (*result, returned, syncs),
            CompletePhase::Polling => {
                let next = if completions.is_empty() {
                    None
                } else {
                    Some(completions.remove(0))
                };
                CompleteEvent::Completion(next)
            }
            CompletePhase::Completing(_, _, _) => CompleteEvent::Completed(Ok(latency)),
            CompletePhase::Syncing(_, _, _) => {
                syncs += 1;
                CompleteEvent::Done(true)
            }
            CompletePhase::WritingStatus(head, _, status, len) => {
                returned.push((*head, *status, *len));
                CompleteEvent::Done(true)
            }
            _ => CompleteEvent::Done(true),
        };
        phase = handler.advance_complete(counts, phase, event);
    }
}

#[test]
fn completed_requests_are_returned_and_counted() {
    let mut handler = BlockEpollHandler::new(config());
    submit(
        &mut handler,
        vec![
            (1, request(RequestType::In, 1), ExecuteOutcome::Pending),
            (2, request(RequestType::Out, 2), ExecuteOutcome::Pending),
            (3, request(RequestType::Flush, 3), ExecuteOutcome::Pending),
            (4, request(RequestType::In, 4), ExecuteOutcome::Pending),
        ],
        true,
        |_| true,
    );
    let mut counts = counts();
    let (result, returned, syncs) = complete(
        &mut handler,
        &mut counts,
        vec![(2, 612), (1, 612), (3, 0), (4, -5)],
        7,
    );
    assert_eq!(result, Ok(()));
    assert_eq!(
        returned,
        [(2, 0, 1), (1, 0, 613), (3, 0, 1), (4, 1, 1)]
    );
    assert_eq!(syncs, 0);
    assert!(handler.is_drained());
    assert_eq!(handler.active_request_count(), 0);
    let counters = counts.counters;
    assert_eq!(counters.read.bytes, 612);
    assert_eq!(counters.read.ops, 1);
    assert_eq!(counters.write.ops, 1);
    assert_eq!(counters.read.latency_min, 7);
    assert_eq!(counters.read.latency_max, 7);
    assert_eq!(counters.read.latency_avg, 7 * LATENCY_SCALE);
    assert_eq!(
        counters.counters(),
        [
            ("read_bytes", 612),
            ("write_bytes", 612),
            ("read_ops", 1),
            ("write_ops", 1),
            ("write_latency_min", 7),
            ("write_latency_max", 7),
            ("write_latency_avg", 7),
            ("read_latency_min", 7),
            ("read_latency_max", 7),
            ("read_latency_avg", 7),
        ]
    );
}

#[test]
fn writes_without_a_cache_are_synchronized() {
    let mut handler = BlockEpollHandler::new(config());
    let mut phase = handler.begin_submit();
    for event in [
        SubmitEvent::Draining(false),
        SubmitEvent::Draining(false),
        SubmitEvent::Chain(Ok(Some(9))),
        SubmitEvent::Parsed(Ok(request(RequestType::Out, 1))),
        SubmitEvent::Executed(false, ExecuteOutcome::Pending),
        SubmitEvent::Draining(true),
        SubmitEvent::Done(true),
    ] {
        phase = handler.advance_submit(phase, event);
    }
    assert!(matches!(phase, SubmitPhase::Finished(Ok(()))));
    let (result, returned, syncs) =
        complete(&mut handler, &mut counts(), vec![(9, 612)], 1);
    assert_eq!(result, Ok(()));
    assert_eq!(returned, [(9, 0, 1)]);
    assert_eq!(syncs, 1);
}

#[test]
fn unknown_completion_is_an_error() {
    let mut handler = BlockEpollHandler::new(config());
    let (result, _, _) = complete(&mut handler, &mut counts(), vec![(9, 0)], 1);
    assert_eq!(result, Err(QueueError::MissingEntryRequestList));
}

#[test]
fn completion_fails_with_the_step_that_failed() {
    let steps = [
        (vec![], CompleteEvent::Completed(Err(())), QueueError::RequestCompleting),
        (
            vec![CompleteEvent::Completed(Ok(1))],
            CompleteEvent::Done(false),
            QueueError::RequestStatus,
        ),
        (
            vec![CompleteEvent::Completed(Ok(1)), CompleteEvent::Done(true)],
            CompleteEvent::Done(false),
            QueueError::QueueAddUsed,
        ),
        (
            vec![
                CompleteEvent::Completed(Ok(1)),
                CompleteEvent::Done(true),
                CompleteEvent::Done(true),
            ],
            CompleteEvent::Done(false),
            QueueError::QueueEnableNotification,
        ),
    ];
    for (good, bad, error) in steps {
        let mut handler = BlockEpollHandler::new(config());
        submit(
            &mut handler,
            vec![(1, request(RequestType::In, 1), ExecuteOutcome::Pending)],
            true,
            |_| true,
        );
        let mut counts = counts();
        let mut phase = handler.advance_complete(
            &mut counts,
            CompletePhase::Polling,
            CompleteEvent::Completion(Some((1, 612))),
        );
        for event in good {
            phase = handler.advance_complete(&mut counts, phase, event);
        }
        match handler.advance_complete(&mut counts, phase, bad) {
            CompletePhase::Finished(result) => assert_eq!(result, Err(error)),
            _ => panic!("the run goes on"),
        }
        assert_eq!(handler.active_request_count(), 0);
    }
}

#[test]
fn average_latency_moves_towards_new_values() {
    let mut counters: IoCounters = BlockCounters::default().read;
    counters.record_latency(100, 1);
    assert_eq!(counters.latency_avg, 1_000_000);
    counters.record_latency(200, 2);
    assert_eq!(counters.latency_avg, 1_500_000);
    counters.record_latency(50, 3);
    assert_eq!(counters.latency_avg, 1_166_667);
    assert_eq!(counters.latency_min, 50);
    assert_eq!(counters.latency_max, 200);
}

#[test]
fn events_of_a_worker() {
    assert_eq!(worker_event(16, 15), WorkerEvent::QueueAvail);
    assert_eq!(worker_event(17, 15), WorkerEvent::Completion);
    assert_eq!(worker_event(18, 15), WorkerEvent::RateLimiter);
    assert_eq!(worker_event(19, 15), WorkerEvent::BlockCommand);
    assert_eq!(worker_event(15, 15), WorkerEvent::Other(15));
    // Only the low bits count.
    assert_eq!(worker_event(0x1_0010, 15), WorkerEvent::QueueAvail);
}

#[test]
fn command_waits_for_requests_in_flight() {
    let mut handler = BlockEpollHandler::new(config());
    submit(
        &mut handler,
        vec![(1, request(RequestType::In, 1), ExecuteOutcome::Pending)],
        true,
        |_| true,
    );
    let phase = handler.begin_event(WorkerEvent::BlockCommand, false, true);
    let phase = handler.handle_event(phase, WorkerAnswer::Done(true));
    let phase = handler.handle_event(
        phase,
        WorkerAnswer::Command(Some(BlockQueueCommandKind::CancelToSource)),
    );
    assert!(matches!(phase, WorkerPhase::Finished(Ok(()))));

    // Once the request has completed, the command is applied.
    let mut counts = counts();
    complete(&mut handler, &mut counts, vec![(1, 612)], 1);
    let phase = handler.try_apply_pending_block_queue_command();
    assert!(matches!(
        phase,
        WorkerPhase::Registering(BlockQueueCommandKind::CancelToSource)
    ));
    let phase = handler.handle_event(phase, WorkerAnswer::Tried(Ok(())));
    let phase = handler.handle_event(phase, WorkerAnswer::Tried(Ok(())));
    assert!(matches!(phase, WorkerPhase::Swapping(_)));
    let phase = handler.handle_event(phase, WorkerAnswer::Done(true));
    assert!(matches!(phase, WorkerPhase::Acking(_, Ok(()))));
    // The queue is looked at again.
    let phase = handler.handle_event(phase, WorkerAnswer::Done(true));
    assert!(matches!(phase, WorkerPhase::CheckingLimit(_)));
}

fn failure(message: &str) -> WorkerAnswer {
    WorkerAnswer::Tried(Err(BlockError {
        kind: BlockErrorKind::Io,
        message: message.to_string(),
    }))
}

#[test]
fn failed_replacement_is_acknowledged() {
    let mut handler = BlockEpollHandler::new(config());
    let kind = BlockQueueCommandKind::InstallMirror;
    assert!(matches!(
        handler.handle_event(WorkerPhase::Registering(kind), failure("a")),
        WorkerPhase::Acking(_, Err(MirrorError::RegisterNotifier(e))) if e.message == "a"
    ));
    let phase = handler.handle_event(WorkerPhase::Deregistering(kind), failure("b"));
    assert!(matches!(phase, WorkerPhase::RollingBack(_, _)));
    // The reason for the rollback is reported, not that of a failure to roll back.
    assert!(matches!(
        handler.handle_event(phase, failure("c")),
        WorkerPhase::Acking(_, Err(MirrorError::DeregisterNotifier(e))) if e.message == "b"
    ));
}

#[test]
fn worker_stops_with_the_step_that_failed() {
    let mut handler = BlockEpollHandler::new(config());
    assert!(matches!(
        handler.begin_event(WorkerEvent::RateLimiter, false, true),
        WorkerPhase::Finished(Err(WorkerError::UnexpectedRateLimiterEvent))
    ));
    assert!(matches!(
        handler.begin_event(WorkerEvent::Other(99), true, true),
        WorkerPhase::Finished(Err(WorkerError::UnexpectedEvent(99)))
    ));
    let mut fails = |event, answers: Vec<WorkerAnswer>| {
        let mut phase = handler.begin_event(event, true, true);
        for answer in answers {
            phase = handler.handle_event(phase, answer);
        }
        match phase {
            WorkerPhase::Finished(Err(error)) => error,
            _ => panic!("the worker goes on"),
        }
    };
    let done = || WorkerAnswer::Done(true);
    let failed = || WorkerAnswer::Done(false);
    let unblocked = || WorkerAnswer::Flag(Ok(false));
    let ran = || WorkerAnswer::Ran(Ok(()));
    assert_eq!(
        fails(WorkerEvent::QueueAvail, vec![failed()]),
        WorkerError::QueueEvent
    );
    assert_eq!(
        fails(WorkerEvent::Completion, vec![failed()]),
        WorkerError::QueueEvent
    );
    assert_eq!(
        fails(WorkerEvent::RateLimiter, vec![failed()]),
        WorkerError::RateLimiterEvent
    );
    assert_eq!(
        fails(WorkerEvent::BlockCommand, vec![failed()]),
        WorkerError::BlockCommandEvent
    );
    assert_eq!(
        fails(
            WorkerEvent::QueueAvail,
            vec![done(), unblocked(), ran(), WorkerAnswer::Flag(Err(()))]
        ),
        WorkerError::NeedsNotification
    );
    assert_eq!(
        fails(
            WorkerEvent::QueueAvail,
            vec![done(), unblocked(), ran(), WorkerAnswer::Flag(Ok(true)), failed()]
        ),
        WorkerError::SignalUsedQueue
    );
    for error in [
        QueueError::QueueIterator,
        QueueError::QueueDuplicatedHeadIndex,
    ] {
        assert_eq!(
            fails(
                WorkerEvent::QueueAvail,
                vec![done(), unblocked(), WorkerAnswer::Ran(Err(error))]
            ),
            WorkerError::ProcessQueue(error)
        );
    }
}

#[test]
fn other_errors_of_a_run_do_not_stop_the_worker() {
    let mut handler = BlockEpollHandler::new(config());
    let mut phase = handler.begin_event(WorkerEvent::Completion, false, true);
    for answer in [
        WorkerAnswer::Done(true),
        WorkerAnswer::Ran(Err(QueueError::Fsync)),
        WorkerAnswer::Flag(Ok(true)),
        WorkerAnswer::Done(true),
        WorkerAnswer::Flag(Ok(false)),
        WorkerAnswer::Ran(Err(QueueError::RequestParsing)),
        WorkerAnswer::Flag(Ok(false)),
    ] {
        phase = handler.handle_event(phase, answer);
    }
    assert!(matches!(phase, WorkerPhase::Finished(Ok(()))));
    // A blocked rate limiter keeps the queue from being processed.
    let phase = handler.begin_event(WorkerEvent::QueueAvail, true, true);
    let phase = handler.handle_event(phase, WorkerAnswer::Done(true));
    let phase = handler.handle_event(phase, WorkerAnswer::Flag(Ok(true)));
    assert!(matches!(phase, WorkerPhase::Finished(Ok(()))));
}
