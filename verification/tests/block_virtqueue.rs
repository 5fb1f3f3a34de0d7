use cloud_hypervisor::block_complete::{
    BlockCounters, CompleteAction, CompleteEvent, CompletePhase, CompletionCounts,
};
use cloud_hypervisor::block_queue::{
    BlockEpollHandler, ExecuteOutcome, QueueConfig, QueueError, SubmitAction, SubmitEvent,
    SubmitPhase,
};
use cloud_hypervisor::block_request::{Request, RequestType};
use cloud_hypervisor::block_worker::{AfterSignal, WorkerPhase};
use cloud_hypervisor::guest_memory::status_bytes;
use cloud_hypervisor::virtio::VIRTIO_BLK_F_RO;
use virtio_queue::{Queue, QueueT};
use vm_memory::bitmap::AtomicBitmap;
use vm_memory::{Bytes, GuestAddress, GuestMemoryMmap};

const AVAIL_RING: u64 = 0x400;
const USED_RING: u64 = 0x800;
const STATUS: u64 = 0x1000;

fn memory() -> GuestMemoryMmap<AtomicBitmap> {
    // The regions follow each other.
    GuestMemoryMmap::from_ranges(&[(GuestAddress(0), 0x1000), (GuestAddress(0x1000), 0x1000)])
        .unwrap()
}

fn queue() -> Queue {
    let mut queue = Queue::new(8).unwrap();
    queue.set_size(8);
    queue.set_avail_ring_address(Some(AVAIL_RING as u32), Some(0));
    queue.set_used_ring_address(Some(USED_RING as u32), Some(0));
    queue.set_ready(true);
    queue
}

fn publish(mem: &GuestMemoryMmap<AtomicBitmap>, heads: &[u16]) {
    for (i, head) in heads.iter().enumerate() {
        mem.write_obj(*head, GuestAddress(AVAIL_RING + 4 + 2 * i as u64))
            .unwrap();
    }
    mem.write_obj(heads.len() as u16, GuestAddress(AVAIL_RING + 2))
        .unwrap();
}

fn used(mem: &GuestMemoryMmap<AtomicBitmap>) -> Vec<(u32, u32)> {
    let count: u16 = mem.read_obj(GuestAddress(USED_RING + 2)).unwrap();
    (0..u64::from(count))
        .map(|i| {
            let at = USED_RING + 4 + 8 * i;
            (
                mem.read_obj(GuestAddress(at)).unwrap(),
                mem.read_obj(GuestAddress(at + 4)).unwrap(),
            )
        })
        .collect()
}

fn config() -> QueueConfig {
    QueueConfig {
        queue_size: 8,
        acked_features: 0,
        disable_sector0_writes: false,
        serial_len: 20,
        rate_limited: false,
    }
}

fn request(request_type: RequestType, status_addr: u64) -> Request {
    Request {
        request_type,
        sector: 1,
        data_descriptors: vec![(0x1800, 512)],
        status_addr,
        writeback: true,
    }
}

/// Runs a submission over a queue in guest memory. Each request is of the same kind, with its
/// status byte at an address that depends on its head index, and is taken by the disk in the
/// same way.
fn submit(
    handler: &mut BlockEpollHandler,
    mem: &GuestMemoryMmap<AtomicBitmap>,
    queue: &mut Queue,
    request_type: RequestType,
    outcome: ExecuteOutcome,
    budget: bool,
) -> Result<(), QueueError> {
    let mut chain = None;
    let mut phase = handler.begin_submit();
    loop {
        phase = handler.process_queue_submit(mem, queue, &mut chain, phase);
        let event = match phase.action() {
            SubmitAction::LoadDraining => SubmitEvent::Draining(false),
            SubmitAction::Parse(head) => {
                assert_eq!(chain.as_ref().unwrap().head_index(), head);
                SubmitEvent::Parsed(Ok(request(request_type, STATUS + 16 * u64::from(head))))
            }
            SubmitAction::ConsumeOps | SubmitAction::ConsumeBytes(_) => {
                SubmitEvent::Consumed(budget)
            }
            SubmitAction::Execute(_) => SubmitEvent::Executed(true, outcome),
            SubmitAction::SubmitBatch => {
                SubmitEvent::Done(!matches!(outcome, ExecuteOutcome::Batched))
            }
            SubmitAction::Finish(result) => return result,
            action => panic!("{action:?} is performed by the library"),
        };
        phase = handler.advance_submit(phase, event);
    }
}

#[test]
fn failed_requests_are_returned_through_the_queue() {
    let mem = memory();
    publish(&mem, &[2, 5]);
    let mut queue = queue();
    let mut handler = BlockEpollHandler::new(config());
    let outcome = ExecuteOutcome::Failed(2);
    assert_eq!(
        submit(&mut handler, &mem, &mut queue, RequestType::In, outcome, true),
        Ok(())
    );
    assert_eq!(used(&mem), [(2, 1), (5, 1)]);
    for head in [2, 5] {
        let status: u8 = mem.read_obj(GuestAddress(STATUS + 16 * head)).unwrap();
        assert_eq!(status, 2);
    }
    assert_eq!(queue.next_avail(), 2);
    assert_eq!(handler.active_request_count(), 0);
}

#[test]
fn serial_number_is_returned_with_its_length() {
    let mem = memory();
    publish(&mem, &[1]);
    let mut handler = BlockEpollHandler::new(config());
    let outcome = ExecuteOutcome::Completed;
    submit(
        &mut handler,
        &mem,
        &mut queue(),
        RequestType::GetDeviceId,
        outcome,
        true,
    )
    .unwrap();
    assert_eq!(used(&mem), [(1, 21)]);
}

#[test]
fn failed_batch_is_returned_through_the_queue() {
    let mem = memory();
    publish(&mem, &[0, 1, 2]);
    let mut handler = BlockEpollHandler::new(config());
    let outcome = ExecuteOutcome::Batched;
    submit(
        &mut handler,
        &mem,
        &mut queue(),
        RequestType::Out,
        outcome,
        true,
    )
    .unwrap();
    assert_eq!(used(&mem), [(0, 1), (1, 1), (2, 1)]);
    for head in 0..3 {
        let status: u8 = mem.read_obj(GuestAddress(STATUS + 16 * head)).unwrap();
        assert_eq!(status, 1);
    }
}

#[test]
fn rejected_write_gets_a_status_byte() {
    let mem = memory();
    publish(&mem, &[0]);
    mem.write_obj(u64::MAX, GuestAddress(STATUS)).unwrap();
    let mut handler = BlockEpollHandler::new(QueueConfig {
        acked_features: 1 << VIRTIO_BLK_F_RO,
        ..config()
    });
    let outcome = ExecuteOutcome::Pending;
    submit(
        &mut handler,
        &mem,
        &mut queue(),
        RequestType::Out,
        outcome,
        true,
    )
    .unwrap();
    let status: u64 = mem.read_obj(GuestAddress(STATUS)).unwrap();
    assert_eq!(status, 0xffff_ffff_ffff_ff01);
    assert_eq!(used(&mem), [(0, 1)]);
    assert_eq!(handler.active_request_count(), 0);
}

#[test]
fn limited_request_is_put_back() {
    let mem = memory();
    publish(&mem, &[3]);
    let mut queue = queue();
    let mut handler = BlockEpollHandler::new(QueueConfig {
        rate_limited: true,
        ..config()
    });
    let outcome = ExecuteOutcome::Pending;
    submit(&mut handler, &mem, &mut queue, RequestType::In, outcome, false).unwrap();
    assert_eq!(queue.next_avail(), 0);
    assert!(used(&mem).is_empty());
    // It is found again.
    submit(&mut handler, &mem, &mut queue, RequestType::In, outcome, true).unwrap();
    assert_eq!(queue.next_avail(), 1);
    assert_eq!(handler.active_request_count(), 1);
}

#[test]
fn queue_that_cannot_be_read_is_an_error() {
    let mem = memory();
    // More chains than the queue can hold.
    mem.write_obj(9u16, GuestAddress(AVAIL_RING + 2)).unwrap();
    let mut handler = BlockEpollHandler::new(config());
    let outcome = ExecuteOutcome::Pending;
    assert_eq!(
        submit(
            &mut handler,
            &mem,
            &mut queue(),
            RequestType::In,
            outcome,
            true
        ),
        Err(QueueError::QueueIterator)
    );
}

#[test]
fn status_must_lie_in_guest_memory() {
    let mem = memory();
    for (status_addr, ok) in [
        (0xfff, true),
        (0x1fff, true),
        (0x2000, false),
        (u64::MAX, false),
    ] {
        let mut handler = BlockEpollHandler::new(config());
        let mut phase = handler.begin_submit();
        for event in [
            SubmitEvent::Draining(false),
            SubmitEvent::Draining(false),
            SubmitEvent::Chain(Ok(Some(4))),
            SubmitEvent::Parsed(Ok(request(RequestType::In, status_addr))),
            SubmitEvent::Executed(true, ExecuteOutcome::Completed),
        ] {
            phase = handler.advance_submit(phase, event);
        }
        let next = handler.process_queue_submit(&mem, &mut queue(), &mut None, phase);
        if ok {
            assert!(matches!(next, SubmitPhase::Looping));
        } else {
            assert!(matches!(
                next,
                SubmitPhase::Finished(Err(QueueError::RequestStatus))
            ));
        }
    }
}

#[test]
fn finished_requests_are_returned_through_the_queue() {
    let mem = memory();
    publish(&mem, &[6]);
    let mut queue = queue();
    let mut handler = BlockEpollHandler::new(config());
    let outcome = ExecuteOutcome::Pending;
    submit(&mut handler, &mem, &mut queue, RequestType::In, outcome, true).unwrap();
    let mut completions = vec![(6, 512)];
    let mut counts = CompletionCounts::new(BlockCounters::default());
    let mut phase = CompletePhase::Polling;
    loop {
        phase = handler.process_queue_complete(&mem, &mut queue, &mut counts, phase);
        let event = match phase.action() {
            CompleteAction::NextCompleted => CompleteEvent::Completion(completions.pop()),
            CompleteAction::Complete(6) => CompleteEvent::Completed(Ok(3)),
            CompleteAction::Finish(result) => {
                assert_eq!(result, Ok(()));
                break;
            }
            action => panic!("{action:?} is performed by the library"),
        };
        phase = handler.advance_complete(&mut counts, phase, event);
    }
    assert_eq!(used(&mem), [(6, 513)]);
    let status: u8 = mem.read_obj(GuestAddress(STATUS + 16 * 6)).unwrap();
    assert_eq!(status, 0);
    assert_eq!(counts.counters.read.ops, 1);
    assert_eq!(handler.active_request_count(), 0);
}

#[test]
fn guest_is_notified_without_event_indices() {
    let mem = memory();
    let mut queue = queue();
    let mut handler = BlockEpollHandler::new(config());
    let next = handler.try_signal_used_queue(
        &mem,
        &mut queue,
        WorkerPhase::CheckingNotification(AfterSignal::End),
    );
    assert!(matches!(next, WorkerPhase::Signalling(AfterSignal::End)));
    // With event indices it is not notified when nothing has been returned.
    queue.set_event_idx(true);
    let next = handler.try_signal_used_queue(
        &mem,
        &mut queue,
        WorkerPhase::CheckingNotification(AfterSignal::End),
    );
    assert!(matches!(next, WorkerPhase::Finished(Ok(()))));
    let next = handler.try_signal_used_queue(&mem, &mut queue, WorkerPhase::ReadingQueueEvent);
    assert!(matches!(next, WorkerPhase::ReadingQueueEvent));
}

#[test]
fn status_is_a_single_byte() {
    assert_eq!(status_bytes(1), [1]);
    assert_eq!(status_bytes(0), [0]);
    // A status byte at the very end of guest memory is enough for a refused write.
    let mem = memory();
    let mut handler = BlockEpollHandler::new(QueueConfig {
        acked_features: 1 << VIRTIO_BLK_F_RO,
        ..config()
    });
    let mut phase = handler.begin_submit();
    for event in [
        SubmitEvent::Draining(false),
        SubmitEvent::Draining(false),
        SubmitEvent::Chain(Ok(Some(4))),
        SubmitEvent::Parsed(Ok(request(RequestType::Out, 0x1fff))),
    ] {
        phase = handler.advance_submit(phase, event);
    }
    let next = handler.process_queue_submit(&mem, &mut queue(), &mut None, phase);
    assert!(matches!(next, SubmitPhase::Looping));
    let status: u8 = mem.read_obj(GuestAddress(0x1fff)).unwrap();
    assert_eq!(status, 1);
    assert_eq!(used(&mem), [(4, 1)]);
}

#[test]
fn chain_is_returned_only_where_the_ring_is() {
    for (used_ring, ok) in [
        (0x800, true),
        // The first element ends where guest memory ends, or reaches beyond.
        (0x1ff4, true),
        (0x1ff8, false),
        (0x2400, false),
        // The index of the ring does not lie at an even offset of its region.
        (0x3010, false),
    ] {
        let mem: GuestMemoryMmap<AtomicBitmap> = GuestMemoryMmap::from_ranges(&[
            (GuestAddress(0), 0x1000),
            (GuestAddress(0x1000), 0x1000),
            (GuestAddress(0x3001), 0x1000),
        ])
        .unwrap();
        let mut state = queue().state();
        state.used_ring = used_ring;
        let mut queue = Queue::try_from(state).unwrap();
        let mut handler = BlockEpollHandler::new(config());
        let mut phase = handler.begin_submit();
        for event in [
            SubmitEvent::Draining(false),
            SubmitEvent::Draining(false),
            SubmitEvent::Chain(Ok(Some(4))),
            SubmitEvent::Parsed(Ok(request(RequestType::Flush, STATUS))),
            SubmitEvent::Executed(true, ExecuteOutcome::Completed),
        ] {
            phase = handler.advance_submit(phase, event);
        }
        let next = handler.process_queue_submit(&mem, &mut queue, &mut None, phase);
        if ok {
            assert!(matches!(next, SubmitPhase::Looping));
            assert_eq!(queue.next_used(), 1);
        } else {
            assert!(matches!(
                next,
                SubmitPhase::Finished(Err(QueueError::QueueAddUsed))
            ));
        }
    }
}

#[test]
fn taken_chain_is_handed_on() {
    let mem = memory();
    publish(&mem, &[5, 2]);
    let mut queue = queue();
    let mut handler = BlockEpollHandler::new(config());
    let mut chain = None;
    let mut phase = handler.begin_submit();
    for head in [5, 2] {
        for _ in 0..2 {
            if !matches!(phase, SubmitPhase::Parsing(_)) {
                if matches!(phase, SubmitPhase::Entering | SubmitPhase::Looping) {
                    phase = handler.advance_submit(phase, SubmitEvent::Draining(false));
                }
                phase = handler.process_queue_submit(&mem, &mut queue, &mut chain, phase);
            }
        }
        assert!(matches!(phase, SubmitPhase::Parsing(h) if h == head));
        assert_eq!(chain.as_ref().unwrap().head_index(), head);
        phase = handler.advance_submit(
            phase,
            SubmitEvent::Parsed(Ok(request(RequestType::In, STATUS))),
        );
        phase = handler.advance_submit(
            phase,
            SubmitEvent::Executed(true, ExecuteOutcome::Pending),
        );
    }
    assert_eq!(queue.next_avail(), 2);
    assert_eq!(queue.next_used(), 0);
}
