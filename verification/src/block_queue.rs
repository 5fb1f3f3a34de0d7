//! The state of one virtqueue worker of a block device, and the submission of the
//! requests that the guest has queued.
//!
//! A run over the queue is a sequence of phases. Each phase needs one action (an access to
//! the virtqueue, to guest memory, to the rate limiter or to the disk), and the answer to
//! that action decides the next phase. The virtqueue and guest memory are accessed here; the
//! other actions are left to the caller.

use std::collections::VecDeque;

use virtio_queue::Queue;
use vm_memory::bitmap::AtomicBitmap;
use vm_memory::GuestMemoryMmap;
use vstd::prelude::*;

use crate::block_request::{check_request, read_only_violation, sector0_violation, wrapped_len,
    Request, RequestType};
use crate::guest_memory::{guest_regions, in_regions, write_status};
use crate::virtio::{VIRTIO_BLK_S_IOERR, VIRTIO_BLK_S_OK};
use crate::virtqueue::{add_used, advanced, enable_notification, go_to_previous_position,
    has_chain, iter_next, next_position, queue_next_used, virtqueue, Chain, VirtqueueView};

verus! {

/// Errors of a virtqueue worker.
#[derive(Clone, Copy, Debug, PartialEq, Eq, Structural)]
pub enum QueueError {
    /// Failed to parse the request.
    RequestParsing,
    /// Failed to complete the request.
    RequestCompleting,
    /// Missing the expected entry in the list of requests.
    MissingEntryRequestList,
    /// Failed synchronizing the file.
    Fsync,
    /// Failed adding used index.
    QueueAddUsed,
    /// Failed creating an iterator over the queue.
    QueueIterator,
    /// Duplicated head index in the queue.
    QueueDuplicatedHeadIndex,
    /// Failed to update request status.
    RequestStatus,
    /// Failed to enable notification.
    QueueEnableNotification,
}

/// Lifecycle command kind for a virtqueue worker.
#[derive(Debug, Clone, Copy, PartialEq, Eq, Structural)]
pub enum BlockQueueCommandKind {
    /// Replaces the plain source backend with a mirroring backend.
    InstallMirror,
    /// Replaces the mirroring backend with a destination backend.
    CompleteToDestination,
    /// Replaces the mirroring backend with a source backend.
    CancelToSource,
}

/// What a virtqueue worker is set up with.
#[derive(Debug, Clone, Copy)]
pub struct QueueConfig {
    /// The size of the virtqueue.
    pub queue_size: u16,
    /// The features that the guest acknowledged.
    pub acked_features: u64,
    /// Whether writes to the first sector are rejected.
    pub disable_sector0_writes: bool,
    /// The length of the serial number.
    pub serial_len: usize,
    /// Whether the worker has a rate limiter.
    pub rate_limited: bool,
}

/// The requests and counts of one virtqueue worker.
#[derive(Debug)]
pub struct BlockEpollHandler {
    config: QueueConfig,
    inflight_requests: VecDeque<(u16, Request)>,
    batch_inflight_requests: Vec<(u16, Request)>,
    processed: u16,
    active_request_count: usize,
    pending_block_queue_command: Option<BlockQueueCommandKind>,
}

/// The state of a virtqueue worker.
#[verifier::ext_equal]
pub struct QueueState {
    /// What the worker is set up with.
    pub config: QueueConfig,
    /// The requests that were handed to the disk, with their head index.
    pub inflight: Seq<(u16, Request)>,
    /// The requests that wait to be handed to the disk together.
    pub batch: Seq<(u16, Request)>,
    /// The number of times the current run has asked for a descriptor chain.
    pub processed: int,
    /// The worker's share of the active request count.
    pub active: int,
    /// The command that waits for the requests in flight.
    pub pending: Option<BlockQueueCommandKind>,
}

/// What follows once a descriptor chain has been returned to the guest.
#[derive(Clone, Copy, Debug, PartialEq, Eq, Structural)]
pub enum AfterReturn {
    /// The next descriptor chain is processed.
    NextChain,
    /// The next request of the failed batch is returned.
    NextOfBatch,
}

/// How the disk took a request.
#[derive(Clone, Copy, Debug, PartialEq, Eq, Structural)]
pub enum ExecuteOutcome {
    /// The request waits to be handed over as part of a batch.
    Batched,
    /// The request was handed over and will complete later.
    Pending,
    /// The request has completed.
    Completed,
    /// The request failed with this status.
    Failed(u32),
}

/// How far a submission run has come.
#[derive(Debug)]
pub enum SubmitPhase {
    /// Asking whether the device drains its requests, before anything else.
    Entering,
    /// Asking whether the device drains its requests, before the next chain.
    Looping,
    /// Taking a descriptor chain from the queue.
    Fetching,
    /// Parsing the request behind a head index.
    Parsing(u16),
    /// Taking an operation from the rate limiter.
    ConsumingOps(u16, Request),
    /// Taking the bytes of a request from the rate limiter.
    ConsumingBytes(u16, Request),
    /// Giving an operation back to the rate limiter.
    Replenishing,
    /// Putting the descriptor chain back.
    Rewinding,
    /// Handing a request to the disk.
    Executing(u16, Request),
    /// Writing a status for a head index, with the used length that follows.
    WritingStatus(u16, u64, u8, u32, AfterReturn),
    /// Adding a head index to the used ring.
    AddingUsed(u16, u32, AfterReturn),
    /// Enabling notifications.
    EnablingNotification(AfterReturn),
    /// Handing the batch to the disk.
    SubmittingBatch,
    /// The run has ended.
    Finished(Result<(), QueueError>),
}

/// What a submission run needs done next.
#[derive(Clone, Copy, Debug, PartialEq, Eq)]
pub enum SubmitAction {
    /// Read the flag that says whether the device drains its requests.
    LoadDraining,
    /// Take the next descriptor chain from the queue.
    NextChain,
    /// Parse the request of the chain with this head index.
    Parse(u16),
    /// Take one operation from the rate limiter.
    ConsumeOps,
    /// Take this many bytes from the rate limiter.
    ConsumeBytes(u64),
    /// Give one operation back to the rate limiter.
    ReplenishOps,
    /// Go back to the previous position of the queue.
    GoToPreviousPosition,
    /// Hand the request with this head index to the disk.
    Execute(u16),
    /// Write a status byte to a guest address.
    WriteStatus(u64, u8),
    /// Add a head index to the used ring, with a length.
    AddUsed(u16, u32),
    /// Enable the notifications of the queue.
    EnableNotification,
    /// Hand the batch to the disk.
    SubmitBatch,
    /// The run has ended with this result.
    Finish(Result<(), QueueError>),
}

/// The answer to an action of a submission run.
#[derive(Debug)]
pub enum SubmitEvent {
    /// Whether the device drains its requests.
    Draining(bool),
    /// The head index of the chain, if there was one, or the failure to look for it.
    Chain(Result<Option<u16>, ()>),
    /// The request, or the failure to parse it.
    Parsed(Result<Request, ()>),
    /// Whether the rate limiter had the budget.
    Consumed(bool),
    /// The cache mode, and how the disk took the request.
    Executed(bool, ExecuteOutcome),
    /// Whether the action succeeded.
    Done(bool),
}

/// `event` is an answer to what `phase` asks for.
pub open spec fn submit_answers(phase: SubmitPhase, event: SubmitEvent) -> bool {
    match phase {
        SubmitPhase::Entering | SubmitPhase::Looping => event is Draining,
        SubmitPhase::Fetching => event is Chain,
        SubmitPhase::Parsing(_) => event is Parsed,
        SubmitPhase::ConsumingOps(_, _) | SubmitPhase::ConsumingBytes(_, _) => event is Consumed,
        SubmitPhase::Executing(_, _) => event is Executed,
        SubmitPhase::Finished(_) => false,
        _ => event is Done,
    }
}

/// The head index that a phase works on.
pub open spec fn submit_current(phase: SubmitPhase) -> Option<u16> {
    match phase {
        SubmitPhase::Parsing(head) => Some(head),
        SubmitPhase::ConsumingOps(head, _) => Some(head),
        SubmitPhase::ConsumingBytes(head, _) => Some(head),
        SubmitPhase::Executing(head, _) => Some(head),
        SubmitPhase::WritingStatus(head, _, _, _, _) => Some(head),
        SubmitPhase::AddingUsed(head, _, _) => Some(head),
        _ => None,
    }
}

/// One of the requests has this head index.
pub open spec fn has_head(requests: Seq<(u16, Request)>, head: u16) -> bool {
    exists|i: int| 0 <= i < requests.len() && (#[trigger] requests[i]).0 == head
}

/// No two of the requests have the same head index.
pub open spec fn heads_distinct(requests: Seq<(u16, Request)>) -> bool {
    forall|i: int, j: int|
        0 <= i < j < requests.len() ==> (#[trigger] requests[i]).0 != (#[trigger] requests[j]).0
}

/// No head index occurs in both lists.
pub open spec fn heads_disjoint(a: Seq<(u16, Request)>, b: Seq<(u16, Request)>) -> bool {
    forall|i: int, j: int|
        0 <= i < a.len() && 0 <= j < b.len() ==> (#[trigger] a[i]).0 != (#[trigger] b[j]).0
}

impl QueueState {
    /// No head index is in use twice.
    pub open spec fn heads_ok(self) -> bool {
        &&& heads_distinct(self.inflight)
        &&& heads_distinct(self.batch)
        &&& heads_disjoint(self.inflight, self.batch)
    }

    /// The state between two runs: each active request is in flight.
    pub open spec fn idle(self) -> bool {
        &&& heads_distinct(self.inflight)
        &&& self.batch.len() == 0
        &&& self.active == self.inflight.len()
    }

    /// The state when a submission run has come to `phase`.
    pub open spec fn submitting(self, phase: SubmitPhase) -> bool {
        &&& self.heads_ok()
        &&& self.processed >= 0
        &&& phase is Looping ==> self.processed < u16::MAX
        &&& phase is Entering ==> self.batch.len() == 0
        &&& match submit_current(phase) {
            Some(head) => !has_head(self.inflight, head) && !has_head(self.batch, head),
            None => true,
        }
        &&& if phase is Finished {
            self.idle()
        } else {
            self.active == self.inflight.len() + 1
        }
    }

    /// The state at the end of a submission run: what is left of the batch is dropped.
    pub open spec fn ended(self) -> QueueState {
        QueueState { batch: Seq::empty(), active: self.active - 1, ..self }
    }
}

/// A run ends with this result.
pub open spec fn submit_end(q: QueueState, result: Result<(), QueueError>) -> (
    QueueState,
    SubmitPhase,
) {
    (q.ended(), SubmitPhase::Finished(result))
}

/// A run goes on with the next chain, as long as it has not asked for one as often as
/// the queue is large. A compliant driver does not submit more than that, but a buggy
/// or malicious one can keep adding.
pub open spec fn submit_loop(c: QueueConfig, q: QueueState) -> (QueueState, SubmitPhase) {
    if q.processed >= c.queue_size {
        (q, SubmitPhase::SubmittingBatch)
    } else {
        (q, SubmitPhase::Looping)
    }
}

/// A run goes on with the first request of the failed batch, if there is one left.
pub open spec fn submit_fail_batch(q: QueueState) -> (QueueState, SubmitPhase) {
    if q.batch.len() == 0 {
        submit_end(q, Ok(()))
    } else {
        let (head, request) = q.batch[0];
        (
            QueueState { batch: q.batch.drop_first(), ..q },
            SubmitPhase::WritingStatus(
                head,
                request.status_addr,
                VIRTIO_BLK_S_IOERR as u8,
                1,
                AfterReturn::NextOfBatch,
            ),
        )
    }
}

/// A run returns a chain to the guest, with the status that the disk gave. The length
/// covers the serial number where that was asked for, and the status byte.
pub open spec fn submit_return(
    c: QueueConfig,
    q: QueueState,
    head: u16,
    request: Request,
    status: u32,
) -> (QueueState, SubmitPhase) {
    (
        q,
        SubmitPhase::WritingStatus(
            head,
            request.status_addr,
            status as u8,
            if status == VIRTIO_BLK_S_OK && request.request_type == RequestType::GetDeviceId {
                (c.serial_len as u32 + 1) as u32
            } else {
                1
            },
            AfterReturn::NextChain,
        ),
    )
}

/// The state and the phase that follow a phase on an answer.
pub open spec fn submit_next(
    c: QueueConfig,
    q: QueueState,
    phase: SubmitPhase,
    event: SubmitEvent,
) -> (QueueState, SubmitPhase) {
    match (phase, event) {
        // Nothing is submitted while the device drains or while a command waits
        // for the requests in flight.
        (SubmitPhase::Entering, SubmitEvent::Draining(draining)) => if draining
            || q.pending is Some {
            submit_end(q, Ok(()))
        } else {
            submit_loop(c, q)
        },
        (SubmitPhase::Looping, SubmitEvent::Draining(draining)) => if draining {
            (q, SubmitPhase::SubmittingBatch)
        } else {
            (QueueState { processed: q.processed + 1, ..q }, SubmitPhase::Fetching)
        },
        (SubmitPhase::Fetching, SubmitEvent::Chain(chain)) => match chain {
            Err(_) => submit_end(q, Err(QueueError::QueueIterator)),
            Ok(None) => (q, SubmitPhase::SubmittingBatch),
            Ok(Some(head)) => if has_head(q.batch, head) || has_head(q.inflight, head) {
                submit_end(q, Err(QueueError::QueueDuplicatedHeadIndex))
            } else {
                (q, SubmitPhase::Parsing(head))
            },
        },
        (SubmitPhase::Parsing(head), SubmitEvent::Parsed(parsed)) => match parsed {
            Err(_) => submit_end(q, Err(QueueError::RequestParsing)),
            Ok(request) => if read_only_violation(c.acked_features, request.request_type)
                || sector0_violation(request, c.disable_sector0_writes) {
                (
                    q,
                    SubmitPhase::WritingStatus(
                        head,
                        request.status_addr,
                        VIRTIO_BLK_S_IOERR as u8,
                        1,
                        AfterReturn::NextChain,
                    ),
                )
            } else if c.rate_limited {
                (q, SubmitPhase::ConsumingOps(head, request))
            } else {
                (q, SubmitPhase::Executing(head, request))
            },
        },
        (SubmitPhase::ConsumingOps(head, request), SubmitEvent::Consumed(granted)) => if !granted {
            (q, SubmitPhase::Rewinding)
        } else if request.moves_data() {
            (q, SubmitPhase::ConsumingBytes(head, request))
        } else {
            (q, SubmitPhase::Executing(head, request))
        },
        (SubmitPhase::ConsumingBytes(head, request), SubmitEvent::Consumed(granted)) => if granted {
            (q, SubmitPhase::Executing(head, request))
        } else {
            (q, SubmitPhase::Replenishing)
        },
        (SubmitPhase::Replenishing, _) => (q, SubmitPhase::Rewinding),
        (SubmitPhase::Rewinding, _) => (q, SubmitPhase::SubmittingBatch),
        (SubmitPhase::Executing(head, request), SubmitEvent::Executed(writeback, outcome)) => {
            let request = request.with_writeback(writeback);
            match outcome {
                ExecuteOutcome::Batched => submit_loop(
                    c,
                    QueueState { batch: q.batch.push((head, request)), ..q },
                ),
                ExecuteOutcome::Pending => submit_loop(
                    c,
                    QueueState {
                        inflight: q.inflight.push((head, request)),
                        active: q.active + 1,
                        ..q
                    },
                ),
                ExecuteOutcome::Completed => submit_return(c, q, head, request, VIRTIO_BLK_S_OK),
                ExecuteOutcome::Failed(status) => submit_return(c, q, head, request, status),
            }
        },
        (
            SubmitPhase::WritingStatus(head, _, _, len, after),
            SubmitEvent::Done(ok),
        ) => if ok {
            (q, SubmitPhase::AddingUsed(head, len, after))
        } else {
            submit_end(q, Err(QueueError::RequestStatus))
        },
        (SubmitPhase::AddingUsed(_, _, after), SubmitEvent::Done(ok)) => if ok {
            (q, SubmitPhase::EnablingNotification(after))
        } else {
            submit_end(q, Err(QueueError::QueueAddUsed))
        },
        (SubmitPhase::EnablingNotification(after), SubmitEvent::Done(ok)) => if !ok {
            submit_end(q, Err(QueueError::QueueEnableNotification))
        } else {
            match after {
                AfterReturn::NextChain => submit_loop(c, q),
                AfterReturn::NextOfBatch => submit_fail_batch(q),
            }
        },
        (SubmitPhase::SubmittingBatch, SubmitEvent::Done(ok)) => if ok {
            submit_end(
                QueueState {
                    inflight: q.inflight + q.batch,
                    active: q.active + q.batch.len(),
                    ..q
                },
                Ok(()),
            )
        } else {
            submit_fail_batch(q)
        },
        _ => (q, phase),
    }
}

/// What a phase needs done.
pub open spec fn submit_action(phase: SubmitPhase) -> SubmitAction {
    match phase {
        SubmitPhase::Entering => SubmitAction::LoadDraining,
        SubmitPhase::Looping => SubmitAction::LoadDraining,
        SubmitPhase::Fetching => SubmitAction::NextChain,
        SubmitPhase::Parsing(head) => SubmitAction::Parse(head),
        SubmitPhase::ConsumingOps(_, _) => SubmitAction::ConsumeOps,
        SubmitPhase::ConsumingBytes(_, request) => SubmitAction::ConsumeBytes(
            wrapped_len(request.data_descriptors@),
        ),
        SubmitPhase::Replenishing => SubmitAction::ReplenishOps,
        SubmitPhase::Rewinding => SubmitAction::GoToPreviousPosition,
        SubmitPhase::Executing(head, _) => SubmitAction::Execute(head),
        SubmitPhase::WritingStatus(_, addr, status, _, _) => SubmitAction::WriteStatus(
            addr,
            status,
        ),
        SubmitPhase::AddingUsed(head, len, _) => SubmitAction::AddUsed(head, len),
        SubmitPhase::EnablingNotification(_) => SubmitAction::EnableNotification,
        SubmitPhase::SubmittingBatch => SubmitAction::SubmitBatch,
        SubmitPhase::Finished(result) => SubmitAction::Finish(result),
    }
}

impl SubmitPhase {
    /// What this phase needs done.
    pub fn action(&self) -> (action: SubmitAction)
        ensures
            action == submit_action(*self),
    {
        match self {
            SubmitPhase::Entering => SubmitAction::LoadDraining,
            SubmitPhase::Looping => SubmitAction::LoadDraining,
            SubmitPhase::Fetching => SubmitAction::NextChain,
            SubmitPhase::Parsing(head) => SubmitAction::Parse(*head),
            SubmitPhase::ConsumingOps(_, _) => SubmitAction::ConsumeOps,
            SubmitPhase::ConsumingBytes(_, request) => SubmitAction::ConsumeBytes(
                request.data_len(),
            ),
            SubmitPhase::Replenishing => SubmitAction::ReplenishOps,
            SubmitPhase::Rewinding => SubmitAction::GoToPreviousPosition,
            SubmitPhase::Executing(head, _) => SubmitAction::Execute(*head),
            SubmitPhase::WritingStatus(_, addr, status, _, _) => SubmitAction::WriteStatus(
                *addr,
                *status,
            ),
            SubmitPhase::AddingUsed(head, len, _) => SubmitAction::AddUsed(*head, *len),
            SubmitPhase::EnablingNotification(_) => SubmitAction::EnableNotification,
            SubmitPhase::SubmittingBatch => SubmitAction::SubmitBatch,
            SubmitPhase::Finished(result) => SubmitAction::Finish(*result),
        }
    }
}

/// Requests with distinct head indices are no more than there are head indices.
proof fn lemma_few_heads(requests: Seq<(u16, Request)>)
    requires
        heads_distinct(requests),
    ensures
        requests.len() <= 0x1_0000,
{
    let heads = Seq::new(requests.len(), |i: int| requests[i].0 as int);
    assert(heads.no_duplicates());
    heads.unique_seq_to_set();
    vstd::set_lib::lemma_int_range(0, 0x1_0000);
    assert(heads.to_set().subset_of(vstd::set_lib::set_int_range(0, 0x1_0000)));
    vstd::set_lib::lemma_len_subset(
        heads.to_set(),
        vstd::set_lib::set_int_range(0, 0x1_0000),
    );
}

impl View for BlockEpollHandler {
    type V = QueueState;

    closed spec fn view(&self) -> QueueState {
        QueueState {
            config: self.config,
            inflight: self.inflight_requests@,
            batch: self.batch_inflight_requests@,
            processed: self.processed as int,
            active: self.active_request_count as int,
            pending: self.pending_block_queue_command,
        }
    }
}

impl BlockEpollHandler {
    /// What the worker is set up with.
    pub open spec fn spec_config(self) -> QueueConfig {
        self@.config
    }

    /// The length of a returned serial number fits in the used ring.
    pub open spec fn serial_fits(self) -> bool {
        (self.spec_config().serial_len as u32) < u32::MAX
    }

    /// Creates a worker without any request.
    pub fn new(config: QueueConfig) -> (handler: Self)
        ensures
            handler.spec_config() == config,
            handler@.idle(),
            handler@.inflight.len() == 0,
            handler@.processed == 0,
            handler@.pending is None,
    {
        // Analysis during boot shows around ~40 maximum requests. This gives head
        // room for systems with slower I/O without compromising the cost of the
        // reallocation or memory overhead.
        BlockEpollHandler {
            config,
            inflight_requests: VecDeque::with_capacity(64),
            batch_inflight_requests: Vec::new(),
            processed: 0,
            active_request_count: 0,
            pending_block_queue_command: None,
        }
    }

    /// The worker's share of the active request count of the device.
    pub fn active_request_count(&self) -> (count: usize)
        ensures
            count == self@.active,
    {
        self.active_request_count
    }

    /// A spec-compliant driver never reuses a virtqueue head index while the
    /// corresponding chain is still available. Double check the guest driver is behaving.
    pub fn is_head_in_flight(
        inflight: &VecDeque<(u16, Request)>,
        batch: &Vec<(u16, Request)>,
        head: u16,
    ) -> (found: bool)
        ensures
            found == (has_head(batch@, head) || has_head(inflight@, head)),
    {
        let mut i: usize = 0;
        while i < batch.len()
            invariant
                i <= batch@.len(),
                forall|k: int| 0 <= k < i ==> (#[trigger] batch@[k]).0 != head,
            decreases batch@.len() - i,
        {
            if batch[i].0 == head {
                return true;
            }
            i = i + 1;
        }
        let mut j: usize = 0;
        while j < inflight.len()
            invariant
                j <= inflight@.len(),
                forall|k: int| 0 <= k < batch@.len() ==> (#[trigger] batch@[k]).0 != head,
                forall|k: int| 0 <= k < j ==> (#[trigger] inflight@[k]).0 != head,
            decreases inflight@.len() - j,
        {
            if inflight[j].0 == head {
                return true;
            }
            j = j + 1;
        }
        false
    }

    /// Starts a submission run. The active count is bumped while submitting, so that a
    /// pause doesn't race and read a zero.
    pub fn begin_submit(&mut self) -> (phase: SubmitPhase)
        requires
            old(self)@.idle(),
        ensures
            final(self).spec_config() == old(self).spec_config(),
            final(self)@ == (QueueState {
                processed: 0,
                active: old(self)@.active + 1,
                ..old(self)@
            }),
            final(self)@.submitting(phase),
            phase is Entering,
    {
        proof {
            lemma_few_heads(self@.inflight);
        }
        self.active_request_count = self.active_request_count + 1;
        self.processed = 0;
        SubmitPhase::Entering
    }

    fn submit_finish(&mut self, result: Result<(), QueueError>) -> (phase: SubmitPhase)
        requires
            old(self)@.heads_ok(),
            old(self)@.active == old(self)@.inflight.len() + 1,
        ensures
            final(self).spec_config() == old(self).spec_config(),
            (final(self)@, phase) == submit_end(old(self)@, result),
            final(self)@.submitting(phase),
    {
        self.batch_inflight_requests = Vec::new();
        self.active_request_count = self.active_request_count - 1;
        assert(self@ =~= old(self)@.ended());
        SubmitPhase::Finished(result)
    }

    fn submit_continue(&self) -> (phase: SubmitPhase)
        requires
            self@.heads_ok(),
            self@.active == self@.inflight.len() + 1,
        ensures
            (self@, phase) == submit_loop(self.spec_config(), self@),
            self@.submitting(phase),
    {
        if self.processed >= self.config.queue_size {
            SubmitPhase::SubmittingBatch
        } else {
            SubmitPhase::Looping
        }
    }

    fn submit_fail_next(&mut self) -> (phase: SubmitPhase)
        requires
            old(self)@.heads_ok(),
            old(self)@.active == old(self)@.inflight.len() + 1,
        ensures
            final(self).spec_config() == old(self).spec_config(),
            (final(self)@, phase) == submit_fail_batch(old(self)@),
            final(self)@.submitting(phase),
    {
        if self.batch_inflight_requests.len() == 0 {
            return self.submit_finish(Ok(()));
        }
        let (head, request) = self.batch_inflight_requests.remove(0);
        let ghost before = old(self)@;
        assert(self@ =~= QueueState { batch: before.batch.drop_first(), ..before });
        proof {
            assert(before.batch[0].0 == head);
            assert forall|i: int| 0 <= i < self@.batch.len() implies (#[trigger] self@.batch[i]).0
                != head by {
                assert(self@.batch[i] == before.batch[i + 1]);
            }
            assert forall|i: int, j: int| 0 <= i < j < self@.batch.len() implies (
            #[trigger] self@.batch[i]).0 != (#[trigger] self@.batch[j]).0 by {
                assert(self@.batch[i] == before.batch[i + 1]);
                assert(self@.batch[j] == before.batch[j + 1]);
            }
            assert forall|i: int, j: int|
                0 <= i < self@.inflight.len() && 0 <= j < self@.batch.len() implies (
            #[trigger] self@.inflight[i]).0 != (#[trigger] self@.batch[j]).0 by {
                assert(self@.batch[j] == before.batch[j + 1]);
            }
        }
        SubmitPhase::WritingStatus(
            head,
            request.status_addr,
            VIRTIO_BLK_S_IOERR as u8,
            1,
            AfterReturn::NextOfBatch,
        )
    }

    fn submit_executed(
        &mut self,
        head: u16,
        request: Request,
        writeback: bool,
        outcome: ExecuteOutcome,
    ) -> (phase: SubmitPhase)
        requires
            old(self).serial_fits(),
            old(self)@.submitting(SubmitPhase::Executing(head, request)),
        ensures
            final(self).spec_config() == old(self).spec_config(),
            (final(self)@, phase) == submit_next(
                old(self).spec_config(),
                old(self)@,
                SubmitPhase::Executing(head, request),
                SubmitEvent::Executed(writeback, outcome),
            ),
            final(self)@.submitting(phase),
    {
        let mut request = request;
        request.writeback = writeback;
        let status: u32 = match outcome {
            ExecuteOutcome::Batched => {
                self.batch_inflight_requests.push((head, request));
                assert(self@ =~= QueueState {
                    batch: old(self)@.batch.push((head, request)),
                    ..old(self)@
                });
                return self.submit_continue();
            },
            ExecuteOutcome::Pending => {
                proof {
                    lemma_few_heads(self@.inflight);
                }
                self.inflight_requests.push_back((head, request));
                self.active_request_count = self.active_request_count + 1;
                assert(self@ =~= QueueState {
                    inflight: old(self)@.inflight.push((head, request)),
                    active: old(self)@.active + 1,
                    ..old(self)@
                });
                return self.submit_continue();
            },
            ExecuteOutcome::Completed => VIRTIO_BLK_S_OK,
            ExecuteOutcome::Failed(status) => status,
        };
        let len: u32 = if status == VIRTIO_BLK_S_OK && request.request_type
            == RequestType::GetDeviceId {
            self.config.serial_len as u32 + 1
        } else {
            1
        };
        // If no asynchronous operation has been submitted, we can simply return the
        // used descriptor.
        SubmitPhase::WritingStatus(
            head,
            request.status_addr,
            status as u8,
            len,
            AfterReturn::NextChain,
        )
    }

    fn submit_parsed(&mut self, head: u16, parsed: Result<Request, ()>) -> (phase: SubmitPhase)
        requires
            old(self)@.submitting(SubmitPhase::Parsing(head)),
        ensures
            final(self).spec_config() == old(self).spec_config(),
            (final(self)@, phase) == submit_next(
                old(self).spec_config(),
                old(self)@,
                SubmitPhase::Parsing(head),
                SubmitEvent::Parsed(parsed),
            ),
            final(self)@.submitting(phase),
    {
        match parsed {
            Err(_) => self.submit_finish(Err(QueueError::RequestParsing)),
            Ok(request) => match check_request(
                self.config.acked_features,
                &request,
                self.config.disable_sector0_writes,
            ) {
                Err(_) => SubmitPhase::WritingStatus(
                    head,
                    request.status_addr,
                    VIRTIO_BLK_S_IOERR as u8,
                    1,
                    AfterReturn::NextChain,
                ),
                Ok(()) => if self.config.rate_limited {
                    SubmitPhase::ConsumingOps(head, request)
                } else {
                    SubmitPhase::Executing(head, request)
                },
            },
        }
    }

    /// Takes the answer to the action of a phase into account.
    pub fn advance_submit(&mut self, phase: SubmitPhase, event: SubmitEvent) -> (next:
        SubmitPhase)
        requires
            old(self).serial_fits(),
            old(self)@.submitting(phase),
            submit_answers(phase, event),
        ensures
            final(self).spec_config() == old(self).spec_config(),
            (final(self)@, next) == submit_next(
                old(self).spec_config(),
                old(self)@,
                phase,
                event,
            ),
            final(self)@.submitting(next),
    {
        match (phase, event) {
            (SubmitPhase::Entering, SubmitEvent::Draining(draining)) => if draining
                || self.pending_block_queue_command.is_some() {
                self.submit_finish(Ok(()))
            } else {
                self.submit_continue()
            },
            (SubmitPhase::Looping, SubmitEvent::Draining(draining)) => if draining {
                SubmitPhase::SubmittingBatch
            } else {
                self.processed = self.processed + 1;
                SubmitPhase::Fetching
            },
            (SubmitPhase::Fetching, SubmitEvent::Chain(chain)) => match chain {
                Err(_) => self.submit_finish(Err(QueueError::QueueIterator)),
                Ok(None) => SubmitPhase::SubmittingBatch,
                Ok(Some(head)) => if Self::is_head_in_flight(
                    &self.inflight_requests,
                    &self.batch_inflight_requests,
                    head,
                ) {
                    self.submit_finish(Err(QueueError::QueueDuplicatedHeadIndex))
                } else {
                    SubmitPhase::Parsing(head)
                },
            },
            (SubmitPhase::Parsing(head), SubmitEvent::Parsed(parsed)) => self.submit_parsed(
                head,
                parsed,
            ),
            (
                SubmitPhase::ConsumingOps(head, request),
                SubmitEvent::Consumed(granted),
            ) => if !granted {
                SubmitPhase::Rewinding
            } else if request.request_type == RequestType::In || request.request_type
                == RequestType::Out {
                SubmitPhase::ConsumingBytes(head, request)
            } else {
                SubmitPhase::Executing(head, request)
            },
            (
                SubmitPhase::ConsumingBytes(head, request),
                SubmitEvent::Consumed(granted),
            ) => if granted {
                SubmitPhase::Executing(head, request)
            } else {
                SubmitPhase::Replenishing
            },
            (SubmitPhase::Replenishing, _) => SubmitPhase::Rewinding,
            (SubmitPhase::Rewinding, _) => SubmitPhase::SubmittingBatch,
            (
                SubmitPhase::Executing(head, request),
                SubmitEvent::Executed(writeback, outcome),
            ) => self.submit_executed(head, request, writeback, outcome),
            (
                SubmitPhase::WritingStatus(head, _, _, len, after),
                SubmitEvent::Done(ok),
            ) => if ok {
                SubmitPhase::AddingUsed(head, len, after)
            } else {
                self.submit_finish(Err(QueueError::RequestStatus))
            },
            (SubmitPhase::AddingUsed(_, _, after), SubmitEvent::Done(ok)) => if ok {
                SubmitPhase::EnablingNotification(after)
            } else {
                self.submit_finish(Err(QueueError::QueueAddUsed))
            },
            (SubmitPhase::EnablingNotification(after), SubmitEvent::Done(ok)) => if !ok {
                self.submit_finish(Err(QueueError::QueueEnableNotification))
            } else {
                match after {
                    AfterReturn::NextChain => self.submit_continue(),
                    AfterReturn::NextOfBatch => self.submit_fail_next(),
                }
            },
            (SubmitPhase::SubmittingBatch, SubmitEvent::Done(ok)) => if ok {
                self.submit_batch_accepted()
            } else {
                self.submit_fail_next()
            },
            (phase, _) => phase,
        }
    }

    fn submit_batch_accepted(&mut self) -> (phase: SubmitPhase)
        requires
            old(self)@.submitting(SubmitPhase::SubmittingBatch),
        ensures
            final(self).spec_config() == old(self).spec_config(),
            (final(self)@, phase) == submit_next(
                old(self).spec_config(),
                old(self)@,
                SubmitPhase::SubmittingBatch,
                SubmitEvent::Done(true),
            ),
            final(self)@.submitting(phase),
    {
        let ghost before = old(self)@;
        let batch_len: usize = self.batch_inflight_requests.len();
        proof {
            lemma_few_heads(before.inflight);
            lemma_few_heads(before.batch);
        }
        while self.batch_inflight_requests.len() > 0
            invariant
                self.config == old(self).config,
                self.processed == old(self).processed,
                self.active_request_count == old(self).active_request_count,
                self.pending_block_queue_command == old(self).pending_block_queue_command,
                before == old(self)@,
                self@.inflight + self@.batch == before.inflight + before.batch,
            decreases self@.batch.len(),
        {
            let ghost middle = self@;
            let entry = self.batch_inflight_requests.remove(0);
            self.inflight_requests.push_back(entry);
            assert(self@.inflight + self@.batch =~= middle.inflight + middle.batch);
        }
        assert(self@.inflight =~= before.inflight + before.batch);
        self.active_request_count = self.active_request_count + batch_len;
        let ghost accepted = QueueState {
            inflight: before.inflight + before.batch,
            active: before.active + before.batch.len(),
            ..before
        };
        proof {
            let all = before.inflight + before.batch;
            assert forall|i: int, j: int| 0 <= i < j < all.len() implies (#[trigger] all[i]).0 != (
            #[trigger] all[j]).0 by {
                if i < before.inflight.len() {
                    assert(all[i] == before.inflight[i]);
                } else {
                    assert(all[i] == before.batch[i - before.inflight.len()]);
                }
                if j < before.inflight.len() {
                    assert(all[j] == before.inflight[j]);
                } else {
                    assert(all[j] == before.batch[j - before.inflight.len()]);
                }
            }
        }
        let phase = self.submit_finish(Ok(()));
        assert(self@ =~= accepted.ended());
        phase
    }
}

/// A phase needs nothing but the virtqueue and guest memory.
pub open spec fn submit_on_queue(phase: SubmitPhase) -> bool {
    match phase {
        SubmitPhase::Fetching
        | SubmitPhase::Rewinding
        | SubmitPhase::WritingStatus(_, _, _, _, _)
        | SubmitPhase::AddingUsed(_, _, _)
        | SubmitPhase::EnablingNotification(_) => true,
        _ => false,
    }
}

/// `event` is a possible answer of the virtqueue and guest memory to what `phase` asks for,
/// given the regions of guest memory and the virtqueue.
pub open spec fn submit_queue_answers(
    regions: Map<u64, u64>,
    ring: VirtqueueView,
    phase: SubmitPhase,
    event: SubmitEvent,
) -> bool {
    submit_answers(phase, event) && match (phase, event) {
        // Guest memory can be written exactly where it is.
        (SubmitPhase::WritingStatus(_, addr, _, _, _), SubmitEvent::Done(ok)) => ok
            <==> in_regions(regions, addr, 1),
        // A chain is returned exactly if the ring can be written.
        (SubmitPhase::AddingUsed(head, _, _), SubmitEvent::Done(ok)) => ok <==> ring.used_fits(
            regions,
            head,
        ),
        (SubmitPhase::EnablingNotification(_), SubmitEvent::Done(ok)) => ok
            <==> ring.notification_fits(regions),
        (SubmitPhase::Rewinding, SubmitEvent::Done(ok)) => ok,
        (SubmitPhase::Fetching, SubmitEvent::Chain(chain)) => !ring.usable(regions) ==> chain
            is Err,
        _ => true,
    }
}

/// How the virtqueue moves from a phase to its answer: taking a chain moves it on, putting one
/// back moves it back, and returning one is counted.
pub open spec fn submit_moves(
    regions: Map<u64, u64>,
    before: VirtqueueView,
    after: VirtqueueView,
    phase: SubmitPhase,
    event: SubmitEvent,
) -> bool {
    match phase {
        SubmitPhase::Fetching => after == if event matches SubmitEvent::Chain(Ok(Some(_))) {
            before.taken()
        } else {
            before
        },
        SubmitPhase::Rewinding => before == after.taken(),
        SubmitPhase::AddingUsed(head, _, _) => after == before.returned(regions, head),
        _ => after == before,
    }
}

/// A step of a run: an answer, and the virtqueue after it.
pub struct SubmitStep {
    pub event: SubmitEvent,
    pub ring: VirtqueueView,
}

/// What follows a phase on a sequence of answers of the virtqueue and guest memory.
pub open spec fn submit_after(
    c: QueueConfig,
    q: QueueState,
    ring: VirtqueueView,
    phase: SubmitPhase,
    steps: Seq<SubmitStep>,
) -> (QueueState, VirtqueueView, SubmitPhase)
    decreases steps.len(),
{
    if steps.len() == 0 {
        (q, ring, phase)
    } else {
        let before = submit_after(c, q, ring, phase, steps.drop_last());
        let (after, next) = submit_next(c, before.0, before.2, steps.last().event);
        (after, steps.last().ring, next)
    }
}

/// The answers are possible ones of the virtqueue and guest memory to phases that need nothing
/// else, and the virtqueue moves as they say.
pub open spec fn submit_run(
    c: QueueConfig,
    q: QueueState,
    ring: VirtqueueView,
    phase: SubmitPhase,
    regions: Map<u64, u64>,
    steps: Seq<SubmitStep>,
) -> bool
    decreases steps.len(),
{
    steps.len() > 0 ==> {
        let before = submit_after(c, q, ring, phase, steps.drop_last());
        let step = steps.last();
        &&& submit_run(c, q, ring, phase, regions, steps.drop_last())
        &&& submit_on_queue(before.2)
        &&& submit_queue_answers(regions, before.1, before.2, step.event)
        &&& submit_moves(regions, before.1, step.ring, before.2, step.event)
    }
}

/// The number of chains that the answers have returned to the guest.
pub open spec fn submit_returned(
    c: QueueConfig,
    q: QueueState,
    ring: VirtqueueView,
    phase: SubmitPhase,
    steps: Seq<SubmitStep>,
) -> nat
    decreases steps.len(),
{
    if steps.len() == 0 {
        0
    } else {
        let before = submit_after(c, q, ring, phase, steps.drop_last()).2;
        let returned: nat = if before is AddingUsed && (steps.last().event matches SubmitEvent::Done(
            ok,
        ) && ok) {
            1
        } else {
            0
        };
        submit_returned(c, q, ring, phase, steps.drop_last()) + returned
    }
}

/// A run counts each chain that it returns, unless the ring of used chains cannot be written.
pub proof fn law_returned_chains_are_counted(
    c: QueueConfig,
    q: QueueState,
    ring: VirtqueueView,
    phase: SubmitPhase,
    regions: Map<u64, u64>,
    steps: Seq<SubmitStep>,
)
    requires
        submit_run(c, q, ring, phase, regions, steps),
    ensures
        ({
            let after = submit_after(c, q, ring, phase, steps);
            after.2 == SubmitPhase::Finished(Err(QueueError::QueueAddUsed)) || after.1.next_used
                == advanced(ring.next_used, submit_returned(c, q, ring, phase, steps))
        }),
    decreases steps.len(),
{
    if steps.len() > 0 {
        law_returned_chains_are_counted(c, q, ring, phase, regions, steps.drop_last());
    }
}

proof fn lemma_submit_step(
    c: QueueConfig,
    q: QueueState,
    ring: VirtqueueView,
    phase: SubmitPhase,
    regions: Map<u64, u64>,
    steps: Seq<SubmitStep>,
    k: int,
)
    requires
        submit_run(c, q, ring, phase, regions, steps),
        0 <= k < steps.len(),
    ensures
        ({
            let before = submit_after(c, q, ring, phase, steps.take(k));
            let after = submit_after(c, q, ring, phase, steps.take(k + 1));
            &&& submit_on_queue(before.2)
            &&& submit_queue_answers(regions, before.1, before.2, steps[k].event)
            &&& submit_moves(regions, before.1, after.1, before.2, steps[k].event)
            &&& (after.0, after.2) == submit_next(c, before.0, before.2, steps[k].event)
            &&& submit_returned(c, q, ring, phase, steps.take(k + 1)) == submit_returned(
                c,
                q,
                ring,
                phase,
                steps.take(k),
            ) + if before.2 is AddingUsed && steps[k].event == SubmitEvent::Done(true) {
                1nat
            } else {
                0
            }
        }),
    decreases steps.len(),
{
    if k == steps.len() - 1 {
        assert(steps.take(k) =~= steps.drop_last());
        assert(steps.take(k + 1) =~= steps);
    } else {
        lemma_submit_step(c, q, ring, phase, regions, steps.drop_last(), k);
        assert(steps.drop_last().take(k) =~= steps.take(k));
        assert(steps.drop_last().take(k + 1) =~= steps.take(k + 1));
    }
}

/// A request that has its status is returned to the guest, exactly once, and the run goes on:
/// all that it takes is that the status, the ring of used chains and the notification can be
/// written.
pub proof fn law_answered_request_is_returned(
    c: QueueConfig,
    q: QueueState,
    ring: VirtqueueView,
    phase: SubmitPhase,
    regions: Map<u64, u64>,
    steps: Seq<SubmitStep>,
)
    requires
        submit_run(c, q, ring, phase, regions, steps),
        !submit_on_queue(submit_after(c, q, ring, phase, steps).2),
        phase matches SubmitPhase::WritingStatus(head, addr, _, _, AfterReturn::NextChain)
            && in_regions(regions, addr, 1) && ring.used_fits(regions, head),
        ring.notification_fits(regions),
    ensures
        ({
            let after = submit_after(c, q, ring, phase, steps);
            &&& (after.0, after.2) == submit_loop(c, q)
            &&& submit_returned(c, q, ring, phase, steps) == 1
            &&& after.1 == VirtqueueView { next_used: next_position(ring.next_used), ..ring }
        }),
{
    assert(steps.take(0) =~= Seq::<SubmitStep>::empty());
    assert(steps.take(steps.len() as int) =~= steps);
    assert(steps.len() > 0);
    lemma_submit_step(c, q, ring, phase, regions, steps, 0);
    assert(steps.len() > 1);
    lemma_submit_step(c, q, ring, phase, regions, steps, 1);
    assert(steps.len() > 2);
    lemma_submit_step(c, q, ring, phase, regions, steps, 2);
    if steps.len() > 3 {
        lemma_submit_step(c, q, ring, phase, regions, steps, 3);
    }
}

/// The chain behind the request that a phase is about to run is there.
pub open spec fn submit_chain_fits(phase: SubmitPhase, chain: Option<Chain<'_>>) -> bool {
    match phase {
        SubmitPhase::Parsing(head)
        | SubmitPhase::ConsumingOps(head, _)
        | SubmitPhase::ConsumingBytes(head, _)
        | SubmitPhase::Executing(head, _) => has_chain(chain, head),
        _ => true,
    }
}

/// How far a phase is from one that needs something else.
spec fn submit_rank(phase: SubmitPhase) -> int {
    match phase {
        SubmitPhase::Fetching => 3,
        SubmitPhase::Rewinding => 3,
        SubmitPhase::WritingStatus(_, _, _, _, _) => 3,
        SubmitPhase::AddingUsed(_, _, _) => 2,
        SubmitPhase::EnablingNotification(_) => 1,
        _ => 0,
    }
}

impl SubmitPhase {
    /// Whether this phase needs nothing but the virtqueue and guest memory.
    pub fn is_on_queue(&self) -> (result: bool)
        ensures
            result == submit_on_queue(*self),
    {
        match self {
            SubmitPhase::Fetching
            | SubmitPhase::Rewinding
            | SubmitPhase::WritingStatus(_, _, _, _, _)
            | SubmitPhase::AddingUsed(_, _, _)
            | SubmitPhase::EnablingNotification(_) => true,
            _ => false,
        }
    }

    /// Performs the action of a phase on the virtqueue or guest memory.
    fn perform<'a>(
        &self,
        memory: &'a GuestMemoryMmap<AtomicBitmap>,
        queue: &mut Queue,
        chain: &mut Option<Chain<'a>>,
    ) -> (event: SubmitEvent)
        requires
            submit_on_queue(*self),
        ensures
            submit_queue_answers(guest_regions(*memory), virtqueue(*old(queue)), *self, event),
            submit_moves(
                guest_regions(*memory),
                virtqueue(*old(queue)),
                virtqueue(*final(queue)),
                *self,
                event,
            ),
            match event {
                SubmitEvent::Chain(Ok(Some(head))) => has_chain(*final(chain), head),
                _ => *final(chain) == *old(chain),
            },
    {
        match self.action() {
            SubmitAction::NextChain => SubmitEvent::Chain(
                match iter_next(queue, memory) {
                    Ok(Some((head, taken))) => {
                        *chain = Some(taken);
                        Ok(Some(head))
                    },
                    Ok(None) => Ok(None),
                    Err(_) => Err(()),
                },
            ),
            SubmitAction::GoToPreviousPosition => {
                go_to_previous_position(queue);
                SubmitEvent::Done(true)
            },
            SubmitAction::WriteStatus(addr, status) => SubmitEvent::Done(
                write_status(memory, addr, status),
            ),
            SubmitAction::AddUsed(head, len) => SubmitEvent::Done(
                add_used(queue, memory, head, len).is_ok(),
            ),
            _ => SubmitEvent::Done(enable_notification(queue, memory).is_ok()),
        }
    }
}

impl BlockEpollHandler {
    /// Goes on with a submission run as long as nothing but the virtqueue and guest memory is
    /// needed. `chain` gets the descriptor chain that is taken.
    pub fn process_queue_submit<'a>(
        &mut self,
        memory: &'a GuestMemoryMmap<AtomicBitmap>,
        queue: &mut Queue,
        chain: &mut Option<Chain<'a>>,
        phase: SubmitPhase,
    ) -> (next: SubmitPhase)
        requires
            old(self).serial_fits(),
            old(self)@.submitting(phase),
        ensures
            final(self).spec_config() == old(self).spec_config(),
            exists|steps: Seq<SubmitStep>|
                {
                    &&& #[trigger] submit_run(
                        old(self).spec_config(),
                        old(self)@,
                        virtqueue(*old(queue)),
                        phase,
                        guest_regions(*memory),
                        steps,
                    )
                    &&& (final(self)@, virtqueue(*final(queue)), next) == submit_after(
                        old(self).spec_config(),
                        old(self)@,
                        virtqueue(*old(queue)),
                        phase,
                        steps,
                    )
                    &&& next == SubmitPhase::Finished(Err(QueueError::QueueAddUsed))
                        || queue_next_used(*final(queue)) == advanced(
                        queue_next_used(*old(queue)),
                        submit_returned(
                            old(self).spec_config(),
                            old(self)@,
                            virtqueue(*old(queue)),
                            phase,
                            steps,
                        ),
                    )
                },
            submit_chain_fits(phase, *old(chain)) ==> submit_chain_fits(next, *final(chain)),
            !(phase is Fetching) ==> *final(chain) == *old(chain),
            !submit_on_queue(next),
            final(self)@.submitting(next),
    {
        let ghost regions = guest_regions(*memory);
        let ghost ring = virtqueue(*queue);
        let ghost config = self.spec_config();
        let ghost start = self@;
        let ghost first = phase;
        let ghost mut steps: Seq<SubmitStep> = Seq::empty();
        let mut phase: SubmitPhase = phase;
        while phase.is_on_queue()
            invariant
                self.serial_fits(),
                self.spec_config() == config,
                self@.submitting(phase),
                submit_run(config, start, ring, first, regions, steps),
                (self@, virtqueue(*queue), phase) == submit_after(config, start, ring, first, steps),
                steps.len() == 0 ==> phase == first,
                steps.len() > 0 && submit_on_queue(phase) ==> !(phase is Fetching
                    || phase is Rewinding),
                submit_chain_fits(first, *old(chain)) ==> submit_chain_fits(phase, *chain),
                !(first is Fetching) ==> *chain == *old(chain) && !(phase is Fetching),
                regions == guest_regions(*memory),
                ring == virtqueue(*old(queue)),
            decreases self@.batch.len(), submit_rank(phase),
        {
            let ghost before = steps;
            let event: SubmitEvent = phase.perform(memory, queue, chain);
            proof {
                steps = before.push(SubmitStep { event, ring: virtqueue(*queue) });
                assert(steps.drop_last() =~= before);
            }
            phase = self.advance_submit(phase, event);
        }
        proof {
            law_returned_chains_are_counted(config, start, ring, first, regions, steps);
        }
        phase
    }
}

/// The requests without the one at position `i`, whose place the first one takes.
pub open spec fn swap_removed(requests: Seq<(u16, Request)>, i: int) -> Seq<(u16, Request)> {
    requests.update(i, requests[0]).drop_first()
}

/// The position of the request with this head index.
pub open spec fn position(requests: Seq<(u16, Request)>, head: u16) -> int {
    choose|i: int| 0 <= i < requests.len() && (#[trigger] requests[i]).0 == head
}

impl QueueState {
    /// The state while a request that has completed is returned to the guest.
    pub open spec fn completing(self) -> bool {
        &&& heads_distinct(self.inflight)
        &&& self.batch.len() == 0
        &&& self.active == self.inflight.len() + 1
    }
}

impl BlockEpollHandler {
    /// Takes the request with this head index out of the requests in flight.
    ///
    /// This neatly handles the fast path where the completions are in order (it turns
    /// into just a pop from the front) and the rare case of slight out of ordering. In
    /// that case the item is swapped with the front one, which is likely to be the
    /// next to complete and stays close to the front.
    pub fn find_inflight_request(&mut self, completed_head: u16) -> (result: Result<
        Request,
        QueueError,
    >)
        requires
            old(self)@.idle(),
        ensures
            final(self).spec_config() == old(self).spec_config(),
            match result {
                Ok(request) => {
                    let i = position(old(self)@.inflight, completed_head);
                    &&& has_head(old(self)@.inflight, completed_head)
                    &&& request == old(self)@.inflight[i].1
                    &&& final(self)@ == QueueState {
                        inflight: swap_removed(old(self)@.inflight, i),
                        ..old(self)@
                    }
                    &&& final(self)@.completing()
                    &&& !has_head(final(self)@.inflight, completed_head)
                },
                Err(e) => {
                    &&& !has_head(old(self)@.inflight, completed_head)
                    &&& e == QueueError::MissingEntryRequestList
                    &&& final(self)@ == old(self)@
                },
            },
    {
        let ghost before = self@.inflight;
        let mut i: usize = 0;
        while i < self.inflight_requests.len()
            invariant
                *self == *old(self),
                before == self@.inflight,
                heads_distinct(before),
                self@.idle(),
                i <= before.len(),
                forall|k: int| 0 <= k < i ==> (#[trigger] before[k]).0 != completed_head,
            decreases before.len() - i,
        {
            if self.inflight_requests[i].0 == completed_head {
                assert(before[i as int].0 == completed_head);
                assert(position(before, completed_head) == i);
                let first = self.inflight_requests.pop_front();
                let removed: Option<(u16, Request)> = if i == 0 {
                    first
                } else {
                    let removed = self.inflight_requests.remove(i - 1);
                    if let Some(first) = first {
                        self.inflight_requests.insert(i - 1, first);
                    }
                    removed
                };
                assert(self@.inflight =~= swap_removed(before, i as int));
                assert(self@ =~= QueueState {
                    inflight: swap_removed(before, i as int),
                    ..old(self)@
                });
                proof {
                    let after = self@.inflight;
                    assert forall|k: int| 0 <= k < after.len() implies #[trigger] after[k] == (if k
                        + 1 == i {
                        before[0]
                    } else {
                        before[k + 1]
                    }) by {}
                    assert forall|k: int, l: int| 0 <= k < l < after.len() implies (
                    #[trigger] after[k]).0 != (#[trigger] after[l]).0 by {}
                }
                if let Some((_, request)) = removed {
                    return Ok(request);
                }
            } else {
                i = i + 1;
            }
        }
        Err(QueueError::MissingEntryRequestList)
    }

    /// Whether no request is in flight.
    pub fn is_drained(&self) -> (drained: bool)
        ensures
            drained == (self@.inflight.len() == 0),
    {
        self.inflight_requests.len() == 0
    }

    /// Sets the command that waits for the requests in flight, and returns the one that
    /// it replaces.
    pub fn set_pending_command(&mut self, kind: BlockQueueCommandKind) -> (stale: Option<
        BlockQueueCommandKind,
    >)
        ensures
            final(self).spec_config() == old(self).spec_config(),
            final(self)@ == (QueueState { pending: Some(kind), ..old(self)@ }),
            stale == old(self)@.pending,
    {
        let stale = self.pending_block_queue_command;
        self.pending_block_queue_command = Some(kind);
        stale
    }

    /// Takes the command that waits for the requests in flight.
    pub fn take_pending_command(&mut self) -> (pending: Option<BlockQueueCommandKind>)
        ensures
            final(self).spec_config() == old(self).spec_config(),
            final(self)@ == (QueueState { pending: None, ..old(self)@ }),
            pending == old(self)@.pending,
    {
        let pending = self.pending_block_queue_command;
        self.pending_block_queue_command = None;
        pending
    }

    /// Gives back the active count of a request that has been returned to the guest.
    pub fn release_active(&mut self)
        requires
            old(self)@.completing(),
        ensures
            final(self).spec_config() == old(self).spec_config(),
            final(self)@ == (QueueState { active: old(self)@.active - 1, ..old(self)@ }),
            final(self)@.idle(),
    {
        self.active_request_count = self.active_request_count - 1;
    }
}

/// A submission run that has come to `phase` holds the chain with this head index: it
/// is in flight, in the batch, or being worked on.
pub open spec fn holds(q: QueueState, phase: SubmitPhase, head: u16) -> bool {
    has_head(q.inflight, head) || has_head(q.batch, head) || submit_current(phase) == Some(head)
}

/// The head index of the chain that a step takes from the queue.
pub open spec fn chain_taken(phase: SubmitPhase, event: SubmitEvent) -> Option<u16> {
    match (phase, event) {
        (SubmitPhase::Fetching, SubmitEvent::Chain(Ok(head))) => head,
        _ => None,
    }
}

/// The head index of the chain that a step gives up: it has been added to the used
/// ring, or the rate limiter has no budget for it and it is put back.
pub open spec fn chain_released(phase: SubmitPhase, event: SubmitEvent) -> Option<u16> {
    match (phase, event) {
        (SubmitPhase::AddingUsed(head, _, _), SubmitEvent::Done(true)) => Some(head),
        (SubmitPhase::ConsumingOps(head, _), SubmitEvent::Consumed(false)) => Some(head),
        (SubmitPhase::ConsumingBytes(head, _), SubmitEvent::Consumed(false)) => Some(head),
        _ => None,
    }
}

proof fn lemma_has_head_push(requests: Seq<(u16, Request)>, head: u16, request: Request, h: u16)
    ensures
        has_head(requests.push((head, request)), h) == (h == head || has_head(requests, h)),
{
    let pushed = requests.push((head, request));
    assert(pushed[requests.len() as int].0 == head);
    if has_head(requests, h) {
        let i = choose|i: int| 0 <= i < requests.len() && (#[trigger] requests[i]).0 == h;
        assert(pushed[i].0 == h);
    }
    if has_head(pushed, h) && h != head {
        let i = choose|i: int| 0 <= i < pushed.len() && (#[trigger] pushed[i]).0 == h;
        assert(requests[i].0 == h);
    }
}

proof fn lemma_has_head_concat(a: Seq<(u16, Request)>, b: Seq<(u16, Request)>, h: u16)
    ensures
        has_head(a + b, h) == (has_head(a, h) || has_head(b, h)),
{
    let all = a + b;
    if has_head(a, h) {
        let i = choose|i: int| 0 <= i < a.len() && (#[trigger] a[i]).0 == h;
        assert(all[i].0 == h);
    }
    if has_head(b, h) {
        let i = choose|i: int| 0 <= i < b.len() && (#[trigger] b[i]).0 == h;
        assert(all[a.len() + i].0 == h);
    }
    if has_head(all, h) {
        let i = choose|i: int| 0 <= i < all.len() && (#[trigger] all[i]).0 == h;
        if i < a.len() {
            assert(a[i].0 == h);
        } else {
            assert(b[i - a.len()].0 == h);
        }
    }
}

proof fn lemma_has_head_first(requests: Seq<(u16, Request)>, h: u16)
    requires
        requests.len() > 0,
    ensures
        has_head(requests, h) == (h == requests[0].0 || has_head(requests.drop_first(), h)),
{
    assert(requests =~= seq![requests[0]] + requests.drop_first());
    lemma_has_head_concat(seq![requests[0]], requests.drop_first(), h);
    assert(seq![requests[0]][0] == requests[0]);
}

/// No chain gets lost or is returned twice: unless a step ends the run with an error, the
/// chains that the run holds after it are those before it, with the one that it
/// takes from the queue and without the one that it gives up.
pub proof fn law_chains_are_accounted_for(
    c: QueueConfig,
    q: QueueState,
    phase: SubmitPhase,
    event: SubmitEvent,
    head: u16,
)
    requires
        q.submitting(phase),
        submit_answers(phase, event),
        !(submit_next(c, q, phase, event).1 matches SubmitPhase::Finished(Err(_))),
    ensures
        ({
            let (after, next) = submit_next(c, q, phase, event);
            holds(after, next, head) == (chain_taken(phase, event) == Some(head) || holds(
                q,
                phase,
                head,
            ) && chain_released(phase, event) != Some(head))
        }),
{
    match (phase, event) {
        (SubmitPhase::Executing(current, request), SubmitEvent::Executed(writeback, _)) => {
            lemma_has_head_push(q.inflight, current, request.with_writeback(writeback), head);
            lemma_has_head_push(q.batch, current, request.with_writeback(writeback), head);
        },
        (SubmitPhase::SubmittingBatch, _) => {
            lemma_has_head_concat(q.inflight, q.batch, head);
            if q.batch.len() > 0 {
                lemma_has_head_first(q.batch, head);
            }
        },
        (SubmitPhase::EnablingNotification(AfterReturn::NextOfBatch), _) => {
            if q.batch.len() > 0 {
                lemma_has_head_first(q.batch, head);
            }
        },
        _ => {},
    }
}

/// Submitting never removes a request that is already in flight.
pub proof fn law_submit_keeps_requests_in_flight(
    c: QueueConfig,
    q: QueueState,
    phase: SubmitPhase,
    event: SubmitEvent,
)
    ensures
        q.inflight.is_prefix_of(submit_next(c, q, phase, event).0.inflight),
{
}

/// The phase holds no request that the device must not run.
pub open spec fn permitted(c: QueueConfig, phase: SubmitPhase) -> bool {
    match phase {
        SubmitPhase::ConsumingOps(_, request)
        | SubmitPhase::ConsumingBytes(_, request)
        | SubmitPhase::Executing(_, request) => !read_only_violation(
            c.acked_features,
            request.request_type,
        ) && !sector0_violation(request, c.disable_sector0_writes),
        _ => true,
    }
}

/// Only requests that the device may run are ever handed to the disk.
pub proof fn law_only_permitted_requests_run(
    c: QueueConfig,
    q: QueueState,
    phase: SubmitPhase,
    event: SubmitEvent,
)
    requires
        permitted(c, phase),
    ensures
        permitted(c, submit_next(c, q, phase, event).1),
{
}

/// A request that the device must not run is answered with the I/O error status alone: it is
/// not handed to the disk, and the chain is returned with the status byte as its only length.
pub proof fn law_refused_request_is_answered(
    c: QueueConfig,
    q: QueueState,
    head: u16,
    request: Request,
)
    requires
        read_only_violation(c.acked_features, request.request_type) || sector0_violation(
            request,
            c.disable_sector0_writes,
        ),
    ensures
        ({
            let (after, next) = submit_next(
                c,
                q,
                SubmitPhase::Parsing(head),
                SubmitEvent::Parsed(Ok(request)),
            );
            let status = VIRTIO_BLK_S_IOERR as u8;
            &&& after == q
            &&& submit_action(next) == SubmitAction::WriteStatus(request.status_addr, status)
            &&& ({
                let (returned, then_next) = submit_next(c, q, next, SubmitEvent::Done(true));
                returned == q && submit_action(then_next) == SubmitAction::AddUsed(head, 1)
            })
        }),
{
}

/// A request that the disk has taken care of at once is answered at once: the guest gets the
/// status of the disk, and the chain is returned with the length of what was written into it.
/// That is the status byte, and before it the serial number where the guest has asked for that and
/// the disk has succeeded.
pub proof fn law_executed_request_is_answered(
    c: QueueConfig,
    q: QueueState,
    head: u16,
    request: Request,
    writeback: bool,
    outcome: ExecuteOutcome,
    status: u32,
)
    requires
        outcome is Completed && status == 0 || outcome == ExecuteOutcome::Failed(status),
        c.serial_len < u32::MAX,
    ensures
        ({
            let (after, next) = submit_next(
                c,
                q,
                SubmitPhase::Executing(head, request),
                SubmitEvent::Executed(writeback, outcome),
            );
            let (returned, then_next) = submit_next(c, after, next, SubmitEvent::Done(true));
            let (notified, then_last) = submit_next(c, returned, then_next, SubmitEvent::Done(true));
            &&& after == q && returned == q && notified == q
            &&& submit_action(next) == SubmitAction::WriteStatus(request.status_addr, status as u8)
            &&& submit_action(then_next) == SubmitAction::AddUsed(
                head,
                if request.request_type is GetDeviceId && status == 0 {
                    (c.serial_len + 1) as u32
                } else {
                    1
                },
            )
            &&& submit_action(then_last) == SubmitAction::EnableNotification
        }),
{
}

/// A request that the disk works on is kept as it was read, with the cache mode of its submission,
/// until the disk has completed it: behind those that are in flight, or behind those that wait to
/// be handed over together.
pub proof fn law_running_request_is_kept(
    c: QueueConfig,
    q: QueueState,
    head: u16,
    request: Request,
    writeback: bool,
)
    ensures
        ({
            let phase = SubmitPhase::Executing(head, request);
            let kept = Request {
                request_type: request.request_type,
                sector: request.sector,
                data_descriptors: request.data_descriptors,
                status_addr: request.status_addr,
                writeback,
            };
            let (pending, next) = submit_next(
                c,
                q,
                phase,
                SubmitEvent::Executed(writeback, ExecuteOutcome::Pending),
            );
            let (batched, then_next) = submit_next(
                c,
                q,
                phase,
                SubmitEvent::Executed(writeback, ExecuteOutcome::Batched),
            );
            &&& pending.inflight == q.inflight.push((head, kept)) && pending.batch == q.batch
            &&& pending.active == q.active + 1
            &&& batched.batch == q.batch.push((head, kept)) && batched.inflight == q.inflight
            &&& batched.active == q.active
            &&& next is Looping || next is SubmittingBatch
            &&& then_next == next
        }),
{
}

/// A batch that the disk takes is in flight, behind what was in flight before. Each request of one
/// that it does not take is answered with the I/O error status, in their order.
pub proof fn law_batch_is_submitted_or_answered(
    c: QueueConfig,
    q: QueueState,
    phase: SubmitPhase,
)
    requires
        phase is SubmittingBatch || phase == SubmitPhase::EnablingNotification(
            AfterReturn::NextOfBatch,
        ),
    ensures
        phase is SubmittingBatch ==> ({
            let (after, next) = submit_next(c, q, phase, SubmitEvent::Done(true));
            &&& next == SubmitPhase::Finished(Ok(()))
            &&& after.inflight == q.inflight + q.batch
            &&& after.batch.len() == 0
            &&& after.active == q.active - 1 + q.batch.len()
        }),
        ({
            let failed = if phase is SubmittingBatch {
                SubmitEvent::Done(false)
            } else {
                SubmitEvent::Done(true)
            };
            let (after, next) = submit_next(c, q, phase, failed);
            let (returned, then_next) = submit_next(c, after, next, SubmitEvent::Done(true));
            let (_, then_last) = submit_next(c, returned, then_next, SubmitEvent::Done(true));
            &&& q.batch.len() == 0 ==> next == SubmitPhase::Finished(Ok(())) && after.inflight
                == q.inflight
            &&& q.batch.len() > 0 ==> {
                &&& after.batch == q.batch.drop_first() && after.inflight == q.inflight
                &&& returned == after
                &&& submit_action(next) == SubmitAction::WriteStatus(
                    q.batch[0].1.status_addr,
                    VIRTIO_BLK_S_IOERR as u8,
                )
                &&& submit_action(then_next) == SubmitAction::AddUsed(q.batch[0].0, 1)
                &&& then_last == SubmitPhase::EnablingNotification(AfterReturn::NextOfBatch)
            }
        }),
{
}

/// A rate limiter is asked before a request is handed to the disk: for one operation, and for the
/// bytes of a request that moves data. Where it has no budget, the operation is given back if it
/// was taken, the chain is put back into the queue, and the run ends by submitting the batch.
pub proof fn law_rate_limiter_is_asked(
    c: QueueConfig,
    q: QueueState,
    phase: SubmitPhase,
    event: SubmitEvent,
)
    requires
        submit_answers(phase, event),
    ensures
        ({
            let (after, next) = submit_next(c, q, phase, event);
            &&& next is Executing ==> if c.rate_limited {
                ||| phase is ConsumingBytes && event == SubmitEvent::Consumed(true)
                ||| phase is ConsumingOps && event == SubmitEvent::Consumed(true)
                    && !(next->Executing_1.request_type is In
                    || next->Executing_1.request_type is Out)
            } else {
                phase is Parsing || event is Consumed
            }
            &&& phase is ConsumingOps && event == SubmitEvent::Consumed(false) ==> submit_action(next)
                == SubmitAction::GoToPreviousPosition
            &&& phase is ConsumingBytes && event == SubmitEvent::Consumed(false) ==> submit_action(
                next,
            ) == SubmitAction::ReplenishOps
            &&& phase is Replenishing ==> submit_action(next) == SubmitAction::GoToPreviousPosition
            &&& phase is Rewinding ==> submit_action(next) == SubmitAction::SubmitBatch
            &&& phase is ConsumingOps || phase is ConsumingBytes || phase is Replenishing || phase
                is Rewinding ==> after == q
        }),
{
}

/// What a rate limiter is asked for is one operation, or the bytes of all data buffers.
pub proof fn law_rate_limiter_counts_all_buffers(head: u16, request: Request)
    ensures
        submit_action(SubmitPhase::ConsumingOps(head, request)) == SubmitAction::ConsumeOps,
        crate::block_request::total_len(request.data_descriptors@) <= u64::MAX ==> (submit_action(
            SubmitPhase::ConsumingBytes(head, request),
        ) matches SubmitAction::ConsumeBytes(bytes) && bytes == crate::block_request::total_len(
            request.data_descriptors@,
        )),
{
    crate::block_request::law_buffer_lengths_add_up(
        request.data_descriptors@,
        Seq::empty(),
        (0, 0),
    );
}

/// While the device drains its requests or a command waits for them, no chain is taken from the
/// queue. A run that is asked to drain hands over what it has taken, and ends.
pub proof fn law_draining_stops_submission(c: QueueConfig, q: QueueState, draining: bool)
    ensures
        ({
            let (after, next) = submit_next(
                c,
                q,
                SubmitPhase::Entering,
                SubmitEvent::Draining(draining),
            );
            &&& draining || q.pending is Some ==> next == SubmitPhase::Finished(Ok(()))
                && after.inflight == q.inflight && after.active == q.active - 1
            &&& !draining && q.pending is None ==> after == q && !(next is Finished)
        }),
        ({
            let (after, next) = submit_next(
                c,
                q,
                SubmitPhase::Looping,
                SubmitEvent::Draining(draining),
            );
            &&& draining <==> next is SubmittingBatch
            &&& !draining <==> next is Fetching
            &&& draining ==> after == q
        }),
{
}

/// A chain whose head index is still in use ends the run with an error; any other chain is parsed.
pub proof fn law_reused_head_is_refused(c: QueueConfig, q: QueueState, head: u16)
    ensures
        ({
            let (after, next) = submit_next(
                c,
                q,
                SubmitPhase::Fetching,
                SubmitEvent::Chain(Ok(Some(head))),
            );
            let used = exists|i: int| 0 <= i < q.inflight.len() && (#[trigger] q.inflight[i]).0
                == head;
            let waits = exists|i: int| 0 <= i < q.batch.len() && (#[trigger] q.batch[i]).0 == head;
            &&& used || waits ==> next == SubmitPhase::Finished(
                Err(QueueError::QueueDuplicatedHeadIndex),
            ) && after.inflight == q.inflight
            &&& !used && !waits ==> next == SubmitPhase::Parsing(head) && after == q
        }),
{
}

/// A run fails for the reason of the step that failed, and keeps what is in flight.
pub proof fn law_failed_step_ends_run(
    c: QueueConfig,
    q: QueueState,
    phase: SubmitPhase,
    event: SubmitEvent,
    error: QueueError,
)
    requires
        submit_answers(phase, event),
    ensures
        submit_next(c, q, phase, event).1 == SubmitPhase::Finished(Err(error)) ==> submit_next(
            c,
            q,
            phase,
            event,
        ).0.inflight == q.inflight,
        submit_next(c, q, phase, event).1 == SubmitPhase::Finished(Err(error)) <==> match error {
            QueueError::QueueIterator => phase is Fetching && (event matches SubmitEvent::Chain(
                Err(_),
            )),
            QueueError::QueueDuplicatedHeadIndex => phase is Fetching && (event matches
                SubmitEvent::Chain(Ok(Some(head))) && (has_head(q.inflight, head) || has_head(
                q.batch,
                head,
            ))),
            QueueError::RequestParsing => phase is Parsing && (event matches SubmitEvent::Parsed(
                Err(_),
            )),
            QueueError::RequestStatus => phase is WritingStatus && event == SubmitEvent::Done(false),
            QueueError::QueueAddUsed => phase is AddingUsed && event == SubmitEvent::Done(false),
            QueueError::QueueEnableNotification => phase is EnablingNotification && event
                == SubmitEvent::Done(false),
            _ => false,
        },
{
}

/// One run takes no more chains from the queue than the queue is large.
pub proof fn law_run_is_bounded(
    c: QueueConfig,
    q: QueueState,
    phase: SubmitPhase,
    event: SubmitEvent,
)
    requires
        q.processed <= c.queue_size,
        phase is Looping ==> q.processed < c.queue_size,
    ensures
        ({
            let (after, next) = submit_next(c, q, phase, event);
            &&& after.processed <= c.queue_size
            &&& next is Looping ==> after.processed < c.queue_size
            &&& next is Fetching ==> after.processed > q.processed || phase is Fetching
        }),
{
}

} // verus!
