//! The events of a virtqueue worker of a block device: new descriptors, finished
//! requests, the rate limiter, and commands that replace the disk backend.

use virtio_queue::Queue;
use vm_memory::bitmap::AtomicBitmap;
use vm_memory::GuestMemoryMmap;
use vstd::prelude::*;

use crate::block::BlockError;
use crate::block_mirror::MirrorError;
use crate::block_queue::{BlockEpollHandler, BlockQueueCommandKind, QueueError, QueueState};
use crate::guest_memory::{guest_regions, word_accessible};
use crate::virtqueue::{needs_notification, queue_avail_ring, queue_event_idx, queue_size,
    stays_in_place};

verus! {

/// An event that wakes a virtqueue worker.
#[derive(Clone, Copy, Debug, PartialEq, Eq, Structural)]
pub enum WorkerEvent {
    /// New descriptors are pending on the virtio queue.
    QueueAvail,
    /// New completed tasks are pending on the completion ring.
    Completion,
    /// New 'wake up' event from the rate limiter.
    RateLimiter,
    /// A command has been queued for this worker to apply (e.g. swap the disk image).
    BlockCommand,
    /// An event with another number.
    Other(u16),
}

/// The event behind the data of an epoll event. The events of a worker are numbered
/// from the last event of the epoll helper on; only the low 16 bits of the data count.
pub fn worker_event(data: u64, helper_event_last: u16) -> (event: WorkerEvent)
    requires
        helper_event_last <= u16::MAX - 4,
    ensures
        ({
            let n = data as u16;
            event == if n == helper_event_last + 1 {
                WorkerEvent::QueueAvail
            } else if n == helper_event_last + 2 {
                WorkerEvent::Completion
            } else if n == helper_event_last + 3 {
                WorkerEvent::RateLimiter
            } else if n == helper_event_last + 4 {
                WorkerEvent::BlockCommand
            } else {
                WorkerEvent::Other(n)
            }
        }),
{
    let n: u16 = data as u16;
    if n == helper_event_last + 1 {
        WorkerEvent::QueueAvail
    } else if n == helper_event_last + 2 {
        WorkerEvent::Completion
    } else if n == helper_event_last + 3 {
        WorkerEvent::RateLimiter
    } else if n == helper_event_last + 4 {
        WorkerEvent::BlockCommand
    } else {
        WorkerEvent::Other(n)
    }
}

/// Why a worker stops.
#[derive(Clone, Copy, Debug, PartialEq, Eq, Structural)]
pub enum WorkerError {
    /// Failed to get the queue event.
    QueueEvent,
    /// Failed to check whether a notification is needed.
    NeedsNotification,
    /// Failed to signal the used queue.
    SignalUsedQueue,
    /// The virtqueue is corrupted or the guest driver is misbehaving.
    ProcessQueue(QueueError),
    /// Failed to process the rate limiter event.
    RateLimiterEvent,
    /// A rate limiter event came though there is no rate limiter.
    UnexpectedRateLimiterEvent,
    /// Failed to read the block command event.
    BlockCommandEvent,
    /// An event came that no worker knows.
    UnexpectedEvent(u16),
}

/// What follows once the queue has been processed and the guest was signalled.
#[derive(Clone, Copy, Debug, PartialEq, Eq, Structural)]
pub enum AfterSignal {
    /// The event has been handled.
    End,
    /// The queue is processed, then a pending command is applied.
    SubmitAndApply,
    /// A pending command is applied.
    Apply,
}

/// How far the handling of an event has come.
#[derive(Debug)]
pub enum WorkerPhase {
    /// Reading the event of new descriptors.
    ReadingQueueEvent,
    /// Reading the event of finished requests.
    ReadingCompletionEvent,
    /// Running a completion run.
    RunningCompletion,
    /// Asking whether the rate limiter is blocked.
    CheckingLimit(AfterSignal),
    /// Running a submission run.
    RunningSubmission(AfterSignal),
    /// Asking whether the guest needs a notification.
    CheckingNotification(AfterSignal),
    /// Signalling the guest.
    Signalling(AfterSignal),
    /// Calling the handler of the rate limiter.
    HandlingRateLimiter,
    /// Reading the event of a command.
    ReadingCommandEvent,
    /// Taking the command out of its slot.
    TakingCommand,
    /// Registering the notifier of the new backend.
    Registering(BlockQueueCommandKind),
    /// Deregistering the notifier of the old backend.
    Deregistering(BlockQueueCommandKind),
    /// Deregistering the notifier of the new backend again, because of this error.
    RollingBack(BlockQueueCommandKind, BlockError),
    /// Replacing the backend.
    Swapping(BlockQueueCommandKind),
    /// Acknowledging the command.
    Acking(BlockQueueCommandKind, Result<(), MirrorError>),
    /// The event has been handled.
    Finished(Result<(), WorkerError>),
}

/// The answer to what a phase asks for.
#[derive(Debug)]
pub enum WorkerAnswer {
    /// Whether the action succeeded.
    Done(bool),
    /// How an action on a notifier ended.
    Tried(Result<(), BlockError>),
    /// The rate limiter is blocked, or the guest needs a notification; or the failure to
    /// find out.
    Flag(Result<bool, ()>),
    /// The result of a submission or completion run.
    Ran(Result<(), QueueError>),
    /// The command that was in the slot.
    Command(Option<BlockQueueCommandKind>),
}

/// `answer` is an answer to what `phase` asks for.
pub open spec fn worker_answers(phase: WorkerPhase, answer: WorkerAnswer) -> bool {
    match phase {
        WorkerPhase::RunningCompletion | WorkerPhase::RunningSubmission(_) => answer is Ran,
        WorkerPhase::CheckingLimit(_) => answer matches WorkerAnswer::Flag(Ok(_)),
        WorkerPhase::CheckingNotification(_) => answer is Flag,
        WorkerPhase::TakingCommand => answer is Command,
        WorkerPhase::Registering(_)
        | WorkerPhase::Deregistering(_)
        | WorkerPhase::RollingBack(_, _) => answer is Tried,
        WorkerPhase::Finished(_) => false,
        _ => answer is Done,
    }
}

/// The phase in which the handling of an event starts.
pub open spec fn worker_start(
    q: QueueState,
    event: WorkerEvent,
    rate_limited: bool,
    has_receiver: bool,
) -> (QueueState, WorkerPhase) {
    match event {
        WorkerEvent::QueueAvail => (q, WorkerPhase::ReadingQueueEvent),
        WorkerEvent::Completion => (q, WorkerPhase::ReadingCompletionEvent),
        WorkerEvent::RateLimiter => if rate_limited {
            (q, WorkerPhase::HandlingRateLimiter)
        } else {
            (q, WorkerPhase::Finished(Err(WorkerError::UnexpectedRateLimiterEvent)))
        },
        WorkerEvent::BlockCommand => if has_receiver {
            (q, WorkerPhase::ReadingCommandEvent)
        } else {
            apply_pending(q)
        },
        WorkerEvent::Other(n) => (q, WorkerPhase::Finished(Err(WorkerError::UnexpectedEvent(n)))),
    }
}

/// A pending command is applied if there is one and no request is in flight.
pub open spec fn apply_pending(q: QueueState) -> (QueueState, WorkerPhase) {
    match q.pending {
        Some(kind) if q.inflight.len() == 0 => (
            QueueState { pending: None, ..q },
            WorkerPhase::Registering(kind),
        ),
        _ => (q, WorkerPhase::Finished(Ok(()))),
    }
}

/// What follows once the guest was signalled.
pub open spec fn after_signal(q: QueueState, after: AfterSignal) -> (QueueState, WorkerPhase) {
    match after {
        AfterSignal::End => (q, WorkerPhase::Finished(Ok(()))),
        AfterSignal::SubmitAndApply => (q, WorkerPhase::CheckingLimit(AfterSignal::Apply)),
        AfterSignal::Apply => apply_pending(q),
    }
}

/// The worker stops because of these errors of a submission run; others concern a
/// single request.
pub open spec fn fatal_to_device(error: QueueError) -> bool {
    error == QueueError::QueueIterator || error == QueueError::QueueDuplicatedHeadIndex
}

/// The state and the phase that follow a phase on an answer.
pub open spec fn worker_next(q: QueueState, phase: WorkerPhase, answer: WorkerAnswer) -> (
    QueueState,
    WorkerPhase,
) {
    match (phase, answer) {
        (WorkerPhase::ReadingQueueEvent, WorkerAnswer::Done(ok)) => if ok {
            (q, WorkerPhase::CheckingLimit(AfterSignal::End))
        } else {
            (q, WorkerPhase::Finished(Err(WorkerError::QueueEvent)))
        },
        (WorkerPhase::ReadingCompletionEvent, WorkerAnswer::Done(ok)) => if ok {
            (q, WorkerPhase::RunningCompletion)
        } else {
            (q, WorkerPhase::Finished(Err(WorkerError::QueueEvent)))
        },
        // The result of a completion run is only logged.
        (WorkerPhase::RunningCompletion, _) => (
            q,
            WorkerPhase::CheckingNotification(AfterSignal::SubmitAndApply),
        ),
        // The queue is processed only when the rate limit is not reached.
        (WorkerPhase::CheckingLimit(after), WorkerAnswer::Flag(Ok(blocked))) => if blocked {
            after_signal(q, after)
        } else {
            (q, WorkerPhase::RunningSubmission(after))
        },
        (WorkerPhase::RunningSubmission(after), WorkerAnswer::Ran(result)) => match result {
            Err(error) if fatal_to_device(error) => (
                q,
                WorkerPhase::Finished(Err(WorkerError::ProcessQueue(error))),
            ),
            _ => (q, WorkerPhase::CheckingNotification(after)),
        },
        (WorkerPhase::CheckingNotification(after), WorkerAnswer::Flag(needed)) => match needed {
            Err(_) => (q, WorkerPhase::Finished(Err(WorkerError::NeedsNotification))),
            Ok(true) => (q, WorkerPhase::Signalling(after)),
            Ok(false) => after_signal(q, after),
        },
        (WorkerPhase::Signalling(after), WorkerAnswer::Done(ok)) => if ok {
            after_signal(q, after)
        } else {
            (q, WorkerPhase::Finished(Err(WorkerError::SignalUsedQueue)))
        },
        // Upon a rate limiter event, the processing of the queue is restarted.
        (WorkerPhase::HandlingRateLimiter, WorkerAnswer::Done(ok)) => if ok {
            (q, WorkerPhase::RunningSubmission(AfterSignal::End))
        } else {
            (q, WorkerPhase::Finished(Err(WorkerError::RateLimiterEvent)))
        },
        (WorkerPhase::ReadingCommandEvent, WorkerAnswer::Done(ok)) => if ok {
            (q, WorkerPhase::TakingCommand)
        } else {
            (q, WorkerPhase::Finished(Err(WorkerError::BlockCommandEvent)))
        },
        (WorkerPhase::TakingCommand, WorkerAnswer::Command(command)) => match command {
            Some(kind) => apply_pending(QueueState { pending: Some(kind), ..q }),
            None => apply_pending(q),
        },
        (WorkerPhase::Registering(kind), WorkerAnswer::Tried(registered)) => match registered {
            Ok(()) => (q, WorkerPhase::Deregistering(kind)),
            Err(reason) => (
                q,
                WorkerPhase::Acking(kind, Err(MirrorError::RegisterNotifier(reason))),
            ),
        },
        (WorkerPhase::Deregistering(kind), WorkerAnswer::Tried(deregistered)) => {
            match deregistered {
                Ok(()) => (q, WorkerPhase::Swapping(kind)),
                Err(reason) => (q, WorkerPhase::RollingBack(kind, reason)),
            }
        },
        // Whatever comes of the rollback, the command has failed.
        (WorkerPhase::RollingBack(kind, reason), _) => (
            q,
            WorkerPhase::Acking(kind, Err(MirrorError::DeregisterNotifier(reason))),
        ),
        (WorkerPhase::Swapping(kind), _) => (q, WorkerPhase::Acking(kind, Ok(()))),
        // While the command was pending, the guest's kicks were consumed without
        // submitting. The guest won't kick again for descriptors it already queued, so
        // the queue is processed now, whether the command succeeded or failed.
        (WorkerPhase::Acking(_, _), _) => (q, WorkerPhase::CheckingLimit(AfterSignal::End)),
        _ => (q, phase),
    }
}

impl BlockEpollHandler {
    /// Starts to handle an event.
    pub fn begin_event(&mut self, event: WorkerEvent, rate_limited: bool, has_receiver: bool) -> (
        phase: WorkerPhase)
        ensures
            final(self).spec_config() == old(self).spec_config(),
            (final(self)@, phase) == worker_start(old(self)@, event, rate_limited, has_receiver),
    {
        match event {
            WorkerEvent::QueueAvail => WorkerPhase::ReadingQueueEvent,
            WorkerEvent::Completion => WorkerPhase::ReadingCompletionEvent,
            WorkerEvent::RateLimiter => if rate_limited {
                WorkerPhase::HandlingRateLimiter
            } else {
                WorkerPhase::Finished(Err(WorkerError::UnexpectedRateLimiterEvent))
            },
            WorkerEvent::BlockCommand => if has_receiver {
                WorkerPhase::ReadingCommandEvent
            } else {
                self.try_apply_pending_block_queue_command()
            },
            WorkerEvent::Other(n) => WorkerPhase::Finished(Err(WorkerError::UnexpectedEvent(n))),
        }
    }

    /// Starts to apply a pending command if there is one and no request is in flight.
    ///
    /// Otherwise nothing changes, and the next completion event triggers another attempt.
    pub fn try_apply_pending_block_queue_command(&mut self) -> (phase: WorkerPhase)
        ensures
            final(self).spec_config() == old(self).spec_config(),
            (final(self)@, phase) == apply_pending(old(self)@),
    {
        // If any disk requests are in flight, we can't apply the pending command.
        if !self.is_drained() {
            return WorkerPhase::Finished(Ok(()));
        }
        match self.take_pending_command() {
            Some(kind) => WorkerPhase::Registering(kind),
            None => {
                assert(self@ =~= old(self)@);
                WorkerPhase::Finished(Ok(()))
            },
        }
    }

    fn continue_after(&mut self, after: AfterSignal) -> (phase: WorkerPhase)
        ensures
            final(self).spec_config() == old(self).spec_config(),
            (final(self)@, phase) == after_signal(old(self)@, after),
    {
        match after {
            AfterSignal::End => WorkerPhase::Finished(Ok(())),
            AfterSignal::SubmitAndApply => WorkerPhase::CheckingLimit(AfterSignal::Apply),
            AfterSignal::Apply => self.try_apply_pending_block_queue_command(),
        }
    }

    /// Asks the virtqueue whether the guest needs a notification, where a phase asks for that,
    /// and takes the answer into account. The guest needs every one unless the virtqueue uses
    /// event indices.
    pub fn try_signal_used_queue(
        &mut self,
        memory: &GuestMemoryMmap<AtomicBitmap>,
        queue: &mut Queue,
        phase: WorkerPhase,
    ) -> (next: WorkerPhase)
        ensures
            final(self).spec_config() == old(self).spec_config(),
            stays_in_place(*old(queue), *final(queue)),
            phase is CheckingNotification ==> exists|needed: Result<bool, ()>|
                {
                    &&& (final(self)@, next) == #[trigger] worker_next(
                        old(self)@,
                        phase,
                        WorkerAnswer::Flag(needed),
                    )
                    &&& !queue_event_idx(*old(queue)) ==> needed == Ok::<bool, ()>(true)
                    &&& queue_event_idx(*old(queue)) ==> (needed is Ok <==> word_accessible(
                        guest_regions(*memory),
                        queue_avail_ring(*old(queue)) + 4 + 2 * queue_size(*old(queue)),
                    ))
                },
            !(phase is CheckingNotification) ==> (final(self)@, next) == (old(self)@, phase),
    {
        match phase {
            WorkerPhase::CheckingNotification(after) => {
                let needed: Result<bool, ()> = needs_notification(queue, memory);
                self.handle_event(
                    WorkerPhase::CheckingNotification(after),
                    WorkerAnswer::Flag(needed),
                )
            },
            phase => phase,
        }
    }

    /// Takes the answer to what a phase asks for into account.
    pub fn handle_event(&mut self, phase: WorkerPhase, answer: WorkerAnswer) -> (next: WorkerPhase)
        requires
            worker_answers(phase, answer),
        ensures
            final(self).spec_config() == old(self).spec_config(),
            (final(self)@, next) == worker_next(old(self)@, phase, answer),
    {
        match (phase, answer) {
            (WorkerPhase::ReadingQueueEvent, WorkerAnswer::Done(ok)) => if ok {
                WorkerPhase::CheckingLimit(AfterSignal::End)
            } else {
                WorkerPhase::Finished(Err(WorkerError::QueueEvent))
            },
            (WorkerPhase::ReadingCompletionEvent, WorkerAnswer::Done(ok)) => if ok {
                WorkerPhase::RunningCompletion
            } else {
                WorkerPhase::Finished(Err(WorkerError::QueueEvent))
            },
            (WorkerPhase::RunningCompletion, _) => WorkerPhase::CheckingNotification(
                AfterSignal::SubmitAndApply,
            ),
            (WorkerPhase::CheckingLimit(after), WorkerAnswer::Flag(Ok(blocked))) => if blocked {
                self.continue_after(after)
            } else {
                WorkerPhase::RunningSubmission(after)
            },
            (WorkerPhase::RunningSubmission(after), WorkerAnswer::Ran(result)) => match result {
                Err(QueueError::QueueIterator) => WorkerPhase::Finished(
                    Err(WorkerError::ProcessQueue(QueueError::QueueIterator)),
                ),
                Err(QueueError::QueueDuplicatedHeadIndex) => WorkerPhase::Finished(
                    Err(WorkerError::ProcessQueue(QueueError::QueueDuplicatedHeadIndex)),
                ),
                _ => WorkerPhase::CheckingNotification(after),
            },
            (WorkerPhase::CheckingNotification(after), WorkerAnswer::Flag(needed)) => match needed {
                Err(_) => WorkerPhase::Finished(Err(WorkerError::NeedsNotification)),
                Ok(true) => WorkerPhase::Signalling(after),
                Ok(false) => self.continue_after(after),
            },
            (WorkerPhase::Signalling(after), WorkerAnswer::Done(ok)) => if ok {
                self.continue_after(after)
            } else {
                WorkerPhase::Finished(Err(WorkerError::SignalUsedQueue))
            },
            (WorkerPhase::HandlingRateLimiter, WorkerAnswer::Done(ok)) => if ok {
                WorkerPhase::RunningSubmission(AfterSignal::End)
            } else {
                WorkerPhase::Finished(Err(WorkerError::RateLimiterEvent))
            },
            (WorkerPhase::ReadingCommandEvent, WorkerAnswer::Done(ok)) => if ok {
                WorkerPhase::TakingCommand
            } else {
                WorkerPhase::Finished(Err(WorkerError::BlockCommandEvent))
            },
            (WorkerPhase::TakingCommand, WorkerAnswer::Command(command)) => {
                if let Some(kind) = command {
                    let _stale = self.set_pending_command(kind);
                }
                self.try_apply_pending_block_queue_command()
            },
            (
                WorkerPhase::Registering(kind),
                WorkerAnswer::Tried(registered),
            ) => match registered {
                Ok(()) => WorkerPhase::Deregistering(kind),
                Err(reason) => WorkerPhase::Acking(
                    kind,
                    Err(MirrorError::RegisterNotifier(reason)),
                ),
            },
            (
                WorkerPhase::Deregistering(kind),
                WorkerAnswer::Tried(deregistered),
            ) => match deregistered {
                Ok(()) => WorkerPhase::Swapping(kind),
                Err(reason) => WorkerPhase::RollingBack(kind, reason),
            },
            (WorkerPhase::RollingBack(kind, reason), _) => WorkerPhase::Acking(
                kind,
                Err(MirrorError::DeregisterNotifier(reason)),
            ),
            (WorkerPhase::Swapping(kind), _) => WorkerPhase::Acking(kind, Ok(())),
            (WorkerPhase::Acking(_, _), _) => WorkerPhase::CheckingLimit(AfterSignal::End),
            (phase, _) => phase,
        }
    }
}

/// The backend is being replaced.
pub open spec fn replacing(phase: WorkerPhase) -> bool {
    phase is Registering || phase is Deregistering || phase is RollingBack || phase is Swapping
}

/// A command that waits is applied as soon as no request is in flight, and not before. It is then
/// no longer waiting.
pub proof fn law_command_waits_for_requests(q: QueueState)
    ensures
        ({
            let (after, next) = apply_pending(q);
            &&& next is Registering <==> q.inflight.len() == 0 && q.pending is Some
            &&& next is Registering ==> q.pending == Some(next->Registering_0) && after.pending
                is None
            &&& !(next is Registering) ==> after == q && next == WorkerPhase::Finished(Ok(()))
            &&& after.inflight == q.inflight && after.batch == q.batch && after.active == q.active
        }),
{
}

/// The command that was sent last is the one that waits.
pub proof fn law_new_command_replaces_waiting_one(q: QueueState, kind: BlockQueueCommandKind)
    ensures
        ({
            let (after, next) = worker_next(
                q,
                WorkerPhase::TakingCommand,
                WorkerAnswer::Command(Some(kind)),
            );
            &&& q.inflight.len() > 0 ==> after.pending == Some(kind) && next
                == WorkerPhase::Finished(Ok(()))
            &&& q.inflight.len() == 0 ==> after.pending is None && next == WorkerPhase::Registering(
                kind,
            )
        }),
        worker_next(q, WorkerPhase::TakingCommand, WorkerAnswer::Command(None)) == apply_pending(q),
{
}

/// A guest that needs a notification gets it, and one that does not need it gets none.
pub proof fn law_guest_is_signalled_if_needed(q: QueueState, after: AfterSignal, needed: bool)
    ensures
        ({
            let (_, next) = worker_next(
                q,
                WorkerPhase::CheckingNotification(after),
                WorkerAnswer::Flag(Ok(needed)),
            );
            &&& next is Signalling <==> needed
            &&& needed ==> next == WorkerPhase::Signalling(after)
            &&& !needed ==> worker_next(
                q,
                WorkerPhase::CheckingNotification(after),
                WorkerAnswer::Flag(Ok(needed)),
            ) == worker_next(q, WorkerPhase::Signalling(after), WorkerAnswer::Done(true))
        }),
{
}

/// New requests are submitted only while the rate limiter is not blocked, and then they are,
/// whether the guest has new descriptors, requests have finished or a command has been applied.
pub proof fn law_blocked_limiter_stops_submission(q: QueueState, after: AfterSignal, blocked: bool)
    ensures
        worker_next(
            q,
            WorkerPhase::CheckingLimit(after),
            WorkerAnswer::Flag(Ok(blocked)),
        ).1 is RunningSubmission <==> !blocked,
        worker_next(q, WorkerPhase::ReadingQueueEvent, WorkerAnswer::Done(true)).1
            is CheckingLimit,
        worker_next(q, WorkerPhase::HandlingRateLimiter, WorkerAnswer::Done(true)).1
            is RunningSubmission,
{
}

/// Finished requests are returned to the guest, whatever comes of that, and the guest is signalled
/// if it needs that. Then new requests are submitted, and after that a waiting command is applied.
pub proof fn law_completion_is_followed_through(q: QueueState, completed: Result<(), QueueError>)
    ensures
        ({
            let (q1, p1) = worker_next(
                q,
                WorkerPhase::ReadingCompletionEvent,
                WorkerAnswer::Done(true),
            );
            let (q2, p2) = worker_next(q1, p1, WorkerAnswer::Ran(completed));
            let (q3, p3) = worker_next(q2, p2, WorkerAnswer::Flag(Ok(true)));
            let (q4, p4) = worker_next(q3, p3, WorkerAnswer::Done(true));
            let (q5, p5) = worker_next(q4, p4, WorkerAnswer::Flag(Ok(false)));
            let (q6, p6) = worker_next(q5, p5, WorkerAnswer::Ran(Ok(())));
            &&& p1 is RunningCompletion
            &&& p2 is CheckingNotification
            &&& p3 is Signalling
            &&& p4 is CheckingLimit
            &&& p5 is RunningSubmission
            &&& p6 is CheckingNotification
            &&& worker_next(q6, p6, WorkerAnswer::Flag(Ok(false))) == apply_pending(q)
        }),
{
}

/// A worker stops on a queue that is broken or misused, and on nothing else that a run reports.
pub proof fn law_only_broken_queue_stops_worker(
    q: QueueState,
    after: AfterSignal,
    error: QueueError,
)
    ensures
        ({
            let (same, next) = worker_next(
                q,
                WorkerPhase::RunningSubmission(after),
                WorkerAnswer::Ran(Err(error)),
            );
            &&& same == q
            &&& match error {
                QueueError::QueueIterator | QueueError::QueueDuplicatedHeadIndex => next
                    == WorkerPhase::Finished(Err(WorkerError::ProcessQueue(error))),
                _ => next == WorkerPhase::CheckingNotification(after),
            }
        }),
        !(worker_next(q, WorkerPhase::RunningCompletion, WorkerAnswer::Ran(Err(error))).1
            is Finished),
{
}

/// A worker stops with the reason of the step that failed.
pub proof fn law_worker_stops_for_reason(
    q: QueueState,
    phase: WorkerPhase,
    answer: WorkerAnswer,
    error: WorkerError,
)
    requires
        worker_answers(phase, answer),
    ensures
        worker_next(q, phase, answer).1 == WorkerPhase::Finished(Err(error)) <==> match error {
            WorkerError::QueueEvent => (phase is ReadingQueueEvent || phase
                is ReadingCompletionEvent) && answer == WorkerAnswer::Done(false),
            WorkerError::NeedsNotification => phase is CheckingNotification && (answer matches
                WorkerAnswer::Flag(Err(_))),
            WorkerError::SignalUsedQueue => phase is Signalling && answer == WorkerAnswer::Done(
                false,
            ),
            WorkerError::ProcessQueue(reason) => phase is RunningSubmission && answer
                == WorkerAnswer::Ran(Err(reason)) && (reason == QueueError::QueueIterator || reason
                == QueueError::QueueDuplicatedHeadIndex),
            WorkerError::RateLimiterEvent => phase is HandlingRateLimiter && answer
                == WorkerAnswer::Done(false),
            WorkerError::BlockCommandEvent => phase is ReadingCommandEvent && answer
                == WorkerAnswer::Done(false),
            WorkerError::UnexpectedRateLimiterEvent => false,
            WorkerError::UnexpectedEvent(_) => false,
        },
{
}

/// An event starts what it stands for. One that the worker does not know, or one of a rate limiter
/// that the worker does not have, stops the worker.
pub proof fn law_event_starts_its_handling(
    q: QueueState,
    rate_limited: bool,
    has_receiver: bool,
    n: u16,
)
    ensures
        worker_start(q, WorkerEvent::QueueAvail, rate_limited, has_receiver) == (
            q,
            WorkerPhase::ReadingQueueEvent,
        ),
        worker_start(q, WorkerEvent::Completion, rate_limited, has_receiver) == (
            q,
            WorkerPhase::ReadingCompletionEvent,
        ),
        rate_limited <==> worker_start(q, WorkerEvent::RateLimiter, rate_limited, has_receiver).1
            is HandlingRateLimiter,
        !rate_limited ==> worker_start(q, WorkerEvent::RateLimiter, rate_limited, has_receiver) == (
            q,
            WorkerPhase::Finished(Err(WorkerError::UnexpectedRateLimiterEvent)),
        ),
        has_receiver ==> worker_start(q, WorkerEvent::BlockCommand, rate_limited, has_receiver) == (
            q,
            WorkerPhase::ReadingCommandEvent,
        ),
        !has_receiver ==> worker_start(q, WorkerEvent::BlockCommand, rate_limited, has_receiver)
            == apply_pending(q),
        worker_start(q, WorkerEvent::Other(n), rate_limited, has_receiver) == (
            q,
            WorkerPhase::Finished(Err(WorkerError::UnexpectedEvent(n))),
        ),
{
}

/// The backend is only ever replaced while no request is in flight.
pub proof fn law_backend_replaced_only_when_drained(
    q: QueueState,
    phase: WorkerPhase,
    answer: WorkerAnswer,
)
    requires
        worker_answers(phase, answer),
        replacing(phase) ==> q.inflight.len() == 0,
    ensures
        ({
            let (after, next) = worker_next(q, phase, answer);
            &&& after.inflight == q.inflight
            &&& replacing(next) ==> after.inflight.len() == 0
        }),
{
}

/// The phases and the result of a replacement, given the answers of its three steps.
pub open spec fn replacement_result(
    registered: Result<(), BlockError>,
    deregistered: Result<(), BlockError>,
) -> Result<(), MirrorError> {
    match (registered, deregistered) {
        (Err(reason), _) => Err(MirrorError::RegisterNotifier(reason)),
        (Ok(()), Err(reason)) => Err(MirrorError::DeregisterNotifier(reason)),
        (Ok(()), Ok(())) => Ok(()),
    }
}

/// Every command that is applied is acknowledged once, with success exactly if the
/// notifier of the new backend could be registered and that of the old one be
/// deregistered, and else with the reason. Afterwards the queue is looked at again.
pub proof fn law_command_is_acknowledged(
    q: QueueState,
    kind: BlockQueueCommandKind,
    registered: Result<(), BlockError>,
    deregistered: Result<(), BlockError>,
    last: WorkerAnswer,
)
    ensures
        ({
            let p1 = worker_next(
                q,
                WorkerPhase::Registering(kind),
                WorkerAnswer::Tried(registered),
            ).1;
            let p2 = worker_next(q, p1, WorkerAnswer::Tried(deregistered)).1;
            let p3 = worker_next(q, p2, last).1;
            let acking = WorkerPhase::Acking(kind, replacement_result(registered, deregistered));
            &&& (if registered is Ok {
                p3
            } else {
                p1
            }) == acking
            &&& worker_next(q, acking, last) == (q, WorkerPhase::CheckingLimit(AfterSignal::End))
            &&& (p2 is Swapping <==> registered is Ok && deregistered is Ok)
        }),
{
}

} // verus!
