//! The completion of block requests: a finished request gets its status and is
//! returned to the guest, and the counters of the device are updated. The virtqueue and
//! guest memory are accessed here; the disk is left to the caller.

use virtio_queue::Queue;
use vm_memory::bitmap::AtomicBitmap;
use vm_memory::GuestMemoryMmap;
use vstd::prelude::*;

use crate::block_queue::{has_head, position, swap_removed, BlockEpollHandler, QueueError,
    QueueState};
use crate::block_request::{law_buffer_lengths_add_up, lemma_total_len_nonneg, total_len,
    wrapped_len, Request, RequestType};
use crate::guest_memory::{guest_regions, in_regions, write_status};
use crate::virtio::{VIRTIO_BLK_S_IOERR, VIRTIO_BLK_S_OK};
use crate::virtqueue::{add_used, advanced, enable_notification, next_position, virtqueue,
    VirtqueueView};

verus! {

/// Latency scale, to reduce precision loss in calculations.
pub const LATENCY_SCALE: u64 = 10000;

/// The counters of one direction. Latencies are recorded in microseconds, the
/// average one as a scaled value. A latency of `u64::MAX` means that there is none yet.
#[derive(Clone, Copy, Debug, PartialEq, Eq, Structural)]
pub struct IoCounters {
    pub bytes: u64,
    pub ops: u64,
    pub latency_min: u64,
    pub latency_max: u64,
    pub latency_avg: u64,
}

/// The counters of a block device.
#[derive(Clone, Copy, Debug, PartialEq, Eq, Structural)]
pub struct BlockCounters {
    pub read: IoCounters,
    pub write: IoCounters,
}

impl Default for BlockCounters {
    fn default() -> (counters: Self)
        ensures
            counters.read == (IoCounters {
                bytes: 0,
                ops: 0,
                latency_min: u64::MAX,
                latency_max: u64::MAX,
                latency_avg: u64::MAX,
            }),
            counters.write == counters.read,
    {
        let io = IoCounters {
            bytes: 0,
            ops: 0,
            latency_min: u64::MAX,
            latency_max: u64::MAX,
            latency_avg: u64::MAX,
        };
        BlockCounters { read: io, write: io }
    }
}

/// The average that follows from one more latency, as the `ops`-th one: the first
/// latency, or the old average moved towards the latency by a share of the
/// difference, rounded towards the old average.
pub open spec fn next_average(average: u64, latency: u64, ops: u64) -> int {
    let scaled = latency * LATENCY_SCALE;
    if average == u64::MAX {
        scaled
    } else if scaled >= average {
        average + (scaled - average) / ops as int
    } else {
        average - (average - scaled) / ops as int
    }
}

/// The numbers that an average is computed from fit in 64 bits, signed ones from the
/// second latency on.
pub open spec fn average_fits(average: u64, latency: u64, ops: int) -> bool {
    &&& latency * LATENCY_SCALE <= u64::MAX
    &&& ops <= u64::MAX
    &&& average != u64::MAX ==> latency * LATENCY_SCALE <= i64::MAX && average <= i64::MAX && 0
        < ops <= i64::MAX
}

/// An average never leaves the range between the old average and the new latency.
pub proof fn law_average_stays_between(average: u64, latency: u64, ops: u64)
    requires
        average != u64::MAX,
        average_fits(average, latency, ops as int),
    ensures
        average <= latency * LATENCY_SCALE ==> average <= next_average(average, latency, ops)
            <= latency * LATENCY_SCALE,
        latency * LATENCY_SCALE <= average ==> latency * LATENCY_SCALE <= next_average(
            average,
            latency,
            ops,
        ) <= average,
{
    let scaled = latency * LATENCY_SCALE;
    let difference = if scaled >= average {
        scaled - average
    } else {
        average - scaled
    };
    vstd::arithmetic::div_mod::lemma_div_is_ordered_by_denominator(difference, 1, ops as int);
    vstd::arithmetic::div_mod::lemma_div_by_self(1);
    vstd::arithmetic::div_mod::lemma_div_basics(difference);
    vstd::arithmetic::div_mod::lemma_div_pos_is_pos(difference, ops as int);
}

impl IoCounters {
    /// The counters after one more latency, as the `ops`-th one.
    pub open spec fn after_latency(self, latency: u64, ops: u64) -> IoCounters {
        IoCounters {
            latency_min: if latency < self.latency_min {
                latency
            } else {
                self.latency_min
            },
            latency_max: if latency > self.latency_max || self.latency_max == u64::MAX {
                latency
            } else {
                self.latency_max
            },
            latency_avg: next_average(self.latency_avg, latency, ops) as u64,
            ..self
        }
    }

    /// The counters after more operations, which wrap around.
    pub open spec fn after_ops(self, totals: IoTotals) -> IoCounters {
        IoCounters {
            bytes: ((self.bytes + totals.bytes) % 0x1_0000_0000_0000_0000) as u64,
            ops: ((self.ops + totals.ops) % 0x1_0000_0000_0000_0000) as u64,
            ..self
        }
    }

    /// Records the latency of the `ops`-th operation.
    pub fn record_latency(&mut self, latency: u64, ops: u64)
        requires
            average_fits(old(self).latency_avg, latency, ops as int),
        ensures
            *final(self) == old(self).after_latency(latency, ops),
    {
        if latency < self.latency_min {
            self.latency_min = latency;
        }
        if latency > self.latency_max || self.latency_max == u64::MAX {
            self.latency_max = latency;
        }
        let scaled: u64 = latency * LATENCY_SCALE;
        let average: u64 = self.latency_avg;
        proof {
            if average != u64::MAX {
                law_average_stays_between(average, latency, ops);
            }
        }
        // Special case the first real latency report
        self.latency_avg = if average == u64::MAX {
            scaled
        } else if scaled >= average {
            average + (scaled - average) / ops
        } else {
            average - (average - scaled) / ops
        };
    }

    /// Adds the bytes and operations of a completion run.
    pub fn record_ops(&mut self, totals: IoTotals)
        ensures
            *final(self) == old(self).after_ops(totals),
    {
        self.bytes = self.bytes.wrapping_add(totals.bytes);
        self.ops = self.ops.wrapping_add(totals.ops);
    }
}

impl BlockCounters {
    /// The counters by name.
    pub fn counters(&self) -> (counters: Vec<(&'static str, u64)>)
        ensures
            counters@ == seq![
                ("read_bytes", self.read.bytes),
                ("write_bytes", self.write.bytes),
                ("read_ops", self.read.ops),
                ("write_ops", self.write.ops),
                ("write_latency_min", self.write.latency_min),
                ("write_latency_max", self.write.latency_max),
                ("write_latency_avg", self.write.latency_avg / LATENCY_SCALE),
                ("read_latency_min", self.read.latency_min),
                ("read_latency_max", self.read.latency_max),
                ("read_latency_avg", self.read.latency_avg / LATENCY_SCALE),
            ],
    {
        let counters: Vec<(&'static str, u64)> = vec![
            ("read_bytes", self.read.bytes),
            ("write_bytes", self.write.bytes),
            ("read_ops", self.read.ops),
            ("write_ops", self.write.ops),
            ("write_latency_min", self.write.latency_min),
            ("write_latency_max", self.write.latency_max),
            ("write_latency_avg", self.write.latency_avg / LATENCY_SCALE),
            ("read_latency_min", self.read.latency_min),
            ("read_latency_max", self.read.latency_max),
            ("read_latency_avg", self.read.latency_avg / LATENCY_SCALE),
        ];
        counters
    }
}

/// The bytes and operations of one direction that a completion run has seen.
#[derive(Clone, Copy, Debug, PartialEq, Eq, Structural)]
pub struct IoTotals {
    pub bytes: u64,
    pub ops: u64,
}

impl IoTotals {
    /// The totals after one more operation, which wrap around.
    pub open spec fn after(self, len: u64) -> IoTotals {
        IoTotals {
            bytes: ((self.bytes + len) % 0x1_0000_0000_0000_0000) as u64,
            ops: ((self.ops + 1) % 0x1_0000_0000_0000_0000) as u64,
        }
    }

    /// Adds one operation.
    pub fn record(&mut self, len: u64)
        ensures
            *final(self) == old(self).after(len),
    {
        self.bytes = self.bytes.wrapping_add(len);
        self.ops = self.ops.wrapping_add(1);
    }
}

/// What a completion run adds up: its totals, and the counters of the device.
#[derive(Clone, Copy, Debug)]
pub struct CompletionCounts {
    pub read: IoTotals,
    pub write: IoTotals,
    pub counters: BlockCounters,
}

impl CompletionCounts {
    /// The counts after a read.
    pub open spec fn after_read(self, request: Request, latency: u64) -> CompletionCounts {
        let read = self.read.after(wrapped_len(request.data_descriptors@));
        CompletionCounts {
            read,
            counters: BlockCounters {
                read: self.counters.read.after_latency(
                    latency,
                    (self.counters.read.ops + read.ops) as u64,
                ),
                ..self.counters
            },
            ..self
        }
    }

    /// The counts after a write.
    pub open spec fn after_write(self, request: Request, latency: u64) -> CompletionCounts {
        let write = self.write.after(wrapped_len(request.data_descriptors@));
        CompletionCounts {
            write,
            counters: BlockCounters {
                write: self.counters.write.after_latency(
                    latency,
                    (self.counters.write.ops + write.ops) as u64,
                ),
                ..self.counters
            },
            ..self
        }
    }

    /// The counts at the end of a run that found no error.
    pub open spec fn flushed(self) -> CompletionCounts {
        CompletionCounts {
            counters: BlockCounters {
                read: self.counters.read.after_ops(self.read),
                write: self.counters.write.after_ops(self.write),
            },
            ..self
        }
    }

    /// The average of the reads can take one more latency.
    pub open spec fn read_fits(self, latency: u64) -> bool {
        average_fits(
            self.counters.read.latency_avg,
            latency,
            self.counters.read.ops + self.read.after(0).ops,
        )
    }

    /// The average of the writes can take one more latency.
    pub open spec fn write_fits(self, latency: u64) -> bool {
        average_fits(
            self.counters.write.latency_avg,
            latency,
            self.counters.write.ops + self.write.after(0).ops,
        )
    }
}

/// How far a completion run has come.
#[derive(Debug)]
pub enum CompletePhase {
    /// Asking the disk for a request that has finished.
    Polling,
    /// Completing a request, given the result of the disk.
    Completing(u16, Request, i32),
    /// Synchronizing the disk after a write, given its latency.
    Syncing(u16, Request, u64),
    /// Writing a status for a head index, with the used length that follows.
    WritingStatus(u16, u64, u8, u32),
    /// Adding a head index to the used ring.
    AddingUsed(u16, u32),
    /// Enabling notifications.
    EnablingNotification,
    /// The run has ended.
    Finished(Result<(), QueueError>),
}

/// What a completion run needs done next.
#[derive(Clone, Copy, Debug, PartialEq, Eq)]
pub enum CompleteAction {
    /// Ask the disk for the next request that has finished.
    NextCompleted,
    /// Complete the request with this head index and measure its latency.
    Complete(u16),
    /// Synchronize the disk.
    Fsync,
    /// Write a status byte to a guest address.
    WriteStatus(u64, u8),
    /// Add a head index to the used ring, with a length.
    AddUsed(u16, u32),
    /// Enable the notifications of the queue.
    EnableNotification,
    /// The run has ended with this result.
    Finish(Result<(), QueueError>),
}

/// The answer to an action of a completion run.
#[derive(Clone, Copy, Debug, PartialEq, Eq)]
pub enum CompleteEvent {
    /// The user data and the result of a finished request, if there is one.
    Completion(Option<(u64, i32)>),
    /// The latency in microseconds, or the failure to complete the request.
    Completed(Result<u64, ()>),
    /// Whether the action succeeded.
    Done(bool),
}

/// `event` is an answer to what `phase` asks for.
pub open spec fn complete_answers(phase: CompletePhase, event: CompleteEvent) -> bool {
    match phase {
        CompletePhase::Polling => event is Completion,
        CompletePhase::Completing(_, _, _) => event is Completed,
        CompletePhase::Finished(_) => false,
        _ => event is Done,
    }
}

/// The counts can take the latency that a step reports.
pub open spec fn complete_fits(
    counts: CompletionCounts,
    phase: CompletePhase,
    event: CompleteEvent,
) -> bool {
    match (phase, event) {
        (CompletePhase::Completing(_, request, result), CompleteEvent::Completed(Ok(latency))) => {
            &&& (result >= 0 && request.request_type == RequestType::In) ==> counts.read_fits(
                latency,
            )
            &&& (result >= 0 && request.request_type == RequestType::Out && request.writeback)
                ==> counts.write_fits(latency)
        },
        (CompletePhase::Syncing(_, _, latency), CompleteEvent::Done(true)) => counts.write_fits(
            latency,
        ),
        _ => true,
    }
}

/// The state of the worker when a completion run has come to `phase`.
pub open spec fn complete_state(q: QueueState, phase: CompletePhase) -> bool {
    match phase {
        CompletePhase::Polling | CompletePhase::Finished(_) => q.idle(),
        _ => q.completing(),
    }
}

/// A request that is being returned is no longer active.
pub open spec fn released(q: QueueState) -> QueueState {
    QueueState { active: q.active - 1, ..q }
}

/// A successful request is returned to the guest. For a read the length covers the
/// data, and in any case the status byte.
pub open spec fn return_ok(head: u16, request: Request, result: i32) -> CompletePhase {
    CompletePhase::WritingStatus(
        head,
        request.status_addr,
        VIRTIO_BLK_S_OK as u8,
        if request.request_type == RequestType::In {
            (result + 1) as u32
        } else {
            1
        },
    )
}

/// The state, the counts and the phase that follow a phase on an answer.
pub open spec fn complete_next(
    q: QueueState,
    counts: CompletionCounts,
    phase: CompletePhase,
    event: CompleteEvent,
) -> (QueueState, CompletionCounts, CompletePhase) {
    match (phase, event) {
        (CompletePhase::Polling, CompleteEvent::Completion(completion)) => match completion {
            None => (q, counts.flushed(), CompletePhase::Finished(Ok(()))),
            Some((user_data, result)) => {
                let head = user_data as u16;
                if has_head(q.inflight, head) {
                    let i = position(q.inflight, head);
                    (
                        QueueState { inflight: swap_removed(q.inflight, i), ..q },
                        counts,
                        CompletePhase::Completing(head, q.inflight[i].1, result),
                    )
                } else {
                    (q, counts, CompletePhase::Finished(Err(QueueError::MissingEntryRequestList)))
                }
            },
        },
        (
            CompletePhase::Completing(head, request, result),
            CompleteEvent::Completed(completed),
        ) => match completed {
            Err(_) => (
                released(q),
                counts,
                CompletePhase::Finished(Err(QueueError::RequestCompleting)),
            ),
            Ok(latency) => if result < 0 {
                (
                    q,
                    counts,
                    CompletePhase::WritingStatus(
                        head,
                        request.status_addr,
                        VIRTIO_BLK_S_IOERR as u8,
                        1,
                    ),
                )
            } else if request.request_type == RequestType::In {
                (q, counts.after_read(request, latency), return_ok(head, request, result))
            } else if request.request_type == RequestType::Out && !request.writeback {
                (q, counts, CompletePhase::Syncing(head, request, latency))
            } else if request.request_type == RequestType::Out {
                (q, counts.after_write(request, latency), return_ok(head, request, result))
            } else {
                (q, counts, return_ok(head, request, result))
            },
        },
        (CompletePhase::Syncing(head, request, latency), CompleteEvent::Done(ok)) => if ok {
            (q, counts.after_write(request, latency), return_ok(head, request, 0))
        } else {
            (released(q), counts, CompletePhase::Finished(Err(QueueError::Fsync)))
        },
        (CompletePhase::WritingStatus(head, _, _, len), CompleteEvent::Done(ok)) => if ok {
            (q, counts, CompletePhase::AddingUsed(head, len))
        } else {
            (released(q), counts, CompletePhase::Finished(Err(QueueError::RequestStatus)))
        },
        (CompletePhase::AddingUsed(_, _), CompleteEvent::Done(ok)) => if ok {
            (q, counts, CompletePhase::EnablingNotification)
        } else {
            (released(q), counts, CompletePhase::Finished(Err(QueueError::QueueAddUsed)))
        },
        (CompletePhase::EnablingNotification, CompleteEvent::Done(ok)) => if ok {
            (released(q), counts, CompletePhase::Polling)
        } else {
            (
                released(q),
                counts,
                CompletePhase::Finished(Err(QueueError::QueueEnableNotification)),
            )
        },
        _ => (q, counts, phase),
    }
}

/// What a phase needs done.
pub open spec fn complete_action(phase: CompletePhase) -> CompleteAction {
    match phase {
        CompletePhase::Polling => CompleteAction::NextCompleted,
        CompletePhase::Completing(head, _, _) => CompleteAction::Complete(head),
        CompletePhase::Syncing(_, _, _) => CompleteAction::Fsync,
        CompletePhase::WritingStatus(_, addr, status, _) => CompleteAction::WriteStatus(
            addr,
            status,
        ),
        CompletePhase::AddingUsed(head, len) => CompleteAction::AddUsed(head, len),
        CompletePhase::EnablingNotification => CompleteAction::EnableNotification,
        CompletePhase::Finished(result) => CompleteAction::Finish(result),
    }
}

impl CompletePhase {
    /// What this phase needs done.
    pub fn action(&self) -> (action: CompleteAction)
        ensures
            action == complete_action(*self),
    {
        match self {
            CompletePhase::Polling => CompleteAction::NextCompleted,
            CompletePhase::Completing(head, _, _) => CompleteAction::Complete(*head),
            CompletePhase::Syncing(_, _, _) => CompleteAction::Fsync,
            CompletePhase::WritingStatus(_, addr, status, _) => CompleteAction::WriteStatus(
                *addr,
                *status,
            ),
            CompletePhase::AddingUsed(head, len) => CompleteAction::AddUsed(*head, *len),
            CompletePhase::EnablingNotification => CompleteAction::EnableNotification,
            CompletePhase::Finished(result) => CompleteAction::Finish(*result),
        }
    }
}

impl CompletionCounts {
    /// Starts a completion run on the current counters of the device.
    pub fn new(counters: BlockCounters) -> (counts: Self)
        ensures
            counts.read == (IoTotals { bytes: 0, ops: 0 }),
            counts.write == (IoTotals { bytes: 0, ops: 0 }),
            counts.counters == counters,
    {
        CompletionCounts {
            read: IoTotals { bytes: 0, ops: 0 },
            write: IoTotals { bytes: 0, ops: 0 },
            counters,
        }
    }

    fn record_read(&mut self, request: &Request, latency: u64)
        requires
            old(self).read_fits(latency),
        ensures
            *final(self) == old(self).after_read(*request, latency),
    {
        self.read.record(request.data_len());
        let ops: u64 = self.counters.read.ops + self.read.ops;
        self.counters.read.record_latency(latency, ops);
    }

    fn record_write(&mut self, request: &Request, latency: u64)
        requires
            old(self).write_fits(latency),
        ensures
            *final(self) == old(self).after_write(*request, latency),
    {
        self.write.record(request.data_len());
        let ops: u64 = self.counters.write.ops + self.write.ops;
        self.counters.write.record_latency(latency, ops);
    }

    fn flush(&mut self)
        ensures
            *final(self) == old(self).flushed(),
    {
        self.counters.write.record_ops(self.write);
        self.counters.read.record_ops(self.read);
    }
}

fn returned_ok(head: u16, request: &Request, result: i32) -> (phase: CompletePhase)
    requires
        result >= 0,
    ensures
        phase == return_ok(head, *request, result),
{
    let len: u32 = if request.request_type == RequestType::In {
        result as u32 + 1
    } else {
        1
    };
    CompletePhase::WritingStatus(head, request.status_addr, VIRTIO_BLK_S_OK as u8, len)
}

impl BlockEpollHandler {
    /// Takes the answer to the action of a phase into account.
    pub fn advance_complete(
        &mut self,
        counts: &mut CompletionCounts,
        phase: CompletePhase,
        event: CompleteEvent,
    ) -> (next: CompletePhase)
        requires
            complete_state(old(self)@, phase),
            complete_answers(phase, event),
            complete_fits(*old(counts), phase, event),
        ensures
            final(self).spec_config() == old(self).spec_config(),
            (final(self)@, *final(counts), next) == complete_next(
                old(self)@,
                *old(counts),
                phase,
                event,
            ),
            complete_state(final(self)@, next),
    {
        match (phase, event) {
            (CompletePhase::Polling, CompleteEvent::Completion(completion)) => match completion {
                None => {
                    counts.flush();
                    CompletePhase::Finished(Ok(()))
                },
                Some((user_data, result)) => {
                    let head: u16 = user_data as u16;
                    match self.find_inflight_request(head) {
                        Ok(request) => CompletePhase::Completing(head, request, result),
                        Err(error) => CompletePhase::Finished(Err(error)),
                    }
                },
            },
            (
                CompletePhase::Completing(head, request, result),
                CompleteEvent::Completed(completed),
            ) => match completed {
                Err(_) => {
                    self.release_active();
                    CompletePhase::Finished(Err(QueueError::RequestCompleting))
                },
                Ok(latency) => if result < 0 {
                    CompletePhase::WritingStatus(
                        head,
                        request.status_addr,
                        VIRTIO_BLK_S_IOERR as u8,
                        1,
                    )
                } else if request.request_type == RequestType::In {
                    counts.record_read(&request, latency);
                    returned_ok(head, &request, result)
                } else if request.request_type == RequestType::Out && !request.writeback {
                    CompletePhase::Syncing(head, request, latency)
                } else if request.request_type == RequestType::Out {
                    counts.record_write(&request, latency);
                    returned_ok(head, &request, result)
                } else {
                    returned_ok(head, &request, result)
                },
            },
            (CompletePhase::Syncing(head, request, latency), CompleteEvent::Done(ok)) => if ok {
                counts.record_write(&request, latency);
                returned_ok(head, &request, 0)
            } else {
                self.release_active();
                CompletePhase::Finished(Err(QueueError::Fsync))
            },
            (CompletePhase::WritingStatus(head, _, _, len), CompleteEvent::Done(ok)) => if ok {
                CompletePhase::AddingUsed(head, len)
            } else {
                self.release_active();
                CompletePhase::Finished(Err(QueueError::RequestStatus))
            },
            (CompletePhase::AddingUsed(_, _), CompleteEvent::Done(ok)) => if ok {
                CompletePhase::EnablingNotification
            } else {
                self.release_active();
                CompletePhase::Finished(Err(QueueError::QueueAddUsed))
            },
            (CompletePhase::EnablingNotification, CompleteEvent::Done(ok)) => {
                self.release_active();
                if ok {
                    CompletePhase::Polling
                } else {
                    CompletePhase::Finished(Err(QueueError::QueueEnableNotification))
                }
            },
            (phase, _) => phase,
        }
    }
}

/// A phase needs nothing but the virtqueue and guest memory.
pub open spec fn complete_on_queue(phase: CompletePhase) -> bool {
    match phase {
        CompletePhase::WritingStatus(_, _, _, _)
        | CompletePhase::AddingUsed(_, _)
        | CompletePhase::EnablingNotification => true,
        _ => false,
    }
}

/// `event` is a possible answer of the virtqueue and guest memory to what `phase` asks for,
/// given the regions of guest memory and the virtqueue.
pub open spec fn complete_queue_answers(
    regions: Map<u64, u64>,
    ring: VirtqueueView,
    phase: CompletePhase,
    event: CompleteEvent,
) -> bool {
    complete_answers(phase, event) && match (phase, event) {
        // Guest memory can be written exactly where it is.
        (CompletePhase::WritingStatus(_, addr, _, _), CompleteEvent::Done(ok)) => ok
            <==> in_regions(regions, addr, 1),
        // A chain is returned exactly if the ring can be written.
        (CompletePhase::AddingUsed(head, _), CompleteEvent::Done(ok)) => ok <==> ring.used_fits(
            regions,
            head,
        ),
        (CompletePhase::EnablingNotification, CompleteEvent::Done(ok)) => ok
            <==> ring.notification_fits(regions),
        _ => true,
    }
}

/// The virtqueue after the answer to what a phase asks for: returning a chain is counted.
pub open spec fn complete_ring_next(
    regions: Map<u64, u64>,
    ring: VirtqueueView,
    phase: CompletePhase,
) -> VirtqueueView {
    match phase {
        CompletePhase::AddingUsed(head, _) => ring.returned(regions, head),
        _ => ring,
    }
}

/// What a completion run has come to.
pub struct CompleteProgress {
    pub queue: QueueState,
    pub counts: CompletionCounts,
    pub ring: VirtqueueView,
    pub phase: CompletePhase,
}

/// What follows on a sequence of answers of the virtqueue and guest memory.
pub open spec fn complete_after(
    start: CompleteProgress,
    regions: Map<u64, u64>,
    events: Seq<CompleteEvent>,
) -> CompleteProgress
    decreases events.len(),
{
    if events.len() == 0 {
        start
    } else {
        let before = complete_after(start, regions, events.drop_last());
        let (queue, counts, phase) = complete_next(
            before.queue,
            before.counts,
            before.phase,
            events.last(),
        );
        let ring = complete_ring_next(regions, before.ring, before.phase);
        CompleteProgress { queue, counts, ring, phase }
    }
}

/// The answers are possible ones of the virtqueue and guest memory to phases that need nothing
/// else.
pub open spec fn complete_run(
    start: CompleteProgress,
    regions: Map<u64, u64>,
    events: Seq<CompleteEvent>,
) -> bool
    decreases events.len(),
{
    events.len() > 0 ==> {
        let before = complete_after(start, regions, events.drop_last());
        &&& complete_run(start, regions, events.drop_last())
        &&& complete_on_queue(before.phase)
        &&& complete_queue_answers(regions, before.ring, before.phase, events.last())
    }
}

/// The number of chains that the answers have returned to the guest.
pub open spec fn complete_returned(
    start: CompleteProgress,
    regions: Map<u64, u64>,
    events: Seq<CompleteEvent>,
) -> nat
    decreases events.len(),
{
    if events.len() == 0 {
        0
    } else {
        let before = complete_after(start, regions, events.drop_last()).phase;
        let returned: nat = if before is AddingUsed && events.last() == CompleteEvent::Done(true) {
            1
        } else {
            0
        };
        complete_returned(start, regions, events.drop_last()) + returned
    }
}

/// A run counts each chain that it returns, unless the ring of used chains cannot be written.
pub proof fn law_returned_chains_are_counted(
    start: CompleteProgress,
    regions: Map<u64, u64>,
    events: Seq<CompleteEvent>,
)
    requires
        complete_run(start, regions, events),
    ensures
        ({
            let after = complete_after(start, regions, events);
            after.phase == CompletePhase::Finished(Err(QueueError::QueueAddUsed))
                || after.ring.next_used == advanced(
                start.ring.next_used,
                complete_returned(start, regions, events),
            )
        }),
    decreases events.len(),
{
    if events.len() > 0 {
        law_returned_chains_are_counted(start, regions, events.drop_last());
    }
}

proof fn lemma_complete_step(
    start: CompleteProgress,
    regions: Map<u64, u64>,
    events: Seq<CompleteEvent>,
    k: int,
)
    requires
        complete_run(start, regions, events),
        0 <= k < events.len(),
    ensures
        ({
            let before = complete_after(start, regions, events.take(k));
            let after = complete_after(start, regions, events.take(k + 1));
            &&& complete_on_queue(before.phase)
            &&& complete_queue_answers(regions, before.ring, before.phase, events[k])
            &&& after.ring == complete_ring_next(regions, before.ring, before.phase)
            &&& (after.queue, after.counts, after.phase) == complete_next(
                before.queue,
                before.counts,
                before.phase,
                events[k],
            )
            &&& complete_returned(start, regions, events.take(k + 1)) == complete_returned(
                start,
                regions,
                events.take(k),
            ) + if before.phase is AddingUsed && events[k] == CompleteEvent::Done(true) {
                1nat
            } else {
                0
            }
        }),
    decreases events.len(),
{
    if k == events.len() - 1 {
        assert(events.take(k) =~= events.drop_last());
        assert(events.take(k + 1) =~= events);
    } else {
        lemma_complete_step(start, regions, events.drop_last(), k);
        assert(events.drop_last().take(k) =~= events.take(k));
        assert(events.drop_last().take(k + 1) =~= events.take(k + 1));
    }
}

/// A request that has its status is returned to the guest, exactly once, and is then no longer
/// active: all that it takes is that the status, the ring of used chains and the notification
/// can be written.
pub proof fn law_answered_request_is_returned(
    start: CompleteProgress,
    regions: Map<u64, u64>,
    events: Seq<CompleteEvent>,
)
    requires
        complete_run(start, regions, events),
        !complete_on_queue(complete_after(start, regions, events).phase),
        start.phase matches CompletePhase::WritingStatus(head, addr, _, _) && in_regions(
            regions,
            addr,
            1,
        ) && start.ring.used_fits(regions, head),
        start.ring.notification_fits(regions),
    ensures
        complete_after(start, regions, events) == (CompleteProgress {
            queue: released(start.queue),
            counts: start.counts,
            ring: VirtqueueView { next_used: next_position(start.ring.next_used), ..start.ring },
            phase: CompletePhase::Polling,
        }),
        complete_returned(start, regions, events) == 1,
{
    assert(events.take(0) =~= Seq::<CompleteEvent>::empty());
    assert(events.take(events.len() as int) =~= events);
    assert(events.len() > 0);
    lemma_complete_step(start, regions, events, 0);
    assert(events.len() > 1);
    lemma_complete_step(start, regions, events, 1);
    assert(events.len() > 2);
    lemma_complete_step(start, regions, events, 2);
    if events.len() > 3 {
        lemma_complete_step(start, regions, events, 3);
    }
}

/// How far a phase is from one that needs something else.
spec fn complete_rank(phase: CompletePhase) -> int {
    match phase {
        CompletePhase::WritingStatus(_, _, _, _) => 3,
        CompletePhase::AddingUsed(_, _) => 2,
        CompletePhase::EnablingNotification => 1,
        _ => 0,
    }
}

impl CompletePhase {
    /// Whether this phase needs nothing but the virtqueue and guest memory.
    pub fn is_on_queue(&self) -> (result: bool)
        ensures
            result == complete_on_queue(*self),
    {
        match self {
            CompletePhase::WritingStatus(_, _, _, _)
            | CompletePhase::AddingUsed(_, _)
            | CompletePhase::EnablingNotification => true,
            _ => false,
        }
    }

    /// Performs the action of a phase on the virtqueue or guest memory.
    fn perform(&self, memory: &GuestMemoryMmap<AtomicBitmap>, queue: &mut Queue) -> (event:
        CompleteEvent)
        requires
            complete_on_queue(*self),
        ensures
            complete_queue_answers(guest_regions(*memory), virtqueue(*old(queue)), *self, event),
            virtqueue(*final(queue)) == complete_ring_next(
                guest_regions(*memory),
                virtqueue(*old(queue)),
                *self,
            ),
    {
        match self.action() {
            CompleteAction::WriteStatus(addr, status) => CompleteEvent::Done(
                write_status(memory, addr, status),
            ),
            CompleteAction::AddUsed(head, len) => CompleteEvent::Done(
                add_used(queue, memory, head, len).is_ok(),
            ),
            _ => CompleteEvent::Done(enable_notification(queue, memory).is_ok()),
        }
    }
}

impl BlockEpollHandler {
    /// Goes on with a completion run as long as nothing but the virtqueue and guest memory is
    /// needed, which is while a request is returned to the guest.
    pub fn process_queue_complete(
        &mut self,
        memory: &GuestMemoryMmap<AtomicBitmap>,
        queue: &mut Queue,
        counts: &mut CompletionCounts,
        phase: CompletePhase,
    ) -> (next: CompletePhase)
        requires
            complete_state(old(self)@, phase),
        ensures
            final(self).spec_config() == old(self).spec_config(),
            ({
                let regions = guest_regions(*memory);
                let start = CompleteProgress {
                    queue: old(self)@,
                    counts: *old(counts),
                    ring: virtqueue(*old(queue)),
                    phase,
                };
                let end = CompleteProgress {
                    queue: final(self)@,
                    counts: *final(counts),
                    ring: virtqueue(*final(queue)),
                    phase: next,
                };
                exists|events: Seq<CompleteEvent>|
                    #![trigger complete_run(start, regions, events)]
                    {
                        &&& complete_run(start, regions, events)
                        &&& end == complete_after(start, regions, events)
                        &&& next == CompletePhase::Finished(Err(QueueError::QueueAddUsed))
                            || end.ring.next_used == advanced(
                            start.ring.next_used,
                            complete_returned(start, regions, events),
                        )
                    }
            }),
            !complete_on_queue(next),
            complete_state(final(self)@, next),
    {
        let ghost regions = guest_regions(*memory);
        let ghost config = self.spec_config();
        let ghost start = CompleteProgress {
            queue: self@,
            counts: *counts,
            ring: virtqueue(*queue),
            phase,
        };
        let ghost mut events: Seq<CompleteEvent> = Seq::empty();
        let mut phase: CompletePhase = phase;
        while phase.is_on_queue()
            invariant
                self.spec_config() == config,
                complete_state(self@, phase),
                complete_run(start, regions, events),
                (CompleteProgress {
                    queue: self@,
                    counts: *counts,
                    ring: virtqueue(*queue),
                    phase,
                }) == complete_after(start, regions, events),
                regions == guest_regions(*memory),
            decreases complete_rank(phase),
        {
            let ghost before = events;
            let event: CompleteEvent = phase.perform(memory, queue);
            proof {
                events = before.push(event);
                assert(events.drop_last() =~= before);
            }
            phase = self.advance_complete(counts, phase, event);
        }
        proof {
            law_returned_chains_are_counted(start, regions, events);
        }
        phase
    }
}

/// A completion takes exactly the request that it names out of the requests in flight, and
/// it is that request which is then returned to the guest.
pub proof fn law_completion_takes_one_request(
    q: QueueState,
    counts: CompletionCounts,
    user_data: u64,
    result: i32,
    head: u16,
)
    requires
        q.idle(),
        has_head(q.inflight, user_data as u16),
    ensures
        ({
            let (after, _, next) = complete_next(
                q,
                counts,
                CompletePhase::Polling,
                CompleteEvent::Completion(Some((user_data, result))),
            );
            &&& next matches CompletePhase::Completing(h, request, r) && h == user_data as u16 && r
                == result && q.inflight.contains((h, request))
            &&& after.inflight.len() == q.inflight.len() - 1
            &&& has_head(after.inflight, head) == (has_head(q.inflight, head) && head
                != user_data as u16)
        }),
{
    let taken = user_data as u16;
    let i = position(q.inflight, taken);
    assert(0 <= i < q.inflight.len() && q.inflight[i].0 == taken);
    assert(q.inflight[i] == (taken, q.inflight[i].1));
    let after = swap_removed(q.inflight, i);
    assert forall|k: int| 0 <= k < after.len() implies #[trigger] after[k] == (if k + 1 == i {
        q.inflight[0]
    } else {
        q.inflight[k + 1]
    }) by {}
    if has_head(q.inflight, head) && head != taken {
        let j = choose|j: int| 0 <= j < q.inflight.len() && (#[trigger] q.inflight[j]).0 == head;
        if j == 0 {
            assert(after[i - 1].0 == head);
        } else {
            assert(after[j - 1].0 == head);
        }
    }
    if has_head(after, head) {
        let k = choose|k: int| 0 <= k < after.len() && (#[trigger] after[k]).0 == head;
        if k + 1 == i {
            assert(q.inflight[0].0 == head);
        } else {
            assert(q.inflight[k + 1].0 == head);
        }
    }
}

/// From the second latency on, an average moves towards a latency by its share of the difference,
/// rounded towards the old average. The first latency is the average.
pub proof fn law_average_moves_by_share(average: u64, latency: u64, ops: u64)
    requires
        ops > 0,
    ensures
        average == u64::MAX ==> next_average(average, latency, ops) == latency * 10000,
        average != u64::MAX && latency * 10000 >= average ==> {
            let step = next_average(average, latency, ops) - average;
            ops * step <= latency * 10000 - average < ops * (step + 1)
        },
        average != u64::MAX && latency * 10000 < average ==> {
            let step = average - next_average(average, latency, ops);
            ops * step <= average - latency * 10000 < ops * (step + 1)
        },
{
    let scaled = latency * LATENCY_SCALE;
    let difference = if scaled >= average {
        scaled - average
    } else {
        average - scaled
    };
    let step = difference / ops as int;
    vstd::arithmetic::div_mod::lemma_fundamental_div_mod(difference, ops as int);
    assert(ops * step <= difference < ops * (step + 1)) by (nonlinear_arith)
        requires
            difference == ops * step + difference % ops as int,
            0 <= difference % (ops as int) < ops,
    ;
}

/// A latency is recorded: the smallest and the largest one are kept, where the largest number
/// stands for none, and nothing is counted.
pub proof fn law_latency_is_recorded(counters: IoCounters, latency: u64, ops: u64)
    ensures
        ({
            let after = counters.after_latency(latency, ops);
            &&& after.latency_min <= latency && after.latency_min <= counters.latency_min
            &&& after.latency_min == latency || after.latency_min == counters.latency_min
            &&& counters.latency_max == u64::MAX ==> after.latency_max == latency
            &&& counters.latency_max != u64::MAX ==> after.latency_max >= latency
                && after.latency_max >= counters.latency_max && (after.latency_max == latency
                || after.latency_max == counters.latency_max)
            &&& after.bytes == counters.bytes && after.ops == counters.ops
        }),
{
}

/// A request that has succeeded is counted where it belongs: a read adds one operation and the
/// bytes of all its buffers to the reads, a write to the writes, and anything else to neither.
/// A write of a device without a write cache is counted once the disk has been synchronized.
pub proof fn law_request_is_counted_once(
    q: QueueState,
    counts: CompletionCounts,
    phase: CompletePhase,
    event: CompleteEvent,
)
    requires
        complete_answers(phase, event),
        !(phase is Polling),
        counts.read.ops < u64::MAX,
        counts.write.ops < u64::MAX,
    ensures
        ({
            let after = complete_next(q, counts, phase, event).1;
            let read = phase matches CompletePhase::Completing(_, request, result) && result >= 0
                && request.request_type is In && (event matches CompleteEvent::Completed(Ok(_)));
            let written = (phase matches CompletePhase::Completing(_, request, result) && result
                >= 0 && request.request_type is Out && request.writeback && (event matches
                CompleteEvent::Completed(Ok(_)))) || (phase is Syncing && event
                == CompleteEvent::Done(true));
            &&& !read ==> after.read == counts.read && after.counters.read == counts.counters.read
            &&& !written ==> after.write == counts.write && after.counters.write
                == counts.counters.write
            &&& read ==> after.read.ops == counts.read.ops + 1
            &&& written ==> after.write.ops == counts.write.ops + 1
            &&& read && phase is Completing ==> {
                let len = total_len(phase->Completing_1.data_descriptors@);
                len + counts.read.bytes <= u64::MAX ==> after.read.bytes == counts.read.bytes + len
            }
            &&& written && phase is Completing ==> {
                let len = total_len(phase->Completing_1.data_descriptors@);
                len + counts.write.bytes <= u64::MAX ==> after.write.bytes == counts.write.bytes
                    + len
            }
            &&& written && phase is Syncing ==> {
                let len = total_len(phase->Syncing_1.data_descriptors@);
                len + counts.write.bytes <= u64::MAX ==> after.write.bytes == counts.write.bytes
                    + len
            }
            &&& after.counters.read.ops == counts.counters.read.ops && after.counters.read.bytes
                == counts.counters.read.bytes
            &&& after.counters.write.ops == counts.counters.write.ops && after.counters.write.bytes
                == counts.counters.write.bytes
        }),
{
    if let CompletePhase::Completing(_, request, _) = phase {
        lemma_total_len_nonneg(request.data_descriptors@);
        if total_len(request.data_descriptors@) <= u64::MAX {
            law_buffer_lengths_add_up(request.data_descriptors@, Seq::empty(), (0, 0));
        }
    }
    if let CompletePhase::Syncing(_, request, _) = phase {
        lemma_total_len_nonneg(request.data_descriptors@);
        if total_len(request.data_descriptors@) <= u64::MAX {
            law_buffer_lengths_add_up(request.data_descriptors@, Seq::empty(), (0, 0));
        }
    }
}

/// At the end of a run its totals are added to the counters of the device, reads to reads and
/// writes to writes. Latencies stay as they are.
pub proof fn law_totals_are_added(q: QueueState, counts: CompletionCounts)
    requires
        counts.counters.read.ops + counts.read.ops <= u64::MAX,
        counts.counters.read.bytes + counts.read.bytes <= u64::MAX,
        counts.counters.write.ops + counts.write.ops <= u64::MAX,
        counts.counters.write.bytes + counts.write.bytes <= u64::MAX,
    ensures
        ({
            let (after, counted, next) = complete_next(
                q,
                counts,
                CompletePhase::Polling,
                CompleteEvent::Completion(None),
            );
            let (before, read, write) = (
                counts.counters,
                counted.counters.read,
                counted.counters.write,
            );
            &&& next == CompletePhase::Finished(Ok(())) && after == q
            &&& read.ops == before.read.ops + counts.read.ops
            &&& read.bytes == before.read.bytes + counts.read.bytes
            &&& write.ops == before.write.ops + counts.write.ops
            &&& write.bytes == before.write.bytes + counts.write.bytes
            &&& read.latency_min == before.read.latency_min && read.latency_max
                == before.read.latency_max && read.latency_avg == before.read.latency_avg
            &&& write.latency_min == before.write.latency_min && write.latency_max
                == before.write.latency_max && write.latency_avg == before.write.latency_avg
        }),
{
}

/// A request that the disk has completed is answered: with the status for success, and with the
/// length of the data that was read and of the status byte. Any other request than a read wrote
/// nothing but the status byte.
pub proof fn law_completed_request_is_answered(
    q: QueueState,
    counts: CompletionCounts,
    head: u16,
    request: Request,
    result: i32,
    latency: u64,
)
    requires
        result >= 0,
        !(request.request_type is Out) || request.writeback,
    ensures
        ({
            let (after, counted, next) = complete_next(
                q,
                counts,
                CompletePhase::Completing(head, request, result),
                CompleteEvent::Completed(Ok(latency)),
            );
            let (returned, _, then_next) = complete_next(
                after,
                counted,
                next,
                CompleteEvent::Done(true),
            );
            &&& after == q && returned == q
            &&& complete_action(next) == CompleteAction::WriteStatus(
                request.status_addr,
                VIRTIO_BLK_S_OK as u8,
            )
            &&& complete_action(then_next) == CompleteAction::AddUsed(
                head,
                if request.request_type is In {
                    (result + 1) as u32
                } else {
                    1
                },
            )
        }),
{
}

/// Without a write cache, a write is answered only after the disk has been synchronized. If that
/// fails, it is not answered.
pub proof fn law_write_is_synchronized_first(
    q: QueueState,
    counts: CompletionCounts,
    head: u16,
    request: Request,
    result: i32,
    latency: u64,
    ok: bool,
)
    requires
        result >= 0,
        request.request_type is Out,
        !request.writeback,
    ensures
        ({
            let (after, counted, next) = complete_next(
                q,
                counts,
                CompletePhase::Completing(head, request, result),
                CompleteEvent::Completed(Ok(latency)),
            );
            let (synced, _, then_next) = complete_next(
                after,
                counted,
                next,
                CompleteEvent::Done(ok),
            );
            &&& after == q && counted == counts
            &&& complete_action(next) == CompleteAction::Fsync
            &&& ok ==> synced == q && then_next == CompletePhase::WritingStatus(
                head,
                request.status_addr,
                VIRTIO_BLK_S_OK as u8,
                1,
            )
            &&& !ok ==> then_next == CompletePhase::Finished(Err(QueueError::Fsync)) && synced.active
                == q.active - 1
        }),
{
}

/// A run fails for the reason of the step that failed. The request that it has worked on is then
/// no longer active, and those in flight stay there.
pub proof fn law_failed_step_ends_run(
    q: QueueState,
    counts: CompletionCounts,
    phase: CompletePhase,
    event: CompleteEvent,
    error: QueueError,
)
    requires
        complete_answers(phase, event),
    ensures
        ({
            let (after, counted, next) = complete_next(q, counts, phase, event);
            let failed = next == CompletePhase::Finished(Err(error));
            &&& failed ==> counted == counts && after.inflight == q.inflight && after.active
                == q.active - if phase is Polling {
                0int
            } else {
                1
            }
            &&& failed <==> match error {
                QueueError::MissingEntryRequestList => phase is Polling && (event matches
                    CompleteEvent::Completion(Some((user_data, _))) && !has_head(
                    q.inflight,
                    user_data as u16,
                )),
                QueueError::RequestCompleting => phase is Completing && (event matches
                    CompleteEvent::Completed(Err(_))),
                QueueError::Fsync => phase is Syncing && event == CompleteEvent::Done(false),
                QueueError::RequestStatus => phase is WritingStatus && event
                    == CompleteEvent::Done(false),
                QueueError::QueueAddUsed => phase is AddingUsed && event == CompleteEvent::Done(
                    false,
                ),
                QueueError::QueueEnableNotification => phase is EnablingNotification && event
                    == CompleteEvent::Done(false),
                _ => false,
            }
        }),
{
}

/// A request that the disk failed never changes the counters, and is answered with the
/// I/O error status and a length of one byte.
pub proof fn law_failed_request_is_answered(
    q: QueueState,
    counts: CompletionCounts,
    head: u16,
    request: Request,
    result: i32,
    latency: u64,
)
    requires
        result < 0,
    ensures
        complete_next(
            q,
            counts,
            CompletePhase::Completing(head, request, result),
            CompleteEvent::Completed(Ok(latency)),
        ) == (
            q,
            counts,
            CompletePhase::WritingStatus(
                head,
                request.status_addr,
                VIRTIO_BLK_S_IOERR as u8,
                1,
            ),
        ),
{
}

} // verus!
