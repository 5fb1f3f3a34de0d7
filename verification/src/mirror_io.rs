//! The per-virtqueue backend of an active block mirror.
//!
//! Reads use the source backend. Mutating requests use both the source and destination
//! backends. If the destination backend fails, all subsequent disk operations are passed
//! through to the source backend.
//!
//! An operation is a sequence of phases, each of which needs one action on one of the
//! backends. The answer to that action decides the next phase.

use std::collections::VecDeque;
use std::sync::Arc;

use vstd::prelude::*;

use crate::mirror::{holds_byte, law_lock_takes_exactly_free_bytes, lemma_sum_lens_grows,
    lock_result, phase_after, ranges_after_lock, ranges_disjoint, sum_lens, MirrorFailure,
    MirrorPhase, MirrorState, MirrorView, RangeError};

verus! {

/// Input/output error.
pub const EIO: i32 = 5;

/// A disk operation.
#[derive(Debug)]
pub enum MirrorOp {
    /// Read into buffers.
    ReadVectored,
    /// Write buffers with these lengths to an offset.
    WriteVectored(i64, Vec<usize>),
    /// Flush the write cache.
    Fsync,
    /// Deallocate a range, given by its offset and length.
    PunchHole(u64, u64),
    /// Fill a range with zeroes, given by its offset and length.
    WriteZeroes(u64, u64),
}

/// The kind of an operation that is mirrored.
#[derive(Clone, Copy, Debug, PartialEq, Eq, Structural)]
pub enum OpKind {
    WriteVectored,
    Fsync,
    PunchHole,
    WriteZeroes,
}

/// Why an operation failed before or beside the backends.
#[derive(Clone, Copy, Debug, PartialEq, Eq, Structural)]
pub enum OpFault {
    /// The write is too large.
    TooLarge,
    /// The range cannot be locked.
    Range(RangeError),
    /// Waiting for the source failed.
    Wait,
}

/// Why an operation failed.
#[derive(Clone, Copy, Debug, PartialEq, Eq, Structural)]
pub enum AsyncIoError {
    /// The source backend did not take the operation; its own error is handed on.
    Source,
    /// An operation of this kind failed for this reason.
    Op(OpKind, OpFault),
}

/// What is known about an operation that is being mirrored.
#[derive(Clone, Copy, Debug, PartialEq, Eq)]
pub struct OpContext {
    /// The kind of the operation.
    pub kind: OpKind,
    /// The request that waits for a completion, if there is one.
    pub user_data: Option<u64>,
    /// The result of the backends if all goes well.
    pub expected: i32,
    /// Offset and length of the range that is locked during the operation.
    pub range: Option<(u64, u64)>,
}

/// How far an operation has come.
#[derive(Clone, Copy, Debug, PartialEq, Eq)]
pub enum MirrorIoPhase {
    /// Handing the operation to the source alone.
    Passthrough,
    /// Waiting until the range can be locked.
    Locking(OpContext),
    /// Handing the operation to the source.
    SubmittingSource(OpContext),
    /// Handing the operation to the destination.
    SubmittingDestination(OpContext),
    /// Waiting for a completion of the source.
    AwaitingSource(OpContext),
    /// Waiting for a completion of the destination, given the result of the source.
    AwaitingDestination(OpContext, i32),
    /// Waking the virtqueue worker.
    Notifying(OpContext),
    /// The operation has ended.
    Finished(Result<(), AsyncIoError>),
}

/// The answer to the action of a phase.
#[derive(Clone, Copy, Debug, PartialEq, Eq)]
pub enum MirrorIoEvent {
    /// Whether the backend took the operation, or the worker could be woken.
    Done(bool),
    /// A range was released.
    Released,
    /// A completion as user data and result, or the failure to wait for one.
    Completion(Result<(u64, i32), ()>),
}

/// What the backend of one virtqueue holds.
#[verifier::ext_equal]
pub struct MirrorIoView {
    /// Completions that wait to be delivered.
    pub completions: Seq<(u64, i32)>,
    /// Whether only the source is used.
    pub passthrough: bool,
}

/// Backend of one virtqueue for an active block mirror.
#[derive(Debug)]
pub struct MirroringAsyncIo {
    /// Queued completions `(user_data, result)`. The result is the number of bytes
    /// transferred or a negative errno.
    inflight_completions: VecDeque<(u64, i32)>,
    /// Set once this virtqueue worker observes a failure. While true, the worker forwards
    /// only to the source and ignores the destination.
    source_passthrough: bool,
}

impl View for MirroringAsyncIo {
    type V = MirrorIoView;

    closed spec fn view(&self) -> MirrorIoView {
        MirrorIoView {
            completions: self.inflight_completions@,
            passthrough: self.source_passthrough,
        }
    }
}

/// `event` is an answer to what `phase` asks for.
pub open spec fn io_answers(phase: MirrorIoPhase, event: MirrorIoEvent) -> bool {
    match phase {
        MirrorIoPhase::Locking(_) => event is Released,
        MirrorIoPhase::AwaitingSource(_) | MirrorIoPhase::AwaitingDestination(_, _) => event
            is Completion,
        MirrorIoPhase::Finished(_) => false,
        _ => event is Done,
    }
}

/// The mirror can record a failure.
pub open spec fn may_fail(phase: MirrorPhase) -> bool {
    phase is Running || phase is Ready || phase is Failed
}

/// A step records a failure: the destination does not take the operation, waiting for it fails,
/// or one of the backends completes with an unexpected result.
pub open spec fn io_fails(io: MirrorIoView, phase: MirrorIoPhase, event: MirrorIoEvent) -> bool {
    match (phase, event) {
        (MirrorIoPhase::SubmittingDestination(_), MirrorIoEvent::Done(ok)) => !ok,
        (
            MirrorIoPhase::AwaitingSource(ctx),
            MirrorIoEvent::Completion(Ok((id, result))),
        ) => io.passthrough && Some(id) == ctx.user_data && result != ctx.expected,
        (
            MirrorIoPhase::AwaitingDestination(ctx, source_result),
            MirrorIoEvent::Completion(completion),
        ) => match completion {
            Ok((id, result)) => Some(id) == ctx.user_data && (result != ctx.expected
                || source_result != ctx.expected),
            Err(_) => true,
        },
        _ => false,
    }
}

/// The mirror fails for this reason, and the backend goes over to the source alone.
pub open spec fn failed(io: MirrorIoView, mirror: MirrorView, failure: MirrorFailure) -> (
    MirrorIoView,
    MirrorView,
) {
    (
        MirrorIoView { passthrough: true, ..io },
        MirrorView {
            phase: phase_after(mirror.phase, MirrorPhase::Failed(Arc::new(failure))),
            ..mirror
        },
    )
}

/// The mirror without the range of an operation.
pub open spec fn unlocked(mirror: MirrorView, ctx: OpContext) -> MirrorView {
    match ctx.range {
        Some((offset, _)) => MirrorView { ranges: mirror.ranges.remove(offset), ..mirror },
        None => mirror,
    }
}

/// The context of an operation: its kind, the expected result and the range to lock.
pub open spec fn op_context(op: MirrorOp, user_data: Option<u64>) -> OpContext {
    match op {
        MirrorOp::WriteVectored(offset, lens) => OpContext {
            kind: OpKind::WriteVectored,
            user_data,
            expected: sum_lens(lens@) as i32,
            range: Some((offset as u64, sum_lens(lens@) as u64)),
        },
        MirrorOp::PunchHole(offset, length) => OpContext {
            kind: OpKind::PunchHole,
            user_data,
            expected: 0,
            range: Some((offset, length)),
        },
        MirrorOp::WriteZeroes(offset, length) => OpContext {
            kind: OpKind::WriteZeroes,
            user_data,
            expected: 0,
            range: Some((offset, length)),
        },
        _ => OpContext { kind: OpKind::Fsync, user_data, expected: 0, range: None },
    }
}

/// An attempt to lock the range of an operation.
pub open spec fn try_lock(mirror: MirrorView, ctx: OpContext) -> (MirrorView, MirrorIoPhase) {
    match ctx.range {
        None => (mirror, MirrorIoPhase::SubmittingSource(ctx)),
        Some((offset, length)) => match lock_result(mirror.ranges, offset, length as int) {
            Err(e) => (
                mirror,
                MirrorIoPhase::Finished(Err(AsyncIoError::Op(ctx.kind, OpFault::Range(e)))),
            ),
            Ok(false) => (mirror, MirrorIoPhase::Locking(ctx)),
            Ok(true) => (
                MirrorView {
                    ranges: ranges_after_lock(mirror.ranges, offset, length as int),
                    ..mirror
                },
                MirrorIoPhase::SubmittingSource(ctx),
            ),
        },
    }
}

/// The phase in which an operation starts. Reads, and everything once the mirror has
/// failed, go to the source alone.
pub open spec fn io_start(
    io: MirrorIoView,
    mirror: MirrorView,
    op: MirrorOp,
    user_data: Option<u64>,
) -> (MirrorView, MirrorIoPhase) {
    if io.passthrough || op is ReadVectored {
        (mirror, MirrorIoPhase::Passthrough)
    } else if op matches MirrorOp::WriteVectored(_, lens) && sum_lens(lens@) > i32::MAX {
        (
            mirror,
            MirrorIoPhase::Finished(
                Err(AsyncIoError::Op(OpKind::WriteVectored, OpFault::TooLarge)),
            ),
        )
    } else {
        try_lock(mirror, op_context(op, user_data))
    }
}

/// Once both completions are in, the guest gets the result of the source. An unexpected
/// one fails the mirror.
pub open spec fn conclude(
    io: MirrorIoView,
    mirror: MirrorView,
    ctx: OpContext,
    source_result: i32,
) -> (MirrorIoView, MirrorView, MirrorIoPhase) {
    let user_data = ctx.user_data->Some_0;
    let (io, mirror) = if source_result != ctx.expected {
        failed(
            io,
            mirror,
            MirrorFailure::SourceCompletion {
                user_data,
                actual: source_result,
                expected: ctx.expected,
            },
        )
    } else {
        (io, mirror)
    };
    (
        MirrorIoView { completions: io.completions.push((user_data, source_result)), ..io },
        mirror,
        MirrorIoPhase::Notifying(ctx),
    )
}

/// The operation was handed to the backends. One that is tracked waits for its
/// completions; a barrier does not.
pub open spec fn submitted(mirror: MirrorView, ctx: OpContext) -> (MirrorView, MirrorIoPhase) {
    if ctx.user_data is Some {
        (mirror, MirrorIoPhase::AwaitingSource(ctx))
    } else {
        (unlocked(mirror, ctx), MirrorIoPhase::Finished(Ok(())))
    }
}

/// What follows a phase on an answer.
pub open spec fn io_next(
    io: MirrorIoView,
    mirror: MirrorView,
    phase: MirrorIoPhase,
    event: MirrorIoEvent,
) -> (MirrorIoView, MirrorView, MirrorIoPhase) {
    match (phase, event) {
        (MirrorIoPhase::Passthrough, MirrorIoEvent::Done(ok)) => (
            io,
            mirror,
            MirrorIoPhase::Finished(
                if ok {
                    Ok(())
                } else {
                    Err(AsyncIoError::Source)
                },
            ),
        ),
        (MirrorIoPhase::Locking(ctx), _) => {
            let (mirror, next) = try_lock(mirror, ctx);
            (io, mirror, next)
        },
        // A source submission error is returned to the guest.
        (MirrorIoPhase::SubmittingSource(ctx), MirrorIoEvent::Done(ok)) => if ok {
            (io, mirror, MirrorIoPhase::SubmittingDestination(ctx))
        } else {
            (io, unlocked(mirror, ctx), MirrorIoPhase::Finished(Err(AsyncIoError::Source)))
        },
        // A destination submission error fails the mirror but is not returned, because
        // the source is the disk visible to the guest.
        (MirrorIoPhase::SubmittingDestination(ctx), MirrorIoEvent::Done(ok)) => {
            let (io, mirror) = if ok {
                (io, mirror)
            } else {
                failed(io, mirror, MirrorFailure::DestinationSubmit)
            };
            let (mirror, next) = submitted(mirror, ctx);
            (io, mirror, next)
        },
        (
            MirrorIoPhase::AwaitingSource(ctx),
            MirrorIoEvent::Completion(completion),
        ) => match completion {
            Err(_) => (
                io,
                unlocked(mirror, ctx),
                MirrorIoPhase::Finished(Err(AsyncIoError::Op(ctx.kind, OpFault::Wait))),
            ),
            Ok((id, result)) => if Some(id) != ctx.user_data {
                (
                    MirrorIoView { completions: io.completions.push((id, result)), ..io },
                    mirror,
                    phase,
                )
            } else if io.passthrough {
                conclude(io, mirror, ctx, result)
            } else {
                (io, mirror, MirrorIoPhase::AwaitingDestination(ctx, result))
            },
        },
        (
            MirrorIoPhase::AwaitingDestination(ctx, source_result),
            MirrorIoEvent::Completion(completion),
        ) => match completion {
            // The destination wait itself failed. It is hidden from the guest like any
            // other destination failure.
            Err(_) => {
                let (io, mirror) = failed(
                    io,
                    mirror,
                    MirrorFailure::DestinationWait { user_data: ctx.user_data->Some_0 },
                );
                conclude(io, mirror, ctx, source_result)
            },
            Ok((id, result)) => if Some(id) != ctx.user_data {
                (
                    MirrorIoView { completions: io.completions.push((id, result)), ..io },
                    mirror,
                    phase,
                )
            } else if result != ctx.expected {
                let (io, mirror) = failed(
                    io,
                    mirror,
                    MirrorFailure::DestinationCompletion {
                        user_data: id,
                        actual: result,
                        expected: ctx.expected,
                    },
                );
                conclude(io, mirror, ctx, source_result)
            } else {
                conclude(io, mirror, ctx, source_result)
            },
        },
        (MirrorIoPhase::Notifying(ctx), _) => (
            io,
            unlocked(mirror, ctx),
            MirrorIoPhase::Finished(Ok(())),
        ),
        _ => (io, mirror, phase),
    }
}

/// A phase that waits for completions has a request to wait for.
pub open spec fn tracked_phase(phase: MirrorIoPhase) -> bool {
    match phase {
        MirrorIoPhase::AwaitingSource(ctx)
        | MirrorIoPhase::AwaitingDestination(ctx, _)
        | MirrorIoPhase::Notifying(ctx) => ctx.user_data is Some,
        _ => true,
    }
}

/// The range of an operation is locked while it is with the backends.
pub open spec fn holds_range(mirror: MirrorView, phase: MirrorIoPhase) -> bool {
    match phase {
        MirrorIoPhase::SubmittingSource(ctx)
        | MirrorIoPhase::SubmittingDestination(ctx)
        | MirrorIoPhase::AwaitingSource(ctx)
        | MirrorIoPhase::AwaitingDestination(ctx, _)
        | MirrorIoPhase::Notifying(ctx) => match ctx.range {
            Some((offset, length)) => mirror.ranges.contains_key(offset) && mirror.ranges[offset]
                == offset + length,
            None => true,
        },
        _ => true,
    }
}

impl MirroringAsyncIo {
    /// Creates a mirroring backend for one virtqueue.
    pub fn create() -> (io: Self)
        ensures
            io@ == (MirrorIoView { completions: Seq::empty(), passthrough: false }),
    {
        MirroringAsyncIo { inflight_completions: VecDeque::new(), source_passthrough: false }
    }

    /// Whether only the source is used.
    pub fn source_passthrough(&self) -> (passthrough: bool)
        ensures
            passthrough == self@.passthrough,
    {
        self.source_passthrough
    }

    /// Flips the mirror to the `Failed` phase.
    ///
    /// The operator must cancel to clean up the destination and the copy worker.
    fn fail(&mut self, state: &mut MirrorState, failure: MirrorFailure)
        requires
            old(state).wf(),
            may_fail(old(state)@.phase),
        ensures
            final(state).wf(),
            (final(self)@, final(state)@) == failed(old(self)@, old(state)@, failure),
    {
        // The phase fails the mirror globally, passthrough is per worker, so other queues
        // fail independently.
        let _event = state.transition_to_phase(MirrorPhase::Failed(Arc::new(failure)));
        self.source_passthrough = true;
    }

    /// Whether a step records a failure, which the mirror can only do in some of its phases.
    pub fn records_failure(&self, phase: &MirrorIoPhase, event: &MirrorIoEvent) -> (fails: bool)
        ensures
            fails == io_fails(self@, *phase, *event),
    {
        match (*phase, *event) {
            (MirrorIoPhase::SubmittingDestination(_), MirrorIoEvent::Done(ok)) => !ok,
            (
                MirrorIoPhase::AwaitingSource(ctx),
                MirrorIoEvent::Completion(Ok((id, result))),
            ) => match ctx.user_data {
                Some(user_data) => self.source_passthrough && id == user_data && result
                    != ctx.expected,
                None => false,
            },
            (
                MirrorIoPhase::AwaitingDestination(ctx, source_result),
                MirrorIoEvent::Completion(completion),
            ) => match (completion, ctx.user_data) {
                (Ok((id, result)), Some(user_data)) => id == user_data && (result != ctx.expected
                    || source_result != ctx.expected),
                (Ok(_), None) => false,
                (Err(_), _) => true,
            },
            _ => false,
        }
    }

    fn release(state: &mut MirrorState, ctx: &OpContext)
        requires
            old(state).wf(),
        ensures
            final(state).wf(),
            final(state)@ == unlocked(old(state)@, *ctx),
    {
        if let Some((offset, _)) = ctx.range {
            state.release_range(offset);
        }
    }

    fn acquire(state: &mut MirrorState, ctx: OpContext) -> (phase: MirrorIoPhase)
        requires
            old(state).wf(),
        ensures
            final(state).wf(),
            (final(state)@, phase) == try_lock(old(state)@, ctx),
    {
        match ctx.range {
            None => MirrorIoPhase::SubmittingSource(ctx),
            Some((offset, length)) => match state.lock_range(offset, length) {
                Err(e) => MirrorIoPhase::Finished(
                    Err(AsyncIoError::Op(ctx.kind, OpFault::Range(e))),
                ),
                Ok(false) => MirrorIoPhase::Locking(ctx),
                Ok(true) => MirrorIoPhase::SubmittingSource(ctx),
            },
        }
    }

    /// Starts an operation. Its user data is that of the request, if it has one.
    pub fn begin(&self, state: &mut MirrorState, op: &MirrorOp, user_data: Option<u64>) -> (phase:
        MirrorIoPhase)
        requires
            old(state).wf(),
            op matches MirrorOp::WriteVectored(_, lens) ==> sum_lens(lens@) <= usize::MAX,
        ensures
            final(state).wf(),
            (final(state)@, phase) == io_start(self@, old(state)@, *op, user_data),
            tracked_phase(phase),
    {
        if self.source_passthrough {
            return MirrorIoPhase::Passthrough;
        }
        let ctx: OpContext = match op {
            MirrorOp::ReadVectored => return MirrorIoPhase::Passthrough,
            MirrorOp::WriteVectored(offset, lens) => {
                let mut total: usize = 0;
                let mut i: usize = 0;
                while i < lens.len()
                    invariant
                        i <= lens@.len(),
                        sum_lens(lens@) <= usize::MAX,
                        total == sum_lens(lens@.take(i as int)),
                    decreases lens@.len() - i,
                {
                    proof {
                        assert(lens@.take(i + 1).drop_last() =~= lens@.take(i as int));
                        lemma_sum_lens_grows(lens@, i + 1);
                    }
                    total = total + lens[i];
                    i = i + 1;
                }
                assert(lens@.take(i as int) =~= lens@);
                if total > i32::MAX as usize {
                    return MirrorIoPhase::Finished(
                        Err(AsyncIoError::Op(OpKind::WriteVectored, OpFault::TooLarge)),
                    );
                }
                OpContext {
                    kind: OpKind::WriteVectored,
                    user_data,
                    expected: total as i32,
                    range: Some((*offset as u64, total as u64)),
                }
            },
            MirrorOp::Fsync => OpContext {
                kind: OpKind::Fsync,
                user_data,
                expected: 0,
                range: None,
            },
            MirrorOp::PunchHole(offset, length) => OpContext {
                kind: OpKind::PunchHole,
                user_data,
                expected: 0,
                range: Some((*offset, *length)),
            },
            MirrorOp::WriteZeroes(offset, length) => OpContext {
                kind: OpKind::WriteZeroes,
                user_data,
                expected: 0,
                range: Some((*offset, *length)),
            },
        };
        Self::acquire(state, ctx)
    }

    fn conclude_op(
        &mut self,
        state: &mut MirrorState,
        ctx: OpContext,
        user_data: u64,
        source_result: i32,
    ) -> (phase: MirrorIoPhase)
        requires
            old(state).wf(),
            source_result != ctx.expected ==> may_fail(old(state)@.phase),
            ctx.user_data == Some(user_data),
        ensures
            final(state).wf(),
            (final(self)@, final(state)@, phase) == conclude(
                old(self)@,
                old(state)@,
                ctx,
                source_result,
            ),
            tracked_phase(phase),
    {
        if source_result != ctx.expected {
            self.fail(
                state,
                MirrorFailure::SourceCompletion {
                    user_data,
                    actual: source_result,
                    expected: ctx.expected,
                },
            );
        }
        self.inflight_completions.push_back((user_data, source_result));
        MirrorIoPhase::Notifying(ctx)
    }

    fn source_completed(
        &mut self,
        state: &mut MirrorState,
        ctx: OpContext,
        completion: Result<(u64, i32), ()>,
    ) -> (phase: MirrorIoPhase)
        requires
            old(state).wf(),
            io_fails(
                old(self)@,
                MirrorIoPhase::AwaitingSource(ctx),
                MirrorIoEvent::Completion(completion),
            ) ==> may_fail(old(state)@.phase),
            ctx.user_data is Some,
        ensures
            final(state).wf(),
            (final(self)@, final(state)@, phase) == io_next(
                old(self)@,
                old(state)@,
                MirrorIoPhase::AwaitingSource(ctx),
                MirrorIoEvent::Completion(completion),
            ),
            tracked_phase(phase),
    {
        let (id, result): (u64, i32) = match completion {
            Ok(completion) => completion,
            Err(_) => {
                Self::release(state, &ctx);
                return MirrorIoPhase::Finished(Err(AsyncIoError::Op(ctx.kind, OpFault::Wait)));
            },
        };
        match ctx.user_data {
            Some(user_data) if user_data == id => if self.source_passthrough {
                self.conclude_op(state, ctx, user_data, result)
            } else {
                MirrorIoPhase::AwaitingDestination(ctx, result)
            },
            _ => {
                self.stash(id, result);
                MirrorIoPhase::AwaitingSource(ctx)
            },
        }
    }

    fn destination_completed(
        &mut self,
        state: &mut MirrorState,
        ctx: OpContext,
        source_result: i32,
        completion: Result<(u64, i32), ()>,
    ) -> (phase: MirrorIoPhase)
        requires
            old(state).wf(),
            io_fails(
                old(self)@,
                MirrorIoPhase::AwaitingDestination(ctx, source_result),
                MirrorIoEvent::Completion(completion),
            ) ==> may_fail(old(state)@.phase),
            ctx.user_data is Some,
        ensures
            final(state).wf(),
            (final(self)@, final(state)@, phase) == io_next(
                old(self)@,
                old(state)@,
                MirrorIoPhase::AwaitingDestination(ctx, source_result),
                MirrorIoEvent::Completion(completion),
            ),
            tracked_phase(phase),
    {
        let user_data: u64 = match ctx.user_data {
            Some(user_data) => user_data,
            None => return MirrorIoPhase::AwaitingDestination(ctx, source_result),
        };
        match completion {
            Err(_) => {
                self.fail(state, MirrorFailure::DestinationWait { user_data });
                self.conclude_op(state, ctx, user_data, source_result)
            },
            Ok((id, result)) => if id != user_data {
                self.stash(id, result);
                MirrorIoPhase::AwaitingDestination(ctx, source_result)
            } else {
                if result != ctx.expected {
                    self.fail(
                        state,
                        MirrorFailure::DestinationCompletion {
                            user_data,
                            actual: result,
                            expected: ctx.expected,
                        },
                    );
                }
                self.conclude_op(state, ctx, user_data, source_result)
            },
        }
    }

    /// Takes the answer to the action of a phase into account.
    pub fn advance(
        &mut self,
        state: &mut MirrorState,
        phase: MirrorIoPhase,
        event: MirrorIoEvent,
    ) -> (next: MirrorIoPhase)
        requires
            old(state).wf(),
            io_fails(old(self)@, phase, event) ==> may_fail(old(state)@.phase),
            io_answers(phase, event),
            tracked_phase(phase),
        ensures
            final(state).wf(),
            (final(self)@, final(state)@, next) == io_next(
                old(self)@,
                old(state)@,
                phase,
                event,
            ),
            tracked_phase(next),
    {
        match (phase, event) {
            (MirrorIoPhase::Passthrough, MirrorIoEvent::Done(ok)) => if ok {
                MirrorIoPhase::Finished(Ok(()))
            } else {
                MirrorIoPhase::Finished(Err(AsyncIoError::Source))
            },
            (MirrorIoPhase::Locking(ctx), _) => Self::acquire(state, ctx),
            (MirrorIoPhase::SubmittingSource(ctx), MirrorIoEvent::Done(ok)) => if ok {
                MirrorIoPhase::SubmittingDestination(ctx)
            } else {
                Self::release(state, &ctx);
                MirrorIoPhase::Finished(Err(AsyncIoError::Source))
            },
            (MirrorIoPhase::SubmittingDestination(ctx), MirrorIoEvent::Done(ok)) => {
                if !ok {
                    self.fail(state, MirrorFailure::DestinationSubmit);
                }
                if ctx.user_data.is_some() {
                    MirrorIoPhase::AwaitingSource(ctx)
                } else {
                    Self::release(state, &ctx);
                    MirrorIoPhase::Finished(Ok(()))
                }
            },
            (
                MirrorIoPhase::AwaitingSource(ctx),
                MirrorIoEvent::Completion(completion),
            ) => self.source_completed(state, ctx, completion),
            (
                MirrorIoPhase::AwaitingDestination(ctx, source_result),
                MirrorIoEvent::Completion(completion),
            ) => self.destination_completed(state, ctx, source_result, completion),
            (MirrorIoPhase::Notifying(ctx), _) => {
                Self::release(state, &ctx);
                MirrorIoPhase::Finished(Ok(()))
            },
            (phase, _) => phase,
        }
    }

    /// Keeps a completion for later delivery.
    pub fn stash(&mut self, user_data: u64, result: i32)
        ensures
            final(self)@ == (MirrorIoView {
                completions: old(self)@.completions.push((user_data, result)),
                ..old(self)@
            }),
    {
        self.inflight_completions.push_back((user_data, result));
    }

    /// An entry of a batch has ended. One that failed gets an error completion, so that every
    /// entry of the batch gets one; the virtqueue worker must then be woken.
    pub fn batch_entry_done(&mut self, user_data: u64, result: Result<(), AsyncIoError>) -> (wake:
        bool)
        ensures
            wake == (result is Err),
            result is Ok ==> final(self)@ == old(self)@,
            result is Err ==> final(self)@ == (MirrorIoView {
                completions: old(self)@.completions.push((user_data, (-EIO) as i32)),
                ..old(self)@
            }),
    {
        match result {
            Ok(_) => false,
            Err(_) => {
                self.inflight_completions.push_back((user_data, -EIO));
                true
            },
        }
    }

    /// Delivers the next completion. Mirrored writes are awaited synchronously; the
    /// completions of reads and of writes past a failure come from the source, and are
    /// kept before this is called.
    pub fn next_completed_request(&mut self) -> (completion: Option<(u64, i32)>)
        ensures
            old(self)@.completions.len() == 0 ==> completion is None && final(self)@ == old(self)@,
            old(self)@.completions.len() > 0 ==> completion == Some(old(self)@.completions[0])
                && final(self)@ == (MirrorIoView {
                completions: old(self)@.completions.drop_first(),
                ..old(self)@
            }),
    {
        let completion = self.inflight_completions.pop_front();
        proof {
            if old(self)@.completions.len() == 0 {
                assert(self@.completions =~= old(self)@.completions);
            } else {
                assert(self@.completions =~= old(self)@.completions.drop_first());
            }
        }
        completion
    }

    /// Whether requests can be submitted in batches.
    pub fn batch_requests_enabled(&self, source_enabled: bool) -> (enabled: bool)
        ensures
            enabled == (if self@.passthrough {
                source_enabled
            } else {
                true
            }),
    {
        if self.source_passthrough {
            return source_enabled;
        }
        true
    }

    /// The alignment of buffers. The stricter one wins, as the same buffers go to both
    /// backends.
    pub fn alignment(&self, source: u64, destination: u64) -> (alignment: u64)
        ensures
            alignment == (if self@.passthrough || source >= destination {
                source
            } else {
                destination
            }),
            alignment >= source,
            !self@.passthrough ==> alignment >= destination,
            alignment == source || alignment == destination,
            self@.passthrough ==> alignment == source,
    {
        if self.source_passthrough || source >= destination {
            source
        } else {
            destination
        }
    }
}

/// The guest always gets the result of the source, whatever the destination does.
pub proof fn law_guest_gets_source_result(
    io: MirrorIoView,
    mirror: MirrorView,
    ctx: OpContext,
    source_result: i32,
    event: MirrorIoEvent,
)
    requires
        ctx.user_data is Some,
        io_answers(MirrorIoPhase::AwaitingDestination(ctx, source_result), event),
    ensures
        ({
            let phase = MirrorIoPhase::AwaitingDestination(ctx, source_result);
            let (after, _, next) = io_next(io, mirror, phase, event);
            ||| next == phase
            ||| next == MirrorIoPhase::Notifying(ctx) && after.completions == io.completions.push(
                (ctx.user_data->Some_0, source_result),
            )
        }),
{
}

/// A failure of the destination is never reported to the guest: only the source and the
/// range of an operation can make it fail.
pub proof fn law_destination_failure_is_hidden(
    io: MirrorIoView,
    mirror: MirrorView,
    phase: MirrorIoPhase,
    event: MirrorIoEvent,
)
    requires
        phase is SubmittingDestination || phase is AwaitingDestination || phase is Notifying,
        io_answers(phase, event),
    ensures
        !(io_next(io, mirror, phase, event).2 matches MirrorIoPhase::Finished(Err(_))),
{
}

/// The range of an operation stays locked from before it is handed to the backends until it
/// has ended, and is then released.
pub proof fn law_range_held_through_operation(
    io: MirrorIoView,
    mirror: MirrorView,
    phase: MirrorIoPhase,
    event: MirrorIoEvent,
)
    requires
        io_answers(phase, event),
        holds_range(mirror, phase),
        ranges_disjoint(mirror.ranges),
    ensures
        ({
            let (_, after, next) = io_next(io, mirror, phase, event);
            &&& holds_range(after, next)
            &&& match phase {
                MirrorIoPhase::SubmittingSource(ctx)
                | MirrorIoPhase::SubmittingDestination(ctx)
                | MirrorIoPhase::AwaitingSource(ctx)
                | MirrorIoPhase::AwaitingDestination(ctx, _)
                | MirrorIoPhase::Notifying(ctx) => after.ranges == (if next is Finished {
                    unlocked(mirror, ctx).ranges
                } else {
                    mirror.ranges
                }),
                _ => true,
            }
        }),
{
}

/// A mirrored operation that changes the bytes from `offset` on, `length` of them, locks them all.
/// A write changes the bytes of all its buffers. Where one of the bytes is held, the operation
/// starts by waiting, and nothing is locked; otherwise exactly these bytes are held afterwards in
/// addition to those that were, and the operation goes to the source.
pub proof fn law_changed_bytes_are_locked(
    io: MirrorIoView,
    mirror: MirrorView,
    op: MirrorOp,
    user_data: Option<u64>,
    offset: u64,
    length: int,
)
    requires
        !io.passthrough,
        ranges_disjoint(mirror.ranges),
        match op {
            MirrorOp::WriteVectored(start, lens) => offset == start as u64 && length == sum_lens(
                lens@,
            ) && length <= i32::MAX,
            MirrorOp::PunchHole(start, len) => offset == start && length == len,
            MirrorOp::WriteZeroes(start, len) => offset == start && length == len,
            _ => false,
        },
        0 < length,
        offset + length <= u64::MAX,
    ensures
        ({
            let (after, phase) = io_start(io, mirror, op, user_data);
            let held = exists|byte: int|
                offset <= byte < offset + length && #[trigger] holds_byte(mirror.ranges, byte);
            &&& phase is Locking <==> held
            &&& phase is SubmittingSource <==> !held
            &&& held ==> after == mirror
            &&& !held ==> after == MirrorView {
                ranges: mirror.ranges.insert(offset, (offset + length) as u64),
                ..mirror
            }
            &&& forall|byte: int| #[trigger]
                holds_byte(after.ranges, byte) <==> holds_byte(mirror.ranges, byte) || (!held
                    && offset <= byte < offset + length)
        }),
{
    law_lock_takes_exactly_free_bytes(mirror.ranges, offset, length);
}

/// An operation that has waited for its range tries again for the same bytes.
pub proof fn law_waiting_operation_locks_its_bytes(
    io: MirrorIoView,
    mirror: MirrorView,
    ctx: OpContext,
    offset: u64,
    length: u64,
)
    requires
        ranges_disjoint(mirror.ranges),
        ctx.range == Some((offset, length)),
        0 < length,
        offset + length <= u64::MAX,
    ensures
        ({
            let (io_after, after, next) = io_next(
                io,
                mirror,
                MirrorIoPhase::Locking(ctx),
                MirrorIoEvent::Released,
            );
            let held = exists|byte: int|
                offset <= byte < offset + length && #[trigger] holds_byte(mirror.ranges, byte);
            &&& io_after == io
            &&& held ==> next == MirrorIoPhase::Locking(ctx) && after == mirror
            &&& !held ==> next == MirrorIoPhase::SubmittingSource(ctx) && after == MirrorView {
                ranges: mirror.ranges.insert(offset, (offset + length) as u64),
                ..mirror
            }
        }),
{
    law_lock_takes_exactly_free_bytes(mirror.ranges, offset, length as int);
}

/// What is known about an operation says what the guest asked for: its kind, the request that
/// waits for it, the bytes that it changes, and the result that both backends have to give, which
/// is the number of bytes for a write and zero for anything else.
pub proof fn law_context_describes_operation(
    io: MirrorIoView,
    mirror: MirrorView,
    op: MirrorOp,
    user_data: Option<u64>,
    ctx: OpContext,
)
    requires
        context_of(io_start(io, mirror, op, user_data).1) == Some(ctx),
    ensures
        ctx.user_data == user_data,
        match op {
            MirrorOp::ReadVectored => false,
            MirrorOp::WriteVectored(start, lens) => {
                &&& ctx.kind == OpKind::WriteVectored
                &&& ctx.expected == sum_lens(lens@)
                &&& ctx.range matches Some((offset, length)) && offset == start as u64 && length
                    == sum_lens(lens@)
            },
            MirrorOp::Fsync => ctx.kind == OpKind::Fsync && ctx.expected == 0 && ctx.range is None,
            MirrorOp::PunchHole(start, len) => ctx.kind == OpKind::PunchHole && ctx.expected == 0
                && ctx.range == Some((start, len)),
            MirrorOp::WriteZeroes(start, len) => ctx.kind == OpKind::WriteZeroes && ctx.expected
                == 0 && ctx.range == Some((start, len)),
        },
{
    if let MirrorOp::WriteVectored(_, lens) = op {
        lemma_sum_lens_grows(lens@, 0);
    }
}

/// An operation stays what it is from its start to its end.
pub proof fn law_operation_stays_the_same(
    io: MirrorIoView,
    mirror: MirrorView,
    phase: MirrorIoPhase,
    event: MirrorIoEvent,
    ctx: OpContext,
)
    requires
        io_answers(phase, event),
        context_of(phase) == Some(ctx),
    ensures
        ({
            let next = io_next(io, mirror, phase, event).2;
            next is Finished || context_of(next) == Some(ctx)
        }),
{
}

/// A read, and any operation of a backend that uses the source alone, goes to the source and
/// locks nothing. A flush is mirrored, and locks nothing either.
pub proof fn law_operation_without_range_locks_nothing(
    io: MirrorIoView,
    mirror: MirrorView,
    op: MirrorOp,
    user_data: Option<u64>,
)
    requires
        io.passthrough || op is ReadVectored || op is Fsync,
    ensures
        io_start(io, mirror, op, user_data).0 == mirror,
        io_start(io, mirror, op, user_data).1 is Passthrough <==> io.passthrough || op
            is ReadVectored,
        !io.passthrough && op is Fsync ==> io_start(io, mirror, op, user_data).1
            is SubmittingSource,
{
}

/// An operation that cannot be mirrored is refused before it reaches a backend, and changes
/// nothing: a write of more bytes than a result can count, and one whose range is empty or ends
/// beyond what 64 bits can count.
pub proof fn law_impossible_operation_is_refused(
    io: MirrorIoView,
    mirror: MirrorView,
    op: MirrorOp,
    user_data: Option<u64>,
    kind: OpKind,
    offset: u64,
    length: int,
)
    requires
        !io.passthrough,
        match op {
            MirrorOp::WriteVectored(start, lens) => kind == OpKind::WriteVectored && offset
                == start as u64 && length == sum_lens(lens@),
            MirrorOp::PunchHole(start, len) => kind == OpKind::PunchHole && offset == start
                && length == len,
            MirrorOp::WriteZeroes(start, len) => kind == OpKind::WriteZeroes && offset == start
                && length == len,
            _ => false,
        },
    ensures
        ({
            let (after, phase) = io_start(io, mirror, op, user_data);
            let fault = if op is WriteVectored && length > i32::MAX {
                Some(OpFault::TooLarge)
            } else if length == 0 {
                Some(OpFault::Range(RangeError::Empty))
            } else if offset + length > u64::MAX {
                Some(OpFault::Range(RangeError::Overflow))
            } else {
                None
            };
            &&& fault matches Some(fault) ==> after == mirror && phase == MirrorIoPhase::Finished(
                Err(AsyncIoError::Op(kind, fault)),
            )
            &&& fault is None ==> !(phase is Finished)
        }),
{
    if let MirrorOp::WriteVectored(_, lens) = op {
        lemma_sum_lens_grows(lens@, 0);
    }
}

/// An operation that starts under a lock holds it.
pub proof fn law_operation_starts_under_lock(
    io: MirrorIoView,
    mirror: MirrorView,
    op: MirrorOp,
    user_data: Option<u64>,
)
    requires
        op matches MirrorOp::WriteVectored(_, lens) ==> sum_lens(lens@) <= usize::MAX,
    ensures
        holds_range(io_start(io, mirror, op, user_data).0, io_start(io, mirror, op, user_data).1),
{
}

/// Both backends work on a mirrored request before the guest is told: unless the backend uses the
/// source alone by now, the request waits for a completion of its own from the source, then for
/// one from the destination. Only a destination that cannot be waited for is not waited for. A
/// completion of another request is kept for that request, and changes nothing else.
pub proof fn law_both_backends_complete(
    io: MirrorIoView,
    mirror: MirrorView,
    phase: MirrorIoPhase,
    event: MirrorIoEvent,
    ctx: OpContext,
)
    requires
        io_answers(phase, event),
        context_of(phase) == Some(ctx),
        ctx.user_data is Some,
    ensures
        ({
            let (io_after, after, next) = io_next(io, mirror, phase, event);
            let own = event matches MirrorIoEvent::Completion(Ok((id, _))) && Some(id)
                == ctx.user_data;
            &&& next is SubmittingDestination ==> phase is SubmittingSource && event
                == MirrorIoEvent::Done(true)
            &&& next is AwaitingSource ==> phase is AwaitingSource || phase is SubmittingDestination
            &&& next is AwaitingDestination && !(phase is AwaitingDestination) ==> phase
                is AwaitingSource && own && !io.passthrough && event
                == MirrorIoEvent::Completion(Ok((ctx.user_data->Some_0, next->AwaitingDestination_1)))
            &&& next is Notifying ==> (phase is AwaitingDestination && (own || (event matches
                MirrorIoEvent::Completion(Err(_))))) || (phase is AwaitingSource && own
                && io.passthrough)
            &&& own && phase is AwaitingSource && io.passthrough ==> next is Notifying
            &&& own && phase is AwaitingDestination ==> next is Notifying
            &&& (phase is AwaitingSource || phase is AwaitingDestination) && !own && (event matches
                MirrorIoEvent::Completion(Ok(_))) ==> next == phase && after == mirror && io_after
                == MirrorIoView {
                completions: io.completions.push(event->Completion_0->Ok_0),
                ..io
            }
        }),
{
}

/// Where the backend uses the source alone, the guest gets the result of the source as soon as it
/// is there.
pub proof fn law_degraded_request_gets_source_result(
    io: MirrorIoView,
    mirror: MirrorView,
    ctx: OpContext,
    user_data: u64,
    result: i32,
)
    requires
        io.passthrough,
        ctx.user_data == Some(user_data),
    ensures
        ({
            let (io_after, _, next) = io_next(
                io,
                mirror,
                MirrorIoPhase::AwaitingSource(ctx),
                MirrorIoEvent::Completion(Ok((user_data, result))),
            );
            io_after.completions == io.completions.push((user_data, result)) && next
                == MirrorIoPhase::Notifying(ctx)
        }),
{
}

/// The guest is told an error for three reasons only: the source did not take the operation, the
/// source could not be waited for, or the range cannot be locked.
pub proof fn law_error_comes_from_source_or_range(
    io: MirrorIoView,
    mirror: MirrorView,
    phase: MirrorIoPhase,
    event: MirrorIoEvent,
    error: AsyncIoError,
)
    requires
        io_answers(phase, event),
        tracked_phase(phase),
    ensures
        io_next(io, mirror, phase, event).2 == MirrorIoPhase::Finished(Err(error)) <==> match error {
            AsyncIoError::Source => (phase is SubmittingSource || phase is Passthrough) && event
                == MirrorIoEvent::Done(false),
            AsyncIoError::Op(kind, OpFault::Wait) => (phase matches MirrorIoPhase::AwaitingSource(
                ctx,
            ) && ctx.kind == kind) && (event matches MirrorIoEvent::Completion(Err(_))),
            AsyncIoError::Op(kind, OpFault::Range(fault)) => phase matches MirrorIoPhase::Locking(
                ctx,
            ) && ctx.kind == kind && (ctx.range matches Some((offset, length)) && ((length == 0
                && fault == RangeError::Empty) || (length > 0 && offset + length > u64::MAX && fault
                == RangeError::Overflow))),
            AsyncIoError::Op(_, OpFault::TooLarge) => false,
        },
{
}

/// A mirror whose backends differ from what an operation is expected to give has failed, for the
/// first reason that is seen, and one whose backends agree with it has not.
pub proof fn law_unexpected_result_fails_mirror(
    io: MirrorIoView,
    mirror: MirrorView,
    ctx: OpContext,
    user_data: u64,
    source_result: i32,
    result: i32,
)
    requires
        ctx.user_data == Some(user_data),
        mirror.phase is Running || mirror.phase is Ready,
    ensures
        ({
            let (io_after, after, _) = io_next(
                io,
                mirror,
                MirrorIoPhase::AwaitingDestination(ctx, source_result),
                MirrorIoEvent::Completion(Ok((user_data, result))),
            );
            &&& source_result == ctx.expected && result == ctx.expected ==> after.phase
                == mirror.phase && io_after.passthrough == io.passthrough
            &&& result != ctx.expected ==> io_after.passthrough && after.phase
                == MirrorPhase::Failed(
                Arc::new(
                    MirrorFailure::DestinationCompletion {
                        user_data,
                        actual: result,
                        expected: ctx.expected,
                    },
                ),
            )
            &&& result == ctx.expected && source_result != ctx.expected ==> io_after.passthrough
                && after.phase == MirrorPhase::Failed(
                Arc::new(
                    MirrorFailure::SourceCompletion {
                        user_data,
                        actual: source_result,
                        expected: ctx.expected,
                    },
                ),
            )
        }),
{
}

/// A destination that does not take an operation, or cannot be waited for, fails the mirror.
pub proof fn law_lost_destination_fails_mirror(
    io: MirrorIoView,
    mirror: MirrorView,
    ctx: OpContext,
    user_data: u64,
    source_result: i32,
)
    requires
        ctx.user_data == Some(user_data),
        mirror.phase is Running || mirror.phase is Ready,
    ensures
        ({
            let (io_after, after, _) = io_next(
                io,
                mirror,
                MirrorIoPhase::SubmittingDestination(ctx),
                MirrorIoEvent::Done(false),
            );
            io_after.passthrough && after.phase == MirrorPhase::Failed(
                Arc::new(MirrorFailure::DestinationSubmit),
            )
        }),
        ({
            let (io_after, after, _) = io_next(
                io,
                mirror,
                MirrorIoPhase::AwaitingDestination(ctx, source_result),
                MirrorIoEvent::Completion(Err(())),
            );
            io_after.passthrough && after.phase == MirrorPhase::Failed(
                Arc::new(MirrorFailure::DestinationWait { user_data }),
            )
        }),
{
}

/// An operation ends with its range released, whether it ends well or not: no byte of it is held
/// any more, and every other byte that was held still is.
pub proof fn law_ended_operation_holds_nothing(
    io: MirrorIoView,
    mirror: MirrorView,
    phase: MirrorIoPhase,
    event: MirrorIoEvent,
    ctx: OpContext,
    byte: int,
)
    requires
        io_answers(phase, event),
        context_of(phase) == Some(ctx),
        !(phase is Locking),
        holds_range(mirror, phase),
        ranges_disjoint(mirror.ranges),
        io_next(io, mirror, phase, event).2 is Finished,
    ensures
        holds_byte(io_next(io, mirror, phase, event).1.ranges, byte) <==> (holds_byte(
            mirror.ranges,
            byte,
        ) && !(ctx.range matches Some((offset, length)) && offset <= byte < offset + length)),
{
    let before = mirror.ranges;
    let after = io_next(io, mirror, phase, event).1.ranges;
    if let Some((offset, length)) = ctx.range {
        assert(before.contains_key(offset) && before[offset] == offset + length);
        assert(after == before.remove(offset));
        if holds_byte(before, byte) {
            let s = choose|s: u64| #[trigger] before.contains_key(s) && s <= byte < before[s];
            if s != offset {
                assert(after.contains_key(s));
            }
        }
        if holds_byte(after, byte) {
            let s = choose|s: u64| #[trigger] after.contains_key(s) && s <= byte < after[s];
            assert(before.contains_key(s));
            assert(s != offset);
        }
    }
}

/// Once a backend has gone over to the source alone, it never uses the destination again.
pub proof fn law_passthrough_is_final(
    io: MirrorIoView,
    mirror: MirrorView,
    phase: MirrorIoPhase,
    event: MirrorIoEvent,
    op: MirrorOp,
    user_data: Option<u64>,
)
    requires
        io.passthrough,
    ensures
        io_next(io, mirror, phase, event).0.passthrough,
        io_start(io, mirror, op, user_data) == (mirror, MirrorIoPhase::Passthrough),
{
}

/// Any failure that a backend sees fails the mirror, and makes the backend go over to the
/// source. Nothing else does.
pub proof fn law_failure_degrades(
    io: MirrorIoView,
    mirror: MirrorView,
    phase: MirrorIoPhase,
    event: MirrorIoEvent,
)
    requires
        may_fail(mirror.phase),
    ensures
        io_fails(io, phase, event) ==> io_next(io, mirror, phase, event).1.phase is Failed
            && io_next(io, mirror, phase, event).0.passthrough,
        !io_fails(io, phase, event) ==> io_next(io, mirror, phase, event).1.phase == mirror.phase
            && io_next(io, mirror, phase, event).0.passthrough == io.passthrough,
{
}

/// The operation that a phase is about, unless it has ended or goes to the source alone.
pub open spec fn context_of(phase: MirrorIoPhase) -> Option<OpContext> {
    match phase {
        MirrorIoPhase::Locking(ctx)
        | MirrorIoPhase::SubmittingSource(ctx)
        | MirrorIoPhase::SubmittingDestination(ctx)
        | MirrorIoPhase::AwaitingSource(ctx)
        | MirrorIoPhase::AwaitingDestination(ctx, _)
        | MirrorIoPhase::Notifying(ctx) => Some(ctx),
        _ => None,
    }
}

/// A tracked operation that is mirrored owes the guest exactly one completion. It is kept when
/// the operation moves on to `Notifying`, and no other step adds one. An operation ends well only
/// from there, and one that ends with an error adds none.
pub proof fn law_operation_is_completed_once(
    io: MirrorIoView,
    mirror: MirrorView,
    phase: MirrorIoPhase,
    event: MirrorIoEvent,
    ctx: OpContext,
)
    requires
        io_answers(phase, event),
        context_of(phase) == Some(ctx),
        ctx.user_data is Some,
    ensures
        ({
            let (after, _, next) = io_next(io, mirror, phase, event);
            match next {
                MirrorIoPhase::Notifying(_) => exists|result: i32|
                    after.completions == #[trigger] io.completions.push(
                        (ctx.user_data->Some_0, result),
                    ),
                MirrorIoPhase::Finished(Ok(_)) => phase is Notifying && after.completions
                    == io.completions,
                MirrorIoPhase::Finished(Err(_)) => !(phase is Notifying) && after.completions
                    == io.completions,
                _ => after.completions == io.completions || (exists|other: u64, result: i32|
                    Some(other) != ctx.user_data && after.completions
                        == #[trigger] io.completions.push((other, result))),
            }
        }),
{
    if let MirrorIoEvent::Completion(Ok((id, result))) = event {
        let _ = io.completions.push((id, result));
    }
}

} // verus!
