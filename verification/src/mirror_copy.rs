//! The background worker of a block mirror, which copies existing source bytes to the
//! destination in fixed-size blocks.
//!
//! The worker holds a range lock across each block so virtqueue mirror writes cannot race
//! the copy.

use std::sync::Arc;

use vstd::prelude::*;

use crate::mirror::{holds_byte, law_lock_takes_exactly_free_bytes, lock_result, phase_after,
    ranges_after_lock, ranges_disjoint, CopyError, MirrorFailure, MirrorPhase, MirrorState,
    MirrorView};
use crate::mirror_io::may_fail;
use crate::zero_pages::{all_zero, is_all_zero};

verus! {

/// The background copy of a mirror.
#[derive(Clone, Copy, Debug, PartialEq, Eq, Structural)]
pub struct CopyWorker {
    /// Whether holes can be punched into the destination.
    pub dest_is_sparse: bool,
    /// The size of a block.
    pub block_size_bytes: usize,
    /// The next user data for request and completion notifications.
    pub next_user_data: u64,
    /// The offset of the next byte to copy.
    pub offset: u64,
}

/// A block that is being copied.
#[derive(Clone, Copy, Debug, PartialEq, Eq, Structural)]
pub struct CopyBlock {
    /// The offset of the block.
    pub offset: u64,
    /// The length of the block.
    pub length: u64,
    /// The user data of the current request.
    pub user_data: u64,
    /// Whether a hole is punched instead of writing the block.
    pub punch_hole: bool,
}

/// How far the copy has come.
#[derive(Clone, Copy, Debug, PartialEq, Eq)]
pub enum CopyPhase {
    /// Allocating the buffer.
    Allocating,
    /// Waiting until the range of a block can be locked.
    Locking(u64, u64),
    /// Handing a read to the source.
    SubmittingRead(CopyBlock),
    /// Waiting for the read.
    AwaitingRead(CopyBlock),
    /// Handing a write, or a request to punch a hole, to the destination.
    SubmittingWrite(CopyBlock),
    /// Waiting for the write.
    AwaitingWrite(CopyBlock),
    /// Handing a flush to the destination.
    SubmittingFlush(u64),
    /// Waiting for the flush.
    AwaitingFlush(u64),
    /// The copy has ended.
    Finished(Result<(), CopyError>),
}

/// The answer to the action of a phase.
#[derive(Clone, Copy, Debug, PartialEq, Eq)]
pub enum CopyEvent {
    /// Whether the action succeeded.
    Done(bool),
    /// A range was released.
    Released,
    /// A completion as user data and result, or the failure to wait for one; and whether
    /// the block in the buffer is all zeroes.
    Completion(Result<(u64, i32), ()>, bool),
}

/// `event` is an answer to what `phase` asks for.
pub open spec fn copy_answers(phase: CopyPhase, event: CopyEvent) -> bool {
    match phase {
        CopyPhase::Locking(_, _) => event is Released,
        CopyPhase::AwaitingRead(_)
        | CopyPhase::AwaitingWrite(_)
        | CopyPhase::AwaitingFlush(_) => event is Completion,
        CopyPhase::Finished(_) => false,
        _ => event is Done,
    }
}

/// The error number of a negative result can be negated.
pub open spec fn errno_fits(event: CopyEvent) -> bool {
    event matches CopyEvent::Completion(Ok((_, result)), _) ==> result != i32::MIN
}

/// The flush at the end of the copy succeeded.
pub open spec fn flushed(phase: CopyPhase, event: CopyEvent) -> bool {
    match (phase, event) {
        (CopyPhase::AwaitingFlush(user_data), CopyEvent::Completion(Ok((id, result)), _)) => id
            == user_data && result == 0,
        _ => false,
    }
}

/// The worker after it has taken the next user data.
pub open spec fn took_user_data(worker: CopyWorker) -> CopyWorker {
    CopyWorker {
        next_user_data: ((worker.next_user_data + 1) % 0x1_0000_0000_0000_0000) as u64,
        ..worker
    }
}

/// The mirror without the range of a block.
pub open spec fn block_unlocked(mirror: MirrorView, offset: u64) -> MirrorView {
    MirrorView { ranges: mirror.ranges.remove(offset), ..mirror }
}

/// An attempt to lock the range of a block and to read it.
pub open spec fn lock_block(worker: CopyWorker, mirror: MirrorView, offset: u64, length: u64) -> (
    CopyWorker,
    MirrorView,
    CopyPhase,
) {
    match lock_result(mirror.ranges, offset, length as int) {
        Err(e) => (worker, mirror, CopyPhase::Finished(Err(CopyError::Range(e)))),
        Ok(false) => (worker, mirror, CopyPhase::Locking(offset, length)),
        Ok(true) => if length > i32::MAX {
            (worker, mirror, CopyPhase::Finished(Err(CopyError::BlockTooLarge)))
        } else {
            (
                took_user_data(worker),
                MirrorView {
                    ranges: ranges_after_lock(mirror.ranges, offset, length as int),
                    ..mirror
                },
                CopyPhase::SubmittingRead(
                    CopyBlock {
                        offset,
                        length,
                        user_data: worker.next_user_data,
                        punch_hole: false,
                    },
                ),
            )
        },
    }
}

/// The copy goes on with the next block as long as the mirror is running, and with a
/// flush once all blocks are copied.
pub open spec fn next_block(worker: CopyWorker, mirror: MirrorView) -> (
    CopyWorker,
    MirrorView,
    CopyPhase,
) {
    if worker.offset >= mirror.total_bytes {
        (took_user_data(worker), mirror, CopyPhase::SubmittingFlush(worker.next_user_data))
    } else if !(mirror.phase is Running) {
        (worker, mirror, CopyPhase::Finished(Ok(())))
    } else {
        lock_block(
            worker,
            mirror,
            worker.offset,
            if worker.block_size_bytes < mirror.total_bytes - worker.offset {
                worker.block_size_bytes as u64
            } else {
                (mirror.total_bytes - worker.offset) as u64
            },
        )
    }
}

/// The copy of a block fails.
pub open spec fn block_failed(
    worker: CopyWorker,
    mirror: MirrorView,
    block: CopyBlock,
    error: CopyError,
) -> (CopyWorker, MirrorView, CopyPhase) {
    (worker, block_unlocked(mirror, block.offset), CopyPhase::Finished(Err(error)))
}

/// What follows a phase on an answer.
pub open spec fn copy_next(
    worker: CopyWorker,
    mirror: MirrorView,
    phase: CopyPhase,
    event: CopyEvent,
) -> (CopyWorker, MirrorView, CopyPhase) {
    match (phase, event) {
        (CopyPhase::Allocating, CopyEvent::Done(ok)) => if ok {
            next_block(worker, mirror)
        } else {
            (worker, mirror, CopyPhase::Finished(Err(CopyError::Buffer)))
        },
        (CopyPhase::Locking(offset, length), _) => lock_block(worker, mirror, offset, length),
        (CopyPhase::SubmittingRead(block), CopyEvent::Done(ok)) => if ok {
            (worker, mirror, CopyPhase::AwaitingRead(block))
        } else {
            block_failed(worker, mirror, block, CopyError::ReadSubmit)
        },
        (CopyPhase::AwaitingRead(block), CopyEvent::Completion(completion, zero)) => {
            match completion {
                Err(_) => block_failed(worker, mirror, block, CopyError::Wait),
                Ok((_, result)) => if result < 0 {
                    block_failed(worker, mirror, block, CopyError::Os((-result) as i32))
                } else if result != block.length {
                    block_failed(
                        worker,
                        mirror,
                        block,
                        CopyError::SourceResult(result, block.length as i32),
                    )
                } else {
                    (
                        took_user_data(worker),
                        mirror,
                        CopyPhase::SubmittingWrite(
                            CopyBlock {
                                user_data: worker.next_user_data,
                                punch_hole: worker.dest_is_sparse && zero,
                                ..block
                            },
                        ),
                    )
                },
            }
        },
        (CopyPhase::SubmittingWrite(block), CopyEvent::Done(ok)) => if ok {
            (worker, mirror, CopyPhase::AwaitingWrite(block))
        } else {
            block_failed(
                worker,
                mirror,
                block,
                if block.punch_hole {
                    CopyError::PunchHoleSubmit
                } else {
                    CopyError::WriteSubmit
                },
            )
        },
        (CopyPhase::AwaitingWrite(block), CopyEvent::Completion(completion, _)) => {
            let expected = if block.punch_hole {
                0
            } else {
                block.length as i32
            };
            match completion {
                Err(_) => block_failed(worker, mirror, block, CopyError::Wait),
                Ok((_, result)) => if result < 0 {
                    block_failed(worker, mirror, block, CopyError::Os((-result) as i32))
                } else if result != expected {
                    block_failed(
                        worker,
                        mirror,
                        block,
                        CopyError::DestinationResult(result, expected),
                    )
                } else {
                    next_block(
                        CopyWorker { offset: (block.offset + block.length) as u64, ..worker },
                        MirrorView {
                            copied_bytes: ((mirror.copied_bytes + block.length)
                                % 0x1_0000_0000_0000_0000) as u64,
                            ..block_unlocked(mirror, block.offset)
                        },
                    )
                },
            }
        },
        (CopyPhase::SubmittingFlush(user_data), CopyEvent::Done(ok)) => if ok {
            (worker, mirror, CopyPhase::AwaitingFlush(user_data))
        } else {
            (worker, mirror, CopyPhase::Finished(Err(CopyError::FlushSubmit)))
        },
        (CopyPhase::AwaitingFlush(user_data), CopyEvent::Completion(completion, _)) => {
            match completion {
                Err(_) => (worker, mirror, CopyPhase::Finished(Err(CopyError::Wait))),
                Ok((id, result)) => if id != user_data {
                    (
                        worker,
                        mirror,
                        CopyPhase::Finished(Err(CopyError::FlushUserData(id, user_data))),
                    )
                } else if result < 0 {
                    (worker, mirror, CopyPhase::Finished(Err(CopyError::Os((-result) as i32))))
                } else if result > 0 {
                    (worker, mirror, CopyPhase::Finished(Err(CopyError::FlushResult(result))))
                } else {
                    (
                        worker,
                        MirrorView {
                            phase: phase_after(mirror.phase, MirrorPhase::Ready),
                            ..mirror
                        },
                        CopyPhase::Finished(Ok(())),
                    )
                },
            }
        },
        _ => (worker, mirror, phase),
    }
}

/// The block of a phase lies on the disk and starts where the copy has come to.
pub open spec fn copy_in_bounds(worker: CopyWorker, mirror: MirrorView, phase: CopyPhase) -> bool {
    match phase {
        CopyPhase::Locking(offset, length) => offset == worker.offset && offset + length
            <= mirror.total_bytes && length <= worker.block_size_bytes,
        CopyPhase::SubmittingRead(block)
        | CopyPhase::AwaitingRead(block)
        | CopyPhase::SubmittingWrite(block)
        | CopyPhase::AwaitingWrite(block) => block.offset == worker.offset && block.offset
            + block.length <= mirror.total_bytes && 0 < block.length <= i32::MAX && block.length
            <= worker.block_size_bytes,
        CopyPhase::SubmittingFlush(_) | CopyPhase::AwaitingFlush(_) => worker.offset
            >= mirror.total_bytes,
        _ => true,
    }
}

impl CopyWorker {
    /// Creates a worker that has copied nothing yet.
    pub fn new(dest_is_sparse: bool, block_size_bytes: usize) -> (worker: Self)
        ensures
            worker == (CopyWorker { dest_is_sparse, block_size_bytes, next_user_data: 0, offset: 0 }),
    {
        CopyWorker { dest_is_sparse, block_size_bytes, next_user_data: 0, offset: 0 }
    }

    /// The alignment of the buffer: the stricter one of the two backends.
    pub fn buffer_alignment(source: u64, destination: u64) -> (alignment: u64)
        ensures
            alignment == (if source >= destination {
                source
            } else {
                destination
            }),
    {
        if source >= destination {
            source
        } else {
            destination
        }
    }

    /// Whether all bytes of a block are zero.
    pub fn is_zero(block: &[u8]) -> (zero: bool)
        ensures
            zero == all_zero(block@),
    {
        is_all_zero(block)
    }

    /// Returns the next user data and increments it, wrapping on overflow.
    pub fn generate_user_data(&mut self) -> (user_data: u64)
        ensures
            user_data == old(self).next_user_data,
            *final(self) == took_user_data(*old(self)),
    {
        let user_data: u64 = self.next_user_data;
        self.next_user_data = self.next_user_data.wrapping_add(1);
        user_data
    }

    fn begin_block(&mut self, state: &mut MirrorState, offset: u64, length: u64) -> (phase:
        CopyPhase)
        requires
            old(state).wf(),
            offset == old(self).offset,
            offset + length <= old(state)@.total_bytes,
            length <= old(self).block_size_bytes,
        ensures
            final(state).wf(),
            (*final(self), final(state)@, phase) == lock_block(
                *old(self),
                old(state)@,
                offset,
                length,
            ),
            copy_in_bounds(*final(self), final(state)@, phase),
    {
        match state.lock_range(offset, length) {
            Err(e) => CopyPhase::Finished(Err(CopyError::Range(e))),
            Ok(false) => CopyPhase::Locking(offset, length),
            Ok(true) => {
                if length > i32::MAX as u64 {
                    proof {
                        crate::mirror::law_release_undoes_lock(
                            old(state)@.ranges,
                            offset,
                            length as int,
                        );
                    }
                    state.release_range(offset);
                    assert(state@ =~= old(state)@);
                    return CopyPhase::Finished(Err(CopyError::BlockTooLarge));
                }
                let user_data: u64 = self.generate_user_data();
                CopyPhase::SubmittingRead(
                    CopyBlock { offset, length, user_data, punch_hole: false },
                )
            },
        }
    }

    fn continue_copy(&mut self, state: &mut MirrorState) -> (phase: CopyPhase)
        requires
            old(state).wf(),
        ensures
            final(state).wf(),
            (*final(self), final(state)@, phase) == next_block(*old(self), old(state)@),
            copy_in_bounds(*final(self), final(state)@, phase),
    {
        let total_size: u64 = state.total_bytes();
        if self.offset >= total_size {
            let user_data: u64 = self.generate_user_data();
            return CopyPhase::SubmittingFlush(user_data);
        }
        match state.phase() {
            MirrorPhase::Running => {},
            _ => return CopyPhase::Finished(Ok(())),
        }
        let max_length: u64 = self.block_size_bytes as u64;
        let length: u64 = if max_length < total_size - self.offset {
            max_length
        } else {
            total_size - self.offset
        };
        let offset: u64 = self.offset;
        self.begin_block(state, offset, length)
    }

    fn fail_block(state: &mut MirrorState, block: &CopyBlock, error: CopyError) -> (phase:
        CopyPhase)
        requires
            old(state).wf(),
        ensures
            final(state).wf(),
            final(state)@ == block_unlocked(old(state)@, block.offset),
            phase == CopyPhase::Finished(Err(error)),
    {
        state.release_range(block.offset);
        CopyPhase::Finished(Err(error))
    }

    fn read_completed(
        &mut self,
        state: &mut MirrorState,
        block: CopyBlock,
        completion: Result<(u64, i32), ()>,
        zero: bool,
    ) -> (phase: CopyPhase)
        requires
            old(state).wf(),
            copy_in_bounds(*old(self), old(state)@, CopyPhase::AwaitingRead(block)),
            errno_fits(CopyEvent::Completion(completion, zero)),
        ensures
            final(state).wf(),
            (*final(self), final(state)@, phase) == copy_next(
                *old(self),
                old(state)@,
                CopyPhase::AwaitingRead(block),
                CopyEvent::Completion(completion, zero),
            ),
            copy_in_bounds(*final(self), final(state)@, phase),
    {
        match completion {
            Err(_) => Self::fail_block(state, &block, CopyError::Wait),
            Ok((_, result)) => {
                let expected: i32 = block.length as i32;
                if result < 0 {
                    Self::fail_block(state, &block, CopyError::Os(-result))
                } else if result != expected {
                    Self::fail_block(state, &block, CopyError::SourceResult(result, expected))
                } else {
                    let user_data: u64 = self.generate_user_data();
                    CopyPhase::SubmittingWrite(
                        CopyBlock {
                            user_data,
                            punch_hole: self.dest_is_sparse && zero,
                            ..block
                        },
                    )
                }
            },
        }
    }

    fn write_completed(
        &mut self,
        state: &mut MirrorState,
        block: CopyBlock,
        completion: Result<(u64, i32), ()>,
        zero: bool,
    ) -> (phase: CopyPhase)
        requires
            old(state).wf(),
            copy_in_bounds(*old(self), old(state)@, CopyPhase::AwaitingWrite(block)),
            errno_fits(CopyEvent::Completion(completion, zero)),
        ensures
            final(state).wf(),
            (*final(self), final(state)@, phase) == copy_next(
                *old(self),
                old(state)@,
                CopyPhase::AwaitingWrite(block),
                CopyEvent::Completion(completion, zero),
            ),
            copy_in_bounds(*final(self), final(state)@, phase),
    {
        match completion {
            Err(_) => Self::fail_block(state, &block, CopyError::Wait),
            Ok((_, result)) => {
                let expected: i32 = if block.punch_hole {
                    0
                } else {
                    block.length as i32
                };
                if result < 0 {
                    Self::fail_block(state, &block, CopyError::Os(-result))
                } else if result != expected {
                    Self::fail_block(
                        state,
                        &block,
                        CopyError::DestinationResult(result, expected),
                    )
                } else {
                    state.add_copied(block.length);
                    state.release_range(block.offset);
                    self.offset = block.offset + block.length;
                    self.continue_copy(state)
                }
            },
        }
    }

    /// Starts the copy.
    pub fn begin(&self) -> (phase: CopyPhase)
        ensures
            phase is Allocating,
    {
        CopyPhase::Allocating
    }

    /// Whether a step ends the copy with success, which makes the mirror ready.
    pub fn ends_copy(phase: &CopyPhase, event: &CopyEvent) -> (ends: bool)
        ensures
            ends == flushed(*phase, *event),
    {
        match (*phase, *event) {
            (CopyPhase::AwaitingFlush(user_data), CopyEvent::Completion(Ok((id, result)), _)) => id
                == user_data && result == 0,
            _ => false,
        }
    }

    /// Takes the answer to the action of a phase into account. The end of the copy moves
    /// the mirror on to `Ready`.
    pub fn run(&mut self, state: &mut MirrorState, phase: CopyPhase, event: CopyEvent) -> (next:
        CopyPhase)
        requires
            old(state).wf(),
            copy_answers(phase, event),
            copy_in_bounds(*old(self), old(state)@, phase),
            errno_fits(event),
            flushed(phase, event) ==> old(state)@.phase is Running || old(state)@.phase is Ready,
        ensures
            final(state).wf(),
            (*final(self), final(state)@, next) == copy_next(
                *old(self),
                old(state)@,
                phase,
                event,
            ),
            copy_in_bounds(*final(self), final(state)@, next),
    {
        match (phase, event) {
            (CopyPhase::Allocating, CopyEvent::Done(ok)) => if ok {
                self.continue_copy(state)
            } else {
                CopyPhase::Finished(Err(CopyError::Buffer))
            },
            (CopyPhase::Locking(offset, length), _) => self.begin_block(state, offset, length),
            (CopyPhase::SubmittingRead(block), CopyEvent::Done(ok)) => if ok {
                CopyPhase::AwaitingRead(block)
            } else {
                Self::fail_block(state, &block, CopyError::ReadSubmit)
            },
            (
                CopyPhase::AwaitingRead(block),
                CopyEvent::Completion(completion, zero),
            ) => self.read_completed(state, block, completion, zero),
            (CopyPhase::SubmittingWrite(block), CopyEvent::Done(ok)) => if ok {
                CopyPhase::AwaitingWrite(block)
            } else if block.punch_hole {
                Self::fail_block(state, &block, CopyError::PunchHoleSubmit)
            } else {
                Self::fail_block(state, &block, CopyError::WriteSubmit)
            },
            (
                CopyPhase::AwaitingWrite(block),
                CopyEvent::Completion(completion, zero),
            ) => self.write_completed(state, block, completion, zero),
            (CopyPhase::SubmittingFlush(user_data), CopyEvent::Done(ok)) => if ok {
                CopyPhase::AwaitingFlush(user_data)
            } else {
                CopyPhase::Finished(Err(CopyError::FlushSubmit))
            },
            (
                CopyPhase::AwaitingFlush(user_data),
                CopyEvent::Completion(completion, _),
            ) => match completion {
                Err(_) => CopyPhase::Finished(Err(CopyError::Wait)),
                Ok((id, result)) => if id != user_data {
                    CopyPhase::Finished(Err(CopyError::FlushUserData(id, user_data)))
                } else if result < 0 {
                    CopyPhase::Finished(Err(CopyError::Os(-result)))
                } else if result > 0 {
                    CopyPhase::Finished(Err(CopyError::FlushResult(result)))
                } else {
                    let _event = state.transition_to_phase(MirrorPhase::Ready);
                    CopyPhase::Finished(Ok(()))
                },
            },
            (phase, _) => phase,
        }
    }

    /// Records that the copy failed.
    pub fn record_failure(state: &mut MirrorState, error: CopyError)
        requires
            old(state).wf(),
            may_fail(old(state)@.phase),
        ensures
            final(state).wf(),
            final(state)@ == (MirrorView {
                phase: phase_after(
                    old(state)@.phase,
                    MirrorPhase::Failed(Arc::new(MirrorFailure::CopyWorker(error))),
                ),
                ..old(state)@
            }),
    {
        let _event = state.transition_to_phase(
            MirrorPhase::Failed(Arc::new(MirrorFailure::CopyWorker(error))),
        );
    }
}

/// The blocks follow each other without a gap: the copy only moves on by the length of the
/// block that the destination has just confirmed.
pub proof fn law_blocks_follow_each_other(
    worker: CopyWorker,
    mirror: MirrorView,
    phase: CopyPhase,
    event: CopyEvent,
)
    requires
        copy_answers(phase, event),
        copy_in_bounds(worker, mirror, phase),
    ensures
        ({
            let (after, _, _) = copy_next(worker, mirror, phase, event);
            ||| after.offset == worker.offset
            ||| phase matches CopyPhase::AwaitingWrite(block) && block.offset == worker.offset
                && after.offset == worker.offset + block.length
        }),
{
}

/// The number of copied bytes that users see is the offset up to which the copy has come.
pub proof fn law_progress_is_offset(
    worker: CopyWorker,
    mirror: MirrorView,
    phase: CopyPhase,
    event: CopyEvent,
)
    requires
        copy_answers(phase, event),
        copy_in_bounds(worker, mirror, phase),
        mirror.copied_bytes == worker.offset,
    ensures
        ({
            let (after, mirror_after, _) = copy_next(worker, mirror, phase, event);
            mirror_after.copied_bytes == after.offset
        }),
{
}

/// A block is as large as the block size, unless the disk ends before: the copy starts a block
/// where it has come to, while the mirror is running and bytes are left. Once none is left it hands
/// a flush to the destination, and if the mirror no longer runs before that, it ends.
pub proof fn law_block_reaches_as_far_as_possible(
    worker: CopyWorker,
    mirror: MirrorView,
    phase: CopyPhase,
    event: CopyEvent,
)
    requires
        copy_answers(phase, event),
        copy_in_bounds(worker, mirror, phase),
        phase is Allocating || phase is AwaitingWrite,
    ensures
        ({
            let (after, _, next) = copy_next(worker, mirror, phase, event);
            let failed = next matches CopyPhase::Finished(Err(_));
            &&& !failed ==> (next is SubmittingFlush <==> after.offset >= mirror.total_bytes)
            &&& !failed && after.offset < mirror.total_bytes ==> (next is Finished <==> !(
            mirror.phase is Running))
            &&& next matches CopyPhase::Locking(offset, length) ==> offset == after.offset && (
            length == after.block_size_bytes || offset + length == mirror.total_bytes)
            &&& next matches CopyPhase::SubmittingRead(block) ==> block.offset == after.offset && (
            block.length == after.block_size_bytes || block.offset + block.length
                == mirror.total_bytes)
        }),
{
}

/// A block is read only after each of its bytes has been free and has been locked, whatever range a
/// mirrored write held; as long as one of them is held, the copy waits for that block.
pub proof fn law_block_waits_for_its_bytes(
    worker: CopyWorker,
    mirror: MirrorView,
    offset: u64,
    length: u64,
    byte: int,
)
    requires
        ranges_disjoint(mirror.ranges),
        0 < length <= i32::MAX,
        offset + length <= u64::MAX,
        offset <= byte < offset + length,
    ensures
        ({
            let (after, left, next) = copy_next(
                worker,
                mirror,
                CopyPhase::Locking(offset, length),
                CopyEvent::Released,
            );
            &&& holds_byte(mirror.ranges, byte) ==> next == CopyPhase::Locking(offset, length)
                && after == worker && left == mirror
            &&& next is Locking || holds_byte(left.ranges, byte)
            &&& next is Locking || (next matches CopyPhase::SubmittingRead(block) && block.offset
                == offset && block.length == length && !block.punch_hole)
        }),
{
    law_lock_takes_exactly_free_bytes(mirror.ranges, offset, length as int);
}

/// A block is written only after the source has read all of it, at the same place and over the
/// same length; a hole takes its place exactly if the block is zero and the destination is sparse.
pub proof fn law_block_is_written_as_read(
    worker: CopyWorker,
    mirror: MirrorView,
    block: CopyBlock,
    event: CopyEvent,
)
    requires
        copy_answers(CopyPhase::AwaitingRead(block), event),
        copy_in_bounds(worker, mirror, CopyPhase::AwaitingRead(block)),
    ensures
        ({
            let (after, left, next) = copy_next(
                worker,
                mirror,
                CopyPhase::AwaitingRead(block),
                event,
            );
            if (event matches CopyEvent::Completion(Ok((_, result)), _) && result
                == block.length) {
                &&& left == mirror
                &&& next matches CopyPhase::SubmittingWrite(write) && {
                    &&& write.offset == block.offset
                    &&& write.length == block.length
                    &&& write.user_data == worker.next_user_data
                    &&& write.user_data != after.next_user_data
                    &&& write.punch_hole <==> worker.dest_is_sparse && (
                    event matches CopyEvent::Completion(_, true))
                }
            } else {
                &&& next matches CopyPhase::Finished(Err(_))
                &&& after == worker
            }
        }),
{
}

/// The copy moves on behind a block exactly if the destination has confirmed the whole block, or
/// the hole. Then, and when the copy fails, the bytes of the block are no longer locked.
pub proof fn law_confirmed_block_counts(
    worker: CopyWorker,
    mirror: MirrorView,
    block: CopyBlock,
    event: CopyEvent,
)
    requires
        copy_answers(CopyPhase::AwaitingWrite(block), event),
        copy_in_bounds(worker, mirror, CopyPhase::AwaitingWrite(block)),
    ensures
        ({
            let (after, left, next) = copy_next(
                worker,
                mirror,
                CopyPhase::AwaitingWrite(block),
                event,
            );
            let confirmed = event matches CopyEvent::Completion(Ok((_, result)), _) && (
            block.punch_hole ==> result == 0) && (!block.punch_hole ==> result == block.length);
            &&& confirmed ==> after.offset == block.offset + block.length
            &&& !confirmed ==> after == worker && (next matches CopyPhase::Finished(Err(_)))
            &&& !confirmed ==> left.copied_bytes == mirror.copied_bytes && left.ranges
                == mirror.ranges.remove(block.offset)
            &&& confirmed && next is Finished ==> left.ranges == mirror.ranges.remove(block.offset)
            &&& confirmed && next is SubmittingFlush ==> left.ranges == mirror.ranges.remove(
                block.offset,
            )
        }),
{
}

/// A copy that fails says why: a backend that takes no request is named by the request, a backend
/// that reports an error number by that number, and one that moves too few or too many bytes by
/// what it moved. No byte of the block stays locked.
pub proof fn law_failed_copy_has_reason(
    worker: CopyWorker,
    mirror: MirrorView,
    phase: CopyPhase,
    event: CopyEvent,
    error: CopyError,
)
    requires
        copy_answers(phase, event),
        copy_in_bounds(worker, mirror, phase),
        errno_fits(event),
        copy_next(worker, mirror, phase, event).2 == CopyPhase::Finished(Err(error)),
    ensures
        error is Buffer <==> phase is Allocating && event == CopyEvent::Done(false),
        error is ReadSubmit <==> phase is SubmittingRead && event == CopyEvent::Done(false),
        error is WriteSubmit <==> (phase matches CopyPhase::SubmittingWrite(block)
            && !block.punch_hole) && event == CopyEvent::Done(false),
        error is PunchHoleSubmit <==> (phase matches CopyPhase::SubmittingWrite(block)
            && block.punch_hole) && event == CopyEvent::Done(false),
        error is FlushSubmit <==> phase is SubmittingFlush && event == CopyEvent::Done(false),
        error is Wait <==> event matches CopyEvent::Completion(Err(_), _),
        error matches CopyError::Os(errno) ==> errno > 0 && (event matches CopyEvent::Completion(
            Ok((_, result)),
            _,
        ) && result == -errno),
        error matches CopyError::SourceResult(actual, expected) ==> actual >= 0 && actual
            != expected && (event matches CopyEvent::Completion(Ok((_, result)), _) && result
            == actual) && (phase matches CopyPhase::AwaitingRead(block) && block.length
            == expected),
        error matches CopyError::DestinationResult(actual, expected) ==> actual >= 0 && actual
            != expected && (event matches CopyEvent::Completion(Ok((_, result)), _) && result
            == actual) && (phase matches CopyPhase::AwaitingWrite(block) && (block.punch_hole
            ==> expected == 0) && (!block.punch_hole ==> expected == block.length)),
        error matches CopyError::FlushUserData(actual, expected) ==> actual != expected && (
        event matches CopyEvent::Completion(Ok((id, _)), _) && id == actual) && phase
            == CopyPhase::AwaitingFlush(expected),
        error matches CopyError::FlushResult(actual) ==> actual > 0 && phase is AwaitingFlush && (
        event matches CopyEvent::Completion(Ok((_, result)), _) && result == actual),
        phase matches CopyPhase::SubmittingRead(block) ==> !copy_next(
            worker,
            mirror,
            phase,
            event,
        ).1.ranges.contains_key(block.offset),
        phase matches CopyPhase::AwaitingRead(block) ==> !copy_next(
            worker,
            mirror,
            phase,
            event,
        ).1.ranges.contains_key(block.offset),
        phase matches CopyPhase::SubmittingWrite(block) ==> !copy_next(
            worker,
            mirror,
            phase,
            event,
        ).1.ranges.contains_key(block.offset),
{
}

/// A request that a backend has taken is waited for as it was handed over.
pub proof fn law_taken_request_is_awaited(
    worker: CopyWorker,
    mirror: MirrorView,
    block: CopyBlock,
    user_data: u64,
)
    ensures
        copy_next(worker, mirror, CopyPhase::SubmittingRead(block), CopyEvent::Done(true)) == (
            worker,
            mirror,
            CopyPhase::AwaitingRead(block),
        ),
        copy_next(worker, mirror, CopyPhase::SubmittingWrite(block), CopyEvent::Done(true)) == (
            worker,
            mirror,
            CopyPhase::AwaitingWrite(block),
        ),
        copy_next(worker, mirror, CopyPhase::SubmittingFlush(user_data), CopyEvent::Done(true)) == (
            worker,
            mirror,
            CopyPhase::AwaitingFlush(user_data),
        ),
{
}

/// A running mirror is ready once the flush of the copy has succeeded, and the copy has then ended
/// with success; a flush with any other outcome ends it with an error.
pub proof fn law_flush_makes_ready(
    worker: CopyWorker,
    mirror: MirrorView,
    user_data: u64,
    completion: Result<(u64, i32), ()>,
    zero: bool,
)
    requires
        mirror.phase is Running || mirror.phase is Ready,
    ensures
        ({
            let (after, left, next) = copy_next(
                worker,
                mirror,
                CopyPhase::AwaitingFlush(user_data),
                CopyEvent::Completion(completion, zero),
            );
            let succeeded = completion == Ok::<(u64, i32), ()>((user_data, 0i32));
            &&& succeeded ==> left.phase is Ready && (next matches CopyPhase::Finished(Ok(_)))
            &&& !succeeded ==> left.phase == mirror.phase && (next matches CopyPhase::Finished(
                Err(_),
            ))
            &&& left.ranges == mirror.ranges
            &&& left.copied_bytes == mirror.copied_bytes
            &&& after == worker
        }),
{
}

/// A step of the copy: the mirror as the worker finds it, and the answer that it gets. Between
/// two steps the mirrored writes of the guest may change which ranges are locked, and the
/// phase of the mirror.
pub struct CopyStep {
    pub mirror: MirrorView,
    pub event: CopyEvent,
}

/// What the steps of a copy lead to.
pub open spec fn copy_after(worker: CopyWorker, mirror: MirrorView, steps: Seq<CopyStep>) -> (
    CopyWorker,
    MirrorView,
    CopyPhase,
)
    decreases steps.len(),
{
    if steps.len() == 0 {
        (worker, mirror, CopyPhase::Allocating)
    } else {
        let (before, _, phase) = copy_after(worker, mirror, steps.drop_last());
        copy_next(before, steps.last().mirror, phase, steps.last().event)
    }
}

/// The steps are those of one worker: each answer is one to what the worker asks for, and
/// nobody else changes the number of copied bytes or the size of the disk.
pub open spec fn copy_run(worker: CopyWorker, mirror: MirrorView, steps: Seq<CopyStep>) -> bool
    decreases steps.len(),
{
    steps.len() > 0 ==> {
        let (_, left, phase) = copy_after(worker, mirror, steps.drop_last());
        let step = steps.last();
        &&& copy_run(worker, mirror, steps.drop_last())
        &&& copy_answers(phase, step.event)
        &&& step.mirror.copied_bytes == left.copied_bytes
        &&& step.mirror.total_bytes == left.total_bytes
    }
}

/// The length of the block whose copy an answer completes, or zero.
pub open spec fn block_copied(phase: CopyPhase, event: CopyEvent) -> nat {
    match (phase, event) {
        (CopyPhase::AwaitingWrite(block), CopyEvent::Completion(Ok((_, result)), _)) => if result
            == (if block.punch_hole {
            0
        } else {
            block.length as int
        }) {
            block.length as nat
        } else {
            0
        },
        _ => 0,
    }
}

/// The sum of the lengths of the blocks that the steps of a copy have completed.
pub open spec fn blocks_copied(worker: CopyWorker, mirror: MirrorView, steps: Seq<CopyStep>) -> nat
    decreases steps.len(),
{
    if steps.len() == 0 {
        0
    } else {
        let phase = copy_after(worker, mirror, steps.drop_last()).2;
        blocks_copied(worker, mirror, steps.drop_last()) + block_copied(phase, steps.last().event)
    }
}

proof fn lemma_step_stays_in_bounds(
    worker: CopyWorker,
    mirror: MirrorView,
    phase: CopyPhase,
    event: CopyEvent,
)
    requires
        copy_answers(phase, event),
        copy_in_bounds(worker, mirror, phase),
        mirror.copied_bytes == worker.offset,
        worker.offset <= mirror.total_bytes,
    ensures
        ({
            let (after, left, next) = copy_next(worker, mirror, phase, event);
            &&& copy_in_bounds(after, left, next)
            &&& left.total_bytes == mirror.total_bytes
            &&& left.copied_bytes == after.offset
            &&& after.offset <= mirror.total_bytes
            &&& after.offset == worker.offset + block_copied(phase, event)
        }),
{
}

proof fn lemma_progress(worker: CopyWorker, mirror: MirrorView, steps: Seq<CopyStep>)
    requires
        worker.offset == 0,
        mirror.copied_bytes == 0,
        copy_run(worker, mirror, steps),
    ensures
        ({
            let (after, left, phase) = copy_after(worker, mirror, steps);
            &&& copy_in_bounds(after, left, phase)
            &&& left.total_bytes == mirror.total_bytes
            &&& left.copied_bytes == after.offset
            &&& after.offset <= mirror.total_bytes
            &&& after.offset == blocks_copied(worker, mirror, steps)
        }),
    decreases steps.len(),
{
    if steps.len() > 0 {
        lemma_progress(worker, mirror, steps.drop_last());
        let (before, _, phase) = copy_after(worker, mirror, steps.drop_last());
        lemma_step_stays_in_bounds(before, steps.last().mirror, phase, steps.last().event);
    }
}

proof fn lemma_run_prefix(worker: CopyWorker, mirror: MirrorView, steps: Seq<CopyStep>, n: int)
    requires
        0 <= n <= steps.len(),
        copy_run(worker, mirror, steps),
    ensures
        copy_run(worker, mirror, steps.take(n)),
        blocks_copied(worker, mirror, steps.take(n)) <= blocks_copied(worker, mirror, steps),
    decreases steps.len(),
{
    if n == steps.len() {
        assert(steps.take(n) =~= steps);
    } else {
        lemma_run_prefix(worker, mirror, steps.drop_last(), n);
        assert(steps.drop_last().take(n) =~= steps.take(n));
    }
}

/// Over a whole copy, the number of copied bytes that users see is the sum of the lengths of
/// the blocks that have been copied so far. It is never larger than the size of the disk,
/// which does not change, and never decreases: after the first `n` steps it is not larger
/// than after all of them.
pub proof fn law_progress_is_sum_of_blocks(
    worker: CopyWorker,
    mirror: MirrorView,
    steps: Seq<CopyStep>,
    n: int,
)
    requires
        worker.offset == 0,
        mirror.copied_bytes == 0,
        copy_run(worker, mirror, steps),
        0 <= n <= steps.len(),
    ensures
        ({
            let status = copy_after(worker, mirror, steps).1;
            let earlier = copy_after(worker, mirror, steps.take(n)).1;
            &&& status.total_bytes == mirror.total_bytes
            &&& status.copied_bytes == blocks_copied(worker, mirror, steps)
            &&& status.copied_bytes <= status.total_bytes
            &&& earlier.copied_bytes <= status.copied_bytes
        }),
{
    lemma_run_prefix(worker, mirror, steps, n);
    lemma_progress(worker, mirror, steps);
    lemma_progress(worker, mirror, steps.take(n));
}

/// The copy makes a mirror ready only after every byte has been copied and the
/// destination has confirmed a flush that was submitted afterwards.
pub proof fn law_ready_means_copied(
    worker: CopyWorker,
    mirror: MirrorView,
    phase: CopyPhase,
    event: CopyEvent,
)
    requires
        copy_answers(phase, event),
        copy_in_bounds(worker, mirror, phase),
        !(mirror.phase is Ready),
        copy_next(worker, mirror, phase, event).1.phase is Ready,
    ensures
        worker.offset >= mirror.total_bytes,
        flushed(phase, event),
{
}

/// While a block is with one of the backends, its range is locked, and no mirrored write
/// that overlaps it can lock its own.
pub open spec fn block_locked(mirror: MirrorView, phase: CopyPhase) -> bool {
    match phase {
        CopyPhase::SubmittingRead(block)
        | CopyPhase::AwaitingRead(block)
        | CopyPhase::SubmittingWrite(block)
        | CopyPhase::AwaitingWrite(block) => mirror.ranges.contains_key(block.offset)
            && mirror.ranges[block.offset] == block.offset + block.length,
        _ => true,
    }
}

/// The range of a block stays locked from before it is read until it has been written.
pub proof fn law_block_locked_through_copy(
    worker: CopyWorker,
    mirror: MirrorView,
    phase: CopyPhase,
    event: CopyEvent,
)
    requires
        copy_answers(phase, event),
        copy_in_bounds(worker, mirror, phase),
        block_locked(mirror, phase),
        ranges_disjoint(mirror.ranges),
    ensures
        block_locked(
            copy_next(worker, mirror, phase, event).1,
            copy_next(worker, mirror, phase, event).2,
        ),
{
}

} // verus!
