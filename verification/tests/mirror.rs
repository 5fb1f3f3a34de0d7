use std::collections::{BTreeMap, VecDeque};
use std::sync::Arc;

use cloud_hypervisor::mirror::{
    is_same_kind, phase_event, CopyError, MirrorEvent, MirrorFailure, MirrorPhase, MirrorState,
    RangeError, RangeLockManager, MIRROR_BLOCK_SIZE,
};
use cloud_hypervisor::mirror_copy::{CopyEvent, CopyPhase, CopyWorker};
use cloud_hypervisor::mirror_io::{
    AsyncIoError, MirrorIoEvent, MirrorIoPhase, MirrorOp, MirroringAsyncIo, OpFault, OpKind, EIO,
};

/// Overlap is detected whether the held range precedes the query or starts
/// inside it.
#[test]
fn overlaps_detects_overlap() {
    let mut preceding = BTreeMap::new();
    preceding.insert(10u64, 25u64);
    assert!(RangeLockManager::overlaps_any(&preceding, 20, 30));

    let mut starts_inside = BTreeMap::new();
    starts_inside.insert(10u64, 20u64);
    starts_inside.insert(25u64, 30u64);
    assert!(RangeLockManager::overlaps_any(&starts_inside, 21, 26));
}

#[test]
fn overlaps_disjoint_returns_false() {
    let mut locked = BTreeMap::new();
    locked.insert(10u64, 20u64);
    locked.insert(30u64, 40u64);
    assert!(!RangeLockManager::overlaps_any(&locked, 22, 28));
}

#[test]
fn overlaps_touching_boundary_is_not_overlap() {
    let mut locked = BTreeMap::new();
    locked.insert(10u64, 20u64);
    assert!(!RangeLockManager::overlaps_any(&locked, 20, 30));
}

/// Verifies that empty and overflowing ranges are rejected as invalid input.
#[test]
fn range_lock_rejects_empty_and_overflowing_ranges() {
    let mut manager = RangeLockManager::new();

    let empty = manager.lock_range(0, 0).err().unwrap();
    assert_eq!(empty, RangeError::Empty);
    assert_eq!(empty.to_string(), "Range length is zero");

    let overflow = manager.lock_range(u64::MAX, 1).err().unwrap();
    assert_eq!(overflow, RangeError::Overflow);
    assert_eq!(overflow.to_string(), "Range overflow");
}

#[test]
fn buffers_lock_their_total_length() {
    let mut manager = RangeLockManager::new();
    assert_eq!(manager.lock_iovecs(100, &vec![10, 20]), Ok(true));
    assert_eq!(manager.lock_range(129, 1), Ok(false));
    assert_eq!(manager.lock_range(130, 1), Ok(true));
    manager.release(100);
    assert_eq!(manager.lock_range(129, 1), Ok(true));
    let overflow = manager
        .lock_iovecs(0, &vec![usize::MAX, 1])
        .err()
        .unwrap();
    assert_eq!(overflow, RangeError::IovecOverflow);
    assert_eq!(overflow.to_string(), "iovec length overflow");
}

/// In-memory backend for driving [`MirroringAsyncIo`] without a real fd,
/// io_uring, or the copy worker.
///
/// Each submission is recorded as an immediately available completion.
struct MockAsyncIo {
    completions: VecDeque<(u64, i32)>,
    completion_result: Option<i32>,
    /// When set, the write submit at this 0-based index returns an error
    /// instead of completing.
    ///
    /// Drives the destination-failure and partial-batch paths.
    fail_on_nth_write: Option<usize>,
    writes_seen: usize,
    submissions: usize,
}

impl MockAsyncIo {
    fn new() -> Self {
        Self {
            completions: VecDeque::new(),
            completion_result: None,
            fail_on_nth_write: None,
            writes_seen: 0,
            submissions: 0,
        }
    }

    /// Records a completion.
    fn complete(&mut self, user_data: u64, result: i32) {
        let result = self.completion_result.take().unwrap_or(result);
        self.completions.push_back((user_data, result));
    }

    fn submit(&mut self, op: &MirrorOp, user_data: Option<u64>, read_len: usize) -> bool {
        self.submissions += 1;
        match op {
            MirrorOp::ReadVectored => self.complete(user_data.unwrap(), read_len as i32),
            MirrorOp::WriteVectored(_, lens) => {
                let index = self.writes_seen;
                self.writes_seen += 1;
                if self.fail_on_nth_write == Some(index) {
                    return false;
                }
                self.complete(user_data.unwrap(), lens.iter().sum::<usize>() as i32);
            }
            MirrorOp::Fsync => {
                if let Some(user_data) = user_data {
                    self.complete(user_data, 0);
                }
            }
            MirrorOp::PunchHole(_, _) | MirrorOp::WriteZeroes(_, _) => {
                self.complete(user_data.unwrap(), 0);
            }
        }
        true
    }

    fn next_completion(&mut self) -> Result<(u64, i32), ()> {
        self.completions.pop_front().ok_or(())
    }
}

struct Mirror {
    io: MirroringAsyncIo,
    source: MockAsyncIo,
    destination: MockAsyncIo,
    state: MirrorState,
}

impl Mirror {
    /// Answers what a phase asks for.
    fn answer(
        &mut self,
        phase: MirrorIoPhase,
        op: &MirrorOp,
        user_data: Option<u64>,
        read_len: usize,
    ) -> MirrorIoEvent {
        match phase {
            MirrorIoPhase::Passthrough | MirrorIoPhase::SubmittingSource(_) => {
                MirrorIoEvent::Done(self.source.submit(op, user_data, read_len))
            }
            MirrorIoPhase::SubmittingDestination(_) => {
                MirrorIoEvent::Done(self.destination.submit(op, user_data, read_len))
            }
            MirrorIoPhase::AwaitingSource(_) => {
                MirrorIoEvent::Completion(self.source.next_completion())
            }
            MirrorIoPhase::AwaitingDestination(_, _) => {
                MirrorIoEvent::Completion(self.destination.next_completion())
            }
            MirrorIoPhase::Notifying(_) => MirrorIoEvent::Done(true),
            MirrorIoPhase::Locking(_) => panic!("deadlock"),
            MirrorIoPhase::Finished(_) => unreachable!(),
        }
    }

    fn drive(
        &mut self,
        op: &MirrorOp,
        user_data: Option<u64>,
        read_len: usize,
    ) -> Result<(), AsyncIoError> {
        let mut phase = self.io.begin(&mut self.state, op, user_data);
        loop {
            if let MirrorIoPhase::Finished(result) = phase {
                return result;
            }
            let event = self.answer(phase, op, user_data, read_len);
            let fails = self.io.records_failure(&phase, &event);
            phase = self.io.advance(&mut self.state, phase, event);
            assert!(!fails || matches!(self.state.phase(), MirrorPhase::Failed(_)));
        }
    }

    fn read_vectored(&mut self, len: usize, user_data: u64) -> Result<(), AsyncIoError> {
        self.drive(&MirrorOp::ReadVectored, Some(user_data), len)
    }

    fn write_vectored(
        &mut self,
        offset: i64,
        len: usize,
        user_data: u64,
    ) -> Result<(), AsyncIoError> {
        self.drive(
            &MirrorOp::WriteVectored(offset, vec![len]),
            Some(user_data),
            0,
        )
    }

    fn fsync(&mut self, user_data: Option<u64>) -> Result<(), AsyncIoError> {
        self.drive(&MirrorOp::Fsync, user_data, 0)
    }

    fn punch_hole(&mut self, offset: u64, len: u64, user_data: u64) -> Result<(), AsyncIoError> {
        self.drive(&MirrorOp::PunchHole(offset, len), Some(user_data), 0)
    }

    fn write_zeroes(&mut self, offset: u64, len: u64, user_data: u64) -> Result<(), AsyncIoError> {
        self.drive(&MirrorOp::WriteZeroes(offset, len), Some(user_data), 0)
    }

    fn next_completed_request(&mut self) -> Option<(u64, i32)> {
        while let Some((user_data, result)) = self.source.completions.pop_front() {
            self.io.stash(user_data, result);
        }
        self.io.next_completed_request()
    }
}

fn mirror_with_mocks() -> Mirror {
    mirror_from(
        MockAsyncIo::new(),
        MockAsyncIo::new(),
        MirrorState::new(1 << 20, "test-disk".into()),
    )
}

fn mirror_from(source: MockAsyncIo, destination: MockAsyncIo, state: MirrorState) -> Mirror {
    Mirror {
        io: MirroringAsyncIo::create(),
        source,
        destination,
        state,
    }
}

/// Drains completions until `n` have arrived (or the budget is exhausted).
fn drain_n(mirror: &mut Mirror, n: usize) -> Vec<u64> {
    let mut acked = Vec::new();
    for _ in 0..64 {
        while let Some((user_data, result)) = mirror.next_completed_request() {
            assert!(result >= 0, "unexpected error completion: {result}");
            acked.push(user_data);
        }
        if acked.len() >= n {
            break;
        }
    }
    acked
}

/// Returns the stored failure or panics if the mirror has not failed.
fn failure_reason(state: &MirrorState) -> Arc<MirrorFailure> {
    let MirrorPhase::Failed(reason) = state.phase() else {
        panic!("mirror did not enter the failed phase");
    };
    reason
}

/// Two overlapping guest writes submitted before either is reaped must both
/// complete in submission order without deadlocking.
#[test]
fn overlapping_writes_complete_in_order() {
    let mut mirror = mirror_with_mocks();

    mirror.write_vectored(0, 4096, 1).unwrap();
    mirror.write_vectored(0, 4096, 2).unwrap();

    assert_eq!(
        drain_n(&mut mirror, 2),
        vec![1, 2],
        "both overlapping writes complete in submission order"
    );
}

/// While the copy worker holds a range (simulated by locking it), an
/// overlapping guest write must block and proceed only once the range is
/// released.
#[test]
fn copy_worker_hold_serializes_overlapping_guest_write() {
    let mut state = MirrorState::new(1 << 20, "test-disk".into());
    // The "copy worker" holds [0, 4096).
    assert_eq!(state.lock_range(0, 4096), Ok(true));

    let mut mirror = mirror_from(MockAsyncIo::new(), MockAsyncIo::new(), state);
    let op = MirrorOp::WriteVectored(0, vec![4096]);

    // The held range must block the overlapping guest write.
    let phase = mirror.io.begin(&mut mirror.state, &op, Some(1));
    assert!(
        matches!(phase, MirrorIoPhase::Locking(_)),
        "guest write proceeded while the copy worker held the range"
    );
    let phase = mirror
        .io
        .advance(&mut mirror.state, phase, MirrorIoEvent::Released);
    assert!(matches!(phase, MirrorIoPhase::Locking(_)));
    assert_eq!(mirror.source.submissions, 0);

    // Releasing the range lets the write through.
    mirror.state.release_range(0);
    let mut phase = mirror
        .io
        .advance(&mut mirror.state, phase, MirrorIoEvent::Released);
    assert!(
        matches!(phase, MirrorIoPhase::SubmittingSource(_)),
        "guest write did not proceed after the range was released"
    );
    while !matches!(phase, MirrorIoPhase::Finished(_)) {
        let event = mirror.answer(phase, &op, Some(1), 0);
        phase = mirror.io.advance(&mut mirror.state, phase, event);
    }
    assert_eq!(phase, MirrorIoPhase::Finished(Ok(())));
    assert_eq!(mirror.next_completed_request(), Some((1, 4096)));
}

/// Reads are source-only passthrough (no range lock) and still complete.
#[test]
fn read_passes_through_to_source() {
    let mut mirror = mirror_with_mocks();

    mirror.read_vectored(4096, 7).unwrap();

    let mut got = None;
    for _ in 0..64 {
        if let Some(completion) = mirror.next_completed_request() {
            got = Some(completion);
            break;
        }
    }
    assert_eq!(got, Some((7, 4096)), "read completes via the source");
    assert_eq!(mirror.destination.submissions, 0);
}

/// A destination submit failure degrades the mirror to source passthrough:
/// the phase goes `Failed`, and both the failing write and a subsequent
/// write still complete to the guest off the source alone.
#[test]
fn destination_submit_failure_degrades_to_passthrough() {
    let mut dest = MockAsyncIo::new();
    dest.fail_on_nth_write = Some(0);
    let mut mirror = mirror_from(
        MockAsyncIo::new(),
        dest,
        MirrorState::new(1 << 20, "test-disk".into()),
    );

    mirror.write_vectored(0, 4096, 1).unwrap();
    assert!(
        matches!(mirror.state.phase(), MirrorPhase::Failed(_)),
        "destination failure transitions the mirror to Failed"
    );
    assert_eq!(
        *failure_reason(&mirror.state),
        MirrorFailure::DestinationSubmit
    );

    // Subsequent write goes to the source only.
    mirror.write_vectored(0, 4096, 2).unwrap();
    assert_eq!(mirror.destination.submissions, 1);

    let mut acked = drain_n(&mut mirror, 2);
    acked.sort();
    assert_eq!(acked, vec![1, 2], "both writes complete off the source");
}

/// Verifies that a short destination completion fails the mirror while the guest
/// receives the successful source completion.
#[test]
fn short_destination_completion_uses_source_result() {
    let mut destination = MockAsyncIo::new();
    destination.completion_result = Some(2048);
    let mut mirror = mirror_from(
        MockAsyncIo::new(),
        destination,
        MirrorState::new(4096, "test-disk".into()),
    );

    mirror.write_vectored(0, 4096, 7).unwrap();

    assert_eq!(mirror.next_completed_request(), Some((7, 4096)));
    assert!(mirror.io.source_passthrough());
    assert!(matches!(
        failure_reason(&mirror.state).as_ref(),
        MirrorFailure::DestinationCompletion {
            user_data: 7,
            actual: 2048,
            expected: 4096,
        }
    ));
}

/// Verifies that a source I/O error fails the mirror and is reported to the guest.
#[test]
fn source_io_error_reaches_guest() {
    let mut source = MockAsyncIo::new();
    source.completion_result = Some(-libc::EIO);
    let mut mirror = mirror_from(
        source,
        MockAsyncIo::new(),
        MirrorState::new(4096, "test-disk".into()),
    );

    mirror.write_vectored(0, 4096, 9).unwrap();

    assert_eq!(mirror.next_completed_request(), Some((9, -libc::EIO)));
    assert!(matches!(
        failure_reason(&mirror.state).as_ref(),
        MirrorFailure::SourceCompletion {
            user_data: 9,
            actual,
            expected: 4096,
        } if *actual == -libc::EIO
    ));
}

/// The range must stay held across the whole submit and wait, not just
/// acquisition.
#[test]
fn guard_is_held_across_submit_and_wait() {
    let state = MirrorState::new(1 << 20, "test-disk".into());
    let mut mirror = mirror_from(MockAsyncIo::new(), MockAsyncIo::new(), state);
    let op = MirrorOp::WriteVectored(0, vec![4096]);

    // The write parks waiting on the destination completion while holding the
    // range lock.
    let mut phase = mirror.io.begin(&mut mirror.state, &op, Some(1));
    while !matches!(phase, MirrorIoPhase::AwaitingDestination(_, _)) {
        let event = mirror.answer(phase, &op, Some(1), 0);
        phase = mirror.io.advance(&mut mirror.state, phase, event);
        assert_eq!(
            mirror.state.lock_range(0, 4096),
            Ok(false),
            "lock_range acquired while the in-flight write still held the range"
        );
    }

    // Releasing the destination completion lets the write finish and release
    // its range, which unblocks the overlapping lock_range.
    while !matches!(phase, MirrorIoPhase::Finished(_)) {
        let event = mirror.answer(phase, &op, Some(1), 0);
        phase = mirror.io.advance(&mut mirror.state, phase, event);
    }
    assert_eq!(
        mirror.state.lock_range(0, 4096),
        Ok(true),
        "lock_range did not acquire after the write released the range"
    );
}

/// A mid-batch submit failure must still return `Ok` with one completion per
/// entry, including an error completion for the failed one.
#[test]
fn failed_batch_submit_accounts_every_request() {
    // Second write (index 1) fails at submit on the source; the first
    // already went through.
    let mut source = MockAsyncIo::new();
    source.fail_on_nth_write = Some(1);
    let mut mirror = mirror_from(
        source,
        MockAsyncIo::new(),
        MirrorState::new(1 << 20, "test-disk".into()),
    );

    for (offset, user_data) in [(0, 1), (4096, 2)] {
        let result = mirror.write_vectored(offset, 4096, user_data);
        assert_eq!(result.is_err(), user_data == 2);
        assert_eq!(
            mirror.io.batch_entry_done(user_data, result),
            user_data == 2
        );
    }

    let mut completions = Vec::new();
    while let Some(completion) = mirror.next_completed_request() {
        completions.push(completion);
    }
    completions.sort_by_key(|(user_data, _)| *user_data);

    assert_eq!(
        completions.len(),
        2,
        "every batch entry owes exactly one completion"
    );
    assert_eq!(
        completions[0],
        (1, 4096),
        "first write completes successfully"
    );
    assert_eq!(completions[1].0, 2, "second entry is still accounted");
    assert!(
        completions[1].1 < 0,
        "second entry carries an error result (reported IOERR), not an orphan"
    );
    assert_eq!(completions[1].1, -libc::EIO);
}

/// The lifecycle advances Running -> Ready -> Completing -> Completed, each
/// state reached only from its documented predecessor.
#[test]
fn phase_advances_through_the_lifecycle() {
    let mut state = MirrorState::new(1 << 20, "test-disk".into());
    assert!(matches!(state.phase(), MirrorPhase::Running));
    assert_eq!(
        state.transition_to_phase(MirrorPhase::Ready),
        Some(MirrorEvent::DiskMirrorReady)
    );
    assert_eq!(state.transition_to_phase(MirrorPhase::Completing), None);
    assert_eq!(state.transition_to_phase(MirrorPhase::Completed), None);
    assert!(matches!(state.phase(), MirrorPhase::Completed));
}

/// Moves a mirror on as its users do: a transition that the mirror refuses is a panic, any
/// other one is made.
fn transition(state: &mut MirrorState, target: MirrorPhase) {
    assert!(
        state.can_transition(&target),
        "Invalid mirror phase transition attempted: {:?} -> {target:?}",
        state.phase()
    );
    state.transition_to_phase(target);
}

/// An invalid phase transition panics.
#[test]
#[should_panic(expected = "Invalid mirror phase transition attempted: Running -> Completed")]
fn invalid_phase_transition_panics() {
    let mut state = MirrorState::new(1 << 20, "test-disk".into());
    // Running -> Completed skips Ready and Completing, so it is rejected.
    transition(&mut state, MirrorPhase::Completed);
}

/// `Completed` is terminal: no later transition is accepted.
#[test]
#[should_panic(expected = "Invalid mirror phase transition attempted: Completed -> Cancelling")]
fn completed_phase_is_terminal() {
    let mut state = MirrorState::new(1 << 20, "test-disk".into());
    transition(&mut state, MirrorPhase::Ready);
    transition(&mut state, MirrorPhase::Completing);
    transition(&mut state, MirrorPhase::Completed);
    transition(&mut state, MirrorPhase::Cancelling);
}

/// A failure keeps its first reason (transitions compare only the variant)
/// and can still move to `Cancelling` for cleanup.
#[test]
fn failed_keeps_first_reason_then_cancels() {
    let mut state = MirrorState::new(1 << 20, "test-disk".into());
    let first = Arc::new(MirrorFailure::SourceCompletion {
        user_data: 1,
        actual: -libc::EIO,
        expected: 0,
    });
    assert_eq!(
        state.transition_to_phase(MirrorPhase::Failed(first.clone())),
        Some(MirrorEvent::DiskMirrorFailed)
    );
    assert_eq!(
        state.transition_to_phase(MirrorPhase::Failed(Arc::new(
            MirrorFailure::SourceCompletion {
                user_data: 2,
                actual: -libc::EIO,
                expected: 0,
            },
        ))),
        None
    );
    let MirrorPhase::Failed(reason) = state.phase() else {
        panic!("mirror did not enter the failed phase");
    };
    assert!(Arc::ptr_eq(&reason, &first));
    state.transition_to_phase(MirrorPhase::Cancelling);
    assert!(matches!(state.phase(), MirrorPhase::Cancelling));
}

/// A tracked fsync (`Some`) flushes both backends and surfaces one guest
/// completion for its user_data.
#[test]
fn tracked_fsync_completes_to_guest() {
    let mut mirror = mirror_with_mocks();
    mirror.fsync(Some(5)).unwrap();
    assert_eq!(drain_n(&mut mirror, 1), vec![5]);
    assert_eq!(mirror.destination.submissions, 1);
}

/// A barrier fsync (`None`) flushes both backends but owes the guest no
/// completion, so nothing surfaces.
#[test]
fn barrier_fsync_surfaces_no_completion() {
    let mut mirror = mirror_with_mocks();
    mirror.fsync(None).unwrap();
    assert!(mirror.next_completed_request().is_none());
    assert_eq!(mirror.source.submissions, 1);
    assert_eq!(mirror.destination.submissions, 1);
}

/// `write_zeroes` mirrors to both backends under the range lock and
/// surfaces one guest completion, like a write.
#[test]
fn write_zeroes_mirrors_and_completes() {
    let mut mirror = mirror_with_mocks();
    mirror.write_zeroes(0, 4096, 3).unwrap();
    assert_eq!(drain_n(&mut mirror, 1), vec![3]);
    assert_eq!(mirror.destination.submissions, 1);
}

/// Once degraded to passthrough, every mutating op forwards to the source
/// alone and still completes, with no destination and no range lock.
#[test]
fn degraded_mirror_passes_all_ops_through_to_source() {
    let mut dest = MockAsyncIo::new();
    dest.fail_on_nth_write = Some(0);
    let mut mirror = mirror_from(
        MockAsyncIo::new(),
        dest,
        MirrorState::new(1 << 20, "test-disk".into()),
    );

    // The first write fails on the destination and flips to passthrough.
    mirror.write_vectored(0, 4096, 1).unwrap();
    assert!(matches!(mirror.state.phase(), MirrorPhase::Failed(_)));

    // Subsequent ops take the source-only passthrough branch.
    mirror.fsync(Some(2)).unwrap();
    mirror.punch_hole(0, 4096, 3).unwrap();
    mirror.write_zeroes(0, 4096, 4).unwrap();

    let mut acked = drain_n(&mut mirror, 4);
    acked.sort();
    assert_eq!(acked, vec![1, 2, 3, 4]);
    assert_eq!(mirror.destination.submissions, 1);
}

#[test]
fn other_completions_are_kept_while_waiting() {
    let mut mirror = mirror_with_mocks();
    mirror.read_vectored(512, 20).unwrap();
    mirror.write_vectored(0, 4096, 21).unwrap();
    assert_eq!(mirror.next_completed_request(), Some((20, 512)));
    assert_eq!(mirror.next_completed_request(), Some((21, 4096)));
    assert_eq!(mirror.next_completed_request(), None);
}

#[test]
fn operations_fail_before_they_reach_a_backend() {
    let mut mirror = mirror_with_mocks();
    assert_eq!(
        mirror.write_vectored(0, i32::MAX as usize + 1, 1),
        Err(AsyncIoError::Op(OpKind::WriteVectored, OpFault::TooLarge))
    );
    assert_eq!(
        mirror.punch_hole(0, 0, 2),
        Err(AsyncIoError::Op(
            OpKind::PunchHole,
            OpFault::Range(RangeError::Empty)
        ))
    );
    assert_eq!(
        mirror.write_zeroes(u64::MAX, 1, 3),
        Err(AsyncIoError::Op(
            OpKind::WriteZeroes,
            OpFault::Range(RangeError::Overflow)
        ))
    );
    assert_eq!(mirror.source.submissions, 0);
    assert!(!mirror.io.source_passthrough());
}

#[test]
fn source_that_cannot_be_awaited_fails_the_operation() {
    let mut mirror = mirror_with_mocks();
    let op = MirrorOp::WriteVectored(0, vec![8]);
    let mut phase = mirror.io.begin(&mut mirror.state, &op, Some(1));
    while !matches!(phase, MirrorIoPhase::AwaitingSource(_)) {
        let event = mirror.answer(phase, &op, Some(1), 0);
        phase = mirror.io.advance(&mut mirror.state, phase, event);
    }
    assert_eq!(
        mirror
            .io
            .advance(&mut mirror.state, phase, MirrorIoEvent::Completion(Err(()))),
        MirrorIoPhase::Finished(Err(AsyncIoError::Op(OpKind::WriteVectored, OpFault::Wait)))
    );
    // The range is free again.
    assert_eq!(mirror.state.lock_range(0, 8), Ok(true));
}

#[test]
fn destination_that_cannot_be_awaited_is_hidden_from_the_guest() {
    let mut mirror = mirror_with_mocks();
    let op = MirrorOp::Fsync;
    let mut phase = mirror.io.begin(&mut mirror.state, &op, Some(4));
    while !matches!(phase, MirrorIoPhase::AwaitingDestination(_, _)) {
        let event = mirror.answer(phase, &op, Some(4), 0);
        phase = mirror.io.advance(&mut mirror.state, phase, event);
    }
    assert!(mirror
        .io
        .records_failure(&phase, &MirrorIoEvent::Completion(Err(()))));
    phase = mirror
        .io
        .advance(&mut mirror.state, phase, MirrorIoEvent::Completion(Err(())));
    assert!(matches!(phase, MirrorIoPhase::Notifying(_)));
    assert_eq!(
        *failure_reason(&mirror.state),
        MirrorFailure::DestinationWait { user_data: 4 }
    );
    assert_eq!(mirror.next_completed_request(), Some((4, 0)));
}

#[test]
fn stricter_alignment_wins() {
    let mut mirror = mirror_with_mocks();
    assert_eq!(mirror.io.alignment(512, 4096), 4096);
    assert_eq!(mirror.io.alignment(4096, 512), 4096);
    assert!(mirror.io.batch_requests_enabled(false));
    mirror.destination.fail_on_nth_write = Some(0);
    mirror.write_vectored(0, 1, 1).unwrap();
    assert_eq!(mirror.io.alignment(512, 4096), 512);
    assert!(!mirror.io.batch_requests_enabled(false));
    assert!(mirror.io.batch_requests_enabled(true));
}

#[test]
fn constants_of_the_mirror() {
    assert_eq!(EIO, libc::EIO);
    assert_eq!(MIRROR_BLOCK_SIZE, 512 * 1024);
}

#[test]
fn events_are_emitted_once() {
    let failed = |error| MirrorPhase::Failed(Arc::new(MirrorFailure::CopyWorker(error)));
    assert_eq!(
        phase_event(&MirrorPhase::Running, &MirrorPhase::Ready),
        Some(MirrorEvent::DiskMirrorReady)
    );
    assert_eq!(phase_event(&MirrorPhase::Ready, &MirrorPhase::Ready), None);
    assert_eq!(
        phase_event(&MirrorPhase::Ready, &failed(CopyError::Wait)),
        Some(MirrorEvent::DiskMirrorFailed)
    );
    assert_eq!(
        phase_event(&failed(CopyError::Buffer), &failed(CopyError::Wait)),
        None
    );
    assert!(is_same_kind(
        &failed(CopyError::Buffer),
        &failed(CopyError::Wait)
    ));
    assert!(!is_same_kind(&MirrorPhase::Running, &MirrorPhase::Ready));
}

/// Copies a disk in memory, and returns how the copy ended.
fn copy_disk(
    worker: &mut CopyWorker,
    state: &mut MirrorState,
    source: &[u8],
    destination: &mut Vec<u8>,
    holes: &mut Vec<(u64, u64)>,
) -> Result<(), CopyError> {
    let mut phase = worker.begin();
    let mut buffer: Vec<u8> = Vec::new();
    loop {
        let event = match phase {
            CopyPhase::Finished(result) => return result,
            CopyPhase::Locking(_, _) => panic!("deadlock"),
            CopyPhase::Allocating
            | CopyPhase::SubmittingRead(_)
            | CopyPhase::SubmittingWrite(_)
            | CopyPhase::SubmittingFlush(_) => CopyEvent::Done(true),
            CopyPhase::AwaitingRead(block) => {
                let (from, to) = (block.offset as usize, (block.offset + block.length) as usize);
                buffer = source[from..to].to_vec();
                CopyEvent::Completion(
                    Ok((block.user_data, block.length as i32)),
                    CopyWorker::is_zero(&buffer),
                )
            }
            CopyPhase::AwaitingWrite(block) => {
                let from = block.offset as usize;
                if block.punch_hole {
                    holes.push((block.offset, block.length));
                    CopyEvent::Completion(Ok((block.user_data, 0)), false)
                } else {
                    destination[from..from + buffer.len()].copy_from_slice(&buffer);
                    CopyEvent::Completion(Ok((block.user_data, block.length as i32)), false)
                }
            }
            CopyPhase::AwaitingFlush(user_data) => CopyEvent::Completion(Ok((user_data, 0)), false),
        };
        let ends = CopyWorker::ends_copy(&phase, &event);
        let before = state.status();
        let copied = match &phase {
            CopyPhase::AwaitingWrite(block) => block.length,
            _ => 0,
        };
        phase = worker.run(state, phase, event);
        // Each block that has been copied is counted once.
        assert_eq!(state.status().copied_bytes, before.copied_bytes + copied);
        assert!(state.status().copied_bytes <= state.status().total_bytes);
        assert_eq!(state.status().total_bytes, before.total_bytes);
        assert_eq!(ends, matches!(state.phase(), MirrorPhase::Ready));
    }
}

#[test]
fn copy_makes_the_mirror_ready() {
    let source = vec![1, 2, 3, 4, 0, 0, 0, 0, 9, 9];
    let mut destination = vec![0; 10];
    let mut holes = Vec::new();
    let mut state = MirrorState::new(10, "disk".into());
    let mut worker = CopyWorker::new(true, 4);
    assert_eq!(
        copy_disk(
            &mut worker,
            &mut state,
            &source,
            &mut destination,
            &mut holes
        ),
        Ok(())
    );
    assert_eq!(destination, source);
    assert_eq!(holes, [(4, 4)]);
    let status = state.status();
    assert!(matches!(status.phase, MirrorPhase::Ready));
    assert_eq!(status.copied_bytes, 10);
    assert_eq!(status.total_bytes, 10);
    // Two requests for each block, and the flush.
    assert_eq!(worker.next_user_data, 7);
    // No range is held any more.
    assert_eq!(state.lock_range(0, 10), Ok(true));
}

#[test]
fn dense_destination_gets_zeroes() {
    let mut holes = Vec::new();
    let mut destination = vec![7; 4];
    let mut state = MirrorState::new(4, "disk".into());
    let mut worker = CopyWorker::new(false, 4);
    copy_disk(
        &mut worker,
        &mut state,
        &[0; 4],
        &mut destination,
        &mut holes,
    )
    .unwrap();
    assert_eq!(destination, [0; 4]);
    assert!(holes.is_empty());
}

#[test]
fn copy_stops_when_the_mirror_is_cancelled() {
    let mut state = MirrorState::new(8, "disk".into());
    state.transition_to_phase(MirrorPhase::Cancelling);
    let mut worker = CopyWorker::new(false, 4);
    let phase = worker.begin();
    assert_eq!(
        worker.run(&mut state, phase, CopyEvent::Done(true)),
        CopyPhase::Finished(Ok(()))
    );
    assert!(matches!(state.phase(), MirrorPhase::Cancelling));
}

#[test]
fn copy_waits_for_an_overlapping_write() {
    let mut state = MirrorState::new(8, "disk".into());
    assert_eq!(state.lock_range(3, 1), Ok(true));
    let mut worker = CopyWorker::new(false, 4);
    let phase = worker.begin();
    let phase = worker.run(&mut state, phase, CopyEvent::Done(true));
    assert_eq!(phase, CopyPhase::Locking(0, 4));
    let phase = worker.run(&mut state, phase, CopyEvent::Released);
    assert_eq!(phase, CopyPhase::Locking(0, 4));
    state.release_range(3);
    let phase = worker.run(&mut state, phase, CopyEvent::Released);
    assert!(matches!(phase, CopyPhase::SubmittingRead(_)));
}

fn copy_until(
    worker: &mut CopyWorker,
    state: &mut MirrorState,
    last: CopyEvent,
    steps: &[CopyEvent],
) -> CopyPhase {
    let mut phase = worker.begin();
    for event in steps {
        phase = worker.run(state, phase, *event);
    }
    worker.run(state, phase, last)
}

#[test]
fn copy_fails_with_the_step_that_failed() {
    let done = CopyEvent::Done(true);
    let not_done = CopyEvent::Done(false);
    let read = CopyEvent::Completion(Ok((0, 4)), false);
    let written = CopyEvent::Completion(Ok((1, 4)), false);
    let result = |result: i32| CopyEvent::Completion(Ok((0, result)), false);
    let wait = CopyEvent::Completion(Err(()), false);
    let cases = [
        (vec![], not_done, CopyError::Buffer),
        (vec![done], not_done, CopyError::ReadSubmit),
        (vec![done, done], wait, CopyError::Wait),
        (vec![done, done], result(-5), CopyError::Os(5)),
        (vec![done, done], result(3), CopyError::SourceResult(3, 4)),
        (vec![done, done, read], not_done, CopyError::WriteSubmit),
        (vec![done, done, read, done], result(-28), CopyError::Os(28)),
        (
            vec![done, done, read, done],
            result(2),
            CopyError::DestinationResult(2, 4),
        ),
        (
            vec![done, done, read, done, written],
            not_done,
            CopyError::FlushSubmit,
        ),
        (
            vec![done, done, read, done, written, done],
            CopyEvent::Completion(Ok((9, 0)), false),
            CopyError::FlushUserData(9, 2),
        ),
        (
            vec![done, done, read, done, written, done],
            CopyEvent::Completion(Ok((2, 1)), false),
            CopyError::FlushResult(1),
        ),
    ];
    for (steps, last, error) in cases {
        let mut state = MirrorState::new(4, "disk".into());
        let mut worker = CopyWorker::new(false, 4);
        assert_eq!(
            copy_until(&mut worker, &mut state, last, &steps),
            CopyPhase::Finished(Err(error))
        );
        // The range of the block is free again.
        assert_eq!(state.lock_range(0, 4), Ok(true));
        CopyWorker::record_failure(&mut state, error);
        assert_eq!(
            *failure_reason(&state),
            MirrorFailure::CopyWorker(error)
        );
    }
}

#[test]
fn copy_of_a_hole_that_is_refused_fails() {
    let mut state = MirrorState::new(4, "disk".into());
    let mut worker = CopyWorker::new(true, 4);
    let zero = CopyEvent::Completion(Ok((0, 4)), true);
    assert_eq!(
        copy_until(
            &mut worker,
            &mut state,
            CopyEvent::Done(false),
            &[CopyEvent::Done(true), CopyEvent::Done(true), zero],
        ),
        CopyPhase::Finished(Err(CopyError::PunchHoleSubmit))
    );
}

#[test]
fn copy_with_empty_or_huge_blocks_fails() {
    let mut state = MirrorState::new(1 << 40, "disk".into());
    let mut worker = CopyWorker::new(true, 0);
    assert_eq!(
        copy_until(&mut worker, &mut state, CopyEvent::Done(true), &[]),
        CopyPhase::Finished(Err(CopyError::Range(RangeError::Empty)))
    );
    let mut worker = CopyWorker::new(true, 1 << 31);
    assert_eq!(
        copy_until(&mut worker, &mut state, CopyEvent::Done(true), &[]),
        CopyPhase::Finished(Err(CopyError::BlockTooLarge))
    );
    assert_eq!(CopyWorker::buffer_alignment(1, 512), 512);
    assert_eq!(CopyWorker::buffer_alignment(4096, 512), 4096);
    assert_eq!(state.disk_id(), "disk");
    assert_eq!(state.total_bytes(), 1 << 40);
}
