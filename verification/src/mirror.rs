//! Blockdev-mirroring for virtio-blk devices: the shared state of a mirror.
//!
//! A mirror sends guest writes to a destination disk while a background worker copies
//! existing data from source to destination. Once both sides are in sync the device
//! manager can complete the mirror, switching the device to serve I/O from the
//! destination.

use std::collections::BTreeMap;
use std::sync::Arc;

use vstd::prelude::*;
use vstd::std_specs::iter::IteratorSpec;

verus! {

/// Block size for the copy worker, in which it copies data from source to destination and
/// holds the range lock.
pub const MIRROR_BLOCK_SIZE: usize = 524288;

/// Why a range cannot be locked at all.
#[derive(Clone, Copy, Debug, PartialEq, Eq, Structural)]
pub enum RangeError {
    /// The range is empty.
    Empty,
    /// The end of the range does not fit in 64 bits.
    Overflow,
    /// The total length of the buffers does not fit in 64 bits.
    IovecOverflow,
}

impl RangeError {
    /// The error in words.
    pub fn to_string(&self) -> (text: String)
        ensures
            text@ == match *self {
                RangeError::Empty => "Range length is zero"@,
                RangeError::Overflow => "Range overflow"@,
                RangeError::IovecOverflow => "iovec length overflow"@,
            },
    {
        match self {
            RangeError::Empty => "Range length is zero".to_owned(),
            RangeError::Overflow => "Range overflow".to_owned(),
            RangeError::IovecOverflow => "iovec length overflow".to_owned(),
        }
    }
}

/// Serializes overlapping byte ranges between the copy worker and the per-queue mirror
/// writes.
///
/// Each party locks a range before submitting I/O and releases it after completion. A
/// conflicting request waits until the held range is released.
#[derive(Debug)]
pub struct RangeLockManager {
    /// Held ranges as `start -> end_exclusive`.
    ranges: BTreeMap<u64, u64>,
}

/// `start` is the greatest start of a range that begins before `end`.
pub open spec fn last_before(ranges: Map<u64, u64>, end: u64, start: u64) -> bool {
    &&& ranges.contains_key(start)
    &&& start < end
    &&& forall|s: u64| #[trigger] ranges.contains_key(s) && s < end ==> s <= start
}

/// The last range that begins before `end` reaches beyond `start`.
pub open spec fn last_reaches_into(ranges: Map<u64, u64>, start: u64, end: u64) -> bool {
    exists|s: u64| #[trigger] last_before(ranges, end, s) && ranges[s] > start
}

/// `[start, end)` has a byte in common with one of the ranges.
pub open spec fn overlaps(ranges: Map<u64, u64>, start: u64, end: u64) -> bool {
    exists|s: u64| #[trigger] ranges.contains_key(s) && s < end && start < ranges[s]
}

/// No range is empty, and no two ranges have a byte in common.
pub open spec fn ranges_disjoint(ranges: Map<u64, u64>) -> bool {
    &&& ranges.dom().finite()
    &&& forall|s: u64| #[trigger] ranges.contains_key(s) ==> s < ranges[s]
    &&& forall|s: u64, t: u64| #[trigger]
        ranges.contains_key(s) && #[trigger] ranges.contains_key(t) && s < t ==> ranges[s] <= t
}

proof fn lemma_last_before_exists(ranges: Map<u64, u64>, end: u64, from: u64)
    requires
        ranges.contains_key(from),
        from < end,
    ensures
        exists|s: u64| last_before(ranges, end, s),
    decreases end - from,
{
    if !last_before(ranges, end, from) {
        let next = choose|s: u64| #[trigger] ranges.contains_key(s) && s < end && s > from;
        lemma_last_before_exists(ranges, end, next);
    }
}

/// For ranges that are held at the same time, looking at the last one that begins before
/// the end is enough to detect an overlap.
pub proof fn law_last_range_decides_overlap(ranges: Map<u64, u64>, start: u64, end: u64)
    requires
        ranges_disjoint(ranges),
    ensures
        last_reaches_into(ranges, start, end) == overlaps(ranges, start, end),
{
    if overlaps(ranges, start, end) {
        let s = choose|s: u64| #[trigger]
            ranges.contains_key(s) && s < end && start < ranges[s];
        lemma_last_before_exists(ranges, end, s);
        let last = choose|l: u64| last_before(ranges, end, l);
        assert(ranges.contains_key(last));
        if s < last {
            assert(ranges[s] <= last);
            assert(last < ranges[last]);
        }
        assert(ranges[last] > start);
    }
    if last_reaches_into(ranges, start, end) {
        let last = choose|s: u64| #[trigger]
            last_before(ranges, end, s) && ranges[s] > start;
        assert(ranges.contains_key(last));
    }
}

/// The sum of the lengths.
pub open spec fn sum_lens(lens: Seq<usize>) -> int
    decreases lens.len(),
{
    if lens.len() == 0 {
        0
    } else {
        sum_lens(lens.drop_last()) + lens.last()
    }
}

pub(crate) proof fn lemma_sum_lens_grows(lens: Seq<usize>, n: int)
    requires
        0 <= n <= lens.len(),
    ensures
        0 <= sum_lens(lens.take(n)) <= sum_lens(lens),
    decreases lens.len(),
{
    if n == lens.len() {
        assert(lens.take(n) =~= lens);
        if lens.len() > 0 {
            lemma_sum_lens_grows(lens.drop_last(), 0);
            assert(lens.drop_last().take(0) =~= Seq::<usize>::empty());
        }
    } else {
        lemma_sum_lens_grows(lens.drop_last(), n);
        assert(lens.drop_last().take(n) =~= lens.take(n));
    }
}

/// Whether and how `[offset, offset + length)` can be locked now: an error if it never
/// can, otherwise whether no held range is in the way.
pub open spec fn lock_result(ranges: Map<u64, u64>, offset: u64, length: int) -> Result<
    bool,
    RangeError,
> {
    if length == 0 {
        Err(RangeError::Empty)
    } else if offset + length > u64::MAX {
        Err(RangeError::Overflow)
    } else {
        Ok(!overlaps(ranges, offset, (offset + length) as u64))
    }
}

/// The held ranges after an attempt to lock `[offset, offset + length)`.
pub open spec fn ranges_after_lock(ranges: Map<u64, u64>, offset: u64, length: int) -> Map<
    u64,
    u64,
> {
    if lock_result(ranges, offset, length) == Ok::<bool, RangeError>(true) {
        ranges.insert(offset, (offset + length) as u64)
    } else {
        ranges
    }
}

impl View for RangeLockManager {
    type V = Map<u64, u64>;

    closed spec fn view(&self) -> Map<u64, u64> {
        self.ranges@
    }
}

impl RangeLockManager {
    /// The held ranges have no byte in common.
    pub open spec fn wf(self) -> bool {
        ranges_disjoint(self@)
    }

    /// Creates a manager that holds no range.
    pub fn new() -> (manager: Self)
        ensures
            manager@ == Map::<u64, u64>::empty(),
            manager.wf(),
    {
        RangeLockManager { ranges: BTreeMap::new() }
    }

    /// Returns true if `[start, end)` overlaps any range in `ranges`, of which no two
    /// overlap: the last range that begins before `end` decides.
    pub fn overlaps_any(ranges: &BTreeMap<u64, u64>, start: u64, end: u64) -> (found: bool)
        ensures
            found == last_reaches_into(ranges@, start, end),
            ranges_disjoint(ranges@) ==> found == overlaps(ranges@, start, end),
    {
        broadcast use vstd::std_specs::btree::group_btree_axioms;

        let ghost m = ranges@;
        let mut last: Option<(u64, u64)> = None;
        for (s, e) in it: ranges.iter()
            invariant
                m == ranges@,
                it.seq() == vstd::std_specs::btree::spec_btree_map_iter(ranges).remaining(),
                match last {
                    None => forall|j: int|
                        0 <= j < it.index() ==> *(#[trigger] it.seq()[j]).0 >= end,
                    Some((s, e)) => {
                        &&& m.contains_key(s)
                        &&& m[s] == e
                        &&& s < end
                        &&& forall|j: int|
                            0 <= j < it.index() && *(#[trigger] it.seq()[j]).0 < end
                                ==> *it.seq()[j].0 <= s
                    },
                },
        {
            assert(m.contains_key(*s) && m[*s] == *e) by {
                let entry = it.seq()[it.index()];
                assert(m.contains_key(*entry.0));
                assert(m[*entry.0] == *entry.1);
            }
            if *s < end {
                last =
                match last {
                    Some((best, best_end)) => if best < *s {
                        Some((*s, *e))
                    } else {
                        Some((best, best_end))
                    },
                    None => Some((*s, *e)),
                };
            }
        }
        proof {
            let entries = vstd::std_specs::btree::spec_btree_map_iter(ranges).remaining();
            assert forall|s: u64| #[trigger] m.contains_key(s) && s < end implies (last matches
                Some((best, _)) && s <= best) by {
                assert(entries.contains((&s, &m[s])));
            }
            if let Some((best, _)) = last {
                assert(last_before(m, end, best));
            }
            if ranges_disjoint(m) {
                law_last_range_decides_overlap(m, start, end);
            }
        }
        match last {
            Some((_, e)) => e > start,
            None => false,
        }
    }

    /// Locks `[offset, offset + length)` if no held range overlaps it. Otherwise the
    /// caller waits for a range to be released and tries again.
    pub fn lock_range(&mut self, offset: u64, length: u64) -> (result: Result<bool, RangeError>)
        requires
            old(self).wf(),
        ensures
            final(self).wf(),
            result == lock_result(old(self)@, offset, length as int),
            final(self)@ == ranges_after_lock(old(self)@, offset, length as int),
    {
        broadcast use vstd::std_specs::btree::group_btree_axioms;

        if length == 0 {
            return Err(RangeError::Empty);
        }
        let end: u64 = match offset.checked_add(length) {
            Some(end) => end,
            None => return Err(RangeError::Overflow),
        };
        if Self::overlaps_any(&self.ranges, offset, end) {
            return Ok(false);
        }
        self.ranges.insert(offset, end);
        proof {
            let before = old(self)@;
            let after = self@;
            assert forall|s: u64, t: u64| #[trigger]
                after.contains_key(s) && #[trigger] after.contains_key(t) && s < t implies after[s]
                <= t by {
                if s == offset {
                    assert(before.contains_key(t));
                } else {
                    assert(before.contains_key(s));
                    if t != offset {
                        assert(before.contains_key(t));
                    }
                }
            }
        }
        Ok(true)
    }

    /// Locks the contiguous bytes from `offset` through the end of buffers with these
    /// lengths.
    pub fn lock_iovecs(&mut self, offset: i64, lens: &Vec<usize>) -> (result: Result<
        bool,
        RangeError,
    >)
        requires
            old(self).wf(),
        ensures
            final(self).wf(),
            sum_lens(lens@) > u64::MAX ==> result == Err::<bool, RangeError>(
                RangeError::IovecOverflow,
            ) && final(self)@ == old(self)@,
            sum_lens(lens@) <= u64::MAX ==> {
                &&& result == lock_result(old(self)@, offset as u64, sum_lens(lens@))
                &&& final(self)@ == ranges_after_lock(old(self)@, offset as u64, sum_lens(lens@))
            },
    {
        let mut total_len: u64 = 0;
        let mut i: usize = 0;
        while i < lens.len()
            invariant
                i <= lens@.len(),
                *self == *old(self),
                self.wf(),
                total_len == sum_lens(lens@.take(i as int)),
            decreases lens@.len() - i,
        {
            proof {
                assert(lens@.take(i + 1).drop_last() =~= lens@.take(i as int));
                lemma_sum_lens_grows(lens@, i + 1);
            }
            total_len =
            match total_len.checked_add(lens[i] as u64) {
                Some(sum) => sum,
                None => return Err(RangeError::IovecOverflow),
            };
            i = i + 1;
        }
        assert(lens@.take(i as int) =~= lens@);
        self.lock_range(offset as u64, total_len)
    }

    /// Releases the range starting at `start`. The caller then wakes all who wait.
    pub fn release(&mut self, start: u64)
        requires
            old(self).wf(),
        ensures
            final(self).wf(),
            final(self)@ == old(self)@.remove(start),
    {
        broadcast use vstd::std_specs::btree::group_btree_axioms;

        self.ranges.remove(&start);
        proof {
            let after = self@;
            assert(after =~= old(self)@.remove(start));
            assert forall|s: u64| #[trigger] after.contains_key(s) implies s < after[s] by {
                assert(old(self)@.contains_key(s));
            }
            assert forall|s: u64, t: u64| #[trigger]
                after.contains_key(s) && #[trigger] after.contains_key(t) && s < t implies after[s]
                <= t by {
                assert(old(self)@.contains_key(s));
                assert(old(self)@.contains_key(t));
            }
        }
    }
}

/// Releasing a range that was just locked gives back the ranges that were held before.
pub proof fn law_release_undoes_lock(ranges: Map<u64, u64>, offset: u64, length: int)
    requires
        ranges_disjoint(ranges),
        0 <= length <= u64::MAX,
        lock_result(ranges, offset, length) == Ok::<bool, RangeError>(true),
    ensures
        ranges_after_lock(ranges, offset, length).remove(offset) == ranges,
{
    if ranges.contains_key(offset) {
        assert(overlaps(ranges, offset, (offset + length) as u64));
    }
    assert(ranges_after_lock(ranges, offset, length).remove(offset) =~= ranges);
}

/// The lengths of buffers add up: those of two runs of buffers together are the sum of both, and
/// that of one buffer is its own.
pub proof fn law_lengths_add_up(a: Seq<usize>, b: Seq<usize>, len: usize)
    ensures
        sum_lens(a + b) == sum_lens(a) + sum_lens(b),
        sum_lens(seq![len]) == len,
        sum_lens(Seq::<usize>::empty()) == 0,
    decreases b.len(),
{
    reveal_with_fuel(sum_lens, 2);
    assert(seq![len].drop_last() =~= Seq::<usize>::empty());
    if b.len() == 0 {
        assert(a + b =~= a);
    } else {
        law_lengths_add_up(a, b.drop_last(), len);
        assert((a + b).drop_last() =~= a + b.drop_last());
        assert((a + b).last() == b.last());
    }
}

/// A byte lies in one of the held ranges.
pub open spec fn holds_byte(ranges: Map<u64, u64>, byte: int) -> bool {
    exists|start: u64| #[trigger] ranges.contains_key(start) && start <= byte < ranges[start]
}

/// A range can be locked exactly when none of its bytes is held. Then each of its bytes is held,
/// and no other is that was not; otherwise the same bytes are held as before.
pub proof fn law_lock_takes_exactly_free_bytes(ranges: Map<u64, u64>, offset: u64, length: int)
    requires
        ranges_disjoint(ranges),
        0 < length,
        offset + length <= u64::MAX,
    ensures
        lock_result(ranges, offset, length) == Ok::<bool, RangeError>(
            !exists|byte: int|
                offset <= byte < offset + length && #[trigger] holds_byte(ranges, byte),
        ),
        forall|byte: int| #[trigger]
            holds_byte(ranges_after_lock(ranges, offset, length), byte) <==> holds_byte(
                ranges,
                byte,
            ) || (lock_result(ranges, offset, length) == Ok::<bool, RangeError>(true) && offset
                <= byte < offset + length),
        lock_result(ranges, offset, length) == Ok::<bool, RangeError>(true) ==> ranges_after_lock(
            ranges,
            offset,
            length,
        ) == ranges.insert(offset, (offset + length) as u64),
        ranges_disjoint(ranges_after_lock(ranges, offset, length)),
{
    let end = (offset + length) as u64;
    let after = ranges_after_lock(ranges, offset, length);
    if overlaps(ranges, offset, end) {
        let s = choose|s: u64| #[trigger] ranges.contains_key(s) && s < end && offset < ranges[s];
        let byte = if s < offset {
            offset as int
        } else {
            s as int
        };
        assert(s < ranges[s]);
        assert(holds_byte(ranges, byte));
    } else {
        assert forall|byte: int| offset <= byte < offset + length implies !#[trigger] holds_byte(
            ranges,
            byte,
        ) by {}
        assert(!ranges.contains_key(offset)) by {
            assert(ranges.contains_key(offset) ==> offset < ranges[offset]);
        }
        assert forall|byte: int| #[trigger] holds_byte(after, byte) implies holds_byte(ranges, byte)
            || offset <= byte < offset + length by {
            let s = choose|s: u64| #[trigger] after.contains_key(s) && s <= byte < after[s];
            if s != offset {
                assert(ranges.contains_key(s));
            }
        }
        assert forall|byte: int| holds_byte(ranges, byte) || offset <= byte < offset
            + length implies #[trigger] holds_byte(after, byte) by {
            if holds_byte(ranges, byte) {
                let s = choose|s: u64| #[trigger] ranges.contains_key(s) && s <= byte < ranges[s];
                assert(after.contains_key(s));
            } else {
                assert(after.contains_key(offset));
            }
        }
        assert forall|s: u64, t: u64| #[trigger]
            after.contains_key(s) && #[trigger] after.contains_key(t) && s < t implies after[s]
            <= t by {
            if s == offset {
                assert(ranges.contains_key(t));
            } else {
                assert(ranges.contains_key(s));
                if t != offset {
                    assert(ranges.contains_key(t));
                }
            }
        }
        assert forall|s: u64| #[trigger] after.contains_key(s) implies s < after[s] by {
            if s != offset {
                assert(ranges.contains_key(s));
            }
        }
    }
}

/// A range that is empty, or that ends beyond what 64 bits can count, is never locked.
pub proof fn law_impossible_range_is_refused(ranges: Map<u64, u64>, offset: u64, length: int)
    requires
        0 <= length,
    ensures
        length == 0 ==> lock_result(ranges, offset, length) == Err::<bool, RangeError>(
            RangeError::Empty,
        ),
        length > 0 && offset + length > u64::MAX ==> lock_result(ranges, offset, length) == Err::<
            bool,
            RangeError,
        >(RangeError::Overflow),
        (length == 0 || offset + length > u64::MAX) <==> lock_result(ranges, offset, length) is Err,
        lock_result(ranges, offset, length) is Err ==> ranges_after_lock(ranges, offset, length)
            == ranges,
{
}

/// While a range is held, no range that overlaps it can be locked.
pub proof fn law_held_range_excludes_overlap(
    ranges: Map<u64, u64>,
    held: u64,
    offset: u64,
    length: int,
)
    requires
        ranges.contains_key(held),
        0 < length,
        held < offset + length <= u64::MAX,
        offset < ranges[held],
    ensures
        lock_result(ranges, offset, length) == Ok::<bool, RangeError>(false),
{
}

/// Why the background copy failed.
#[derive(Clone, Copy, Debug, PartialEq, Eq, Structural)]
pub enum CopyError {
    /// The buffer could not be allocated.
    Buffer,
    /// The range of a block could not be locked.
    Range(RangeError),
    /// A block is too large.
    BlockTooLarge,
    /// The source did not take a read.
    ReadSubmit,
    /// The destination did not take a write.
    WriteSubmit,
    /// The destination did not take a request to punch a hole.
    PunchHoleSubmit,
    /// The destination did not take a flush.
    FlushSubmit,
    /// Waiting for a completion failed.
    Wait,
    /// A backend reported this error number.
    Os(i32),
    /// The source read this many bytes instead of the expected number.
    SourceResult(i32, i32),
    /// The destination wrote this many bytes instead of the expected number.
    DestinationResult(i32, i32),
    /// The flush completed for this request instead of the expected one.
    FlushUserData(u64, u64),
    /// The flush completed with this result.
    FlushResult(i32),
}

/// Describes a failure recorded in a block mirror's shared state.
#[derive(Clone, Copy, Debug, PartialEq, Eq, Structural)]
pub enum MirrorFailure {
    /// The background copy worker failed.
    CopyWorker(CopyError),
    /// A destination completion returned an unexpected result.
    DestinationCompletion { user_data: u64, actual: i32, expected: i32 },
    /// Submitting an operation to the destination failed.
    DestinationSubmit,
    /// Waiting for a destination completion failed.
    DestinationWait { user_data: u64 },
    /// Installing the mirror backend failed.
    Installation,
    /// A source completion returned an unexpected result.
    SourceCompletion { user_data: u64, actual: i32, expected: i32 },
}

/// Makes another pointer to the same failure, with [`Arc::clone`], which is documented to
/// point to the same allocation.
#[verifier::external_body]
fn share_failure(failure: &Arc<MirrorFailure>) -> (shared: Arc<MirrorFailure>)
    ensures
        shared == *failure,
{
    Arc::clone(failure)
}

/// Phase of a mirror.
#[derive(Debug)]
pub enum MirrorPhase {
    /// Background copy is in progress.
    Running,
    /// All blocks copied. Source and destination are in sync.
    Ready,
    /// Switch-over to the destination is in progress.
    Completing,
    /// All virtqueues switched to the destination.
    Completed,
    /// Mirror cancellation is in progress.
    Cancelling,
    /// The mirror has failed.
    Failed(Arc<MirrorFailure>),
}

impl Clone for MirrorPhase {
    fn clone(&self) -> (phase: Self)
        ensures
            phase == *self,
    {
        match self {
            MirrorPhase::Running => MirrorPhase::Running,
            MirrorPhase::Ready => MirrorPhase::Ready,
            MirrorPhase::Completing => MirrorPhase::Completing,
            MirrorPhase::Completed => MirrorPhase::Completed,
            MirrorPhase::Cancelling => MirrorPhase::Cancelling,
            MirrorPhase::Failed(failure) => MirrorPhase::Failed(share_failure(failure)),
        }
    }
}

/// Both phases are of the same kind: two failures are, whatever their reasons.
pub open spec fn same_kind(a: MirrorPhase, b: MirrorPhase) -> bool {
    match (a, b) {
        (MirrorPhase::Failed(_), MirrorPhase::Failed(_)) => true,
        _ => a == b,
    }
}

/// A mirror in the phase `from` may move on to `to`:
///
/// ```text
/// Running    -> Ready | Cancelling | Failed(_)
/// Ready      -> Completing | Cancelling | Failed(_)
/// Completing -> Completed
/// Failed(_)  -> Cancelling
/// ```
///
/// Plus idempotent self-transitions. `Completed` and `Cancelling` are terminal.
pub open spec fn transition_allowed(from: MirrorPhase, to: MirrorPhase) -> bool {
    same_kind(from, to) || match from {
        MirrorPhase::Running => to is Ready || to is Cancelling || to is Failed,
        MirrorPhase::Ready => to is Completing || to is Cancelling || to is Failed,
        MirrorPhase::Completing => to is Completed,
        MirrorPhase::Failed(_) => to is Cancelling,
        MirrorPhase::Completed => false,
        MirrorPhase::Cancelling => false,
    }
}

/// The phase after an allowed transition. A failure keeps its first reason.
pub open spec fn phase_after(from: MirrorPhase, to: MirrorPhase) -> MirrorPhase {
    if same_kind(from, to) {
        from
    } else {
        to
    }
}

/// An event that users of the mirror are told about.
#[derive(Clone, Copy, Debug, PartialEq, Eq, Structural)]
pub enum MirrorEvent {
    /// `vm:disk-mirror-ready`
    DiskMirrorReady,
    /// `vm:disk-mirror-failed`
    DiskMirrorFailed,
}

/// The event that a transition emits: one for each outcome, as only the first transition
/// to it applies.
pub open spec fn transition_event(from: MirrorPhase, to: MirrorPhase) -> Option<MirrorEvent> {
    if same_kind(from, to) {
        None
    } else if to is Ready {
        Some(MirrorEvent::DiskMirrorReady)
    } else if to is Failed {
        Some(MirrorEvent::DiskMirrorFailed)
    } else {
        None
    }
}

/// Whether both phases are of the same kind.
pub fn is_same_kind(a: &MirrorPhase, b: &MirrorPhase) -> (same: bool)
    ensures
        same == same_kind(*a, *b),
{
    match (a, b) {
        (MirrorPhase::Running, MirrorPhase::Running) => true,
        (MirrorPhase::Ready, MirrorPhase::Ready) => true,
        (MirrorPhase::Completing, MirrorPhase::Completing) => true,
        (MirrorPhase::Completed, MirrorPhase::Completed) => true,
        (MirrorPhase::Cancelling, MirrorPhase::Cancelling) => true,
        (MirrorPhase::Failed(_), MirrorPhase::Failed(_)) => true,
        _ => false,
    }
}

/// The event that is emitted when a mirror has moved from one phase to another.
pub fn phase_event(from: &MirrorPhase, to: &MirrorPhase) -> (event: Option<MirrorEvent>)
    ensures
        event == transition_event(*from, *to),
{
    if is_same_kind(from, to) {
        return None;
    }
    match to {
        MirrorPhase::Ready => Some(MirrorEvent::DiskMirrorReady),
        MirrorPhase::Failed(_) => Some(MirrorEvent::DiskMirrorFailed),
        _ => None,
    }
}

/// State shared by the copy worker and the per-queue mirroring backends.
#[derive(Debug)]
pub struct MirrorState {
    /// Disk identifier of the block device being mirrored.
    disk_id: String,
    /// Current phase of the mirror.
    phase: MirrorPhase,
    range_locks: RangeLockManager,
    copied_bytes: u64,
    total_bytes: u64,
}

/// Snapshot of an active block mirror's phase and copy progress.
#[derive(Debug)]
pub struct MirrorStatus {
    /// Current lifecycle phase.
    pub phase: MirrorPhase,
    /// Number of source bytes copied by the background worker.
    pub copied_bytes: u64,
    /// Total logical number of bytes to copy.
    pub total_bytes: u64,
}

/// What a mirror's shared state holds.
#[verifier::ext_equal]
pub struct MirrorView {
    pub disk_id: Seq<char>,
    pub phase: MirrorPhase,
    pub ranges: Map<u64, u64>,
    pub copied_bytes: u64,
    pub total_bytes: u64,
}

impl View for MirrorState {
    type V = MirrorView;

    closed spec fn view(&self) -> MirrorView {
        MirrorView {
            disk_id: self.disk_id@,
            phase: self.phase,
            ranges: self.range_locks@,
            copied_bytes: self.copied_bytes,
            total_bytes: self.total_bytes,
        }
    }
}

impl MirrorState {
    /// The held ranges have no byte in common.
    pub open spec fn wf(self) -> bool {
        ranges_disjoint(self@.ranges)
    }

    /// Creates the state of a mirror that has just been started.
    pub fn new(logical_disk_size: u64, disk_id: String) -> (state: Self)
        ensures
            state.wf(),
            state@ == (MirrorView {
                disk_id: disk_id@,
                phase: MirrorPhase::Running,
                ranges: Map::empty(),
                copied_bytes: 0,
                total_bytes: logical_disk_size,
            }),
    {
        MirrorState {
            disk_id,
            phase: MirrorPhase::Running,
            range_locks: RangeLockManager::new(),
            copied_bytes: 0,
            total_bytes: logical_disk_size,
        }
    }

    /// Returns a snapshot of the current phase.
    pub fn phase(&self) -> (phase: MirrorPhase)
        ensures
            phase == self@.phase,
    {
        self.phase.clone()
    }

    /// The disk identifier of the block device being mirrored.
    pub fn disk_id(&self) -> (id: &String)
        ensures
            id@ == self@.disk_id,
    {
        &self.disk_id
    }

    /// The number of bytes to copy.
    pub fn total_bytes(&self) -> (total: u64)
        ensures
            total == self@.total_bytes,
    {
        self.total_bytes
    }

    /// Whether the mirror may move on to `target`.
    pub fn can_transition(&self, target: &MirrorPhase) -> (allowed: bool)
        ensures
            allowed == transition_allowed(self@.phase, *target),
    {
        match (&self.phase, target) {
            (MirrorPhase::Running, MirrorPhase::Running) => true,
            (MirrorPhase::Running, MirrorPhase::Ready) => true,
            (MirrorPhase::Running, MirrorPhase::Cancelling) => true,
            (MirrorPhase::Running, MirrorPhase::Failed(_)) => true,
            (MirrorPhase::Ready, MirrorPhase::Ready) => true,
            (MirrorPhase::Ready, MirrorPhase::Completing) => true,
            (MirrorPhase::Ready, MirrorPhase::Cancelling) => true,
            (MirrorPhase::Ready, MirrorPhase::Failed(_)) => true,
            (MirrorPhase::Completing, MirrorPhase::Completing) => true,
            (MirrorPhase::Completing, MirrorPhase::Completed) => true,
            (MirrorPhase::Completed, MirrorPhase::Completed) => true,
            (MirrorPhase::Cancelling, MirrorPhase::Cancelling) => true,
            (MirrorPhase::Failed(_), MirrorPhase::Cancelling) => true,
            (MirrorPhase::Failed(_), MirrorPhase::Failed(_)) => true,
            _ => false,
        }
    }

    /// Moves the mirror on to another phase, and returns the event that this emits.
    ///
    /// Reaching the `Ready` and `Failed(_)` outcomes emits the `vm:disk-mirror-ready`
    /// and `vm:disk-mirror-failed` events.
    pub fn transition_to_phase(&mut self, target: MirrorPhase) -> (event: Option<MirrorEvent>)
        requires
            transition_allowed(old(self)@.phase, target),
        ensures
            final(self)@ == (MirrorView {
                phase: phase_after(old(self)@.phase, target),
                ..old(self)@
            }),
            event == transition_event(old(self)@.phase, target),
    {
        if is_same_kind(&self.phase, &target) {
            return None;
        }
        let event = phase_event(&self.phase, &target);
        self.phase = target;
        event
    }

    /// Returns a snapshot of the mirror phase and copy progress.
    pub fn status(&self) -> (status: MirrorStatus)
        ensures
            status.phase == self@.phase,
            status.copied_bytes == self@.copied_bytes,
            status.total_bytes == self@.total_bytes,
    {
        MirrorStatus {
            phase: self.phase.clone(),
            copied_bytes: self.copied_bytes,
            total_bytes: self.total_bytes,
        }
    }

    /// Locks a range, see [`RangeLockManager::lock_range`].
    pub fn lock_range(&mut self, offset: u64, length: u64) -> (result: Result<bool, RangeError>)
        requires
            old(self).wf(),
        ensures
            final(self).wf(),
            result == lock_result(old(self)@.ranges, offset, length as int),
            final(self)@ == (MirrorView {
                ranges: ranges_after_lock(old(self)@.ranges, offset, length as int),
                ..old(self)@
            }),
    {
        self.range_locks.lock_range(offset, length)
    }

    /// Releases the range that begins at `start`.
    pub fn release_range(&mut self, start: u64)
        requires
            old(self).wf(),
        ensures
            final(self).wf(),
            final(self)@ == (MirrorView {
                ranges: old(self)@.ranges.remove(start),
                ..old(self)@
            }),
    {
        self.range_locks.release(start);
    }

    /// Counts bytes that the background worker has copied, which wrap around.
    pub fn add_copied(&mut self, bytes: u64)
        ensures
            final(self)@ == (MirrorView {
                copied_bytes: ((old(self)@.copied_bytes + bytes) % 0x1_0000_0000_0000_0000) as u64,
                ..old(self)@
            }),
    {
        self.copied_bytes = self.copied_bytes.wrapping_add(bytes);
    }
}

/// A mirror can be cancelled, and can fail, as long as it is running or ready; after a failure it
/// can only be cancelled. It gets ready from running, is completed from ready on in two steps, and
/// stays in any phase that it is in.
pub proof fn law_ways_of_a_mirror(from: MirrorPhase, to: MirrorPhase)
    ensures
        to is Cancelling ==> (transition_allowed(from, to) <==> !(from is Completing
            || from is Completed)),
        to is Failed ==> (transition_allowed(from, to) <==> from is Running || from is Ready
            || from is Failed),
        to is Ready ==> (transition_allowed(from, to) <==> from is Running || from is Ready),
        to is Completing ==> (transition_allowed(from, to) <==> from is Ready
            || from is Completing),
        to is Completed ==> (transition_allowed(from, to) <==> from is Completing
            || from is Completed),
        to is Running ==> (transition_allowed(from, to) <==> from is Running),
{
}

/// An event tells of the transition that reaches an outcome, and each such transition has one: the
/// one of readiness if the mirror was not ready and now is, the one of failure if it had not failed
/// and now has.
pub proof fn law_each_outcome_has_its_event(from: MirrorPhase, to: MirrorPhase)
    requires
        transition_allowed(from, to),
    ensures
        transition_event(from, to) == Some(MirrorEvent::DiskMirrorReady) <==> !(from is Ready)
            && phase_after(from, to) is Ready,
        transition_event(from, to) == Some(MirrorEvent::DiskMirrorFailed) <==> !(from is Failed)
            && phase_after(from, to) is Failed,
        !(from is Failed) ==> phase_after(from, to) == to,
{
}

/// `Completed` and `Cancelling` are terminal: a mirror never leaves them.
pub proof fn law_terminal_phases(from: MirrorPhase, to: MirrorPhase)
    requires
        from is Completed || from is Cancelling,
        transition_allowed(from, to),
    ensures
        phase_after(from, to) == from,
        transition_event(from, to) is None,
{
}

/// A mirror reaches `Completed` only through `Ready` and `Completing`.
pub proof fn law_completion_needs_ready(from: MirrorPhase, to: MirrorPhase)
    requires
        transition_allowed(from, to),
    ensures
        phase_after(from, to) is Completed ==> from is Completed || from is Completing,
        phase_after(from, to) is Completing ==> from is Completing || from is Ready,
        phase_after(from, to) is Ready ==> from is Ready || from is Running,
{
}

/// A failure keeps its first reason, and is reported once.
pub proof fn law_first_failure_is_kept(first: Arc<MirrorFailure>, second: Arc<MirrorFailure>)
    ensures
        phase_after(MirrorPhase::Failed(first), MirrorPhase::Failed(second))
            == MirrorPhase::Failed(first),
        transition_event(MirrorPhase::Failed(first), MirrorPhase::Failed(second)) is None,
{
}

} // verus!
