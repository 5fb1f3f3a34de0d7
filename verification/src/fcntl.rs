//! Helpers for advisory file locking.
//!
//! The locks are open file description locks. The procedures here decide which
//! locks to set, query and release, and in what order; the system calls
//! themselves are made by the caller, which reports each outcome back.

use vstd::prelude::*;

use crate::text::str_equal;

verus! {

/// Shared lock.
pub const F_RDLCK: i32 = 0;

/// Exclusive lock.
pub const F_WRLCK: i32 = 1;

/// No lock.
pub const F_UNLCK: i32 = 2;

/// Offsets count from the start of the file.
pub const SEEK_SET: i32 = 0;

/// Interrupted system call.
pub const EINTR: i32 = 4;

/// Resource temporarily unavailable.
pub const EAGAIN: i32 = 11;

/// Permission denied.
pub const EACCES: i32 = 13;

/// Errors that can happen when working with file locks.
#[derive(Debug, Clone, Copy, PartialEq, Eq, Structural)]
pub enum LockError {
    /// The file is already locked.
    AlreadyLocked,
    /// IO error, with its error number.
    Io(i32),
}

/// Describes the type of lock you want to set.
#[derive(Clone, Copy, Debug, PartialEq, Eq, Structural)]
pub enum LockType {
    /// Clear a lock.
    Unlock,
    /// Set a write lock (exclusive).
    Write,
    /// Set a read lock (shared).
    Read,
}

impl LockType {
    /// The value by which the system call names the type.
    pub open spec fn libc_val(self) -> i32 {
        match self {
            LockType::Unlock => F_UNLCK,
            LockType::Write => F_WRLCK,
            LockType::Read => F_RDLCK,
        }
    }

    /// The value by which the system call names the type.
    pub fn to_libc_val(self) -> (val: i32)
        ensures
            val == self.libc_val(),
    {
        match self {
            LockType::Unlock => F_UNLCK,
            LockType::Write => F_WRLCK,
            LockType::Read => F_RDLCK,
        }
    }
}

/// Amount of bytes by which the first lock is offset from the start of the file.
pub const QEMU_LOCK_OFFSET: u64 = 100;

/// Amount of bytes by which the first unshared lock is offset from the start of the file.
///
/// Unsharing is equivalent to marking a lock as exclusive.
pub const QEMU_UNSHARE_LOCK_OFFSET: u64 = 200;

/// Read permission lock index for QEMU.
pub const QEMU_READ_BYTE: u64 = 0;

/// Write permission lock index for QEMU.
pub const QEMU_WRITE_BYTE: u64 = 1;

/// The description of a lock, with the fields of the system call's structure.
#[derive(Clone, Copy, Debug, PartialEq, Eq, Structural)]
pub struct Flock {
    pub l_type: i16,
    pub l_whence: i16,
    pub l_start: i64,
    pub l_len: i64,
    pub l_pid: i32,
}

/// What the answer of one `fcntl` call means for the caller.
#[derive(Clone, Copy, Debug, PartialEq, Eq, Structural)]
pub enum FcntlOutcome {
    /// The call succeeded.
    Done,
    /// The call was interrupted and is made again.
    Retry,
    /// The call failed.
    Failed(LockError),
}

/// Classifies the return value of an `fcntl` lock call and the error number behind it.
pub fn classify_fcntl(result: i32, errno: i32) -> (outcome: FcntlOutcome)
    requires
        result == 0 || result == -1,
    ensures
        outcome == if result == 0 {
            FcntlOutcome::Done
        } else if errno == EAGAIN || errno == EACCES {
            FcntlOutcome::Failed(LockError::AlreadyLocked)
        } else if errno == EINTR {
            FcntlOutcome::Retry
        } else {
            FcntlOutcome::Failed(LockError::Io(errno))
        },
{
    if result == 0 {
        FcntlOutcome::Done
    } else if errno == EAGAIN || errno == EACCES {
        FcntlOutcome::Failed(LockError::AlreadyLocked)
    } else if errno == EINTR {
        FcntlOutcome::Retry
    } else {
        FcntlOutcome::Failed(LockError::Io(errno))
    }
}

/// The granularity of the advisory lock.
///
/// Some network storage treats a lock on the whole file as mandatory, but a lock
/// on the byte range that makes up the whole file as advisory.
#[derive(Clone, Copy, Debug, PartialEq, Eq, Structural)]
pub enum LockGranularity {
    /// One lock on the whole file.
    WholeFile,
    /// One lock on the bytes from the first number on, as many as the second says.
    ByteRange(u64, u64),
    /// One lock per marker byte, at the offsets that QEMU uses.
    QemuCompatible,
}

/// A lock on one marker byte.
pub open spec fn marker(lock_type: i32, offset: u64, byte: u64) -> Flock {
    LockGranularity::QemuCompatible.spec_flock(lock_type, (offset + byte) as u64)
}

/// The marker bytes whose lock stands for the given type, in the order in which they are set.
pub open spec fn marker_bytes(lock_type: LockType) -> Seq<(u64, u64)> {
    match lock_type {
        LockType::Unlock => seq![
            (QEMU_LOCK_OFFSET, QEMU_READ_BYTE),
            (QEMU_LOCK_OFFSET, QEMU_WRITE_BYTE),
            (QEMU_UNSHARE_LOCK_OFFSET, QEMU_READ_BYTE),
            (QEMU_UNSHARE_LOCK_OFFSET, QEMU_WRITE_BYTE),
        ],
        LockType::Write => seq![
            (QEMU_LOCK_OFFSET, QEMU_READ_BYTE),
            (QEMU_LOCK_OFFSET, QEMU_WRITE_BYTE),
            (QEMU_UNSHARE_LOCK_OFFSET, QEMU_WRITE_BYTE),
        ],
        LockType::Read => seq![
            (QEMU_LOCK_OFFSET, QEMU_READ_BYTE),
            (QEMU_UNSHARE_LOCK_OFFSET, QEMU_WRITE_BYTE),
        ],
    }
}

/// The marker bytes that conflict with the given type, in the order in which they are queried.
pub open spec fn conflicting_bytes(lock_type: LockType) -> Seq<(u64, u64)> {
    match lock_type {
        LockType::Unlock => seq![],
        LockType::Write => seq![
            (QEMU_UNSHARE_LOCK_OFFSET, QEMU_READ_BYTE),
            (QEMU_UNSHARE_LOCK_OFFSET, QEMU_WRITE_BYTE),
            (QEMU_LOCK_OFFSET, QEMU_WRITE_BYTE),
        ],
        LockType::Read => seq![
            (QEMU_UNSHARE_LOCK_OFFSET, QEMU_READ_BYTE),
            (QEMU_LOCK_OFFSET, QEMU_WRITE_BYTE),
        ],
    }
}

/// The marker bytes that are not needed for the given type.
pub open spec fn unneeded_bytes(lock_type: LockType) -> Seq<(u64, u64)> {
    match lock_type {
        LockType::Unlock => marker_bytes(LockType::Unlock),
        LockType::Write => seq![],
        LockType::Read => seq![(QEMU_LOCK_OFFSET, QEMU_WRITE_BYTE)],
    }
}

/// One lock of the given type for each of the marker bytes.
pub open spec fn markers(lock_type: i32, bytes: Seq<(u64, u64)>) -> Seq<Flock> {
    bytes.map_values(|b: (u64, u64)| marker(lock_type, b.0, b.1))
}

/// The locks that are set for a lock request.
pub open spec fn acquire_plan(granularity: LockGranularity, lock_type: LockType) -> Seq<Flock> {
    match granularity {
        LockGranularity::WholeFile => seq![granularity.spec_flock(lock_type.libc_val(), 0)],
        LockGranularity::ByteRange(start, _) => seq![
            granularity.spec_flock(lock_type.libc_val(), start),
        ],
        LockGranularity::QemuCompatible => markers(
            if lock_type == LockType::Unlock {
                F_UNLCK
            } else {
                F_RDLCK
            },
            marker_bytes(lock_type),
        ),
    }
}

/// The locks that are queried once all locks are set.
pub open spec fn check_plan(granularity: LockGranularity, lock_type: LockType) -> Seq<Flock> {
    if granularity == LockGranularity::QemuCompatible {
        markers(F_WRLCK, conflicting_bytes(lock_type))
    } else {
        seq![]
    }
}

/// The locks that are released again when a lock request fails.
pub open spec fn release_plan(
    granularity: LockGranularity,
    lock_type: LockType,
    current_lock_status: LockType,
) -> Seq<Flock> {
    if granularity == LockGranularity::QemuCompatible && lock_type != LockType::Unlock {
        markers(F_UNLCK, unneeded_bytes(current_lock_status))
    } else {
        seq![]
    }
}

/// How far a lock request has come.
#[derive(Clone, Copy, Debug, PartialEq, Eq)]
pub enum LockPhase {
    /// Setting the lock with this index.
    Setting(usize),
    /// Querying the lock with this index.
    Checking(usize),
    /// Releasing the lock with this index, because of this error.
    Releasing(usize, LockError),
    /// The request has ended.
    Finished(Result<(), LockError>),
}

/// What a lock request needs done next.
#[derive(Clone, Copy, Debug, PartialEq, Eq)]
pub enum LockAction {
    /// Set this lock (`F_OFD_SETLK`).
    SetLock(Flock),
    /// Query this lock (`F_OFD_GETLK`) and report the type that was found.
    GetLock(Flock),
    /// The request has ended with this result.
    Finish(Result<(), LockError>),
}

/// A lock request: the locks to set, to query and, on failure, to release.
#[derive(Debug)]
pub struct LockRequest {
    acquire: Vec<Flock>,
    check: Vec<Flock>,
    release: Vec<Flock>,
    phase: LockPhase,
}

impl LockRequest {
    /// The locks that the request sets.
    pub closed spec fn spec_acquire(self) -> Seq<Flock> {
        self.acquire@
    }

    /// The locks that the request queries.
    pub closed spec fn spec_check(self) -> Seq<Flock> {
        self.check@
    }

    /// The locks that the request releases when it fails.
    pub closed spec fn spec_release(self) -> Seq<Flock> {
        self.release@
    }

    /// How far the request has come.
    pub closed spec fn spec_phase(self) -> LockPhase {
        self.phase
    }

    /// The position of the request lies within its plans.
    pub open spec fn wf(self) -> bool {
        match self.spec_phase() {
            LockPhase::Setting(i) => i < self.spec_acquire().len(),
            LockPhase::Checking(i) => i < self.spec_check().len(),
            LockPhase::Releasing(i, _) => i < self.spec_release().len(),
            LockPhase::Finished(_) => true,
        }
    }

    /// The phase in which the lock with index `i` is queried, if there is one.
    pub open spec fn checking_from(self, i: int) -> LockPhase {
        if i < self.spec_check().len() {
            LockPhase::Checking(i as usize)
        } else {
            LockPhase::Finished(Ok(()))
        }
    }

    /// The phase in which the lock with index `i` is set, if there is one.
    pub open spec fn setting_from(self, i: int) -> LockPhase {
        if i < self.spec_acquire().len() {
            LockPhase::Setting(i as usize)
        } else {
            self.checking_from(0)
        }
    }

    /// The phase in which the lock with index `i` is released, if there is one.
    pub open spec fn releasing_from(self, i: int, error: LockError) -> LockPhase {
        if i < self.spec_release().len() {
            LockPhase::Releasing(i as usize, error)
        } else {
            LockPhase::Finished(Err(error))
        }
    }

    /// The phase that follows `phase` on the given answer. An answer holds the lock
    /// type that a query found, or the error of the call.
    pub open spec fn next_phase(
        self,
        phase: LockPhase,
        answer: Result<i16, LockError>,
    ) -> LockPhase {
        match (phase, answer) {
            (LockPhase::Setting(i), Ok(_)) => self.setting_from(i + 1),
            (LockPhase::Setting(_), Err(error)) => self.releasing_from(0, error),
            (LockPhase::Checking(i), Ok(found)) => if found == F_UNLCK {
                self.checking_from(i + 1)
            } else {
                self.releasing_from(0, LockError::AlreadyLocked)
            },
            (LockPhase::Checking(_), Err(error)) => self.releasing_from(0, error),
            (LockPhase::Releasing(i, error), _) => self.releasing_from(i + 1, error),
            (LockPhase::Finished(_), _) => phase,
        }
    }

    /// The phase after all the answers.
    pub open spec fn phase_after(
        self,
        phase: LockPhase,
        answers: Seq<Result<i16, LockError>>,
    ) -> LockPhase
        decreases answers.len(),
    {
        if answers.len() == 0 {
            phase
        } else {
            self.next_phase(self.phase_after(phase, answers.drop_last()), answers.last())
        }
    }

    /// What needs to be done next.
    pub fn action(&self) -> (action: LockAction)
        requires
            self.wf(),
        ensures
            action == match self.spec_phase() {
                LockPhase::Setting(i) => LockAction::SetLock(self.spec_acquire()[i as int]),
                LockPhase::Checking(i) => LockAction::GetLock(self.spec_check()[i as int]),
                LockPhase::Releasing(i, _) => LockAction::SetLock(self.spec_release()[i as int]),
                LockPhase::Finished(result) => LockAction::Finish(result),
            },
    {
        match self.phase {
            LockPhase::Setting(i) => LockAction::SetLock(self.acquire[i]),
            LockPhase::Checking(i) => LockAction::GetLock(self.check[i]),
            LockPhase::Releasing(i, _) => LockAction::SetLock(self.release[i]),
            LockPhase::Finished(result) => LockAction::Finish(result),
        }
    }

    /// Takes the answer of the action into account.
    pub fn advance(&mut self, answer: Result<i16, LockError>)
        requires
            old(self).wf(),
        ensures
            final(self).wf(),
            final(self).spec_acquire() == old(self).spec_acquire(),
            final(self).spec_check() == old(self).spec_check(),
            final(self).spec_release() == old(self).spec_release(),
            final(self).spec_phase() == old(self).next_phase(old(self).spec_phase(), answer),
    {
        assert(self.acquire.len() == self.acquire@.len());
        assert(self.check.len() == self.check@.len());
        assert(self.release.len() == self.release@.len());
        let phase: LockPhase = match self.phase {
            LockPhase::Setting(i) => match answer {
                Ok(_) => if i + 1 < self.acquire.len() {
                    LockPhase::Setting(i + 1)
                } else {
                    self.check_or_finish(0)
                },
                Err(error) => self.release_or_fail(0, error),
            },
            LockPhase::Checking(i) => match answer {
                Ok(found) => if found as i32 == F_UNLCK {
                    self.check_or_finish(i + 1)
                } else {
                    self.release_or_fail(0, LockError::AlreadyLocked)
                },
                Err(error) => self.release_or_fail(0, error),
            },
            LockPhase::Releasing(i, error) => self.release_or_fail(i + 1, error),
            LockPhase::Finished(result) => LockPhase::Finished(result),
        };
        self.phase = phase;
    }

    fn check_or_finish(&self, i: usize) -> (phase: LockPhase)
        ensures
            phase == self.checking_from(i as int),
    {
        if i < self.check.len() {
            LockPhase::Checking(i)
        } else {
            LockPhase::Finished(Ok(()))
        }
    }

    fn release_or_fail(&self, i: usize, error: LockError) -> (phase: LockPhase)
        ensures
            phase == self.releasing_from(i as int, error),
    {
        if i < self.release.len() {
            LockPhase::Releasing(i, error)
        } else {
            LockPhase::Finished(Err(error))
        }
    }
}

impl LockGranularity {
    /// The length of a lock, 0 for "up to the end of the file".
    pub open spec fn spec_l_len(self) -> u64 {
        match self {
            LockGranularity::WholeFile => 0,
            LockGranularity::ByteRange(_, len) => len,
            LockGranularity::QemuCompatible => 1,
        }
    }

    /// The description of a lock of this granularity.
    pub open spec fn spec_flock(self, lock_type: i32, l_start: u64) -> Flock {
        Flock {
            l_type: lock_type as i16,
            l_whence: SEEK_SET as i16,
            l_start: l_start as i64,
            l_len: self.spec_l_len() as i64,
            l_pid: 0,
        }
    }

    /// The length of a lock, 0 for "up to the end of the file".
    pub fn l_len(self) -> (len: u64)
        ensures
            len == self.spec_l_len(),
    {
        match self {
            LockGranularity::WholeFile => 0,
            LockGranularity::ByteRange(_, len) => len,
            // QEMU uses multiple one byte long locks.
            LockGranularity::QemuCompatible => 1,
        }
    }

    /// The description of a lock of this granularity. Offsets and lengths wrap into
    /// the signed numbers that the system call takes.
    pub fn flock(self, lock_type: i32, l_start: u64) -> (flock: Flock)
        ensures
            flock == self.spec_flock(lock_type, l_start),
    {
        Flock {
            l_type: lock_type as i16,
            l_whence: SEEK_SET as i16,
            l_start: l_start as i64,
            l_len: self.l_len() as i64,
            l_pid: 0,
        }
    }

    /// Describes one lock of the given type for each of the marker bytes.
    fn flocks_qemu(lock_type: i32, bytes: &Vec<(u64, u64)>) -> (flocks: Vec<Flock>)
        requires
            forall|i: int|
                0 <= i < bytes@.len() ==> (#[trigger] bytes@[i]).0 + bytes@[i].1 <= u64::MAX,
        ensures
            flocks@ == markers(lock_type, bytes@),
    {
        let mut flocks: Vec<Flock> = Vec::new();
        let mut i: usize = 0;
        while i < bytes.len()
            invariant
                i <= bytes@.len(),
                forall|i: int|
                    0 <= i < bytes@.len() ==> (#[trigger] bytes@[i]).0 + bytes@[i].1 <= u64::MAX,
                flocks@ == markers(lock_type, bytes@.take(i as int)),
            decreases bytes@.len() - i,
        {
            let (offset, byte) = bytes[i];
            assert(bytes@[i as int].0 + bytes@[i as int].1 <= u64::MAX);
            flocks.push(LockGranularity::QemuCompatible.flock(lock_type, offset + byte));
            i = i + 1;
            assert(flocks@ =~= markers(lock_type, bytes@.take(i as int)));
        }
        assert(bytes@.take(i as int) =~= bytes@);
        flocks
    }

    /// Describes the locks that are set for a lock of the given type.
    fn acquire_flocks_qemu(lock_type: LockType) -> (flocks: Vec<Flock>)
        ensures
            flocks@ == acquire_plan(LockGranularity::QemuCompatible, lock_type),
    {
        let bytes: Vec<(u64, u64)> = match lock_type {
            LockType::Unlock => vec![
                (QEMU_LOCK_OFFSET, QEMU_READ_BYTE),
                (QEMU_LOCK_OFFSET, QEMU_WRITE_BYTE),
                (QEMU_UNSHARE_LOCK_OFFSET, QEMU_READ_BYTE),
                (QEMU_UNSHARE_LOCK_OFFSET, QEMU_WRITE_BYTE),
            ],
            LockType::Write => vec![
                (QEMU_LOCK_OFFSET, QEMU_READ_BYTE),
                (QEMU_LOCK_OFFSET, QEMU_WRITE_BYTE),
                (QEMU_UNSHARE_LOCK_OFFSET, QEMU_WRITE_BYTE),
            ],
            LockType::Read => vec![
                (QEMU_LOCK_OFFSET, QEMU_READ_BYTE),
                (QEMU_UNSHARE_LOCK_OFFSET, QEMU_WRITE_BYTE),
            ],
        };
        assert(bytes@ =~= marker_bytes(lock_type));
        let val: i32 = match lock_type {
            LockType::Unlock => F_UNLCK,
            LockType::Write => F_RDLCK,
            LockType::Read => F_RDLCK,
        };
        Self::flocks_qemu(val, &bytes)
    }

    /// Describes the locks that are not required for `lock_type`.
    ///
    /// Used to roll back a lock acquisition attempt to a previously acquired lock.
    fn release_unneeded_locks_qemu(lock_type: LockType) -> (flocks: Vec<Flock>)
        ensures
            flocks@ == markers(F_UNLCK, unneeded_bytes(lock_type)),
    {
        let bytes: Vec<(u64, u64)> = match lock_type {
            LockType::Unlock => vec![
                (QEMU_LOCK_OFFSET, QEMU_READ_BYTE),
                (QEMU_LOCK_OFFSET, QEMU_WRITE_BYTE),
                (QEMU_UNSHARE_LOCK_OFFSET, QEMU_READ_BYTE),
                (QEMU_UNSHARE_LOCK_OFFSET, QEMU_WRITE_BYTE),
            ],
            LockType::Write => vec![],
            LockType::Read => vec![(QEMU_LOCK_OFFSET, QEMU_WRITE_BYTE)],
        };
        assert(bytes@ =~= unneeded_bytes(lock_type));
        Self::flocks_qemu(F_UNLCK, &bytes)
    }

    /// Describes the locks that conflict with `lock_type`.
    fn check_lock_success_qemu(lock_type: LockType) -> (flocks: Vec<Flock>)
        ensures
            flocks@ == check_plan(LockGranularity::QemuCompatible, lock_type),
    {
        let bytes: Vec<(u64, u64)> = match lock_type {
            LockType::Unlock => vec![],
            LockType::Write => vec![
                (QEMU_UNSHARE_LOCK_OFFSET, QEMU_READ_BYTE),
                (QEMU_UNSHARE_LOCK_OFFSET, QEMU_WRITE_BYTE),
                (QEMU_LOCK_OFFSET, QEMU_WRITE_BYTE),
            ],
            LockType::Read => vec![
                (QEMU_UNSHARE_LOCK_OFFSET, QEMU_READ_BYTE),
                (QEMU_LOCK_OFFSET, QEMU_WRITE_BYTE),
            ],
        };
        assert(bytes@ =~= conflicting_bytes(lock_type));
        Self::flocks_qemu(F_WRLCK, &bytes)
    }

    /// Starts to acquire a lock for a whole file or a byte range.
    fn try_acquire_lock_file(self, lock_type: LockType, l_start: u64) -> (request: LockRequest)
        ensures
            request.wf(),
            request.spec_acquire() == seq![self.spec_flock(lock_type.libc_val(), l_start)],
            request.spec_check() == Seq::<Flock>::empty(),
            request.spec_release() == Seq::<Flock>::empty(),
            request.spec_phase() == LockPhase::Setting(0),
    {
        LockRequest {
            acquire: vec![self.flock(lock_type.to_libc_val(), l_start)],
            check: Vec::new(),
            release: Vec::new(),
            phase: LockPhase::Setting(0),
        }
    }

    /// Starts to acquire a lock by marker bytes.
    fn try_acquire_lock_qemu(lock_type: LockType, current_lock_status: LockType) -> (request:
        LockRequest)
        ensures
            request.wf(),
            request.spec_acquire() == acquire_plan(LockGranularity::QemuCompatible, lock_type),
            request.spec_check() == check_plan(LockGranularity::QemuCompatible, lock_type),
            request.spec_release() == release_plan(
                LockGranularity::QemuCompatible,
                lock_type,
                current_lock_status,
            ),
            request.spec_phase() == LockPhase::Setting(0),
    {
        let acquire = Self::acquire_flocks_qemu(lock_type);
        let check = Self::check_lock_success_qemu(lock_type);
        let release = match lock_type {
            LockType::Unlock => Vec::new(),
            _ => Self::release_unneeded_locks_qemu(current_lock_status),
        };
        LockRequest { acquire, check, release, phase: LockPhase::Setting(0) }
    }

    /// Starts to acquire a lock with respect to the given parameters.
    ///
    /// Please note that these locks are **advisory locks**, which do not prevent
    /// anyone from opening a file on which a lock is already placed.
    ///
    /// - `lock_type`: The type of the lock.
    /// - `current_lock_status`: Locks that are already held on the file, used by
    ///   [`LockGranularity::QemuCompatible`] to roll back to if locking fails.
    pub fn try_acquire_lock(
        self,
        lock_type: LockType,
        current_lock_status: LockType,
    ) -> (request: LockRequest)
        ensures
            request.wf(),
            request.spec_acquire() == acquire_plan(self, lock_type),
            request.spec_check() == check_plan(self, lock_type),
            request.spec_release() == release_plan(self, lock_type, current_lock_status),
            request.spec_phase() == LockPhase::Setting(0),
    {
        match self {
            LockGranularity::WholeFile => self.try_acquire_lock_file(lock_type, 0),
            LockGranularity::ByteRange(start, _) => self.try_acquire_lock_file(lock_type, start),
            LockGranularity::QemuCompatible => Self::try_acquire_lock_qemu(
                lock_type,
                current_lock_status,
            ),
        }
    }

    /// Starts to clear all locks on a file.
    pub fn clear_lock(self) -> (request: LockRequest)
        ensures
            request.wf(),
            request.spec_acquire() == acquire_plan(self, LockType::Unlock),
            request.spec_check() == Seq::<Flock>::empty(),
            request.spec_release() == Seq::<Flock>::empty(),
            request.spec_phase() == LockPhase::Setting(0),
    {
        let request = self.try_acquire_lock(LockType::Unlock, LockType::Unlock);
        assert(request.spec_check() =~= Seq::<Flock>::empty());
        request
    }
}

/// An answer that lets a lock request go on: a lock was set, or a query found no conflict.
pub open spec fn good_answer(phase: LockPhase, answer: Result<i16, LockError>) -> bool {
    match phase {
        LockPhase::Checking(_) => answer == Ok::<i16, LockError>(F_UNLCK as i16),
        _ => answer is Ok,
    }
}

/// The error that an answer stands for.
pub open spec fn answer_error(answer: Result<i16, LockError>) -> LockError {
    match answer {
        Ok(_) => LockError::AlreadyLocked,
        Err(error) => error,
    }
}

proof fn lemma_good_prefix(request: LockRequest, answers: Seq<Result<i16, LockError>>)
    requires
        request.spec_acquire().len() > 0,
        request.spec_acquire().len() + request.spec_check().len() <= usize::MAX,
        answers.len() <= request.spec_acquire().len() + request.spec_check().len(),
        forall|i: int|
            0 <= i < answers.len() ==> #[trigger] good_answer(
                request.phase_after(LockPhase::Setting(0), answers.take(i)),
                answers[i],
            ),
    ensures
        request.phase_after(LockPhase::Setting(0), answers) == if answers.len()
            < request.spec_acquire().len() {
            LockPhase::Setting(answers.len() as usize)
        } else {
            request.checking_from(answers.len() - request.spec_acquire().len())
        },
    decreases answers.len(),
{
    if answers.len() > 0 {
        let rest = answers.drop_last();
        assert forall|i: int| 0 <= i < rest.len() implies #[trigger] good_answer(
            request.phase_after(LockPhase::Setting(0), rest.take(i)),
            rest[i],
        ) by {
            assert(rest.take(i) =~= answers.take(i));
            assert(good_answer(
                request.phase_after(LockPhase::Setting(0), answers.take(i)),
                answers[i],
            ));
        }
        lemma_good_prefix(request, rest);
        assert(answers.take(rest.len() as int) =~= rest);
        assert(good_answer(
            request.phase_after(LockPhase::Setting(0), answers.take(rest.len() as int)),
            answers[rest.len() as int],
        ));
    }
}

/// A lock request succeeds when every lock could be set and no query found a conflict.
pub proof fn law_lock_succeeds(request: LockRequest, answers: Seq<Result<i16, LockError>>)
    requires
        request.wf(),
        request.spec_phase() == LockPhase::Setting(0),
        request.spec_acquire().len() + request.spec_check().len() <= usize::MAX,
        answers.len() == request.spec_acquire().len() + request.spec_check().len(),
        forall|i: int|
            0 <= i < answers.len() ==> #[trigger] good_answer(
                request.phase_after(LockPhase::Setting(0), answers.take(i)),
                answers[i],
            ),
    ensures
        request.phase_after(request.spec_phase(), answers) == LockPhase::Finished(Ok(())),
{
    lemma_good_prefix(request, answers);
}

proof fn lemma_releasing(
    request: LockRequest,
    start: LockPhase,
    answers: Seq<Result<i16, LockError>>,
    error: LockError,
)
    requires
        start == request.releasing_from(0, error),
        request.spec_release().len() <= usize::MAX,
        answers.len() <= request.spec_release().len(),
    ensures
        request.phase_after(start, answers) == request.releasing_from(answers.len() as int, error),
    decreases answers.len(),
{
    if answers.len() > 0 {
        lemma_releasing(request, start, answers.drop_last(), error);
    }
}

proof fn lemma_phase_after_concat(
    request: LockRequest,
    start: LockPhase,
    a: Seq<Result<i16, LockError>>,
    b: Seq<Result<i16, LockError>>,
)
    ensures
        request.phase_after(start, a + b) == request.phase_after(request.phase_after(start, a), b),
    decreases b.len(),
{
    if b.len() == 0 {
        assert(a + b =~= a);
    } else {
        lemma_phase_after_concat(request, start, a, b.drop_last());
        assert((a + b).drop_last() =~= a + b.drop_last());
    }
}

/// A lock request fails with the error of the first answer that is not good, once
/// the locks to release have been gone through, whatever comes of releasing them.
pub proof fn law_lock_fails(
    request: LockRequest,
    good: Seq<Result<i16, LockError>>,
    bad: Result<i16, LockError>,
    released: Seq<Result<i16, LockError>>,
)
    requires
        request.wf(),
        request.spec_phase() == LockPhase::Setting(0),
        request.spec_acquire().len() + request.spec_check().len() <= usize::MAX,
        request.spec_release().len() <= usize::MAX,
        good.len() < request.spec_acquire().len() + request.spec_check().len(),
        forall|i: int|
            0 <= i < good.len() ==> #[trigger] good_answer(
                request.phase_after(LockPhase::Setting(0), good.take(i)),
                good[i],
            ),
        !good_answer(request.phase_after(LockPhase::Setting(0), good), bad),
        released.len() == request.spec_release().len(),
    ensures
        request.phase_after(request.spec_phase(), good.push(bad) + released)
            == LockPhase::Finished(Err(answer_error(bad))),
{
    lemma_good_prefix(request, good);
    let start = LockPhase::Setting(0);
    assert(good.push(bad).drop_last() =~= good);
    lemma_phase_after_concat(request, start, good.push(bad), released);
    lemma_releasing(
        request,
        request.phase_after(start, good.push(bad)),
        released,
        answer_error(bad),
    );
}

/// Rolling back a failed request leaves the locks of the previous status: every marker
/// byte that the request may have set and that the previous status does not need is
/// released, and none that it needs is.
pub proof fn law_rollback_restores_status(requested: LockType, current: LockType)
    requires
        requested != LockType::Unlock,
    ensures
        forall|b: (u64, u64)|
            #![trigger unneeded_bytes(current).contains(b)]
            (current != LockType::Unlock && marker_bytes(current).contains(b))
                ==> !unneeded_bytes(current).contains(b),
        forall|b: (u64, u64)|
            #![trigger unneeded_bytes(current).contains(b)]
            marker_bytes(requested).contains(b) && !(current != LockType::Unlock && marker_bytes(
                current,
            ).contains(b)) ==> unneeded_bytes(current).contains(b),
{
    let n = unneeded_bytes(current);
    match current {
        LockType::Unlock => {
            assert(n[0] == (QEMU_LOCK_OFFSET, QEMU_READ_BYTE));
            assert(n[1] == (QEMU_LOCK_OFFSET, QEMU_WRITE_BYTE));
            assert(n[3] == (QEMU_UNSHARE_LOCK_OFFSET, QEMU_WRITE_BYTE));
        },
        LockType::Write => {
            let m = marker_bytes(LockType::Write);
            assert(m[0] == (QEMU_LOCK_OFFSET, QEMU_READ_BYTE));
            assert(m[2] == (QEMU_UNSHARE_LOCK_OFFSET, QEMU_WRITE_BYTE));
        },
        LockType::Read => {
            let m = marker_bytes(LockType::Read);
            assert(m[0] == (QEMU_LOCK_OFFSET, QEMU_READ_BYTE));
            assert(m[1] == (QEMU_UNSHARE_LOCK_OFFSET, QEMU_WRITE_BYTE));
            assert(n[0] == (QEMU_LOCK_OFFSET, QEMU_WRITE_BYTE));
        },
    }
}

/// A marker byte of a lock that is held conflicts with a lock that is requested.
pub open spec fn conflicts(held: LockType, requested: LockType, byte: (u64, u64)) -> bool {
    marker_bytes(held).contains(byte) && conflicting_bytes(requested).contains(byte)
}

/// Read locks can be shared. A write lock excludes every other lock, whichever came first.
pub proof fn law_write_lock_is_exclusive(held: LockType, requested: LockType)
    requires
        held != LockType::Unlock,
        requested != LockType::Unlock,
    ensures
        (exists|byte: (u64, u64)| conflicts(held, requested, byte)) <==> (held == LockType::Write
            || requested == LockType::Write),
{
    let m = marker_bytes(held);
    let c = conflicting_bytes(requested);
    if requested == LockType::Write {
        let byte = (QEMU_UNSHARE_LOCK_OFFSET, QEMU_WRITE_BYTE);
        assert(c[1] == byte);
        assert(if held == LockType::Write {
            m[2] == byte
        } else {
            m[1] == byte
        });
        assert(conflicts(held, requested, byte));
    } else if held == LockType::Write {
        let byte = (QEMU_LOCK_OFFSET, QEMU_WRITE_BYTE);
        assert(m[1] == byte);
        assert(c[1] == byte);
        assert(conflicts(held, requested, byte));
    }
}

/// A lock covers a byte of the file. A length of 0 reaches up to the end of the file.
pub open spec fn covers(lock: Flock, byte: int) -> bool {
    &&& lock.l_whence == SEEK_SET
    &&& 0 <= byte
    &&& lock.l_start <= byte
    &&& lock.l_len == 0 || byte < lock.l_start + lock.l_len
}

/// One of the locks covers a byte of the file.
pub open spec fn one_covers(locks: Seq<Flock>, byte: int) -> bool {
    exists|i: int| 0 <= i < locks.len() && covers(#[trigger] locks[i], byte)
}

/// Two files cannot have both of the locks at the same time: one of them is exclusive, and both
/// cover a byte.
pub open spec fn excludes(one: Flock, other: Flock) -> bool {
    &&& one.l_type != F_UNLCK && other.l_type != F_UNLCK
    &&& one.l_type == F_WRLCK || other.l_type == F_WRLCK
    &&& exists|byte: int| #[trigger] covers(one, byte) && covers(other, byte)
}

/// A lock on the whole file or on a range of bytes is meant to cover a byte.
pub open spec fn is_locked_byte(granularity: LockGranularity, byte: int) -> bool {
    &&& 0 <= byte
    &&& match granularity {
        LockGranularity::WholeFile => true,
        LockGranularity::ByteRange(start, len) => start <= byte && (len == 0 || byte < start
            + len),
        LockGranularity::QemuCompatible => false,
    }
}

/// The system call can express the range of bytes.
pub open spec fn fits_system_call(granularity: LockGranularity) -> bool {
    granularity matches LockGranularity::ByteRange(start, len) ==> start <= i64::MAX && len
        <= i64::MAX
}

/// For the whole file and for a range of bytes one lock is set. It is exclusive for a write lock,
/// shared for a read lock, and none to clear a lock. It covers exactly the bytes that it is meant
/// to cover. Nothing is queried, and nothing is released if it cannot be set.
pub proof fn law_file_lock_is_as_requested(
    granularity: LockGranularity,
    lock_type: LockType,
    current: LockType,
)
    requires
        granularity != LockGranularity::QemuCompatible,
        fits_system_call(granularity),
    ensures
        ({
            let plan = acquire_plan(granularity, lock_type);
            &&& plan.len() == 1
            &&& plan[0].l_type == F_WRLCK <==> lock_type == LockType::Write
            &&& plan[0].l_type == F_RDLCK <==> lock_type == LockType::Read
            &&& plan[0].l_type == F_UNLCK <==> lock_type == LockType::Unlock
            &&& forall|byte: int| #[trigger]
                covers(plan[0], byte) <==> is_locked_byte(granularity, byte)
            &&& granularity is WholeFile ==> plan[0].l_start == 0 && plan[0].l_len == 0
            &&& granularity matches LockGranularity::ByteRange(start, len) ==> plan[0].l_start
                == start && plan[0].l_len == len
        }),
        check_plan(granularity, lock_type).len() == 0,
        release_plan(granularity, lock_type, current).len() == 0,
{
}

/// On the whole file and on ranges of bytes, read locks can be shared, and a write lock excludes
/// every other lock with which it has a byte in common, whichever came first.
pub proof fn law_file_write_lock_is_exclusive(
    held_on: LockGranularity,
    held: LockType,
    requested_on: LockGranularity,
    requested: LockType,
)
    requires
        held_on != LockGranularity::QemuCompatible,
        requested_on != LockGranularity::QemuCompatible,
        fits_system_call(held_on),
        fits_system_call(requested_on),
        held != LockType::Unlock,
        requested != LockType::Unlock,
    ensures
        excludes(
            acquire_plan(held_on, held)[0],
            acquire_plan(requested_on, requested)[0],
        ) <==> (held == LockType::Write || requested == LockType::Write) && exists|byte: int|
            is_locked_byte(held_on, byte) && #[trigger] is_locked_byte(requested_on, byte),
{
    law_file_lock_is_as_requested(held_on, held, held);
    law_file_lock_is_as_requested(requested_on, requested, requested);
    let one = acquire_plan(held_on, held)[0];
    let other = acquire_plan(requested_on, requested)[0];
    if exists|byte: int|
        is_locked_byte(held_on, byte) && #[trigger] is_locked_byte(requested_on, byte) {
        let byte = choose|byte: int|
            is_locked_byte(held_on, byte) && #[trigger] is_locked_byte(requested_on, byte);
        assert(covers(one, byte) && covers(other, byte));
    }
    if exists|byte: int| #[trigger] covers(one, byte) && covers(other, byte) {
        let byte = choose|byte: int| #[trigger] covers(one, byte) && covers(other, byte);
        assert(is_locked_byte(held_on, byte) && is_locked_byte(requested_on, byte));
    }
}

/// Marker bytes are locked as QEMU does it. Byte 100 says that the file is read, byte 101 that it
/// is written, and bytes 200 and 201 that it may not be read or written by others. The marker
/// bytes are only ever locked to be shared; whether others have locked them is asked for by
/// querying exclusive locks. Only what may have been set is released.
pub proof fn law_marker_bytes_follow_qemu(lock_type: LockType, current: LockType, byte: int)
    ensures
        ({
            let q = LockGranularity::QemuCompatible;
            let set = acquire_plan(q, lock_type);
            let queried = check_plan(q, lock_type);
            let released = release_plan(q, lock_type, current);
            &&& one_covers(set, byte) <==> match lock_type {
                LockType::Unlock => byte == 100 || byte == 101 || byte == 200 || byte == 201,
                LockType::Write => byte == 100 || byte == 101 || byte == 201,
                LockType::Read => byte == 100 || byte == 201,
            }
            &&& forall|i: int|
                0 <= i < set.len() ==> (#[trigger] set[i]).l_type == if lock_type
                    == LockType::Unlock {
                    F_UNLCK
                } else {
                    F_RDLCK
                }
            &&& one_covers(queried, byte) <==> match lock_type {
                LockType::Unlock => false,
                LockType::Write => byte == 101 || byte == 200 || byte == 201,
                LockType::Read => byte == 101 || byte == 200,
            }
            &&& forall|i: int|
                0 <= i < queried.len() ==> (#[trigger] queried[i]).l_type == F_WRLCK
            &&& one_covers(released, byte) <==> lock_type != LockType::Unlock && match current {
                LockType::Unlock => byte == 100 || byte == 101 || byte == 200 || byte == 201,
                LockType::Write => false,
                LockType::Read => byte == 101,
            }
            &&& forall|i: int|
                0 <= i < released.len() ==> (#[trigger] released[i]).l_type == F_UNLCK
        }),
{
    let q = LockGranularity::QemuCompatible;
    let set = acquire_plan(q, lock_type);
    let queried = check_plan(q, lock_type);
    let released = release_plan(q, lock_type, current);
    match lock_type {
        LockType::Unlock => {
            assert(set.len() == 4);
            assert(covers(set[0], 100) && covers(set[1], 101) && covers(set[2], 200) && covers(
                set[3],
                201,
            ));
        },
        LockType::Write => {
            assert(set.len() == 3 && queried.len() == 3);
            assert(covers(set[0], 100) && covers(set[1], 101) && covers(set[2], 201));
            assert(covers(queried[0], 200) && covers(queried[1], 201) && covers(queried[2], 101));
        },
        LockType::Read => {
            assert(set.len() == 2 && queried.len() == 2);
            assert(covers(set[0], 100) && covers(set[1], 201));
            assert(covers(queried[0], 200) && covers(queried[1], 101));
        },
    }
    if lock_type != LockType::Unlock {
        match current {
            LockType::Unlock => {
                assert(released.len() == 4);
                assert(covers(released[0], 100) && covers(released[1], 101) && covers(
                    released[2],
                    200,
                ) && covers(released[3], 201));
            },
            LockType::Write => {
                assert(released.len() == 0);
            },
            LockType::Read => {
                assert(released.len() == 1);
                assert(covers(released[0], 101));
            },
        }
    }
}

/// With marker bytes, setting the locks of two requests never fails because of each other, and
/// querying tells them apart: a lock that is held excludes one that is queried exactly when one
/// of the requests is for a write lock.
pub proof fn law_marker_write_lock_is_exclusive(held: LockType, requested: LockType)
    requires
        held != LockType::Unlock,
        requested != LockType::Unlock,
    ensures
        ({
            let q = LockGranularity::QemuCompatible;
            let set = acquire_plan(q, held);
            &&& forall|i: int, j: int|
                0 <= i < set.len() && 0 <= j < acquire_plan(q, requested).len() ==> !#[trigger]
                excludes(set[i], acquire_plan(q, requested)[j])
            &&& (exists|i: int, j: int|
                0 <= i < set.len() && 0 <= j < check_plan(q, requested).len()
                    && #[trigger] excludes(set[i], check_plan(q, requested)[j])) <==> (held
                == LockType::Write || requested == LockType::Write)
        }),
{
    let q = LockGranularity::QemuCompatible;
    let set = acquire_plan(q, held);
    let queried = check_plan(q, requested);
    law_marker_bytes_follow_qemu(held, held, 0);
    law_marker_bytes_follow_qemu(requested, requested, 0);
    if requested == LockType::Write {
        let last = set.len() - 1;
        assert(covers(set[last], 201) && covers(queried[1], 201));
        assert(excludes(set[last], queried[1]));
    } else if held == LockType::Write {
        assert(covers(set[1], 101) && covers(queried[1], 101));
        assert(excludes(set[1], queried[1]));
    } else {
        assert forall|i: int, j: int|
            0 <= i < set.len() && 0 <= j < queried.len() implies !#[trigger] excludes(
            set[i],
            queried[j],
        ) by {
            assert(set.len() == 2 && queried.len() == 2);
            assert forall|byte: int| !(#[trigger] covers(set[i], byte) && covers(queried[j], byte)) by {
                assert(set[0].l_start == 100 && set[1].l_start == 201);
                assert(queried[0].l_start == 200 && queried[1].l_start == 101);
            }
        }
    }
}

/// Clearing the locks of a file clears whatever a request has set on it, for every granularity.
pub proof fn law_clearing_covers_what_was_set(
    granularity: LockGranularity,
    lock_type: LockType,
    byte: int,
)
    ensures
        one_covers(acquire_plan(granularity, lock_type), byte) ==> one_covers(
            acquire_plan(granularity, LockType::Unlock),
            byte,
        ),
        forall|i: int|
            0 <= i < acquire_plan(granularity, LockType::Unlock).len() ==> (
            #[trigger] acquire_plan(granularity, LockType::Unlock)[i]).l_type == F_UNLCK,
{
    let cleared = acquire_plan(granularity, LockType::Unlock);
    if granularity == LockGranularity::QemuCompatible {
        law_marker_bytes_follow_qemu(lock_type, lock_type, byte);
        law_marker_bytes_follow_qemu(LockType::Unlock, lock_type, byte);
    } else if one_covers(acquire_plan(granularity, lock_type), byte) {
        assert(covers(cleared[0], byte));
    }
}

/// A request that fails gives up exactly those of its locks that were not held before.
pub proof fn law_failed_request_keeps_held_locks(
    requested: LockType,
    current: LockType,
    byte: int,
)
    requires
        requested != LockType::Unlock,
        one_covers(acquire_plan(LockGranularity::QemuCompatible, requested), byte) || (current
            != LockType::Unlock && one_covers(
            acquire_plan(LockGranularity::QemuCompatible, current),
            byte,
        )),
    ensures
        one_covers(release_plan(LockGranularity::QemuCompatible, requested, current), byte) <==> !(
        current != LockType::Unlock && one_covers(
            acquire_plan(LockGranularity::QemuCompatible, current),
            byte,
        )),
{
    law_marker_bytes_follow_qemu(requested, current, byte);
    law_marker_bytes_follow_qemu(current, current, byte);
}

/// User-facing choice for the lock granularity.
///
/// This allows external management software to create snapshots of the disk
/// image. Without a byte-range lock, some NFS implementations may treat the
/// entire file as exclusively locked and prevent such operations.
#[derive(Clone, Copy, Debug, PartialEq, Eq, Structural)]
pub enum LockGranularityChoice {
    /// Byte-range lock covering [0, size).
    ByteRange,
    /// Whole-file lock.
    Full,
    /// Locking scheme that mimics QEMU's marker byte based locking scheme.
    QemuCompatible,
}

impl Default for LockGranularityChoice {
    fn default() -> (choice: Self)
        ensures
            choice == LockGranularityChoice::QemuCompatible,
    {
        LockGranularityChoice::QemuCompatible
    }
}

/// Error returned when parsing a [`LockGranularityChoice`] from a string: the string
/// is none of `byte-range`, `full` and `qemu-compatible`.
#[derive(Debug)]
pub struct LockGranularityParseError(pub String);

impl LockGranularityChoice {
    /// Parses a choice from its name.
    pub fn from_str(s: &str) -> (result: Result<Self, LockGranularityParseError>)
        ensures
            s@ == "byte-range"@ ==> result matches Ok(LockGranularityChoice::ByteRange),
            s@ == "full"@ ==> result matches Ok(LockGranularityChoice::Full),
            s@ == "qemu-compatible"@ ==> result matches Ok(LockGranularityChoice::QemuCompatible),
            (s@ != "byte-range"@ && s@ != "full"@ && s@ != "qemu-compatible"@) ==> (result matches
                Err(e) && e.0@ == s@),
    {
        proof {
            reveal_strlit("byte-range");
            reveal_strlit("full");
            reveal_strlit("qemu-compatible");
            assert("byte-range"@[0] != "full"@[0]);
            assert("byte-range"@[0] != "qemu-compatible"@[0]);
            assert("full"@[0] != "qemu-compatible"@[0]);
        }
        if str_equal(s, "byte-range") {
            Ok(LockGranularityChoice::ByteRange)
        } else if str_equal(s, "full") {
            Ok(LockGranularityChoice::Full)
        } else if str_equal(s, "qemu-compatible") {
            Ok(LockGranularityChoice::QemuCompatible)
        } else {
            Err(LockGranularityParseError(s.to_owned()))
        }
    }
}

} // verus!
