use cloud_hypervisor::fcntl::{
    classify_fcntl, FcntlOutcome, Flock, LockAction, LockError, LockGranularity,
    LockGranularityChoice, LockRequest, LockType, F_RDLCK, F_UNLCK, F_WRLCK,
};

fn byte(lock_type: i32, start: i64) -> Flock {
    Flock {
        l_type: lock_type as i16,
        l_whence: libc::SEEK_SET as i16,
        l_start: start,
        l_len: 1,
        l_pid: 0,
    }
}

/// Carries out a request, and records what was set and queried.
fn run(
    mut request: LockRequest,
    mut answer: impl FnMut(LockAction) -> Result<i16, LockError>,
) -> (Vec<LockAction>, Result<(), LockError>) {
    let mut actions = Vec::new();
    loop {
        match request.action() {
            LockAction::Finish(result) => return (actions, result),
            action => {
                actions.push(action);
                request.advance(answer(action));
            }
        }
    }
}

fn unlocked(_action: LockAction) -> Result<i16, LockError> {
    Ok(F_UNLCK as i16)
}

#[test]
fn whole_file_is_locked_by_one_lock() {
    let request = LockGranularity::WholeFile.try_acquire_lock(LockType::Write, LockType::Unlock);
    let (actions, result) = run(request, unlocked);
    assert_eq!(result, Ok(()));
    assert_eq!(
        actions,
        [LockAction::SetLock(Flock {
            l_len: 0,
            ..byte(F_WRLCK, 0)
        })]
    );
}

#[test]
fn byte_range_is_locked_by_one_lock() {
    let request =
        LockGranularity::ByteRange(7, 50).try_acquire_lock(LockType::Read, LockType::Unlock);
    let (actions, result) = run(request, |_| Err(LockError::AlreadyLocked));
    assert_eq!(result, Err(LockError::AlreadyLocked));
    assert_eq!(
        actions,
        [LockAction::SetLock(Flock {
            l_len: 50,
            ..byte(F_RDLCK, 7)
        })]
    );
}

#[test]
fn marker_bytes_of_a_write_lock() {
    let request =
        LockGranularity::QemuCompatible.try_acquire_lock(LockType::Write, LockType::Unlock);
    let (actions, result) = run(request, unlocked);
    assert_eq!(result, Ok(()));
    assert_eq!(
        actions,
        [
            LockAction::SetLock(byte(F_RDLCK, 100)),
            LockAction::SetLock(byte(F_RDLCK, 101)),
            LockAction::SetLock(byte(F_RDLCK, 201)),
            LockAction::GetLock(byte(F_WRLCK, 200)),
            LockAction::GetLock(byte(F_WRLCK, 201)),
            LockAction::GetLock(byte(F_WRLCK, 101)),
        ]
    );
}

#[test]
fn conflicting_read_lock_is_rolled_back() {
    let request =
        LockGranularity::QemuCompatible.try_acquire_lock(LockType::Read, LockType::Unlock);
    let (actions, result) = run(request, |action| match action {
        LockAction::GetLock(lock) if lock.l_start == 101 => Ok(F_RDLCK as i16),
        // That a lock cannot be released does not matter.
        LockAction::SetLock(lock) if lock.l_type == F_UNLCK as i16 => Err(LockError::Io(9)),
        _ => Ok(F_UNLCK as i16),
    });
    assert_eq!(result, Err(LockError::AlreadyLocked));
    assert_eq!(
        actions,
        [
            LockAction::SetLock(byte(F_RDLCK, 100)),
            LockAction::SetLock(byte(F_RDLCK, 201)),
            LockAction::GetLock(byte(F_WRLCK, 200)),
            LockAction::GetLock(byte(F_WRLCK, 101)),
            LockAction::SetLock(byte(F_UNLCK, 100)),
            LockAction::SetLock(byte(F_UNLCK, 101)),
            LockAction::SetLock(byte(F_UNLCK, 200)),
            LockAction::SetLock(byte(F_UNLCK, 201)),
        ]
    );
}

#[test]
fn failed_upgrade_keeps_the_read_lock() {
    let request =
        LockGranularity::QemuCompatible.try_acquire_lock(LockType::Write, LockType::Read);
    let (actions, result) = run(request, |action| match action {
        LockAction::SetLock(lock) if lock.l_start == 201 => Err(LockError::Io(5)),
        _ => Ok(F_UNLCK as i16),
    });
    assert_eq!(result, Err(LockError::Io(5)));
    assert_eq!(
        actions,
        [
            LockAction::SetLock(byte(F_RDLCK, 100)),
            LockAction::SetLock(byte(F_RDLCK, 101)),
            LockAction::SetLock(byte(F_RDLCK, 201)),
            LockAction::SetLock(byte(F_UNLCK, 101)),
        ]
    );
}

#[test]
fn all_marker_bytes_are_cleared() {
    let (actions, result) = run(LockGranularity::QemuCompatible.clear_lock(), unlocked);
    assert_eq!(result, Ok(()));
    let cleared: Vec<i64> = actions
        .iter()
        .map(|action| match action {
            LockAction::SetLock(lock) => {
                assert_eq!(lock.l_type, F_UNLCK as i16);
                lock.l_start
            }
            _ => panic!("nothing is queried"),
        })
        .collect();
    assert_eq!(cleared, [100, 101, 200, 201]);

    // A lock that cannot be cleared ends the request.
    let (actions, result) = run(LockGranularity::QemuCompatible.clear_lock(), |_| {
        Err(LockError::Io(9))
    });
    assert_eq!(result, Err(LockError::Io(9)));
    assert_eq!(actions.len(), 1);
}

#[test]
fn answers_of_the_system_call() {
    assert_eq!(classify_fcntl(0, 0), FcntlOutcome::Done);
    assert_eq!(
        classify_fcntl(-1, libc::EAGAIN),
        FcntlOutcome::Failed(LockError::AlreadyLocked)
    );
    assert_eq!(
        classify_fcntl(-1, libc::EACCES),
        FcntlOutcome::Failed(LockError::AlreadyLocked)
    );
    assert_eq!(classify_fcntl(-1, libc::EINTR), FcntlOutcome::Retry);
    assert_eq!(
        classify_fcntl(-1, libc::EBADF),
        FcntlOutcome::Failed(LockError::Io(libc::EBADF))
    );
}

#[test]
fn lock_types_of_the_system_call() {
    assert_eq!(LockType::Unlock.to_libc_val(), libc::F_UNLCK as i32);
    assert_eq!(LockType::Write.to_libc_val(), libc::F_WRLCK as i32);
    assert_eq!(LockType::Read.to_libc_val(), libc::F_RDLCK as i32);
    assert_eq!(LockGranularity::WholeFile.l_len(), 0);
    assert_eq!(LockGranularity::ByteRange(1, 2).l_len(), 2);
    assert_eq!(LockGranularity::QemuCompatible.l_len(), 1);
    assert_eq!(
        LockGranularity::QemuCompatible.flock(F_WRLCK, 3),
        byte(F_WRLCK, 3)
    );
}

#[test]
fn granularity_is_parsed() {
    assert_eq!(
        LockGranularityChoice::from_str("byte-range").unwrap(),
        LockGranularityChoice::ByteRange
    );
    assert_eq!(
        LockGranularityChoice::from_str("full").unwrap(),
        LockGranularityChoice::Full
    );
    assert_eq!(
        LockGranularityChoice::from_str("qemu-compatible").unwrap(),
        LockGranularityChoice::QemuCompatible
    );
    assert_eq!(
        LockGranularityChoice::from_str("Full").unwrap_err().0,
        "Full"
    );
    assert_eq!(
        LockGranularityChoice::default(),
        LockGranularityChoice::QemuCompatible
    );
}
