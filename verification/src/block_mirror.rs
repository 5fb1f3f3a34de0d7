//! Starting, completing and cancelling the mirror of a block device.
//!
//! Each of these operations checks the state of the device, and then sends one command to
//! each virtqueue worker and waits for its acknowledgement. The actions on backends,
//! command slots and channels are done by the caller, which reports each outcome back.

use std::sync::Arc;

use vstd::prelude::*;

use crate::block::{Block, BlockError};
use crate::fcntl::{acquire_plan, check_plan, release_plan, LockError, LockPhase, LockRequest,
    LockType};
use crate::mirror::{phase_after, MirrorFailure, MirrorPhase, MirrorState, MirrorView};
use crate::mirror_io::may_fail;

verus! {

/// Why no acknowledgement came.
#[derive(Clone, Copy, Debug, PartialEq, Eq, Structural)]
pub enum AckError {
    /// The deadline passed.
    Timeout,
    /// All senders are gone.
    Disconnected,
}

/// Describes errors reported by synchronous block mirror operations.
#[derive(Debug)]
pub enum MirrorError {
    /// Reports an underlying block backend operation failure.
    Backend(BlockError),
    /// Indicates that the source and destination have different logical sizes.
    DestinationSizeMismatch { source_size: u64, destination_size: u64 },
    /// Reports a failure to acquire the mirror destination advisory lock.
    DestinationLock { path: String, lock_type: LockType, error: LockError },
    /// Indicates that a mirror operation was requested before device activation.
    DeviceNotActive,
    /// Indicates that a mirror operation was requested while the device is paused.
    DevicePaused,
    /// Indicates that a mirror operation was requested without an active mirror.
    NotActive,
    /// Indicates that completion was requested before the mirror became ready.
    NotReady,
    /// Indicates that the source or destination does not support mirroring.
    Unsupported(BlockError),
    /// Indicates that cancellation was requested after completion started.
    CompletionInProgress,
    /// Reports a failure to register the new disk notifier.
    RegisterNotifier(BlockError),
    /// Reports a failure to deregister the old disk notifier.
    DeregisterNotifier(BlockError),
    /// Indicates that a queue already has a pending mirror command.
    CommandSlotOccupied,
    /// Reports a failure to notify a virtqueue worker about a mirror command.
    NotifyWorker(BlockError),
    /// Reports a missing or late acknowledgement from a virtqueue worker.
    Ack(AckError),
}

/// The number of seconds for which acknowledgements of commands are awaited.
pub const MIRROR_COMMAND_ACK_TIMEOUT_SECS: u64 = 5;

/// What the backends say when a mirror is to be started.
#[derive(Debug)]
pub struct StartFacts {
    /// Whether the source can be mirrored, or why not.
    pub source_supported: Result<(), BlockError>,
    /// Whether the destination can be mirrored to, or why not.
    pub destination_supported: Result<(), BlockError>,
    /// The size of the source, or the failure to get it.
    pub source_size: Result<u64, BlockError>,
    /// The size of the destination, or the failure to get it.
    pub destination_size: Result<u64, BlockError>,
}

/// Why a mirror cannot be started, or else the number of bytes to copy. A disk that cannot be
/// mirrored is refused first, whatever the state of the device.
pub open spec fn start_result(block: Block, facts: StartFacts) -> Result<u64, MirrorError> {
    match (facts.source_supported, facts.destination_supported) {
        (Err(reason), _) => Err(MirrorError::Unsupported(reason)),
        (Ok(()), Err(reason)) => Err(MirrorError::Unsupported(reason)),
        (Ok(()), Ok(())) => if !block.active || block.queue_cmd_senders@.len() == 0 {
            Err(MirrorError::DeviceNotActive)
        } else if block.paused {
            Err(MirrorError::DevicePaused)
        } else {
            match (facts.source_size, facts.destination_size) {
                (Err(reason), _) => Err(MirrorError::Backend(reason)),
                (Ok(_), Err(reason)) => Err(MirrorError::Backend(reason)),
                (Ok(source_size), Ok(destination_size)) => if source_size != destination_size {
                    Err(MirrorError::DestinationSizeMismatch { source_size, destination_size })
                } else {
                    Ok(source_size)
                },
            }
        },
    }
}

impl Block {
    /// Returns an error with the reason if a disk image cannot participate in block
    /// mirroring.
    pub fn supports_mirroring(supported: Result<(), BlockError>) -> (result: Result<(), MirrorError>)
        ensures
            result == match supported {
                Ok(()) => Ok::<(), MirrorError>(()),
                Err(reason) => Err(MirrorError::Unsupported(reason)),
            },
    {
        match supported {
            Ok(()) => Ok(()),
            Err(reason) => Err(MirrorError::Unsupported(reason)),
        }
    }

    /// Fails when the device is paused, since a parked worker cannot apply a staged
    /// mirror command.
    pub fn ensure_not_paused_for_mirror(&self) -> (result: Result<(), MirrorError>)
        ensures
            self.paused ==> result == Err::<(), MirrorError>(MirrorError::DevicePaused),
            !self.paused ==> result == Ok::<(), MirrorError>(()),
    {
        if self.paused {
            return Err(MirrorError::DevicePaused);
        }
        Ok(())
    }

    /// Checks whether a mirror can be started, and returns the number of bytes to copy.
    pub fn start_mirror(&self, facts: StartFacts) -> (result: Result<u64, MirrorError>)
        ensures
            result == start_result(*self, facts),
    {
        Self::supports_mirroring(facts.source_supported)?;
        Self::supports_mirroring(facts.destination_supported)?;
        // Mirroring requires activation to have installed at least one live queue worker.
        if !self.active || self.queue_cmd_senders.len() == 0 {
            return Err(MirrorError::DeviceNotActive);
        }
        if self.paused {
            return Err(MirrorError::DevicePaused);
        }
        let source_size: u64 = match facts.source_size {
            Ok(size) => size,
            Err(reason) => return Err(MirrorError::Backend(reason)),
        };
        let destination_size: u64 = match facts.destination_size {
            Ok(size) => size,
            Err(reason) => return Err(MirrorError::Backend(reason)),
        };
        if destination_size != source_size {
            return Err(MirrorError::DestinationSizeMismatch { source_size, destination_size });
        }
        Ok(source_size)
    }

    /// Starts to lock the destination of a mirror that is to be started.
    pub fn lock_destination(&self, logical: Result<u64, ()>, physical: Result<u64, ()>) -> (request:
        LockRequest)
        ensures
            request.wf(),
            request.spec_phase() == LockPhase::Setting(0),
            request.spec_acquire() == acquire_plan(
                self.granularity(logical, physical),
                LockType::Write,
            ),
            request.spec_check() == check_plan(
                self.granularity(logical, physical),
                LockType::Write,
            ),
            request.spec_release() == release_plan(
                self.granularity(logical, physical),
                LockType::Write,
                LockType::Unlock,
            ),
    {
        self.try_lock_disk_image(logical, physical, LockType::Write, LockType::Unlock)
    }

    /// Starts to lock the destination of a mirror that is to be completed: a read-only
    /// device needs a shared lock only.
    pub fn relock_destination(&self, logical: Result<u64, ()>, physical: Result<u64, ()>) -> (
        request: LockRequest)
        ensures
            request.wf(),
            request.spec_phase() == LockPhase::Setting(0),
            request.spec_acquire() == acquire_plan(
                self.granularity(logical, physical),
                self.image_lock(),
            ),
            request.spec_check() == check_plan(
                self.granularity(logical, physical),
                self.image_lock(),
            ),
            request.spec_release() == release_plan(
                self.granularity(logical, physical),
                self.image_lock(),
                LockType::Write,
            ),
    {
        self.try_lock_disk_image(logical, physical, self.image_lock_type(), LockType::Write)
    }

    /// Notes that a mirror is active.
    pub fn mirror_started(&mut self)
        ensures
            *final(self) == (Block { mirror_active: true, ..*old(self) }),
    {
        self.mirror_active = true;
    }

    /// Notes that the device has been switched over to the destination.
    pub fn mirror_completed(&mut self, destination_path: String)
        ensures
            *final(self) == (Block {
                mirror_active: false,
                disk_path: destination_path,
                held_lock: old(self).image_lock(),
                ..*old(self)
            }),
    {
        self.held_lock = self.image_lock_type();
        self.mirror_active = false;
        self.disk_path = destination_path;
    }

    /// Notes that the device uses the source alone again.
    pub fn mirror_cancelled(&mut self)
        ensures
            *final(self) == (Block { mirror_active: false, ..*old(self) }),
    {
        self.mirror_active = false;
    }

    /// Checks whether the mirror of the device can be completed.
    ///
    /// Fails when no mirror is active for the device, and when the copy worker has not
    /// yet reported the ready phase or the mirror has since failed.
    pub fn complete_mirror(&self, mirror: Option<&MirrorState>) -> (result: Result<(), MirrorError>)
        ensures
            result == match mirror {
                _ if self.paused => Err::<(), MirrorError>(MirrorError::DevicePaused),
                None => Err(MirrorError::NotActive),
                Some(state) => if state@.phase is Ready {
                    Ok(())
                } else {
                    Err(MirrorError::NotReady)
                },
            },
            result is Ok <==> !self.paused && (mirror matches Some(state) && state@.phase is Ready),
    {
        self.ensure_not_paused_for_mirror()?;
        match mirror {
            None => Err(MirrorError::NotActive),
            Some(state) => match state.phase() {
                MirrorPhase::Ready => Ok(()),
                _ => Err(MirrorError::NotReady),
            },
        }
    }

    /// Starts the switch-over to the destination.
    ///
    /// A concurrent destination failure may have moved the mirror on since it was found
    /// to be ready. Then no command is sent, otherwise we would swap the device onto a
    /// failed mirror.
    pub fn begin_switch_over(mirror: &mut MirrorState) -> (result: Result<(), MirrorError>)
        ensures
            (old(mirror)@.phase is Ready || old(mirror)@.phase is Completing) ==> result == Ok::<
                (),
                MirrorError,
            >(()) && final(mirror)@ == (MirrorView {
                phase: MirrorPhase::Completing,
                ..old(mirror)@
            }),
            !(old(mirror)@.phase is Ready || old(mirror)@.phase is Completing) ==> result == Err::<
                (),
                MirrorError,
            >(MirrorError::NotReady) && final(mirror)@ == old(mirror)@,
    {
        match mirror.phase() {
            MirrorPhase::Ready => {},
            MirrorPhase::Completing => {},
            _ => return Err(MirrorError::NotReady),
        }
        let _event = mirror.transition_to_phase(MirrorPhase::Completing);
        Ok(())
    }

    /// Ends the switch-over to the destination.
    pub fn end_switch_over(mirror: &mut MirrorState)
        requires
            old(mirror)@.phase is Completing,
        ensures
            final(mirror)@ == (MirrorView { phase: MirrorPhase::Completed, ..old(mirror)@ }),
    {
        let _event = mirror.transition_to_phase(MirrorPhase::Completed);
    }

    /// Checks whether the mirror of the device can be cancelled, and marks that the
    /// cancellation has started.
    ///
    /// Fails when no mirror is active, and once a completion has been attempted, because
    /// a queue may already write to the destination only and reverting would lose
    /// acknowledged guest writes. A cancellation whose revert failed can be retried.
    pub fn cancel_mirror(&self, mirror: Option<&mut MirrorState>) -> (result: Result<
        (),
        MirrorError,
    >)
        ensures
            result == (if self.paused {
                Err::<(), MirrorError>(MirrorError::DevicePaused)
            } else if mirror is None {
                Err(MirrorError::NotActive)
            } else if mirror->Some_0@.phase is Completing || mirror->Some_0@.phase is Completed {
                Err(MirrorError::CompletionInProgress)
            } else {
                Ok(())
            }),
            mirror is Some ==> final(mirror->Some_0)@ == (if result is Ok {
                MirrorView { phase: MirrorPhase::Cancelling, ..mirror->Some_0@ }
            } else {
                mirror->Some_0@
            }),
    {
        self.ensure_not_paused_for_mirror()?;
        match mirror {
            None => Err(MirrorError::NotActive),
            Some(state) => {
                match state.phase() {
                    MirrorPhase::Completing => return Err(MirrorError::CompletionInProgress),
                    MirrorPhase::Completed => return Err(MirrorError::CompletionInProgress),
                    _ => {},
                }
                let _event = state.transition_to_phase(MirrorPhase::Cancelling);
                Ok(())
            },
        }
    }
}

/// How far the commands to the virtqueue workers have come.
#[derive(Debug)]
pub enum CommandPhase {
    /// Creating the new backend for the queue with this index.
    Creating(usize),
    /// All commands have been created and none has been sent.
    Created,
    /// Looking at the command slot of the queue with this index, and filling it.
    FillingSlot(usize),
    /// Waking the worker of the queue with this index.
    Notifying(usize),
    /// Waiting for an acknowledgement, after this many have come.
    Waiting(usize),
    /// All commands have been acknowledged, or one of them has failed.
    Finished(Result<(), MirrorError>),
}

/// The answer to the action of a phase.
#[derive(Debug)]
pub enum CommandEvent {
    /// Whether a slot was free; or that the commands are to be sent.
    Done(bool),
    /// How an action on a backend, on a worker or on the copy worker ended.
    Tried(Result<(), BlockError>),
    /// The acknowledgement of a worker, or why none came.
    Ack(Result<Result<(), MirrorError>, AckError>),
}

/// `event` is an answer to what `phase` asks for.
pub open spec fn command_answers(phase: CommandPhase, event: CommandEvent) -> bool {
    match phase {
        CommandPhase::Creating(_) | CommandPhase::Notifying(_) => event is Tried,
        CommandPhase::Waiting(_) => event is Ack,
        CommandPhase::Finished(_) => false,
        _ => event is Done,
    }
}

/// The queue of a phase is one of the `n` queues.
pub open spec fn command_in_bounds(n: nat, phase: CommandPhase) -> bool {
    match phase {
        CommandPhase::Creating(i)
        | CommandPhase::FillingSlot(i)
        | CommandPhase::Notifying(i)
        | CommandPhase::Waiting(i) => i < n,
        _ => true,
    }
}

/// The phase that follows a phase on an answer, for `n` queues.
pub open spec fn command_next(n: nat, phase: CommandPhase, event: CommandEvent) -> CommandPhase {
    match (phase, event) {
        (CommandPhase::Creating(i), CommandEvent::Tried(created)) => match created {
            Err(reason) => CommandPhase::Finished(Err(MirrorError::Backend(reason))),
            Ok(()) => if i + 1 < n {
                CommandPhase::Creating((i + 1) as usize)
            } else {
                CommandPhase::Created
            },
        },
        (CommandPhase::Created, _) => if n > 0 {
            CommandPhase::FillingSlot(0)
        } else {
            CommandPhase::Finished(Ok(()))
        },
        (CommandPhase::FillingSlot(i), CommandEvent::Done(free)) => if free {
            CommandPhase::Notifying(i)
        } else {
            CommandPhase::Finished(Err(MirrorError::CommandSlotOccupied))
        },
        (CommandPhase::Notifying(i), CommandEvent::Tried(notified)) => match notified {
            Err(reason) => CommandPhase::Finished(Err(MirrorError::NotifyWorker(reason))),
            Ok(()) => if i + 1 < n {
                CommandPhase::FillingSlot((i + 1) as usize)
            } else {
                CommandPhase::Waiting(0)
            },
        },
        (CommandPhase::Waiting(i), CommandEvent::Ack(ack)) => match ack {
            Err(e) => CommandPhase::Finished(Err(MirrorError::Ack(e))),
            Ok(Err(e)) => CommandPhase::Finished(Err(e)),
            Ok(Ok(())) => if i + 1 < n {
                CommandPhase::Waiting((i + 1) as usize)
            } else {
                CommandPhase::Finished(Ok(()))
            },
        },
        _ => phase,
    }
}

/// Starts to create one command per virtqueue.
pub fn create_mirror_queue_commands(queues: usize) -> (phase: CommandPhase)
    ensures
        phase == (if queues > 0 {
            CommandPhase::Creating(0)
        } else {
            CommandPhase::Created
        }),
        command_in_bounds(queues as nat, phase),
{
    if queues > 0 {
        CommandPhase::Creating(0)
    } else {
        CommandPhase::Created
    }
}

/// Takes the answer to the action of a phase into account.
pub fn advance_commands(queues: usize, phase: CommandPhase, event: CommandEvent) -> (next:
    CommandPhase)
    requires
        command_answers(phase, event),
        command_in_bounds(queues as nat, phase),
    ensures
        next == command_next(queues as nat, phase, event),
        command_in_bounds(queues as nat, next),
{
    match (phase, event) {
        (CommandPhase::Creating(i), CommandEvent::Tried(created)) => match created {
            Err(reason) => CommandPhase::Finished(Err(MirrorError::Backend(reason))),
            Ok(()) => if i + 1 < queues {
                CommandPhase::Creating(i + 1)
            } else {
                CommandPhase::Created
            },
        },
        (CommandPhase::Created, _) => if queues > 0 {
            CommandPhase::FillingSlot(0)
        } else {
            CommandPhase::Finished(Ok(()))
        },
        (CommandPhase::FillingSlot(i), CommandEvent::Done(free)) => if free {
            CommandPhase::Notifying(i)
        } else {
            CommandPhase::Finished(Err(MirrorError::CommandSlotOccupied))
        },
        (CommandPhase::Notifying(i), CommandEvent::Tried(notified)) => match notified {
            Err(reason) => CommandPhase::Finished(Err(MirrorError::NotifyWorker(reason))),
            Ok(()) => if i + 1 < queues {
                CommandPhase::FillingSlot(i + 1)
            } else {
                CommandPhase::Waiting(0)
            },
        },
        (CommandPhase::Waiting(i), CommandEvent::Ack(ack)) => match ack {
            Err(e) => CommandPhase::Finished(Err(MirrorError::Ack(e))),
            Ok(Err(e)) => CommandPhase::Finished(Err(e)),
            Ok(Ok(())) => if i + 1 < queues {
                CommandPhase::Waiting(i + 1)
            } else {
                CommandPhase::Finished(Ok(()))
            },
        },
        (phase, _) => phase,
    }
}

/// How far the installation of a mirror has come.
#[derive(Debug)]
pub enum InstallPhase {
    /// Creating the commands that install the mirror.
    Creating(CommandPhase),
    /// Sending these commands and waiting for their acknowledgement.
    Sending(CommandPhase),
    /// Starting the copy worker.
    Spawning,
    /// Reverting the queues to the source, because of this error.
    Reverting(CommandPhase, MirrorError),
    /// The installation has ended.
    Finished(Result<(), MirrorError>),
}

/// `event` is an answer to what `phase` asks for.
pub open spec fn install_answers(phase: InstallPhase, event: CommandEvent) -> bool {
    match phase {
        InstallPhase::Creating(command) => command is Creating && event is Tried,
        InstallPhase::Sending(command) | InstallPhase::Reverting(command, _) => command_answers(
            command,
            event,
        ),
        InstallPhase::Spawning => event is Tried,
        InstallPhase::Finished(_) => false,
    }
}

/// The queue of a phase is one of the `n` queues.
pub open spec fn install_in_bounds(n: nat, phase: InstallPhase) -> bool {
    match phase {
        InstallPhase::Creating(command)
        | InstallPhase::Sending(command)
        | InstallPhase::Reverting(command, _) => command_in_bounds(n, command) && !(
        command is Finished),
        _ => true,
    }
}

/// The mirror is marked as failed, and the queues start to be reverted to the source.
pub open spec fn rollback(n: nat, mirror: MirrorView, error: MirrorError) -> (
    MirrorView,
    InstallPhase,
) {
    (
        MirrorView {
            phase: phase_after(
                mirror.phase,
                MirrorPhase::Failed(Arc::new(MirrorFailure::Installation)),
            ),
            ..mirror
        },
        InstallPhase::Reverting(
            if n > 0 {
                CommandPhase::Creating(0)
            } else {
                CommandPhase::Created
            },
            error,
        ),
    )
}

/// What follows a phase of an installation on an answer.
pub open spec fn install_next(
    n: nat,
    mirror: MirrorView,
    phase: InstallPhase,
    event: CommandEvent,
) -> (MirrorView, InstallPhase) {
    match phase {
        // A backend that cannot be created ends the installation before any queue has
        // been told about it.
        InstallPhase::Creating(command) => match command_next(n, command, event) {
            CommandPhase::Finished(result) => (mirror, InstallPhase::Finished(result)),
            CommandPhase::Created => (mirror, InstallPhase::Sending(CommandPhase::Created)),
            next => (mirror, InstallPhase::Creating(next)),
        },
        InstallPhase::Sending(command) => match command_next(n, command, event) {
            CommandPhase::Finished(Ok(())) => (mirror, InstallPhase::Spawning),
            CommandPhase::Finished(Err(error)) => rollback(n, mirror, error),
            next => (mirror, InstallPhase::Sending(next)),
        },
        InstallPhase::Spawning => match event {
            CommandEvent::Tried(Err(reason)) => rollback(n, mirror, MirrorError::Backend(reason)),
            _ => (mirror, InstallPhase::Finished(Ok(()))),
        },
        // Whatever comes of the revert, the first error is reported.
        InstallPhase::Reverting(command, error) => match command_next(n, command, event) {
            CommandPhase::Finished(_) => (mirror, InstallPhase::Finished(Err(error))),
            next => (mirror, InstallPhase::Reverting(next, error)),
        },
        InstallPhase::Finished(_) => (mirror, phase),
    }
}

/// Starts to install a mirror of a disk of this size on the queues of a device. The mirror
/// runs from the start, with nothing copied and no range locked. The commands for the queues
/// are created first; without a queue there are none, and none to wait for.
pub fn initialize_mirror(queues: usize, source_size: u64, disk_id: String) -> (result: (
    MirrorState,
    InstallPhase,
))
    ensures
        result.0.wf(),
        result.0@ == (MirrorView {
            disk_id: disk_id@,
            phase: MirrorPhase::Running,
            ranges: Map::empty(),
            copied_bytes: 0,
            total_bytes: source_size,
        }),
        result.1 == (if queues > 0 {
            InstallPhase::Creating(CommandPhase::Creating(0))
        } else {
            InstallPhase::Sending(CommandPhase::Created)
        }),
        install_in_bounds(queues as nat, result.1),
{
    let state = MirrorState::new(source_size, disk_id);
    match create_mirror_queue_commands(queues) {
        CommandPhase::Created => (state, InstallPhase::Sending(CommandPhase::Created)),
        commands => (state, InstallPhase::Creating(commands)),
    }
}

/// Marks a mirror installation as failed and starts to revert to the source.
fn rollback_mirror_installation(queues: usize, mirror: &mut MirrorState, error: MirrorError) -> (
    phase: InstallPhase)
    requires
        may_fail(old(mirror)@.phase),
    ensures
        (final(mirror)@, phase) == rollback(queues as nat, old(mirror)@, error),
        install_in_bounds(queues as nat, phase),
{
    let _event = mirror.transition_to_phase(
        MirrorPhase::Failed(Arc::new(MirrorFailure::Installation)),
    );
    InstallPhase::Reverting(create_mirror_queue_commands(queues), error)
}

/// Takes the answer to the action of a phase of an installation into account.
pub fn advance_install(
    queues: usize,
    mirror: &mut MirrorState,
    phase: InstallPhase,
    event: CommandEvent,
) -> (next: InstallPhase)
    requires
        install_answers(phase, event),
        install_in_bounds(queues as nat, phase),
        may_fail(old(mirror)@.phase),
    ensures
        (final(mirror)@, next) == install_next(queues as nat, old(mirror)@, phase, event),
        install_in_bounds(queues as nat, next),
{
    match phase {
        InstallPhase::Creating(command) => match advance_commands(queues, command, event) {
            CommandPhase::Finished(result) => InstallPhase::Finished(result),
            CommandPhase::Created => InstallPhase::Sending(CommandPhase::Created),
            next => InstallPhase::Creating(next),
        },
        InstallPhase::Sending(command) => match advance_commands(queues, command, event) {
            CommandPhase::Finished(Ok(())) => InstallPhase::Spawning,
            CommandPhase::Finished(Err(error)) => rollback_mirror_installation(
                queues,
                mirror,
                error,
            ),
            next => InstallPhase::Sending(next),
        },
        InstallPhase::Spawning => match event {
            CommandEvent::Tried(Err(reason)) => rollback_mirror_installation(
                queues,
                mirror,
                MirrorError::Backend(reason),
            ),
            _ => InstallPhase::Finished(Ok(())),
        },
        InstallPhase::Reverting(command, error) => match advance_commands(queues, command, event) {
            CommandPhase::Finished(_) => InstallPhase::Finished(Err(error)),
            next => InstallPhase::Reverting(next, error),
        },
        InstallPhase::Finished(result) => InstallPhase::Finished(result),
    }
}

/// A disk that cannot be mirrored is refused with the reason that it reports, whatever the
/// state of the device: first the source, then the destination.
pub proof fn law_unsupported_disk_is_refused_first(
    block: Block,
    facts: StartFacts,
    reason: BlockError,
)
    ensures
        facts.source_supported == Err::<(), BlockError>(reason) ==> start_result(block, facts)
            == Err::<u64, MirrorError>(MirrorError::Unsupported(reason)),
        facts.source_supported is Ok && facts.destination_supported == Err::<(), BlockError>(reason)
            ==> start_result(block, facts) == Err::<u64, MirrorError>(
            MirrorError::Unsupported(reason),
        ),
{
}

/// A mirror is started only on a device that is running, on disks that can be mirrored and have
/// the same size, which is what there is to copy; and then it is.
pub proof fn law_mirror_starts_on_equal_sizes(block: Block, facts: StartFacts, size: u64)
    ensures
        start_result(block, facts) == Ok::<u64, MirrorError>(size) <==> {
            &&& facts.source_supported is Ok
            &&& facts.destination_supported is Ok
            &&& block.active
            &&& block.queue_cmd_senders@.len() > 0
            &&& !block.paused
            &&& facts.source_size == Ok::<u64, BlockError>(size)
            &&& facts.destination_size == Ok::<u64, BlockError>(size)
        },
{
}

/// A mirror that cannot be started is refused with the reason that holds: the device does not run,
/// it is paused, a size cannot be had, or the sizes differ.
pub proof fn law_refused_mirror_has_reason(block: Block, facts: StartFacts)
    requires
        facts.source_supported is Ok,
        facts.destination_supported is Ok,
    ensures
        start_result(block, facts) matches Err(MirrorError::DeviceNotActive) <==> !block.active
            || block.queue_cmd_senders@.len() == 0,
        start_result(block, facts) matches Err(MirrorError::DevicePaused) <==> block.active
            && block.queue_cmd_senders@.len() > 0 && block.paused,
        start_result(block, facts) matches Err(
            MirrorError::DestinationSizeMismatch { source_size, destination_size },
        ) ==> source_size != destination_size && facts.source_size == Ok::<u64, BlockError>(
            source_size,
        ) && facts.destination_size == Ok::<u64, BlockError>(destination_size),
        start_result(block, facts) matches Err(MirrorError::Backend(reason)) ==> facts.source_size
            == Err::<u64, BlockError>(reason) || facts.destination_size == Err::<u64, BlockError>(
            reason,
        ),
        !(start_result(block, facts) matches Err(MirrorError::Unsupported(_))),
{
}

/// No queue is left out: the commands of all queues are created in turn before the first one is
/// sent, all are sent in turn, and each one is sent by filling the slot of a queue and then waking
/// the worker of that queue. Acknowledgements are awaited once all have been sent.
pub proof fn law_every_queue_gets_its_command(n: nat, phase: CommandPhase, event: CommandEvent)
    requires
        n <= usize::MAX,
        command_answers(phase, event),
        command_in_bounds(n, phase),
    ensures
        ({
            let next = command_next(n, phase, event);
            &&& next matches CommandPhase::Creating(i) ==> (phase matches CommandPhase::Creating(
                before,
            ) && i == before + 1)
            &&& next is Created ==> (phase matches CommandPhase::Creating(before) && before + 1
                == n)
            &&& next matches CommandPhase::FillingSlot(i) ==> (phase is Created && i == 0) || (phase
                matches CommandPhase::Notifying(before) && i == before + 1)
            &&& next matches CommandPhase::Notifying(i) ==> phase == CommandPhase::FillingSlot(i)
                && event == CommandEvent::Done(true)
            &&& next matches CommandPhase::Waiting(i) ==> (phase matches CommandPhase::Notifying(
                before,
            ) && before + 1 == n && i == 0) || (phase matches CommandPhase::Waiting(before) && i
                == before + 1)
        }),
{
}

/// Commands fail for the reason of the step that failed.
pub proof fn law_commands_fail_for_reason(
    n: nat,
    phase: CommandPhase,
    event: CommandEvent,
    error: MirrorError,
)
    requires
        command_answers(phase, event),
        command_next(n, phase, event) == CommandPhase::Finished(Err(error)),
    ensures
        match phase {
            CommandPhase::Creating(_) => event matches CommandEvent::Tried(Err(reason)) && error
                == MirrorError::Backend(reason),
            CommandPhase::FillingSlot(_) => event == CommandEvent::Done(false) && error
                is CommandSlotOccupied,
            CommandPhase::Notifying(_) => event matches CommandEvent::Tried(Err(reason)) && error
                == MirrorError::NotifyWorker(reason),
            CommandPhase::Waiting(_) => match event {
                CommandEvent::Ack(Err(reason)) => error == MirrorError::Ack(reason),
                CommandEvent::Ack(Ok(Err(reason))) => error == reason,
                _ => false,
            },
            _ => false,
        },
{
}

/// A mirror is installed once all queues have acknowledged it and the copy worker runs. If the
/// commands cannot be created, nothing has happened. If anything fails afterwards, the mirror has
/// failed, and all queues are sent back to the source, beginning with the first one.
pub proof fn law_installation_is_complete_or_reverted(
    n: nat,
    mirror: MirrorView,
    phase: InstallPhase,
    event: CommandEvent,
)
    requires
        install_answers(phase, event),
        mirror.phase is Running || mirror.phase is Ready,
    ensures
        ({
            let (after, next) = install_next(n, mirror, phase, event);
            &&& next == InstallPhase::Finished(Ok(())) ==> phase is Spawning && (event matches
                CommandEvent::Tried(Ok(_)))
            &&& next is Spawning ==> (phase matches InstallPhase::Sending(command) && command_next(
                n,
                command,
                event,
            ) == CommandPhase::Finished(Ok(())))
            &&& phase is Creating ==> after == mirror
            &&& next is Reverting && !(phase is Reverting) ==> {
                &&& after == MirrorView {
                    phase: MirrorPhase::Failed(Arc::new(MirrorFailure::Installation)),
                    ..mirror
                }
                &&& next->Reverting_0 == if n > 0 {
                    CommandPhase::Creating(0)
                } else {
                    CommandPhase::Created
                }
                &&& phase is Spawning ==> (event matches CommandEvent::Tried(Err(reason))
                    && next->Reverting_1 == MirrorError::Backend(reason))
                &&& phase matches InstallPhase::Sending(command) ==> command_next(
                    n,
                    command,
                    event,
                ) == CommandPhase::Finished(Err(next->Reverting_1))
            }
            &&& !(next is Reverting) ==> after == mirror
        }),
{
}

/// Once commands have been sent, an installation fails only after the mirror has been marked
/// as failed and the queues were sent back to the source.
pub proof fn law_failed_installation_is_reverted(
    n: nat,
    mirror: MirrorView,
    phase: InstallPhase,
    event: CommandEvent,
)
    requires
        install_answers(phase, event),
        may_fail(mirror.phase),
    ensures
        ({
            let (after, next) = install_next(n, mirror, phase, event);
            &&& (phase is Sending || phase is Spawning) ==> !(next matches InstallPhase::Finished(
                Err(_),
            ))
            &&& (next is Reverting && !(phase is Reverting)) ==> after.phase is Failed
        }),
{
}

/// The error that made an installation fail is the one that is reported.
pub proof fn law_first_installation_error_is_reported(
    n: nat,
    mirror: MirrorView,
    command: CommandPhase,
    error: MirrorError,
    event: CommandEvent,
)
    ensures
        match install_next(n, mirror, InstallPhase::Reverting(command, error), event).1 {
            InstallPhase::Reverting(_, e) => e == error,
            InstallPhase::Finished(result) => result == Err::<(), MirrorError>(error),
            _ => false,
        },
{
}

/// Commands succeed only once the last of the acknowledgements has come.
pub proof fn law_commands_succeed_after_last_ack(n: nat, phase: CommandPhase, event: CommandEvent)
    requires
        n > 0,
        command_in_bounds(n, phase),
        command_answers(phase, event),
        command_next(n, phase, event) == CommandPhase::Finished(Ok(())),
    ensures
        phase == CommandPhase::Waiting((n - 1) as usize),
        event matches CommandEvent::Ack(Ok(Ok(_))),
{
}

} // verus!
