//! Module for reporting status and progress of live migrations.
//!
//! The main export is [`MigrationProgress`].
//!
//! Monitoring a live-migration is important for debugging of cloud deployments, for cloud
//! monitoring in general, and for network optimization, such as verifying the throughput
//! for the migration is as high as expected.
//!
//! It also helps to analyze the downtime of VMs and see how much pressure a guest is
//! putting on its memory (by writing), which is slowing down migrations.

use std::time::{SystemTime, UNIX_EPOCH};

use vstd::prelude::*;
use vstd::string::StringExecFns;

use crate::text::{digits, write_digits};

verus! {

/// A span of time.
#[derive(Clone, Copy, Debug, PartialEq, Eq, Structural)]
pub struct Duration {
    secs: u64,
    nanos: u32,
}

impl Duration {
    /// The number of whole milliseconds of the span.
    pub closed spec fn millis(self) -> int {
        self.secs * 1000 + self.nanos / 1_000_000
    }

    /// A span of whole milliseconds.
    pub fn from_millis(millis: u64) -> (duration: Self)
        ensures
            duration.millis() == millis,
    {
        Duration { secs: millis / 1000, nanos: (millis % 1000) as u32 * 1_000_000 }
    }

    /// A span of whole seconds and nanoseconds.
    pub fn new(secs: u64, nanos: u32) -> (duration: Self)
        ensures
            duration.millis() == secs * 1000 + nanos / 1_000_000,
    {
        Duration { secs, nanos }
    }

    /// The number of whole milliseconds of the span.
    pub fn as_millis(&self) -> (millis: u128)
        ensures
            millis == self.millis(),
    {
        self.secs as u128 * 1000 + (self.nanos / 1_000_000) as u128
    }
}

/// A number that is not zero.
#[derive(Clone, Copy, Debug, PartialEq, Eq, PartialOrd, Ord, Hash, Structural)]
pub struct NonZeroU32(u32);

impl NonZeroU32 {
    /// The number.
    pub closed spec fn spec_get(self) -> u32 {
        self.0
    }

    #[verifier::type_invariant]
    closed spec fn not_zero(self) -> bool {
        self.0 != 0
    }

    /// The number, if it is not zero.
    pub fn new(n: u32) -> (number: Option<Self>)
        ensures
            number is Some <==> n != 0,
            number matches Some(number) ==> number.spec_get() == n,
    {
        if n != 0 {
            Some(NonZeroU32(n))
        } else {
            None
        }
    }

    /// The number.
    pub fn get(self) -> (n: u32)
        ensures
            n == self.spec_get(),
            n != 0,
    {
        proof {
            use_type_invariant(&self);
        }
        self.0
    }
}

/// How a virtual machine is transported.
#[derive(Clone, Copy, Debug, PartialEq, Eq, PartialOrd, Ord, Hash)]
pub enum TransportationMode {
    Local,
    Tcp { connections: NonZeroU32, tls: bool },
}

/// Carries information about the transmission of the VM's memory.
#[derive(Clone, Copy, Debug, PartialEq, Eq, PartialOrd, Ord, Hash, Structural)]
pub struct MemoryTransmissionInfo {
    /// The memory iteration (only in precopy mode).
    pub memory_iteration: u64,
    /// Memory bytes per second.
    pub memory_transmission_bps: u64,
    /// The total size of the VMs memory in bytes.
    pub memory_bytes_total: u64,
    /// The total size of transmitted bytes.
    pub memory_bytes_transmitted: u64,
    /// The amount of remaining bytes for this iteration.
    pub memory_bytes_remaining_iteration: u64,
    /// The amount of transmitted 4k pages.
    pub memory_pages_4k_transmitted: u64,
    /// The amount of remaining 4k pages for this iteration.
    pub memory_pages_4k_remaining_iteration: u64,
    /// The amount of constant pages for that we could take a shortcut. Pages where all
    /// bits are either zero or one.
    pub memory_pages_constant_count: u64,
    /// Current memory dirty rate in pages per seconds (pps).
    pub memory_dirty_rate_pps: u64,
}

/// The information before anything has been transmitted.
pub open spec fn no_transmission() -> MemoryTransmissionInfo {
    MemoryTransmissionInfo {
        memory_iteration: 0,
        memory_transmission_bps: 0,
        memory_bytes_total: 0,
        memory_bytes_transmitted: 0,
        memory_bytes_remaining_iteration: 0,
        memory_pages_4k_transmitted: 0,
        memory_pages_4k_remaining_iteration: 0,
        memory_pages_constant_count: 0,
        memory_dirty_rate_pps: 0,
    }
}

impl Default for MemoryTransmissionInfo {
    fn default() -> (info: Self)
        ensures
            info == no_transmission(),
    {
        MemoryTransmissionInfo {
            memory_iteration: 0,
            memory_transmission_bps: 0,
            memory_bytes_total: 0,
            memory_bytes_transmitted: 0,
            memory_bytes_remaining_iteration: 0,
            memory_pages_4k_transmitted: 0,
            memory_pages_4k_remaining_iteration: 0,
            memory_pages_constant_count: 0,
            memory_dirty_rate_pps: 0,
        }
    }
}

/// The different phases of an ongoing ([`MigrationState::Ongoing`]) migration (good case).
///
/// The states correspond to the live-migration protocol.
#[derive(Clone, Copy, Debug, PartialEq, Eq, PartialOrd, Ord, Hash, Structural)]
pub enum MigrationStateOngoingPhase {
    /// The migration process is initiated. No checks or connections are established yet.
    Starting,
    /// The initial connection is established and the migration protocol handshake
    /// succeeded.
    Started,
    /// Transfer of memory FDs.
    ///
    /// Only used for local migrations.
    MemoryFds,
    /// Transfer of VM memory in precopy mode.
    ///
    /// Not used for local migrations.
    MemoryPrecopy,
    /// The VM migration is completing. This means the last chunks of memory are
    /// transmitted as well as the final VM state (vCPUs, devices).
    Completing,
}

impl MigrationStateOngoingPhase {
    /// The phase in words.
    pub open spec fn text(self) -> Seq<char> {
        match self {
            MigrationStateOngoingPhase::Starting => "starting"@,
            MigrationStateOngoingPhase::Started => "started"@,
            MigrationStateOngoingPhase::MemoryFds => "memory FDs"@,
            MigrationStateOngoingPhase::MemoryPrecopy => "memory (precopy)"@,
            MigrationStateOngoingPhase::Completing => "completing"@,
        }
    }

    fn name(&self) -> (name: &'static str)
        ensures
            name@ == self.text(),
    {
        match self {
            MigrationStateOngoingPhase::Starting => "starting",
            MigrationStateOngoingPhase::Started => "started",
            MigrationStateOngoingPhase::MemoryFds => "memory FDs",
            MigrationStateOngoingPhase::MemoryPrecopy => "memory (precopy)",
            MigrationStateOngoingPhase::Completing => "completing",
        }
    }

    /// The phase in words.
    pub fn to_string(&self) -> (text: String)
        ensures
            text@ == self.text(),
    {
        self.name().to_owned()
    }
}

/// The different states of a migration, covering steady progress and failure.
#[derive(Clone, Debug, PartialEq, Eq, PartialOrd, Ord, Hash)]
pub enum MigrationState {
    /// The migration has been cancelled.
    Cancelled {},
    /// The migration has failed.
    Failed {
        /// Stringified error.
        error_msg: String,
        /// Debug-stringified error.
        error_msg_debug: String,
    },
    /// The migration has finished successfully.
    Finished {},
    /// The migration is ongoing.
    Ongoing {
        phase: MigrationStateOngoingPhase,
        /// Percent in range `0..=100`.
        vcpu_throttle_percent: u8,
    },
}

impl MigrationState {
    /// The name of the state.
    pub open spec fn name(self) -> Seq<char> {
        match self {
            MigrationState::Cancelled {  } => "cancelled"@,
            MigrationState::Failed { .. } => "failed"@,
            MigrationState::Finished {  } => "finished"@,
            MigrationState::Ongoing { .. } => "ongoing"@,
        }
    }

    /// The state in words: its name, followed by the error of a failure, or the phase and
    /// the throttle of an ongoing migration.
    pub open spec fn text(self) -> Seq<char> {
        match self {
            MigrationState::Failed { error_msg, .. } => self.name() + ": "@ + error_msg@,
            MigrationState::Ongoing { phase, vcpu_throttle_percent } => self.name() + ": phase="@
                + phase.text() + ", vcpu_throttle="@ + digits(vcpu_throttle_percent as nat, 10),
            _ => self.name(),
        }
    }

    /// The name of the state.
    pub fn state_name(&self) -> (name: &'static str)
        ensures
            name@ == self.name(),
    {
        match self {
            MigrationState::Cancelled {  } => "cancelled",
            MigrationState::Failed { .. } => "failed",
            MigrationState::Finished {  } => "finished",
            MigrationState::Ongoing { .. } => "ongoing",
        }
    }

    /// The state in words.
    pub fn to_string(&self) -> (text: String)
        ensures
            text@ == self.text(),
    {
        let mut text: String = self.state_name().to_owned();
        match self {
            MigrationState::Failed { error_msg, .. } => {
                text.append(": ");
                text.append(error_msg.as_str());
            },
            MigrationState::Ongoing { phase, vcpu_throttle_percent } => {
                text.append(": phase=");
                text.append(phase.name());
                text.append(", vcpu_throttle=");
                let percent: String = write_digits(*vcpu_throttle_percent as u64, 10);
                text.append(percent.as_str());
            },
            _ => {},
        }
        text
    }
}

/// Returns the current UNIX timestamp in ms, with `std::time::SystemTime::now`. A clock
/// that is set to a time before the epoch counts as the epoch. Nothing is claimed of the
/// result: it depends on the clock alone.
#[verifier::external_body]
fn current_unix_timestamp_ms() -> (ms: u64) {
    SystemTime::now().duration_since(UNIX_EPOCH).unwrap_or_default().as_millis() as u64
}

/// Holds a snapshot of progress and status information for an ongoing live migration, or
/// the last snapshot of a canceled or aborted migration.
///
/// This type carries insightful information for every step of the live-migration protocol
/// in a way that makes it easy for API users to parse the data with ease while retaining
/// all important information.
#[derive(Clone, Debug, PartialEq, Eq, PartialOrd, Ord, Hash)]
pub struct MigrationProgress {
    /// UNIX timestamp of the start of the live-migration process in ms.
    pub timestamp_begin_ms: u64,
    /// UNIX timestamp of the current snapshot in ms.
    pub timestamp_snapshot_ms: u64,
    /// Relative timestamp since the beginning of the migration in ms.
    pub timestamp_snapshot_relative_ms: u64,
    /// Configured target downtime.
    pub downtime_configured_ms: u64,
    /// Currently estimated (computed) downtime given the remaining transmissions and the
    /// bandwidth.
    ///
    /// If this is `0`, the downtime could not yet be calculated.
    pub downtime_estimated_ms: u64,
    /// Requested transportation mode.
    pub transportation_mode: TransportationMode,
    /// Snapshot of the current phase.
    pub state: MigrationState,
    /// Latest [`MemoryTransmissionInfo`] info, if any.
    ///
    /// The most interesting phase is when current state is [`MigrationState::Ongoing`] and
    /// [`MigrationStateOngoingPhase::MemoryPrecopy`] as this value will be updated
    /// frequently.
    pub memory_transmission_info: MemoryTransmissionInfo,
}

/// The progress of a migration that begins at `now`.
pub open spec fn new_progress(
    transportation_mode: TransportationMode,
    target_downtime: Duration,
    now: u64,
) -> MigrationProgress {
    MigrationProgress {
        timestamp_begin_ms: now,
        timestamp_snapshot_ms: now,
        timestamp_snapshot_relative_ms: 0,
        downtime_configured_ms: target_downtime.millis() as u64,
        downtime_estimated_ms: 0,
        transportation_mode,
        state: MigrationState::Ongoing {
            phase: MigrationStateOngoingPhase::Starting,
            vcpu_throttle_percent: 0,
        },
        memory_transmission_info: no_transmission(),
    }
}

impl MigrationProgress {
    /// The migration is ongoing.
    pub open spec fn ongoing(self) -> bool {
        self.state is Ongoing
    }

    /// The progress with a snapshot that was taken at `now`, in another state. A clock that
    /// was set back makes the relative timestamp wrap around.
    pub open spec fn snapshot(self, state: MigrationState, now: u64) -> MigrationProgress {
        MigrationProgress {
            timestamp_snapshot_ms: now,
            timestamp_snapshot_relative_ms: ((now - self.timestamp_begin_ms)
                % 0x1_0000_0000_0000_0000) as u64,
            state,
            ..self
        }
    }

    /// The progress after an update at `now`: what is not given stays as it is. A downtime
    /// that could not yet be calculated is taken to be the configured one.
    pub open spec fn updated(
        self,
        phase: MigrationStateOngoingPhase,
        memory: Option<MemoryTransmissionInfo>,
        throttle: Option<u8>,
        downtime: Option<Duration>,
        now: u64,
    ) -> MigrationProgress {
        MigrationProgress {
            downtime_estimated_ms: match downtime {
                Some(downtime) => downtime.millis() as u64,
                None => if self.downtime_estimated_ms == 0 {
                    self.downtime_configured_ms
                } else {
                    self.downtime_estimated_ms
                },
            },
            memory_transmission_info: match memory {
                Some(info) => info,
                None => self.memory_transmission_info,
            },
            ..self.snapshot(
                MigrationState::Ongoing {
                    phase,
                    vcpu_throttle_percent: match throttle {
                        Some(percent) => percent,
                        None => self.state->vcpu_throttle_percent,
                    },
                },
                now,
            )
        }
    }

    /// Creates new progress in a valid init state.
    ///
    /// This progress must be updated using any of:
    /// - [`Self::update`]
    /// - [`Self::mark_as_finished`]
    /// - [`Self::mark_as_failed`]
    /// - [`Self::mark_as_cancelled`]
    pub fn new(transportation_mode: TransportationMode, target_downtime: Duration) -> (progress:
        Self)
        ensures
            progress == new_progress(
                transportation_mode,
                target_downtime,
                progress.timestamp_begin_ms,
            ),
    {
        Self::new_at(transportation_mode, target_downtime, current_unix_timestamp_ms())
    }

    /// Creates new progress of a migration that begins at `now`.
    pub fn new_at(transportation_mode: TransportationMode, target_downtime: Duration, now: u64) -> (
        progress: Self)
        ensures
            progress == new_progress(transportation_mode, target_downtime, now),
    {
        MigrationProgress {
            timestamp_begin_ms: now,
            timestamp_snapshot_ms: now,
            timestamp_snapshot_relative_ms: 0,
            downtime_configured_ms: target_downtime.as_millis() as u64,
            downtime_estimated_ms: 0,
            transportation_mode,
            state: MigrationState::Ongoing {
                phase: MigrationStateOngoingPhase::Starting,
                vcpu_throttle_percent: 0,
            },
            memory_transmission_info: MemoryTransmissionInfo::default(),
        }
    }

    fn take_snapshot(&mut self, now: u64)
        ensures
            *final(self) == old(self).snapshot(old(self).state, now),
    {
        self.timestamp_snapshot_ms = now;
        self.timestamp_snapshot_relative_ms = now.wrapping_sub(self.timestamp_begin_ms);
    }

    /// Updates the state of an ongoing migration.
    ///
    /// Only updates new values that are provided via `Some`.
    ///
    /// - `new_phase`: The current phase.
    /// - `new_memory_transmission_info`: If `Some`, the current information.
    /// - `new_cpu_throttle_percent`: If `Some`, the current value of the vCPU throttle
    ///   percentage. Must be in range `0..=100`.
    /// - `new_estimated_downtime`: If `Some`, the latest expected (calculated) downtime. As
    ///   long as there is none, the configured downtime is shown.
    pub fn update(
        &mut self,
        new_phase: MigrationStateOngoingPhase,
        new_memory_transmission_info: Option<MemoryTransmissionInfo>,
        new_cpu_throttle_percent: Option<u8>,
        new_estimated_downtime: Option<Duration>,
    )
        requires
            old(self).ongoing(),
            new_cpu_throttle_percent matches Some(percent) ==> percent <= 100,
            new_estimated_downtime matches Some(downtime) ==> downtime.millis() <= u64::MAX,
        ensures
            *final(self) == old(self).updated(
                new_phase,
                new_memory_transmission_info,
                new_cpu_throttle_percent,
                new_estimated_downtime,
                final(self).timestamp_snapshot_ms,
            ),
    {
        let now: u64 = current_unix_timestamp_ms();
        self.update_at(
            new_phase,
            new_memory_transmission_info,
            new_cpu_throttle_percent,
            new_estimated_downtime,
            now,
        );
    }

    /// Updates the state of an ongoing migration at `now`, see [`Self::update`].
    pub fn update_at(
        &mut self,
        new_phase: MigrationStateOngoingPhase,
        new_memory_transmission_info: Option<MemoryTransmissionInfo>,
        new_cpu_throttle_percent: Option<u8>,
        new_estimated_downtime: Option<Duration>,
        now: u64,
    )
        requires
            old(self).ongoing(),
            new_cpu_throttle_percent matches Some(percent) ==> percent <= 100,
            new_estimated_downtime matches Some(downtime) ==> downtime.millis() <= u64::MAX,
        ensures
            *final(self) == old(self).updated(
                new_phase,
                new_memory_transmission_info,
                new_cpu_throttle_percent,
                new_estimated_downtime,
                now,
            ),
    {
        self.downtime_estimated_ms =
        match new_estimated_downtime {
            Some(downtime) => downtime.as_millis() as u64,
            // This is better than showing `0` and it is likely close to the final actual
            // downtime.
            None => if self.downtime_estimated_ms == 0 {
                self.downtime_configured_ms
            } else {
                self.downtime_estimated_ms
            },
        };
        let old_vcpu_throttle_percent: u8 = match &self.state {
            MigrationState::Ongoing { vcpu_throttle_percent, .. } => *vcpu_throttle_percent,
            _ => 0,
        };
        self.take_snapshot(now);
        if let Some(info) = new_memory_transmission_info {
            self.memory_transmission_info = info;
        }
        self.state =
        MigrationState::Ongoing {
            phase: new_phase,
            vcpu_throttle_percent: match new_cpu_throttle_percent {
                Some(percent) => percent,
                None => old_vcpu_throttle_percent,
            },
        };
    }

    /// Sets the underlying state to [`MigrationState::Cancelled`] and updates all
    /// corresponding metadata.
    ///
    /// After this state change, the object is supposed to be handled as immutable.
    pub fn mark_as_cancelled(&mut self)
        requires
            old(self).ongoing(),
        ensures
            *final(self) == old(self).snapshot(
                MigrationState::Cancelled {  },
                final(self).timestamp_snapshot_ms,
            ),
    {
        let now: u64 = current_unix_timestamp_ms();
        self.mark_as_cancelled_at(now);
    }

    /// Cancels the migration at `now`, see [`Self::mark_as_cancelled`].
    pub fn mark_as_cancelled_at(&mut self, now: u64)
        requires
            old(self).ongoing(),
        ensures
            *final(self) == old(self).snapshot(MigrationState::Cancelled {  }, now),
    {
        self.take_snapshot(now);
        self.state = MigrationState::Cancelled {  };
    }

    /// Sets the underlying state to [`MigrationState::Failed`] and updates all
    /// corresponding metadata. The error is given as it is shown to users, and as it is
    /// shown for debugging.
    ///
    /// After this state change, the object is supposed to be handled as immutable.
    pub fn mark_as_failed(&mut self, error_msg: String, error_msg_debug: String)
        requires
            old(self).ongoing(),
        ensures
            *final(self) == old(self).snapshot(
                MigrationState::Failed { error_msg, error_msg_debug },
                final(self).timestamp_snapshot_ms,
            ),
    {
        let now: u64 = current_unix_timestamp_ms();
        self.mark_as_failed_at(error_msg, error_msg_debug, now);
    }

    /// Fails the migration at `now`, see [`Self::mark_as_failed`].
    pub fn mark_as_failed_at(&mut self, error_msg: String, error_msg_debug: String, now: u64)
        requires
            old(self).ongoing(),
        ensures
            *final(self) == old(self).snapshot(
                MigrationState::Failed { error_msg, error_msg_debug },
                now,
            ),
    {
        self.take_snapshot(now);
        self.state = MigrationState::Failed { error_msg, error_msg_debug };
    }

    /// Sets the underlying state to [`MigrationState::Finished`] and updates all
    /// corresponding metadata.
    ///
    /// After this state change, the object is supposed to be handled as immutable.
    pub fn mark_as_finished(&mut self)
        requires
            old(self).ongoing(),
        ensures
            *final(self) == old(self).snapshot(
                MigrationState::Finished {  },
                final(self).timestamp_snapshot_ms,
            ),
    {
        let now: u64 = current_unix_timestamp_ms();
        self.mark_as_finished_at(now);
    }

    /// Finishes the migration at `now`, see [`Self::mark_as_finished`].
    pub fn mark_as_finished_at(&mut self, now: u64)
        requires
            old(self).ongoing(),
        ensures
            *final(self) == old(self).snapshot(MigrationState::Finished {  }, now),
    {
        self.take_snapshot(now);
        self.state = MigrationState::Finished {  };
    }
}

/// The throttle stays in the range `0..=100`, whatever updates an ongoing migration gets.
pub proof fn law_throttle_stays_a_percentage(
    progress: MigrationProgress,
    phase: MigrationStateOngoingPhase,
    memory: Option<MemoryTransmissionInfo>,
    throttle: Option<u8>,
    downtime: Option<Duration>,
    now: u64,
)
    requires
        progress.state matches MigrationState::Ongoing { vcpu_throttle_percent, .. }
            && vcpu_throttle_percent <= 100,
        throttle matches Some(percent) ==> percent <= 100,
    ensures
        progress.updated(phase, memory, throttle, downtime, now).state matches
            MigrationState::Ongoing { vcpu_throttle_percent, .. } && vcpu_throttle_percent <= 100,
{
}

/// An update changes only what it is given: a value that is known stays as it is.
pub proof fn law_update_keeps_what_is_not_given(
    progress: MigrationProgress,
    phase: MigrationStateOngoingPhase,
    memory: Option<MemoryTransmissionInfo>,
    throttle: Option<u8>,
    downtime: Option<Duration>,
    now: u64,
)
    requires
        progress.ongoing(),
    ensures
        ({
            let after = progress.updated(phase, memory, throttle, downtime, now);
            &&& memory is None ==> after.memory_transmission_info
                == progress.memory_transmission_info
            &&& throttle is None ==> after.state->vcpu_throttle_percent
                == progress.state->vcpu_throttle_percent
            &&& downtime is None && progress.downtime_estimated_ms != 0
                ==> after.downtime_estimated_ms == progress.downtime_estimated_ms
            &&& after.timestamp_begin_ms == progress.timestamp_begin_ms
            &&& after.downtime_configured_ms == progress.downtime_configured_ms
            &&& after.transportation_mode == progress.transportation_mode
        }),
{
}

/// An update takes over what it is given, at the time at which it is made. As long as no downtime is
/// known, the configured one is shown.
pub proof fn law_update_takes_what_is_given(
    progress: MigrationProgress,
    phase: MigrationStateOngoingPhase,
    memory: Option<MemoryTransmissionInfo>,
    throttle: Option<u8>,
    downtime: Option<Duration>,
    now: u64,
)
    requires
        progress.ongoing(),
        downtime matches Some(downtime) ==> downtime.millis() <= u64::MAX,
    ensures
        ({
            let after = progress.updated(phase, memory, throttle, downtime, now);
            &&& after.ongoing()
            &&& after.state->phase == phase
            &&& after.timestamp_snapshot_ms == now
            &&& memory matches Some(info) ==> after.memory_transmission_info == info
            &&& throttle matches Some(percent) ==> after.state->vcpu_throttle_percent == percent
            &&& downtime matches Some(downtime) ==> after.downtime_estimated_ms
                == downtime.millis()
            &&& downtime is None && progress.downtime_estimated_ms == 0
                ==> after.downtime_estimated_ms == progress.downtime_configured_ms
        }),
{
    lemma_millis_nonneg(downtime);
}

proof fn lemma_millis_nonneg(downtime: Option<Duration>)
    ensures
        downtime matches Some(downtime) ==> downtime.millis() >= 0,
{
}

/// A migration begins with its first snapshot, without throttling and with nothing transmitted.
pub proof fn law_migration_begins_with_nothing(
    transportation_mode: TransportationMode,
    target_downtime: Duration,
    now: u64,
)
    requires
        target_downtime.millis() <= u64::MAX,
    ensures
        ({
            let progress = new_progress(transportation_mode, target_downtime, now);
            let info = progress.memory_transmission_info;
            &&& progress.timestamp_begin_ms == now
            &&& progress.timestamp_begin_ms + progress.timestamp_snapshot_relative_ms
                == progress.timestamp_snapshot_ms
            &&& progress.timestamp_snapshot_ms == now
            &&& progress.transportation_mode == transportation_mode
            &&& progress.downtime_configured_ms == target_downtime.millis()
            &&& progress.downtime_estimated_ms == 0
            &&& progress.ongoing()
            &&& progress.state->phase == MigrationStateOngoingPhase::Starting
            &&& progress.state->vcpu_throttle_percent == 0
            &&& info.memory_iteration == 0 && info.memory_transmission_bps == 0
            &&& info.memory_bytes_total == 0 && info.memory_bytes_transmitted == 0
            &&& info.memory_bytes_remaining_iteration == 0
            &&& info.memory_pages_4k_transmitted == 0
            &&& info.memory_pages_4k_remaining_iteration == 0
            &&& info.memory_pages_constant_count == 0
            &&& info.memory_dirty_rate_pps == 0
        }),
{
    lemma_millis_nonneg(Some(target_downtime));
}

/// Whatever the clock does, the relative timestamp, counted from the beginning of the migration
/// with wrap-around, leads to the snapshot.
pub proof fn law_relative_timestamp_wraps(
    progress: MigrationProgress,
    state: MigrationState,
    now: u64,
)
    ensures
        ({
            let after = progress.snapshot(state, now);
            let reached = after.timestamp_begin_ms + after.timestamp_snapshot_relative_ms;
            &&& after.timestamp_snapshot_ms == now
            &&& reached == now || reached == now + 0x1_0000_0000_0000_0000
        }),
{
}

/// No two phases have the same name.
pub proof fn law_phase_names_differ(
    a: MigrationStateOngoingPhase,
    b: MigrationStateOngoingPhase,
)
    requires
        a.text() == b.text(),
    ensures
        a == b,
{
    reveal_strlit("starting");
    reveal_strlit("started");
    reveal_strlit("memory FDs");
    reveal_strlit("memory (precopy)");
    reveal_strlit("completing");
    assert("starting"@.len() == 8 && "started"@.len() == 7);
    assert("memory FDs"@.len() == 10 && "memory (precopy)"@.len() == 16);
    assert("completing"@.len() == 10 && "completing"@[0] == 'c' && "memory FDs"@[0] == 'm');
}

/// The text of a state starts with its name; it ends with the error of a failure, or with the
/// throttle of an ongoing migration.
pub proof fn law_state_text_tells_state(state: MigrationState)
    ensures
        state.name().is_prefix_of(state.text()),
        state matches MigrationState::Failed { error_msg, .. } ==> error_msg@.is_suffix_of(
            state.text(),
        ),
        state matches MigrationState::Ongoing { vcpu_throttle_percent, .. } ==> digits(
            vcpu_throttle_percent as nat,
            10,
        ).is_suffix_of(state.text()),
        state is Cancelled || state is Finished ==> state.text() == state.name(),
{
    let text = state.text();
    assert(state.name() =~= text.subrange(0, state.name().len() as int));
    if let MigrationState::Failed { error_msg, .. } = state {
        assert(error_msg@ =~= text.subrange(
            text.len() - error_msg@.len(),
            text.len() as int,
        ));
    }
    if let MigrationState::Ongoing { vcpu_throttle_percent, .. } = state {
        let percent = digits(vcpu_throttle_percent as nat, 10);
        assert(percent =~= text.subrange(text.len() - percent.len(), text.len() as int));
    }
}

/// As long as the clock is not set back, the snapshot lies as far behind the beginning of
/// the migration as the relative timestamp says.
pub proof fn law_relative_timestamp(progress: MigrationProgress, state: MigrationState, now: u64)
    requires
        progress.timestamp_begin_ms <= now,
    ensures
        ({
            let after = progress.snapshot(state, now);
            after.timestamp_begin_ms + after.timestamp_snapshot_relative_ms
                == after.timestamp_snapshot_ms
        }),
{
}

/// Nothing but the state and the snapshot changes when a migration ends.
pub proof fn law_end_keeps_progress(progress: MigrationProgress, state: MigrationState, now: u64)
    ensures
        ({
            let after = progress.snapshot(state, now);
            &&& after.timestamp_begin_ms == progress.timestamp_begin_ms
            &&& after.downtime_configured_ms == progress.downtime_configured_ms
            &&& after.downtime_estimated_ms == progress.downtime_estimated_ms
            &&& after.transportation_mode == progress.transportation_mode
            &&& after.memory_transmission_info == progress.memory_transmission_info
            &&& after.state == state
        }),
{
}

} // verus!
