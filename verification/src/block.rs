//! Virtio device for exposing block level read/write operations on a host file.
//!
//! This is the part of the device that the guest and the user see: its features, its
//! configuration space, its cache mode, its size and the locks on its image.

use virtio_queue::Queue;
use vstd::arithmetic::power2::{lemma_pow2_strictly_increases, lemma_pow2_unfold, pow2};
use vstd::prelude::*;

use crate::bits::{bit64, lemma_set_bit64, lemma_zero_bit64};
use crate::block_queue::QueueConfig;
use crate::block_request::has_feature;
use crate::fcntl::{acquire_plan, check_plan, excludes, is_locked_byte,
    law_file_lock_is_as_requested, law_file_write_lock_is_exclusive,
    law_marker_write_lock_is_exclusive, release_plan, Flock, LockError, LockGranularity,
    LockGranularityChoice, LockPhase, LockRequest, LockType};
use crate::virtio::{VIRTIO_BLK_F_BLK_SIZE, VIRTIO_BLK_F_CONFIG_WCE, VIRTIO_BLK_F_DISCARD,
    VIRTIO_BLK_F_FLUSH, VIRTIO_BLK_F_MQ, VIRTIO_BLK_F_RO, VIRTIO_BLK_F_SEG_MAX,
    VIRTIO_BLK_F_TOPOLOGY, VIRTIO_BLK_F_WRITE_ZEROES, VIRTIO_F_ACCESS_PLATFORM,
    VIRTIO_F_VERSION_1, VIRTIO_RING_F_EVENT_IDX, VIRTIO_RING_F_INDIRECT_DESC};
use crate::virtqueue::{queue_size, set_event_idx, size, virtqueue, VirtqueueView};
use crate::wire::put_le;

verus! {

/// Number of bytes of a sector.
pub const SECTOR_SIZE: u64 = 512;

/// Smallest size of a queue: one descriptor for the header, one for the status.
pub const MINIMUM_BLOCK_QUEUE_SIZE: u16 = 2;

/// Offset of the cache mode in the configuration space.
pub const WRITEBACK_OFFSET: u64 = 32;

/// The kinds of errors that a disk backend or the system reports.
#[derive(Clone, Copy, Debug, PartialEq, Eq, Structural)]
pub enum BlockErrorKind {
    /// A feature of the disk image is not supported.
    UnsupportedFeature,
    /// An input or output failed.
    Io,
    /// Any other error.
    Other,
}

/// An error that a disk backend or the system reports.
#[derive(Debug)]
pub struct BlockError {
    pub kind: BlockErrorKind,
    pub message: String,
}

impl BlockError {
    /// The kind of the error.
    pub fn kind(&self) -> (kind: BlockErrorKind)
        ensures
            kind == self.kind,
    {
        self.kind
    }
}

/// Errors of a block device.
#[derive(Debug)]
pub enum Error {
    /// Failed to get a lock for the disk image.
    LockDiskImage {
        /// The underlying error.
        error: LockError,
        /// The requested lock type.
        lock_type: LockType,
        /// The path of the disk image.
        path: String,
    },
    /// Failed getting the disk size.
    DiskSize(BlockError),
    /// Disk image size is not a multiple of the sector size.
    InvalidSize,
    /// Failed to pause vcpus.
    PauseVcpus(BlockError),
    /// Failed to resume vcpus.
    ResumeVcpus(BlockError),
    /// Failed to signal the config interrupt.
    ConfigChange(BlockError),
    /// Disk resize failed.
    DiskResize(BlockError),
    /// Mirror is currently active.
    MirrorActive,
}

/// Sizes that describe how a disk is best accessed.
#[derive(Clone, Copy, Debug)]
pub struct DiskTopology {
    pub logical_block_size: u64,
    pub physical_block_size: u64,
    pub minimum_io_size: u64,
    pub optimal_io_size: u64,
}

/// What the backend says about a disk.
#[derive(Debug)]
pub struct DiskProperties {
    /// The size of the disk, or the failure to get it.
    pub logical_size: Result<u64, BlockError>,
    /// Whether ranges can be deallocated and zeroed.
    pub supports_sparse_operations: bool,
    /// How the disk is best accessed.
    pub topology: DiskTopology,
    /// The largest number of segments of a discard or write zeroes request.
    pub max_discard_write_zeroes_seg: u32,
}

/// The configuration space of the device.
#[derive(Clone, Copy, Debug, PartialEq, Eq, Structural)]
pub struct VirtioBlockConfig {
    pub capacity: u64,
    pub size_max: u32,
    pub seg_max: u32,
    pub cylinders: u16,
    pub heads: u8,
    pub sectors: u8,
    pub blk_size: u32,
    pub physical_block_exp: u8,
    pub alignment_offset: u8,
    pub min_io_size: u16,
    pub opt_io_size: u32,
    pub writeback: u8,
    pub unused: u8,
    pub num_queues: u16,
    pub max_discard_sectors: u32,
    pub max_discard_seg: u32,
    pub discard_sector_alignment: u32,
    pub max_write_zeroes_sectors: u32,
    pub max_write_zeroes_seg: u32,
    pub write_zeroes_may_unmap: u8,
}

impl VirtioBlockConfig {
    /// The configuration space up to the cache mode.
    pub open spec fn bytes_before_writeback(self) -> Seq<u8> {
        crate::wire::le_bytes(self.capacity as nat, 8)
            + crate::wire::le_bytes(self.size_max as nat, 4)
            + crate::wire::le_bytes(self.seg_max as nat, 4)
            + crate::wire::le_bytes(self.cylinders as nat, 2)
            + crate::wire::le_bytes(self.heads as nat, 1)
            + crate::wire::le_bytes(self.sectors as nat, 1)
            + crate::wire::le_bytes(self.blk_size as nat, 4)
            + crate::wire::le_bytes(self.physical_block_exp as nat, 1)
            + crate::wire::le_bytes(self.alignment_offset as nat, 1)
            + crate::wire::le_bytes(self.min_io_size as nat, 2)
            + crate::wire::le_bytes(self.opt_io_size as nat, 4)
    }

    /// The configuration space from the cache mode on. Three bytes of padding end it.
    pub open spec fn bytes_from_writeback(self) -> Seq<u8> {
        crate::wire::le_bytes(self.writeback as nat, 1)
            + crate::wire::le_bytes(self.unused as nat, 1)
            + crate::wire::le_bytes(self.num_queues as nat, 2)
            + crate::wire::le_bytes(self.max_discard_sectors as nat, 4)
            + crate::wire::le_bytes(self.max_discard_seg as nat, 4)
            + crate::wire::le_bytes(self.discard_sector_alignment as nat, 4)
            + crate::wire::le_bytes(self.max_write_zeroes_sectors as nat, 4)
            + crate::wire::le_bytes(self.max_write_zeroes_seg as nat, 4)
            + crate::wire::le_bytes(self.write_zeroes_may_unmap as nat, 1)
            + crate::wire::le_bytes(0, 3)
    }

    /// The configuration space as the guest reads it: the fields in their order, without gaps
    /// and with their least significant byte first.
    pub open spec fn bytes(self) -> Seq<u8> {
        self.bytes_before_writeback() + self.bytes_from_writeback()
    }

    /// The configuration space as the guest reads it.
    pub fn to_bytes(&self) -> (bytes: Vec<u8>)
        ensures
            bytes@ == self.bytes(),
    {
        let mut bytes: Vec<u8> = Vec::new();
        put_le(&mut bytes, self.capacity as u64, 8);
        put_le(&mut bytes, self.size_max as u64, 4);
        put_le(&mut bytes, self.seg_max as u64, 4);
        put_le(&mut bytes, self.cylinders as u64, 2);
        put_le(&mut bytes, self.heads as u64, 1);
        put_le(&mut bytes, self.sectors as u64, 1);
        put_le(&mut bytes, self.blk_size as u64, 4);
        put_le(&mut bytes, self.physical_block_exp as u64, 1);
        put_le(&mut bytes, self.alignment_offset as u64, 1);
        put_le(&mut bytes, self.min_io_size as u64, 2);
        put_le(&mut bytes, self.opt_io_size as u64, 4);
        put_le(&mut bytes, self.writeback as u64, 1);
        put_le(&mut bytes, self.unused as u64, 1);
        put_le(&mut bytes, self.num_queues as u64, 2);
        put_le(&mut bytes, self.max_discard_sectors as u64, 4);
        put_le(&mut bytes, self.max_discard_seg as u64, 4);
        put_le(&mut bytes, self.discard_sector_alignment as u64, 4);
        put_le(&mut bytes, self.max_write_zeroes_sectors as u64, 4);
        put_le(&mut bytes, self.max_write_zeroes_seg as u64, 4);
        put_le(&mut bytes, self.write_zeroes_may_unmap as u64, 1);
        put_le(&mut bytes, 0, 3);
        assert(bytes@ =~= self.bytes());
        bytes
    }
}

/// The guest reads the cache mode where it writes it, and it can read it.
pub proof fn law_cache_mode_is_read_where_it_is_written(config: VirtioBlockConfig)
    ensures
        config.bytes().len() > WRITEBACK_OFFSET,
        config.bytes()[WRITEBACK_OFFSET as int] == config.writeback,
{
    crate::wire::lemma_le_bytes_len(config.capacity as nat, 8);
    crate::wire::lemma_le_bytes_len(config.size_max as nat, 4);
    crate::wire::lemma_le_bytes_len(config.seg_max as nat, 4);
    crate::wire::lemma_le_bytes_len(config.cylinders as nat, 2);
    crate::wire::lemma_le_bytes_len(config.heads as nat, 1);
    crate::wire::lemma_le_bytes_len(config.sectors as nat, 1);
    crate::wire::lemma_le_bytes_len(config.blk_size as nat, 4);
    crate::wire::lemma_le_bytes_len(config.physical_block_exp as nat, 1);
    crate::wire::lemma_le_bytes_len(config.alignment_offset as nat, 1);
    crate::wire::lemma_le_bytes_len(config.min_io_size as nat, 2);
    crate::wire::lemma_le_bytes_len(config.opt_io_size as nat, 4);
    crate::wire::lemma_le_bytes_len(config.writeback as nat, 1);
    let mode = crate::wire::le_bytes(config.writeback as nat, 1);
    assert(mode[0] == config.writeback) by {
        reveal_with_fuel(crate::wire::le_bytes, 2);
    }
    assert(config.bytes_from_writeback()[0] == mode[0]);
}

/// The guest reads back the cache mode that its write has led to.
pub proof fn law_written_cache_mode_is_read(block: Block, desired: bool)
    ensures
        ({
            let enabled = block.writeback_mode(desired);
            let bytes = block.with_writeback(enabled).config.bytes();
            &&& bytes.len() > WRITEBACK_OFFSET
            &&& bytes[WRITEBACK_OFFSET as int] == if enabled {
                1u8
            } else {
                0u8
            }
        }),
{
    law_cache_mode_is_read_where_it_is_written(
        block.with_writeback(block.writeback_mode(desired)).config,
    );
}

/// The state of a device that a snapshot keeps.
#[derive(Debug)]
pub struct BlockState {
    pub disk_path: String,
    pub disk_nsectors: u64,
    pub avail_features: u64,
    pub acked_features: u64,
    pub config: VirtioBlockConfig,
}

/// How the user wants the device to be.
#[derive(Debug)]
pub struct BlockSetup {
    pub id: String,
    pub disk_path: String,
    pub read_only: bool,
    pub access_platform_enabled: bool,
    pub num_queues: usize,
    pub queue_size: u16,
    pub serial: Vec<u8>,
    pub rate_limited: bool,
    pub sparse: bool,
    pub disable_sector0_writes: bool,
    pub lock_granularity: LockGranularityChoice,
}

/// The features that a new device offers.
pub open spec fn offers(
    setup: BlockSetup,
    supports_sparse_operations: bool,
    flag: u64,
) -> bool {
    ||| flag == VIRTIO_F_VERSION_1
    ||| flag == VIRTIO_BLK_F_FLUSH
    ||| flag == VIRTIO_BLK_F_CONFIG_WCE
    ||| flag == VIRTIO_BLK_F_BLK_SIZE
    ||| flag == VIRTIO_BLK_F_TOPOLOGY
    ||| flag == VIRTIO_BLK_F_SEG_MAX
    ||| flag == VIRTIO_RING_F_EVENT_IDX
    ||| flag == VIRTIO_RING_F_INDIRECT_DESC
    ||| flag == VIRTIO_BLK_F_WRITE_ZEROES && supports_sparse_operations
    ||| flag == VIRTIO_BLK_F_DISCARD && supports_sparse_operations && setup.sparse
    ||| flag == VIRTIO_F_ACCESS_PLATFORM && setup.access_platform_enabled
    ||| flag == VIRTIO_BLK_F_RO && setup.read_only
    ||| flag == VIRTIO_BLK_F_MQ && setup.num_queues > 1
}

/// The size of a logical block: that of the disk, but at least a sector.
pub open spec fn logical_block(topology: DiskTopology) -> u64 {
    if topology.logical_block_size > 512 {
        topology.logical_block_size
    } else {
        512
    }
}

/// `exp` is the smallest number of times that a logical block must be doubled to
/// hold a physical one.
pub open spec fn maps_physical_block(topology: DiskTopology, exp: int) -> bool {
    &&& 0 <= exp
    &&& logical_block(topology) * pow2(exp as nat) >= topology.physical_block_size
    &&& forall|k: nat|
        k < exp ==> logical_block(topology) * (#[trigger] pow2(k)) < topology.physical_block_size
}

/// A logical block can be doubled until it holds a physical one.
pub open spec fn topology_fits(topology: DiskTopology) -> bool {
    exists|k: nat|
        topology.physical_block_size <= logical_block(topology) * (#[trigger] pow2(k)) <= u64::MAX
}

/// The configuration space of a new device.
pub open spec fn is_new_config(
    setup: BlockSetup,
    disk: DiskProperties,
    disk_size: u64,
    config: VirtioBlockConfig,
) -> bool {
    let discard = disk.supports_sparse_operations && setup.sparse;
    let zeroes = disk.supports_sparse_operations;
    &&& maps_physical_block(disk.topology, config.physical_block_exp as int)
    &&& config == VirtioBlockConfig {
        capacity: disk_size / SECTOR_SIZE,
        size_max: 0,
        seg_max: (setup.queue_size - MINIMUM_BLOCK_QUEUE_SIZE) as u32,
        cylinders: 0,
        heads: 0,
        sectors: 0,
        blk_size: disk.topology.logical_block_size as u32,
        physical_block_exp: config.physical_block_exp,
        alignment_offset: 0,
        min_io_size: (disk.topology.minimum_io_size / logical_block(disk.topology)) as u16,
        opt_io_size: (disk.topology.optimal_io_size / logical_block(disk.topology)) as u32,
        writeback: 1,
        unused: 0,
        num_queues: if setup.num_queues > 1 {
            setup.num_queues as u16
        } else {
            0
        },
        max_discard_sectors: if discard {
            u32::MAX
        } else {
            0
        },
        max_discard_seg: if discard {
            disk.max_discard_write_zeroes_seg
        } else {
            0
        },
        discard_sector_alignment: if discard {
            (logical_block(disk.topology) / SECTOR_SIZE) as u32
        } else {
            0
        },
        max_write_zeroes_sectors: if zeroes {
            u32::MAX
        } else {
            0
        },
        max_write_zeroes_seg: if zeroes {
            disk.max_discard_write_zeroes_seg
        } else {
            0
        },
        write_zeroes_may_unmap: if discard {
            1
        } else {
            0
        },
    }
}

/// A virtio block device.
#[derive(Debug)]
pub struct Block {
    /// The identifier of the device.
    pub id: String,
    /// The path of the disk image.
    pub disk_path: String,
    /// The number of sectors of the disk.
    pub disk_nsectors: u64,
    /// The features that the device offers.
    pub avail_features: u64,
    /// The features that the guest acknowledged.
    pub acked_features: u64,
    /// The configuration space.
    pub config: VirtioBlockConfig,
    /// Whether the write cache is on.
    pub writeback: bool,
    /// Whether the device is paused.
    pub paused: bool,
    /// The largest size of each queue.
    pub queue_sizes: Vec<u16>,
    /// The number that the device shows as its serial number.
    pub serial: Vec<u8>,
    /// Whether the device has a rate limiter.
    pub rate_limited: bool,
    /// Whether writes to the first sector are rejected.
    pub disable_sector0_writes: bool,
    /// The user's choice for the granularity of locks.
    pub lock_granularity_choice: LockGranularityChoice,
    /// The current lock status. There is no way to query what locks are already held.
    pub held_lock: LockType,
    /// Whether the requests in flight are drained before a pause.
    pub draining_active_requests: bool,
    /// The size of each queue whose worker can be sent commands.
    pub queue_cmd_senders: Vec<u16>,
    /// Whether queue workers are running.
    pub active: bool,
    /// Whether the disk is being mirrored.
    pub mirror_active: bool,
}

/// Sets a feature bit.
fn with_feature(features: u64, flag: u64) -> (result: u64)
    requires
        flag < 64,
    ensures
        forall|b: u64|
            b < 64 ==> (#[trigger] bit64(result, b) <==> (b == flag || bit64(features, b))),
{
    proof {
        lemma_set_bit64(features, flag);
    }
    features | (1u64 << flag)
}

/// The exponent that maps a physical block to a logical block.
fn physical_block_exponent(topology: &DiskTopology, logical_block_size: u64) -> (exp: u8)
    requires
        logical_block_size == logical_block(*topology),
        topology_fits(*topology),
    ensures
        maps_physical_block(*topology, exp as int),
{
    let mut physical_block_exp: u8 = 0;
    let mut size: u64 = logical_block_size;
    let ghost bound = choose|k: nat|
        topology.physical_block_size <= logical_block(*topology) * (#[trigger] pow2(k))
            <= u64::MAX;
    proof {
        vstd::arithmetic::power2::lemma2_to64();
        if bound >= 64 {
            if bound > 64 {
                lemma_pow2_strictly_increases(64, bound);
            }
            assert(logical_block_size * pow2(bound) >= pow2(bound)) by (nonlinear_arith)
                requires
                    logical_block_size >= 1,
                    pow2(bound) >= 0,
            ;
            vstd::arithmetic::power2::lemma2_to64_rest();
        }
        assert(bound < 64);
        assert(logical_block_size * pow2(0) == logical_block_size);
    }
    while size < topology.physical_block_size
        invariant
            logical_block_size == logical_block(*topology),
            bound < 64,
            topology.physical_block_size <= logical_block_size * pow2(bound) <= u64::MAX,
            physical_block_exp <= bound,
            size == logical_block_size * pow2(physical_block_exp as nat),
            forall|k: nat|
                k < physical_block_exp ==> logical_block_size * (#[trigger] pow2(k))
                    < topology.physical_block_size,
        decreases bound - physical_block_exp,
    {
        let ghost exp = physical_block_exp as nat;
        proof {
            assert(exp < bound);
            lemma_pow2_unfold((exp + 1) as nat);
            if exp + 1 < bound {
                lemma_pow2_strictly_increases((exp + 1) as nat, bound);
            }
            assert(logical_block_size * pow2((exp + 1) as nat) == 2 * size) by (nonlinear_arith)
                requires
                    size == logical_block_size * pow2(exp),
                    pow2((exp + 1) as nat) == 2 * pow2(exp),
            ;
            assert(logical_block_size * pow2((exp + 1) as nat) <= logical_block_size * pow2(bound))
                by (nonlinear_arith)
                requires
                    pow2((exp + 1) as nat) <= pow2(bound),
                    logical_block_size >= 0,
            ;
        }
        physical_block_exp = physical_block_exp + 1;
        size = size * 2;
    }
    physical_block_exp
}

/// The features that a new device offers.
fn new_features(setup: &BlockSetup, supports_sparse_operations: bool) -> (features: u64)
    ensures
        forall|b: u64|
            b < 64 ==> (#[trigger] bit64(features, b) <==> offers(
                *setup,
                supports_sparse_operations,
                b,
            )),
{
    proof {
        assert forall|b: u64| b < 64 implies !(#[trigger] bit64(0u64, b)) by {
            lemma_zero_bit64(b);
        }
    }
    let mut features: u64 = 0;
    features = with_feature(features, VIRTIO_F_VERSION_1 as u64);
    features = with_feature(features, VIRTIO_BLK_F_FLUSH as u64);
    features = with_feature(features, VIRTIO_BLK_F_CONFIG_WCE as u64);
    features = with_feature(features, VIRTIO_BLK_F_BLK_SIZE as u64);
    features = with_feature(features, VIRTIO_BLK_F_TOPOLOGY as u64);
    features = with_feature(features, VIRTIO_BLK_F_SEG_MAX as u64);
    features = with_feature(features, VIRTIO_RING_F_EVENT_IDX as u64);
    features = with_feature(features, VIRTIO_RING_F_INDIRECT_DESC as u64);
    // When the backend supports sparse operations:
    // - Always advertise WRITE_ZEROES (safe for all drivers)
    // - Advertise DISCARD only when sparse=true, since DISCARD deallocates space via
    //   punch_hole and should require explicit user opt in.
    if supports_sparse_operations {
        features = with_feature(features, VIRTIO_BLK_F_WRITE_ZEROES as u64);
        if setup.sparse {
            features = with_feature(features, VIRTIO_BLK_F_DISCARD as u64);
        }
    }
    if setup.access_platform_enabled {
        features = with_feature(features, VIRTIO_F_ACCESS_PLATFORM as u64);
    }
    if setup.read_only {
        features = with_feature(features, VIRTIO_BLK_F_RO as u64);
    }
    if setup.num_queues > 1 {
        features = with_feature(features, VIRTIO_BLK_F_MQ as u64);
    }
    features
}

/// The configuration space of a new device.
fn new_config(setup: &BlockSetup, disk: &DiskProperties, disk_size: u64) -> (config:
    VirtioBlockConfig)
    requires
        setup.queue_size >= MINIMUM_BLOCK_QUEUE_SIZE,
        topology_fits(disk.topology),
    ensures
        is_new_config(*setup, *disk, disk_size, config),
{
    let logical_block_size: u64 = if disk.topology.logical_block_size > 512 {
        disk.topology.logical_block_size
    } else {
        512
    };
    let physical_block_exp: u8 = physical_block_exponent(&disk.topology, logical_block_size);
    let mut config = VirtioBlockConfig {
        capacity: disk_size / SECTOR_SIZE,
        size_max: 0,
        seg_max: (setup.queue_size - MINIMUM_BLOCK_QUEUE_SIZE) as u32,
        cylinders: 0,
        heads: 0,
        sectors: 0,
        blk_size: disk.topology.logical_block_size as u32,
        physical_block_exp,
        alignment_offset: 0,
        min_io_size: (disk.topology.minimum_io_size / logical_block_size) as u16,
        opt_io_size: (disk.topology.optimal_io_size / logical_block_size) as u32,
        writeback: 1,
        unused: 0,
        num_queues: 0,
        max_discard_sectors: 0,
        max_discard_seg: 0,
        discard_sector_alignment: 0,
        max_write_zeroes_sectors: 0,
        max_write_zeroes_seg: 0,
        write_zeroes_may_unmap: 0,
    };
    if disk.supports_sparse_operations {
        config.max_write_zeroes_sectors = u32::MAX;
        config.max_write_zeroes_seg = disk.max_discard_write_zeroes_seg;
        if setup.sparse {
            config.write_zeroes_may_unmap = 1;
            config.max_discard_sectors = u32::MAX;
            config.max_discard_seg = disk.max_discard_write_zeroes_seg;
            config.discard_sector_alignment = (logical_block_size / SECTOR_SIZE) as u32;
        }
    }
    if setup.num_queues > 1 {
        config.num_queues = setup.num_queues as u16;
    }
    config
}

impl BlockState {
    /// This is the state that a snapshot keeps of the device.
    pub open spec fn is_state_of(self, block: Block) -> bool {
        &&& self.disk_path@ == block.disk_path@
        &&& self.disk_nsectors == block.disk_nsectors
        &&& self.avail_features == block.avail_features
        &&& self.acked_features == block.acked_features
        &&& self.config == block.config
    }
}

impl Block {
    /// The device has been restored from a state, and is still paused.
    pub open spec fn restored_from(self, state: BlockState) -> bool {
        &&& self.disk_nsectors == state.disk_nsectors
        &&& self.avail_features == state.avail_features
        &&& self.acked_features == state.acked_features
        &&& self.config == state.config
        &&& self.paused
    }

    /// The parts of a device that only depend on how the user wants it to be.
    pub open spec fn built_from(self, setup: BlockSetup) -> bool {
        &&& self.id == setup.id
        &&& self.disk_path == setup.disk_path
        &&& self.writeback
        &&& self.queue_sizes@ == Seq::new(setup.num_queues as nat, |i: int| setup.queue_size)
        &&& self.serial == setup.serial
        &&& self.rate_limited == setup.rate_limited
        &&& self.disable_sector0_writes == setup.disable_sector0_writes
        &&& self.lock_granularity_choice == setup.lock_granularity
        &&& self.held_lock == LockType::Unlock
        &&& !self.draining_active_requests
        &&& self.queue_cmd_senders@.len() == 0
        &&& !self.active
        &&& !self.mirror_active
    }

    /// Creates a new virtio block device that operates on the given disk, or restores it
    /// from a state.
    pub fn new(setup: BlockSetup, disk: DiskProperties, state: Option<BlockState>) -> (result:
        Result<Self, Error>)
        requires
            (state is None && disk.logical_size is Ok) ==> setup.queue_size
                >= MINIMUM_BLOCK_QUEUE_SIZE && topology_fits(disk.topology),
        ensures
            (state is None && disk.logical_size is Err) <==> result is Err,
            result matches Err(e) ==> disk.logical_size matches Err(reason) && e == Error::DiskSize(
                reason,
            ),
            result matches Ok(block) ==> block.built_from(setup) && match state {
                Some(state) => block.restored_from(state),
                None => {
                    &&& block.disk_nsectors == disk.logical_size->Ok_0 / SECTOR_SIZE
                    &&& forall|b: u64|
                        b < 64 ==> (#[trigger] bit64(block.avail_features, b) <==> offers(
                            setup,
                            disk.supports_sparse_operations,
                            b,
                        ))
                    &&& block.acked_features == 0
                    &&& is_new_config(setup, disk, disk.logical_size->Ok_0, block.config)
                    &&& block.config.capacity == block.disk_nsectors
                    &&& block.disk_nsectors * 512 <= disk.logical_size->Ok_0
                    &&& disk.logical_size->Ok_0 < (block.disk_nsectors + 1) * 512
                    &&& block.is_read_only() == setup.read_only
                    &&& !block.paused
                },
            },
            result matches Ok(block) ==> {
                &&& block.queue_sizes@.len() == setup.num_queues
                &&& block.disable_sector0_writes == setup.disable_sector0_writes
                &&& block.lock_granularity_choice == setup.lock_granularity
                &&& block.held_lock == LockType::Unlock
            },
    {
        let (disk_nsectors, avail_features, acked_features, config, paused): (
            u64,
            u64,
            u64,
            VirtioBlockConfig,
            bool,
        ) = match state {
            Some(state) => (
                state.disk_nsectors,
                state.avail_features,
                state.acked_features,
                state.config,
                true,
            ),
            None => {
                let disk_size: u64 = match disk.logical_size {
                    Ok(size) => size,
                    Err(reason) => return Err(Error::DiskSize(reason)),
                };
                (
                    disk_size / SECTOR_SIZE,
                    new_features(&setup, disk.supports_sparse_operations),
                    0,
                    new_config(&setup, &disk, disk_size),
                    false,
                )
            },
        };
        let queue_sizes: Vec<u16> = vec![setup.queue_size; setup.num_queues];
        assert(queue_sizes@ =~= Seq::new(setup.num_queues as nat, |i: int| setup.queue_size));
        Ok(
            Block {
                id: setup.id,
                disk_path: setup.disk_path,
                disk_nsectors,
                avail_features,
                acked_features,
                config,
                writeback: true,
                paused,
                queue_sizes,
                serial: setup.serial,
                rate_limited: setup.rate_limited,
                disable_sector0_writes: setup.disable_sector0_writes,
                lock_granularity_choice: setup.lock_granularity,
                held_lock: LockType::Unlock,
                draining_active_requests: false,
                queue_cmd_senders: Vec::new(),
                active: false,
                mirror_active: false,
            },
        )
    }

    /// The device is read-only.
    pub open spec fn is_read_only(self) -> bool {
        bit64(self.avail_features, VIRTIO_BLK_F_RO as u64)
    }

    /// Whether the device is read-only.
    pub fn read_only(&self) -> (read_only: bool)
        ensures
            read_only == self.is_read_only(),
    {
        has_feature(self.avail_features, VIRTIO_BLK_F_RO as u64)
    }

    /// The lock that is held on the image of the device.
    pub open spec fn image_lock(self) -> LockType {
        if self.is_read_only() {
            LockType::Read
        } else {
            LockType::Write
        }
    }

    /// The lock that is held on the image of the device.
    pub fn image_lock_type(&self) -> (lock_type: LockType)
        ensures
            lock_type == self.image_lock(),
    {
        if self.read_only() {
            LockType::Read
        } else {
            LockType::Write
        }
    }

    /// The granularity of the lock on a disk with the given sizes.
    ///
    /// A byte range lock covers the larger of the two sizes: the logical size is larger
    /// for sparse files, the physical one for small dense files due to the rounding of
    /// the filesystem.
    pub open spec fn granularity(self, logical: Result<u64, ()>, physical: Result<u64, ()>) -> LockGranularity {
        match self.lock_granularity_choice {
            LockGranularityChoice::Full => LockGranularity::WholeFile,
            LockGranularityChoice::QemuCompatible => LockGranularity::QemuCompatible,
            LockGranularityChoice::ByteRange => match (logical, physical) {
                (Ok(l), Ok(p)) => LockGranularity::ByteRange(
                    0,
                    if l > p {
                        l
                    } else {
                        p
                    },
                ),
                (Ok(l), Err(_)) => LockGranularity::ByteRange(0, l),
                (Err(_), Ok(p)) => LockGranularity::ByteRange(0, p),
                (Err(_), Err(_)) => LockGranularity::WholeFile,
            },
        }
    }

    /// Returns the advisory lock granularity to use for a disk with the given sizes.
    ///
    /// The granularity follows the choice in the block config.
    pub fn lock_granularity(&self, logical: Result<u64, ()>, physical: Result<u64, ()>) -> (
        granularity: LockGranularity)
        ensures
            granularity == self.granularity(logical, physical),
    {
        match self.lock_granularity_choice {
            LockGranularityChoice::Full => LockGranularity::WholeFile,
            LockGranularityChoice::QemuCompatible => LockGranularity::QemuCompatible,
            LockGranularityChoice::ByteRange => match (logical, physical) {
                (Ok(l), Ok(p)) => if l > p {
                    LockGranularity::ByteRange(0, l)
                } else {
                    LockGranularity::ByteRange(0, p)
                },
                (Ok(l), Err(_)) => LockGranularity::ByteRange(0, l),
                (Err(_), Ok(p)) => LockGranularity::ByteRange(0, p),
                (Err(_), Err(_)) => LockGranularity::WholeFile,
            },
        }
    }

    /// Starts to acquire an advisory lock for an arbitrary disk backend.
    pub fn try_lock_disk_image(
        &self,
        logical: Result<u64, ()>,
        physical: Result<u64, ()>,
        lock_type: LockType,
        current_lock: LockType,
    ) -> (request: LockRequest)
        ensures
            request.wf(),
            request.spec_phase() == LockPhase::Setting(0),
            request.spec_acquire() == acquire_plan(self.granularity(logical, physical), lock_type),
            request.spec_check() == check_plan(self.granularity(logical, physical), lock_type),
            request.spec_release() == release_plan(
                self.granularity(logical, physical),
                lock_type,
                current_lock,
            ),
    {
        self.lock_granularity(logical, physical).try_acquire_lock(lock_type, current_lock)
    }

    /// Starts to set an advisory lock for the disk image of the device.
    pub fn try_lock_image(&self, logical: Result<u64, ()>, physical: Result<u64, ()>) -> (request:
        LockRequest)
        ensures
            request.wf(),
            request.spec_phase() == LockPhase::Setting(0),
            request.spec_acquire() == acquire_plan(
                self.granularity(logical, physical),
                self.image_lock(),
            ),
            request.spec_check() == check_plan(
                self.granularity(logical, physical),
                self.image_lock(),
            ),
            request.spec_release() == release_plan(
                self.granularity(logical, physical),
                self.image_lock(),
                self.held_lock,
            ),
    {
        self.try_lock_disk_image(logical, physical, self.image_lock_type(), self.held_lock)
    }

    /// Takes the result of setting the lock into account.
    pub fn image_locked(&mut self, locked: Result<(), LockError>) -> (result: Result<(), Error>)
        ensures
            match locked {
                Ok(()) => result is Ok && *final(self) == (Block {
                    held_lock: old(self).image_lock(),
                    ..*old(self)
                }),
                Err(e) => *final(self) == *old(self) && (result matches Err(
                    Error::LockDiskImage { error, lock_type, path },
                ) && error == e && lock_type == old(self).image_lock() && path@ == old(
                    self,
                ).disk_path@),
            },
    {
        let lock_type = self.image_lock_type();
        match locked {
            Ok(()) => {
                self.held_lock = lock_type;
                Ok(())
            },
            Err(error) => Err(
                Error::LockDiskImage { error, lock_type, path: self.disk_path.clone() },
            ),
        }
    }

    /// Starts to release the advisory lock held for the disk image of the device.
    pub fn unlock_image(&self, logical: Result<u64, ()>, physical: Result<u64, ()>) -> (request:
        LockRequest)
        ensures
            request.wf(),
            request.spec_phase() == LockPhase::Setting(0),
            request.spec_acquire() == acquire_plan(
                self.granularity(logical, physical),
                LockType::Unlock,
            ),
            request.spec_check() == Seq::<Flock>::empty(),
            request.spec_release() == Seq::<Flock>::empty(),
    {
        self.lock_granularity(logical, physical).clear_lock()
    }

    /// Takes the result of releasing the lock into account.
    pub fn image_unlocked(&mut self, unlocked: Result<(), LockError>) -> (result: Result<
        (),
        Error,
    >)
        ensures
            match unlocked {
                Ok(()) => result is Ok && *final(self) == (Block {
                    held_lock: LockType::Unlock,
                    ..*old(self)
                }),
                Err(e) => *final(self) == *old(self) && (result matches Err(
                    Error::LockDiskImage { error, lock_type, path },
                ) && error == e && lock_type == LockType::Unlock && path@ == old(self).disk_path@),
            },
    {
        match unlocked {
            Ok(()) => {
                self.held_lock = LockType::Unlock;
                Ok(())
            },
            Err(error) => Err(
                Error::LockDiskImage {
                    error,
                    lock_type: LockType::Unlock,
                    path: self.disk_path.clone(),
                },
            ),
        }
    }

    /// The state that a snapshot keeps.
    pub fn state(&self) -> (state: BlockState)
        ensures
            state.is_state_of(*self),
    {
        BlockState {
            disk_path: self.disk_path.clone(),
            disk_nsectors: self.disk_nsectors,
            avail_features: self.avail_features,
            acked_features: self.acked_features,
            config: self.config,
        }
    }

    /// The state for a snapshot, which cannot be taken while the disk is being mirrored.
    pub fn snapshot(&self) -> (result: Result<BlockState, Error>)
        ensures
            self.mirror_active ==> (result matches Err(e) && e is MirrorActive),
            !self.mirror_active ==> (result matches Ok(state) && state.is_state_of(*self)),
    {
        if self.mirror_active {
            return Err(Error::MirrorActive);
        }
        Ok(self.state())
    }

    /// The cache mode that results from the negotiated features and the desired mode.
    pub open spec fn writeback_mode(self, desired: bool) -> bool {
        &&& bit64(self.acked_features, VIRTIO_BLK_F_FLUSH as u64)
        &&& bit64(self.acked_features, VIRTIO_BLK_F_CONFIG_WCE as u64) ==> desired
    }

    /// The virtio v1.2 spec says "If VIRTIO_BLK_F_CONFIG_WCE was not negotiated but
    /// VIRTIO_BLK_F_FLUSH was, the driver SHOULD assume presence of a writeback cache." It
    /// also says "If VIRTIO_BLK_F_CONFIG_WCE is negotiated but VIRTIO_BLK_F_FLUSH is not, the
    /// device MUST initialize writeback to 0."
    pub fn is_writeback_enabled(&self, desired: bool) -> (enabled: bool)
        ensures
            enabled == self.writeback_mode(desired),
    {
        let flush: bool = has_feature(self.acked_features, VIRTIO_BLK_F_FLUSH as u64);
        let wce: bool = has_feature(self.acked_features, VIRTIO_BLK_F_CONFIG_WCE as u64);
        if wce {
            flush && desired
        } else {
            flush
        }
    }

    /// The device with its cache mode set.
    pub open spec fn with_writeback(self, enabled: bool) -> Block {
        Block {
            writeback: enabled,
            config: VirtioBlockConfig {
                writeback: if enabled {
                    1
                } else {
                    0
                },
                ..self.config
            },
            ..self
        }
    }

    /// Sets the cache mode.
    pub fn set_writeback_mode(&mut self, enabled: bool)
        ensures
            *final(self) == old(self).with_writeback(enabled),
    {
        self.config.writeback = if enabled {
            1
        } else {
            0
        };
        self.writeback = enabled;
    }

    /// Writes to the configuration space. The cache mode is the only field that can be
    /// written; any other write is ignored.
    pub fn write_config(&mut self, offset: u64, data: &[u8])
        ensures
            *final(self) == if offset == WRITEBACK_OFFSET && data@.len() == 1 {
                old(self).with_writeback(old(self).writeback_mode(data@[0] == 1))
            } else {
                *old(self)
            },
    {
        if offset != WRITEBACK_OFFSET || data.len() != 1 {
            return ;
        }
        let writeback: bool = self.is_writeback_enabled(data[0] == 1);
        self.set_writeback_mode(writeback);
    }
}

/// What a queue worker is started with.
#[derive(Clone, Copy, Debug)]
pub struct QueueActivation {
    /// The index of the queue.
    pub queue_index: u16,
    /// The number of requests that the backend of the worker can hold.
    pub ring_depth: u32,
    /// What the worker knows about the device.
    pub config: QueueConfig,
}

impl Block {
    /// Notes the features that the guest acknowledges, of which only those that are offered
    /// count.
    pub fn ack_features(&mut self, value: u64)
        ensures
            *final(self) == (Block {
                acked_features: old(self).acked_features | (value & old(self).avail_features),
                ..*old(self)
            }),
            forall|b: u64|
                b < 64 ==> (#[trigger] bit64(final(self).acked_features, b) <==> bit64(
                    old(self).acked_features,
                    b,
                ) || (bit64(value, b) && bit64(old(self).avail_features, b))),
    {
        proof {
            let acked = self.acked_features;
            let avail = self.avail_features;
            assert forall|b: u64| b < 64 implies (#[trigger] bit64(acked | (value & avail), b) <==> bit64(
                acked,
                b,
            ) || (bit64(value, b) && bit64(avail, b))) by {
                assert((((acked | (value & avail)) >> b) & 1u64 == 1u64) <==> ((acked >> b) & 1u64
                    == 1u64 || ((value >> b) & 1u64 == 1u64 && (avail >> b) & 1u64 == 1u64)))
                    by (bit_vector)
                    requires
                        b < 64,
                ;
            }
        }
        self.acked_features = self.acked_features | (value & self.avail_features);
    }

    /// Reads a part of the configuration space. A part that reaches beyond it is not read.
    pub fn read_config(&self, offset: u64, data: &mut [u8])
        ensures
            final(data)@ == if offset + old(data)@.len() <= self.config.bytes().len() {
                self.config.bytes().subrange(offset as int, offset + old(data)@.len())
            } else {
                old(data)@
            },
    {
        let config: Vec<u8> = self.config.to_bytes();
        let config_len: usize = config.len();
        let len: usize = data.len();
        if offset > config_len as u64 || len > config_len - offset as usize {
            return;
        }
        let start: usize = offset as usize;
        let mut i: usize = 0;
        while i < len
            invariant
                i <= len,
                len == data@.len(),
                len == old(data)@.len(),
                config_len == config@.len(),
                start + len <= config_len,
                forall|j: int| 0 <= j < i ==> data@[j] == config@[start + j],
            decreases len - i,
        {
            data[i] = config[start + i];
            i = i + 1;
        }
    }

    /// Makes a device that offers to be read-only act as if the guest had acknowledged
    /// that, and returns whether the guest had not.
    pub fn acknowledge_read_only(&mut self) -> (forced: bool)
        ensures
            *final(self) == (Block { acked_features: final(self).acked_features, ..*old(self) }),
            forall|b: u64|
                b < 64 ==> (#[trigger] bit64(final(self).acked_features, b) <==> bit64(
                    old(self).acked_features,
                    b,
                ) || (b == VIRTIO_BLK_F_RO && old(self).is_read_only())),
            forced == (old(self).is_read_only() && !bit64(
                old(self).acked_features,
                VIRTIO_BLK_F_RO as u64,
            )),
    {
        if self.read_only() && !has_feature(self.acked_features, VIRTIO_BLK_F_RO as u64) {
            self.acked_features = with_feature(self.acked_features, VIRTIO_BLK_F_RO as u64);
            true
        } else {
            false
        }
    }

    /// Prepares the activation of the queues: the cache mode follows the negotiated
    /// features, and the command handles of a previous activation are discarded.
    pub fn begin_activate(&mut self)
        ensures
            *final(self) == (Block {
                queue_cmd_senders: final(self).queue_cmd_senders,
                ..old(self).with_writeback(old(self).writeback_mode(old(self).config.writeback == 1))
            }),
            final(self).queue_cmd_senders@.len() == 0,
    {
        let writeback: bool = self.is_writeback_enabled(self.config.writeback == 1);
        self.set_writeback_mode(writeback);
        self.queue_cmd_senders = Vec::new();
    }

    /// Activates the virtqueue with the given position. It uses event indices if the guest has
    /// acknowledged them.
    pub fn activate_queue(&mut self, index: usize, queue: &mut Queue) -> (activation:
        QueueActivation)
        ensures
            *final(self) == (Block {
                queue_cmd_senders: final(self).queue_cmd_senders,
                ..*old(self)
            }),
            final(self).queue_cmd_senders@ == old(self).queue_cmd_senders@.push(
                queue_size(*old(queue)),
            ),
            virtqueue(*final(queue)) == (VirtqueueView {
                event_idx: bit64(old(self).acked_features, VIRTIO_RING_F_EVENT_IDX as u64),
                ..virtqueue(*old(queue))
            }),
            activation == (QueueActivation {
                queue_index: index as u16,
                ring_depth: queue_size(*old(queue)) as u32,
                config: QueueConfig {
                    queue_size: queue_size(*old(queue)),
                    acked_features: old(self).acked_features,
                    disable_sector0_writes: old(self).disable_sector0_writes,
                    serial_len: old(self).serial@.len() as usize,
                    rate_limited: old(self).rate_limited,
                },
            }),
    {
        set_event_idx(queue, has_feature(self.acked_features, VIRTIO_RING_F_EVENT_IDX as u64));
        let size: u16 = size(queue);
        self.queue_cmd_senders.push(size);
        QueueActivation {
            queue_index: index as u16,
            ring_depth: size as u32,
            config: QueueConfig {
                queue_size: size,
                acked_features: self.acked_features,
                disable_sector0_writes: self.disable_sector0_writes,
                serial_len: self.serial.len(),
                rate_limited: self.rate_limited,
            },
        }
    }

    /// Notes that the workers of all queues are running.
    pub fn activated(&mut self)
        ensures
            *final(self) == (Block { active: true, ..*old(self) }),
    {
        self.active = true;
    }

    /// Resets the device: it has no command handles, drains no requests, and its write
    /// cache is on.
    pub fn reset(&mut self)
        ensures
            *final(self) == (Block {
                queue_cmd_senders: final(self).queue_cmd_senders,
                draining_active_requests: false,
                ..old(self).with_writeback(true)
            }),
            final(self).queue_cmd_senders@.len() == 0,
    {
        self.queue_cmd_senders = Vec::new();
        self.draining_active_requests = false;
        self.set_writeback_mode(true);
    }
}

/// How far a resize has come.
#[derive(Debug)]
pub enum ResizePhase {
    /// Resizing the disk to this number of sectors.
    ResizingDisk(u64),
    /// Pausing the workers.
    Pausing(u64),
    /// Resuming the workers.
    Resuming,
    /// Telling the guest that the configuration has changed.
    Signalling,
    /// The resize has ended.
    Finished(Result<(), Error>),
}

/// The device and the phase that follow a phase of a resize, given how its action ended.
pub open spec fn resize_next(
    block: Block,
    phase: ResizePhase,
    answer: Result<(), BlockError>,
) -> (Block, ResizePhase) {
    match (phase, answer) {
        (ResizePhase::ResizingDisk(nsectors), Ok(())) => (block, ResizePhase::Pausing(nsectors)),
        (ResizePhase::ResizingDisk(_), Err(reason)) => (
            block,
            ResizePhase::Finished(Err(Error::DiskResize(reason))),
        ),
        (ResizePhase::Pausing(nsectors), Ok(())) => (
            Block {
                disk_nsectors: nsectors,
                config: VirtioBlockConfig { capacity: nsectors, ..block.config },
                paused: true,
                ..block
            },
            ResizePhase::Resuming,
        ),
        (ResizePhase::Pausing(_), Err(reason)) => (
            block,
            ResizePhase::Finished(Err(Error::PauseVcpus(reason))),
        ),
        (ResizePhase::Resuming, Ok(())) => (
            Block { paused: false, ..block },
            ResizePhase::Signalling,
        ),
        (ResizePhase::Resuming, Err(reason)) => (
            block,
            ResizePhase::Finished(Err(Error::ResumeVcpus(reason))),
        ),
        (ResizePhase::Signalling, Ok(())) => (block, ResizePhase::Finished(Ok(()))),
        (ResizePhase::Signalling, Err(reason)) => (
            block,
            ResizePhase::Finished(Err(Error::ConfigChange(reason))),
        ),
        (ResizePhase::Finished(_), _) => (block, phase),
    }
}

impl Block {
    /// Starts to resize the disk. The size must be a multiple of the sector size, and the
    /// disk must not be mirrored.
    pub fn resize(&self, new_size: u64) -> (phase: ResizePhase)
        ensures
            phase == if new_size % SECTOR_SIZE != 0 {
                ResizePhase::Finished(Err(Error::InvalidSize))
            } else if self.mirror_active {
                ResizePhase::Finished(Err(Error::MirrorActive))
            } else {
                ResizePhase::ResizingDisk(new_size / SECTOR_SIZE)
            },
            phase matches ResizePhase::ResizingDisk(nsectors) ==> nsectors * 512 == new_size,
            phase is ResizingDisk <==> new_size % 512 == 0 && !self.mirror_active,
    {
        if new_size % SECTOR_SIZE != 0 {
            return ResizePhase::Finished(Err(Error::InvalidSize));
        }
        if self.mirror_active {
            return ResizePhase::Finished(Err(Error::MirrorActive));
        }
        ResizePhase::ResizingDisk(new_size / SECTOR_SIZE)
    }

    /// Takes into account how the action of a phase of a resize ended.
    pub fn continue_resize(&mut self, phase: ResizePhase, answer: Result<(), BlockError>) -> (next:
        ResizePhase)
        ensures
            (*final(self), next) == resize_next(*old(self), phase, answer),
    {
        match (phase, answer) {
            (ResizePhase::ResizingDisk(nsectors), Ok(())) => ResizePhase::Pausing(nsectors),
            (ResizePhase::ResizingDisk(_), Err(reason)) => ResizePhase::Finished(
                Err(Error::DiskResize(reason)),
            ),
            (ResizePhase::Pausing(nsectors), Ok(())) => {
                self.disk_nsectors = nsectors;
                self.config.capacity = nsectors;
                self.paused = true;
                ResizePhase::Resuming
            },
            (ResizePhase::Pausing(_), Err(reason)) => ResizePhase::Finished(
                Err(Error::PauseVcpus(reason)),
            ),
            (ResizePhase::Resuming, Ok(())) => {
                self.paused = false;
                ResizePhase::Signalling
            },
            (ResizePhase::Resuming, Err(reason)) => ResizePhase::Finished(
                Err(Error::ResumeVcpus(reason)),
            ),
            (ResizePhase::Signalling, Ok(())) => ResizePhase::Finished(Ok(())),
            (ResizePhase::Signalling, Err(reason)) => ResizePhase::Finished(
                Err(Error::ConfigChange(reason)),
            ),
            (ResizePhase::Finished(result), _) => ResizePhase::Finished(result),
        }
    }
}

/// After a pause has waited this many seconds for active requests, it fails.
pub const BLOCK_PAUSE_DRAIN_TIMEOUT_SECS: u64 = 30;

/// After this many seconds a pause first warns that it still waits.
pub const BLOCK_PAUSE_FIRST_DRAIN_WARNING_SECS: u64 = 1;

/// The number of seconds between two such warnings.
pub const BLOCK_PAUSE_DRAIN_WARNING_INTERVAL_SECS: u64 = 5;

/// What a pause does about active requests.
#[derive(Clone, Copy, Debug, PartialEq, Eq, Structural)]
pub enum DrainStep {
    /// No request is active.
    Drained,
    /// The requests took too long.
    TimedOut,
    /// Look again, after a warning if this says so.
    Wait(bool),
}

/// Decides what a pause does, given the number of active requests and the whole seconds
/// for which it has waited. A warning puts off the next one.
pub fn wait_for_active_requests(
    active: usize,
    elapsed_secs: u64,
    next_warning_secs: &mut u64,
) -> (step: DrainStep)
    ensures
        step == if active == 0 {
            DrainStep::Drained
        } else if elapsed_secs >= BLOCK_PAUSE_DRAIN_TIMEOUT_SECS {
            DrainStep::TimedOut
        } else {
            DrainStep::Wait(elapsed_secs >= *old(next_warning_secs))
        },
        *final(next_warning_secs) == *old(next_warning_secs) + if step == DrainStep::Wait(true) {
            BLOCK_PAUSE_DRAIN_WARNING_INTERVAL_SECS
        } else {
            0
        },
{
    if active == 0 {
        return DrainStep::Drained;
    }
    if elapsed_secs >= BLOCK_PAUSE_DRAIN_TIMEOUT_SECS {
        return DrainStep::TimedOut;
    }
    if elapsed_secs >= *next_warning_secs {
        *next_warning_secs = *next_warning_secs + BLOCK_PAUSE_DRAIN_WARNING_INTERVAL_SECS;
        DrainStep::Wait(true)
    } else {
        DrainStep::Wait(false)
    }
}

/// How far a pause has come.
#[derive(Clone, Copy, Debug, PartialEq, Eq)]
pub enum PausePhase {
    /// Waiting for the active requests.
    Draining,
    /// Parking the workers.
    Parking,
    /// The pause has ended, with success if this says so.
    Finished(bool),
}

/// The device and the phase that follow a phase of a pause, given whether its action
/// succeeded.
pub open spec fn pause_next(block: Block, phase: PausePhase, ok: bool) -> (Block, PausePhase) {
    match phase {
        PausePhase::Draining => if ok {
            (block, PausePhase::Parking)
        } else {
            (Block { draining_active_requests: false, ..block }, PausePhase::Finished(false))
        },
        PausePhase::Parking => (
            Block {
                draining_active_requests: false,
                paused: if ok {
                    true
                } else {
                    block.paused
                },
                ..block
            },
            PausePhase::Finished(ok),
        ),
        PausePhase::Finished(_) => (block, phase),
    }
}

impl Block {
    /// Starts to pause the device. The requests are drained before the worker threads are
    /// parked: the workers are what complete in-flight I/O, so they must keep running
    /// until the count reaches zero.
    pub fn pause(&mut self) -> (phase: PausePhase)
        ensures
            *final(self) == (Block { draining_active_requests: true, ..*old(self) }),
            phase is Draining,
    {
        self.draining_active_requests = true;
        PausePhase::Draining
    }

    /// Takes into account whether the action of a phase of a pause succeeded. The drain
    /// flag is rolled back at the end, also if a step fails.
    pub fn continue_pause(&mut self, phase: PausePhase, ok: bool) -> (next: PausePhase)
        ensures
            (*final(self), next) == pause_next(*old(self), phase, ok),
    {
        match phase {
            PausePhase::Draining => if ok {
                PausePhase::Parking
            } else {
                self.draining_active_requests = false;
                PausePhase::Finished(false)
            },
            PausePhase::Parking => {
                self.draining_active_requests = false;
                if ok {
                    self.paused = true;
                }
                PausePhase::Finished(ok)
            },
            PausePhase::Finished(ok) => PausePhase::Finished(ok),
        }
    }

    /// Starts to resume the device.
    pub fn resume(&mut self)
        ensures
            *final(self) == (Block { draining_active_requests: false, ..*old(self) }),
    {
        self.draining_active_requests = false;
    }

    /// Notes that the workers have been resumed.
    pub fn resumed(&mut self)
        ensures
            *final(self) == (Block { paused: false, ..*old(self) }),
    {
        self.paused = false;
    }
}

/// A new device shows its whole disk to the guest, whatever the topology: the capacity counts
/// sectors of 512 bytes, and only a remainder that is smaller than a sector is not seen.
pub proof fn law_new_device_shows_whole_disk(
    setup: BlockSetup,
    disk: DiskProperties,
    disk_size: u64,
    config: VirtioBlockConfig,
)
    requires
        is_new_config(setup, disk, disk_size, config),
    ensures
        config.capacity * 512 <= disk_size,
        disk_size < (config.capacity + 1) * 512,
{
}

/// The sizes that a new device shows follow the topology of the disk. A logical block is at least
/// a sector. Sizes of requests count logical blocks, the alignment of discards counts sectors, and
/// a physical block is a logical one that has been doubled, as seldom as possible.
pub proof fn law_new_device_shows_topology(
    setup: BlockSetup,
    disk: DiskProperties,
    disk_size: u64,
    config: VirtioBlockConfig,
    block: u64,
)
    requires
        is_new_config(setup, disk, disk_size, config),
        block >= 512,
        block >= disk.topology.logical_block_size,
        block == 512 || block == disk.topology.logical_block_size,
    ensures
        disk.topology.logical_block_size <= u32::MAX ==> config.blk_size
            == disk.topology.logical_block_size,
        disk.topology.minimum_io_size < 0x1_0000 * block ==> config.min_io_size * block
            <= disk.topology.minimum_io_size < (config.min_io_size + 1) * block,
        disk.topology.optimal_io_size < 0x1_0000_0000 * block ==> config.opt_io_size * block
            <= disk.topology.optimal_io_size < (config.opt_io_size + 1) * block,
        disk.supports_sparse_operations && setup.sparse && block < 0x1_0000_0000 * 512
            ==> config.discard_sector_alignment * 512 <= block < (config.discard_sector_alignment
            + 1) * 512,
        block * pow2(config.physical_block_exp as nat) >= disk.topology.physical_block_size,
        config.physical_block_exp > 0 ==> block * pow2((config.physical_block_exp - 1) as nat)
            < disk.topology.physical_block_size,
{
    assert(block == logical_block(disk.topology));
    let minimum = disk.topology.minimum_io_size;
    let optimal = disk.topology.optimal_io_size;
    vstd::arithmetic::div_mod::lemma_fundamental_div_mod(minimum as int, block as int);
    vstd::arithmetic::div_mod::lemma_fundamental_div_mod(optimal as int, block as int);
    let (a, b) = (minimum as int / block as int, optimal as int / block as int);
    assert(a * block <= minimum < (a + 1) * block) by (nonlinear_arith)
        requires
            minimum == block * a + minimum as int % block as int,
            0 <= minimum as int % (block as int) < block,
    ;
    assert(b * block <= optimal < (b + 1) * block) by (nonlinear_arith)
        requires
            optimal == block * b + optimal as int % block as int,
            0 <= optimal as int % (block as int) < block,
    ;
    if minimum < 0x1_0000 * block {
        assert(0 <= a < 0x1_0000) by (nonlinear_arith)
            requires
                a * block <= minimum < 0x1_0000 * block,
                minimum < (a + 1) * block,
                minimum >= 0,
                block > 0,
        ;
    }
    if optimal < 0x1_0000_0000 * block {
        assert(0 <= b < 0x1_0000_0000) by (nonlinear_arith)
            requires
                b * block <= optimal < 0x1_0000_0000 * block,
                optimal < (b + 1) * block,
                optimal >= 0,
                block > 0,
        ;
    }
}

/// What the configuration of a new device says agrees with the features that it offers: there is
/// a limit for discards exactly if they are offered, one for zeroing exactly if that is offered,
/// zeroing may deallocate exactly if discards are offered, and a number of queues is shown exactly
/// if there is more than one. A request has as many segments as the queue has descriptors, without
/// the one for the header and the one for the status.
pub proof fn law_new_config_agrees_with_features(
    setup: BlockSetup,
    disk: DiskProperties,
    disk_size: u64,
    config: VirtioBlockConfig,
    features: u64,
)
    requires
        is_new_config(setup, disk, disk_size, config),
        forall|b: u64|
            b < 64 ==> (#[trigger] bit64(features, b) <==> offers(
                setup,
                disk.supports_sparse_operations,
                b,
            )),
        setup.num_queues <= u16::MAX,
        setup.queue_size >= 2,
    ensures
        bit64(features, VIRTIO_BLK_F_DISCARD as u64) <==> config.max_discard_sectors > 0,
        bit64(features, VIRTIO_BLK_F_DISCARD as u64) <==> config.write_zeroes_may_unmap == 1,
        bit64(features, VIRTIO_BLK_F_WRITE_ZEROES as u64) <==> config.max_write_zeroes_sectors > 0,
        config.max_discard_seg > 0 ==> bit64(features, VIRTIO_BLK_F_DISCARD as u64),
        config.max_write_zeroes_seg > 0 ==> bit64(features, VIRTIO_BLK_F_WRITE_ZEROES as u64),
        config.discard_sector_alignment > 0 ==> bit64(features, VIRTIO_BLK_F_DISCARD as u64),
        bit64(features, VIRTIO_BLK_F_DISCARD as u64) ==> config.max_discard_seg
            == disk.max_discard_write_zeroes_seg,
        bit64(features, VIRTIO_BLK_F_WRITE_ZEROES as u64) ==> config.max_write_zeroes_seg
            == disk.max_discard_write_zeroes_seg,
        bit64(features, VIRTIO_BLK_F_MQ as u64) <==> config.num_queues > 1,
        bit64(features, VIRTIO_BLK_F_MQ as u64) ==> config.num_queues == setup.num_queues,
        config.seg_max + 2 == setup.queue_size,
        config.writeback == 1,
{
}

/// A new device offers flushing, a cache mode that can be changed, its topology, and the ring
/// features that it uses, in any case. Zeroing is offered if the disk supports it, discarding only
/// if the user wants it as well, and being read-only, address translation and several queues if
/// and only if the user wants them.
pub proof fn law_offers_what_is_wanted(setup: BlockSetup, supports_sparse_operations: bool)
    ensures
        offers(setup, supports_sparse_operations, VIRTIO_F_VERSION_1 as u64),
        offers(setup, supports_sparse_operations, VIRTIO_BLK_F_FLUSH as u64),
        offers(setup, supports_sparse_operations, VIRTIO_BLK_F_CONFIG_WCE as u64),
        offers(setup, supports_sparse_operations, VIRTIO_BLK_F_BLK_SIZE as u64),
        offers(setup, supports_sparse_operations, VIRTIO_BLK_F_TOPOLOGY as u64),
        offers(setup, supports_sparse_operations, VIRTIO_BLK_F_SEG_MAX as u64),
        offers(setup, supports_sparse_operations, VIRTIO_RING_F_EVENT_IDX as u64),
        offers(setup, supports_sparse_operations, VIRTIO_RING_F_INDIRECT_DESC as u64),
        offers(setup, supports_sparse_operations, VIRTIO_BLK_F_RO as u64) == setup.read_only,
        offers(setup, supports_sparse_operations, VIRTIO_F_ACCESS_PLATFORM as u64)
            == setup.access_platform_enabled,
        offers(setup, supports_sparse_operations, VIRTIO_BLK_F_MQ as u64) == (setup.num_queues > 1),
        offers(setup, supports_sparse_operations, VIRTIO_BLK_F_WRITE_ZEROES as u64)
            == supports_sparse_operations,
        offers(setup, supports_sparse_operations, VIRTIO_BLK_F_DISCARD as u64) == (
        supports_sparse_operations && setup.sparse),
        !offers(setup, supports_sparse_operations, 0),
        !offers(setup, supports_sparse_operations, 1),
        !offers(setup, supports_sparse_operations, 3),
        !offers(setup, supports_sparse_operations, 4),
        !offers(setup, supports_sparse_operations, 7),
        !offers(setup, supports_sparse_operations, 8),
        forall|flag: u64|
            15 <= flag < 28 || flag == 30 || flag == 31 || 34 <= flag ==> !#[trigger] offers(
                setup,
                supports_sparse_operations,
                flag,
            ),
{
}

/// The configuration space has its fields where the virtio standard has them.
pub proof fn law_config_layout(config: VirtioBlockConfig)
    ensures
        ({
            let bytes = config.bytes();
            &&& bytes.len() == 60
            &&& bytes.subrange(0, 8) == crate::wire::le_bytes(config.capacity as nat, 8)
            &&& bytes.subrange(8, 12) == crate::wire::le_bytes(config.size_max as nat, 4)
            &&& bytes.subrange(12, 16) == crate::wire::le_bytes(config.seg_max as nat, 4)
            &&& bytes.subrange(16, 18) == crate::wire::le_bytes(config.cylinders as nat, 2)
            &&& bytes[18] == config.heads
            &&& bytes[19] == config.sectors
            &&& bytes.subrange(20, 24) == crate::wire::le_bytes(config.blk_size as nat, 4)
            &&& bytes[24] == config.physical_block_exp
            &&& bytes[25] == config.alignment_offset
            &&& bytes.subrange(26, 28) == crate::wire::le_bytes(config.min_io_size as nat, 2)
            &&& bytes.subrange(28, 32) == crate::wire::le_bytes(config.opt_io_size as nat, 4)
            &&& bytes[32] == config.writeback
            &&& bytes[33] == config.unused
            &&& bytes.subrange(34, 36) == crate::wire::le_bytes(config.num_queues as nat, 2)
            &&& bytes.subrange(36, 40) == crate::wire::le_bytes(
                config.max_discard_sectors as nat,
                4,
            )
            &&& bytes.subrange(40, 44) == crate::wire::le_bytes(config.max_discard_seg as nat, 4)
            &&& bytes.subrange(44, 48) == crate::wire::le_bytes(
                config.discard_sector_alignment as nat,
                4,
            )
            &&& bytes.subrange(48, 52) == crate::wire::le_bytes(
                config.max_write_zeroes_sectors as nat,
                4,
            )
            &&& bytes.subrange(52, 56) == crate::wire::le_bytes(
                config.max_write_zeroes_seg as nat,
                4,
            )
            &&& bytes[56] == config.write_zeroes_may_unmap
        }),
{
    assert forall|n: nat, count: nat| #[trigger]
        crate::wire::le_bytes(n, count).len() == count by {
        crate::wire::lemma_le_bytes_len(n, count);
    }
    assert forall|n: u8| #[trigger] crate::wire::le_bytes(n as nat, 1)[0] == n by {
        reveal_with_fuel(crate::wire::le_bytes, 2);
    }
    let a = config.bytes_before_writeback();
    let b = config.bytes_from_writeback();
    assert(a.len() == 32 && b.len() == 28);
    let bytes = config.bytes();
    assert(bytes.subrange(0, 8) =~= crate::wire::le_bytes(config.capacity as nat, 8));
    assert(bytes.subrange(8, 12) =~= crate::wire::le_bytes(config.size_max as nat, 4));
    assert(bytes.subrange(12, 16) =~= crate::wire::le_bytes(config.seg_max as nat, 4));
    assert(bytes.subrange(16, 18) =~= crate::wire::le_bytes(config.cylinders as nat, 2));
    assert(bytes[18] == crate::wire::le_bytes(config.heads as nat, 1)[0]);
    assert(bytes[19] == crate::wire::le_bytes(config.sectors as nat, 1)[0]);
    assert(bytes.subrange(20, 24) =~= crate::wire::le_bytes(config.blk_size as nat, 4));
    assert(bytes[24] == crate::wire::le_bytes(config.physical_block_exp as nat, 1)[0]);
    assert(bytes[25] == crate::wire::le_bytes(config.alignment_offset as nat, 1)[0]);
    assert(bytes.subrange(26, 28) =~= crate::wire::le_bytes(config.min_io_size as nat, 2));
    assert(bytes.subrange(28, 32) =~= crate::wire::le_bytes(config.opt_io_size as nat, 4));
    assert(bytes[32] == crate::wire::le_bytes(config.writeback as nat, 1)[0]);
    assert(bytes[33] == crate::wire::le_bytes(config.unused as nat, 1)[0]);
    assert(bytes.subrange(34, 36) =~= crate::wire::le_bytes(config.num_queues as nat, 2));
    assert(bytes.subrange(36, 40) =~= crate::wire::le_bytes(config.max_discard_sectors as nat, 4));
    assert(bytes.subrange(40, 44) =~= crate::wire::le_bytes(config.max_discard_seg as nat, 4));
    assert(bytes.subrange(44, 48) =~= crate::wire::le_bytes(
        config.discard_sector_alignment as nat,
        4,
    ));
    assert(bytes.subrange(48, 52) =~= crate::wire::le_bytes(
        config.max_write_zeroes_sectors as nat,
        4,
    ));
    assert(bytes.subrange(52, 56) =~= crate::wire::le_bytes(config.max_write_zeroes_seg as nat, 4));
    assert(bytes[56] == crate::wire::le_bytes(config.write_zeroes_may_unmap as nat, 1)[0]);
}

/// Without flushing there is no write cache. With it there is one, unless the guest can change the
/// cache mode and does not want one.
pub proof fn law_cache_follows_features(block: Block, desired: bool)
    ensures
        !bit64(block.acked_features, VIRTIO_BLK_F_FLUSH as u64) ==> !block.writeback_mode(desired),
        bit64(block.acked_features, VIRTIO_BLK_F_FLUSH as u64) && !bit64(
            block.acked_features,
            VIRTIO_BLK_F_CONFIG_WCE as u64,
        ) ==> block.writeback_mode(desired),
        bit64(block.acked_features, VIRTIO_BLK_F_FLUSH as u64) && bit64(
            block.acked_features,
            VIRTIO_BLK_F_CONFIG_WCE as u64,
        ) ==> block.writeback_mode(desired) == desired,
{
}

/// The cache mode that the workers follow is the one that the guest reads, and setting it changes
/// nothing else.
pub proof fn law_cache_mode_changes_nothing_else(block: Block, enabled: bool)
    ensures
        ({
            let after = block.with_writeback(enabled);
            &&& after.writeback == enabled
            &&& after.config.writeback == 1 <==> enabled
            &&& after.config.writeback == 0 <==> !enabled
            &&& after == Block {
                writeback: after.writeback,
                config: VirtioBlockConfig { writeback: after.config.writeback, ..block.config },
                ..block
            }
        }),
{
}

/// A lock on a range of bytes covers every byte of the disk, whichever of its sizes is larger, and
/// nothing else. Without a known size the whole file is locked.
pub proof fn law_byte_range_covers_disk(
    block: Block,
    logical: Result<u64, ()>,
    physical: Result<u64, ()>,
    byte: int,
)
    requires
        block.lock_granularity_choice == LockGranularityChoice::ByteRange,
        0 <= byte,
    ensures
        (logical matches Ok(size) && byte < size) || (physical matches Ok(size) && byte < size)
            ==> is_locked_byte(block.granularity(logical, physical), byte),
        (logical matches Ok(size) && size > 0) || (physical matches Ok(size) && size > 0) ==> (
        is_locked_byte(block.granularity(logical, physical), byte) ==> (logical matches Ok(size)
            && byte < size) || (physical matches Ok(size) && byte < size)),
        logical is Err && physical is Err ==> is_locked_byte(
            block.granularity(logical, physical),
            byte,
        ),
{
}

/// Two devices can have the same image locked at the same time exactly if both are read-only.
/// With marker bytes the locks that one holds are found by the queries of the other; otherwise
/// the lock of one excludes that of the other.
pub proof fn law_image_is_shared_by_readers_only(
    one: Block,
    other: Block,
    logical: Result<u64, ()>,
    physical: Result<u64, ()>,
)
    requires
        one.lock_granularity_choice == other.lock_granularity_choice,
        logical matches Ok(size) ==> size <= i64::MAX,
        physical matches Ok(size) ==> size <= i64::MAX,
    ensures
        ({
            let granularity = one.granularity(logical, physical);
            let held = acquire_plan(granularity, one.image_lock());
            let queried = check_plan(other.granularity(logical, physical), other.image_lock());
            let set = acquire_plan(other.granularity(logical, physical), other.image_lock());
            let readers = one.is_read_only() && other.is_read_only();
            &&& granularity is QemuCompatible ==> ((exists|i: int, j: int|
                0 <= i < held.len() && 0 <= j < queried.len() && #[trigger] excludes(
                    held[i],
                    queried[j],
                )) <==> !readers)
            &&& !(granularity is QemuCompatible) ==> ((exists|i: int, j: int|
                0 <= i < held.len() && 0 <= j < set.len() && #[trigger] excludes(held[i], set[j]))
                <==> !readers)
        }),
{
    let granularity = one.granularity(logical, physical);
    if granularity is QemuCompatible {
        law_marker_write_lock_is_exclusive(one.image_lock(), other.image_lock());
        assert(granularity == LockGranularity::QemuCompatible);
        assert(other.granularity(logical, physical) == granularity);
        let held = acquire_plan(granularity, one.image_lock());
        let requested = check_plan(granularity, other.image_lock());
        assert((exists|i: int, j: int|
            0 <= i < held.len() && 0 <= j < requested.len() && #[trigger] excludes(
                held[i],
                requested[j],
            )) <==> !(one.is_read_only() && other.is_read_only()));
    } else {
        assert(other.granularity(logical, physical) == granularity);
        law_file_write_lock_is_exclusive(
            granularity,
            one.image_lock(),
            granularity,
            other.image_lock(),
        );
        law_file_lock_is_as_requested(granularity, one.image_lock(), LockType::Unlock);
        law_file_lock_is_as_requested(granularity, other.image_lock(), LockType::Unlock);
        assert(is_locked_byte(granularity, 0));
        let held = acquire_plan(granularity, one.image_lock());
        let requested = acquire_plan(granularity, other.image_lock());
        assert(excludes(held[0], requested[0]) <==> !(one.is_read_only()
            && other.is_read_only()));
        assert((exists|i: int, j: int|
            0 <= i < held.len() && 0 <= j < requested.len() && #[trigger] excludes(
                held[i],
                requested[j],
            )) <==> excludes(held[0], requested[0]));
    }
}

/// The size of a device changes in one step of a resize only, to the size that was asked for, and
/// the workers are paused then. A step that fails ends the resize with its error and changes
/// nothing.
pub proof fn law_size_changes_while_paused(
    block: Block,
    phase: ResizePhase,
    answer: Result<(), BlockError>,
)
    requires
        !(phase is Finished),
    ensures
        ({
            let (after, next) = resize_next(block, phase, answer);
            &&& answer matches Err(reason) ==> after == block && next == ResizePhase::Finished(
                Err(
                    match phase {
                        ResizePhase::ResizingDisk(_) => Error::DiskResize(reason),
                        ResizePhase::Pausing(_) => Error::PauseVcpus(reason),
                        ResizePhase::Resuming => Error::ResumeVcpus(reason),
                        _ => Error::ConfigChange(reason),
                    },
                ),
            )
            &&& after.disk_nsectors != block.disk_nsectors || after.config != block.config ==> (phase
                matches ResizePhase::Pausing(nsectors) && after.disk_nsectors == nsectors
                && after.config.capacity == nsectors) && after.paused && next is Resuming
            &&& next == ResizePhase::Finished(Ok(())) ==> phase is Signalling
        }),
{
}

/// A resize whose steps all succeed gives the device the size that was asked for, and its workers
/// run again.
pub proof fn law_resize_succeeds(block: Block, nsectors: u64)
    ensures
        ({
            let ok: Result<(), BlockError> = Ok(());
            let (b1, p1) = resize_next(block, ResizePhase::ResizingDisk(nsectors), ok);
            let (b2, p2) = resize_next(b1, p1, ok);
            let (b3, p3) = resize_next(b2, p2, ok);
            let (b4, p4) = resize_next(b3, p3, ok);
            &&& p4 == ResizePhase::Finished(Ok(()))
            &&& b4 == Block {
                disk_nsectors: nsectors,
                config: VirtioBlockConfig { capacity: nsectors, ..block.config },
                paused: false,
                ..block
            }
        }),
{
}

/// The workers of a device are parked after its requests have been drained, and the device counts
/// as paused only once they are.
pub proof fn law_pause_parks_after_draining(block: Block, phase: PausePhase, ok: bool)
    requires
        !(phase is Finished),
    ensures
        ({
            let (after, next) = pause_next(block, phase, ok);
            &&& next is Parking <==> phase is Draining && ok
            &&& next is Parking ==> after == block
            &&& next == PausePhase::Finished(true) <==> phase is Parking && ok
            &&& !ok ==> next == PausePhase::Finished(false) && after.paused == block.paused
            &&& after.paused != block.paused ==> phase is Parking && ok && after.paused
            &&& after == Block {
                draining_active_requests: after.draining_active_requests,
                paused: after.paused,
                ..block
            }
        }),
{
}

/// A restored device has the state that its snapshot kept.
pub proof fn law_snapshot_restores(before: Block, state: BlockState, after: Block)
    requires
        state.is_state_of(before),
        after.restored_from(state),
    ensures
        after.disk_nsectors == before.disk_nsectors,
        after.avail_features == before.avail_features,
        after.acked_features == before.acked_features,
        after.config == before.config,
        after.is_read_only() == before.is_read_only(),
        forall|desired: bool| after.writeback_mode(desired) == before.writeback_mode(desired),
{
}

/// The capacity that the guest sees is the size of the disk, before, during and after a
/// resize.
pub proof fn law_resize_keeps_capacity_in_step(
    block: Block,
    phase: ResizePhase,
    answer: Result<(), BlockError>,
)
    requires
        block.config.capacity == block.disk_nsectors,
    ensures
        ({
            let next = resize_next(block, phase, answer).0;
            next.config.capacity == next.disk_nsectors
        }),
{
}

/// A cache mode that was written is kept by the next activation, as long as the
/// negotiated features do not change.
pub proof fn law_cache_mode_is_stable(block: Block, desired: bool)
    ensures
        ({
            let written = block.with_writeback(block.writeback_mode(desired));
            written.writeback_mode(written.config.writeback == 1) == written.writeback
        }),
{
}

/// A device that drains its requests stops draining when the pause ends, however it ends.
pub proof fn law_pause_stops_draining(block: Block, phase: PausePhase, ok: bool)
    requires
        !(phase is Finished),
    ensures
        pause_next(block, phase, ok).1 is Finished
            ==> !pause_next(block, phase, ok).0.draining_active_requests,
        pause_next(block, phase, ok).1 == PausePhase::Finished(true)
            ==> pause_next(block, phase, ok).0.paused,
{
}

} // verus!
