//! Constants of the virtio devices: feature bits, status values and control commands.

use vstd::prelude::*;

verus! {

/// Feature bit: the largest number of segments of a request is in the configuration.
pub const VIRTIO_BLK_F_SEG_MAX: u32 = 2;

/// Feature bit: the disk is read-only.
pub const VIRTIO_BLK_F_RO: u32 = 5;

/// Feature bit: the block size is in the configuration.
pub const VIRTIO_BLK_F_BLK_SIZE: u32 = 6;

/// Feature bit: the device supports flush commands.
pub const VIRTIO_BLK_F_FLUSH: u32 = 9;

/// Feature bit: the topology is in the configuration.
pub const VIRTIO_BLK_F_TOPOLOGY: u32 = 10;

/// Feature bit: the cache mode can be changed through the configuration.
pub const VIRTIO_BLK_F_CONFIG_WCE: u32 = 11;

/// Feature bit: the device has more than one queue.
pub const VIRTIO_BLK_F_MQ: u32 = 12;

/// Feature bit: the device supports discard commands.
pub const VIRTIO_BLK_F_DISCARD: u32 = 13;

/// Feature bit: the device supports write zeroes commands.
pub const VIRTIO_BLK_F_WRITE_ZEROES: u32 = 14;

/// Feature bit: the ring supports indirect descriptors.
pub const VIRTIO_RING_F_INDIRECT_DESC: u32 = 28;

/// Feature bit: the ring supports event indices.
pub const VIRTIO_RING_F_EVENT_IDX: u32 = 29;

/// Feature bit: the device complies with version 1 of the standard.
pub const VIRTIO_F_VERSION_1: u32 = 32;

/// Feature bit: the device sits behind a translation of addresses.
pub const VIRTIO_F_ACCESS_PLATFORM: u32 = 33;

/// Status of a block request that succeeded.
pub const VIRTIO_BLK_S_OK: u32 = 0;

/// Status of a block request that failed.
pub const VIRTIO_BLK_S_IOERR: u32 = 1;

/// Status of a control command that succeeded.
pub const VIRTIO_NET_OK: u32 = 0;

/// Status of a control command that failed.
pub const VIRTIO_NET_ERR: u32 = 1;

/// Class of the commands that set up which packets are received.
pub const VIRTIO_NET_CTRL_RX: u32 = 0;

/// Command: receive all packets.
pub const VIRTIO_NET_CTRL_RX_PROMISC: u32 = 0;

/// Command: receive all multicast packets.
pub const VIRTIO_NET_CTRL_RX_ALLMULTI: u32 = 1;

/// Command: receive all unicast packets.
pub const VIRTIO_NET_CTRL_RX_ALLUNI: u32 = 2;

/// Command: receive no multicast packets.
pub const VIRTIO_NET_CTRL_RX_NOMULTI: u32 = 3;

/// Command: receive no unicast packets.
pub const VIRTIO_NET_CTRL_RX_NOUNI: u32 = 4;

/// Command: receive no broadcast packets.
pub const VIRTIO_NET_CTRL_RX_NOBCAST: u32 = 5;

/// Class of the commands that set up virtual networks.
pub const VIRTIO_NET_CTRL_VLAN: u32 = 2;

/// Command: add a virtual network.
pub const VIRTIO_NET_CTRL_VLAN_ADD: u32 = 0;

/// Command: remove a virtual network.
pub const VIRTIO_NET_CTRL_VLAN_DEL: u32 = 1;

/// Class of the commands about announcements.
pub const VIRTIO_NET_CTRL_ANNOUNCE: u32 = 3;

/// Command: acknowledge the request for an announcement.
pub const VIRTIO_NET_CTRL_ANNOUNCE_ACK: u32 = 0;

/// Class of the commands that set up queues.
pub const VIRTIO_NET_CTRL_MQ: u32 = 4;

/// Command: set the number of queue pairs.
pub const VIRTIO_NET_CTRL_MQ_VQ_PAIRS_SET: u32 = 0;

/// Smallest number of queue pairs.
pub const VIRTIO_NET_CTRL_MQ_VQ_PAIRS_MIN: u32 = 1;

/// Largest number of queue pairs.
pub const VIRTIO_NET_CTRL_MQ_VQ_PAIRS_MAX: u32 = 0x8000;

/// Class of the commands that set up offloads.
pub const VIRTIO_NET_CTRL_GUEST_OFFLOADS: u32 = 5;

/// Command: set the offloads.
pub const VIRTIO_NET_CTRL_GUEST_OFFLOADS_SET: u32 = 0;

} // verus!
