//! The control queue of a network device.
//!
//! Processing the queue is a sequence of phases. Each phase needs one action (an access to the
//! virtqueue, to guest memory, to the translation of addresses or to a tap device), and the
//! answer to that action decides the next phase. The virtqueue and guest memory are accessed
//! here; a translation of addresses and a tap device are left to the caller.

use virtio_queue::Queue;
use vm_memory::bitmap::AtomicBitmap;
use vm_memory::GuestMemoryMmap;
use vstd::prelude::*;

use crate::guest_memory::{guest_regions, in_regions, read_slice, write_status};
use crate::virtio::{VIRTIO_NET_CTRL_ANNOUNCE, VIRTIO_NET_CTRL_ANNOUNCE_ACK,
    VIRTIO_NET_CTRL_GUEST_OFFLOADS, VIRTIO_NET_CTRL_GUEST_OFFLOADS_SET, VIRTIO_NET_CTRL_MQ,
    VIRTIO_NET_CTRL_MQ_VQ_PAIRS_MAX, VIRTIO_NET_CTRL_MQ_VQ_PAIRS_MIN,
    VIRTIO_NET_CTRL_MQ_VQ_PAIRS_SET, VIRTIO_NET_CTRL_RX, VIRTIO_NET_CTRL_RX_ALLMULTI,
    VIRTIO_NET_CTRL_RX_ALLUNI, VIRTIO_NET_CTRL_RX_NOBCAST, VIRTIO_NET_CTRL_RX_NOMULTI,
    VIRTIO_NET_CTRL_RX_NOUNI, VIRTIO_NET_CTRL_RX_PROMISC, VIRTIO_NET_CTRL_VLAN,
    VIRTIO_NET_CTRL_VLAN_ADD, VIRTIO_NET_CTRL_VLAN_DEL, VIRTIO_NET_ERR, VIRTIO_NET_OK};
use crate::virtqueue::{add_used, advanced, enable_notification, has_chain, next_descriptor,
    next_position, pop_descriptor_chain, queue_next_used, virtqueue, Chain, VirtqueueView};
use crate::wire::{get_le, le_value};

verus! {

/// Why the processing of the control queue stops.
#[derive(Clone, Copy, Debug, PartialEq, Eq, Structural)]
pub enum Error {
    /// Read queue failed.
    GuestMemory,
    /// No control header descriptor.
    NoControlHeaderDescriptor,
    /// Missing the data descriptor in the chain.
    NoDataDescriptor,
    /// No status descriptor.
    NoStatusDescriptor,
    /// Failed adding used index.
    QueueAddUsed,
    /// Failed creating an iterator over the queue.
    QueueIterator,
    /// Failed enabling notification for the queue.
    QueueEnableNotification,
}

/// The header of a control command.
#[derive(Debug, Clone, Copy, PartialEq, Eq, Structural)]
pub struct ControlHeader {
    pub class: u8,
    pub cmd: u8,
}

impl Default for ControlHeader {
    fn default() -> (header: Self)
        ensures
            header == (ControlHeader { class: 0, cmd: 0 }),
    {
        ControlHeader { class: 0, cmd: 0 }
    }
}

/// The header that two bytes stand for: the class comes first.
pub fn header_from_bytes(bytes: &[u8]) -> (header: ControlHeader)
    requires
        bytes@.len() == 2,
    ensures
        header == header_of(bytes@),
{
    ControlHeader { class: bytes[0], cmd: bytes[1] }
}

/// The header that two bytes stand for: the class comes first.
pub open spec fn header_of(bytes: Seq<u8>) -> ControlHeader {
    ControlHeader { class: bytes[0], cmd: bytes[1] }
}

/// A command that is not supported, but answered as if it had been carried out.
pub open spec fn tolerated(header: ControlHeader) -> bool {
    ||| header.class == VIRTIO_NET_CTRL_RX && (header.cmd == VIRTIO_NET_CTRL_RX_PROMISC
        || header.cmd == VIRTIO_NET_CTRL_RX_ALLMULTI || header.cmd == VIRTIO_NET_CTRL_RX_ALLUNI
        || header.cmd == VIRTIO_NET_CTRL_RX_NOMULTI || header.cmd == VIRTIO_NET_CTRL_RX_NOUNI
        || header.cmd == VIRTIO_NET_CTRL_RX_NOBCAST)
    ||| header.class == VIRTIO_NET_CTRL_VLAN && (header.cmd == VIRTIO_NET_CTRL_VLAN_ADD
        || header.cmd == VIRTIO_NET_CTRL_VLAN_DEL)
}

/// Whether a command is not supported, but answered as if it had been carried out.
pub fn is_tolerated_ctrl_command(ctrl_hdr: ControlHeader) -> (result: bool)
    ensures
        result == tolerated(ctrl_hdr),
{
    let class: u32 = ctrl_hdr.class as u32;
    let cmd: u32 = ctrl_hdr.cmd as u32;
    if class == VIRTIO_NET_CTRL_RX {
        cmd == VIRTIO_NET_CTRL_RX_PROMISC || cmd == VIRTIO_NET_CTRL_RX_ALLMULTI || cmd
            == VIRTIO_NET_CTRL_RX_ALLUNI || cmd == VIRTIO_NET_CTRL_RX_NOMULTI || cmd
            == VIRTIO_NET_CTRL_RX_NOUNI || cmd == VIRTIO_NET_CTRL_RX_NOBCAST
    } else if class == VIRTIO_NET_CTRL_VLAN {
        cmd == VIRTIO_NET_CTRL_VLAN_ADD || cmd == VIRTIO_NET_CTRL_VLAN_DEL
    } else {
        false
    }
}

/// A descriptor: a guest address and a length.
#[derive(Clone, Copy, Debug, PartialEq, Eq, Structural)]
pub struct CtrlDescriptor {
    pub addr: u64,
    pub len: u32,
}

/// How far the processing of the queue has come. All phases but the first and the last two
/// start with the head index of the chain that is being processed.
#[derive(Clone, Copy, Debug, PartialEq, Eq)]
pub enum CtrlPhase {
    /// Taking a descriptor chain from the queue.
    Popping,
    /// Looking for the header descriptor.
    NextHeader(u16),
    /// Translating the address of the header.
    TranslatingHeader(u16, CtrlDescriptor),
    /// Reading the header from a guest address.
    ReadingHeader(u16, u64),
    /// Looking for the data descriptor.
    NextData(u16, ControlHeader),
    /// Translating the address of the data.
    TranslatingData(u16, ControlHeader, CtrlDescriptor),
    /// Looking for the status descriptor, given the guest address of the data.
    NextStatus(u16, ControlHeader, u64),
    /// Reading the number of queue pairs.
    ReadingPairs(u16, ControlHeader, u64, CtrlDescriptor),
    /// Reading the features to offload.
    ReadingOffloads(u16, ControlHeader, u64, CtrlDescriptor),
    /// Setting the offload features of the tap device with this index, given whether all
    /// went well so far.
    SettingOffload(u16, u64, usize, bool, CtrlDescriptor),
    /// Translating the address of the status.
    TranslatingStatus(u16, bool, CtrlDescriptor),
    /// Writing the status to a guest address.
    WritingStatus(u16, bool, u64),
    /// Adding the chain to the used ring.
    AddingUsed(u16),
    /// Enabling notifications.
    EnablingNotification,
    /// The processing has ended.
    Finished(Result<(), Error>),
}

/// What a phase needs done.
#[derive(Clone, Copy, Debug, PartialEq, Eq)]
pub enum CtrlAction {
    /// Take the next descriptor chain from the queue.
    PopChain,
    /// Take the next descriptor from the chain.
    NextDescriptor,
    /// Translate a guest address, given the length of what is there.
    Translate(u64, u32),
    /// Read the two bytes of a header from a guest address.
    ReadHeader(u64),
    /// Read the two bytes of a number from a guest address.
    ReadU16(u64),
    /// Read the eight bytes of a number from a guest address.
    ReadU64(u64),
    /// Set the offloads of the tap device with this index by the given features.
    SetOffload(usize, u64),
    /// Write a status byte to a guest address.
    WriteStatus(u64, u8),
    /// Add a head index to the used ring, with a length.
    AddUsed(u16, u32),
    /// Enable the notifications of the queue.
    EnableNotification,
    /// The processing has ended with this result.
    Finish(Result<(), Error>),
}

/// The answer to the action of a phase.
#[derive(Debug)]
pub enum CtrlEvent {
    /// The head index of the chain, if there was one.
    Chain(Option<u16>),
    /// The descriptor, if there was one.
    Descriptor(Option<CtrlDescriptor>),
    /// The translated address, or the failure to get it.
    Value(Result<u64, ()>),
    /// The bytes in guest memory, or the failure to read them.
    Bytes(Result<Vec<u8>, ()>),
    /// Whether the action succeeded.
    Done(bool),
    /// Whether to look for more chains, or the failure to find out.
    Enabled(Result<bool, ()>),
}

/// `event` is an answer to what `phase` asks for.
pub open spec fn ctrl_answers(phase: CtrlPhase, event: CtrlEvent) -> bool {
    match phase {
        CtrlPhase::Popping => event is Chain,
        CtrlPhase::NextHeader(_)
        | CtrlPhase::NextData(_, _)
        | CtrlPhase::NextStatus(_, _, _) => event is Descriptor,
        CtrlPhase::TranslatingHeader(_, _)
        | CtrlPhase::TranslatingData(_, _, _)
        | CtrlPhase::TranslatingStatus(_, _, _) => event is Value,
        CtrlPhase::ReadingHeader(_, _) | CtrlPhase::ReadingPairs(_, _, _, _) => event matches
            CtrlEvent::Bytes(read) && (read matches Ok(bytes) ==> bytes@.len() == 2),
        CtrlPhase::ReadingOffloads(_, _, _, _) => event matches CtrlEvent::Bytes(read) && (
        read matches Ok(bytes) ==> bytes@.len() == 8),
        CtrlPhase::SettingOffload(_, _, _, _, _)
        | CtrlPhase::WritingStatus(_, _, _)
        | CtrlPhase::AddingUsed(_) => event is Done,
        CtrlPhase::EnablingNotification => event is Enabled,
        CtrlPhase::Finished(_) => false,
    }
}

/// The processing fails.
pub open spec fn ctrl_fail(error: Error) -> CtrlPhase {
    CtrlPhase::Finished(Err(error))
}

/// A request for this number of queue pairs is accepted.
pub open spec fn pairs_accepted(header: ControlHeader, pairs: nat) -> bool {
    header.cmd == VIRTIO_NET_CTRL_MQ_VQ_PAIRS_SET && VIRTIO_NET_CTRL_MQ_VQ_PAIRS_MIN <= pairs
        <= VIRTIO_NET_CTRL_MQ_VQ_PAIRS_MAX
}

/// The phase once a command has been read: all but announcements come with data.
pub open spec fn after_header(head: u16, header: ControlHeader) -> CtrlPhase {
    if header.class == VIRTIO_NET_CTRL_ANNOUNCE {
        CtrlPhase::NextStatus(head, header, 0)
    } else {
        CtrlPhase::NextData(head, header)
    }
}

/// The next tap device to set up, if there is one left.
pub open spec fn offload_from(
    taps: usize,
    head: u16,
    features: u64,
    i: int,
    ok: bool,
    status: CtrlDescriptor,
) -> CtrlPhase {
    if i < taps {
        CtrlPhase::SettingOffload(head, features, i as usize, ok, status)
    } else {
        CtrlPhase::TranslatingStatus(head, ok, status)
    }
}

/// The control queue of a network device.
#[derive(Clone, Copy, Debug, PartialEq, Eq, Structural)]
pub struct CtrlQueue {
    /// The number of tap devices.
    pub taps: usize,
    /// Tracks whether the guest still needs to acknowledge a post-migration announce
    /// request through the control queue.
    pub announce_pending: bool,
}

/// What follows a phase on an answer.
pub open spec fn ctrl_next(queue: CtrlQueue, phase: CtrlPhase, event: CtrlEvent) -> (
    CtrlQueue,
    CtrlPhase,
) {
    match (phase, event) {
        (CtrlPhase::Popping, CtrlEvent::Chain(chain)) => match chain {
            Some(head) => (queue, CtrlPhase::NextHeader(head)),
            None => (queue, CtrlPhase::Finished(Ok(()))),
        },
        (CtrlPhase::NextHeader(head), CtrlEvent::Descriptor(descriptor)) => match descriptor {
            Some(descriptor) => (queue, CtrlPhase::TranslatingHeader(head, descriptor)),
            None => (queue, ctrl_fail(Error::NoControlHeaderDescriptor)),
        },
        (CtrlPhase::TranslatingHeader(head, _), CtrlEvent::Value(value)) => match value {
            Ok(addr) => (queue, CtrlPhase::ReadingHeader(head, addr)),
            Err(_) => (queue, ctrl_fail(Error::GuestMemory)),
        },
        (CtrlPhase::ReadingHeader(head, _), CtrlEvent::Bytes(read)) => match read {
            Ok(bytes) => (queue, after_header(head, header_of(bytes@))),
            Err(_) => (queue, ctrl_fail(Error::GuestMemory)),
        },
        (CtrlPhase::NextData(head, header), CtrlEvent::Descriptor(descriptor)) => {
            match descriptor {
                None => (queue, ctrl_fail(Error::NoDataDescriptor)),
                Some(descriptor) => if header.class == VIRTIO_NET_CTRL_MQ || header.class
                    == VIRTIO_NET_CTRL_GUEST_OFFLOADS {
                    (queue, CtrlPhase::TranslatingData(head, header, descriptor))
                } else {
                    (queue, CtrlPhase::NextStatus(head, header, 0))
                },
            }
        },
        (CtrlPhase::TranslatingData(head, header, _), CtrlEvent::Value(value)) => match value {
            Ok(addr) => (queue, CtrlPhase::NextStatus(head, header, addr)),
            Err(_) => (queue, ctrl_fail(Error::GuestMemory)),
        },
        (CtrlPhase::NextStatus(head, header, data), CtrlEvent::Descriptor(descriptor)) => {
            match descriptor {
                None => (queue, ctrl_fail(Error::NoStatusDescriptor)),
                Some(status) => if header.class == VIRTIO_NET_CTRL_MQ {
                    (queue, CtrlPhase::ReadingPairs(head, header, data, status))
                } else if header.class == VIRTIO_NET_CTRL_GUEST_OFFLOADS {
                    (queue, CtrlPhase::ReadingOffloads(head, header, data, status))
                } else if header.class == VIRTIO_NET_CTRL_ANNOUNCE {
                    if header.cmd == VIRTIO_NET_CTRL_ANNOUNCE_ACK {
                        (
                            CtrlQueue { announce_pending: false, ..queue },
                            CtrlPhase::TranslatingStatus(head, true, status),
                        )
                    } else {
                        (queue, CtrlPhase::TranslatingStatus(head, false, status))
                    }
                } else {
                    (queue, CtrlPhase::TranslatingStatus(head, tolerated(header), status))
                },
            }
        },
        (CtrlPhase::ReadingPairs(head, header, _, status), CtrlEvent::Bytes(read)) => {
            match read {
                Err(_) => (queue, ctrl_fail(Error::GuestMemory)),
                Ok(bytes) => (
                    queue,
                    CtrlPhase::TranslatingStatus(
                        head,
                        pairs_accepted(header, le_value(bytes@)),
                        status,
                    ),
                ),
            }
        },
        (CtrlPhase::ReadingOffloads(head, header, _, status), CtrlEvent::Bytes(read)) => {
            match read {
                Err(_) => (queue, ctrl_fail(Error::GuestMemory)),
                Ok(bytes) => if header.cmd == VIRTIO_NET_CTRL_GUEST_OFFLOADS_SET {
                    (
                        queue,
                        offload_from(
                            queue.taps,
                            head,
                            le_value(bytes@) as u64,
                            0,
                            true,
                            status,
                        ),
                    )
                } else {
                    (queue, CtrlPhase::TranslatingStatus(head, false, status))
                },
            }
        },
        // One tap device that fails does not keep the others from being set up.
        (
            CtrlPhase::SettingOffload(head, features, i, ok, status),
            CtrlEvent::Done(done),
        ) => (queue, offload_from(queue.taps, head, features, i + 1, ok && done, status)),
        (CtrlPhase::TranslatingStatus(head, ok, _), CtrlEvent::Value(value)) => match value {
            Ok(addr) => (queue, CtrlPhase::WritingStatus(head, ok, addr)),
            Err(_) => (queue, ctrl_fail(Error::GuestMemory)),
        },
        (CtrlPhase::WritingStatus(head, _, _), CtrlEvent::Done(done)) => if done {
            (queue, CtrlPhase::AddingUsed(head))
        } else {
            (queue, ctrl_fail(Error::GuestMemory))
        },
        (CtrlPhase::AddingUsed(_), CtrlEvent::Done(done)) => if done {
            (queue, CtrlPhase::EnablingNotification)
        } else {
            (queue, ctrl_fail(Error::QueueAddUsed))
        },
        (CtrlPhase::EnablingNotification, CtrlEvent::Enabled(enabled)) => match enabled {
            Err(_) => (queue, ctrl_fail(Error::QueueEnableNotification)),
            Ok(true) => (queue, CtrlPhase::Popping),
            Ok(false) => (queue, CtrlPhase::Finished(Ok(()))),
        },
        _ => (queue, phase),
    }
}

/// What a phase needs done.
pub open spec fn ctrl_action(phase: CtrlPhase) -> CtrlAction {
    match phase {
        CtrlPhase::Popping => CtrlAction::PopChain,
        CtrlPhase::NextHeader(_) => CtrlAction::NextDescriptor,
        CtrlPhase::TranslatingHeader(_, descriptor) => CtrlAction::Translate(
            descriptor.addr,
            descriptor.len,
        ),
        CtrlPhase::ReadingHeader(_, addr) => CtrlAction::ReadHeader(addr),
        CtrlPhase::NextData(_, _) => CtrlAction::NextDescriptor,
        CtrlPhase::TranslatingData(_, _, descriptor) => CtrlAction::Translate(
            descriptor.addr,
            descriptor.len,
        ),
        CtrlPhase::NextStatus(_, _, _) => CtrlAction::NextDescriptor,
        CtrlPhase::ReadingPairs(_, _, data, _) => CtrlAction::ReadU16(data),
        CtrlPhase::ReadingOffloads(_, _, data, _) => CtrlAction::ReadU64(data),
        CtrlPhase::SettingOffload(_, features, i, _, _) => CtrlAction::SetOffload(i, features),
        CtrlPhase::TranslatingStatus(_, _, descriptor) => CtrlAction::Translate(
            descriptor.addr,
            descriptor.len,
        ),
        CtrlPhase::WritingStatus(_, ok, addr) => CtrlAction::WriteStatus(
            addr,
            if ok {
                VIRTIO_NET_OK as u8
            } else {
                VIRTIO_NET_ERR as u8
            },
        ),
        CtrlPhase::AddingUsed(head) => CtrlAction::AddUsed(head, 1),
        CtrlPhase::EnablingNotification => CtrlAction::EnableNotification,
        CtrlPhase::Finished(result) => CtrlAction::Finish(result),
    }
}

impl CtrlPhase {
    /// What this phase needs done.
    pub fn action(&self) -> (action: CtrlAction)
        ensures
            action == ctrl_action(*self),
    {
        match *self {
            CtrlPhase::Popping => CtrlAction::PopChain,
            CtrlPhase::NextHeader(_) => CtrlAction::NextDescriptor,
            CtrlPhase::TranslatingHeader(_, descriptor) => CtrlAction::Translate(
                descriptor.addr,
                descriptor.len,
            ),
            CtrlPhase::ReadingHeader(_, addr) => CtrlAction::ReadHeader(addr),
            CtrlPhase::NextData(_, _) => CtrlAction::NextDescriptor,
            CtrlPhase::TranslatingData(_, _, descriptor) => CtrlAction::Translate(
                descriptor.addr,
                descriptor.len,
            ),
            CtrlPhase::NextStatus(_, _, _) => CtrlAction::NextDescriptor,
            CtrlPhase::ReadingPairs(_, _, data, _) => CtrlAction::ReadU16(data),
            CtrlPhase::ReadingOffloads(_, _, data, _) => CtrlAction::ReadU64(data),
            CtrlPhase::SettingOffload(_, features, i, _, _) => CtrlAction::SetOffload(i, features),
            CtrlPhase::TranslatingStatus(_, _, descriptor) => CtrlAction::Translate(
                descriptor.addr,
                descriptor.len,
            ),
            CtrlPhase::WritingStatus(_, ok, addr) => CtrlAction::WriteStatus(
                addr,
                if ok {
                    VIRTIO_NET_OK as u8
                } else {
                    VIRTIO_NET_ERR as u8
                },
            ),
            CtrlPhase::AddingUsed(head) => CtrlAction::AddUsed(head, 1),
            CtrlPhase::EnablingNotification => CtrlAction::EnableNotification,
            CtrlPhase::Finished(result) => CtrlAction::Finish(result),
        }
    }
}

/// The tap device of a phase is one of the `taps` devices.
pub open spec fn ctrl_in_bounds(taps: usize, phase: CtrlPhase) -> bool {
    phase matches CtrlPhase::SettingOffload(_, _, i, _, _) ==> i < taps
}

impl CtrlQueue {
    /// Creates a control queue for this number of tap devices.
    pub fn new(taps: usize, announce_pending: bool) -> (queue: Self)
        ensures
            queue == (CtrlQueue { taps, announce_pending }),
    {
        CtrlQueue { taps, announce_pending }
    }

    fn offload_or_status(
        &self,
        head: u16,
        features: u64,
        i: usize,
        ok: bool,
        status: CtrlDescriptor,
    ) -> (phase: CtrlPhase)
        ensures
            phase == offload_from(self.taps, head, features, i as int, ok, status),
            ctrl_in_bounds(self.taps, phase),
    {
        if i < self.taps {
            CtrlPhase::SettingOffload(head, features, i, ok, status)
        } else {
            CtrlPhase::TranslatingStatus(head, ok, status)
        }
    }

    fn status_found(
        &mut self,
        head: u16,
        header: ControlHeader,
        data: u64,
        status: CtrlDescriptor,
    ) -> (phase: CtrlPhase)
        ensures
            (*final(self), phase) == ctrl_next(
                *old(self),
                CtrlPhase::NextStatus(head, header, data),
                CtrlEvent::Descriptor(Some(status)),
            ),
            ctrl_in_bounds(final(self).taps, phase),
    {
        let class: u32 = header.class as u32;
        if class == VIRTIO_NET_CTRL_MQ {
            CtrlPhase::ReadingPairs(head, header, data, status)
        } else if class == VIRTIO_NET_CTRL_GUEST_OFFLOADS {
            CtrlPhase::ReadingOffloads(head, header, data, status)
        } else if class == VIRTIO_NET_CTRL_ANNOUNCE {
            if header.cmd as u32 == VIRTIO_NET_CTRL_ANNOUNCE_ACK {
                self.announce_pending = false;
                CtrlPhase::TranslatingStatus(head, true, status)
            } else {
                CtrlPhase::TranslatingStatus(head, false, status)
            }
        } else {
            CtrlPhase::TranslatingStatus(head, is_tolerated_ctrl_command(header), status)
        }
    }

    /// Takes the answer to the action of a phase into account.
    pub fn advance(&mut self, phase: CtrlPhase, event: CtrlEvent) -> (next: CtrlPhase)
        requires
            ctrl_answers(phase, event),
            ctrl_in_bounds(old(self).taps, phase),
        ensures
            (*final(self), next) == ctrl_next(*old(self), phase, event),
            ctrl_in_bounds(final(self).taps, next),
    {
        match (phase, event) {
            (CtrlPhase::Popping, CtrlEvent::Chain(chain)) => match chain {
                Some(head) => CtrlPhase::NextHeader(head),
                None => CtrlPhase::Finished(Ok(())),
            },
            (CtrlPhase::NextHeader(head), CtrlEvent::Descriptor(descriptor)) => match descriptor {
                Some(descriptor) => CtrlPhase::TranslatingHeader(head, descriptor),
                None => CtrlPhase::Finished(Err(Error::NoControlHeaderDescriptor)),
            },
            (CtrlPhase::TranslatingHeader(head, _), CtrlEvent::Value(value)) => match value {
                Ok(addr) => CtrlPhase::ReadingHeader(head, addr),
                Err(_) => CtrlPhase::Finished(Err(Error::GuestMemory)),
            },
            (CtrlPhase::ReadingHeader(head, _), CtrlEvent::Bytes(read)) => match read {
                Ok(bytes) => {
                    let header: ControlHeader = header_from_bytes(bytes.as_slice());
                    if header.class as u32 == VIRTIO_NET_CTRL_ANNOUNCE {
                        CtrlPhase::NextStatus(head, header, 0)
                    } else {
                        CtrlPhase::NextData(head, header)
                    }
                },
                Err(_) => CtrlPhase::Finished(Err(Error::GuestMemory)),
            },
            (
                CtrlPhase::NextData(head, header),
                CtrlEvent::Descriptor(descriptor),
            ) => match descriptor {
                None => CtrlPhase::Finished(Err(Error::NoDataDescriptor)),
                Some(descriptor) => if header.class as u32 == VIRTIO_NET_CTRL_MQ
                    || header.class as u32 == VIRTIO_NET_CTRL_GUEST_OFFLOADS {
                    CtrlPhase::TranslatingData(head, header, descriptor)
                } else {
                    CtrlPhase::NextStatus(head, header, 0)
                },
            },
            (CtrlPhase::TranslatingData(head, header, _), CtrlEvent::Value(value)) => match value {
                Ok(addr) => CtrlPhase::NextStatus(head, header, addr),
                Err(_) => CtrlPhase::Finished(Err(Error::GuestMemory)),
            },
            (
                CtrlPhase::NextStatus(head, header, data),
                CtrlEvent::Descriptor(descriptor),
            ) => match descriptor {
                None => CtrlPhase::Finished(Err(Error::NoStatusDescriptor)),
                Some(status) => self.status_found(head, header, data, status),
            },
            (
                CtrlPhase::ReadingPairs(head, header, _, status),
                CtrlEvent::Bytes(read),
            ) => match read {
                Err(_) => CtrlPhase::Finished(Err(Error::GuestMemory)),
                Ok(bytes) => {
                    let pairs: u64 = get_le(bytes.as_slice(), 0, 2);
                    assert(bytes@.subrange(0, 2) =~= bytes@);
                    let ok: bool = header.cmd as u32 == VIRTIO_NET_CTRL_MQ_VQ_PAIRS_SET && pairs
                        >= VIRTIO_NET_CTRL_MQ_VQ_PAIRS_MIN as u64 && pairs
                        <= VIRTIO_NET_CTRL_MQ_VQ_PAIRS_MAX as u64;
                    CtrlPhase::TranslatingStatus(head, ok, status)
                },
            },
            (
                CtrlPhase::ReadingOffloads(head, header, _, status),
                CtrlEvent::Bytes(read),
            ) => match read {
                Err(_) => CtrlPhase::Finished(Err(Error::GuestMemory)),
                Ok(bytes) => if header.cmd as u32 == VIRTIO_NET_CTRL_GUEST_OFFLOADS_SET {
                    let features: u64 = get_le(bytes.as_slice(), 0, 8);
                    assert(bytes@.subrange(0, 8) =~= bytes@);
                    self.offload_or_status(head, features, 0, true, status)
                } else {
                    CtrlPhase::TranslatingStatus(head, false, status)
                },
            },
            (
                CtrlPhase::SettingOffload(head, features, i, ok, status),
                CtrlEvent::Done(done),
            ) => self.offload_or_status(head, features, i + 1, ok && done, status),
            (CtrlPhase::TranslatingStatus(head, ok, _), CtrlEvent::Value(value)) => match value {
                Ok(addr) => CtrlPhase::WritingStatus(head, ok, addr),
                Err(_) => CtrlPhase::Finished(Err(Error::GuestMemory)),
            },
            (CtrlPhase::WritingStatus(head, _, _), CtrlEvent::Done(done)) => if done {
                CtrlPhase::AddingUsed(head)
            } else {
                CtrlPhase::Finished(Err(Error::GuestMemory))
            },
            (CtrlPhase::AddingUsed(_), CtrlEvent::Done(done)) => if done {
                CtrlPhase::EnablingNotification
            } else {
                CtrlPhase::Finished(Err(Error::QueueAddUsed))
            },
            (CtrlPhase::EnablingNotification, CtrlEvent::Enabled(enabled)) => match enabled {
                Err(_) => CtrlPhase::Finished(Err(Error::QueueEnableNotification)),
                Ok(true) => CtrlPhase::Popping,
                Ok(false) => CtrlPhase::Finished(Ok(())),
            },
            (phase, _) => phase,
        }
    }
}

/// A phase needs nothing but the virtqueue and guest memory. If addresses are not translated,
/// that includes the phases that would translate one.
pub open spec fn on_queue(phase: CtrlPhase, translates: bool) -> bool {
    match phase {
        CtrlPhase::TranslatingHeader(_, _)
        | CtrlPhase::TranslatingData(_, _, _)
        | CtrlPhase::TranslatingStatus(_, _, _) => !translates,
        CtrlPhase::SettingOffload(_, _, _, _, _) | CtrlPhase::Finished(_) => false,
        _ => true,
    }
}

/// `event` is a possible answer of the virtqueue and guest memory to what `phase` asks for,
/// given the regions of guest memory and the virtqueue.
pub open spec fn queue_answers(
    regions: Map<u64, u64>,
    ring: VirtqueueView,
    phase: CtrlPhase,
    event: CtrlEvent,
) -> bool {
    ctrl_answers(phase, event) && match (phase, event) {
        // Without a translation an address is what it is.
        (CtrlPhase::TranslatingHeader(_, descriptor), CtrlEvent::Value(value)) => value == Ok::<
            u64,
            (),
        >(descriptor.addr),
        (CtrlPhase::TranslatingData(_, _, descriptor), CtrlEvent::Value(value)) => value == Ok::<
            u64,
            (),
        >(descriptor.addr),
        (CtrlPhase::TranslatingStatus(_, _, descriptor), CtrlEvent::Value(value)) => value == Ok::<
            u64,
            (),
        >(descriptor.addr),
        // Guest memory can be accessed exactly where it is.
        (CtrlPhase::ReadingHeader(_, addr), CtrlEvent::Bytes(read)) => read is Ok
            <==> in_regions(regions, addr, 2),
        (CtrlPhase::ReadingPairs(_, _, addr, _), CtrlEvent::Bytes(read)) => read is Ok
            <==> in_regions(regions, addr, 2),
        (CtrlPhase::ReadingOffloads(_, _, addr, _), CtrlEvent::Bytes(read)) => read is Ok
            <==> in_regions(regions, addr, 8),
        (CtrlPhase::WritingStatus(_, _, addr), CtrlEvent::Done(done)) => done <==> in_regions(
            regions,
            addr,
            1,
        ),
        // A chain is returned exactly if the ring can be written.
        (CtrlPhase::AddingUsed(head), CtrlEvent::Done(done)) => done <==> ring.used_fits(
            regions,
            head,
        ),
        (CtrlPhase::EnablingNotification, CtrlEvent::Enabled(enabled)) => enabled is Ok
            <==> ring.notification_fits(regions),
        (CtrlPhase::Popping, CtrlEvent::Chain(chain)) => chain is Some ==> ring.usable(regions),
        _ => true,
    }
}

/// The virtqueue after the answer to what a phase asks for: taking a chain moves it on, and
/// returning one is counted.
pub open spec fn ctrl_ring_next(
    regions: Map<u64, u64>,
    ring: VirtqueueView,
    phase: CtrlPhase,
    event: CtrlEvent,
) -> VirtqueueView {
    match phase {
        CtrlPhase::Popping => if event matches CtrlEvent::Chain(Some(_)) {
            ring.taken()
        } else {
            ring
        },
        CtrlPhase::AddingUsed(head) => ring.returned(regions, head),
        _ => ring,
    }
}

/// What follows a phase on a sequence of answers of the virtqueue and guest memory.
pub open spec fn ctrl_after(
    queue: CtrlQueue,
    ring: VirtqueueView,
    phase: CtrlPhase,
    regions: Map<u64, u64>,
    events: Seq<CtrlEvent>,
) -> (CtrlQueue, VirtqueueView, CtrlPhase)
    decreases events.len(),
{
    if events.len() == 0 {
        (queue, ring, phase)
    } else {
        let before = ctrl_after(queue, ring, phase, regions, events.drop_last());
        let (after, next) = ctrl_next(before.0, before.2, events.last());
        (after, ctrl_ring_next(regions, before.1, before.2, events.last()), next)
    }
}

/// The answers are possible ones of the virtqueue and guest memory to phases that need nothing
/// else, and only the first one may be about the next chain.
pub open spec fn ctrl_run(
    queue: CtrlQueue,
    ring: VirtqueueView,
    phase: CtrlPhase,
    translates: bool,
    regions: Map<u64, u64>,
    events: Seq<CtrlEvent>,
) -> bool
    decreases events.len(),
{
    events.len() > 0 ==> {
        let before = ctrl_after(queue, ring, phase, regions, events.drop_last());
        &&& ctrl_run(queue, ring, phase, translates, regions, events.drop_last())
        &&& on_queue(before.2, translates)
        &&& before.2 is Popping ==> events.len() == 1
        &&& queue_answers(regions, before.1, before.2, events.last())
    }
}

/// The number of chains that the answers have returned to the guest.
pub open spec fn ctrl_returned(
    queue: CtrlQueue,
    ring: VirtqueueView,
    phase: CtrlPhase,
    regions: Map<u64, u64>,
    events: Seq<CtrlEvent>,
) -> nat
    decreases events.len(),
{
    if events.len() == 0 {
        0
    } else {
        let before = ctrl_after(queue, ring, phase, regions, events.drop_last()).2;
        let returned: nat = if before is AddingUsed && (events.last() matches CtrlEvent::Done(
            done,
        ) && done) {
            1
        } else {
            0
        };
        ctrl_returned(queue, ring, phase, regions, events.drop_last()) + returned
    }
}

/// A run counts each chain that it returns, unless the ring of used chains cannot be written.
pub proof fn law_returned_chains_are_counted(
    queue: CtrlQueue,
    ring: VirtqueueView,
    phase: CtrlPhase,
    translates: bool,
    regions: Map<u64, u64>,
    events: Seq<CtrlEvent>,
)
    requires
        ctrl_run(queue, ring, phase, translates, regions, events),
    ensures
        ({
            let after = ctrl_after(queue, ring, phase, regions, events);
            after.2 == ctrl_fail(Error::QueueAddUsed) || after.1.next_used == advanced(
                ring.next_used,
                ctrl_returned(queue, ring, phase, regions, events),
            )
        }),
    decreases events.len(),
{
    if events.len() > 0 {
        law_returned_chains_are_counted(
            queue,
            ring,
            phase,
            translates,
            regions,
            events.drop_last(),
        );
    }
}

proof fn lemma_ctrl_step(
    queue: CtrlQueue,
    ring: VirtqueueView,
    phase: CtrlPhase,
    translates: bool,
    regions: Map<u64, u64>,
    events: Seq<CtrlEvent>,
    k: int,
)
    requires
        ctrl_run(queue, ring, phase, translates, regions, events),
        0 <= k < events.len(),
    ensures
        ({
            let before = ctrl_after(queue, ring, phase, regions, events.take(k));
            let after = ctrl_after(queue, ring, phase, regions, events.take(k + 1));
            &&& on_queue(before.2, translates)
            &&& before.2 is Popping ==> k == 0
            &&& queue_answers(regions, before.1, before.2, events[k])
            &&& after.1 == ctrl_ring_next(regions, before.1, before.2, events[k])
            &&& (after.0, after.2) == ctrl_next(before.0, before.2, events[k])
            &&& ctrl_returned(queue, ring, phase, regions, events.take(k + 1)) == ctrl_returned(
                queue,
                ring,
                phase,
                regions,
                events.take(k),
            ) + if before.2 is AddingUsed && events[k] == CtrlEvent::Done(true) {
                1nat
            } else {
                0
            }
        }),
    decreases events.len(),
{
    if k == events.len() - 1 {
        assert(events.take(k) =~= events.drop_last());
        assert(events.take(k + 1) =~= events);
    } else {
        lemma_ctrl_step(queue, ring, phase, translates, regions, events.drop_last(), k);
        assert(events.drop_last().take(k) =~= events.take(k));
        assert(events.drop_last().take(k + 1) =~= events.take(k + 1));
    }
}

/// A command that has been decided on is answered and its chain returned to the guest, exactly
/// once: all that it takes is that the status, the ring of used chains and the notification
/// can be written. Then the processing ends well, or goes on with the next chain.
pub proof fn law_answered_command_is_returned(
    queue: CtrlQueue,
    ring: VirtqueueView,
    phase: CtrlPhase,
    translates: bool,
    regions: Map<u64, u64>,
    events: Seq<CtrlEvent>,
)
    requires
        ctrl_run(queue, ring, phase, translates, regions, events),
        ({
            let next = ctrl_after(queue, ring, phase, regions, events).2;
            next is Popping || !on_queue(next, translates)
        }),
        phase matches CtrlPhase::WritingStatus(head, _, addr) && in_regions(regions, addr, 1)
            && ring.used_fits(regions, head),
        ring.notification_fits(regions),
    ensures
        ({
            let after = ctrl_after(queue, ring, phase, regions, events);
            &&& after.0 == queue
            &&& after.1 == VirtqueueView { next_used: next_position(ring.next_used), ..ring }
            &&& after.2 is Popping || after.2 == CtrlPhase::Finished(Ok(()))
            &&& ctrl_returned(queue, ring, phase, regions, events) == 1
        }),
{
    assert(events.take(0) =~= Seq::<CtrlEvent>::empty());
    assert(events.take(events.len() as int) =~= events);
    assert(events.len() > 0);
    lemma_ctrl_step(queue, ring, phase, translates, regions, events, 0);
    assert(events.len() > 1);
    lemma_ctrl_step(queue, ring, phase, translates, regions, events, 1);
    assert(events.len() > 2);
    lemma_ctrl_step(queue, ring, phase, translates, regions, events, 2);
    if events.len() > 3 {
        lemma_ctrl_step(queue, ring, phase, translates, regions, events, 3);
    }
}

/// The chain that a phase works on is there.
pub open spec fn chain_fits(phase: CtrlPhase, chain: Option<Chain<'_>>) -> bool {
    ctrl_head(phase) matches Some(head) ==> has_chain(chain, head)
}

/// How far a phase is from the end of the processing of a chain.
spec fn ctrl_rank(phase: CtrlPhase) -> int {
    match phase {
        CtrlPhase::NextHeader(_) => 13,
        CtrlPhase::TranslatingHeader(_, _) => 12,
        CtrlPhase::ReadingHeader(_, _) => 11,
        CtrlPhase::NextData(_, _) => 10,
        CtrlPhase::TranslatingData(_, _, _) => 9,
        CtrlPhase::NextStatus(_, _, _) => 8,
        CtrlPhase::ReadingPairs(_, _, _, _) => 7,
        CtrlPhase::ReadingOffloads(_, _, _, _) => 7,
        CtrlPhase::SettingOffload(_, _, _, _, _) => 6,
        CtrlPhase::TranslatingStatus(_, _, _) => 5,
        CtrlPhase::WritingStatus(_, _, _) => 4,
        CtrlPhase::AddingUsed(_) => 3,
        CtrlPhase::EnablingNotification => 2,
        CtrlPhase::Popping => 1,
        CtrlPhase::Finished(_) => 0,
    }
}

impl CtrlPhase {
    /// Whether this phase needs nothing but the virtqueue and guest memory.
    pub fn is_on_queue(&self, translates: bool) -> (result: bool)
        ensures
            result == on_queue(*self, translates),
    {
        match *self {
            CtrlPhase::TranslatingHeader(_, _)
            | CtrlPhase::TranslatingData(_, _, _)
            | CtrlPhase::TranslatingStatus(_, _, _) => !translates,
            CtrlPhase::SettingOffload(_, _, _, _, _) | CtrlPhase::Finished(_) => false,
            _ => true,
        }
    }

    /// Performs the action of a phase on the virtqueue or guest memory.
    fn perform<'a>(
        self,
        memory: &'a GuestMemoryMmap<AtomicBitmap>,
        queue: &mut Queue,
        chain: &mut Option<Chain<'a>>,
    ) -> (event: CtrlEvent)
        requires
            on_queue(self, false),
        ensures
            queue_answers(guest_regions(*memory), virtqueue(*old(queue)), self, event),
            virtqueue(*final(queue)) == ctrl_ring_next(
                guest_regions(*memory),
                virtqueue(*old(queue)),
                self,
                event,
            ),
            match event {
                CtrlEvent::Chain(Some(head)) => has_chain(*final(chain), head),
                _ => forall|head: u16| has_chain(*old(chain), head) ==> has_chain(*final(chain), head),
            },
    {
        match self.action() {
            CtrlAction::PopChain => match pop_descriptor_chain(queue, memory) {
                Some((head, popped)) => {
                    *chain = Some(popped);
                    CtrlEvent::Chain(Some(head))
                },
                None => CtrlEvent::Chain(None),
            },
            CtrlAction::NextDescriptor => CtrlEvent::Descriptor(
                match chain {
                    Some(chain) => match next_descriptor(chain) {
                        Some((addr, len)) => Some(CtrlDescriptor { addr, len }),
                        None => None,
                    },
                    None => None,
                },
            ),
            CtrlAction::Translate(addr, _) => CtrlEvent::Value(Ok(addr)),
            CtrlAction::ReadHeader(addr) => CtrlEvent::Bytes(read_slice(memory, addr, 2)),
            CtrlAction::ReadU16(addr) => CtrlEvent::Bytes(read_slice(memory, addr, 2)),
            CtrlAction::ReadU64(addr) => CtrlEvent::Bytes(read_slice(memory, addr, 8)),
            CtrlAction::WriteStatus(addr, status) => CtrlEvent::Done(
                write_status(memory, addr, status),
            ),
            CtrlAction::AddUsed(head, len) => CtrlEvent::Done(
                add_used(queue, memory, head, len).is_ok(),
            ),
            CtrlAction::EnableNotification => CtrlEvent::Enabled(
                enable_notification(queue, memory),
            ),
            _ => CtrlEvent::Done(false),
        }
    }
}

impl CtrlQueue {
    fn perform_step<'a>(
        &mut self,
        memory: &'a GuestMemoryMmap<AtomicBitmap>,
        queue: &mut Queue,
        chain: &mut Option<Chain<'a>>,
        phase: CtrlPhase,
    ) -> (result: (CtrlPhase, Ghost<CtrlEvent>))
        requires
            on_queue(phase, false),
            ctrl_in_bounds(old(self).taps, phase),
        ensures
            queue_answers(
                guest_regions(*memory),
                virtqueue(*old(queue)),
                phase,
                result.1@,
            ),
            (*final(self), result.0) == ctrl_next(*old(self), phase, result.1@),
            ctrl_in_bounds(final(self).taps, result.0),
            ctrl_rank(result.0) < ctrl_rank(phase) || phase is Popping,
            virtqueue(*final(queue)) == ctrl_ring_next(
                guest_regions(*memory),
                virtqueue(*old(queue)),
                phase,
                result.1@,
            ),
            chain_fits(phase, *old(chain)) ==> chain_fits(result.0, *final(chain)),
    {
        let event: CtrlEvent = phase.perform(memory, queue, chain);
        let ghost answer = event;
        (self.advance(phase, event), Ghost(answer))
    }

    /// Goes on from a phase as long as nothing but the virtqueue and guest memory is needed, but
    /// not beyond the chain that is being processed. `chain` gets that chain when it is taken,
    /// and holds it between two calls. `translates` tells whether the caller translates
    /// addresses.
    ///
    /// The processing of the queue starts with `Popping`. Where this returns `Popping` again,
    /// there may be another chain.
    pub fn process<'a>(
        &mut self,
        memory: &'a GuestMemoryMmap<AtomicBitmap>,
        queue: &mut Queue,
        chain: &mut Option<Chain<'a>>,
        phase: CtrlPhase,
        translates: bool,
    ) -> (next: CtrlPhase)
        requires
            ctrl_in_bounds(old(self).taps, phase),
        ensures
            exists|events: Seq<CtrlEvent>|
                {
                    &&& #[trigger] ctrl_run(
                        *old(self),
                        virtqueue(*old(queue)),
                        phase,
                        translates,
                        guest_regions(*memory),
                        events,
                    )
                    &&& (*final(self), virtqueue(*final(queue)), next) == ctrl_after(
                        *old(self),
                        virtqueue(*old(queue)),
                        phase,
                        guest_regions(*memory),
                        events,
                    )
                    &&& on_queue(phase, translates) ==> events.len() > 0
                    &&& next == ctrl_fail(Error::QueueAddUsed) || queue_next_used(*final(queue))
                        == advanced(
                        queue_next_used(*old(queue)),
                        ctrl_returned(
                            *old(self),
                            virtqueue(*old(queue)),
                            phase,
                            guest_regions(*memory),
                            events,
                        ),
                    )
                },
            chain_fits(phase, *old(chain)) ==> chain_fits(next, *final(chain)),
            next is Popping || !on_queue(next, translates),
            ctrl_in_bounds(final(self).taps, next),
    {
        let ghost regions = guest_regions(*memory);
        let ghost ring = virtqueue(*queue);
        let ghost mut events: Seq<CtrlEvent> = Seq::empty();
        let mut phase_now: CtrlPhase = phase;
        if phase.is_on_queue(translates) {
            let (next, event) = self.perform_step(memory, queue, chain, phase);
            proof {
                reveal_with_fuel(ctrl_after, 2);
                reveal_with_fuel(ctrl_run, 2);
                assert(seq![event@].drop_last() =~= events);
                events = seq![event@];
            }
            phase_now = next;
        }
        while phase_now.is_on_queue(translates) && !matches!(phase_now, CtrlPhase::Popping)
            invariant
                ctrl_run(*old(self), ring, phase, translates, regions, events),
                (*self, virtqueue(*queue), phase_now) == ctrl_after(
                    *old(self),
                    ring,
                    phase,
                    regions,
                    events,
                ),
                on_queue(phase, translates) ==> events.len() > 0,
                !on_queue(phase, translates) ==> phase_now == phase,
                chain_fits(phase, *old(chain)) ==> chain_fits(phase_now, *chain),
                ctrl_in_bounds(self.taps, phase_now),
                regions == guest_regions(*memory),
                ring == virtqueue(*old(queue)),
            decreases ctrl_rank(phase_now),
        {
            let ghost before = events;
            let (next, event) = self.perform_step(memory, queue, chain, phase_now);
            proof {
                events = before.push(event@);
                assert(events.drop_last() =~= before);
            }
            phase_now = next;
        }
        proof {
            law_returned_chains_are_counted(*old(self), ring, phase, translates, regions, events);
        }
        phase_now
    }
}

/// The guest's acknowledgement is the only thing that clears a pending announcement, and
/// nothing makes one pending.
pub proof fn law_only_acknowledgement_clears_announcement(
    queue: CtrlQueue,
    phase: CtrlPhase,
    event: CtrlEvent,
)
    requires
        ctrl_next(queue, phase, event).0.announce_pending != queue.announce_pending,
    ensures
        queue.announce_pending,
        phase matches CtrlPhase::NextStatus(_, header, _) && header.class
            == VIRTIO_NET_CTRL_ANNOUNCE && header.cmd == VIRTIO_NET_CTRL_ANNOUNCE_ACK,
        event matches CtrlEvent::Descriptor(Some(_)),
{
}

/// The head index of the chain that a phase works on.
pub open spec fn ctrl_head(phase: CtrlPhase) -> Option<u16> {
    match phase {
        CtrlPhase::NextHeader(head) => Some(head),
        CtrlPhase::TranslatingHeader(head, _) => Some(head),
        CtrlPhase::ReadingHeader(head, _) => Some(head),
        CtrlPhase::NextData(head, _) => Some(head),
        CtrlPhase::TranslatingData(head, _, _) => Some(head),
        CtrlPhase::NextStatus(head, _, _) => Some(head),
        CtrlPhase::ReadingPairs(head, _, _, _) => Some(head),
        CtrlPhase::ReadingOffloads(head, _, _, _) => Some(head),
        CtrlPhase::SettingOffload(head, _, _, _, _) => Some(head),
        CtrlPhase::TranslatingStatus(head, _, _) => Some(head),
        CtrlPhase::WritingStatus(head, _, _) => Some(head),
        CtrlPhase::AddingUsed(head) => Some(head),
        _ => None,
    }
}

/// A chain that was taken from the queue is the one that is worked on until it has been
/// added to the used ring, unless the processing ends with an error.
pub proof fn law_chain_is_returned(queue: CtrlQueue, phase: CtrlPhase, event: CtrlEvent)
    requires
        ctrl_answers(phase, event),
        ctrl_head(phase) is Some,
    ensures
        ({
            let next = ctrl_next(queue, phase, event).1;
            ||| ctrl_head(next) == ctrl_head(phase)
            ||| next matches CtrlPhase::Finished(Err(_))
            ||| phase is AddingUsed && next is EnablingNotification
        }),
{
}

/// A command without data that counts is answered by its class and number alone. The commands that
/// set up which packets are received, of which there are six, and the two that set up virtual
/// networks are answered as if they had been carried out; so is the acknowledgement of an
/// announcement. Every other one is answered with an error.
pub proof fn law_command_is_answered_by_number(
    queue: CtrlQueue,
    head: u16,
    header: ControlHeader,
    data: u64,
    status: CtrlDescriptor,
)
    requires
        header.class != 4,
        header.class != 5,
    ensures
        ctrl_next(
            queue,
            CtrlPhase::NextStatus(head, header, data),
            CtrlEvent::Descriptor(Some(status)),
        ).1 == CtrlPhase::TranslatingStatus(
            head,
            (header.class == 0 && header.cmd <= 5) || (header.class == 2 && header.cmd <= 1) || (
            header.class == 3 && header.cmd == 0),
            status,
        ),
        ctrl_next(
            queue,
            CtrlPhase::NextStatus(head, header, data),
            CtrlEvent::Descriptor(Some(status)),
        ).0 == (CtrlQueue {
            taps: queue.taps,
            announce_pending: queue.announce_pending && !(header.class == 3 && header.cmd == 0),
        }),
{
}

/// A request for queue pairs is accepted exactly if it asks for at least one and at most 32768
/// pairs, in two bytes of which the low one comes first.
pub proof fn law_pairs_in_range_are_accepted(
    queue: CtrlQueue,
    head: u16,
    header: ControlHeader,
    data: u64,
    status: CtrlDescriptor,
    bytes: Vec<u8>,
)
    requires
        bytes@.len() == 2,
    ensures
        ctrl_next(
            queue,
            CtrlPhase::ReadingPairs(head, header, data, status),
            CtrlEvent::Bytes(Ok(bytes)),
        ) == (
            queue,
            CtrlPhase::TranslatingStatus(
                head,
                header.cmd == 0 && 1 <= bytes@[0] + 256 * bytes@[1] <= 32768,
                status,
            ),
        ),
{
    reveal_with_fuel(le_value, 3);
    assert(bytes@.drop_first()[0] == bytes@[1]);
}

/// The phase after the tap devices have been set up in turn, given how each of them ended.
pub open spec fn ctrl_after_taps(queue: CtrlQueue, phase: CtrlPhase, done: Seq<bool>) -> CtrlPhase
    decreases done.len(),
{
    if done.len() == 0 {
        phase
    } else {
        ctrl_next(
            queue,
            ctrl_after_taps(queue, phase, done.drop_last()),
            CtrlEvent::Done(done.last()),
        ).1
    }
}

/// Offloads are set on every tap device, one after the other and all with the features that the
/// guest has asked for, whatever comes of the others. The command has succeeded if all of them
/// have.
pub proof fn law_offloads_reach_every_tap(
    queue: CtrlQueue,
    head: u16,
    features: u64,
    status: CtrlDescriptor,
    done: Seq<bool>,
)
    requires
        done.len() <= queue.taps,
        queue.taps > 0,
    ensures
        ({
            let phase = ctrl_after_taps(
                queue,
                CtrlPhase::SettingOffload(head, features, 0, true, status),
                done,
            );
            let all = !done.contains(false);
            if done.len() < queue.taps {
                phase == CtrlPhase::SettingOffload(head, features, done.len() as usize, all, status)
                    && ctrl_action(phase) == CtrlAction::SetOffload(done.len() as usize, features)
            } else {
                phase == CtrlPhase::TranslatingStatus(head, all, status)
            }
        }),
    decreases done.len(),
{
    if done.len() > 0 {
        let rest = done.drop_last();
        law_offloads_reach_every_tap(queue, head, features, status, rest);
        assert(done.contains(false) <==> rest.contains(false) || !done.last()) by {
            assert(done =~= rest.push(done.last()));
            if rest.contains(false) {
                let i = choose|i: int| 0 <= i < rest.len() && rest[i] == false;
                assert(done[i] == false);
            }
            if !done.last() {
                assert(done[done.len() - 1] == false);
            }
        }
    }
}

/// The features to offload are those that the guest has written, in eight bytes. Any other command
/// of the class is answered with an error.
pub proof fn law_offloads_start_with_features(
    queue: CtrlQueue,
    head: u16,
    header: ControlHeader,
    data: u64,
    status: CtrlDescriptor,
    bytes: Vec<u8>,
)
    requires
        bytes@.len() == 8,
    ensures
        ({
            let (after, next) = ctrl_next(
                queue,
                CtrlPhase::ReadingOffloads(head, header, data, status),
                CtrlEvent::Bytes(Ok(bytes)),
            );
            &&& after == queue
            &&& header.cmd != 0 ==> next == CtrlPhase::TranslatingStatus(head, false, status)
            &&& header.cmd == 0 && queue.taps == 0 ==> next == CtrlPhase::TranslatingStatus(
                head,
                true,
                status,
            )
            &&& header.cmd == 0 && queue.taps > 0 ==> (next matches CtrlPhase::SettingOffload(
                h,
                features,
                i,
                ok,
                s,
            ) && h == head && i == 0 && ok && s == status && crate::wire::le_bytes(
                features as nat,
                8,
            ) == bytes@)
        }),
{
    crate::wire::lemma_le_bytes_of_value(bytes@);
    crate::wire::lemma_le_value_bound(bytes@);
    crate::wire::lemma_pow256();
}

/// What the guest is told: the status says whether the command was carried out, it is written to
/// the translated address of the last descriptor, and the chain is returned with a length of one
/// byte.
pub proof fn law_status_reaches_guest(
    queue: CtrlQueue,
    head: u16,
    ok: bool,
    status: CtrlDescriptor,
    addr: u64,
)
    ensures
        ({
            let p0 = CtrlPhase::TranslatingStatus(head, ok, status);
            let p1 = ctrl_next(queue, p0, CtrlEvent::Value(Ok(addr))).1;
            let p2 = ctrl_next(queue, p1, CtrlEvent::Done(true)).1;
            let p3 = ctrl_next(queue, p2, CtrlEvent::Done(true)).1;
            &&& ctrl_action(p0) == CtrlAction::Translate(status.addr, status.len)
            &&& ctrl_action(p1) == CtrlAction::WriteStatus(
                addr,
                if ok {
                    0
                } else {
                    1
                },
            )
            &&& ctrl_action(p2) == CtrlAction::AddUsed(head, 1)
            &&& ctrl_action(p3) == CtrlAction::EnableNotification
        }),
{
}

/// A command is read from where its descriptors point to: the header from the first one, of whose
/// two bytes the class comes first, and the data of the commands that need it from the next one.
/// An announcement comes without data.
pub proof fn law_command_is_read_from_descriptors(
    queue: CtrlQueue,
    head: u16,
    first: CtrlDescriptor,
    addr: u64,
    bytes: Vec<u8>,
    second: CtrlDescriptor,
    data: u64,
    third: CtrlDescriptor,
)
    requires
        bytes@.len() == 2,
    ensures
        ({
            let header = ControlHeader { class: bytes@[0], cmd: bytes@[1] };
            let p0 = ctrl_next(
                queue,
                CtrlPhase::NextHeader(head),
                CtrlEvent::Descriptor(Some(first)),
            ).1;
            let p1 = ctrl_next(queue, p0, CtrlEvent::Value(Ok(addr))).1;
            let p2 = ctrl_next(queue, p1, CtrlEvent::Bytes(Ok(bytes))).1;
            let p3 = ctrl_next(queue, p2, CtrlEvent::Descriptor(Some(second))).1;
            let p4 = ctrl_next(queue, p3, CtrlEvent::Value(Ok(data))).1;
            let p5 = ctrl_next(queue, p4, CtrlEvent::Descriptor(Some(third))).1;
            &&& ctrl_action(p0) == CtrlAction::Translate(first.addr, first.len)
            &&& ctrl_action(p1) == CtrlAction::ReadHeader(addr)
            &&& bytes@[0] == 3 ==> p2 == CtrlPhase::NextStatus(head, header, 0)
            &&& bytes@[0] != 3 ==> p2 == CtrlPhase::NextData(head, header)
            &&& bytes@[0] == 4 || bytes@[0] == 5 ==> ctrl_action(p3) == CtrlAction::Translate(
                second.addr,
                second.len,
            ) && p4 == CtrlPhase::NextStatus(head, header, data)
            &&& bytes@[0] == 4 ==> ctrl_action(p5) == CtrlAction::ReadU16(data) && p5
                == CtrlPhase::ReadingPairs(head, header, data, third)
            &&& bytes@[0] == 5 ==> ctrl_action(p5) == CtrlAction::ReadU64(data) && p5
                == CtrlPhase::ReadingOffloads(head, header, data, third)
            &&& bytes@[0] != 3 && bytes@[0] != 4 && bytes@[0] != 5 ==> p3 == CtrlPhase::NextStatus(
                head,
                header,
                0,
            )
        }),
{
}

/// The processing fails for the reason of the step that failed.
pub proof fn law_processing_fails_for_reason(
    queue: CtrlQueue,
    phase: CtrlPhase,
    event: CtrlEvent,
    error: Error,
)
    requires
        ctrl_answers(phase, event),
    ensures
        ctrl_next(queue, phase, event).1 == CtrlPhase::Finished(Err(error)) <==> match error {
            Error::GuestMemory => (event matches CtrlEvent::Value(Err(_))) || (event matches
                CtrlEvent::Bytes(Err(_))) || (phase is WritingStatus && event == CtrlEvent::Done(
                false,
            )),
            Error::NoControlHeaderDescriptor => phase is NextHeader && (event matches
                CtrlEvent::Descriptor(None)),
            Error::NoDataDescriptor => phase is NextData && (event matches CtrlEvent::Descriptor(
                None,
            )),
            Error::NoStatusDescriptor => phase is NextStatus && (event matches CtrlEvent::Descriptor(
                None,
            )),
            Error::QueueAddUsed => phase is AddingUsed && event == CtrlEvent::Done(false),
            Error::QueueEnableNotification => phase is EnablingNotification && (event matches
                CtrlEvent::Enabled(Err(_))),
            Error::QueueIterator => false,
        },
{
}

/// The queue is processed until there is no chain, or until the guest has no more of them.
pub proof fn law_processing_ends_without_chains(queue: CtrlQueue, head: u16, more: bool)
    ensures
        ctrl_next(queue, CtrlPhase::Popping, CtrlEvent::Chain(None)).1 == CtrlPhase::Finished(
            Ok(()),
        ),
        ctrl_next(queue, CtrlPhase::Popping, CtrlEvent::Chain(Some(head))).1
            == CtrlPhase::NextHeader(head),
        ctrl_next(queue, CtrlPhase::EnablingNotification, CtrlEvent::Enabled(Ok(more))).1
            is Popping <==> more,
        !more ==> ctrl_next(
            queue,
            CtrlPhase::EnablingNotification,
            CtrlEvent::Enabled(Ok(more)),
        ).1 == CtrlPhase::Finished(Ok(())),
{
}

/// A request for queue pairs that is out of range is answered with an error.
pub proof fn law_pairs_out_of_range_are_refused(
    queue: CtrlQueue,
    head: u16,
    header: ControlHeader,
    data: u64,
    status: CtrlDescriptor,
    bytes: Vec<u8>,
)
    requires
        le_value(bytes@) == 0 || le_value(bytes@) > 0x8000,
    ensures
        ctrl_next(
            queue,
            CtrlPhase::ReadingPairs(head, header, data, status),
            CtrlEvent::Bytes(Ok(bytes)),
        ) == (queue, CtrlPhase::TranslatingStatus(head, false, status)),
{
}

} // verus!
