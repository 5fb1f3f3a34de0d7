//! Virtqueues, through which a guest hands descriptor chains to a device and gets them back.

use virtio_queue::{DescriptorChain, Queue, QueueOwnedT, QueueT};
use vm_memory::bitmap::AtomicBitmap;
use vm_memory::GuestMemoryMmap;
use vstd::prelude::*;

use crate::guest_memory::{guest_regions, in_regions, word_accessible};

verus! {

/// The device's side of a virtqueue of `virtio-queue`. The rings lie in guest memory.
#[verifier::external_type_specification]
#[verifier::external_body]
pub struct ExQueue(virtio_queue::Queue);

/// A chain of descriptors of `virtio-queue`. The descriptors lie in guest memory.
#[verifier::external_type_specification]
#[verifier::external_body]
#[verifier::reject_recursive_types(M)]
pub struct ExDescriptorChain<M>(virtio_queue::DescriptorChain<M>);

/// A chain of descriptors in guest memory.
pub type Chain<'a> = DescriptorChain<&'a GuestMemoryMmap<AtomicBitmap>>;

/// The number of chains that a queue can hold.
pub uninterp spec fn queue_size(queue: Queue) -> u16;

/// The position of the next chain in the ring of available chains, which wraps around.
pub uninterp spec fn queue_position(queue: Queue) -> u16;

/// The number of chains that have been returned through a queue, which wraps around.
pub uninterp spec fn queue_next_used(queue: Queue) -> u16;

/// Whether a queue uses event indices, by which a guest asks for single notifications.
pub uninterp spec fn queue_event_idx(queue: Queue) -> bool;

/// Whether a queue has been set up.
pub uninterp spec fn queue_ready(queue: Queue) -> bool;

/// The guest address of the ring of available chains.
pub uninterp spec fn queue_avail_ring(queue: Queue) -> u64;

/// The guest address of the ring of used chains.
pub uninterp spec fn queue_used_ring(queue: Queue) -> u64;

/// The index of the first descriptor of a chain.
pub uninterp spec fn chain_head(chain: Chain<'_>) -> u16;

/// The position behind a position.
pub open spec fn next_position(position: u16) -> u16 {
    if position == u16::MAX {
        0
    } else {
        (position + 1) as u16
    }
}

/// What a device knows of a virtqueue.
pub struct VirtqueueView {
    pub size: u16,
    pub position: u16,
    pub next_used: u16,
    pub event_idx: bool,
    pub ready: bool,
    pub avail_ring: u64,
    pub used_ring: u64,
}

/// What a device knows of a virtqueue.
pub open spec fn virtqueue(queue: Queue) -> VirtqueueView {
    VirtqueueView {
        size: queue_size(queue),
        position: queue_position(queue),
        next_used: queue_next_used(queue),
        event_idx: queue_event_idx(queue),
        ready: queue_ready(queue),
        avail_ring: queue_avail_ring(queue),
        used_ring: queue_used_ring(queue),
    }
}

impl VirtqueueView {
    /// The index of the ring of available chains can be read.
    pub open spec fn avail_index_fits(self, regions: Map<u64, u64>) -> bool {
        word_accessible(regions, self.avail_ring + 2)
    }

    /// Chains can be taken, if the guest offers any.
    pub open spec fn usable(self, regions: Map<u64, u64>) -> bool {
        self.ready && self.avail_ring != 0 && self.avail_index_fits(regions)
    }

    /// The guest address of the next element of the ring of used chains.
    pub open spec fn used_element(self) -> int {
        self.used_ring + 4 + 8 * (self.next_used as int % self.size as int)
    }

    /// The queue has this head index, and the next element of the ring of used chains can be
    /// written.
    pub open spec fn element_fits(self, regions: Map<u64, u64>, head: u16) -> bool {
        &&& head < self.size
        &&& self.used_element() <= u64::MAX
        &&& in_regions(regions, self.used_element() as u64, 8)
    }

    /// A chain with this head index can be returned: the next element of the ring of used
    /// chains and the index of the ring can be written.
    pub open spec fn used_fits(self, regions: Map<u64, u64>, head: u16) -> bool {
        self.element_fits(regions, head) && word_accessible(regions, self.used_ring + 2)
    }

    /// Notifications can be enabled: by the event index behind the ring of used chains, or by
    /// the flags before it. Then the index of the ring of available chains is read.
    pub open spec fn notification_fits(self, regions: Map<u64, u64>) -> bool {
        &&& word_accessible(
            regions,
            if self.event_idx {
                self.used_ring + 4 + 8 * self.size
            } else {
                self.used_ring as int
            },
        )
        &&& self.avail_index_fits(regions)
    }

    /// The virtqueue after it has taken the next chain.
    pub open spec fn taken(self) -> VirtqueueView {
        VirtqueueView { position: next_position(self.position), ..self }
    }

    /// The virtqueue after a chain with this head index was to be returned. It counts as
    /// returned once its element is written.
    pub open spec fn returned(self, regions: Map<u64, u64>, head: u16) -> VirtqueueView {
        if self.element_fits(regions, head) {
            VirtqueueView { next_used: next_position(self.next_used), ..self }
        } else {
            self
        }
    }
}

/// Nothing but the contents of the rings has changed.
pub open spec fn stays_in_place(before: Queue, after: Queue) -> bool {
    virtqueue(after) == virtqueue(before)
}

/// The chain at the current position has been taken if there was one.
pub open spec fn moves_on(before: Queue, after: Queue, taken: bool) -> bool {
    virtqueue(after) == if taken {
        virtqueue(before).taken()
    } else {
        virtqueue(before)
    }
}

/// A chain is there, and has this head index.
pub open spec fn has_chain(chain: Option<Chain<'_>>, head: u16) -> bool {
    chain matches Some(chain) && chain_head(chain) == head
}

/// The count of returned chains, or the position of a queue, after it has advanced `n` times.
pub open spec fn advanced(count: u16, n: nat) -> u16 {
    ((count + n) % 0x1_0000) as u16
}

/// A queue that has taken a chain and gone back by one is where it was.
pub proof fn law_going_back_undoes_taking(before: Queue, taken: Queue, after: Queue)
    requires
        moves_on(before, taken, true),
        moves_on(after, taken, true),
    ensures
        stays_in_place(before, after),
{
}

/// Takes the next chain with `virtio_queue::QueueOwnedT::iter`, together with its head index.
///
/// It is claimed that the queue moves on by one chain if there was one, and stays where it
/// is if there was none or the ring could not be read; that the head index is that of the
/// chain; and that the call fails for a queue that is not set up or whose ring has no
/// accessible index. Whether there is a chain otherwise is left unsaid: the guest may write
/// to the ring at any time.
#[verifier::external_body]
pub(crate) fn iter_next<'a>(queue: &mut Queue, memory: &'a GuestMemoryMmap<AtomicBitmap>) -> (
    result: Result<Option<(u16, Chain<'a>)>, ()>)
    ensures
        moves_on(*old(queue), *final(queue), result matches Ok(Some(_))),
        result matches Ok(Some((head, chain))) ==> chain_head(chain) == head,
        !queue_ready(*old(queue)) ==> result is Err,
        queue_avail_ring(*old(queue)) == 0 ==> result is Err,
        !virtqueue(*old(queue)).avail_index_fits(guest_regions(*memory)) ==> result is Err,
{
    match queue.iter(memory) {
        Ok(mut chains) => match chains.next() {
            Some(chain) => Ok(Some((chain.head_index(), chain))),
            None => Ok(None),
        },
        Err(_) => Err(()),
    }
}

/// Takes the next chain with `virtio_queue::QueueT::pop_descriptor_chain`, together with its
/// head index.
///
/// It is claimed that the queue moves on by one chain if there was one, and stays where it
/// is if not; that the head index is that of the chain; and that there is none in a queue
/// that is not set up or whose ring has no accessible index. Whether there is a chain
/// otherwise is left unsaid: the guest may write to the ring at any time.
#[verifier::external_body]
pub(crate) fn pop_descriptor_chain<'a>(
    queue: &mut Queue,
    memory: &'a GuestMemoryMmap<AtomicBitmap>,
) -> (result: Option<(u16, Chain<'a>)>)
    ensures
        moves_on(*old(queue), *final(queue), result is Some),
        result matches Some((head, chain)) ==> chain_head(chain) == head,
        !virtqueue(*old(queue)).usable(guest_regions(*memory)) ==> result is None,
{
    match queue.pop_descriptor_chain(memory) {
        Some(chain) => Some((chain.head_index(), chain)),
        None => None,
    }
}

/// Takes the next descriptor of a chain, which `virtio-queue` offers as an iterator, as its
/// address and its length.
///
/// It is claimed that the head index of the chain stays the same. What the descriptor says is
/// left unsaid: it lies in guest memory.
#[verifier::external_body]
pub(crate) fn next_descriptor(chain: &mut Chain<'_>) -> (result: Option<(u64, u32)>)
    ensures
        chain_head(*final(chain)) == chain_head(*old(chain)),
{
    match chain.next() {
        Some(descriptor) => Some((descriptor.addr().0, descriptor.len())),
        None => None,
    }
}

/// Moves the queue back by one chain with
/// `virtio_queue::QueueOwnedT::go_to_previous_position`.
#[verifier::external_body]
pub(crate) fn go_to_previous_position(queue: &mut Queue)
    ensures
        queue_position(*old(queue)) == next_position(queue_position(*final(queue))),
        moves_on(*final(queue), *old(queue), true),
{
    queue.go_to_previous_position();
}

/// Returns a chain to the guest with `virtio_queue::QueueT::add_used`.
///
/// It is claimed that this succeeds exactly if the queue has the head index and both the next
/// element and the index of the ring of used chains can be written; and that the count of
/// returned chains advances by one exactly if the element can be written. What the ring holds
/// afterwards is left unsaid: the guest may write to it at any time.
#[verifier::external_body]
pub(crate) fn add_used(
    queue: &mut Queue,
    memory: &GuestMemoryMmap<AtomicBitmap>,
    head_index: u16,
    len: u32,
) -> (result: Result<(), ()>)
    ensures
        result is Ok <==> virtqueue(*old(queue)).used_fits(guest_regions(*memory), head_index),
        virtqueue(*final(queue)) == virtqueue(*old(queue)).returned(
            guest_regions(*memory),
            head_index,
        ),
        result is Ok ==> queue_next_used(*final(queue)) == next_position(
            queue_next_used(*old(queue)),
        ),
        queue_used_ring(*final(queue)) == queue_used_ring(*old(queue)),
{
    match queue.add_used(memory, head_index, len) {
        Ok(()) => Ok(()),
        Err(_) => Err(()),
    }
}

/// Asks the guest for notifications with `virtio_queue::QueueT::enable_notification`, which
/// tells whether there are more chains.
///
/// It is claimed that this succeeds exactly if the event index or the flags can be written and
/// the index of the ring of available chains can be read. What it tells is left unsaid: the
/// guest may write to the ring at any time.
#[verifier::external_body]
pub(crate) fn enable_notification(queue: &mut Queue, memory: &GuestMemoryMmap<AtomicBitmap>) -> (
    result: Result<bool, ()>)
    ensures
        stays_in_place(*old(queue), *final(queue)),
        result is Ok <==> virtqueue(*old(queue)).notification_fits(guest_regions(*memory)),
{
    match queue.enable_notification(memory) {
        Ok(more) => Ok(more),
        Err(_) => Err(()),
    }
}

/// Finds out whether the guest wants to be notified of returned chains with
/// `virtio_queue::QueueT::needs_notification`.
///
/// It is claimed that without event indices the guest wants every notification, and that with
/// them the call succeeds exactly if the event index behind the ring of available chains can
/// be read. What the guest then wants is left unsaid: it may change its mind at any time.
#[verifier::external_body]
pub(crate) fn needs_notification(queue: &mut Queue, memory: &GuestMemoryMmap<AtomicBitmap>) -> (
    result: Result<bool, ()>)
    ensures
        stays_in_place(*old(queue), *final(queue)),
        !queue_event_idx(*old(queue)) ==> (result matches Ok(needed) && needed),
        queue_event_idx(*old(queue)) ==> (result is Ok <==> word_accessible(
            guest_regions(*memory),
            queue_avail_ring(*old(queue)) + 4 + 2 * queue_size(*old(queue)),
        )),
{
    match queue.needs_notification(memory) {
        Ok(needed) => Ok(needed),
        Err(_) => Err(()),
    }
}

/// The number of chains that a queue can hold, from `virtio_queue::QueueT::size`.
#[verifier::external_body]
pub(crate) fn size(queue: &Queue) -> (size: u16)
    ensures
        size == queue_size(*queue),
{
    queue.size()
}

/// Sets whether a queue uses event indices with `virtio_queue::QueueT::set_event_idx`.
#[verifier::external_body]
pub(crate) fn set_event_idx(queue: &mut Queue, enabled: bool)
    ensures
        queue_event_idx(*final(queue)) == enabled,
        virtqueue(*final(queue)) == (VirtqueueView {
            event_idx: enabled,
            ..virtqueue(*old(queue))
        }),
{
    queue.set_event_idx(enabled);
}

} // verus!
