use cloud_hypervisor::ctrl_queue::{
    header_from_bytes, is_tolerated_ctrl_command, ControlHeader, CtrlAction, CtrlEvent, CtrlPhase, CtrlQueue, Error,
};
use cloud_hypervisor::virtio::{
    VIRTIO_NET_CTRL_ANNOUNCE, VIRTIO_NET_CTRL_ANNOUNCE_ACK, VIRTIO_NET_CTRL_GUEST_OFFLOADS,
    VIRTIO_NET_CTRL_MQ, VIRTIO_NET_CTRL_RX, VIRTIO_NET_CTRL_VLAN, VIRTIO_NET_ERR, VIRTIO_NET_OK,
};
use virtio_bindings::virtio_ring::{VRING_DESC_F_NEXT, VRING_DESC_F_WRITE};
use virtio_queue::{Queue, QueueT};
use vm_memory::bitmap::AtomicBitmap;
use vm_memory::{Bytes, GuestAddress, GuestMemoryMmap};

const DESC_TABLE: u64 = 0;
const AVAIL_RING: u64 = 0x400;
const USED_RING: u64 = 0x800;

fn queue() -> Queue {
    let mut queue = Queue::new(16).unwrap();
    queue.set_size(16);
    queue.set_desc_table_address(Some(DESC_TABLE as u32), Some(0));
    queue.set_avail_ring_address(Some(AVAIL_RING as u32), Some(0));
    queue.set_used_ring_address(Some(USED_RING as u32), Some(0));
    queue.set_ready(true);
    queue
}

fn set_descriptor(mem: &GuestMemoryMmap<AtomicBitmap>, i: u64, addr: u64, len: u32, flags: u32, next: u16) {
    let at = DESC_TABLE + 16 * i;
    mem.write_obj(addr, GuestAddress(at)).unwrap();
    mem.write_obj(len, GuestAddress(at + 8)).unwrap();
    mem.write_obj(flags as u16, GuestAddress(at + 12)).unwrap();
    mem.write_obj(next, GuestAddress(at + 14)).unwrap();
}

fn publish(mem: &GuestMemoryMmap<AtomicBitmap>, heads: &[u16]) {
    for (i, head) in heads.iter().enumerate() {
        mem.write_obj(*head, GuestAddress(AVAIL_RING + 4 + 2 * i as u64))
            .unwrap();
    }
    mem.write_obj(heads.len() as u16, GuestAddress(AVAIL_RING + 2))
        .unwrap();
}

/// Processes a queue in guest memory. A tap device can be set up unless it is listed, and
/// addresses are translated by a distance if there is one.
fn process_translated(
    ctrl: &mut CtrlQueue,
    mem: &GuestMemoryMmap<AtomicBitmap>,
    queue: &mut Queue,
    broken_taps: &[usize],
    offloads: &mut Vec<(usize, u64)>,
    distance: Option<u64>,
) -> Result<(), Error> {
    let mut chain = None;
    let mut phase = CtrlPhase::Popping;
    loop {
        phase = ctrl.process(mem, queue, &mut chain, phase, distance.is_some());
        let event = match phase.action() {
            CtrlAction::PopChain => continue,
            CtrlAction::Translate(addr, _) => CtrlEvent::Value(Ok(addr + distance.unwrap())),
            CtrlAction::SetOffload(tap, features) => {
                offloads.push((tap, features));
                CtrlEvent::Done(!broken_taps.contains(&tap))
            }
            CtrlAction::Finish(result) => return result,
            action => panic!("{action:?} is performed by the library"),
        };
        phase = ctrl.advance(phase, event);
    }
}

fn process(
    ctrl: &mut CtrlQueue,
    mem: &GuestMemoryMmap<AtomicBitmap>,
    queue: &mut Queue,
    broken_taps: &[usize],
    offloads: &mut Vec<(usize, u64)>,
) -> Result<(), Error> {
    process_translated(ctrl, mem, queue, broken_taps, offloads, None)
}

fn memory() -> GuestMemoryMmap<AtomicBitmap> {
    GuestMemoryMmap::from_ranges(&[(GuestAddress(0), 0x10000)]).unwrap()
}

#[test]
fn test_process_announce_ack() {
    // The guest acknowledges the post-migration request on the control
    // queue, which clears the pending announce state in the device model.
    // This test builds the minimal virtqueue request for that command:
    // one readable descriptor for the control header, followed by one
    // writable descriptor where the device stores the command status.
    let mem = memory();
    let mut queue = queue();

    let ctrl_addr = GuestAddress(0x1000);
    let status_addr = GuestAddress(0x1100);
    mem.write_obj(
        [
            VIRTIO_NET_CTRL_ANNOUNCE as u8,
            VIRTIO_NET_CTRL_ANNOUNCE_ACK as u8,
        ],
        ctrl_addr,
    )
    .unwrap();
    mem.write_obj(0xffu8, status_addr).unwrap();

    // Descriptor 0 contains the control header and points to descriptor 1.
    set_descriptor(&mem, 0, ctrl_addr.0, 2, VRING_DESC_F_NEXT, 1);
    // Descriptor 1 is the writable status byte returned by the device.
    set_descriptor(&mem, 1, status_addr.0, 1, VRING_DESC_F_WRITE, 0);

    // Publish the two-descriptor request to the available ring so that it can
    // be popped and handled.
    publish(&mem, &[0]);

    // Start from the state reached after the migration: the guest still
    // owes us an ANNOUNCE_ACK on the control queue.
    let mut ctrl_q = CtrlQueue::new(0, true);

    process(&mut ctrl_q, &mem, &mut queue, &[], &mut Vec::new()).unwrap();

    // A successful ANNOUNCE_ACK clears the pending flag and reports
    // VIRTIO_NET_OK in the guest-provided status buffer.
    assert!(!ctrl_q.announce_pending);
    assert_eq!(
        mem.read_obj::<u8>(status_addr).unwrap(),
        VIRTIO_NET_OK as u8
    );
    // The chain has been returned to the guest.
    assert_eq!(
        mem.read_obj::<u16>(GuestAddress(USED_RING + 2)).unwrap(),
        1
    );
}

/// Sends one command with data, and returns the status that the guest gets.
fn command(ctrl: &mut CtrlQueue, class: u32, cmd: u8, data: u64, broken_taps: &[usize]) -> u8 {
    let mem = memory();
    let mut queue = queue();
    mem.write_obj([class as u8, cmd], GuestAddress(0x1000))
        .unwrap();
    mem.write_obj(data, GuestAddress(0x1080)).unwrap();
    mem.write_obj(0xffu8, GuestAddress(0x1100)).unwrap();
    set_descriptor(&mem, 0, 0x1000, 2, VRING_DESC_F_NEXT, 1);
    if class == VIRTIO_NET_CTRL_ANNOUNCE {
        set_descriptor(&mem, 1, 0x1100, 1, VRING_DESC_F_WRITE, 0);
    } else {
        set_descriptor(&mem, 1, 0x1080, 8, VRING_DESC_F_NEXT, 2);
        set_descriptor(&mem, 2, 0x1100, 1, VRING_DESC_F_WRITE, 0);
    }
    publish(&mem, &[0]);
    let mut offloads = Vec::new();
    process(ctrl, &mem, &mut queue, broken_taps, &mut offloads).unwrap();
    if class == VIRTIO_NET_CTRL_GUEST_OFFLOADS && cmd == 0 {
        let expected: Vec<(usize, u64)> = (0..ctrl.taps).map(|tap| (tap, data)).collect();
        assert_eq!(offloads, expected);
    } else {
        assert!(offloads.is_empty());
    }
    mem.read_obj(GuestAddress(0x1100)).unwrap()
}

const OK: u8 = VIRTIO_NET_OK as u8;
const ERR: u8 = VIRTIO_NET_ERR as u8;

#[test]
fn number_of_queue_pairs_must_be_in_range() {
    let mut ctrl = CtrlQueue::new(2, true);
    assert_eq!(command(&mut ctrl, VIRTIO_NET_CTRL_MQ, 0, 0, &[]), ERR);
    assert_eq!(command(&mut ctrl, VIRTIO_NET_CTRL_MQ, 0, 1, &[]), OK);
    assert_eq!(command(&mut ctrl, VIRTIO_NET_CTRL_MQ, 0, 0x8000, &[]), OK);
    assert_eq!(command(&mut ctrl, VIRTIO_NET_CTRL_MQ, 0, 0x8001, &[]), ERR);
    assert_eq!(command(&mut ctrl, VIRTIO_NET_CTRL_MQ, 1, 1, &[]), ERR);
    assert!(ctrl.announce_pending);
}

#[test]
fn offloads_are_set_on_every_tap() {
    let mut ctrl = CtrlQueue::new(3, false);
    let class = VIRTIO_NET_CTRL_GUEST_OFFLOADS;
    assert_eq!(command(&mut ctrl, class, 0, 0x1234, &[]), OK);
    // One broken tap device makes the command fail, but the others are set up.
    assert_eq!(command(&mut ctrl, class, 0, 0x1234, &[1]), ERR);
    assert_eq!(command(&mut ctrl, class, 1, 0x1234, &[]), ERR);
}

#[test]
fn some_commands_are_tolerated() {
    let mut ctrl = CtrlQueue::new(0, true);
    for cmd in 0..=5 {
        assert_eq!(command(&mut ctrl, VIRTIO_NET_CTRL_RX, cmd, 0, &[]), OK);
    }
    assert_eq!(command(&mut ctrl, VIRTIO_NET_CTRL_RX, 6, 0, &[]), ERR);
    assert_eq!(command(&mut ctrl, VIRTIO_NET_CTRL_VLAN, 0, 0, &[]), OK);
    assert_eq!(command(&mut ctrl, VIRTIO_NET_CTRL_VLAN, 1, 0, &[]), OK);
    assert_eq!(command(&mut ctrl, VIRTIO_NET_CTRL_VLAN, 2, 0, &[]), ERR);
    assert_eq!(command(&mut ctrl, 77, 0, 0, &[]), ERR);
    assert_eq!(command(&mut ctrl, VIRTIO_NET_CTRL_ANNOUNCE, 1, 0, &[]), ERR);
    assert!(ctrl.announce_pending);
    assert!(is_tolerated_ctrl_command(ControlHeader { class: 2, cmd: 1 }));
    assert!(!is_tolerated_ctrl_command(ControlHeader { class: 1, cmd: 0 }));
    assert_eq!(ControlHeader::default(), ControlHeader { class: 0, cmd: 0 });
}

#[test]
fn several_chains_are_processed() {
    let mem = memory();
    let mut queue = queue();
    for i in 0..3u16 {
        let at = 0x1000 + 0x100 * u64::from(i);
        mem.write_obj([VIRTIO_NET_CTRL_ANNOUNCE as u8, 9], GuestAddress(at))
            .unwrap();
        set_descriptor(&mem, 2 * u64::from(i), at, 2, VRING_DESC_F_NEXT, 2 * i + 1);
        set_descriptor(
            &mem,
            2 * u64::from(i) + 1,
            at + 0x80,
            1,
            VRING_DESC_F_WRITE,
            0,
        );
    }
    publish(&mem, &[0, 2, 4]);
    let mut ctrl = CtrlQueue::new(0, true);
    process(&mut ctrl, &mem, &mut queue, &[], &mut Vec::new()).unwrap();
    for i in 0..3u64 {
        let status: u8 = mem.read_obj(GuestAddress(0x1080 + 0x100 * i)).unwrap();
        assert_eq!(status, ERR);
    }
    assert_eq!(
        mem.read_obj::<u16>(GuestAddress(USED_RING + 2)).unwrap(),
        3
    );
}

#[test]
fn incomplete_chains_are_errors() {
    // Only a header.
    let mem = memory();
    mem.write_obj([VIRTIO_NET_CTRL_MQ as u8, 0], GuestAddress(0x1000))
        .unwrap();
    set_descriptor(&mem, 0, 0x1000, 2, 0, 0);
    publish(&mem, &[0]);
    let mut ctrl = CtrlQueue::new(0, true);
    assert_eq!(
        process(&mut ctrl, &mem, &mut queue(), &[], &mut Vec::new()),
        Err(Error::NoDataDescriptor)
    );

    // No status.
    set_descriptor(&mem, 0, 0x1000, 2, VRING_DESC_F_NEXT, 1);
    set_descriptor(&mem, 1, 0x1080, 2, 0, 0);
    assert_eq!(
        process(&mut ctrl, &mem, &mut queue(), &[], &mut Vec::new()),
        Err(Error::NoStatusDescriptor)
    );

    // The header lies outside of the memory.
    set_descriptor(&mem, 0, 0x2_0000, 2, VRING_DESC_F_NEXT, 1);
    assert_eq!(
        process(&mut ctrl, &mem, &mut queue(), &[], &mut Vec::new()),
        Err(Error::GuestMemory)
    );
}

#[test]
fn failures_of_the_queue_are_errors() {
    let mut ctrl = CtrlQueue::new(0, true);
    assert_eq!(
        ctrl.advance(CtrlPhase::NextHeader(3), CtrlEvent::Descriptor(None)),
        CtrlPhase::Finished(Err(Error::NoControlHeaderDescriptor))
    );
    assert_eq!(
        ctrl.advance(CtrlPhase::AddingUsed(3), CtrlEvent::Done(false)),
        CtrlPhase::Finished(Err(Error::QueueAddUsed))
    );
    assert_eq!(
        ctrl.advance(
            CtrlPhase::EnablingNotification,
            CtrlEvent::Enabled(Err(()))
        ),
        CtrlPhase::Finished(Err(Error::QueueEnableNotification))
    );
    assert_eq!(
        ctrl.advance(CtrlPhase::EnablingNotification, CtrlEvent::Enabled(Ok(true))),
        CtrlPhase::Popping
    );
}

#[test]
fn addresses_are_translated() {
    let mem = memory();
    let mut queue = queue();
    mem.write_obj([VIRTIO_NET_CTRL_MQ as u8, 0], GuestAddress(0x9000))
        .unwrap();
    mem.write_obj(4u16, GuestAddress(0x9080)).unwrap();
    mem.write_obj(0xffu8, GuestAddress(0x9100)).unwrap();
    set_descriptor(&mem, 0, 0x1000, 2, VRING_DESC_F_NEXT, 1);
    set_descriptor(&mem, 1, 0x1080, 2, VRING_DESC_F_NEXT, 2);
    set_descriptor(&mem, 2, 0x1100, 1, VRING_DESC_F_WRITE, 0);
    publish(&mem, &[0]);
    let mut ctrl = CtrlQueue::new(0, true);
    process_translated(
        &mut ctrl,
        &mem,
        &mut queue,
        &[],
        &mut Vec::new(),
        Some(0x8000),
    )
    .unwrap();
    assert_eq!(mem.read_obj::<u8>(GuestAddress(0x9100)).unwrap(), OK);
}

#[test]
fn queue_that_is_not_ready_has_no_chains() {
    let mem = memory();
    publish(&mem, &[0]);
    let mut queue = queue();
    queue.set_ready(false);
    let mut ctrl = CtrlQueue::new(0, true);
    assert_eq!(
        process(&mut ctrl, &mem, &mut queue, &[], &mut Vec::new()),
        Ok(())
    );
    assert_eq!(queue.next_avail(), 0);
}

#[test]
fn chain_with_an_unknown_head_is_not_read() {
    let mem = memory();
    publish(&mem, &[16]);
    let mut queue = queue();
    let mut ctrl = CtrlQueue::new(0, true);
    assert_eq!(
        process(&mut ctrl, &mem, &mut queue, &[], &mut Vec::new()),
        Err(Error::NoControlHeaderDescriptor)
    );
    // It has been taken nevertheless.
    assert_eq!(queue.next_avail(), 1);
    let mut chain = None;
    assert_eq!(
        ctrl.process(
            &mem,
            &mut queue,
            &mut chain,
            CtrlPhase::AddingUsed(16),
            false
        ),
        CtrlPhase::Finished(Err(Error::QueueAddUsed))
    );
}

#[test]
fn class_comes_before_command() {
    assert_eq!(
        header_from_bytes(&[3, 1]),
        ControlHeader { class: 3, cmd: 1 }
    );
    let mut ctrl = CtrlQueue::new(0, true);
    assert_eq!(
        ctrl.advance(
            CtrlPhase::ReadingHeader(7, 0x1000),
            CtrlEvent::Bytes(Ok(vec![4, 0]))
        ),
        CtrlPhase::NextData(7, ControlHeader { class: 4, cmd: 0 })
    );
    assert_eq!(
        ctrl.advance(
            CtrlPhase::ReadingHeader(7, 0x1000),
            CtrlEvent::Bytes(Err(()))
        ),
        CtrlPhase::Finished(Err(Error::GuestMemory))
    );
    // The lowest byte of a number comes first.
    assert_eq!(
        command(&mut ctrl, VIRTIO_NET_CTRL_MQ, 0, 0x0080, &[]),
        OK
    );
    assert_eq!(
        command(&mut ctrl, VIRTIO_NET_CTRL_MQ, 0, 0x8001, &[]),
        ERR
    );
}
