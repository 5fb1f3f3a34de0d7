use cloud_hypervisor::{fcntl, virtio};
use virtio_bindings::{virtio_blk, virtio_config, virtio_net, virtio_ring};

#[test]
fn virtio_constants() {
    assert_eq!(virtio::VIRTIO_BLK_F_SEG_MAX, virtio_blk::VIRTIO_BLK_F_SEG_MAX);
    assert_eq!(virtio::VIRTIO_BLK_F_RO, virtio_blk::VIRTIO_BLK_F_RO);
    assert_eq!(virtio::VIRTIO_BLK_F_BLK_SIZE, virtio_blk::VIRTIO_BLK_F_BLK_SIZE);
    assert_eq!(virtio::VIRTIO_BLK_F_FLUSH, virtio_blk::VIRTIO_BLK_F_FLUSH);
    assert_eq!(virtio::VIRTIO_BLK_F_TOPOLOGY, virtio_blk::VIRTIO_BLK_F_TOPOLOGY);
    assert_eq!(virtio::VIRTIO_BLK_F_CONFIG_WCE, virtio_blk::VIRTIO_BLK_F_CONFIG_WCE);
    assert_eq!(virtio::VIRTIO_BLK_F_MQ, virtio_blk::VIRTIO_BLK_F_MQ);
    assert_eq!(virtio::VIRTIO_BLK_F_DISCARD, virtio_blk::VIRTIO_BLK_F_DISCARD);
    assert_eq!(virtio::VIRTIO_BLK_F_WRITE_ZEROES, virtio_blk::VIRTIO_BLK_F_WRITE_ZEROES);
    assert_eq!(virtio::VIRTIO_RING_F_INDIRECT_DESC, virtio_ring::VIRTIO_RING_F_INDIRECT_DESC);
    assert_eq!(virtio::VIRTIO_RING_F_EVENT_IDX, virtio_ring::VIRTIO_RING_F_EVENT_IDX);
    assert_eq!(virtio::VIRTIO_F_VERSION_1, virtio_config::VIRTIO_F_VERSION_1);
    assert_eq!(virtio::VIRTIO_F_ACCESS_PLATFORM, virtio_config::VIRTIO_F_ACCESS_PLATFORM);
    assert_eq!(virtio::VIRTIO_BLK_S_OK, virtio_blk::VIRTIO_BLK_S_OK);
    assert_eq!(virtio::VIRTIO_BLK_S_IOERR, virtio_blk::VIRTIO_BLK_S_IOERR);
    assert_eq!(virtio::VIRTIO_NET_OK, virtio_net::VIRTIO_NET_OK);
    assert_eq!(virtio::VIRTIO_NET_ERR, virtio_net::VIRTIO_NET_ERR);
    assert_eq!(virtio::VIRTIO_NET_CTRL_RX, virtio_net::VIRTIO_NET_CTRL_RX);
    assert_eq!(virtio::VIRTIO_NET_CTRL_RX_PROMISC, virtio_net::VIRTIO_NET_CTRL_RX_PROMISC);
    assert_eq!(virtio::VIRTIO_NET_CTRL_RX_ALLMULTI, virtio_net::VIRTIO_NET_CTRL_RX_ALLMULTI);
    assert_eq!(virtio::VIRTIO_NET_CTRL_RX_ALLUNI, virtio_net::VIRTIO_NET_CTRL_RX_ALLUNI);
    assert_eq!(virtio::VIRTIO_NET_CTRL_RX_NOMULTI, virtio_net::VIRTIO_NET_CTRL_RX_NOMULTI);
    assert_eq!(virtio::VIRTIO_NET_CTRL_RX_NOUNI, virtio_net::VIRTIO_NET_CTRL_RX_NOUNI);
    assert_eq!(virtio::VIRTIO_NET_CTRL_RX_NOBCAST, virtio_net::VIRTIO_NET_CTRL_RX_NOBCAST);
    assert_eq!(virtio::VIRTIO_NET_CTRL_VLAN, virtio_net::VIRTIO_NET_CTRL_VLAN);
    assert_eq!(virtio::VIRTIO_NET_CTRL_VLAN_ADD, virtio_net::VIRTIO_NET_CTRL_VLAN_ADD);
    assert_eq!(virtio::VIRTIO_NET_CTRL_VLAN_DEL, virtio_net::VIRTIO_NET_CTRL_VLAN_DEL);
    assert_eq!(virtio::VIRTIO_NET_CTRL_ANNOUNCE, virtio_net::VIRTIO_NET_CTRL_ANNOUNCE);
    assert_eq!(virtio::VIRTIO_NET_CTRL_ANNOUNCE_ACK, virtio_net::VIRTIO_NET_CTRL_ANNOUNCE_ACK);
    assert_eq!(virtio::VIRTIO_NET_CTRL_MQ, virtio_net::VIRTIO_NET_CTRL_MQ);
    assert_eq!(virtio::VIRTIO_NET_CTRL_MQ_VQ_PAIRS_SET, virtio_net::VIRTIO_NET_CTRL_MQ_VQ_PAIRS_SET);
    assert_eq!(virtio::VIRTIO_NET_CTRL_MQ_VQ_PAIRS_MIN, virtio_net::VIRTIO_NET_CTRL_MQ_VQ_PAIRS_MIN);
    assert_eq!(virtio::VIRTIO_NET_CTRL_MQ_VQ_PAIRS_MAX, virtio_net::VIRTIO_NET_CTRL_MQ_VQ_PAIRS_MAX);
    assert_eq!(virtio::VIRTIO_NET_CTRL_GUEST_OFFLOADS, virtio_net::VIRTIO_NET_CTRL_GUEST_OFFLOADS);
    assert_eq!(virtio::VIRTIO_NET_CTRL_GUEST_OFFLOADS_SET, virtio_net::VIRTIO_NET_CTRL_GUEST_OFFLOADS_SET);
}

#[test]
fn lock_constants() {
    assert_eq!(fcntl::F_RDLCK, libc::F_RDLCK as i32);
    assert_eq!(fcntl::F_WRLCK, libc::F_WRLCK as i32);
    assert_eq!(fcntl::F_UNLCK, libc::F_UNLCK as i32);
    assert_eq!(fcntl::SEEK_SET, libc::SEEK_SET);
    assert_eq!(fcntl::EINTR, libc::EINTR);
    assert_eq!(fcntl::EAGAIN, libc::EAGAIN);
    assert_eq!(fcntl::EACCES, libc::EACCES);
}
