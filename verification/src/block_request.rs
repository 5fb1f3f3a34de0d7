//! Block requests and the rules that decide whether a device may run them.

use vstd::prelude::*;

use crate::bits::{bit64, lemma_test_bit64};
use crate::virtio::VIRTIO_BLK_F_RO;

verus! {

/// What a block request asks for.
#[derive(Clone, Copy, Debug, PartialEq, Eq, Structural)]
pub enum RequestType {
    /// Read from the disk into guest memory.
    In,
    /// Write from guest memory to the disk.
    Out,
    /// Flush the write cache.
    Flush,
    /// Read the serial number.
    GetDeviceId,
    /// Deallocate a range of sectors.
    Discard,
    /// Fill a range of sectors with zeroes.
    WriteZeroes,
    /// Any other request, with its number.
    Unsupported(u32),
}

/// Why a block request is not run.
#[derive(Clone, Copy, Debug, PartialEq, Eq, Structural)]
pub enum ExecuteError {
    /// The device, or the sector, must not be written.
    ReadOnly,
}

/// A block request as it was read from a descriptor chain.
#[derive(Debug)]
pub struct Request {
    /// What is asked for.
    pub request_type: RequestType,
    /// The first sector.
    pub sector: u64,
    /// Guest address and length of each data buffer.
    pub data_descriptors: Vec<(u64, u32)>,
    /// Guest address of the status byte.
    pub status_addr: u64,
    /// Whether the write cache was on when the request was submitted.
    pub writeback: bool,
}

/// The total length of the data buffers.
pub open spec fn total_len(descriptors: Seq<(u64, u32)>) -> int
    decreases descriptors.len(),
{
    if descriptors.len() == 0 {
        0
    } else {
        total_len(descriptors.drop_last()) + descriptors.last().1
    }
}

/// The total length of the data buffers as a 64 bit number that wraps around.
pub open spec fn wrapped_len(descriptors: Seq<(u64, u32)>) -> u64 {
    (total_len(descriptors) % 0x1_0000_0000_0000_0000) as u64
}

pub(crate) proof fn lemma_total_len_nonneg(descriptors: Seq<(u64, u32)>)
    ensures
        total_len(descriptors) >= 0,
    decreases descriptors.len(),
{
    if descriptors.len() > 0 {
        lemma_total_len_nonneg(descriptors.drop_last());
    }
}

impl Request {
    /// The request with its write cache mode set.
    pub open spec fn with_writeback(self, writeback: bool) -> Request {
        Request { writeback, ..self }
    }

    /// The request moves data between the disk and guest memory.
    pub open spec fn moves_data(self) -> bool {
        self.request_type == RequestType::In || self.request_type == RequestType::Out
    }

    /// The total length of the data buffers, which wraps around.
    pub fn data_len(&self) -> (len: u64)
        ensures
            len == wrapped_len(self.data_descriptors@),
    {
        let mut bytes: u64 = 0;
        let mut i: usize = 0;
        while i < self.data_descriptors.len()
            invariant
                i <= self.data_descriptors@.len(),
                bytes == wrapped_len(self.data_descriptors@.take(i as int)),
            decreases self.data_descriptors@.len() - i,
        {
            let ghost before = self.data_descriptors@.take(i as int);
            let ghost after = self.data_descriptors@.take(i + 1);
            let (_, data_len) = self.data_descriptors[i];
            proof {
                assert(after.drop_last() =~= before);
                lemma_total_len_nonneg(before);
                lemma_total_len_nonneg(after);
                vstd::arithmetic::div_mod::lemma_add_mod_noop(
                    total_len(before),
                    data_len as int,
                    0x1_0000_0000_0000_0000,
                );
            }
            bytes = bytes.wrapping_add(data_len as u64);
            i = i + 1;
        }
        assert(self.data_descriptors@.take(i as int) =~= self.data_descriptors@);
        bytes
    }
}

/// Whether a feature bit is set.
pub fn has_feature(features: u64, feature_flag: u64) -> (set: bool)
    requires
        feature_flag < 64,
    ensures
        set == bit64(features, feature_flag),
{
    proof {
        lemma_test_bit64(features, feature_flag);
    }
    (features & (1u64 << feature_flag)) != 0
}

/// A device with these features must not run a request of this type.
pub open spec fn read_only_violation(features: u64, request_type: RequestType) -> bool {
    bit64(features, VIRTIO_BLK_F_RO as u64) && request_type != RequestType::In && request_type
        != RequestType::GetDeviceId && request_type != RequestType::Flush
}

/// The request writes to the first sector while that is disabled.
pub open spec fn sector0_violation(request: Request, disable_sector0_writes: bool) -> bool {
    request.request_type == RequestType::Out && disable_sector0_writes && request.sector == 0
}

/// The lengths of data buffers add up, and wrap around.
pub proof fn law_buffer_lengths_add_up(a: Seq<(u64, u32)>, b: Seq<(u64, u32)>, buffer: (u64, u32))
    ensures
        total_len(a + b) == total_len(a) + total_len(b),
        total_len(seq![buffer]) == buffer.1,
        total_len(Seq::<(u64, u32)>::empty()) == 0,
        total_len(a) <= u64::MAX ==> wrapped_len(a) == total_len(a),
        wrapped_len(seq![buffer]) == buffer.1,
    decreases b.len(),
{
    reveal_with_fuel(total_len, 2);
    lemma_total_len_nonneg(a);
    assert(seq![buffer].drop_last() =~= Seq::<(u64, u32)>::empty());
    if b.len() == 0 {
        assert(a + b =~= a);
    } else {
        law_buffer_lengths_add_up(a, b.drop_last(), buffer);
        assert((a + b).drop_last() =~= a + b.drop_last());
        assert((a + b).last() == b.last());
    }
}

/// A read-only device reads, flushes and shows its serial number, and does nothing else. Any other
/// device does whatever is asked for.
pub proof fn law_read_only_device_changes_nothing(features: u64, request_type: RequestType)
    ensures
        bit64(features, VIRTIO_BLK_F_RO as u64) ==> (!read_only_violation(features, request_type)
            <==> match request_type {
            RequestType::In => true,
            RequestType::Flush => true,
            RequestType::GetDeviceId => true,
            RequestType::Out => false,
            RequestType::Discard => false,
            RequestType::WriteZeroes => false,
            RequestType::Unsupported(_) => false,
        }),
        !bit64(features, VIRTIO_BLK_F_RO as u64) ==> !read_only_violation(features, request_type),
{
}

/// Where writes to the first sector are disabled, a write that starts there is refused, and no
/// other request is for that reason.
pub proof fn law_first_sector_is_protected(request: Request, disable_sector0_writes: bool)
    ensures
        sector0_violation(request, disable_sector0_writes) ==> disable_sector0_writes
            && request.sector == 0 && request.request_type is Out,
        disable_sector0_writes && request.sector == 0 && request.request_type is Out
            ==> sector0_violation(request, disable_sector0_writes),
{
}

/// Checks whether a device may run a request.
///
/// For virtio spec compliance: "A device MUST set the status byte to
/// VIRTIO_BLK_S_IOERR for a write request if the VIRTIO_BLK_F_RO feature if offered,
/// and MUST NOT write any data."
pub fn check_request(features: u64, request: &Request, disable_sector0_writes: bool) -> (result:
    Result<(), ExecuteError>)
    ensures
        (read_only_violation(features, request.request_type) || sector0_violation(
            *request,
            disable_sector0_writes,
        )) ==> result == Err::<(), ExecuteError>(ExecuteError::ReadOnly),
        !(read_only_violation(features, request.request_type) || sector0_violation(
            *request,
            disable_sector0_writes,
        )) ==> result == Ok::<(), ExecuteError>(()),
{
    let request_type = request.request_type;
    if has_feature(features, VIRTIO_BLK_F_RO as u64) && !(request_type == RequestType::In
        || request_type == RequestType::GetDeviceId || request_type == RequestType::Flush) {
        return Err(ExecuteError::ReadOnly);
    }
    if request_type == RequestType::Out && disable_sector0_writes && request.sector == 0 {
        return Err(ExecuteError::ReadOnly);
    }
    Ok(())
}

} // verus!
