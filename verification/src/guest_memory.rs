//! Guest memory.

use vm_memory::bitmap::AtomicBitmap;
use vm_memory::{Address, Bytes, GuestAddress, GuestMemory, GuestMemoryMmap};
use vstd::prelude::*;

verus! {

/// The guest memory of `vm-memory`, a collection of regions.
#[verifier::external_type_specification]
#[verifier::external_body]
#[verifier::reject_recursive_types(B)]
pub struct ExGuestMemoryMmap<B>(vm_memory::GuestMemoryMmap<B>);

/// The dirty bitmap that `vm-memory` keeps for a region.
#[verifier::external_type_specification]
#[verifier::external_body]
pub struct ExAtomicBitmap(vm_memory::bitmap::AtomicBitmap);

/// Why guest memory cannot be accessed.
#[derive(Clone, Copy, Debug, PartialEq, Eq, Structural)]
pub enum GuestMemoryError {
    /// The address does not lie in any region.
    InvalidGuestAddress(u64),
    /// The access reaches beyond the end of a region.
    InvalidBackendAddress,
    /// Any other failure.
    Other,
}

/// The regions of the guest memory: the length of each one by its first address.
pub uninterp spec fn guest_regions(memory: GuestMemoryMmap<AtomicBitmap>) -> Map<u64, u64>;

/// An address lies in the region that starts at `start`.
pub open spec fn region_contains(regions: Map<u64, u64>, start: u64, address: u64) -> bool {
    regions.contains_key(start) && start <= address < start + regions[start]
}

/// An address lies in one of the regions.
pub open spec fn in_region(regions: Map<u64, u64>, address: u64) -> bool {
    exists|start: u64| region_contains(regions, start, address)
}

/// `length` bytes from an address on lie in a single region.
pub open spec fn accessible(regions: Map<u64, u64>, address: u64, length: int) -> bool {
    exists|start: u64| #[trigger]
        region_contains(regions, start, address) && address + length <= start + regions[start]
}

/// The error of an access that is not possible.
pub open spec fn access_error(regions: Map<u64, u64>, address: u64) -> GuestMemoryError {
    if in_region(regions, address) {
        GuestMemoryError::InvalidBackendAddress
    } else {
        GuestMemoryError::InvalidGuestAddress(address)
    }
}

/// Reads guest memory with `vm_memory::GuestMemory::get_slice` and
/// `vm_memory::VolatileSlice::copy_to`.
///
/// It is claimed that the read succeeds exactly if all bytes lie in a single region, that an
/// address outside of all regions gives an invalid guest address and an access beyond the
/// end of a region an invalid backend address, and that as many bytes are read as asked
/// for. What the bytes are is left unsaid: the guest may write to them at any time.
#[verifier::external_body]
pub(crate) fn read_guest(memory: &GuestMemoryMmap<AtomicBitmap>, address: u64, length: usize) -> (result:
    Result<Vec<u8>, GuestMemoryError>)
    ensures
        result is Ok <==> accessible(guest_regions(*memory), address, length as int),
        result matches Ok(bytes) ==> bytes@.len() == length,
        result matches Err(e) ==> e == access_error(guest_regions(*memory), address),
{
    match memory.get_slice(GuestAddress::new(address), length) {
        Ok(slice) => {
            let mut bytes: Vec<u8> = vec![0u8; length];
            slice.copy_to(&mut bytes[..]);
            Ok(bytes)
        },
        Err(vm_memory::guest_memory::Error::InvalidGuestAddress(address)) => Err(
            GuestMemoryError::InvalidGuestAddress(address.raw_value()),
        ),
        Err(vm_memory::guest_memory::Error::InvalidBackendAddress) => Err(
            GuestMemoryError::InvalidBackendAddress,
        ),
        Err(_) => Err(GuestMemoryError::Other),
    }
}

/// `length` bytes from an address on lie in regions, of which each one may follow another.
pub open spec fn in_regions(regions: Map<u64, u64>, address: u64, length: int) -> bool {
    forall|i: int|
        0 <= i < length ==> address + i <= u64::MAX && #[trigger] in_region(
            regions,
            (address + i) as u64,
        )
}

/// A word of two bytes at an address can be accessed as a whole: it lies in a single region, at
/// an even offset. Each region is mapped to the start of a page.
pub open spec fn word_accessible(regions: Map<u64, u64>, address: int) -> bool {
    0 <= address <= u64::MAX && exists|start: u64| #[trigger]
        region_contains(regions, start, address as u64) && address + 2 <= start + regions[start]
            && (address - start) % 2 == 0
}

/// Reads guest memory with `vm_memory::Bytes::read_slice`, through which `read_obj` reads too.
///
/// It is claimed that the read succeeds exactly if all bytes lie in regions, and that as many
/// bytes are read as asked for. What the bytes are is left unsaid: the guest may write to
/// them at any time.
#[verifier::external_body]
pub(crate) fn read_slice(memory: &GuestMemoryMmap<AtomicBitmap>, address: u64, length: usize) -> (
    result: Result<Vec<u8>, ()>)
    requires
        length > 0,
    ensures
        result is Ok <==> in_regions(guest_regions(*memory), address, length as int),
        result matches Ok(bytes) ==> bytes@.len() == length,
{
    let mut bytes: Vec<u8> = vec![0u8; length];
    match memory.read_slice(&mut bytes[..], GuestAddress::new(address)) {
        Ok(()) => Ok(bytes),
        Err(_) => Err(()),
    }
}

/// Writes guest memory with `vm_memory::Bytes::write_slice`, through which `write_obj` writes
/// too.
///
/// It is claimed that the write succeeds exactly if all bytes lie in regions. What the memory
/// holds afterwards is left unsaid: the guest may write to it at any time.
#[verifier::external_body]
pub(crate) fn write_slice(memory: &GuestMemoryMmap<AtomicBitmap>, address: u64, bytes: &[u8]) -> (
    result: Result<(), ()>)
    requires
        bytes@.len() > 0,
    ensures
        result is Ok <==> in_regions(guest_regions(*memory), address, bytes@.len() as int),
{
    match memory.write_slice(bytes, GuestAddress::new(address)) {
        Ok(()) => Ok(()),
        Err(_) => Err(()),
    }
}

/// The bytes by which a guest is told a status: the status byte and nothing else.
pub fn status_bytes(status: u8) -> (bytes: Vec<u8>)
    ensures
        bytes@ == seq![status],
{
    let mut bytes: Vec<u8> = Vec::new();
    bytes.push(status);
    assert(bytes@ =~= seq![status]);
    bytes
}

/// Writes a status to guest memory.
pub(crate) fn write_status(memory: &GuestMemoryMmap<AtomicBitmap>, address: u64, status: u8) -> (ok:
    bool)
    ensures
        ok <==> in_regions(guest_regions(*memory), address, 1),
{
    let bytes: Vec<u8> = status_bytes(status);
    write_slice(memory, address, bytes.as_slice()).is_ok()
}

} // verus!
