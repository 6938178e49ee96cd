//! The guest-side descriptor through which byte buffers cross the host
//! boundary: a fixed layout of offset, capacity and used length, each an
//! unsigned 32-bit field, because the sandboxed linear address space is
//! defined to span at most 4 GiB.

use vstd::prelude::*;

verus! {

/// Describes a buffer inside the guest's linear memory for the host's reader.
///
/// The field order is the wire layout the host relies on: offset, capacity,
/// length. A well-formed descriptor never claims more used bytes than it has
/// capacity for.
pub struct Region {
    /// The beginning of the region expressed as bytes from the beginning of
    /// the linear memory.
    pub offset: u32,
    /// The number of bytes available in this region.
    pub capacity: u32,
    /// The number of bytes used in this region.
    pub length: u32,
}

impl Region {
    /// A descriptor must never expose more used bytes than its capacity.
    pub open spec fn well_formed(self) -> bool {
        self.length <= self.capacity
    }
}

/// Relies on `<[u8]>::as_ptr`, read as an integer: the buffer's address in
/// the guest's linear memory. The address depends on where the allocator put
/// the buffer, so nothing is stated of the result.
#[verifier::external_body]
fn buffer_address(data: &[u8]) -> usize {
    data.as_ptr() as usize
}

/// Relies on `u32::try_from`: the exact value whenever it fits in 32 bits.
/// The sandboxed address space is defined to be at most 4 GiB, so an address
/// that does not fit indicates a corrupted runtime: this call aborts the
/// process rather than truncate or propagate a typed error.
#[verifier::external_body]
fn address_to_offset(addr: usize) -> (r: u32)
    ensures
        addr <= u32::MAX ==> r == addr,
{
    u32::try_from(addr).expect("pointer doesn't fit in u32")
}

/// Relies on `core::mem::forget`: gives up the buffer without running its
/// destructor, so the allocation stays live for the host to read and later
/// return through the guest's deallocation path.
#[verifier::external_body]
fn forget_buffer(buffer: Vec<u8>) {
    core::mem::forget(buffer)
}

/// Relies on `Box::into_raw`: hands the descriptor's allocation to the host
/// and returns its address, which is never null for a heap allocation.
#[verifier::external_body]
fn leak_region(region: Box<Region>) -> (r: usize)
    ensures
        r != 0,
{
    Box::into_raw(region) as usize
}

/// Builds the descriptor for a buffer whose offset in linear memory is
/// already known. A described buffer is always reported as exactly full:
/// capacity and length both equal the buffer's byte count.
pub fn region_for_buffer(offset: u32, data: &[u8]) -> (r: Box<Region>)
    requires
        data@.len() <= u32::MAX,
    ensures
        r.offset == offset,
        r.capacity == data@.len(),
        r.length == data@.len(),
        r.well_formed(),
{
    let len = data.len();
    build_region_from_components(offset, len as u32, len as u32)
}

/// Builds a descriptor from its three fields. The constructor enforces the
/// descriptor invariant: the used length never exceeds the capacity.
pub fn build_region_from_components(offset: u32, capacity: u32, length: u32) -> (r: Box<Region>)
    requires
        length <= capacity,
    ensures
        r.offset == offset,
        r.capacity == capacity,
        r.length == length,
        r.well_formed(),
{
    Box::new(Region { offset, capacity, length })
}

/// Describes a borrowed buffer without taking ownership: the caller must keep
/// the bytes alive until the host has read them. The descriptor reports the
/// buffer as exactly full (capacity equals length equals the byte count).
pub fn build_region(data: &[u8]) -> (r: Box<Region>)
    requires
        data@.len() <= u32::MAX,
    ensures
        r.capacity == data@.len(),
        r.length == data@.len(),
        r.well_formed(),
{
    let offset = address_to_offset(buffer_address(data));
    region_for_buffer(offset, data)
}

/// Transfers an owned buffer to the host: builds its descriptor, abandons
/// ownership of the bytes (the host frees them through the guest's allocator),
/// and returns the descriptor's address for the boundary crossing. After this
/// call the buffer is the host's; the guest must not touch it again.
pub fn release_buffer(buffer: Vec<u8>) -> (r: usize)
    requires
        buffer@.len() <= u32::MAX,
    ensures
        r != 0,
{
    let region = build_region(buffer.as_slice());
    forget_buffer(buffer);
    leak_region(region)
}

} // verus!
