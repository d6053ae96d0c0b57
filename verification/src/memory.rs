//! The region protocol over a contract's linear memory.
//!
//! A region is a descriptor of three little-endian 32-bit fields: the address
//! of a buffer at offset 0, its capacity at offset 4 and its current length
//! at offset 8. Every buffer that crosses between contract and host is named
//! by the address of its region.

use vstd::prelude::*;
use vstd::slice::slice_subrange;
use vstd::slice::slice_to_vec;
use crate::errors::InterpreterError;

verus! {

/// Bytes that a 32-bit address can reach. Memory beyond them is never read
/// or written, however large the memory handed in.
pub const ADDRESS_SPACE: u64 = 0x1_0000_0000;

/// Whether the `len` bytes from `start` lie inside `mem` and inside the
/// 32-bit address space.
pub open spec fn in_memory(mem: Seq<u8>, start: int, len: int) -> bool {
    0 <= start && 0 <= len && start + len <= mem.len() && start + len <= ADDRESS_SPACE
}

/// Offset of the capacity field inside a region.
pub const REGION_CAPACITY_OFFSET: u32 = 4;

/// Offset of the length field inside a region.
pub const REGION_LENGTH_OFFSET: u32 = 8;

/// The 32-bit value whose little-endian bytes are `b0`, `b1`, `b2`, `b3`.
pub open spec fn le_u32(b0: u8, b1: u8, b2: u8, b3: u8) -> u32 {
    (b0 as int + b1 as int * 0x100 + b2 as int * 0x1_0000 + b3 as int * 0x100_0000) as u32
}

/// The four little-endian bytes of `v`.
pub open spec fn le_bytes(v: u32) -> Seq<u8> {
    seq![
        (v as int % 0x100) as u8,
        (v as int / 0x100 % 0x100) as u8,
        (v as int / 0x1_0000 % 0x100) as u8,
        (v as int / 0x100_0000 % 0x100) as u8,
    ]
}

/// The 32-bit field at `addr`, if all four of its bytes lie inside `mem` and
/// inside the address space.
pub open spec fn read_field(mem: Seq<u8>, addr: int) -> Option<u32> {
    if in_memory(mem, addr, 4) {
        Some(le_u32(mem[addr], mem[addr + 1], mem[addr + 2], mem[addr + 3]))
    } else {
        None
    }
}

/// `mem` with `data` laid over the bytes from `addr` on.
pub open spec fn overlay(mem: Seq<u8>, addr: int, data: Seq<u8>) -> Seq<u8> {
    Seq::new(
        mem.len(),
        |i: int|
            if addr <= i < addr + data.len() {
                data[i - addr]
            } else {
                mem[i]
            },
    )
}

/// The bytes of the buffer that the region at `region` describes: `length`
/// bytes from `address`. `None` when a field or the buffer reaches outside
/// `mem`.
pub open spec fn region_payload(mem: Seq<u8>, region: u32) -> Option<Seq<u8>> {
    match (read_field(mem, region as int), read_field(mem, region as int + 8)) {
        (Some(address), Some(length)) => if in_memory(mem, address as int, length as int) {
            Some(mem.subrange(address as int, address + length))
        } else {
            None
        },
        _ => None,
    }
}

/// How a write of `buffer` into the region at `region` ends.
pub enum RegionWrite {
    /// The address or capacity field lies outside memory.
    NoDescriptor,
    /// The region's capacity is below the buffer's length.
    TooSmall,
    /// The capacity suffices but the buffer would reach outside memory.
    OutsideMemory,
    /// The buffer was copied, then the length field turned out to lie outside
    /// memory.
    NoLengthField,
    /// The buffer was copied and the length field updated.
    Written,
}

/// Classifies a write of `buffer` into the region at `region` of `mem`.
pub open spec fn region_write_kind(mem: Seq<u8>, buffer: Seq<u8>, region: u32) -> RegionWrite {
    match (read_field(mem, region as int), read_field(mem, region as int + 4)) {
        (Some(address), Some(capacity)) => if capacity < buffer.len() {
            RegionWrite::TooSmall
        } else if !in_memory(mem, address as int, buffer.len() as int) {
            RegionWrite::OutsideMemory
        } else if !in_memory(mem, region as int + 8, 4) {
            RegionWrite::NoLengthField
        } else {
            RegionWrite::Written
        },
        _ => RegionWrite::NoDescriptor,
    }
}

/// Memory after a write of `buffer` into the region at `region` of `mem`.
/// Nothing changes unless the buffer fits the capacity and the memory; the
/// length field is set after the copy.
pub open spec fn region_written(mem: Seq<u8>, buffer: Seq<u8>, region: u32) -> Seq<u8> {
    let address = read_field(mem, region as int).unwrap() as int;
    match region_write_kind(mem, buffer, region) {
        RegionWrite::NoLengthField => overlay(mem, address, buffer),
        RegionWrite::Written => overlay(
            overlay(mem, address, buffer),
            region as int + 8,
            le_bytes(buffer.len() as u32),
        ),
        _ => mem,
    }
}

/// Reads the 32-bit field at `addr`.
pub fn get_value(mem: &Vec<u8>, addr: u64) -> (r: Result<u32, InterpreterError>)
    ensures
        r == match read_field(mem@, addr as int) {
            Some(v) => Ok::<u32, InterpreterError>(v),
            None => Err(InterpreterError::Memory),
        },
{
    let len: u64 = mem.len() as u64;
    if len < 4 || addr > len - 4 || addr > ADDRESS_SPACE - 4 {
        return Err(InterpreterError::Memory);
    }
    let a: usize = addr as usize;
    let b0: u32 = mem[a] as u32;
    let b1: u32 = mem[a + 1] as u32;
    let b2: u32 = mem[a + 2] as u32;
    let b3: u32 = mem[a + 3] as u32;
    Ok(b0 + b1 * 0x100 + b2 * 0x1_0000 + b3 * 0x100_0000)
}

/// Copies `data` over the bytes of `mem` from `addr` on.
pub fn write_bytes(mem: &mut Vec<u8>, addr: usize, data: &[u8])
    requires
        addr + data@.len() <= old(mem)@.len(),
    ensures
        final(mem)@ == overlay(old(mem)@, addr as int, data@),
{
    let total: usize = mem.len();
    let mut i: usize = 0;
    while i < data.len()
        invariant
            i <= data@.len(),
            addr + data@.len() <= mem@.len(),
            mem@.len() == total,
            mem@.len() == old(mem)@.len(),
            forall|j: int| 0 <= j < mem@.len() ==> mem@[j] == if addr <= j < addr + i {
                data@[j - addr]
            } else {
                old(mem)@[j]
            },
        decreases data@.len() - i,
    {
        mem.set(addr + i, data[i]);
        i = i + 1;
    }
    assert(mem@ =~= overlay(old(mem)@, addr as int, data@));
}

/// Copies out the buffer that the region at `region` describes.
pub fn extract_vector(mem: &Vec<u8>, region: u32) -> (r: Result<Vec<u8>, InterpreterError>)
    ensures
        match region_payload(mem@, region) {
            Some(bytes) => r is Ok && r.unwrap()@ == bytes,
            None => r == Err::<Vec<u8>, InterpreterError>(InterpreterError::Memory),
        },
{
    let address: u32 = match get_value(mem, region as u64) {
        Ok(v) => v,
        Err(e) => {
            return Err(e);
        },
    };
    let length: u32 = match get_value(mem, region as u64 + REGION_LENGTH_OFFSET as u64) {
        Ok(v) => v,
        Err(e) => {
            return Err(e);
        },
    };
    let end: u64 = address as u64 + length as u64;
    if end > mem.len() as u64 || end > ADDRESS_SPACE {
        return Err(InterpreterError::Memory);
    }
    let bytes = slice_subrange(mem.as_slice(), address as usize, end as usize);
    Ok(slice_to_vec(bytes))
}

/// Writes `buffer` into the buffer of the region at `region` and records its
/// length in the region. The write is refused, with memory untouched, when
/// the region's capacity is below `buffer`'s length: a payload is never cut
/// to fit.
pub fn write_to_allocated_memory(mem: &mut Vec<u8>, buffer: &[u8], region: u32) -> (r: Result<
    u32,
    InterpreterError,
>)
    ensures
        final(mem)@ == region_written(old(mem)@, buffer@, region),
        r == match region_write_kind(old(mem)@, buffer@, region) {
            RegionWrite::Written => Ok::<u32, InterpreterError>(region),
            _ => Err(InterpreterError::Memory),
        },
{
    let address: u32 = match get_value(mem, region as u64) {
        Ok(v) => v,
        Err(e) => {
            return Err(e);
        },
    };
    let capacity: u32 = match get_value(mem, region as u64 + REGION_CAPACITY_OFFSET as u64) {
        Ok(v) => v,
        Err(e) => {
            return Err(e);
        },
    };
    if (capacity as u64) < buffer.len() as u64 {
        return Err(InterpreterError::Memory);
    }
    let end: u64 = address as u64 + buffer.len() as u64;
    if end > mem.len() as u64 || end > ADDRESS_SPACE {
        return Err(InterpreterError::Memory);
    }
    write_bytes(mem, address as usize, buffer);
    if region as u64 + 12 > mem.len() as u64 || region as u64 + 12 > ADDRESS_SPACE {
        return Err(InterpreterError::Memory);
    }
    let length: u32 = buffer.len() as u32;
    let field: [u8; 4] = [
        (length % 0x100) as u8,
        (length / 0x100 % 0x100) as u8,
        (length / 0x1_0000 % 0x100) as u8,
        (length / 0x100_0000 % 0x100) as u8,
    ];
    assert(field@ =~= le_bytes(length));
    write_bytes(mem, region as usize + 8, field.as_slice());
    Ok(region)
}

/// A write into a region whose capacity is below the payload's length never
/// succeeds and leaves every byte of memory as it was.
pub proof fn lemma_oversized_write_refused(mem: Seq<u8>, buffer: Seq<u8>, region: u32)
    requires
        read_field(mem, region as int) is Some,
        read_field(mem, region as int + 4) is Some,
        read_field(mem, region as int + 4).unwrap() < buffer.len(),
    ensures
        region_write_kind(mem, buffer, region) == RegionWrite::TooSmall,
        region_written(mem, buffer, region) == mem,
{
}

/// Whatever the outcome of a write into a region, the only bytes that can
/// differ afterwards lie in the first `capacity` bytes of the region's buffer
/// or in its length field.
pub proof fn lemma_write_stays_in_region(mem: Seq<u8>, buffer: Seq<u8>, region: u32, i: int)
    requires
        0 <= i < mem.len(),
        read_field(mem, region as int) is Some,
        read_field(mem, region as int + 4) is Some,
        !(read_field(mem, region as int).unwrap() <= i < read_field(mem, region as int).unwrap()
            + read_field(mem, region as int + 4).unwrap()),
        !(region + 8 <= i < region + 12),
    ensures
        region_written(mem, buffer, region).len() == mem.len(),
        region_written(mem, buffer, region)[i] == mem[i],
{
}

/// What was written into a region is what the region then describes, as
/// long as the region's buffer lies clear of the region itself.
pub proof fn lemma_written_is_read_back(mem: Seq<u8>, buffer: Seq<u8>, region: u32)
    requires
        region_write_kind(mem, buffer, region) == RegionWrite::Written,
        read_field(mem, region as int).unwrap() + buffer.len() <= region || region + 12
            <= read_field(mem, region as int).unwrap(),
    ensures
        region_payload(region_written(mem, buffer, region), region) == Some(buffer),
{
    let address = read_field(mem, region as int).unwrap() as int;
    let copied = overlay(mem, address, buffer);
    let after = region_written(mem, buffer, region);
    lemma_field_round_trip(copied, region as int + 8, buffer.len() as u32);
    assert(after[region as int] == mem[region as int]);
    assert(after[region as int + 1] == mem[region as int + 1]);
    assert(after[region as int + 2] == mem[region as int + 2]);
    assert(after[region as int + 3] == mem[region as int + 3]);
    assert(read_field(after, region as int) == Some(address as u32));
    assert(read_field(after, region as int + 8) == Some(buffer.len() as u32));
    assert(after.subrange(address, address + buffer.len()) =~= buffer);
}

/// A field reads back as the value whose little-endian bytes were laid over
/// it.
pub proof fn lemma_field_round_trip(mem: Seq<u8>, addr: int, v: u32)
    requires
        in_memory(mem, addr, 4),
    ensures
        read_field(overlay(mem, addr, le_bytes(v)), addr) == Some(v),
{
    let m = overlay(mem, addr, le_bytes(v));
    assert(m[addr] == le_bytes(v)[0]);
    assert(m[addr + 1] == le_bytes(v)[1]);
    assert(m[addr + 2] == le_bytes(v)[2]);
    assert(m[addr + 3] == le_bytes(v)[3]);
}

} // verus!
