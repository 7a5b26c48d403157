//! The flattened device tree handed over by the boot loader.

use vstd::prelude::*;

verus! {

/// Magic number at the start of a flattened device tree blob.
pub const DEVICE_TREE_MAGIC: u32 = 0xd00dfeed;

/// Big-endian 32-bit value at `off`.
pub open spec fn be32(b: Seq<u8>, off: int) -> u32 {
    (b[off] * 16777216 + b[off + 1] * 65536 + b[off + 2] * 256 + b[off + 3]) as u32
}

fn read_be32(b: &[u8], off: usize) -> (v: u32)
    requires
        off + 4 <= b@.len(),
    ensures
        v == be32(b@, off as int),
{
    (b[off] as u32) * 16777216 + (b[off + 1] as u32) * 65536 + (b[off + 2] as u32) * 256 + (b[off
        + 3] as u32)
}

/// Read the header of a device tree blob: the big-endian magic number
/// followed by the big-endian total size. Returns the size, or `None` when
/// fewer than 8 bytes are given or the magic number is wrong.
pub fn parse_dtb_header(header: &[u8]) -> (r: Option<u32>)
    ensures
        r is Some <==> header@.len() >= 8 && be32(header@, 0) == DEVICE_TREE_MAGIC,
        r is Some ==> r->0 == be32(header@, 4),
        r is Some <==> header@.len() >= 8 && header@[0] == 0xd0 && header@[1] == 0x0d && header@[2]
            == 0xfe && header@[3] == 0xed,
        r is Some ==> r->0 == header@[4] * 16777216 + header@[5] * 65536 + header@[6] * 256
            + header@[7],
{
    if header.len() < 8 {
        return None;
    }
    let magic = read_be32(header, 0);
    if magic != DEVICE_TREE_MAGIC {
        return None;
    }
    Some(read_be32(header, 4))
}

} // verus!
