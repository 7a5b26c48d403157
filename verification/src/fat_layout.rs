//! On-disk layout of the FAT boot sector (BIOS parameter block).

use vstd::prelude::*;

verus! {

/// The BIOS parameter block at the start of a FAT volume.
#[derive(Clone, Copy, Debug)]
pub struct FatBS {
    pub unused: [u8; 11],
    pub bytes_per_sector: u16,
    pub sectors_per_cluster: u8,
    pub reserved_sector_count: u16,
    pub table_count: u8,
    /// Must be 0 on FAT32.
    pub root_entry_count: u16,
    pub total_sectors_16: u16,
    pub media_type: u8,
    /// Unused on FAT32.
    pub table_size_16: u16,
    pub sectors_per_track: u16,
    pub head_side_count: u16,
    pub hidden_sector_count: u32,
    pub total_sectors_32: u32,
}

/// Size in bytes of the on-disk BIOS parameter block read here.
pub const FAT_BS_SIZE: usize = 36;

/// Little-endian 16-bit value at `off`.
pub open spec fn le16(b: Seq<u8>, off: int) -> u16 {
    (b[off] + b[off + 1] * 256) as u16
}

/// Little-endian 32-bit value at `off`.
pub open spec fn le32(b: Seq<u8>, off: int) -> u32 {
    (b[off] + b[off + 1] * 256 + b[off + 2] * 65536 + b[off + 3] * 16777216) as u32
}

fn read_le16(b: &[u8], off: usize) -> (v: u16)
    requires
        off + 2 <= b@.len(),
    ensures
        v == le16(b@, off as int),
{
    (b[off] as u16) + (b[off + 1] as u16) * 256
}

fn read_le32(b: &[u8], off: usize) -> (v: u32)
    requires
        off + 4 <= b@.len(),
    ensures
        v == le32(b@, off as int),
{
    (b[off] as u32) + (b[off + 1] as u32) * 256 + (b[off + 2] as u32) * 65536 + (b[off + 3] as u32)
        * 16777216
}

impl FatBS {
    /// The parameter block as the packed little-endian fields at the start
    /// of `sector`.
    pub open spec fn decoded(sector: Seq<u8>) -> FatBS {
        FatBS {
            unused: [sector[0], sector[1], sector[2], sector[3], sector[4], sector[5], sector[6],
                sector[7], sector[8], sector[9], sector[10]],
            bytes_per_sector: le16(sector, 11),
            sectors_per_cluster: sector[13],
            reserved_sector_count: le16(sector, 14),
            table_count: sector[16],
            root_entry_count: le16(sector, 17),
            total_sectors_16: le16(sector, 19),
            media_type: sector[21],
            table_size_16: le16(sector, 22),
            sectors_per_track: le16(sector, 24),
            head_side_count: le16(sector, 26),
            hidden_sector_count: le32(sector, 28),
            total_sectors_32: le32(sector, 32),
        }
    }

    /// Read the parameter block from the first bytes of a boot sector, laid
    /// out packed and little-endian; `None` when `sector` is too short.
    pub fn from_bytes(sector: &[u8]) -> (r: Option<FatBS>)
        ensures
            sector@.len() < FAT_BS_SIZE ==> r is None,
            sector@.len() >= FAT_BS_SIZE ==> r == Some(FatBS::decoded(sector@)),
            sector@.len() >= FAT_BS_SIZE ==> r->0.sectors_per_track == sector@[24] + 256 * sector@[25],
            sector@.len() >= FAT_BS_SIZE ==> r->0.head_side_count == sector@[26] + 256 * sector@[27],
            sector@.len() >= FAT_BS_SIZE ==> r->0.bytes_per_sector == sector@[11] + 256 * sector@[12],
            sector@.len() >= FAT_BS_SIZE ==> r->0.reserved_sector_count == sector@[14] + 256 * sector@[15],
            sector@.len() >= FAT_BS_SIZE ==> r->0.total_sectors_16 == sector@[19] + 256 * sector@[20],
            sector@.len() >= FAT_BS_SIZE ==> r->0.total_sectors_32 == sector@[32] + 256 * sector@[33]
                + 65536 * sector@[34] + 16777216 * sector@[35],
    {
        if sector.len() >= FAT_BS_SIZE {
            proof {
                lemma_decoded_fields(sector@);
            }
        }
        if sector.len() < FAT_BS_SIZE {
            return None;
        }
        let unused: [u8; 11] = [sector[0], sector[1], sector[2], sector[3], sector[4], sector[5],
            sector[6], sector[7], sector[8], sector[9], sector[10]];
        Some(FatBS {
            unused,
            bytes_per_sector: read_le16(sector, 11),
            sectors_per_cluster: sector[13],
            reserved_sector_count: read_le16(sector, 14),
            table_count: sector[16],
            root_entry_count: read_le16(sector, 17),
            total_sectors_16: read_le16(sector, 19),
            media_type: sector[21],
            table_size_16: read_le16(sector, 22),
            sectors_per_track: read_le16(sector, 24),
            head_side_count: read_le16(sector, 26),
            hidden_sector_count: read_le32(sector, 28),
            total_sectors_32: read_le32(sector, 32),
        })
    }

    /// Total number of sectors of the volume: the 16-bit count when it is
    /// non-zero, the 32-bit count otherwise.
    pub open spec fn spec_total_sectors(&self) -> u32 {
        if self.total_sectors_16 == 0 {
            self.total_sectors_32
        } else {
            self.total_sectors_16 as u32
        }
    }

    pub fn total_sectors(&self) -> (n: u32)
        ensures
            n == self.spec_total_sectors(),
            self.total_sectors_16 == 0 ==> n == self.total_sectors_32,
            self.total_sectors_16 != 0 ==> n == self.total_sectors_16,
    {
        if self.total_sectors_16 == 0 {
            self.total_sectors_32
        } else {
            self.total_sectors_16 as u32
        }
    }

    /// The sector where the first file allocation table starts: right after
    /// the reserved sectors.
    pub fn first_fat_sector(&self) -> (s: u32)
        ensures
            s == self.reserved_sector_count,
    {
        self.reserved_sector_count as u32
    }
}

/// Each field of the decoded block is the little-endian value of the bytes
/// at its fixed offset of the packed layout: the 11 leading bytes, then
/// bytes per sector at 11, sectors per cluster at 13, reserved sectors at
/// 14, table count at 16, root entries at 17, 16-bit total at 19, media
/// type at 21, 16-bit table size at 22, sectors per track at 24, heads at
/// 26, hidden sectors at 28 and the 32-bit total at 32.
pub proof fn lemma_decoded_fields(sector: Seq<u8>)
    requires
        sector.len() >= FAT_BS_SIZE,
    ensures
        forall|i: int| 0 <= i < 11 ==> #[trigger] FatBS::decoded(sector).unused[i] == sector[i],
        FatBS::decoded(sector).bytes_per_sector == sector[11] + 256 * sector[12],
        FatBS::decoded(sector).reserved_sector_count == sector[14] + 256 * sector[15],
        FatBS::decoded(sector).root_entry_count == sector[17] + 256 * sector[18],
        FatBS::decoded(sector).total_sectors_16 == sector[19] + 256 * sector[20],
        FatBS::decoded(sector).table_size_16 == sector[22] + 256 * sector[23],
        FatBS::decoded(sector).sectors_per_track == sector[24] + 256 * sector[25],
        FatBS::decoded(sector).head_side_count == sector[26] + 256 * sector[27],
        FatBS::decoded(sector).hidden_sector_count == sector[28] + 256 * sector[29] + 65536 * sector[30] + 16777216 * sector[31],
        FatBS::decoded(sector).total_sectors_32 == sector[32] + 256 * sector[33] + 65536 * sector[34] + 16777216 * sector[35],
        FatBS::decoded(sector).sectors_per_cluster == sector[13],
        FatBS::decoded(sector).table_count == sector[16],
        FatBS::decoded(sector).media_type == sector[21],
{
    let d = FatBS::decoded(sector);
    assert forall|i: int| 0 <= i < 11 implies #[trigger] d.unused[i] == sector[i] by {
        assert(d.unused@ =~= seq![sector[0], sector[1], sector[2], sector[3], sector[4], sector[5],
            sector[6], sector[7], sector[8], sector[9], sector[10]]);
    }
    assert(sector[24] + 256 * sector[25] < 65536);
    assert(sector[26] + 256 * sector[27] < 65536);
}

} // verus!
