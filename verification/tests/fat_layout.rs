use k210_os::clone_into_array;
use k210_os::fat_layout::FatBS;

fn sample_sector() -> Vec<u8> {
    let mut s = vec![0u8; 512];
    s[0..11].copy_from_slice(&[0xeb, 0x58, 0x90, b'M', b'S', b'D', b'O', b'S', b'5', b'.', b'0']);
    s[11] = 0x00; // bytes per sector = 512
    s[12] = 0x02;
    s[13] = 8; // sectors per cluster
    s[14] = 0x20; // reserved = 32
    s[15] = 0x00;
    s[16] = 2; // tables
    s[19] = 0; // total16 = 0
    s[20] = 0;
    s[21] = 0xf8;
    s[32] = 0x00; // total32 = 0x00ec_0000
    s[33] = 0x00;
    s[34] = 0xec;
    s[35] = 0x00;
    s
}

#[test]
fn from_bytes_reads_packed_little_endian_fields() {
    let bs = FatBS::from_bytes(&sample_sector()).unwrap();
    assert_eq!(bs.unused[3], b'M');
    assert_eq!(bs.bytes_per_sector, 512);
    assert_eq!(bs.sectors_per_cluster, 8);
    assert_eq!(bs.reserved_sector_count, 32);
    assert_eq!(bs.table_count, 2);
    assert_eq!(bs.media_type, 0xf8);
    assert_eq!(bs.total_sectors_32, 0x00ec_0000);
}

#[test]
fn from_bytes_rejects_short_sector() {
    assert!(FatBS::from_bytes(&[0u8; 35]).is_none());
    assert!(FatBS::from_bytes(&[0u8; 36]).is_some());
}

#[test]
fn total_sectors_uses_32_bit_count_when_16_bit_is_zero() {
    let bs = FatBS::from_bytes(&sample_sector()).unwrap();
    assert_eq!(bs.total_sectors(), 0x00ec_0000);
}

#[test]
fn total_sectors_uses_16_bit_count_when_nonzero() {
    let mut s = sample_sector();
    s[19] = 0x40;
    s[20] = 0x1f; // 8000
    let bs = FatBS::from_bytes(&s).unwrap();
    assert_eq!(bs.total_sectors(), 8000);
}

#[test]
fn first_fat_sector_follows_reserved_sectors() {
    let bs = FatBS::from_bytes(&sample_sector()).unwrap();
    assert_eq!(bs.first_fat_sector(), 32);
}

#[test]
fn clone_into_array_copies_every_element() {
    let a: [u8; 4] = clone_into_array(&[1u8, 2, 3, 4]);
    assert_eq!(a, [1, 2, 3, 4]);
    let e: [u32; 0] = clone_into_array(&[]);
    assert_eq!(e.len(), 0);
}
