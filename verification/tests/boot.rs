use k210_os::boot::parse_dtb_header;

#[test]
fn dtb_header_reads_big_endian_size() {
    let h = [0xd0, 0x0d, 0xfe, 0xed, 0x00, 0x00, 0x10, 0x24, 0xff];
    assert_eq!(parse_dtb_header(&h), Some(0x1024));
}

#[test]
fn dtb_header_rejects_wrong_magic() {
    let h = [0xed, 0xfe, 0x0d, 0xd0, 0x00, 0x00, 0x10, 0x24];
    assert_eq!(parse_dtb_header(&h), None);
}

#[test]
fn dtb_header_rejects_short_input() {
    assert_eq!(parse_dtb_header(&[0xd0, 0x0d, 0xfe, 0xed, 0, 0, 0]), None);
}
