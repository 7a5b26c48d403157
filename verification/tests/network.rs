use k210_os::network::util::{write_num_u32, write_qstr};

#[test]
fn qstr_plain() {
    let mut v: Vec<u8> = Vec::new();
    write_qstr(&mut v, b"ssid");
    assert_eq!(v, b"\"ssid\"".to_vec());
}

#[test]
fn qstr_escapes_quote_and_backslash() {
    let mut v: Vec<u8> = Vec::new();
    write_qstr(&mut v, b"a\"b\\c");
    assert_eq!(v, b"\"a\\\"b\\\\c\"".to_vec());
}

#[test]
fn qstr_empty_and_appends() {
    let mut v: Vec<u8> = b"AT+CWJAP=".to_vec();
    write_qstr(&mut v, b"");
    assert_eq!(v, b"AT+CWJAP=\"\"".to_vec());
}

#[test]
fn qstr_distinct_strings_differ() {
    let mut a: Vec<u8> = Vec::new();
    let mut b: Vec<u8> = Vec::new();
    write_qstr(&mut a, b"\\\"");
    write_qstr(&mut b, b"\"\\");
    assert_ne!(a, b);
}

#[test]
fn num_zero() {
    let mut v: Vec<u8> = Vec::new();
    write_num_u32(&mut v, 0);
    assert_eq!(v, b"0".to_vec());
}

#[test]
fn num_decimal() {
    let mut v: Vec<u8> = b"x=".to_vec();
    write_num_u32(&mut v, 115200);
    assert_eq!(v, b"x=115200".to_vec());
}

#[test]
fn num_max() {
    let mut v: Vec<u8> = Vec::new();
    write_num_u32(&mut v, u32::MAX);
    assert_eq!(v, b"4294967295".to_vec());
}

#[test]
fn num_round_trip() {
    for n in [1u32, 9, 10, 99, 100, 65535, 1_000_000_007] {
        let mut v: Vec<u8> = Vec::new();
        write_num_u32(&mut v, n);
        assert_ne!(v[0], b'0');
        let s = String::from_utf8(v).unwrap();
        assert_eq!(s.parse::<u32>().unwrap(), n);
    }
}
