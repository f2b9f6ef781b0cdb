use chartfun::{parse_path_list, parse_pid, PDH_FUNCTION};

#[test]
fn status_ok_and_err() {
    assert!(PDH_FUNCTION(0).is_ok());
    assert!(!PDH_FUNCTION(0).is_err());
    assert!(PDH_FUNCTION(0x800007D2).is_err());
    assert!(PDH_FUNCTION(1).is_err());
}

#[test]
fn status_to_hresult_keeps_bits() {
    assert_eq!(PDH_FUNCTION(0xC0000BB8).to_hresult().0, 0xC0000BB8u32 as i32);
    assert_eq!(PDH_FUNCTION(0).to_hresult().0, 0);
    let h = PDH_FUNCTION(0x800007D2).to_hresult();
    assert_eq!(PDH_FUNCTION::from_hresult(h), PDH_FUNCTION(0x800007D2));
}

#[test]
fn path_list_splits_on_nulls() {
    let list: Vec<u16> = "a\0bc\0\0".encode_utf16().collect();
    let paths = parse_path_list(&list);
    assert_eq!(paths, vec![vec![b'a' as u16], vec![b'b' as u16, b'c' as u16]]);
    assert_eq!(parse_path_list(&vec![0, 0]), vec![vec![0u16]]);
    assert!(parse_path_list(&Vec::new()).is_empty());
}

#[test]
fn path_list_leading_null_is_kept_in_first_path() {
    let paths = parse_path_list(&vec![0, 65, 0, 0]);
    assert_eq!(paths, vec![vec![0, 65]]);
}

#[test]
fn pid_decimal() {
    assert_eq!(parse_pid("1234").unwrap(), 1234);
    assert_eq!(parse_pid("+7").unwrap(), 7);
    assert_eq!(parse_pid("4294967295").unwrap(), u32::MAX);
    assert!(parse_pid("4294967296").is_err());
    assert!(parse_pid("").is_err());
    assert!(parse_pid("12a").is_err());
    assert!(parse_pid("-1").is_err());
    assert!(parse_pid(" 1").is_err());
}

#[test]
fn pid_hexadecimal() {
    assert_eq!(parse_pid("0x1F").unwrap(), 31);
    assert_eq!(parse_pid("0xff").unwrap(), 255);
    assert_eq!(parse_pid("0x0x10").unwrap(), 16);
    assert!(parse_pid("0x").is_err());
    assert!(parse_pid("0xg").is_err());
    assert_eq!(parse_pid("0X10").is_err(), true);
    assert_eq!(parse_pid("010").unwrap(), 10);
}
