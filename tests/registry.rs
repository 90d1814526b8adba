use comport::registry::{
    scan_for, select_connected, RegistryData, UnexpectedRegistryData, REG_BINARY, REG_DWORD,
    REG_DWORD_BIG_ENDIAN, REG_EXPAND_SZ, REG_MULTI_SZ, REG_NONE, REG_QWORD, REG_SZ,
};
use comport::{scan, PortMeta, RegistryError};

fn wide(s: &str) -> Vec<u8> {
    let mut bytes: Vec<u8> = s.encode_utf16().flat_map(|u| u.to_le_bytes()).collect();
    bytes.extend_from_slice(&[0, 0]);
    bytes
}

fn sz(s: &str) -> RegistryData {
    RegistryData::from_data(REG_SZ, wide(s))
}

fn meta(v: &str, p: &str) -> PortMeta {
    PortMeta { vendor: v.to_string(), product: p.to_string() }
}

#[test]
fn comport_test_hkey_parse() {
    let parsed = PortMeta::parse_registry(r#"\\?\usb#vid_2fe3&pid_0002&mi_00#7&123456"#).unwrap();
    assert_eq!("2fe3", parsed.vendor);
    assert_eq!("0002", parsed.product);
}

#[test]
fn parse_registry_ignores_case_and_lowercases() {
    let parsed = PortMeta::parse_registry("USB#VID_2FE3&PID_0100#5&1").unwrap();
    assert_eq!("2fe3", parsed.vendor);
    assert_eq!("0100", parsed.product);
    let mixed = PortMeta::parse_registry(r#"\\?\usb#vid_2FE3&pid_0A0b&mi_00"#).unwrap();
    assert_eq!(meta("2fe3", "0a0b"), mixed);
}

#[test]
fn parse_registry_wants_hex_digits() {
    assert!(PortMeta::parse_registry("vid_zzzz&pid_0100").is_none());
    let parsed = PortMeta::parse_registry("vid_zzzz&vid_1234&pid_0100").unwrap();
    assert_eq!(meta("1234", "0100"), parsed);
}

#[test]
fn parse_registry_needs_two_tokens() {
    assert!(PortMeta::parse_registry(r#"\\?\usb#vid_2fe3&mi_00"#).is_none());
    assert!(PortMeta::parse_registry("").is_none());
}

#[test]
fn parse_registry_takes_the_last_two_tokens() {
    let parsed = PortMeta::parse_registry("vid_aaaa pid_bbbb vid_1234&pid_5678").unwrap();
    assert_eq!("1234", parsed.vendor);
    assert_eq!("5678", parsed.product);
}

#[test]
fn from_tokens_strips_prefixes() {
    let m = PortMeta::from_tokens(vec!["VID_2FE3".to_string(), "pid_0100".to_string()]).unwrap();
    assert_eq!(meta("2fe3", "0100"), m);
    let short = PortMeta::from_tokens(vec!["vid".to_string(), "pid_0100".to_string()]).unwrap();
    assert_eq!("", short.vendor);
    assert!(PortMeta::from_tokens(vec!["vid_2fe3".to_string()]).is_none());
}

#[test]
fn from_ids_lowercases() {
    let m = PortMeta::from_ids("2FE3", "0A0B");
    assert_eq!("2fe3", m.vid());
    assert_eq!("0a0b", m.pid());
}

#[test]
fn matches_compares_lowercased() {
    let m = meta("2FE3", "0100");
    assert!(m.matches("2fe3", "0100"));
    assert!(!m.matches("2FE3", "0100"));
    assert!(!m.matches("2fe3", "0101"));
}

#[test]
fn port_meta_equality_is_structural() {
    assert!(meta("2fe3", "0100") == meta("2fe3", "0100"));
    assert!(meta("2fe3", "0100") != meta("2fe3", "0101"));
}

#[test]
fn dword_little_and_big_endian() {
    let le = RegistryData::from_data(REG_DWORD, vec![0x78, 0x56, 0x34, 0x12]);
    assert_eq!(0x12345678, le.try_into_u32().unwrap());
    let be = RegistryData::from_data(REG_DWORD_BIG_ENDIAN, vec![0x12, 0x34, 0x56, 0x78]);
    assert_eq!(0x12345678, be.try_into_u32().unwrap());
    let max = RegistryData::from_data(REG_DWORD, vec![0xff, 0xff, 0xff, 0xff]);
    assert_eq!(u32::MAX, max.try_into_u32().unwrap());
}

#[test]
fn dword_of_wrong_shape_is_refused() {
    let e = RegistryData::from_data(REG_DWORD, vec![1, 2, 3]).try_into_u32().unwrap_err();
    assert_eq!(REG_DWORD, e.expect);
    assert_eq!(REG_DWORD, e.actual);
    assert_eq!(vec![1u8, 2, 3], e.data);
    let e = RegistryData::from_data(REG_SZ, vec![1, 2, 3, 4]).try_into_u32().unwrap_err();
    assert_eq!(REG_SZ, e.actual);
    let back = e.into_registry_data();
    assert_eq!(REG_SZ, back.ty);
    assert_eq!(vec![1u8, 2, 3, 4], back.data);
}

#[test]
fn eight_byte_numbers() {
    let le = RegistryData::from_data(REG_DWORD, vec![1, 2, 3, 4, 5, 6, 7, 8]);
    assert_eq!(0x0807060504030201, le.try_into_u64().unwrap());
    let be = RegistryData::from_data(REG_DWORD_BIG_ENDIAN, vec![1, 2, 3, 4, 5, 6, 7, 8]);
    assert_eq!(0x0102030405060708, be.try_into_u64().unwrap());
    let max = RegistryData::from_data(REG_DWORD, vec![0xff; 8]);
    assert_eq!(u64::MAX, max.try_into_u64().unwrap());
    let q = RegistryData::from_data(REG_QWORD, vec![1, 2, 3, 4, 5, 6, 7, 8]);
    assert_eq!(0x0807060504030201, q.try_into_u64().unwrap());
    let e = RegistryData::from_data(REG_DWORD, vec![1, 2, 3, 4]).try_into_u64().unwrap_err();
    assert_eq!(REG_QWORD, e.expect);
    let e = RegistryData::from_data(REG_QWORD, vec![1, 2, 3, 4]).try_into_u64().unwrap_err();
    assert_eq!(REG_QWORD, e.actual);
}

#[test]
fn strings_of_registry_values() {
    assert_eq!("COM4", sz("COM4").try_into_os_string().unwrap());
    let expand = RegistryData::from_data(REG_EXPAND_SZ, wide("COM5"));
    assert_eq!("COM5", expand.try_into_os_string().unwrap());
    let e = RegistryData::from_data(REG_BINARY, vec![0x41, 0]).try_into_os_string().unwrap_err();
    assert_eq!(REG_SZ, e.expect);
    assert_eq!(REG_BINARY, e.actual);
    assert_eq!("COM6", sz("COM6").try_into_expanded_os_string().unwrap());
    let expand = RegistryData::from_data(REG_EXPAND_SZ, wide("%SystemRoot%\\x"));
    assert_eq!("%SystemRoot%\\x", expand.try_into_expanded_os_string().unwrap());
    let e = RegistryData::from_data(REG_DWORD, vec![0; 4]).try_into_expanded_os_string().unwrap_err();
    assert_eq!(REG_EXPAND_SZ, e.expect);
}

#[test]
fn code_labels() {
    assert_eq!("[BINARY]", UnexpectedRegistryData::code_to_str(REG_BINARY));
    assert_eq!("[DWORD]", UnexpectedRegistryData::code_to_str(REG_DWORD));
    assert_eq!("[DWORD_BIG_ENDIAN]", UnexpectedRegistryData::code_to_str(REG_DWORD_BIG_ENDIAN));
    assert_eq!("[QWORD]", UnexpectedRegistryData::code_to_str(REG_QWORD));
    assert_eq!("[SZ]", UnexpectedRegistryData::code_to_str(REG_SZ));
    assert_eq!("[EXPAND_SZ]", UnexpectedRegistryData::code_to_str(REG_EXPAND_SZ));
    assert_eq!("[MULTI_SZ]", UnexpectedRegistryData::code_to_str(REG_MULTI_SZ));
    assert_eq!("[NONE]", UnexpectedRegistryData::code_to_str(REG_NONE));
    assert_eq!("unsupported registry value type", UnexpectedRegistryData::code_to_str(99));
}

#[test]
fn scan_keeps_connected_ports_only() {
    let connected = vec![sz("COM4"), sz("COM9")];
    let devices = vec![
        ("COM3".to_string(), sz(r#"\\?\usb#vid_1234&pid_5678&mi_00#1"#)),
        ("COM4".to_string(), sz(r#"\\?\USB#VID_2FE3&PID_0100&MI_00#7&123456"#)),
    ];
    let found = scan(connected, devices).unwrap();
    assert_eq!(1, found.len());
    assert_eq!("COM4", found[0].0);
    assert_eq!(meta("2fe3", "0100"), found[0].1);
}

#[test]
fn scan_later_entry_of_a_port_wins() {
    let connected = vec![sz("COM4")];
    let devices = vec![
        ("COM4".to_string(), sz("vid_1111&pid_2222")),
        ("COM4".to_string(), sz("vid_3333&pid_4444")),
    ];
    let found = scan(connected, devices).unwrap();
    assert_eq!(1, found.len());
    assert_eq!(meta("3333", "4444"), found[0].1);
}

#[test]
fn scan_empty_registry() {
    assert!(scan(vec![], vec![]).unwrap().is_empty());
}

#[test]
fn scan_reports_unexpected_data() {
    let connected = vec![RegistryData::from_data(REG_DWORD, vec![0; 4])];
    match scan(connected, vec![]) {
        Err(RegistryError::UnexpectedRegistryData(e)) => assert_eq!(REG_DWORD, e.actual),
        other => panic!("unexpected {:?}", other),
    }
    let devices = vec![("COM4".to_string(), RegistryData::from_data(REG_BINARY, vec![1]))];
    match scan(vec![sz("COM4")], devices) {
        Err(RegistryError::UnexpectedRegistryData(e)) => assert_eq!(REG_BINARY, e.actual),
        other => panic!("unexpected {:?}", other),
    }
}

#[test]
fn scan_reports_unparsable_paths() {
    let devices = vec![("COM4".to_string(), sz("no ids here"))];
    match scan(vec![sz("COM4")], devices) {
        Err(RegistryError::UnableToParseRegistryData(path)) => assert_eq!("no ids here", path),
        other => panic!("unexpected {:?}", other),
    }
}

#[test]
fn select_connected_filters_and_dedups() {
    let connected = vec!["COM1".to_string(), "COM2".to_string()];
    let devices = vec![
        ("COM1".to_string(), meta("a", "b")),
        ("COM3".to_string(), meta("c", "d")),
        ("COM1".to_string(), meta("e", "f")),
    ];
    let r = select_connected(&connected, devices);
    assert_eq!(1, r.len());
    assert_eq!("COM1", r[0].0);
    assert_eq!(meta("e", "f"), r[0].1);
}

#[test]
fn scan_for_finds_or_reports_missing() {
    let snapshot = vec![("COM4".to_string(), meta("2fe3", "0100"))];
    assert_eq!(meta("2fe3", "0100"), scan_for(&"COM4".to_string(), &snapshot).unwrap());
    match scan_for(&"COM5".to_string(), &snapshot) {
        Err(RegistryError::ComPortMissingFromRegistry(p)) => assert_eq!("COM5", p),
        other => panic!("unexpected {:?}", other),
    }
}

#[test]
fn unexpected_data_message() {
    let e = RegistryData::from_data(REG_DWORD, vec![0; 4]).try_into_os_string().unwrap_err();
    assert_eq!("Expected [SZ], found [DWORD]", e.message());
}
