use bdaddr::{BdAddr, RandomDeviceAddress};

#[test]
fn test_round_trip_format_then_parse() {
    let values: [[u8; 6]; 4] = [
        [0x00, 0x11, 0x22, 0x33, 0x44, 0x55],
        [0xFF, 0xFF, 0xFF, 0xFF, 0xFF, 0xFF],
        [0x00, 0x00, 0x00, 0x00, 0x00, 0x00],
        [0x01, 0x23, 0x45, 0x67, 0x89, 0xAB],
    ];
    for v in values {
        let addr = BdAddr::from(v);
        let text = addr.to_string();
        assert_eq!(Ok(addr), BdAddr::from_str(&text));
    }
}

#[test]
fn test_parse_failures() {
    assert!(BdAddr::from_str("ZZ:ZZ:ZZ:ZZ:ZZ:ZZ").is_err());
    // wrong field count
    assert!(BdAddr::from_str("00:11:22").is_err());
    // wrong separator
    assert!(BdAddr::from_str("00-11-22-33-44-55").is_err());
    assert!(BdAddr::from_str("").is_err());
    // a field of one digit
    assert!(BdAddr::from_str("55:44:33:22:11:0").is_err());
    // trailing characters
    assert!(BdAddr::from_str("55:44:33:22:11:00:").is_err());
}

#[test]
fn test_parse_accepts_uppercase() {
    let addr = BdAddr::from_str("AB:CD:EF:01:23:45").unwrap();
    assert_eq!(BdAddr::from([0x45, 0x23, 0x01, 0xEF, 0xCD, 0xAB]), addr);
    // formatting always renders lowercase
    assert_eq!("ab:cd:ef:01:23:45", addr.to_string());
}

#[test]
fn test_tag_boundary_table() {
    // top byte 0x35, bits 00
    let addr = RandomDeviceAddress::from([0x00, 0x11, 0x22, 0x33, 0x44, 0x35]);
    assert!(matches!(addr, RandomDeviceAddress::NonResolvable(_)));
    // top byte 0x75, bits 01
    let addr = RandomDeviceAddress::from([0x00, 0x11, 0x22, 0x33, 0x44, 0x75]);
    assert!(matches!(addr, RandomDeviceAddress::Resolvable(_)));
    // top byte 0xF5, bits 11
    let addr = RandomDeviceAddress::from([0x00, 0x11, 0x22, 0x33, 0x44, 0xF5]);
    assert!(matches!(addr, RandomDeviceAddress::Static(_)));
    // top byte 0xB5, bits 10
    let addr = RandomDeviceAddress::from([0x00, 0x11, 0x22, 0x33, 0x44, 0xB5]);
    assert!(matches!(addr, RandomDeviceAddress::Unknown(_)));
}
