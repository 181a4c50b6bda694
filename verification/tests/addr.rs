use bdaddr::{
    Address, BdAddr, NonResolvablePrivateAddress, PublicDeviceAddress, RandomDeviceAddress,
    ResolvablePrivateAddress, StaticDeviceAddress,
};

#[test]
fn test_display() {
    let addr = BdAddr::from([0x00, 0x11, 0x22, 0x33, 0x44, 0x55]);
    assert_eq!("55:44:33:22:11:00", addr.clone().to_string());
    assert_eq!([0x00, 0x11, 0x22, 0x33, 0x44, 0x55], <[u8; 6]>::from(addr));
}

#[test]
fn test_parse() {
    let addr = "55:44:33:22:11:00".parse().unwrap();
    assert_eq!(BdAddr::from([0x00, 0x11, 0x22, 0x33, 0x44, 0x55]), addr);
}

#[test]
fn test_bredr_parse() {
    let addr = Address::bredr_from_str("55:44:33:22:11:00").unwrap();
    assert_eq!("55:44:33:22:11:00", addr.to_string());
    assert_eq!("BrEdr(55:44:33:22:11:00)", &addr.debug_string());

    let err = Address::bredr_from_str("ZZ:ZZ:ZZ:ZZ:ZZ:ZZ").unwrap_err();
    assert_eq!("AddressParseError", &format!("{:?}", err));
    assert_eq!("failed to parse address", &err.to_string());
}

#[test]
fn test_le_public_parse() {
    let addr = Address::le_public_from_str("55:44:33:22:11:00").unwrap();
    assert_eq!("55:44:33:22:11:00", addr.to_string());
    assert_eq!(
        "LePublic(PublicDeviceAddress(55:44:33:22:11:00))",
        &addr.debug_string()
    );

    let err = Address::le_public_from_str("ZZ:ZZ:ZZ:ZZ:ZZ:ZZ").unwrap_err();
    assert_eq!("AddressParseError", &format!("{:?}", err));
    assert_eq!("failed to parse address", &err.to_string());
}

#[test]
fn test_le_random_nonresolvable_parse() {
    let addr = Address::le_random_from_str("35:44:33:22:11:00").unwrap();
    assert_eq!("35:44:33:22:11:00", addr.to_string());
    assert_eq!(
        "LeRandom(NonResolvable(NonResolvablePrivateAddress(35:44:33:22:11:00)))",
        &addr.debug_string()
    );

    let err = Address::le_random_from_str("ZZ:ZZ:ZZ:ZZ:ZZ:ZZ").unwrap_err();
    assert_eq!("AddressParseError", &format!("{:?}", err));
    assert_eq!("failed to parse address", &err.to_string());
}

#[test]
fn test_le_random_resolvable_parse() {
    let addr = Address::le_random_from_str("75:44:33:22:11:00").unwrap();
    assert_eq!("75:44:33:22:11:00", addr.to_string());
    assert_eq!(
        "LeRandom(Resolvable(ResolvablePrivateAddress(75:44:33:22:11:00)))",
        &addr.debug_string()
    );

    assert!(Address::le_random_from_str("ZZ:ZZ:ZZ:ZZ:ZZ:ZZ").is_err());
}

#[test]
fn test_le_random_static_parse() {
    let addr = Address::le_random_from_str("F5:44:33:22:11:00").unwrap();
    assert_eq!("f5:44:33:22:11:00", addr.to_string());
    assert_eq!(
        "LeRandom(Static(StaticDeviceAddress(f5:44:33:22:11:00)))",
        &addr.debug_string()
    );

    assert!(Address::le_random_from_str("ZZ:ZZ:ZZ:ZZ:ZZ:ZZ").is_err());
}

#[test]
fn test_le_random_unknown_parse() {
    let addr = Address::le_random_from_str("B5:44:33:22:11:00").unwrap();
    assert_eq!("b5:44:33:22:11:00", addr.to_string());
    assert_eq!("LeRandom(Unknown(b5:44:33:22:11:00))", &addr.debug_string());

    assert!(Address::le_random_from_str("ZZ:ZZ:ZZ:ZZ:ZZ:ZZ").is_err());
}

#[test]
fn test_bredr_from() {
    let addr = Address::bredr_from([0x00, 0x11, 0x22, 0x33, 0x44, 0x55]);
    assert_eq!("BrEdr(55:44:33:22:11:00)", &addr.debug_string());
}

#[test]
fn test_le_public_from() {
    let addr = Address::le_public_from([0x00, 0x11, 0x22, 0x33, 0x44, 0x55]);
    assert_eq!(
        "LePublic(PublicDeviceAddress(55:44:33:22:11:00))",
        &addr.debug_string()
    );
}

#[test]
fn test_le_random_from() {
    let addr = Address::le_random_from([0x00, 0x11, 0x22, 0x33, 0x44, 0x35]);
    assert_eq!(
        "LeRandom(NonResolvable(NonResolvablePrivateAddress(35:44:33:22:11:00)))",
        &addr.debug_string()
    );

    let addr = Address::le_random_from([0x00, 0x11, 0x22, 0x33, 0x44, 0x55]);
    assert_eq!(
        "LeRandom(Resolvable(ResolvablePrivateAddress(55:44:33:22:11:00)))",
        &addr.debug_string()
    );

    let addr = Address::le_random_from([0x00, 0x11, 0x22, 0x33, 0x44, 0xF5]);
    assert_eq!(
        "LeRandom(Static(StaticDeviceAddress(f5:44:33:22:11:00)))",
        &addr.debug_string()
    );

    let addr = Address::le_random_from([0x00, 0x11, 0x22, 0x33, 0x44, 0xB5]);
    assert_eq!("LeRandom(Unknown(b5:44:33:22:11:00))", &addr.debug_string());
}

#[test]
fn test_non_resolvable_try_from() {
    let addr =
        NonResolvablePrivateAddress::try_from([0x00, 0x11, 0x22, 0x33, 0x44, 0x35]).unwrap();
    assert_eq!(
        "NonResolvablePrivateAddress(35:44:33:22:11:00)",
        &addr.debug_string()
    );

    let result =
        NonResolvablePrivateAddress::try_from([0x00, 0x11, 0x22, 0x33, 0x44, 0x55]).unwrap_err();
    assert_eq!("InvalidBitsForAddressType(0, 1)", &format!("{:?}", result));
    assert_eq!(
        "Invalid bits for this address type. (expect: 0b00, but 0b01)",
        &result.to_string()
    );
}

#[test]
fn test_resolvable_try_from() {
    let addr = ResolvablePrivateAddress::try_from([0x00, 0x11, 0x22, 0x33, 0x44, 0x55]).unwrap();
    assert_eq!(
        "ResolvablePrivateAddress(55:44:33:22:11:00)",
        &addr.debug_string()
    );

    let result =
        ResolvablePrivateAddress::try_from([0x00, 0x11, 0x22, 0x33, 0x44, 0xB5]).unwrap_err();
    assert_eq!("InvalidBitsForAddressType(1, 2)", &format!("{:?}", result));
    assert_eq!(
        "Invalid bits for this address type. (expect: 0b01, but 0b10)",
        &result.to_string()
    );
}

#[test]
fn test_static_try_from() {
    let addr = StaticDeviceAddress::try_from([0x00, 0x11, 0x22, 0x33, 0x44, 0xF5]).unwrap();
    assert_eq!(
        "StaticDeviceAddress(f5:44:33:22:11:00)",
        &addr.debug_string()
    );

    let result = StaticDeviceAddress::try_from([0x00, 0x11, 0x22, 0x33, 0x44, 0x05]).unwrap_err();
    assert_eq!("InvalidBitsForAddressType(3, 0)", &format!("{:?}", result));
    assert_eq!(
        "Invalid bits for this address type. (expect: 0b11, but 0b00)",
        &result.to_string()
    );
}

#[test]
fn test_convert_bredr() {
    let addr = BdAddr::from_str("55:44:33:22:11:00")
        .unwrap()
        .to_br_edr_addr();
    assert_eq!(Address::bredr_from_str("55:44:33:22:11:00").unwrap(), addr);
}

#[test]
fn test_convert_le_public() {
    let addr = BdAddr::from_str("55:44:33:22:11:00")
        .unwrap()
        .to_le_public_addr();
    assert_eq!(
        Address::from(PublicDeviceAddress::from([
            0x00, 0x11, 0x22, 0x33, 0x44, 0x55
        ])),
        addr
    );
}

#[test]
fn test_convert_le_random() {
    let addr = BdAddr::from_str("35:44:33:22:11:00")
        .unwrap()
        .to_le_random_addr();
    assert_eq!(
        Address::from(RandomDeviceAddress::from(
            NonResolvablePrivateAddress::try_from([0x00, 0x11, 0x22, 0x33, 0x44, 0x35]).unwrap()
        )),
        addr
    );

    let addr = BdAddr::from_str("75:44:33:22:11:00")
        .unwrap()
        .to_le_random_addr();
    assert_eq!(
        Address::from(RandomDeviceAddress::from(
            ResolvablePrivateAddress::try_from([0x00, 0x11, 0x22, 0x33, 0x44, 0x75]).unwrap()
        )),
        addr
    );

    let addr = BdAddr::from_str("F5:44:33:22:11:00")
        .unwrap()
        .to_le_random_addr();
    assert_eq!(
        Address::from(RandomDeviceAddress::from(
            StaticDeviceAddress::try_from([0x00, 0x11, 0x22, 0x33, 0x44, 0xF5]).unwrap()
        )),
        addr
    );
}

#[test]
fn test_into_bd_addr() {
    let addr = Address::bredr_from_str("55:44:33:22:11:00")
        .unwrap()
        .into_bd_addr();
    assert_eq!(BdAddr::try_from("55:44:33:22:11:00").unwrap(), addr);

    let addr = Address::le_public_from_str("55:44:33:22:11:00")
        .unwrap()
        .into_bd_addr();
    assert_eq!(BdAddr::try_from("55:44:33:22:11:00").unwrap(), addr);

    let addr = Address::le_random_from_str("35:44:33:22:11:00")
        .unwrap()
        .into_bd_addr();
    assert_eq!(BdAddr::try_from("35:44:33:22:11:00").unwrap(), addr);

    let addr = Address::le_random_from_str("75:44:33:22:11:00")
        .unwrap()
        .into_bd_addr();
    assert_eq!(BdAddr::try_from("75:44:33:22:11:00").unwrap(), addr);

    let addr = Address::le_random_from_str("F5:44:33:22:11:00")
        .unwrap()
        .into_bd_addr();
    assert_eq!(BdAddr::try_from("F5:44:33:22:11:00").unwrap(), addr);

    let addr = Address::le_random_from_str("B5:44:33:22:11:00")
        .unwrap()
        .into_bd_addr();
    assert_eq!(BdAddr::try_from("B5:44:33:22:11:00").unwrap(), addr);
}
