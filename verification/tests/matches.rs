use bdaddr::{Address, InvalidAddressTypeError, ResolvablePrivateAddress};

#[test]
fn test() {
    let addr = ResolvablePrivateAddress::try_from([130, 189, 188, 140, 3, 83]).unwrap();
    let irk = [
        25, 120, 162, 175, 221, 117, 123, 237, 252, 157, 198, 158, 149, 215, 51, 179,
    ];
    assert!(addr.matches(&irk));

    let irk = [
        26, 120, 162, 175, 221, 117, 123, 237, 252, 157, 198, 158, 149, 215, 51, 179,
    ];
    assert!(!addr.matches(&irk));
}

#[test]
fn test_address_matches_resolvable() {
    let addr = Address::le_random_from([130, 189, 188, 140, 3, 83]);
    let irk = [
        25, 120, 162, 175, 221, 117, 123, 237, 252, 157, 198, 158, 149, 215, 51, 179,
    ];
    assert_eq!(Ok(true), addr.matches(&irk));

    let irk = [
        26, 120, 162, 175, 221, 117, 123, 237, 252, 157, 198, 158, 149, 215, 51, 179,
    ];
    assert_eq!(Ok(false), addr.matches(&irk));
}

#[test]
fn test_address_matches_wrong_type() {
    let irk = [
        25, 120, 162, 175, 221, 117, 123, 237, 252, 157, 198, 158, 149, 215, 51, 179,
    ];

    let bredr = Address::bredr_from([130, 189, 188, 140, 3, 83]);
    assert_eq!(Err(InvalidAddressTypeError), bredr.matches(&irk));

    let le_public = Address::le_public_from([130, 189, 188, 140, 3, 83]);
    assert_eq!(Err(InvalidAddressTypeError), le_public.matches(&irk));

    // tag bits 00: a non-resolvable private address, not an RPA
    let non_resolvable = Address::le_random_from([130, 189, 188, 140, 3, 0x13]);
    assert_eq!(Err(InvalidAddressTypeError), non_resolvable.matches(&irk));

    // tag bits 11: a static device address, not an RPA
    let static_addr = Address::le_random_from([130, 189, 188, 140, 3, 0xD3]);
    assert_eq!(Err(InvalidAddressTypeError), static_addr.matches(&irk));

    // tag bits 10: the reserved pattern
    let unknown = Address::le_random_from([130, 189, 188, 140, 3, 0x93]);
    assert_eq!(Err(InvalidAddressTypeError), unknown.matches(&irk));
}
