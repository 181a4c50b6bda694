//! Bluetooth Device Addresses (Bluetooth Core Specification Vol 6, Part B,
//! 1.3): the 48-bit address value, its classification by the tag bits of the
//! most significant octet, the colon-separated hexadecimal text codec, and
//! the AES-128 procedure that tests whether a Resolvable Private Address was
//! generated from a given Identity Resolving Key.

mod addr;

pub use addr::Address;
pub use addr::AddressParseError;
pub use addr::BdAddr;
pub use addr::InvalidAddressTypeError;
pub use addr::InvalidBitsForAddressType;
pub use addr::NonResolvablePrivateAddress;
pub use addr::PublicDeviceAddress;
pub use addr::RandomDeviceAddress;
pub use addr::ResolvablePrivateAddress;
pub use addr::StaticDeviceAddress;

pub use addr::aes128_encrypted;
pub use addr::byte_chars;
pub use addr::display_chars;
pub use addr::field_val;
pub use addr::hex_digit_val;
pub use addr::is_addr_text;
pub use addr::is_hex_digit;
pub use addr::lemma_classification_total;
pub use addr::lemma_format_parse_round_trip;
pub use addr::lemma_strict_lenient_agree;
pub use addr::nibble_char;
pub use addr::parsed_bytes;
pub use addr::reversed16;
pub use addr::rpa_matches;
pub use addr::rpa_plaintext;
pub use addr::spec_classify;
pub use addr::spec_parsed;
pub use addr::spec_tag;
pub use addr::two_bit_chars;
