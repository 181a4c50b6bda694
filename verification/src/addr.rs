//! The address data model: the raw 48-bit value, the typed wrappers whose tag
//! bits are checked on construction, the lenient classification of random
//! addresses, and the text codec.

use vstd::prelude::*;
use vstd::string::StrSliceExecFns;
use vstd::string::StringExecFns;

mod matches;

pub use matches::aes128_encrypted;
pub use matches::reversed16;
pub use matches::rpa_matches;
pub use matches::rpa_plaintext;
pub use matches::InvalidAddressTypeError;

verus! {

/// Error returned when a string does not match the colon-separated
/// six-octet hexadecimal grammar.
#[derive(Debug, Clone, Copy, PartialEq, Eq)]
pub struct AddressParseError;

/// Error returned by the strict constructors when the top two bits of the
/// most significant octet do not match the requested sub-type: it carries
/// the expected and the actual two-bit tag.
#[derive(Debug, Clone, Copy, PartialEq, Eq)]
pub struct InvalidBitsForAddressType(pub u8, pub u8);

/// Bluetooth Device Address without an address type.
///
/// The six bytes are stored least significant octet first, the order in
/// which they travel over the air.
#[derive(Debug, Clone, Copy, PartialEq, Eq, Hash)]
pub struct BdAddr(pub [u8; 6]);

impl View for BdAddr {
    type V = Seq<u8>;

    open spec fn view(&self) -> Seq<u8> {
        self.0@
    }
}

/// The two most significant bits of the most significant octet, which select
/// the sub-type of an LE random address.
pub open spec fn spec_tag(bytes: Seq<u8>) -> int
    recommends
        bytes.len() == 6,
{
    bytes[5] as int / 64
}

/// LE Public Device Address
#[derive(Debug, Clone, Copy, PartialEq, Eq, Hash)]
pub struct PublicDeviceAddress(pub BdAddr);

impl View for PublicDeviceAddress {
    type V = Seq<u8>;

    open spec fn view(&self) -> Seq<u8> {
        self.0@
    }
}

/// LE Non-Resolvable Private Address: tag bits `00`.
#[derive(Debug, Clone, Copy, PartialEq, Eq, Hash)]
pub struct NonResolvablePrivateAddress(pub BdAddr);

impl View for NonResolvablePrivateAddress {
    type V = Seq<u8>;

    open spec fn view(&self) -> Seq<u8> {
        self.0@
    }
}

/// LE Resolvable Private Address: tag bits `01`.
#[derive(Debug, Clone, Copy, PartialEq, Eq, Hash)]
pub struct ResolvablePrivateAddress(pub BdAddr);

impl View for ResolvablePrivateAddress {
    type V = Seq<u8>;

    open spec fn view(&self) -> Seq<u8> {
        self.0@
    }
}

/// LE Static Device Address: tag bits `11`.
#[derive(Debug, Clone, Copy, PartialEq, Eq, Hash)]
pub struct StaticDeviceAddress(pub BdAddr);

impl View for StaticDeviceAddress {
    type V = Seq<u8>;

    open spec fn view(&self) -> Seq<u8> {
        self.0@
    }
}

/// LE Random Device Address, classified by its tag bits.
#[derive(Debug, Clone, Copy, PartialEq, Eq, Hash)]
pub enum RandomDeviceAddress {
    /// Non-Resolvable Private Address
    NonResolvable(NonResolvablePrivateAddress),
    /// Resolvable Private Address
    Resolvable(ResolvablePrivateAddress),
    /// Static Device Address
    Static(StaticDeviceAddress),
    /// Reserved tag pattern
    Unknown(BdAddr),
}

/// Bluetooth Device Address
#[derive(Debug, Clone, Copy, PartialEq, Eq, Hash)]
pub enum Address {
    /// Classic BR/EDR Address
    BrEdr(BdAddr),
    /// LE Public Device Address
    LePublic(PublicDeviceAddress),
    /// LE Random Device Address
    LeRandom(RandomDeviceAddress),
}

/// What the lenient classification of a raw value yields: the sub-type is a
/// pure function of the tag bits, and the reserved pattern `10` falls back
/// to `Unknown`.
pub open spec fn spec_classify(addr: BdAddr) -> RandomDeviceAddress {
    if spec_tag(addr@) == 0 {
        RandomDeviceAddress::NonResolvable(NonResolvablePrivateAddress(addr))
    } else if spec_tag(addr@) == 1 {
        RandomDeviceAddress::Resolvable(ResolvablePrivateAddress(addr))
    } else if spec_tag(addr@) == 3 {
        RandomDeviceAddress::Static(StaticDeviceAddress(addr))
    } else {
        RandomDeviceAddress::Unknown(addr)
    }
}

impl BdAddr {
    /// Convert as BR/EDR Address.
    pub fn to_br_edr_addr(self) -> (r: Address)
        ensures
            r == Address::BrEdr(self),
    {
        Address::BrEdr(self)
    }

    /// Convert as LE Public Device Address.
    pub fn to_le_public_addr(self) -> (r: Address)
        ensures
            r == Address::LePublic(PublicDeviceAddress(self)),
    {
        Address::LePublic(PublicDeviceAddress(self))
    }

    /// Convert as LE Random Device Address.
    pub fn to_le_random_addr(self) -> (r: Address)
        ensures
            r == Address::LeRandom(spec_classify(self)),
    {
        Address::LeRandom(RandomDeviceAddress::new(self))
    }
}

impl From<[u8; 6]> for BdAddr {
    fn from(v: [u8; 6]) -> (r: Self) {
        BdAddr(v)
    }
}

impl vstd::std_specs::convert::FromSpecImpl<[u8; 6]> for BdAddr {
    open spec fn obeys_from_spec() -> bool {
        true
    }

    open spec fn from_spec(v: [u8; 6]) -> Self {
        BdAddr(v)
    }
}

impl From<BdAddr> for [u8; 6] {
    fn from(v: BdAddr) -> (r: Self) {
        v.0
    }
}

impl vstd::std_specs::convert::FromSpecImpl<BdAddr> for [u8; 6] {
    open spec fn obeys_from_spec() -> bool {
        true
    }

    open spec fn from_spec(v: BdAddr) -> Self {
        v.0
    }
}

impl RandomDeviceAddress {
    /// Classify a raw value by its tag bits; total, and the canonical way to
    /// interpret an address of unknown provenance.
    pub fn new(addr: BdAddr) -> (r: Self)
        ensures
            r == spec_classify(addr),
    {
        let b5 = addr.0[5];
        let tag = (b5 & 0xC0) >> 6;
        proof {
            assert((b5 & 0xC0) >> 6 == b5 / 64) by (bit_vector);
        }
        if tag == 0b00 {
            RandomDeviceAddress::NonResolvable(NonResolvablePrivateAddress(addr))
        } else if tag == 0b01 {
            RandomDeviceAddress::Resolvable(ResolvablePrivateAddress(addr))
        } else if tag == 0b11 {
            RandomDeviceAddress::Static(StaticDeviceAddress(addr))
        } else {
            RandomDeviceAddress::Unknown(addr)
        }
    }
}

impl NonResolvablePrivateAddress {
    /// What strict construction yields: the value when the tag bits are
    /// `00`, and otherwise the expected and actual tags.
    pub open spec fn spec_try_from(v: [u8; 6]) -> Result<Self, InvalidBitsForAddressType> {
        if spec_tag(v@) == 0 {
            Ok(NonResolvablePrivateAddress(BdAddr(v)))
        } else {
            Err(InvalidBitsForAddressType(0, spec_tag(v@) as u8))
        }
    }
}

impl TryFrom<[u8; 6]> for NonResolvablePrivateAddress {
    type Error = InvalidBitsForAddressType;

    fn try_from(v: [u8; 6]) -> (r: Result<Self, Self::Error>) {
        let b5 = v[5];
        let tag = (b5 & 0xC0) >> 6;
        proof {
            assert((b5 & 0xC0) >> 6 == b5 / 64) by (bit_vector);
        }
        if tag == 0b00 {
            Ok(NonResolvablePrivateAddress(BdAddr(v)))
        } else {
            Err(InvalidBitsForAddressType(0b00, tag))
        }
    }
}

impl vstd::std_specs::convert::TryFromSpecImpl<[u8; 6]> for NonResolvablePrivateAddress {
    open spec fn obeys_try_from_spec() -> bool {
        true
    }

    open spec fn try_from_spec(v: [u8; 6]) -> Result<Self, Self::Error> {
        Self::spec_try_from(v)
    }
}

impl ResolvablePrivateAddress {
    /// What strict construction yields: the value when the tag bits are
    /// `01`, and otherwise the expected and actual tags.
    pub open spec fn spec_try_from(v: [u8; 6]) -> Result<Self, InvalidBitsForAddressType> {
        if spec_tag(v@) == 1 {
            Ok(ResolvablePrivateAddress(BdAddr(v)))
        } else {
            Err(InvalidBitsForAddressType(1, spec_tag(v@) as u8))
        }
    }
}

impl TryFrom<[u8; 6]> for ResolvablePrivateAddress {
    type Error = InvalidBitsForAddressType;

    fn try_from(v: [u8; 6]) -> (r: Result<Self, Self::Error>) {
        let b5 = v[5];
        let tag = (b5 & 0xC0) >> 6;
        proof {
            assert((b5 & 0xC0) >> 6 == b5 / 64) by (bit_vector);
        }
        if tag == 0b01 {
            Ok(ResolvablePrivateAddress(BdAddr(v)))
        } else {
            Err(InvalidBitsForAddressType(0b01, tag))
        }
    }
}

impl vstd::std_specs::convert::TryFromSpecImpl<[u8; 6]> for ResolvablePrivateAddress {
    open spec fn obeys_try_from_spec() -> bool {
        true
    }

    open spec fn try_from_spec(v: [u8; 6]) -> Result<Self, Self::Error> {
        Self::spec_try_from(v)
    }
}

impl StaticDeviceAddress {
    /// What strict construction yields: the value when the tag bits are
    /// `11`, and otherwise the expected and actual tags.
    pub open spec fn spec_try_from(v: [u8; 6]) -> Result<Self, InvalidBitsForAddressType> {
        if spec_tag(v@) == 3 {
            Ok(StaticDeviceAddress(BdAddr(v)))
        } else {
            Err(InvalidBitsForAddressType(3, spec_tag(v@) as u8))
        }
    }
}

impl TryFrom<[u8; 6]> for StaticDeviceAddress {
    type Error = InvalidBitsForAddressType;

    fn try_from(v: [u8; 6]) -> (r: Result<Self, Self::Error>) {
        let b5 = v[5];
        let tag = (b5 & 0xC0) >> 6;
        proof {
            assert((b5 & 0xC0) >> 6 == b5 / 64) by (bit_vector);
        }
        if tag == 0b11 {
            Ok(StaticDeviceAddress(BdAddr(v)))
        } else {
            Err(InvalidBitsForAddressType(0b11, tag))
        }
    }
}

impl vstd::std_specs::convert::TryFromSpecImpl<[u8; 6]> for StaticDeviceAddress {
    open spec fn obeys_try_from_spec() -> bool {
        true
    }

    open spec fn try_from_spec(v: [u8; 6]) -> Result<Self, Self::Error> {
        Self::spec_try_from(v)
    }
}

impl From<[u8; 6]> for PublicDeviceAddress {
    fn from(v: [u8; 6]) -> (r: Self) {
        PublicDeviceAddress(BdAddr(v))
    }
}

impl vstd::std_specs::convert::FromSpecImpl<[u8; 6]> for PublicDeviceAddress {
    open spec fn obeys_from_spec() -> bool {
        true
    }

    open spec fn from_spec(v: [u8; 6]) -> Self {
        PublicDeviceAddress(BdAddr(v))
    }
}

impl From<PublicDeviceAddress> for Address {
    fn from(v: PublicDeviceAddress) -> (r: Self) {
        Address::LePublic(v)
    }
}

impl vstd::std_specs::convert::FromSpecImpl<PublicDeviceAddress> for Address {
    open spec fn obeys_from_spec() -> bool {
        true
    }

    open spec fn from_spec(v: PublicDeviceAddress) -> Self {
        Address::LePublic(v)
    }
}

impl From<NonResolvablePrivateAddress> for RandomDeviceAddress {
    fn from(v: NonResolvablePrivateAddress) -> (r: Self) {
        RandomDeviceAddress::NonResolvable(v)
    }
}

impl vstd::std_specs::convert::FromSpecImpl<NonResolvablePrivateAddress> for RandomDeviceAddress {
    open spec fn obeys_from_spec() -> bool {
        true
    }

    open spec fn from_spec(v: NonResolvablePrivateAddress) -> Self {
        RandomDeviceAddress::NonResolvable(v)
    }
}

impl From<ResolvablePrivateAddress> for RandomDeviceAddress {
    fn from(v: ResolvablePrivateAddress) -> (r: Self) {
        RandomDeviceAddress::Resolvable(v)
    }
}

impl vstd::std_specs::convert::FromSpecImpl<ResolvablePrivateAddress> for RandomDeviceAddress {
    open spec fn obeys_from_spec() -> bool {
        true
    }

    open spec fn from_spec(v: ResolvablePrivateAddress) -> Self {
        RandomDeviceAddress::Resolvable(v)
    }
}

impl From<StaticDeviceAddress> for RandomDeviceAddress {
    fn from(v: StaticDeviceAddress) -> (r: Self) {
        RandomDeviceAddress::Static(v)
    }
}

impl vstd::std_specs::convert::FromSpecImpl<StaticDeviceAddress> for RandomDeviceAddress {
    open spec fn obeys_from_spec() -> bool {
        true
    }

    open spec fn from_spec(v: StaticDeviceAddress) -> Self {
        RandomDeviceAddress::Static(v)
    }
}

impl From<[u8; 6]> for RandomDeviceAddress {
    fn from(v: [u8; 6]) -> (r: Self) {
        RandomDeviceAddress::new(BdAddr(v))
    }
}

impl vstd::std_specs::convert::FromSpecImpl<[u8; 6]> for RandomDeviceAddress {
    open spec fn obeys_from_spec() -> bool {
        true
    }

    open spec fn from_spec(v: [u8; 6]) -> Self {
        spec_classify(BdAddr(v))
    }
}

impl From<RandomDeviceAddress> for Address {
    fn from(v: RandomDeviceAddress) -> (r: Self) {
        Address::LeRandom(v)
    }
}

impl vstd::std_specs::convert::FromSpecImpl<RandomDeviceAddress> for Address {
    open spec fn obeys_from_spec() -> bool {
        true
    }

    open spec fn from_spec(v: RandomDeviceAddress) -> Self {
        Address::LeRandom(v)
    }
}

impl RandomDeviceAddress {
    /// The raw value carried by any of the four sub-type variants.
    pub open spec fn spec_bd_addr(self) -> BdAddr {
        match self {
            RandomDeviceAddress::NonResolvable(NonResolvablePrivateAddress(a)) => a,
            RandomDeviceAddress::Resolvable(ResolvablePrivateAddress(a)) => a,
            RandomDeviceAddress::Static(StaticDeviceAddress(a)) => a,
            RandomDeviceAddress::Unknown(a) => a,
        }
    }
}

impl Address {
    /// The raw value carried by any of the three variants.
    pub open spec fn spec_bd_addr(self) -> BdAddr {
        match self {
            Address::BrEdr(a) => a,
            Address::LePublic(PublicDeviceAddress(a)) => a,
            Address::LeRandom(r) => r.spec_bd_addr(),
        }
    }

    /// Construct Classic BR/EDR Address from bytes.
    pub fn bredr_from(b: [u8; 6]) -> (r: Self)
        ensures
            r == Address::BrEdr(BdAddr(b)),
    {
        Address::BrEdr(BdAddr(b))
    }

    /// Construct LE Public Device Address from bytes.
    pub fn le_public_from(b: [u8; 6]) -> (r: Self)
        ensures
            r == Address::LePublic(PublicDeviceAddress(BdAddr(b))),
    {
        Address::LePublic(PublicDeviceAddress(BdAddr(b)))
    }

    /// Construct LE Random Device Address from bytes, classifying it by its
    /// tag bits.
    pub fn le_random_from(b: [u8; 6]) -> (r: Self)
        ensures
            r == Address::LeRandom(spec_classify(BdAddr(b))),
    {
        Address::LeRandom(RandomDeviceAddress::new(BdAddr(b)))
    }

    /// Unwrap the inner raw value, discarding the type tag.
    pub fn into_bd_addr(self) -> (r: BdAddr)
        ensures
            r == self.spec_bd_addr(),
    {
        match self {
            Address::BrEdr(addr) => addr,
            Address::LePublic(PublicDeviceAddress(addr)) => addr,
            Address::LeRandom(RandomDeviceAddress::NonResolvable(NonResolvablePrivateAddress(
                addr,
            ))) => addr,
            Address::LeRandom(RandomDeviceAddress::Resolvable(ResolvablePrivateAddress(addr))) => addr,
            Address::LeRandom(RandomDeviceAddress::Static(StaticDeviceAddress(addr))) => addr,
            Address::LeRandom(RandomDeviceAddress::Unknown(addr)) => addr,
        }
    }
}

/// The lowercase hexadecimal digit for a value below sixteen.
pub open spec fn nibble_char(n: int) -> char
    recommends
        0 <= n < 16,
{
    if n == 0 {
        '0'
    } else if n == 1 {
        '1'
    } else if n == 2 {
        '2'
    } else if n == 3 {
        '3'
    } else if n == 4 {
        '4'
    } else if n == 5 {
        '5'
    } else if n == 6 {
        '6'
    } else if n == 7 {
        '7'
    } else if n == 8 {
        '8'
    } else if n == 9 {
        '9'
    } else if n == 10 {
        'a'
    } else if n == 11 {
        'b'
    } else if n == 12 {
        'c'
    } else if n == 13 {
        'd'
    } else if n == 14 {
        'e'
    } else {
        'f'
    }
}

/// Whether a character is a hexadecimal digit, of either case.
pub open spec fn is_hex_digit(c: char) -> bool {
    ('0' as int <= c as int && c as int <= '9' as int) || ('a' as int <= c as int && c as int
        <= 'f' as int) || ('A' as int <= c as int && c as int <= 'F' as int)
}

/// The value of a hexadecimal digit.
pub open spec fn hex_digit_val(c: char) -> int
    recommends
        is_hex_digit(c),
{
    if '0' as int <= c as int && c as int <= '9' as int {
        c as int - '0' as int
    } else if 'a' as int <= c as int && c as int <= 'f' as int {
        c as int - 'a' as int + 10
    } else {
        c as int - 'A' as int + 10
    }
}

/// The two lowercase hexadecimal digits of one byte.
pub open spec fn byte_chars(b: u8) -> Seq<char> {
    seq![nibble_char(b as int / 16), nibble_char(b as int % 16)]
}

/// The text rendering of a raw address: the six stored bytes in reverse
/// storage order, as lowercase two-digit hexadecimal octets joined by `:`.
pub open spec fn display_chars(bytes: Seq<u8>) -> Seq<char>
    recommends
        bytes.len() == 6,
{
    byte_chars(bytes[5]) + seq![':'] + byte_chars(bytes[4]) + seq![':'] + byte_chars(bytes[3])
        + seq![':'] + byte_chars(bytes[2]) + seq![':'] + byte_chars(bytes[1]) + seq![':']
        + byte_chars(bytes[0])
}

/// The parse grammar: exactly six colon-separated fields of exactly two
/// hexadecimal digits each.
pub open spec fn is_addr_text(s: Seq<char>) -> bool {
    &&& s.len() == 17
    &&& is_hex_digit(s[0])
    &&& is_hex_digit(s[1])
    &&& s[2] == ':'
    &&& is_hex_digit(s[3])
    &&& is_hex_digit(s[4])
    &&& s[5] == ':'
    &&& is_hex_digit(s[6])
    &&& is_hex_digit(s[7])
    &&& s[8] == ':'
    &&& is_hex_digit(s[9])
    &&& is_hex_digit(s[10])
    &&& s[11] == ':'
    &&& is_hex_digit(s[12])
    &&& is_hex_digit(s[13])
    &&& s[14] == ':'
    &&& is_hex_digit(s[15])
    &&& is_hex_digit(s[16])
}

/// The byte written in field `j` of the text, counting fields from the most
/// significant octet.
pub open spec fn field_val(s: Seq<char>, j: int) -> u8
    recommends
        is_addr_text(s),
        0 <= j < 6,
{
    (hex_digit_val(s[3 * j]) * 16 + hex_digit_val(s[3 * j + 1])) as u8
}

/// The six bytes denoted by a well-formed text, in storage order: the last
/// field of the text is the first stored byte.
pub open spec fn parsed_bytes(s: Seq<char>) -> Seq<u8>
    recommends
        is_addr_text(s),
{
    seq![
        field_val(s, 5),
        field_val(s, 4),
        field_val(s, 3),
        field_val(s, 2),
        field_val(s, 1),
        field_val(s, 0),
    ]
}

/// The one-character string for a value below sixteen, as a lowercase
/// hexadecimal digit.
fn nibble_str(n: u8) -> (r: &'static str)
    requires
        n < 16,
    ensures
        r@ =~= seq![nibble_char(n as int)],
{
    proof {
        reveal_strlit("0");
        reveal_strlit("1");
        reveal_strlit("2");
        reveal_strlit("3");
        reveal_strlit("4");
        reveal_strlit("5");
        reveal_strlit("6");
        reveal_strlit("7");
        reveal_strlit("8");
        reveal_strlit("9");
        reveal_strlit("a");
        reveal_strlit("b");
        reveal_strlit("c");
        reveal_strlit("d");
        reveal_strlit("e");
        reveal_strlit("f");
    }
    match n {
        0 => "0",
        1 => "1",
        2 => "2",
        3 => "3",
        4 => "4",
        5 => "5",
        6 => "6",
        7 => "7",
        8 => "8",
        9 => "9",
        10 => "a",
        11 => "b",
        12 => "c",
        13 => "d",
        14 => "e",
        _ => "f",
    }
}

impl BdAddr {
    /// Append the two lowercase hexadecimal digits of one byte.
    fn push_byte_hex(s: &mut String, b: u8)
        ensures
            final(s)@ == old(s)@ + byte_chars(b),
    {
        s.append(nibble_str(b / 16));
        s.append(nibble_str(b % 16));
        proof {
            assert(s@ =~= old(s)@ + byte_chars(b));
        }
    }

    /// Render the address as text: the six stored bytes in reverse storage
    /// order, as lowercase two-digit hexadecimal octets joined by `:`.
    pub fn to_string(&self) -> (r: String)
        ensures
            r@ == display_chars(self@),
    {
        let mut s = String::new();
        Self::push_byte_hex(&mut s, self.0[5]);
        s.append(":");
        Self::push_byte_hex(&mut s, self.0[4]);
        s.append(":");
        Self::push_byte_hex(&mut s, self.0[3]);
        s.append(":");
        Self::push_byte_hex(&mut s, self.0[2]);
        s.append(":");
        Self::push_byte_hex(&mut s, self.0[1]);
        s.append(":");
        Self::push_byte_hex(&mut s, self.0[0]);
        proof {
            reveal_strlit(":");
            assert(s@ =~= display_chars(self@));
        }
        s
    }
}

/// The value of one hexadecimal digit character, or `None` for any other
/// character.
fn hex_digit_value(c: char) -> (r: Option<u8>)
    ensures
        match r {
            Some(v) => is_hex_digit(c) && v == hex_digit_val(c) && v < 16,
            None => !is_hex_digit(c),
        },
{
    let u = c as u32;
    if 48 <= u && u <= 57 {
        Some((u - 48) as u8)
    } else if 97 <= u && u <= 102 {
        Some((u - 87) as u8)
    } else if 65 <= u && u <= 70 {
        Some((u - 55) as u8)
    } else {
        None
    }
}

impl BdAddr {
    /// The byte written in field `j` of the text, or `None` where either of
    /// its two characters is not a hexadecimal digit.
    fn parse_field(s: &str, j: usize) -> (r: Option<u8>)
        requires
            s@.len() == 17,
            j < 6,
        ensures
            match r {
                Some(v) => is_hex_digit(s@[3 * j as int]) && is_hex_digit(s@[3 * j as int + 1])
                    && v == field_val(s@, j as int),
                None => !(is_hex_digit(s@[3 * j as int]) && is_hex_digit(s@[3 * j as int + 1])),
            },
    {
        let hi = match hex_digit_value(s.get_char(3 * j)) {
            Some(v) => v,
            None => {
                return None;
            },
        };
        let lo = match hex_digit_value(s.get_char(3 * j + 1)) {
            Some(v) => v,
            None => {
                return None;
            },
        };
        Some(hi * 16 + lo)
    }

    /// Parse the colon-separated six-octet hexadecimal text of an address,
    /// reversing the written order into storage order.
    pub fn from_str(s: &str) -> (r: Result<BdAddr, AddressParseError>)
        ensures
            match r {
                Ok(a) => is_addr_text(s@) && a@ =~= parsed_bytes(s@),
                Err(_) => !is_addr_text(s@),
            },
    {
        let n = s.unicode_len();
        if n != 17 {
            return Err(AddressParseError);
        }
        proof {
            reveal_strlit(":");
        }
        if s.get_char(2) != ':' || s.get_char(5) != ':' || s.get_char(8) != ':' || s.get_char(11)
            != ':' || s.get_char(14) != ':' {
            return Err(AddressParseError);
        }
        let f0 = match Self::parse_field(s, 0) {
            Some(v) => v,
            None => {
                return Err(AddressParseError);
            },
        };
        let f1 = match Self::parse_field(s, 1) {
            Some(v) => v,
            None => {
                return Err(AddressParseError);
            },
        };
        let f2 = match Self::parse_field(s, 2) {
            Some(v) => v,
            None => {
                return Err(AddressParseError);
            },
        };
        let f3 = match Self::parse_field(s, 3) {
            Some(v) => v,
            None => {
                return Err(AddressParseError);
            },
        };
        let f4 = match Self::parse_field(s, 4) {
            Some(v) => v,
            None => {
                return Err(AddressParseError);
            },
        };
        let f5 = match Self::parse_field(s, 5) {
            Some(v) => v,
            None => {
                return Err(AddressParseError);
            },
        };
        let a = BdAddr([f5, f4, f3, f2, f1, f0]);
        proof {
            assert(a@ =~= parsed_bytes(s@));
        }
        Ok(a)
    }

    /// Parse an address from text; the same codec as [`BdAddr::from_str`].
    pub fn try_from(value: &str) -> (r: Result<BdAddr, AddressParseError>)
        ensures
            match r {
                Ok(a) => is_addr_text(value@) && a@ =~= parsed_bytes(value@),
                Err(_) => !is_addr_text(value@),
            },
    {
        Self::from_str(value)
    }
}

impl core::str::FromStr for BdAddr {
    type Err = AddressParseError;

    fn from_str(s: &str) -> Result<Self, Self::Err> {
        BdAddr::from_str(s)
    }
}

/// That a raw address carries exactly the bytes a well-formed text denotes.
pub open spec fn spec_parsed(s: Seq<char>, a: BdAddr) -> bool {
    is_addr_text(s) && a@ =~= parsed_bytes(s)
}

impl Address {
    /// Construct Classic BR/EDR Address from str.
    pub fn bredr_from_str(s: &str) -> (r: Result<Self, AddressParseError>)
        ensures
            match r {
                Ok(a) => a matches Address::BrEdr(bd) && spec_parsed(s@, bd),
                Err(_) => !is_addr_text(s@),
            },
    {
        match BdAddr::from_str(s) {
            Ok(bd) => Ok(Address::BrEdr(bd)),
            Err(e) => Err(e),
        }
    }

    /// Construct LE Public Device Address from str.
    pub fn le_public_from_str(s: &str) -> (r: Result<Self, AddressParseError>)
        ensures
            match r {
                Ok(a) => a matches Address::LePublic(PublicDeviceAddress(bd)) && spec_parsed(
                    s@,
                    bd,
                ),
                Err(_) => !is_addr_text(s@),
            },
    {
        match BdAddr::from_str(s) {
            Ok(bd) => Ok(Address::LePublic(PublicDeviceAddress(bd))),
            Err(e) => Err(e),
        }
    }

    /// Construct LE Random Device Address from str, classifying it by its
    /// tag bits.
    pub fn le_random_from_str(s: &str) -> (r: Result<Self, AddressParseError>)
        ensures
            match r {
                Ok(a) => a matches Address::LeRandom(rd) && spec_parsed(s@, rd.spec_bd_addr())
                    && rd == spec_classify(rd.spec_bd_addr()),
                Err(_) => !is_addr_text(s@),
            },
    {
        match BdAddr::from_str(s) {
            Ok(bd) => Ok(Address::LeRandom(RandomDeviceAddress::new(bd))),
            Err(e) => Err(e),
        }
    }
}

/// A lowercase hexadecimal digit parses back to the value it was written
/// from.
proof fn lemma_nibble_round_trip(n: int)
    requires
        0 <= n < 16,
    ensures
        is_hex_digit(nibble_char(n)),
        hex_digit_val(nibble_char(n)) == n,
{
}

/// Round-trip law: the text rendering of any raw address matches the parse
/// grammar, and parsing it back yields the same six bytes.
pub proof fn lemma_format_parse_round_trip(a: BdAddr)
    ensures
        is_addr_text(display_chars(a@)),
        parsed_bytes(display_chars(a@)) =~= a@,
{
    let s = display_chars(a@);
    assert forall|n: int| 0 <= n < 16 implies is_hex_digit(nibble_char(n)) && hex_digit_val(
        nibble_char(n),
    ) == n by {
        lemma_nibble_round_trip(n);
    }
    assert forall|i: int| 0 <= i < 6 implies field_val(s, 5 - i) == a@[i] by {
        let b = a@[i];
        assert(s[3 * (5 - i)] == nibble_char(b as int / 16));
        assert(s[3 * (5 - i) + 1] == nibble_char(b as int % 16));
    }
    assert(parsed_bytes(s) =~= a@);
}

/// Classification totality: every raw value falls in exactly one of the four
/// sub-types, determined solely by the top two bits of its most significant
/// octet, and classification keeps the bytes unchanged.
pub proof fn lemma_classification_total(a: BdAddr)
    ensures
        0 <= spec_tag(a@) < 4,
        spec_classify(a).spec_bd_addr() == a,
        (spec_classify(a) is NonResolvable) <==> spec_tag(a@) == 0,
        (spec_classify(a) is Resolvable) <==> spec_tag(a@) == 1,
        (spec_classify(a) is Static) <==> spec_tag(a@) == 3,
        (spec_classify(a) is Unknown) <==> spec_tag(a@) == 2,
{
}

/// Strict and lenient construction agree: where a strict constructor accepts
/// six bytes, lenient classification yields the same sub-type with the same
/// bytes; where it rejects them, lenient classification yields a different
/// sub-type.
pub proof fn lemma_strict_lenient_agree(v: [u8; 6])
    ensures
        match NonResolvablePrivateAddress::spec_try_from(v) {
            Ok(a) => spec_classify(BdAddr(v)) == RandomDeviceAddress::NonResolvable(a),
            Err(_) => !(spec_classify(BdAddr(v)) is NonResolvable),
        },
        match ResolvablePrivateAddress::spec_try_from(v) {
            Ok(a) => spec_classify(BdAddr(v)) == RandomDeviceAddress::Resolvable(a),
            Err(_) => !(spec_classify(BdAddr(v)) is Resolvable),
        },
        match StaticDeviceAddress::spec_try_from(v) {
            Ok(a) => spec_classify(BdAddr(v)) == RandomDeviceAddress::Static(a),
            Err(_) => !(spec_classify(BdAddr(v)) is Static),
        },
{
}

/// The two binary digits of a two-bit tag value.
pub open spec fn two_bit_chars(n: int) -> Seq<char>
    recommends
        0 <= n < 4,
{
    seq![if n / 2 % 2 == 1 { '1' } else { '0' }, if n % 2 == 1 { '1' } else { '0' }]
}

impl AddressParseError {
    /// The parse failure message.
    pub fn to_string(&self) -> (r: String)
        ensures
            r@ == "failed to parse address"@,
    {
        "failed to parse address".to_owned()
    }
}

impl InvalidBitsForAddressType {
    /// The tag mismatch message: the expected and the actual two-bit tag,
    /// each written as two binary digits.
    pub open spec fn spec_message(self) -> Seq<char> {
        "Invalid bits for this address type. (expect: 0b"@ + two_bit_chars(self.0 as int)
            + ", but 0b"@ + two_bit_chars(self.1 as int) + ")"@
    }

    /// Append the two binary digits of a two-bit tag value.
    fn push_two_bits(s: &mut String, v: u8)
        ensures
            final(s)@ == old(s)@ + two_bit_chars(v as int),
    {
        proof {
            reveal_strlit("0");
            reveal_strlit("1");
        }
        s.append(if v / 2 % 2 == 1 { "1" } else { "0" });
        s.append(if v % 2 == 1 { "1" } else { "0" });
        proof {
            assert(s@ =~= old(s)@ + two_bit_chars(v as int));
        }
    }

    /// Render the tag mismatch message.
    pub fn to_string(&self) -> (r: String)
        ensures
            r@ == self.spec_message(),
    {
        let mut s = "Invalid bits for this address type. (expect: 0b".to_owned();
        Self::push_two_bits(&mut s, self.0);
        s.append(", but 0b");
        Self::push_two_bits(&mut s, self.1);
        s.append(")");
        proof {
            assert(s@ =~= self.spec_message());
        }
        s
    }
}

impl BdAddr {
    /// The debug rendering: the same text as the display rendering.
    pub fn debug_string(&self) -> (r: String)
        ensures
            r@ == display_chars(self@),
    {
        self.to_string()
    }
}

impl PublicDeviceAddress {
    /// The debug rendering: the type name around the address text.
    pub open spec fn spec_debug(self) -> Seq<char> {
        "PublicDeviceAddress("@ + display_chars(self@) + ")"@
    }

    /// Render the address as text, as [`BdAddr::to_string`] does.
    pub fn to_string(&self) -> (r: String)
        ensures
            r@ == display_chars(self@),
    {
        self.0.to_string()
    }

    /// Render the debug text.
    pub fn debug_string(&self) -> (r: String)
        ensures
            r@ == self.spec_debug(),
    {
        let mut s = "PublicDeviceAddress(".to_owned();
        let inner = self.0.to_string();
        s.append(inner.as_str());
        s.append(")");
        proof {
            assert(s@ =~= self.spec_debug());
        }
        s
    }
}

impl NonResolvablePrivateAddress {
    /// The debug rendering: the type name around the address text.
    pub open spec fn spec_debug(self) -> Seq<char> {
        "NonResolvablePrivateAddress("@ + display_chars(self@) + ")"@
    }

    /// Render the address as text, as [`BdAddr::to_string`] does.
    pub fn to_string(&self) -> (r: String)
        ensures
            r@ == display_chars(self@),
    {
        self.0.to_string()
    }

    /// Render the debug text.
    pub fn debug_string(&self) -> (r: String)
        ensures
            r@ == self.spec_debug(),
    {
        let mut s = "NonResolvablePrivateAddress(".to_owned();
        let inner = self.0.to_string();
        s.append(inner.as_str());
        s.append(")");
        proof {
            assert(s@ =~= self.spec_debug());
        }
        s
    }
}

impl ResolvablePrivateAddress {
    /// The debug rendering: the type name around the address text.
    pub open spec fn spec_debug(self) -> Seq<char> {
        "ResolvablePrivateAddress("@ + display_chars(self@) + ")"@
    }

    /// Render the address as text, as [`BdAddr::to_string`] does.
    pub fn to_string(&self) -> (r: String)
        ensures
            r@ == display_chars(self@),
    {
        self.0.to_string()
    }

    /// Render the debug text.
    pub fn debug_string(&self) -> (r: String)
        ensures
            r@ == self.spec_debug(),
    {
        let mut s = "ResolvablePrivateAddress(".to_owned();
        let inner = self.0.to_string();
        s.append(inner.as_str());
        s.append(")");
        proof {
            assert(s@ =~= self.spec_debug());
        }
        s
    }
}

impl StaticDeviceAddress {
    /// The debug rendering: the type name around the address text.
    pub open spec fn spec_debug(self) -> Seq<char> {
        "StaticDeviceAddress("@ + display_chars(self@) + ")"@
    }

    /// Render the address as text, as [`BdAddr::to_string`] does.
    pub fn to_string(&self) -> (r: String)
        ensures
            r@ == display_chars(self@),
    {
        self.0.to_string()
    }

    /// Render the debug text.
    pub fn debug_string(&self) -> (r: String)
        ensures
            r@ == self.spec_debug(),
    {
        let mut s = "StaticDeviceAddress(".to_owned();
        let inner = self.0.to_string();
        s.append(inner.as_str());
        s.append(")");
        proof {
            assert(s@ =~= self.spec_debug());
        }
        s
    }
}

impl RandomDeviceAddress {
    /// The debug rendering: the variant name around the wrapped value's
    /// debug text.
    pub open spec fn spec_debug(self) -> Seq<char> {
        match self {
            RandomDeviceAddress::NonResolvable(a) => "NonResolvable("@ + a.spec_debug() + ")"@,
            RandomDeviceAddress::Resolvable(a) => "Resolvable("@ + a.spec_debug() + ")"@,
            RandomDeviceAddress::Static(a) => "Static("@ + a.spec_debug() + ")"@,
            RandomDeviceAddress::Unknown(a) => "Unknown("@ + display_chars(a@) + ")"@,
        }
    }

    /// Render the wrapped address as text, as [`BdAddr::to_string`] does.
    pub fn to_string(&self) -> (r: String)
        ensures
            r@ == display_chars(self.spec_bd_addr()@),
    {
        match self {
            RandomDeviceAddress::NonResolvable(a) => a.to_string(),
            RandomDeviceAddress::Resolvable(a) => a.to_string(),
            RandomDeviceAddress::Static(a) => a.to_string(),
            RandomDeviceAddress::Unknown(a) => a.to_string(),
        }
    }

    /// Render the debug text.
    pub fn debug_string(&self) -> (r: String)
        ensures
            r@ == self.spec_debug(),
    {
        let (mut s, inner) = match self {
            RandomDeviceAddress::NonResolvable(a) => (
                "NonResolvable(".to_owned(),
                a.debug_string(),
            ),
            RandomDeviceAddress::Resolvable(a) => ("Resolvable(".to_owned(), a.debug_string()),
            RandomDeviceAddress::Static(a) => ("Static(".to_owned(), a.debug_string()),
            RandomDeviceAddress::Unknown(a) => ("Unknown(".to_owned(), a.debug_string()),
        };
        s.append(inner.as_str());
        s.append(")");
        proof {
            assert(s@ =~= self.spec_debug());
        }
        s
    }
}

impl Address {
    /// The debug rendering: the variant name around the wrapped value's
    /// debug text.
    pub open spec fn spec_debug(self) -> Seq<char> {
        match self {
            Address::BrEdr(a) => "BrEdr("@ + display_chars(a@) + ")"@,
            Address::LePublic(a) => "LePublic("@ + a.spec_debug() + ")"@,
            Address::LeRandom(a) => "LeRandom("@ + a.spec_debug() + ")"@,
        }
    }

    /// Render the wrapped address as text, as [`BdAddr::to_string`] does.
    pub fn to_string(&self) -> (r: String)
        ensures
            r@ == display_chars(self.spec_bd_addr()@),
    {
        match self {
            Address::BrEdr(a) => a.to_string(),
            Address::LePublic(a) => a.to_string(),
            Address::LeRandom(a) => a.to_string(),
        }
    }

    /// Render the debug text.
    pub fn debug_string(&self) -> (r: String)
        ensures
            r@ == self.spec_debug(),
    {
        let (mut s, inner) = match self {
            Address::BrEdr(a) => ("BrEdr(".to_owned(), a.debug_string()),
            Address::LePublic(a) => ("LePublic(".to_owned(), a.debug_string()),
            Address::LeRandom(a) => ("LeRandom(".to_owned(), a.debug_string()),
        };
        s.append(inner.as_str());
        s.append(")");
        proof {
            assert(s@ =~= self.spec_debug());
        }
        s
    }
}

} // verus!
