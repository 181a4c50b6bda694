//! RPA resolution: the AES-128 hash-and-compare procedure that tests whether
//! a Resolvable Private Address was generated from a given Identity
//! Resolving Key (Bluetooth Core Specification Vol 6, Part B, 1.3.2.3).

use aes::cipher::{Array, BlockCipherEncrypt, KeyInit};
use vstd::prelude::*;

use super::{Address, RandomDeviceAddress, ResolvablePrivateAddress};

verus! {

/// Error returned when RPA resolution is invoked on an address that is not
/// a resolvable private address.
#[derive(Debug, Clone, Copy, PartialEq, Eq)]
pub struct InvalidAddressTypeError;

/// The AES-128 encryption of one sixteen-byte block under a sixteen-byte
/// key. The ciphertext is a pure function of key and block; its value is
/// what the cipher computes.
pub uninterp spec fn aes128_encrypted(key: Seq<u8>, block: Seq<u8>) -> Seq<u8>;

/// Relies on `aes::Aes128` (`KeyInit::new`, `BlockCipherEncrypt::encrypt_block`):
/// single-block AES-128 encryption, a sixteen-byte ciphertext that depends on
/// the key and the plaintext block alone.
#[verifier::external_body]
fn aes128_encrypt_block(key: &[u8; 16], block: &[u8; 16]) -> (r: [u8; 16])
    ensures
        r@ == aes128_encrypted(key@, block@),
{
    let cipher = aes::Aes128::new(&Array::from(*key));
    let mut b = Array::from(*block);
    cipher.encrypt_block(&mut b);
    b.into()
}

/// A sixteen-byte sequence in reverse byte order: the cipher operates on a
/// big-endian 128-bit block while addresses and keys are stored least
/// significant octet first.
pub open spec fn reversed16(s: Seq<u8>) -> Seq<u8>
    recommends
        s.len() == 16,
{
    Seq::new(16, |i: int| s[15 - i])
}

/// The plaintext block for RPA resolution: the three prand bytes of the
/// address (its upper half in storage order), byte-reversed and right-padded
/// to sixteen bytes with zeroes on the cipher's side.
pub open spec fn rpa_plaintext(addr: Seq<u8>) -> Seq<u8>
    recommends
        addr.len() == 6,
{
    Seq::new(
        16,
        |i: int|
            if i == 13 {
                addr[5]
            } else if i == 14 {
                addr[4]
            } else if i == 15 {
                addr[3]
            } else {
                0u8
            },
    )
}

/// Whether the hash field of an RPA (its lower three bytes in storage order)
/// equals the AES-128 hash of its own prand field under the byte-reversed
/// key, per Bluetooth RPA resolution.
pub open spec fn rpa_matches(addr: Seq<u8>, irk: Seq<u8>) -> bool
    recommends
        addr.len() == 6,
        irk.len() == 16,
{
    let e = aes128_encrypted(reversed16(irk), rpa_plaintext(addr));
    e[15] == addr[0] && e[14] == addr[1] && e[13] == addr[2]
}

impl ResolvablePrivateAddress {
    /// Test whether this address was generated from the given Identity
    /// Resolving Key.
    pub fn matches(&self, irk: &[u8; 16]) -> (r: bool)
        ensures
            r == rpa_matches(self@, irk@),
    {
        let bytes = (self.0).0;
        let mut key: [u8; 16] = [0;16];
        let mut i: usize = 0;
        while i < 16
            invariant
                i <= 16,
                forall|j: int| 0 <= j < i ==> key@[j] == irk@[15 - j],
            decreases 16 - i,
        {
            key[i] = irk[15 - i];
            i = i + 1;
        }
        let mut block: [u8; 16] = [0;16];
        block[13] = bytes[5];
        block[14] = bytes[4];
        block[15] = bytes[3];
        proof {
            assert(key@ =~= reversed16(irk@));
            assert(block@ =~= rpa_plaintext(self@));
        }
        let e = aes128_encrypt_block(&key, &block);
        e[15] == bytes[0] && e[14] == bytes[1] && e[13] == bytes[2]
    }
}

impl Address {
    /// RPA resolution gated by sub-type: test the Identity Resolving Key
    /// where this is a resolvable private address, and fail with an invalid
    /// address type error, without attempting the cipher, where it is not.
    pub fn matches(&self, irk: &[u8; 16]) -> (r: Result<bool, InvalidAddressTypeError>)
        ensures
            match r {
                Ok(m) => (*self) matches Address::LeRandom(RandomDeviceAddress::Resolvable(rpa))
                    && m == rpa_matches(rpa@, irk@),
                Err(_) => !((*self) matches Address::LeRandom(
                    RandomDeviceAddress::Resolvable(_),
                )),
            },
    {
        match self {
            Address::LeRandom(RandomDeviceAddress::Resolvable(rpa)) => Ok(rpa.matches(irk)),
            _ => Err(InvalidAddressTypeError),
        }
    }
}

} // verus!
