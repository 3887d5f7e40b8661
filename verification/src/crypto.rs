//! Fixed-size values that identify transactions and their authors.

use vstd::prelude::*;

verus! {

/// Number of bytes in a hash.
pub const HASH_SIZE: usize = 32;

/// Number of bytes in a public key.
pub const PUBLIC_KEY_LENGTH: usize = 32;

/// Content hash of a message, a transaction or a piece of service state.
#[derive(Debug, Clone, Copy, PartialEq, Eq)]
pub struct Hash {
    pub bytes: [u8; 32],
}

impl Hash {
    /// The hash made of zero bytes only.
    pub fn zero() -> (hash: Hash)
        ensures
            forall|i: int| 0 <= i < 32 ==> hash.bytes@[i] == 0u8,
    {
        Hash { bytes: [0u8; 32] }
    }

    /// Wraps the given bytes.
    pub fn new(bytes: [u8; 32]) -> (hash: Hash)
        ensures
            hash.bytes == bytes,
    {
        Hash { bytes }
    }
}

/// Public key of the author of a transaction.
#[derive(Debug, Clone, Copy, PartialEq, Eq)]
pub struct PublicKey {
    pub bytes: [u8; 32],
}

impl PublicKey {
    /// The key made of zero bytes only.
    pub fn zero() -> (key: PublicKey)
        ensures
            forall|i: int| 0 <= i < 32 ==> key.bytes@[i] == 0u8,
    {
        PublicKey { bytes: [0u8; 32] }
    }

    /// Wraps the given bytes.
    pub fn new(bytes: [u8; 32]) -> (key: PublicKey)
        ensures
            key.bytes == bytes,
    {
        PublicKey { bytes }
    }
}

} // verus!
