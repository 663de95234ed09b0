//! Account addresses as plain values.
//!
//! The surrounding ledger identifies every account by a 32-byte address.
//! The core never looks inside an address; it only stores, compares and
//! forwards them. An [`Address`] holds the 32 bytes as four 64-bit words in
//! little-endian order, so that equality is plain field equality and the
//! whole value stays visible to the verifier.

use vstd::prelude::*;

verus! {

/// A 32-byte account address, held as four little-endian 64-bit words.
#[derive(Clone, Copy, Debug, Hash, PartialEq, Eq, Structural)]
pub struct Address {
    pub w0: u64,
    pub w1: u64,
    pub w2: u64,
    pub w3: u64,
}

impl Address {
    /// The all-zero address, used where the ledger uses an unset address.
    pub fn zero() -> (r: Address)
        ensures
            r == (Address { w0: 0, w1: 0, w2: 0, w3: 0 }),
    {
        Address { w0: 0, w1: 0, w2: 0, w3: 0 }
    }
}

} // verus!
