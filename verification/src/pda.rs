//! Program-derived addresses.
//!
//! The ledger derives sub-account addresses deterministically from a list
//! of seed byte strings and a program id, together with a disambiguation
//! bump seed. The derivation itself (a hash-based search) lives in the
//! ledger's own library; this module wraps that one call and gives its
//! result a name, so contracts can say exactly which derived address a
//! function returns without restating the hash.

use vstd::prelude::*;

use crate::address::Address;
use vstd::bytes::{spec_u64_to_le_bytes, u64_to_le_bytes};

verus! {

/// The bytes of an address: its four words, little-endian, in order.
pub open spec fn spec_address_bytes(address: Address) -> Seq<u8> {
    spec_u64_to_le_bytes(address.w0) + spec_u64_to_le_bytes(address.w1) + spec_u64_to_le_bytes(
        address.w2,
    ) + spec_u64_to_le_bytes(address.w3)
}

impl Address {
    /// The 32 bytes of this address, as the ledger writes them.
    pub fn to_bytes(&self) -> (r: Vec<u8>)
        ensures
            r@ == spec_address_bytes(*self),
    {
        let mut r = u64_to_le_bytes(self.w0);
        let mut r1 = u64_to_le_bytes(self.w1);
        let mut r2 = u64_to_le_bytes(self.w2);
        let mut r3 = u64_to_le_bytes(self.w3);
        r.append(&mut r1);
        r.append(&mut r2);
        r.append(&mut r3);
        r
    }
}

/// The derived address and bump seed that the ledger's derivation returns
/// for these seeds under this program id: a pure function of them alone,
/// or nothing in the statistically improbable case that no bump seed
/// yields a valid derived address (also when a seed is over the ledger's
/// seed-length limit).
pub uninterp spec fn derived_address(seeds: Seq<Seq<u8>>, program_id: Address) -> Option<
    (Address, u8),
>;

/// The ledger's key type, opaque here; this library's contracts speak of
/// [`Address`] instead.
#[verifier::external_type_specification]
#[verifier::external_body]
pub struct ExPubkey(solana_program::pubkey::Pubkey);

/// Relies on Pubkey::new_from_array. Repacks this library's address words
/// into the ledger's key type; nothing is claimed of the opaque result.
#[verifier::external_body]
fn address_to_pubkey(address: &Address) -> (r: solana_program::pubkey::Pubkey) {
    let mut bytes = [0u8; 32];
    bytes[0..8].copy_from_slice(&address.w0.to_le_bytes());
    bytes[8..16].copy_from_slice(&address.w1.to_le_bytes());
    bytes[16..24].copy_from_slice(&address.w2.to_le_bytes());
    bytes[24..32].copy_from_slice(&address.w3.to_le_bytes());
    solana_program::pubkey::Pubkey::new_from_array(bytes)
}

/// Relies on Pubkey::to_bytes. Unpacks the ledger's key type back into
/// this library's address words; nothing is claimed of the result.
#[verifier::external_body]
fn pubkey_to_address(pubkey: &solana_program::pubkey::Pubkey) -> (r: Address) {
    let bytes = pubkey.to_bytes();
    Address {
        w0: u64::from_le_bytes(bytes[0..8].try_into().unwrap()),
        w1: u64::from_le_bytes(bytes[8..16].try_into().unwrap()),
        w2: u64::from_le_bytes(bytes[16..24].try_into().unwrap()),
        w3: u64::from_le_bytes(bytes[24..32].try_into().unwrap()),
    }
}

/// Relies on Pubkey::try_find_program_address: the derived address and
/// bump seed for these seeds under this program id. The search is a pure
/// function of its arguments (a sha256-based walk over bump seeds), never
/// panics, and returns None when no bump seed yields a valid address or a
/// seed breaks the ledger's limits.
#[verifier::external_body]
fn try_find_program_address(seeds: &Vec<Vec<u8>>, program_id: &Address) -> (r: Option<
    (Address, u8),
>)
    ensures
        r == derived_address(seeds@.map_values(|s: Vec<u8>| s@), *program_id),
{
    let pubkey = address_to_pubkey(program_id);
    let seed_slices: Vec<&[u8]> = seeds.iter().map(|s| s.as_slice()).collect();
    solana_program::pubkey::Pubkey::try_find_program_address(&seed_slices, &pubkey).map(
        |(address, bump)| (pubkey_to_address(&address), bump),
    )
}

/// Find the derived address and bump seed of one of the instance's
/// authorities (reserve, deposit, fee manager, ...): derived from the
/// instance address and the authority's seed under the program id.
pub fn find_authority_program_address(
    program_id: &Address,
    lido_address: &Address,
    authority: &[u8],
) -> (r: Option<(Address, u8)>)
    ensures
        r == derived_address(
            seq![spec_address_bytes(*lido_address), authority@],
            *program_id,
        ),
{
    let mut seeds: Vec<Vec<u8>> = Vec::new();
    seeds.push(lido_address.to_bytes());
    seeds.push(vstd::slice::slice_to_vec(authority));
    proof {
        assert(seeds@.map_values(|s: Vec<u8>| s@) =~= seq![
            spec_address_bytes(*lido_address),
            authority@,
        ]);
    }
    try_find_program_address(&seeds, program_id)
}

/// Find the derived address and bump seed of one validator stake account:
/// derived from the instance address, the validator's vote account, the
/// stake-account seed namespace and the account's seed number.
pub fn find_stake_account_address(
    program_id: &Address,
    lido_address: &Address,
    vote_account_address: &Address,
    seed: u64,
) -> (r: Option<(Address, u8)>)
    ensures
        r == derived_address(
            seq![
                spec_address_bytes(*lido_address),
                spec_address_bytes(*vote_account_address),
                crate::spec_validator_stake_account_seed(),
                spec_u64_to_le_bytes(seed),
            ],
            *program_id,
        ),
{
    let mut seeds: Vec<Vec<u8>> = Vec::new();
    seeds.push(lido_address.to_bytes());
    seeds.push(vote_account_address.to_bytes());
    seeds.push(crate::validator_stake_account_seed());
    seeds.push(u64_to_le_bytes(seed));
    proof {
        assert(seeds@.map_values(|s: Vec<u8>| s@) =~= seq![
            spec_address_bytes(*lido_address),
            spec_address_bytes(*vote_account_address),
            crate::spec_validator_stake_account_seed(),
            spec_u64_to_le_bytes(seed),
        ]);
    }
    try_find_program_address(&seeds, program_id)
}

} // verus!
