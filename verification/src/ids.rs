//! The well-known account addresses the operations name.
//!
//! The ledger assigns fixed addresses to its native programs and sysvar
//! accounts; operations that call into them must name them in their
//! account lists. Each address here is written out in this library's own
//! word form; the tests hold every one of them against the id the
//! ledger's libraries export.

use vstd::prelude::*;

use crate::address::Address;

verus! {

/// The address of the rent sysvar account
/// (`SysvarRent111111111111111111111111111111111`).
pub open spec fn spec_sysvar_rent_id() -> Address {
    Address { w0: 0x515c2c1917d5a706, w1: 0x7ff14a3d4cc98c21, w2: 0x44fda19b08eeda58, w3: 0x8ad9dbe3 }
}

/// The address of the rent sysvar account
/// (`SysvarRent111111111111111111111111111111111`).
pub fn sysvar_rent_id() -> (r: Address)
    ensures
        r == spec_sysvar_rent_id(),
{
    Address { w0: 0x515c2c1917d5a706, w1: 0x7ff14a3d4cc98c21, w2: 0x44fda19b08eeda58, w3: 0x8ad9dbe3 }
}

/// The address of the clock sysvar account
/// (`SysvarC1ock11111111111111111111111111111111`).
pub open spec fn spec_sysvar_clock_id() -> Address {
    Address { w0: 0xc974c71817d5a706, w1: 0xb65e1d6998635628, w2: 0x5c6d4b9ba3b85e8b, w3: 0x215b5573 }
}

/// The address of the clock sysvar account
/// (`SysvarC1ock11111111111111111111111111111111`).
pub fn sysvar_clock_id() -> (r: Address)
    ensures
        r == spec_sysvar_clock_id(),
{
    Address { w0: 0xc974c71817d5a706, w1: 0xb65e1d6998635628, w2: 0x5c6d4b9ba3b85e8b, w3: 0x215b5573 }
}

/// The address of the stake-history sysvar account
/// (`SysvarStakeHistory1111111111111111111111111`).
pub open spec fn spec_sysvar_stake_history_id() -> Address {
    Address { w0: 0xd084351917d5a706, w1: 0x20131d43b39bedfe, w2: 0x56b8571b2844e56b, w3: 0xf45f37c56c }
}

/// The address of the stake-history sysvar account
/// (`SysvarStakeHistory1111111111111111111111111`).
pub fn sysvar_stake_history_id() -> (r: Address)
    ensures
        r == spec_sysvar_stake_history_id(),
{
    Address { w0: 0xd084351917d5a706, w1: 0x20131d43b39bedfe, w2: 0x56b8571b2844e56b, w3: 0xf45f37c56c }
}

/// The address of the token program that holds the mints and token accounts
/// (`TokenkegQfeZyiNwAJbNbGKPFXCWuBvf9Ss623VQ5DA`).
pub open spec fn spec_spl_token_id() -> Address {
    Address { w0: 0x93a165d7e1f6dd06, w1: 0xac79ebce46e1cbd9, w2: 0x91375b5fed85b41c, w3: 0xa900ff7e85f58c3a }
}

/// The address of the token program that holds the mints and token accounts
/// (`TokenkegQfeZyiNwAJbNbGKPFXCWuBvf9Ss623VQ5DA`).
pub fn spl_token_id() -> (r: Address)
    ensures
        r == spec_spl_token_id(),
{
    Address { w0: 0x93a165d7e1f6dd06, w1: 0xac79ebce46e1cbd9, w2: 0x91375b5fed85b41c, w3: 0xa900ff7e85f58c3a }
}

/// The address of the system program
/// (`11111111111111111111111111111111`).
pub open spec fn spec_system_program_id() -> Address {
    Address { w0: 0x0, w1: 0x0, w2: 0x0, w3: 0x0 }
}

/// The address of the system program
/// (`11111111111111111111111111111111`).
pub fn system_program_id() -> (r: Address)
    ensures
        r == spec_system_program_id(),
{
    Address { w0: 0x0, w1: 0x0, w2: 0x0, w3: 0x0 }
}

/// The address of the stake program
/// (`Stake11111111111111111111111111111111111111`).
pub open spec fn spec_stake_program_id() -> Address {
    Address { w0: 0x2a54379117d8a106, w1: 0xb27a2afebd373498, w2: 0x2b72788a5c537f55, w3: 0xc09da468 }
}

/// The address of the stake program
/// (`Stake11111111111111111111111111111111111111`).
pub fn stake_program_id() -> (r: Address)
    ensures
        r == spec_stake_program_id(),
{
    Address { w0: 0x2a54379117d8a106, w1: 0xb27a2afebd373498, w2: 0x2b72788a5c537f55, w3: 0xc09da468 }
}

/// The address of the stake program's configuration account
/// (`StakeConfig11111111111111111111111111111111`).
pub open spec fn spec_stake_program_config_id() -> Address {
    Address { w0: 0xb0502a517d8a106, w1: 0x8eb86dcee6910768, w2: 0x79c61ff650715b1e, w3: 0xd1b44e0a }
}

/// The address of the stake program's configuration account
/// (`StakeConfig11111111111111111111111111111111`).
pub fn stake_program_config_id() -> (r: Address)
    ensures
        r == spec_stake_program_config_id(),
{
    Address { w0: 0xb0502a517d8a106, w1: 0x8eb86dcee6910768, w2: 0x79c61ff650715b1e, w3: 0xd1b44e0a }
}

} // verus!
