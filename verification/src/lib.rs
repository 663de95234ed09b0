//! Accounting and governance core of a liquid-staking pool.
//!
//! The crate models the protocol's state machine and arithmetic engine:
//! typed, overflow-checked value units (`token`), the exchange-rate and
//! reward-distribution engine with its lifecycle handlers (`state`,
//! `processor`), the pool-level value-conservation argument (`balance`),
//! the declarative account-authorization protocol (`accounts`), the
//! instruction payload codec and builders (`instruction`), and the
//! derived addresses of the instance's authorities (`pda`, `ids`).
//!
//! This file holds the named seeds from which the instance's authority
//! addresses are derived (see `pda::find_authority_program_address`).

use vstd::prelude::*;

pub mod accounts;
pub mod address;
pub mod balance;
pub mod config;
pub mod error;
pub mod ids;
pub mod instruction;
pub mod pda;
pub mod processor;
pub mod state;
pub mod token;

verus! {

/// Seed of the reserve authority (`b"reserve_authority"`).
/// Custody of deposited native value; the main holder authority of
/// the derivative token and its mint.
pub open spec fn spec_reserve_authority_seed() -> Seq<u8> {
    seq![114u8, 101u8, 115u8, 101u8, 114u8, 118u8, 101u8, 95u8, 97u8, 117u8, 116u8, 104u8, 111u8, 114u8, 105u8, 116u8, 121u8]
}

/// The seed bytes of the reserve authority (`b"reserve_authority"`).
/// Custody of deposited native value; the main holder authority of
/// the derivative token and its mint.
pub fn reserve_authority_seed() -> (r: Vec<u8>)
    ensures
        r@ == spec_reserve_authority_seed(),
{
    let mut seed: Vec<u8> = Vec::new();
    seed.push(114u8);
    seed.push(101u8);
    seed.push(115u8);
    seed.push(101u8);
    seed.push(114u8);
    seed.push(118u8);
    seed.push(101u8);
    seed.push(95u8);
    seed.push(97u8);
    seed.push(117u8);
    seed.push(116u8);
    seed.push(104u8);
    seed.push(111u8);
    seed.push(114u8);
    seed.push(105u8);
    seed.push(116u8);
    seed.push(121u8);
    proof {
        assert(seed@ =~= spec_reserve_authority_seed());
    }
    seed
}

/// Seed of the deposit authority (`b"deposit_authority"`).
/// Signs the movement of stake accounts on the instance's behalf.
pub open spec fn spec_deposit_authority_seed() -> Seq<u8> {
    seq![100u8, 101u8, 112u8, 111u8, 115u8, 105u8, 116u8, 95u8, 97u8, 117u8, 116u8, 104u8, 111u8, 114u8, 105u8, 116u8, 121u8]
}

/// The seed bytes of the deposit authority (`b"deposit_authority"`).
/// Signs the movement of stake accounts on the instance's behalf.
pub fn deposit_authority_seed() -> (r: Vec<u8>)
    ensures
        r@ == spec_deposit_authority_seed(),
{
    let mut seed: Vec<u8> = Vec::new();
    seed.push(100u8);
    seed.push(101u8);
    seed.push(112u8);
    seed.push(111u8);
    seed.push(115u8);
    seed.push(105u8);
    seed.push(116u8);
    seed.push(95u8);
    seed.push(97u8);
    seed.push(117u8);
    seed.push(116u8);
    seed.push(104u8);
    seed.push(111u8);
    seed.push(114u8);
    seed.push(105u8);
    seed.push(116u8);
    seed.push(121u8);
    proof {
        assert(seed@ =~= spec_deposit_authority_seed());
    }
    seed
}

/// Seed of the fee manager authority (`b"fee_authority"`).
/// Recipient authority for pool fees; fee distribution signs with it.
pub open spec fn spec_fee_manager_authority_seed() -> Seq<u8> {
    seq![102u8, 101u8, 101u8, 95u8, 97u8, 117u8, 116u8, 104u8, 111u8, 114u8, 105u8, 116u8, 121u8]
}

/// The seed bytes of the fee manager authority (`b"fee_authority"`).
/// Recipient authority for pool fees; fee distribution signs with it.
pub fn fee_manager_authority_seed() -> (r: Vec<u8>)
    ensures
        r@ == spec_fee_manager_authority_seed(),
{
    let mut seed: Vec<u8> = Vec::new();
    seed.push(102u8);
    seed.push(101u8);
    seed.push(101u8);
    seed.push(95u8);
    seed.push(97u8);
    seed.push(117u8);
    seed.push(116u8);
    seed.push(104u8);
    seed.push(111u8);
    seed.push(114u8);
    seed.push(105u8);
    seed.push(116u8);
    seed.push(121u8);
    proof {
        assert(seed@ =~= spec_fee_manager_authority_seed());
    }
    seed
}

/// Seed of the stake pool authority (`b"stake_pool_authority"`).
/// The staker role over the instance's delegations.
pub open spec fn spec_stake_pool_authority_seed() -> Seq<u8> {
    seq![115u8, 116u8, 97u8, 107u8, 101u8, 95u8, 112u8, 111u8, 111u8, 108u8, 95u8, 97u8, 117u8, 116u8, 104u8, 111u8, 114u8, 105u8, 116u8, 121u8]
}

/// The seed bytes of the stake pool authority (`b"stake_pool_authority"`).
/// The staker role over the instance's delegations.
pub fn stake_pool_authority_seed() -> (r: Vec<u8>)
    ensures
        r@ == spec_stake_pool_authority_seed(),
{
    let mut seed: Vec<u8> = Vec::new();
    seed.push(115u8);
    seed.push(116u8);
    seed.push(97u8);
    seed.push(107u8);
    seed.push(101u8);
    seed.push(95u8);
    seed.push(112u8);
    seed.push(111u8);
    seed.push(111u8);
    seed.push(108u8);
    seed.push(95u8);
    seed.push(97u8);
    seed.push(117u8);
    seed.push(116u8);
    seed.push(104u8);
    seed.push(111u8);
    seed.push(114u8);
    seed.push(105u8);
    seed.push(116u8);
    seed.push(121u8);
    proof {
        assert(seed@ =~= spec_stake_pool_authority_seed());
    }
    seed
}

/// Seed of the validator stake account (`b"validator_stake_account"`).
/// Namespace seed for validator stake accounts, combined with the
/// per-validator seed number.
pub open spec fn spec_validator_stake_account_seed() -> Seq<u8> {
    seq![118u8, 97u8, 108u8, 105u8, 100u8, 97u8, 116u8, 111u8, 114u8, 95u8, 115u8, 116u8, 97u8, 107u8, 101u8, 95u8, 97u8, 99u8, 99u8, 111u8, 117u8, 110u8, 116u8]
}

/// The seed bytes of the validator stake account (`b"validator_stake_account"`).
/// Namespace seed for validator stake accounts, combined with the
/// per-validator seed number.
pub fn validator_stake_account_seed() -> (r: Vec<u8>)
    ensures
        r@ == spec_validator_stake_account_seed(),
{
    let mut seed: Vec<u8> = Vec::new();
    seed.push(118u8);
    seed.push(97u8);
    seed.push(108u8);
    seed.push(105u8);
    seed.push(100u8);
    seed.push(97u8);
    seed.push(116u8);
    seed.push(111u8);
    seed.push(114u8);
    seed.push(95u8);
    seed.push(115u8);
    seed.push(116u8);
    seed.push(97u8);
    seed.push(107u8);
    seed.push(101u8);
    seed.push(95u8);
    seed.push(97u8);
    seed.push(99u8);
    seed.push(99u8);
    seed.push(111u8);
    seed.push(117u8);
    seed.push(110u8);
    seed.push(116u8);
    proof {
        assert(seed@ =~= spec_validator_stake_account_seed());
    }
    seed
}

} // verus!
