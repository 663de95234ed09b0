//! The operation set: payload codec and instruction builders.
//!
//! Each operation has a fixed one-byte discriminant followed by its
//! structured payload in little-endian fixed-width fields. `encode` and
//! `decode` are exact inverses (`lemma_codec_roundtrip`), and `decode`
//! rejects every byte string that no operation encodes to. Each operation
//! also declares its ordered account list once, as a `...AccountsMeta`
//! struct whose `spec_metas` fixes the order and the signer/writable flag
//! of every position; the builders emit instructions whose account lists
//! are exactly those declarations.

use vstd::prelude::*;

use crate::accounts::{spec_as_supplied, spec_roles_accept, AccountMeta, AccountRole};
use crate::address::Address;
use crate::error::LidoError;
use crate::ids::{
    spec_spl_token_id, spec_stake_program_config_id, spec_stake_program_id,
    spec_system_program_id, spec_sysvar_clock_id, spec_sysvar_rent_id,
    spec_sysvar_stake_history_id, spl_token_id, stake_program_config_id, stake_program_id,
    system_program_id, sysvar_clock_id, sysvar_rent_id, sysvar_stake_history_id,
};
use crate::state::{RewardDistribution, Weight};
use crate::token::{Lamports, StLamports};
use vstd::bytes::{
    lemma_auto_spec_u32_to_from_le_bytes, lemma_auto_spec_u64_to_from_le_bytes,
    spec_u32_from_le_bytes, spec_u32_to_le_bytes, spec_u64_from_le_bytes, spec_u64_to_le_bytes,
    u32_from_le_bytes, u32_to_le_bytes, u64_from_le_bytes, u64_to_le_bytes,
};
use vstd::slice::slice_subrange;

verus! {

/// One operation of the protocol, as its instruction payload carries it.
#[derive(Clone, Copy, Debug, PartialEq, Eq, Structural)]
pub enum LidoInstruction {
    Initialize {
        reward_distribution: RewardDistribution,
        max_validators: u32,
        max_maintainers: u32,
    },
    /// Deposit a given amount of native value. Callable by anybody.
    Deposit { amount: Lamports },
    /// Move deposited value into a new stake account and delegate it to a
    /// member validator.
    StakeDeposit { amount: Lamports },
    /// Recompute the exchange rate, at the beginning of the epoch.
    /// Callable by anybody.
    UpdateExchangeRate,
    /// Observe external changes in the balances of a validator's stake
    /// accounts and mint the reward delta.
    UpdateValidatorBalance,
    Withdraw { amount: StLamports },
    ClaimValidatorFees,
    ChangeRewardDistribution { new_reward_distribution: RewardDistribution },
    AddValidator { weight: Weight },
    RemoveValidator,
    AddMaintainer,
    RemoveMaintainer,
    MergeStake,
}

/// The payload bytes of a reward distribution: its four parts,
/// little-endian, in the fixed order insurance, treasury, validation,
/// manager.
pub open spec fn spec_encode_reward_distribution(d: RewardDistribution) -> Seq<u8> {
    spec_u32_to_le_bytes(d.insurance_fee) + spec_u32_to_le_bytes(d.treasury_fee)
        + spec_u32_to_le_bytes(d.validation_fee) + spec_u32_to_le_bytes(d.manager_fee)
}

/// The reward distribution a 16-byte payload slice decodes to.
pub open spec fn spec_decode_reward_distribution(s: Seq<u8>) -> RewardDistribution {
    RewardDistribution {
        insurance_fee: spec_u32_from_le_bytes(s.subrange(0, 4)),
        treasury_fee: spec_u32_from_le_bytes(s.subrange(4, 8)),
        validation_fee: spec_u32_from_le_bytes(s.subrange(8, 12)),
        manager_fee: spec_u32_from_le_bytes(s.subrange(12, 16)),
    }
}

/// The exact bytes an operation encodes to: its discriminant, then its
/// payload fields in order.
pub open spec fn spec_encode(instruction: LidoInstruction) -> Seq<u8> {
    match instruction {
        LidoInstruction::Initialize { reward_distribution, max_validators, max_maintainers } => seq![
            0u8,
        ] + spec_encode_reward_distribution(reward_distribution) + spec_u32_to_le_bytes(
            max_validators,
        ) + spec_u32_to_le_bytes(max_maintainers),
        LidoInstruction::Deposit { amount } => seq![1u8] + spec_u64_to_le_bytes(amount.0),
        LidoInstruction::StakeDeposit { amount } => seq![2u8] + spec_u64_to_le_bytes(amount.0),
        LidoInstruction::UpdateExchangeRate => seq![3u8],
        LidoInstruction::UpdateValidatorBalance => seq![4u8],
        LidoInstruction::Withdraw { amount } => seq![5u8] + spec_u64_to_le_bytes(amount.0),
        LidoInstruction::ClaimValidatorFees => seq![6u8],
        LidoInstruction::ChangeRewardDistribution { new_reward_distribution } => seq![7u8]
            + spec_encode_reward_distribution(new_reward_distribution),
        LidoInstruction::AddValidator { weight } => seq![8u8] + spec_u64_to_le_bytes(weight.0),
        LidoInstruction::RemoveValidator => seq![9u8],
        LidoInstruction::AddMaintainer => seq![10u8],
        LidoInstruction::RemoveMaintainer => seq![11u8],
        LidoInstruction::MergeStake => seq![12u8],
    }
}

/// The operation a byte string decodes to, or nothing when no operation
/// encodes to it (unknown discriminant or wrong payload length).
pub open spec fn spec_decode(data: Seq<u8>) -> Option<LidoInstruction> {
    if data.len() < 1 {
        None
    } else {
        let tag = data[0];
        if tag == 0 {
            if data.len() == 25 {
                Some(
                    LidoInstruction::Initialize {
                        reward_distribution: spec_decode_reward_distribution(data.subrange(1, 17)),
                        max_validators: spec_u32_from_le_bytes(data.subrange(17, 21)),
                        max_maintainers: spec_u32_from_le_bytes(data.subrange(21, 25)),
                    },
                )
            } else {
                None
            }
        } else if tag == 1 {
            if data.len() == 9 {
                Some(LidoInstruction::Deposit { amount: Lamports(spec_u64_from_le_bytes(data.subrange(1, 9))) })
            } else {
                None
            }
        } else if tag == 2 {
            if data.len() == 9 {
                Some(
                    LidoInstruction::StakeDeposit {
                        amount: Lamports(spec_u64_from_le_bytes(data.subrange(1, 9))),
                    },
                )
            } else {
                None
            }
        } else if tag == 3 {
            if data.len() == 1 {
                Some(LidoInstruction::UpdateExchangeRate)
            } else {
                None
            }
        } else if tag == 4 {
            if data.len() == 1 {
                Some(LidoInstruction::UpdateValidatorBalance)
            } else {
                None
            }
        } else if tag == 5 {
            if data.len() == 9 {
                Some(
                    LidoInstruction::Withdraw {
                        amount: StLamports(spec_u64_from_le_bytes(data.subrange(1, 9))),
                    },
                )
            } else {
                None
            }
        } else if tag == 6 {
            if data.len() == 1 {
                Some(LidoInstruction::ClaimValidatorFees)
            } else {
                None
            }
        } else if tag == 7 {
            if data.len() == 17 {
                Some(
                    LidoInstruction::ChangeRewardDistribution {
                        new_reward_distribution: spec_decode_reward_distribution(
                            data.subrange(1, 17),
                        ),
                    },
                )
            } else {
                None
            }
        } else if tag == 8 {
            if data.len() == 9 {
                Some(
                    LidoInstruction::AddValidator {
                        weight: Weight(spec_u64_from_le_bytes(data.subrange(1, 9))),
                    },
                )
            } else {
                None
            }
        } else if tag == 9 {
            if data.len() == 1 {
                Some(LidoInstruction::RemoveValidator)
            } else {
                None
            }
        } else if tag == 10 {
            if data.len() == 1 {
                Some(LidoInstruction::AddMaintainer)
            } else {
                None
            }
        } else if tag == 11 {
            if data.len() == 1 {
                Some(LidoInstruction::RemoveMaintainer)
            } else {
                None
            }
        } else if tag == 12 {
            if data.len() == 1 {
                Some(LidoInstruction::MergeStake)
            } else {
                None
            }
        } else {
            None
        }
    }
}

/// Encode a reward distribution into its 16 payload bytes.
fn encode_reward_distribution(d: &RewardDistribution) -> (r: Vec<u8>)
    ensures
        r@ == spec_encode_reward_distribution(*d),
{
    let mut out = u32_to_le_bytes(d.insurance_fee);
    let mut treasury = u32_to_le_bytes(d.treasury_fee);
    let mut validation = u32_to_le_bytes(d.validation_fee);
    let mut manager = u32_to_le_bytes(d.manager_fee);
    out.append(&mut treasury);
    out.append(&mut validation);
    out.append(&mut manager);
    out
}

/// Decode 16 payload bytes into a reward distribution.
fn decode_reward_distribution(s: &[u8]) -> (r: RewardDistribution)
    requires
        s@.len() == 16,
    ensures
        r == spec_decode_reward_distribution(s@),
{
    RewardDistribution {
        insurance_fee: u32_from_le_bytes(slice_subrange(s, 0, 4)),
        treasury_fee: u32_from_le_bytes(slice_subrange(s, 4, 8)),
        validation_fee: u32_from_le_bytes(slice_subrange(s, 8, 12)),
        manager_fee: u32_from_le_bytes(slice_subrange(s, 12, 16)),
    }
}

impl LidoInstruction {
    /// Serialize this operation into its instruction payload.
    pub fn encode(&self) -> (r: Vec<u8>)
        ensures
            r@ == spec_encode(*self),
    {
        let mut out: Vec<u8> = Vec::new();
        match *self {
            LidoInstruction::Initialize {
                reward_distribution,
                max_validators,
                max_maintainers,
            } => {
                out.push(0u8);
                let mut rd = encode_reward_distribution(&reward_distribution);
                let mut mv = u32_to_le_bytes(max_validators);
                let mut mm = u32_to_le_bytes(max_maintainers);
                out.append(&mut rd);
                out.append(&mut mv);
                out.append(&mut mm);
                proof {
                    assert(out@ =~= spec_encode(*self));
                }
            },
            LidoInstruction::Deposit { amount } => {
                out.push(1u8);
                let mut a = u64_to_le_bytes(amount.0);
                out.append(&mut a);
                proof {
                    assert(out@ =~= spec_encode(*self));
                }
            },
            LidoInstruction::StakeDeposit { amount } => {
                out.push(2u8);
                let mut a = u64_to_le_bytes(amount.0);
                out.append(&mut a);
                proof {
                    assert(out@ =~= spec_encode(*self));
                }
            },
            LidoInstruction::UpdateExchangeRate => {
                out.push(3u8);
                proof {
                    assert(out@ =~= spec_encode(*self));
                }
            },
            LidoInstruction::UpdateValidatorBalance => {
                out.push(4u8);
                proof {
                    assert(out@ =~= spec_encode(*self));
                }
            },
            LidoInstruction::Withdraw { amount } => {
                out.push(5u8);
                let mut a = u64_to_le_bytes(amount.0);
                out.append(&mut a);
                proof {
                    assert(out@ =~= spec_encode(*self));
                }
            },
            LidoInstruction::ClaimValidatorFees => {
                out.push(6u8);
                proof {
                    assert(out@ =~= spec_encode(*self));
                }
            },
            LidoInstruction::ChangeRewardDistribution { new_reward_distribution } => {
                out.push(7u8);
                let mut rd = encode_reward_distribution(&new_reward_distribution);
                out.append(&mut rd);
                proof {
                    assert(out@ =~= spec_encode(*self));
                }
            },
            LidoInstruction::AddValidator { weight } => {
                out.push(8u8);
                let mut w = u64_to_le_bytes(weight.0);
                out.append(&mut w);
                proof {
                    assert(out@ =~= spec_encode(*self));
                }
            },
            LidoInstruction::RemoveValidator => {
                out.push(9u8);
                proof {
                    assert(out@ =~= spec_encode(*self));
                }
            },
            LidoInstruction::AddMaintainer => {
                out.push(10u8);
                proof {
                    assert(out@ =~= spec_encode(*self));
                }
            },
            LidoInstruction::RemoveMaintainer => {
                out.push(11u8);
                proof {
                    assert(out@ =~= spec_encode(*self));
                }
            },
            LidoInstruction::MergeStake => {
                out.push(12u8);
                proof {
                    assert(out@ =~= spec_encode(*self));
                }
            },
        }
        out
    }

    /// Parse an instruction payload.
    ///
    /// Returns the one operation that encodes to exactly these bytes, and
    /// fails with `InvalidInstructionData` on every byte string that none
    /// does.
    pub fn decode(data: &Vec<u8>) -> (r: Result<LidoInstruction, LidoError>)
        ensures
            r == match spec_decode(data@) {
                Some(i) => Ok::<LidoInstruction, LidoError>(i),
                None => Err::<LidoInstruction, LidoError>(LidoError::InvalidInstructionData),
            },
    {
        if data.len() == 0 {
            return Err(LidoError::InvalidInstructionData);
        }
        let tag = data[0];
        if tag == 0 {
            if data.len() != 25 {
                return Err(LidoError::InvalidInstructionData);
            }
            Ok(
                LidoInstruction::Initialize {
                    reward_distribution: decode_reward_distribution(
                        slice_subrange(data.as_slice(), 1, 17),
                    ),
                    max_validators: u32_from_le_bytes(slice_subrange(data.as_slice(), 17, 21)),
                    max_maintainers: u32_from_le_bytes(slice_subrange(data.as_slice(), 21, 25)),
                },
            )
        } else if tag == 1 {
            if data.len() != 9 {
                return Err(LidoError::InvalidInstructionData);
            }
            Ok(
                LidoInstruction::Deposit {
                    amount: Lamports(u64_from_le_bytes(slice_subrange(data.as_slice(), 1, 9))),
                },
            )
        } else if tag == 2 {
            if data.len() != 9 {
                return Err(LidoError::InvalidInstructionData);
            }
            Ok(
                LidoInstruction::StakeDeposit {
                    amount: Lamports(u64_from_le_bytes(slice_subrange(data.as_slice(), 1, 9))),
                },
            )
        } else if tag == 3 {
            if data.len() != 1 {
                return Err(LidoError::InvalidInstructionData);
            }
            Ok(LidoInstruction::UpdateExchangeRate)
        } else if tag == 4 {
            if data.len() != 1 {
                return Err(LidoError::InvalidInstructionData);
            }
            Ok(LidoInstruction::UpdateValidatorBalance)
        } else if tag == 5 {
            if data.len() != 9 {
                return Err(LidoError::InvalidInstructionData);
            }
            Ok(
                LidoInstruction::Withdraw {
                    amount: StLamports(u64_from_le_bytes(slice_subrange(data.as_slice(), 1, 9))),
                },
            )
        } else if tag == 6 {
            if data.len() != 1 {
                return Err(LidoError::InvalidInstructionData);
            }
            Ok(LidoInstruction::ClaimValidatorFees)
        } else if tag == 7 {
            if data.len() != 17 {
                return Err(LidoError::InvalidInstructionData);
            }
            Ok(
                LidoInstruction::ChangeRewardDistribution {
                    new_reward_distribution: decode_reward_distribution(
                        slice_subrange(data.as_slice(), 1, 17),
                    ),
                },
            )
        } else if tag == 8 {
            if data.len() != 9 {
                return Err(LidoError::InvalidInstructionData);
            }
            Ok(
                LidoInstruction::AddValidator {
                    weight: Weight(u64_from_le_bytes(slice_subrange(data.as_slice(), 1, 9))),
                },
            )
        } else if tag == 9 {
            if data.len() != 1 {
                return Err(LidoError::InvalidInstructionData);
            }
            Ok(LidoInstruction::RemoveValidator)
        } else if tag == 10 {
            if data.len() != 1 {
                return Err(LidoError::InvalidInstructionData);
            }
            Ok(LidoInstruction::AddMaintainer)
        } else if tag == 11 {
            if data.len() != 1 {
                return Err(LidoError::InvalidInstructionData);
            }
            Ok(LidoInstruction::RemoveMaintainer)
        } else if tag == 12 {
            if data.len() != 1 {
                return Err(LidoError::InvalidInstructionData);
            }
            Ok(LidoInstruction::MergeStake)
        } else {
            Err(LidoError::InvalidInstructionData)
        }
    }
}

/// Decoding inverts encoding: every operation comes back from its own
/// payload bytes. Together with `decode`'s contract (only `spec_decode`'s
/// one reading is ever returned), the payload format is unambiguous.
pub proof fn lemma_codec_roundtrip(instruction: LidoInstruction)
    ensures
        spec_decode(spec_encode(instruction)) == Some(instruction),
{
    lemma_auto_spec_u32_to_from_le_bytes();
    lemma_auto_spec_u64_to_from_le_bytes();
    let e = spec_encode(instruction);
    match instruction {
        LidoInstruction::Initialize { reward_distribution, max_validators, max_maintainers } => {
            assert(e.subrange(1, 17).subrange(0, 4) =~= spec_u32_to_le_bytes(
                reward_distribution.insurance_fee,
            ));
            assert(e.subrange(1, 17).subrange(4, 8) =~= spec_u32_to_le_bytes(
                reward_distribution.treasury_fee,
            ));
            assert(e.subrange(1, 17).subrange(8, 12) =~= spec_u32_to_le_bytes(
                reward_distribution.validation_fee,
            ));
            assert(e.subrange(1, 17).subrange(12, 16) =~= spec_u32_to_le_bytes(
                reward_distribution.manager_fee,
            ));
            assert(e.subrange(17, 21) =~= spec_u32_to_le_bytes(max_validators));
            assert(e.subrange(21, 25) =~= spec_u32_to_le_bytes(max_maintainers));
        },
        LidoInstruction::Deposit { amount } => {
            assert(e.subrange(1, 9) =~= spec_u64_to_le_bytes(amount.0));
        },
        LidoInstruction::StakeDeposit { amount } => {
            assert(e.subrange(1, 9) =~= spec_u64_to_le_bytes(amount.0));
        },
        LidoInstruction::Withdraw { amount } => {
            assert(e.subrange(1, 9) =~= spec_u64_to_le_bytes(amount.0));
        },
        LidoInstruction::ChangeRewardDistribution { new_reward_distribution } => {
            assert(e.subrange(1, 17).subrange(0, 4) =~= spec_u32_to_le_bytes(
                new_reward_distribution.insurance_fee,
            ));
            assert(e.subrange(1, 17).subrange(4, 8) =~= spec_u32_to_le_bytes(
                new_reward_distribution.treasury_fee,
            ));
            assert(e.subrange(1, 17).subrange(8, 12) =~= spec_u32_to_le_bytes(
                new_reward_distribution.validation_fee,
            ));
            assert(e.subrange(1, 17).subrange(12, 16) =~= spec_u32_to_le_bytes(
                new_reward_distribution.manager_fee,
            ));
        },
        LidoInstruction::AddValidator { weight } => {
            assert(e.subrange(1, 9) =~= spec_u64_to_le_bytes(weight.0));
        },
        _ => {},
    }
}

/// The accounts of the `initialize` operation, as declared once for both
/// building and validation.
pub struct InitializeAccountsMeta {
    pub lido: Address,
    pub manager: Address,
    pub st_sol_mint: Address,
    pub treasury_account: Address,
    pub developer_account: Address,
    pub reserve_account: Address,
}

impl InitializeAccountsMeta {
    /// The ordered account list this operation declares, with the
    /// signer/writable flag of every position fixed by the declaration.
    pub open spec fn spec_metas(self) -> Seq<AccountMeta> {
        seq![
        AccountMeta { address: self.lido, is_signer: false, is_writable: true },
        AccountMeta { address: self.manager, is_signer: false, is_writable: false },
        AccountMeta { address: self.st_sol_mint, is_signer: false, is_writable: false },
        AccountMeta { address: self.treasury_account, is_signer: false, is_writable: false },
        AccountMeta { address: self.developer_account, is_signer: false, is_writable: false },
        AccountMeta { address: self.reserve_account, is_signer: false, is_writable: false },
        AccountMeta { address: spec_sysvar_rent_id(), is_signer: false, is_writable: false },
        AccountMeta { address: spec_spl_token_id(), is_signer: false, is_writable: false },
    ]
    }

    /// Emit the declared account list, in order.
    pub fn to_vec(&self) -> (r: Vec<AccountMeta>)
        ensures
            r@ == self.spec_metas(),
    {
        let mut v: Vec<AccountMeta> = Vec::new();
        v.push(AccountMeta { address: self.lido, is_signer: false, is_writable: true });
        v.push(AccountMeta { address: self.manager, is_signer: false, is_writable: false });
        v.push(AccountMeta { address: self.st_sol_mint, is_signer: false, is_writable: false });
        v.push(AccountMeta { address: self.treasury_account, is_signer: false, is_writable: false });
        v.push(AccountMeta { address: self.developer_account, is_signer: false, is_writable: false });
        v.push(AccountMeta { address: self.reserve_account, is_signer: false, is_writable: false });
        v.push(AccountMeta { address: sysvar_rent_id(), is_signer: false, is_writable: false });
        v.push(AccountMeta { address: spl_token_id(), is_signer: false, is_writable: false });
        proof {
            assert(v@ =~= self.spec_metas());
        }
        v
    }
}

/// The accounts of the `deposit` operation, as declared once for both
/// building and validation.
pub struct DepositAccountsMeta {
    pub lido: Address,
    pub user: Address,
    pub recipient: Address,
    pub st_sol_mint: Address,
    pub reserve_account: Address,
    pub mint_authority: Address,
}

impl DepositAccountsMeta {
    /// The ordered account list this operation declares, with the
    /// signer/writable flag of every position fixed by the declaration.
    pub open spec fn spec_metas(self) -> Seq<AccountMeta> {
        seq![
        AccountMeta { address: self.lido, is_signer: false, is_writable: false },
        AccountMeta { address: self.user, is_signer: true, is_writable: true },
        AccountMeta { address: self.recipient, is_signer: false, is_writable: true },
        AccountMeta { address: self.st_sol_mint, is_signer: false, is_writable: true },
        AccountMeta { address: self.reserve_account, is_signer: false, is_writable: true },
        AccountMeta { address: self.mint_authority, is_signer: false, is_writable: false },
        AccountMeta { address: spec_spl_token_id(), is_signer: false, is_writable: false },
        AccountMeta { address: spec_system_program_id(), is_signer: false, is_writable: false },
    ]
    }

    /// Emit the declared account list, in order.
    pub fn to_vec(&self) -> (r: Vec<AccountMeta>)
        ensures
            r@ == self.spec_metas(),
    {
        let mut v: Vec<AccountMeta> = Vec::new();
        v.push(AccountMeta { address: self.lido, is_signer: false, is_writable: false });
        v.push(AccountMeta { address: self.user, is_signer: true, is_writable: true });
        v.push(AccountMeta { address: self.recipient, is_signer: false, is_writable: true });
        v.push(AccountMeta { address: self.st_sol_mint, is_signer: false, is_writable: true });
        v.push(AccountMeta { address: self.reserve_account, is_signer: false, is_writable: true });
        v.push(AccountMeta { address: self.mint_authority, is_signer: false, is_writable: false });
        v.push(AccountMeta { address: spl_token_id(), is_signer: false, is_writable: false });
        v.push(AccountMeta { address: system_program_id(), is_signer: false, is_writable: false });
        proof {
            assert(v@ =~= self.spec_metas());
        }
        v
    }
}

/// The accounts of the `stake_deposit` operation, as declared once for both
/// building and validation.
pub struct StakeDepositAccountsMeta {
    pub lido: Address,
    pub maintainer: Address,
    pub reserve: Address,
    pub validator_vote_account: Address,
    pub stake_account_end: Address,
    pub stake_authority: Address,
}

impl StakeDepositAccountsMeta {
    /// The ordered account list this operation declares, with the
    /// signer/writable flag of every position fixed by the declaration.
    pub open spec fn spec_metas(self) -> Seq<AccountMeta> {
        seq![
        AccountMeta { address: self.lido, is_signer: false, is_writable: true },
        AccountMeta { address: self.maintainer, is_signer: true, is_writable: false },
        AccountMeta { address: self.reserve, is_signer: false, is_writable: true },
        AccountMeta { address: self.validator_vote_account, is_signer: false, is_writable: false },
        AccountMeta { address: self.stake_account_end, is_signer: false, is_writable: true },
        AccountMeta { address: self.stake_authority, is_signer: false, is_writable: true },
        AccountMeta { address: spec_sysvar_clock_id(), is_signer: false, is_writable: false },
        AccountMeta { address: spec_system_program_id(), is_signer: false, is_writable: false },
        AccountMeta { address: spec_sysvar_rent_id(), is_signer: false, is_writable: false },
        AccountMeta { address: spec_stake_program_id(), is_signer: false, is_writable: false },
        AccountMeta { address: spec_sysvar_stake_history_id(), is_signer: false, is_writable: false },
        AccountMeta { address: spec_stake_program_config_id(), is_signer: false, is_writable: false },
    ]
    }

    /// Emit the declared account list, in order.
    pub fn to_vec(&self) -> (r: Vec<AccountMeta>)
        ensures
            r@ == self.spec_metas(),
    {
        let mut v: Vec<AccountMeta> = Vec::new();
        v.push(AccountMeta { address: self.lido, is_signer: false, is_writable: true });
        v.push(AccountMeta { address: self.maintainer, is_signer: true, is_writable: false });
        v.push(AccountMeta { address: self.reserve, is_signer: false, is_writable: true });
        v.push(AccountMeta { address: self.validator_vote_account, is_signer: false, is_writable: false });
        v.push(AccountMeta { address: self.stake_account_end, is_signer: false, is_writable: true });
        v.push(AccountMeta { address: self.stake_authority, is_signer: false, is_writable: true });
        v.push(AccountMeta { address: sysvar_clock_id(), is_signer: false, is_writable: false });
        v.push(AccountMeta { address: system_program_id(), is_signer: false, is_writable: false });
        v.push(AccountMeta { address: sysvar_rent_id(), is_signer: false, is_writable: false });
        v.push(AccountMeta { address: stake_program_id(), is_signer: false, is_writable: false });
        v.push(AccountMeta { address: sysvar_stake_history_id(), is_signer: false, is_writable: false });
        v.push(AccountMeta { address: stake_program_config_id(), is_signer: false, is_writable: false });
        proof {
            assert(v@ =~= self.spec_metas());
        }
        v
    }
}

/// The accounts of the `update_exchange_rate` operation, as declared once for both
/// building and validation.
pub struct UpdateExchangeRateAccountsMeta {
    pub lido: Address,
    pub reserve: Address,
    pub st_sol_mint: Address,
}

impl UpdateExchangeRateAccountsMeta {
    /// The ordered account list this operation declares, with the
    /// signer/writable flag of every position fixed by the declaration.
    pub open spec fn spec_metas(self) -> Seq<AccountMeta> {
        seq![
        AccountMeta { address: self.lido, is_signer: false, is_writable: true },
        AccountMeta { address: self.reserve, is_signer: false, is_writable: false },
        AccountMeta { address: self.st_sol_mint, is_signer: false, is_writable: false },
        AccountMeta { address: spec_sysvar_clock_id(), is_signer: false, is_writable: false },
        AccountMeta { address: spec_sysvar_rent_id(), is_signer: false, is_writable: false },
    ]
    }

    /// Emit the declared account list, in order.
    pub fn to_vec(&self) -> (r: Vec<AccountMeta>)
        ensures
            r@ == self.spec_metas(),
    {
        let mut v: Vec<AccountMeta> = Vec::new();
        v.push(AccountMeta { address: self.lido, is_signer: false, is_writable: true });
        v.push(AccountMeta { address: self.reserve, is_signer: false, is_writable: false });
        v.push(AccountMeta { address: self.st_sol_mint, is_signer: false, is_writable: false });
        v.push(AccountMeta { address: sysvar_clock_id(), is_signer: false, is_writable: false });
        v.push(AccountMeta { address: sysvar_rent_id(), is_signer: false, is_writable: false });
        proof {
            assert(v@ =~= self.spec_metas());
        }
        v
    }
}

/// The accounts of the `update_validator_balance` operation, as declared once for both
/// building and validation.
pub struct UpdateValidatorBalanceMeta {
    pub lido: Address,
    pub validator_vote_account: Address,
    pub st_sol_mint: Address,
    pub mint_authority: Address,
    pub treasury_st_sol_account: Address,
    pub developer_st_sol_account: Address,
    /// The validator's stake accounts, from the begin seed until
    /// (excluding) the end seed.
    pub stake_accounts: Vec<Address>,
}

impl UpdateValidatorBalanceMeta {
    /// The fixed prefix of the declared account list.
    pub open spec fn spec_fixed_metas(self) -> Seq<AccountMeta> {
        seq![
        AccountMeta { address: self.lido, is_signer: false, is_writable: true },
        AccountMeta { address: self.validator_vote_account, is_signer: false, is_writable: false },
        AccountMeta { address: self.st_sol_mint, is_signer: false, is_writable: true },
        AccountMeta { address: self.mint_authority, is_signer: false, is_writable: false },
        AccountMeta { address: self.treasury_st_sol_account, is_signer: false, is_writable: true },
        AccountMeta { address: self.developer_st_sol_account, is_signer: false, is_writable: true },
        AccountMeta { address: spec_sysvar_clock_id(), is_signer: false, is_writable: false },
        AccountMeta { address: spec_spl_token_id(), is_signer: false, is_writable: false },
    ]
    }

    /// The ordered account list this operation declares: the fixed prefix
    /// followed by one read-only entry per stake account, in seed order.
    pub open spec fn spec_metas(self) -> Seq<AccountMeta> {
        self.spec_fixed_metas() + self.stake_accounts@.map_values(
            |a: Address| AccountMeta { address: a, is_signer: false, is_writable: false },
        )
    }

    /// Emit the declared account list, in order.
    pub fn to_vec(&self) -> (r: Vec<AccountMeta>)
        ensures
            r@ == self.spec_metas(),
    {
        let mut v: Vec<AccountMeta> = Vec::new();
        v.push(AccountMeta { address: self.lido, is_signer: false, is_writable: true });
        v.push(AccountMeta { address: self.validator_vote_account, is_signer: false, is_writable: false });
        v.push(AccountMeta { address: self.st_sol_mint, is_signer: false, is_writable: true });
        v.push(AccountMeta { address: self.mint_authority, is_signer: false, is_writable: false });
        v.push(AccountMeta { address: self.treasury_st_sol_account, is_signer: false, is_writable: true });
        v.push(AccountMeta { address: self.developer_st_sol_account, is_signer: false, is_writable: true });
        v.push(AccountMeta { address: sysvar_clock_id(), is_signer: false, is_writable: false });
        v.push(AccountMeta { address: spl_token_id(), is_signer: false, is_writable: false });
        let n = self.stake_accounts.len();
        for i in 0..n
            invariant
                n == self.stake_accounts@.len(),
                v@.len() == 8 + i,
                forall|j: int| 0 <= j < 8 ==> v@[j] == self.spec_fixed_metas()[j],
                forall|j: int|
                    0 <= j < i ==> v@[8 + j] == (AccountMeta {
                        address: self.stake_accounts@[j],
                        is_signer: false,
                        is_writable: false,
                    }),
        {
            v.push(
                AccountMeta {
                    address: self.stake_accounts[i],
                    is_signer: false,
                    is_writable: false,
                },
            );
        }
        proof {
            assert(v@ =~= self.spec_metas());
        }
        v
    }
}

/// The accounts of the `change_reward_distribution` operation, as declared once for both
/// building and validation.
pub struct ChangeRewardDistributionMeta {
    pub lido: Address,
    pub manager: Address,
    pub treasury_account: Address,
    pub developer_account: Address,
}

impl ChangeRewardDistributionMeta {
    /// The ordered account list this operation declares, with the
    /// signer/writable flag of every position fixed by the declaration.
    pub open spec fn spec_metas(self) -> Seq<AccountMeta> {
        seq![
        AccountMeta { address: self.lido, is_signer: false, is_writable: true },
        AccountMeta { address: self.manager, is_signer: true, is_writable: false },
        AccountMeta { address: self.treasury_account, is_signer: false, is_writable: false },
        AccountMeta { address: self.developer_account, is_signer: false, is_writable: false },
    ]
    }

    /// Emit the declared account list, in order.
    pub fn to_vec(&self) -> (r: Vec<AccountMeta>)
        ensures
            r@ == self.spec_metas(),
    {
        let mut v: Vec<AccountMeta> = Vec::new();
        v.push(AccountMeta { address: self.lido, is_signer: false, is_writable: true });
        v.push(AccountMeta { address: self.manager, is_signer: true, is_writable: false });
        v.push(AccountMeta { address: self.treasury_account, is_signer: false, is_writable: false });
        v.push(AccountMeta { address: self.developer_account, is_signer: false, is_writable: false });
        proof {
            assert(v@ =~= self.spec_metas());
        }
        v
    }
}

/// The accounts of the `add_validator` operation, as declared once for both
/// building and validation.
pub struct AddValidatorMeta {
    pub lido: Address,
    pub manager: Address,
    pub validator_vote_account: Address,
    pub validator_fee_st_sol_account: Address,
}

impl AddValidatorMeta {
    /// The ordered account list this operation declares, with the
    /// signer/writable flag of every position fixed by the declaration.
    pub open spec fn spec_metas(self) -> Seq<AccountMeta> {
        seq![
        AccountMeta { address: self.lido, is_signer: false, is_writable: true },
        AccountMeta { address: self.manager, is_signer: true, is_writable: false },
        AccountMeta { address: self.validator_vote_account, is_signer: false, is_writable: false },
        AccountMeta { address: self.validator_fee_st_sol_account, is_signer: false, is_writable: false },
        AccountMeta { address: spec_sysvar_clock_id(), is_signer: false, is_writable: false },
        AccountMeta { address: spec_sysvar_stake_history_id(), is_signer: false, is_writable: false },
        AccountMeta { address: spec_stake_program_id(), is_signer: false, is_writable: false },
    ]
    }

    /// Emit the declared account list, in order.
    pub fn to_vec(&self) -> (r: Vec<AccountMeta>)
        ensures
            r@ == self.spec_metas(),
    {
        let mut v: Vec<AccountMeta> = Vec::new();
        v.push(AccountMeta { address: self.lido, is_signer: false, is_writable: true });
        v.push(AccountMeta { address: self.manager, is_signer: true, is_writable: false });
        v.push(AccountMeta { address: self.validator_vote_account, is_signer: false, is_writable: false });
        v.push(AccountMeta { address: self.validator_fee_st_sol_account, is_signer: false, is_writable: false });
        v.push(AccountMeta { address: sysvar_clock_id(), is_signer: false, is_writable: false });
        v.push(AccountMeta { address: sysvar_stake_history_id(), is_signer: false, is_writable: false });
        v.push(AccountMeta { address: stake_program_id(), is_signer: false, is_writable: false });
        proof {
            assert(v@ =~= self.spec_metas());
        }
        v
    }
}

/// The accounts of the `remove_validator` operation, as declared once for both
/// building and validation.
pub struct RemoveValidatorMeta {
    pub lido: Address,
    pub manager: Address,
    pub validator_vote_account_to_remove: Address,
}

impl RemoveValidatorMeta {
    /// The ordered account list this operation declares, with the
    /// signer/writable flag of every position fixed by the declaration.
    pub open spec fn spec_metas(self) -> Seq<AccountMeta> {
        seq![
        AccountMeta { address: self.lido, is_signer: false, is_writable: true },
        AccountMeta { address: self.manager, is_signer: true, is_writable: false },
        AccountMeta { address: self.validator_vote_account_to_remove, is_signer: false, is_writable: false },
        AccountMeta { address: spec_sysvar_clock_id(), is_signer: false, is_writable: false },
        AccountMeta { address: spec_stake_program_id(), is_signer: false, is_writable: false },
    ]
    }

    /// Emit the declared account list, in order.
    pub fn to_vec(&self) -> (r: Vec<AccountMeta>)
        ensures
            r@ == self.spec_metas(),
    {
        let mut v: Vec<AccountMeta> = Vec::new();
        v.push(AccountMeta { address: self.lido, is_signer: false, is_writable: true });
        v.push(AccountMeta { address: self.manager, is_signer: true, is_writable: false });
        v.push(AccountMeta { address: self.validator_vote_account_to_remove, is_signer: false, is_writable: false });
        v.push(AccountMeta { address: sysvar_clock_id(), is_signer: false, is_writable: false });
        v.push(AccountMeta { address: stake_program_id(), is_signer: false, is_writable: false });
        proof {
            assert(v@ =~= self.spec_metas());
        }
        v
    }
}

/// The accounts of the `claim_validator_fees` operation, as declared once for both
/// building and validation.
pub struct ClaimValidatorFeeMeta {
    pub lido: Address,
    pub st_sol_mint: Address,
    pub mint_authority: Address,
    pub validator_fee_st_sol_account: Address,
}

impl ClaimValidatorFeeMeta {
    /// The ordered account list this operation declares, with the
    /// signer/writable flag of every position fixed by the declaration.
    pub open spec fn spec_metas(self) -> Seq<AccountMeta> {
        seq![
        AccountMeta { address: self.lido, is_signer: false, is_writable: true },
        AccountMeta { address: self.st_sol_mint, is_signer: false, is_writable: true },
        AccountMeta { address: self.mint_authority, is_signer: false, is_writable: false },
        AccountMeta { address: self.validator_fee_st_sol_account, is_signer: false, is_writable: true },
        AccountMeta { address: spec_spl_token_id(), is_signer: false, is_writable: false },
    ]
    }

    /// Emit the declared account list, in order.
    pub fn to_vec(&self) -> (r: Vec<AccountMeta>)
        ensures
            r@ == self.spec_metas(),
    {
        let mut v: Vec<AccountMeta> = Vec::new();
        v.push(AccountMeta { address: self.lido, is_signer: false, is_writable: true });
        v.push(AccountMeta { address: self.st_sol_mint, is_signer: false, is_writable: true });
        v.push(AccountMeta { address: self.mint_authority, is_signer: false, is_writable: false });
        v.push(AccountMeta { address: self.validator_fee_st_sol_account, is_signer: false, is_writable: true });
        v.push(AccountMeta { address: spl_token_id(), is_signer: false, is_writable: false });
        proof {
            assert(v@ =~= self.spec_metas());
        }
        v
    }
}

/// The accounts of the `add_maintainer` operation, as declared once for both
/// building and validation.
pub struct AddMaintainerMeta {
    pub lido: Address,
    pub manager: Address,
    pub maintainer: Address,
}

impl AddMaintainerMeta {
    /// The ordered account list this operation declares, with the
    /// signer/writable flag of every position fixed by the declaration.
    pub open spec fn spec_metas(self) -> Seq<AccountMeta> {
        seq![
        AccountMeta { address: self.lido, is_signer: false, is_writable: true },
        AccountMeta { address: self.manager, is_signer: true, is_writable: false },
        AccountMeta { address: self.maintainer, is_signer: false, is_writable: false },
    ]
    }

    /// Emit the declared account list, in order.
    pub fn to_vec(&self) -> (r: Vec<AccountMeta>)
        ensures
            r@ == self.spec_metas(),
    {
        let mut v: Vec<AccountMeta> = Vec::new();
        v.push(AccountMeta { address: self.lido, is_signer: false, is_writable: true });
        v.push(AccountMeta { address: self.manager, is_signer: true, is_writable: false });
        v.push(AccountMeta { address: self.maintainer, is_signer: false, is_writable: false });
        proof {
            assert(v@ =~= self.spec_metas());
        }
        v
    }
}

/// The accounts of the `remove_maintainer` operation, as declared once for both
/// building and validation.
pub struct RemoveMaintainerMeta {
    pub lido: Address,
    pub manager: Address,
    pub maintainer: Address,
}

impl RemoveMaintainerMeta {
    /// The ordered account list this operation declares, with the
    /// signer/writable flag of every position fixed by the declaration.
    pub open spec fn spec_metas(self) -> Seq<AccountMeta> {
        seq![
        AccountMeta { address: self.lido, is_signer: false, is_writable: true },
        AccountMeta { address: self.manager, is_signer: true, is_writable: false },
        AccountMeta { address: self.maintainer, is_signer: false, is_writable: false },
    ]
    }

    /// Emit the declared account list, in order.
    pub fn to_vec(&self) -> (r: Vec<AccountMeta>)
        ensures
            r@ == self.spec_metas(),
    {
        let mut v: Vec<AccountMeta> = Vec::new();
        v.push(AccountMeta { address: self.lido, is_signer: false, is_writable: true });
        v.push(AccountMeta { address: self.manager, is_signer: true, is_writable: false });
        v.push(AccountMeta { address: self.maintainer, is_signer: false, is_writable: false });
        proof {
            assert(v@ =~= self.spec_metas());
        }
        v
    }
}

/// The accounts of the `merge_stake` operation, as declared once for both
/// building and validation.
pub struct MergeStakeMeta {
    pub lido: Address,
    pub validator_vote_account: Address,
    pub from_stake: Address,
    pub to_stake: Address,
    pub stake_authority: Address,
    pub reserve_account: Address,
}

impl MergeStakeMeta {
    /// The ordered account list this operation declares, with the
    /// signer/writable flag of every position fixed by the declaration.
    pub open spec fn spec_metas(self) -> Seq<AccountMeta> {
        seq![
        AccountMeta { address: self.lido, is_signer: false, is_writable: true },
        AccountMeta { address: self.validator_vote_account, is_signer: false, is_writable: false },
        AccountMeta { address: self.from_stake, is_signer: false, is_writable: true },
        AccountMeta { address: self.to_stake, is_signer: false, is_writable: true },
        AccountMeta { address: self.stake_authority, is_signer: false, is_writable: false },
        AccountMeta { address: self.reserve_account, is_signer: false, is_writable: true },
        AccountMeta { address: spec_sysvar_clock_id(), is_signer: false, is_writable: false },
        AccountMeta { address: spec_sysvar_rent_id(), is_signer: false, is_writable: false },
        AccountMeta { address: spec_sysvar_stake_history_id(), is_signer: false, is_writable: false },
        AccountMeta { address: spec_stake_program_id(), is_signer: false, is_writable: false },
    ]
    }

    /// Emit the declared account list, in order.
    pub fn to_vec(&self) -> (r: Vec<AccountMeta>)
        ensures
            r@ == self.spec_metas(),
    {
        let mut v: Vec<AccountMeta> = Vec::new();
        v.push(AccountMeta { address: self.lido, is_signer: false, is_writable: true });
        v.push(AccountMeta { address: self.validator_vote_account, is_signer: false, is_writable: false });
        v.push(AccountMeta { address: self.from_stake, is_signer: false, is_writable: true });
        v.push(AccountMeta { address: self.to_stake, is_signer: false, is_writable: true });
        v.push(AccountMeta { address: self.stake_authority, is_signer: false, is_writable: false });
        v.push(AccountMeta { address: self.reserve_account, is_signer: false, is_writable: true });
        v.push(AccountMeta { address: sysvar_clock_id(), is_signer: false, is_writable: false });
        v.push(AccountMeta { address: sysvar_rent_id(), is_signer: false, is_writable: false });
        v.push(AccountMeta { address: sysvar_stake_history_id(), is_signer: false, is_writable: false });
        v.push(AccountMeta { address: stake_program_id(), is_signer: false, is_writable: false });
        proof {
            assert(v@ =~= self.spec_metas());
        }
        v
    }
}


/// One executable operation request: the program to call, its ordered
/// account list, and the encoded payload.
pub struct Instruction {
    pub program_id: Address,
    pub accounts: Vec<AccountMeta>,
    pub data: Vec<u8>,
}

/// Build the `Initialize` instruction.
pub fn initialize(
    program_id: &Address,
    reward_distribution: RewardDistribution,
    max_validators: u32,
    max_maintainers: u32,
    accounts: &InitializeAccountsMeta,
) -> (r: Result<Instruction, LidoError>)
    ensures
        r matches Ok(ins) && ins.program_id == *program_id && ins.accounts@
            == accounts.spec_metas() && ins.data@ == spec_encode(
            LidoInstruction::Initialize { reward_distribution, max_validators, max_maintainers },
        ),
{
    Ok(
        Instruction {
            program_id: *program_id,
            accounts: accounts.to_vec(),
            data: LidoInstruction::Initialize {
                reward_distribution,
                max_validators,
                max_maintainers,
            }.encode(),
        },
    )
}

/// Build the `Deposit` instruction.
pub fn deposit(program_id: &Address, accounts: &DepositAccountsMeta, amount: Lamports) -> (r:
    Result<Instruction, LidoError>)
    ensures
        r matches Ok(ins) && ins.program_id == *program_id && ins.accounts@
            == accounts.spec_metas() && ins.data@ == spec_encode(
            LidoInstruction::Deposit { amount },
        ),
{
    Ok(
        Instruction {
            program_id: *program_id,
            accounts: accounts.to_vec(),
            data: LidoInstruction::Deposit { amount }.encode(),
        },
    )
}

/// Build the `StakeDeposit` instruction.
pub fn stake_deposit(
    program_id: &Address,
    accounts: &StakeDepositAccountsMeta,
    amount: Lamports,
) -> (r: Result<Instruction, LidoError>)
    ensures
        r matches Ok(ins) && ins.program_id == *program_id && ins.accounts@
            == accounts.spec_metas() && ins.data@ == spec_encode(
            LidoInstruction::StakeDeposit { amount },
        ),
{
    Ok(
        Instruction {
            program_id: *program_id,
            accounts: accounts.to_vec(),
            data: LidoInstruction::StakeDeposit { amount }.encode(),
        },
    )
}

/// Build the `UpdateExchangeRate` instruction.
pub fn update_exchange_rate(
    program_id: &Address,
    accounts: &UpdateExchangeRateAccountsMeta,
) -> (r: Instruction)
    ensures
        r.program_id == *program_id,
        r.accounts@ == accounts.spec_metas(),
        r.data@ == spec_encode(LidoInstruction::UpdateExchangeRate),
{
    Instruction {
        program_id: *program_id,
        accounts: accounts.to_vec(),
        data: LidoInstruction::UpdateExchangeRate.encode(),
    }
}

/// Build the `UpdateValidatorBalance` instruction.
pub fn update_validator_balance(
    program_id: &Address,
    accounts: &UpdateValidatorBalanceMeta,
) -> (r: Instruction)
    ensures
        r.program_id == *program_id,
        r.accounts@ == accounts.spec_metas(),
        r.data@ == spec_encode(LidoInstruction::UpdateValidatorBalance),
{
    Instruction {
        program_id: *program_id,
        accounts: accounts.to_vec(),
        data: LidoInstruction::UpdateValidatorBalance.encode(),
    }
}

/// Build the `ChangeRewardDistribution` instruction.
pub fn change_reward_distribution(
    program_id: &Address,
    new_reward_distribution: RewardDistribution,
    accounts: &ChangeRewardDistributionMeta,
) -> (r: Instruction)
    ensures
        r.program_id == *program_id,
        r.accounts@ == accounts.spec_metas(),
        r.data@ == spec_encode(
            LidoInstruction::ChangeRewardDistribution { new_reward_distribution },
        ),
{
    Instruction {
        program_id: *program_id,
        accounts: accounts.to_vec(),
        data: LidoInstruction::ChangeRewardDistribution { new_reward_distribution }.encode(),
    }
}

/// Build the `AddValidator` instruction.
pub fn add_validator(program_id: &Address, weight: Weight, accounts: &AddValidatorMeta) -> (r:
    Result<Instruction, LidoError>)
    ensures
        r matches Ok(ins) && ins.program_id == *program_id && ins.accounts@
            == accounts.spec_metas() && ins.data@ == spec_encode(
            LidoInstruction::AddValidator { weight },
        ),
{
    Ok(
        Instruction {
            program_id: *program_id,
            accounts: accounts.to_vec(),
            data: LidoInstruction::AddValidator { weight }.encode(),
        },
    )
}

/// Build the `RemoveValidator` instruction.
pub fn remove_validator(program_id: &Address, accounts: &RemoveValidatorMeta) -> (r: Result<
    Instruction,
    LidoError,
>)
    ensures
        r matches Ok(ins) && ins.program_id == *program_id && ins.accounts@
            == accounts.spec_metas() && ins.data@ == spec_encode(LidoInstruction::RemoveValidator),
{
    Ok(
        Instruction {
            program_id: *program_id,
            accounts: accounts.to_vec(),
            data: LidoInstruction::RemoveValidator.encode(),
        },
    )
}

/// Build the `ClaimValidatorFees` instruction.
pub fn claim_validator_fees(program_id: &Address, accounts: &ClaimValidatorFeeMeta) -> (r: Result<
    Instruction,
    LidoError,
>)
    ensures
        r matches Ok(ins) && ins.program_id == *program_id && ins.accounts@
            == accounts.spec_metas() && ins.data@ == spec_encode(
            LidoInstruction::ClaimValidatorFees,
        ),
{
    Ok(
        Instruction {
            program_id: *program_id,
            accounts: accounts.to_vec(),
            data: LidoInstruction::ClaimValidatorFees.encode(),
        },
    )
}

/// Build the `AddMaintainer` instruction.
pub fn add_maintainer(program_id: &Address, accounts: &AddMaintainerMeta) -> (r: Result<
    Instruction,
    LidoError,
>)
    ensures
        r matches Ok(ins) && ins.program_id == *program_id && ins.accounts@
            == accounts.spec_metas() && ins.data@ == spec_encode(LidoInstruction::AddMaintainer),
{
    Ok(
        Instruction {
            program_id: *program_id,
            accounts: accounts.to_vec(),
            data: LidoInstruction::AddMaintainer.encode(),
        },
    )
}

/// Build the `RemoveMaintainer` instruction.
pub fn remove_maintainer(program_id: &Address, accounts: &RemoveMaintainerMeta) -> (r: Result<
    Instruction,
    LidoError,
>)
    ensures
        r matches Ok(ins) && ins.program_id == *program_id && ins.accounts@
            == accounts.spec_metas() && ins.data@ == spec_encode(
            LidoInstruction::RemoveMaintainer,
        ),
{
    Ok(
        Instruction {
            program_id: *program_id,
            accounts: accounts.to_vec(),
            data: LidoInstruction::RemoveMaintainer.encode(),
        },
    )
}

/// Build the `MergeStake` instruction.
pub fn merge_stake(program_id: &Address, accounts: &MergeStakeMeta) -> (r: Instruction)
    ensures
        r.program_id == *program_id,
        r.accounts@ == accounts.spec_metas(),
        r.data@ == spec_encode(LidoInstruction::MergeStake),
{
    Instruction {
        program_id: *program_id,
        accounts: accounts.to_vec(),
        data: LidoInstruction::MergeStake.encode(),
    }
}

impl InitializeAccountsMeta {
    /// The declared roles of this operation's account list, in order:
    /// what the on-chain side validates a supplied list against. The
    /// flags agree position by position with `spec_metas`, so a list the
    /// builder emits always validates.
    pub open spec fn spec_roles() -> Seq<AccountRole> {
        seq![
        AccountRole { require_signer: false, require_writable: true, fixed_address: None },
        AccountRole { require_signer: false, require_writable: false, fixed_address: None },
        AccountRole { require_signer: false, require_writable: false, fixed_address: None },
        AccountRole { require_signer: false, require_writable: false, fixed_address: None },
        AccountRole { require_signer: false, require_writable: false, fixed_address: None },
        AccountRole { require_signer: false, require_writable: false, fixed_address: None },
        AccountRole { require_signer: false, require_writable: false, fixed_address: Some(spec_sysvar_rent_id()) },
        AccountRole { require_signer: false, require_writable: false, fixed_address: Some(spec_spl_token_id()) },
        ]
    }

    /// The declared roles, for `validate_account_list`.
    pub fn roles() -> (r: Vec<AccountRole>)
        ensures
            r@ == Self::spec_roles(),
    {
        let mut v: Vec<AccountRole> = Vec::new();
        v.push(AccountRole { require_signer: false, require_writable: true, fixed_address: None });
        v.push(AccountRole { require_signer: false, require_writable: false, fixed_address: None });
        v.push(AccountRole { require_signer: false, require_writable: false, fixed_address: None });
        v.push(AccountRole { require_signer: false, require_writable: false, fixed_address: None });
        v.push(AccountRole { require_signer: false, require_writable: false, fixed_address: None });
        v.push(AccountRole { require_signer: false, require_writable: false, fixed_address: None });
        v.push(AccountRole { require_signer: false, require_writable: false, fixed_address: Some(sysvar_rent_id()) });
        v.push(AccountRole { require_signer: false, require_writable: false, fixed_address: Some(spl_token_id()) });
        proof {
            assert(v@ =~= Self::spec_roles());
        }
        v
    }
}

impl DepositAccountsMeta {
    /// The declared roles of this operation's account list, in order:
    /// what the on-chain side validates a supplied list against. The
    /// flags agree position by position with `spec_metas`, so a list the
    /// builder emits always validates.
    pub open spec fn spec_roles() -> Seq<AccountRole> {
        seq![
        AccountRole { require_signer: false, require_writable: false, fixed_address: None },
        AccountRole { require_signer: true, require_writable: true, fixed_address: None },
        AccountRole { require_signer: false, require_writable: true, fixed_address: None },
        AccountRole { require_signer: false, require_writable: true, fixed_address: None },
        AccountRole { require_signer: false, require_writable: true, fixed_address: None },
        AccountRole { require_signer: false, require_writable: false, fixed_address: None },
        AccountRole { require_signer: false, require_writable: false, fixed_address: Some(spec_spl_token_id()) },
        AccountRole { require_signer: false, require_writable: false, fixed_address: Some(spec_system_program_id()) },
        ]
    }

    /// The declared roles, for `validate_account_list`.
    pub fn roles() -> (r: Vec<AccountRole>)
        ensures
            r@ == Self::spec_roles(),
    {
        let mut v: Vec<AccountRole> = Vec::new();
        v.push(AccountRole { require_signer: false, require_writable: false, fixed_address: None });
        v.push(AccountRole { require_signer: true, require_writable: true, fixed_address: None });
        v.push(AccountRole { require_signer: false, require_writable: true, fixed_address: None });
        v.push(AccountRole { require_signer: false, require_writable: true, fixed_address: None });
        v.push(AccountRole { require_signer: false, require_writable: true, fixed_address: None });
        v.push(AccountRole { require_signer: false, require_writable: false, fixed_address: None });
        v.push(AccountRole { require_signer: false, require_writable: false, fixed_address: Some(spl_token_id()) });
        v.push(AccountRole { require_signer: false, require_writable: false, fixed_address: Some(system_program_id()) });
        proof {
            assert(v@ =~= Self::spec_roles());
        }
        v
    }
}

impl StakeDepositAccountsMeta {
    /// The declared roles of this operation's account list, in order:
    /// what the on-chain side validates a supplied list against. The
    /// flags agree position by position with `spec_metas`, so a list the
    /// builder emits always validates.
    pub open spec fn spec_roles() -> Seq<AccountRole> {
        seq![
        AccountRole { require_signer: false, require_writable: true, fixed_address: None },
        AccountRole { require_signer: true, require_writable: false, fixed_address: None },
        AccountRole { require_signer: false, require_writable: true, fixed_address: None },
        AccountRole { require_signer: false, require_writable: false, fixed_address: None },
        AccountRole { require_signer: false, require_writable: true, fixed_address: None },
        AccountRole { require_signer: false, require_writable: true, fixed_address: None },
        AccountRole { require_signer: false, require_writable: false, fixed_address: Some(spec_sysvar_clock_id()) },
        AccountRole { require_signer: false, require_writable: false, fixed_address: Some(spec_system_program_id()) },
        AccountRole { require_signer: false, require_writable: false, fixed_address: Some(spec_sysvar_rent_id()) },
        AccountRole { require_signer: false, require_writable: false, fixed_address: Some(spec_stake_program_id()) },
        AccountRole { require_signer: false, require_writable: false, fixed_address: Some(spec_sysvar_stake_history_id()) },
        AccountRole { require_signer: false, require_writable: false, fixed_address: Some(spec_stake_program_config_id()) },
        ]
    }

    /// The declared roles, for `validate_account_list`.
    pub fn roles() -> (r: Vec<AccountRole>)
        ensures
            r@ == Self::spec_roles(),
    {
        let mut v: Vec<AccountRole> = Vec::new();
        v.push(AccountRole { require_signer: false, require_writable: true, fixed_address: None });
        v.push(AccountRole { require_signer: true, require_writable: false, fixed_address: None });
        v.push(AccountRole { require_signer: false, require_writable: true, fixed_address: None });
        v.push(AccountRole { require_signer: false, require_writable: false, fixed_address: None });
        v.push(AccountRole { require_signer: false, require_writable: true, fixed_address: None });
        v.push(AccountRole { require_signer: false, require_writable: true, fixed_address: None });
        v.push(AccountRole { require_signer: false, require_writable: false, fixed_address: Some(sysvar_clock_id()) });
        v.push(AccountRole { require_signer: false, require_writable: false, fixed_address: Some(system_program_id()) });
        v.push(AccountRole { require_signer: false, require_writable: false, fixed_address: Some(sysvar_rent_id()) });
        v.push(AccountRole { require_signer: false, require_writable: false, fixed_address: Some(stake_program_id()) });
        v.push(AccountRole { require_signer: false, require_writable: false, fixed_address: Some(sysvar_stake_history_id()) });
        v.push(AccountRole { require_signer: false, require_writable: false, fixed_address: Some(stake_program_config_id()) });
        proof {
            assert(v@ =~= Self::spec_roles());
        }
        v
    }
}

impl UpdateExchangeRateAccountsMeta {
    /// The declared roles of this operation's account list, in order:
    /// what the on-chain side validates a supplied list against. The
    /// flags agree position by position with `spec_metas`, so a list the
    /// builder emits always validates.
    pub open spec fn spec_roles() -> Seq<AccountRole> {
        seq![
        AccountRole { require_signer: false, require_writable: true, fixed_address: None },
        AccountRole { require_signer: false, require_writable: false, fixed_address: None },
        AccountRole { require_signer: false, require_writable: false, fixed_address: None },
        AccountRole { require_signer: false, require_writable: false, fixed_address: Some(spec_sysvar_clock_id()) },
        AccountRole { require_signer: false, require_writable: false, fixed_address: Some(spec_sysvar_rent_id()) },
        ]
    }

    /// The declared roles, for `validate_account_list`.
    pub fn roles() -> (r: Vec<AccountRole>)
        ensures
            r@ == Self::spec_roles(),
    {
        let mut v: Vec<AccountRole> = Vec::new();
        v.push(AccountRole { require_signer: false, require_writable: true, fixed_address: None });
        v.push(AccountRole { require_signer: false, require_writable: false, fixed_address: None });
        v.push(AccountRole { require_signer: false, require_writable: false, fixed_address: None });
        v.push(AccountRole { require_signer: false, require_writable: false, fixed_address: Some(sysvar_clock_id()) });
        v.push(AccountRole { require_signer: false, require_writable: false, fixed_address: Some(sysvar_rent_id()) });
        proof {
            assert(v@ =~= Self::spec_roles());
        }
        v
    }
}

impl UpdateValidatorBalanceMeta {
    /// The declared roles of this operation's account list, in order:
    /// what the on-chain side validates a supplied list against. The
    /// flags agree position by position with `spec_metas`, so a list the
    /// builder emits always validates.
    pub open spec fn spec_roles() -> Seq<AccountRole> {
        seq![
        AccountRole { require_signer: false, require_writable: true, fixed_address: None },
        AccountRole { require_signer: false, require_writable: false, fixed_address: None },
        AccountRole { require_signer: false, require_writable: true, fixed_address: None },
        AccountRole { require_signer: false, require_writable: false, fixed_address: None },
        AccountRole { require_signer: false, require_writable: true, fixed_address: None },
        AccountRole { require_signer: false, require_writable: true, fixed_address: None },
        AccountRole { require_signer: false, require_writable: false, fixed_address: Some(spec_sysvar_clock_id()) },
        AccountRole { require_signer: false, require_writable: false, fixed_address: Some(spec_spl_token_id()) },
        ]
    }

    /// The declared roles, for `validate_account_list`.
    pub fn roles() -> (r: Vec<AccountRole>)
        ensures
            r@ == Self::spec_roles(),
    {
        let mut v: Vec<AccountRole> = Vec::new();
        v.push(AccountRole { require_signer: false, require_writable: true, fixed_address: None });
        v.push(AccountRole { require_signer: false, require_writable: false, fixed_address: None });
        v.push(AccountRole { require_signer: false, require_writable: true, fixed_address: None });
        v.push(AccountRole { require_signer: false, require_writable: false, fixed_address: None });
        v.push(AccountRole { require_signer: false, require_writable: true, fixed_address: None });
        v.push(AccountRole { require_signer: false, require_writable: true, fixed_address: None });
        v.push(AccountRole { require_signer: false, require_writable: false, fixed_address: Some(sysvar_clock_id()) });
        v.push(AccountRole { require_signer: false, require_writable: false, fixed_address: Some(spl_token_id()) });
        proof {
            assert(v@ =~= Self::spec_roles());
        }
        v
    }

    /// The trailing variable-length role: one read-only entry per stake
    /// account, consuming the remainder of a supplied list.
    pub open spec fn spec_tail_role() -> AccountRole {
        AccountRole { require_signer: false, require_writable: false, fixed_address: None }
    }

    /// The trailing variable-length role, for validation.
    pub fn tail_role() -> (r: AccountRole)
        ensures
            r == Self::spec_tail_role(),
    {
        AccountRole { require_signer: false, require_writable: false, fixed_address: None }
    }
}

impl ChangeRewardDistributionMeta {
    /// The declared roles of this operation's account list, in order:
    /// what the on-chain side validates a supplied list against. The
    /// flags agree position by position with `spec_metas`, so a list the
    /// builder emits always validates.
    pub open spec fn spec_roles() -> Seq<AccountRole> {
        seq![
        AccountRole { require_signer: false, require_writable: true, fixed_address: None },
        AccountRole { require_signer: true, require_writable: false, fixed_address: None },
        AccountRole { require_signer: false, require_writable: false, fixed_address: None },
        AccountRole { require_signer: false, require_writable: false, fixed_address: None },
        ]
    }

    /// The declared roles, for `validate_account_list`.
    pub fn roles() -> (r: Vec<AccountRole>)
        ensures
            r@ == Self::spec_roles(),
    {
        let mut v: Vec<AccountRole> = Vec::new();
        v.push(AccountRole { require_signer: false, require_writable: true, fixed_address: None });
        v.push(AccountRole { require_signer: true, require_writable: false, fixed_address: None });
        v.push(AccountRole { require_signer: false, require_writable: false, fixed_address: None });
        v.push(AccountRole { require_signer: false, require_writable: false, fixed_address: None });
        proof {
            assert(v@ =~= Self::spec_roles());
        }
        v
    }
}

impl AddValidatorMeta {
    /// The declared roles of this operation's account list, in order:
    /// what the on-chain side validates a supplied list against. The
    /// flags agree position by position with `spec_metas`, so a list the
    /// builder emits always validates.
    pub open spec fn spec_roles() -> Seq<AccountRole> {
        seq![
        AccountRole { require_signer: false, require_writable: true, fixed_address: None },
        AccountRole { require_signer: true, require_writable: false, fixed_address: None },
        AccountRole { require_signer: false, require_writable: false, fixed_address: None },
        AccountRole { require_signer: false, require_writable: false, fixed_address: None },
        AccountRole { require_signer: false, require_writable: false, fixed_address: Some(spec_sysvar_clock_id()) },
        AccountRole { require_signer: false, require_writable: false, fixed_address: Some(spec_sysvar_stake_history_id()) },
        AccountRole { require_signer: false, require_writable: false, fixed_address: Some(spec_stake_program_id()) },
        ]
    }

    /// The declared roles, for `validate_account_list`.
    pub fn roles() -> (r: Vec<AccountRole>)
        ensures
            r@ == Self::spec_roles(),
    {
        let mut v: Vec<AccountRole> = Vec::new();
        v.push(AccountRole { require_signer: false, require_writable: true, fixed_address: None });
        v.push(AccountRole { require_signer: true, require_writable: false, fixed_address: None });
        v.push(AccountRole { require_signer: false, require_writable: false, fixed_address: None });
        v.push(AccountRole { require_signer: false, require_writable: false, fixed_address: None });
        v.push(AccountRole { require_signer: false, require_writable: false, fixed_address: Some(sysvar_clock_id()) });
        v.push(AccountRole { require_signer: false, require_writable: false, fixed_address: Some(sysvar_stake_history_id()) });
        v.push(AccountRole { require_signer: false, require_writable: false, fixed_address: Some(stake_program_id()) });
        proof {
            assert(v@ =~= Self::spec_roles());
        }
        v
    }
}

impl RemoveValidatorMeta {
    /// The declared roles of this operation's account list, in order:
    /// what the on-chain side validates a supplied list against. The
    /// flags agree position by position with `spec_metas`, so a list the
    /// builder emits always validates.
    pub open spec fn spec_roles() -> Seq<AccountRole> {
        seq![
        AccountRole { require_signer: false, require_writable: true, fixed_address: None },
        AccountRole { require_signer: true, require_writable: false, fixed_address: None },
        AccountRole { require_signer: false, require_writable: false, fixed_address: None },
        AccountRole { require_signer: false, require_writable: false, fixed_address: Some(spec_sysvar_clock_id()) },
        AccountRole { require_signer: false, require_writable: false, fixed_address: Some(spec_stake_program_id()) },
        ]
    }

    /// The declared roles, for `validate_account_list`.
    pub fn roles() -> (r: Vec<AccountRole>)
        ensures
            r@ == Self::spec_roles(),
    {
        let mut v: Vec<AccountRole> = Vec::new();
        v.push(AccountRole { require_signer: false, require_writable: true, fixed_address: None });
        v.push(AccountRole { require_signer: true, require_writable: false, fixed_address: None });
        v.push(AccountRole { require_signer: false, require_writable: false, fixed_address: None });
        v.push(AccountRole { require_signer: false, require_writable: false, fixed_address: Some(sysvar_clock_id()) });
        v.push(AccountRole { require_signer: false, require_writable: false, fixed_address: Some(stake_program_id()) });
        proof {
            assert(v@ =~= Self::spec_roles());
        }
        v
    }
}

impl ClaimValidatorFeeMeta {
    /// The declared roles of this operation's account list, in order:
    /// what the on-chain side validates a supplied list against. The
    /// flags agree position by position with `spec_metas`, so a list the
    /// builder emits always validates.
    pub open spec fn spec_roles() -> Seq<AccountRole> {
        seq![
        AccountRole { require_signer: false, require_writable: true, fixed_address: None },
        AccountRole { require_signer: false, require_writable: true, fixed_address: None },
        AccountRole { require_signer: false, require_writable: false, fixed_address: None },
        AccountRole { require_signer: false, require_writable: true, fixed_address: None },
        AccountRole { require_signer: false, require_writable: false, fixed_address: Some(spec_spl_token_id()) },
        ]
    }

    /// The declared roles, for `validate_account_list`.
    pub fn roles() -> (r: Vec<AccountRole>)
        ensures
            r@ == Self::spec_roles(),
    {
        let mut v: Vec<AccountRole> = Vec::new();
        v.push(AccountRole { require_signer: false, require_writable: true, fixed_address: None });
        v.push(AccountRole { require_signer: false, require_writable: true, fixed_address: None });
        v.push(AccountRole { require_signer: false, require_writable: false, fixed_address: None });
        v.push(AccountRole { require_signer: false, require_writable: true, fixed_address: None });
        v.push(AccountRole { require_signer: false, require_writable: false, fixed_address: Some(spl_token_id()) });
        proof {
            assert(v@ =~= Self::spec_roles());
        }
        v
    }
}

impl AddMaintainerMeta {
    /// The declared roles of this operation's account list, in order:
    /// what the on-chain side validates a supplied list against. The
    /// flags agree position by position with `spec_metas`, so a list the
    /// builder emits always validates.
    pub open spec fn spec_roles() -> Seq<AccountRole> {
        seq![
        AccountRole { require_signer: false, require_writable: true, fixed_address: None },
        AccountRole { require_signer: true, require_writable: false, fixed_address: None },
        AccountRole { require_signer: false, require_writable: false, fixed_address: None },
        ]
    }

    /// The declared roles, for `validate_account_list`.
    pub fn roles() -> (r: Vec<AccountRole>)
        ensures
            r@ == Self::spec_roles(),
    {
        let mut v: Vec<AccountRole> = Vec::new();
        v.push(AccountRole { require_signer: false, require_writable: true, fixed_address: None });
        v.push(AccountRole { require_signer: true, require_writable: false, fixed_address: None });
        v.push(AccountRole { require_signer: false, require_writable: false, fixed_address: None });
        proof {
            assert(v@ =~= Self::spec_roles());
        }
        v
    }
}

impl RemoveMaintainerMeta {
    /// The declared roles of this operation's account list, in order:
    /// what the on-chain side validates a supplied list against. The
    /// flags agree position by position with `spec_metas`, so a list the
    /// builder emits always validates.
    pub open spec fn spec_roles() -> Seq<AccountRole> {
        seq![
        AccountRole { require_signer: false, require_writable: true, fixed_address: None },
        AccountRole { require_signer: true, require_writable: false, fixed_address: None },
        AccountRole { require_signer: false, require_writable: false, fixed_address: None },
        ]
    }

    /// The declared roles, for `validate_account_list`.
    pub fn roles() -> (r: Vec<AccountRole>)
        ensures
            r@ == Self::spec_roles(),
    {
        let mut v: Vec<AccountRole> = Vec::new();
        v.push(AccountRole { require_signer: false, require_writable: true, fixed_address: None });
        v.push(AccountRole { require_signer: true, require_writable: false, fixed_address: None });
        v.push(AccountRole { require_signer: false, require_writable: false, fixed_address: None });
        proof {
            assert(v@ =~= Self::spec_roles());
        }
        v
    }
}

impl MergeStakeMeta {
    /// The declared roles of this operation's account list, in order:
    /// what the on-chain side validates a supplied list against. The
    /// flags agree position by position with `spec_metas`, so a list the
    /// builder emits always validates.
    pub open spec fn spec_roles() -> Seq<AccountRole> {
        seq![
        AccountRole { require_signer: false, require_writable: true, fixed_address: None },
        AccountRole { require_signer: false, require_writable: false, fixed_address: None },
        AccountRole { require_signer: false, require_writable: true, fixed_address: None },
        AccountRole { require_signer: false, require_writable: true, fixed_address: None },
        AccountRole { require_signer: false, require_writable: false, fixed_address: None },
        AccountRole { require_signer: false, require_writable: true, fixed_address: None },
        AccountRole { require_signer: false, require_writable: false, fixed_address: Some(spec_sysvar_clock_id()) },
        AccountRole { require_signer: false, require_writable: false, fixed_address: Some(spec_sysvar_rent_id()) },
        AccountRole { require_signer: false, require_writable: false, fixed_address: Some(spec_sysvar_stake_history_id()) },
        AccountRole { require_signer: false, require_writable: false, fixed_address: Some(spec_stake_program_id()) },
        ]
    }

    /// The declared roles, for `validate_account_list`.
    pub fn roles() -> (r: Vec<AccountRole>)
        ensures
            r@ == Self::spec_roles(),
    {
        let mut v: Vec<AccountRole> = Vec::new();
        v.push(AccountRole { require_signer: false, require_writable: true, fixed_address: None });
        v.push(AccountRole { require_signer: false, require_writable: false, fixed_address: None });
        v.push(AccountRole { require_signer: false, require_writable: true, fixed_address: None });
        v.push(AccountRole { require_signer: false, require_writable: true, fixed_address: None });
        v.push(AccountRole { require_signer: false, require_writable: false, fixed_address: None });
        v.push(AccountRole { require_signer: false, require_writable: true, fixed_address: None });
        v.push(AccountRole { require_signer: false, require_writable: false, fixed_address: Some(sysvar_clock_id()) });
        v.push(AccountRole { require_signer: false, require_writable: false, fixed_address: Some(sysvar_rent_id()) });
        v.push(AccountRole { require_signer: false, require_writable: false, fixed_address: Some(sysvar_stake_history_id()) });
        v.push(AccountRole { require_signer: false, require_writable: false, fixed_address: Some(stake_program_id()) });
        proof {
            assert(v@ =~= Self::spec_roles());
        }
        v
    }
}

/// The two faces of the `deposit` declaration agree: a list built from
/// any resolved addresses satisfies the declared roles positionally, so
/// what the builder emits always passes on-chain validation.
pub proof fn lemma_deposit_declaration_consistent(m: DepositAccountsMeta)
    ensures
        m.spec_metas().len() == DepositAccountsMeta::spec_roles().len(),
        spec_roles_accept(DepositAccountsMeta::spec_roles(), spec_as_supplied(m.spec_metas())),
{
}

/// The two faces of the `initialize` declaration agree: a list built from
/// any resolved addresses satisfies the declared roles positionally, so
/// what the builder emits always passes on-chain validation.
pub proof fn lemma_initialize_declaration_consistent(m: InitializeAccountsMeta)
    ensures
        m.spec_metas().len() == InitializeAccountsMeta::spec_roles().len(),
        spec_roles_accept(InitializeAccountsMeta::spec_roles(), spec_as_supplied(m.spec_metas())),
{
}

/// The two faces of the `stake_deposit` declaration agree: a list built from
/// any resolved addresses satisfies the declared roles positionally, so
/// what the builder emits always passes on-chain validation.
pub proof fn lemma_stake_deposit_declaration_consistent(m: StakeDepositAccountsMeta)
    ensures
        m.spec_metas().len() == StakeDepositAccountsMeta::spec_roles().len(),
        spec_roles_accept(StakeDepositAccountsMeta::spec_roles(), spec_as_supplied(m.spec_metas())),
{
}

/// The two faces of the `update_exchange_rate` declaration agree: a list built from
/// any resolved addresses satisfies the declared roles positionally, so
/// what the builder emits always passes on-chain validation.
pub proof fn lemma_update_exchange_rate_declaration_consistent(m: UpdateExchangeRateAccountsMeta)
    ensures
        m.spec_metas().len() == UpdateExchangeRateAccountsMeta::spec_roles().len(),
        spec_roles_accept(UpdateExchangeRateAccountsMeta::spec_roles(), spec_as_supplied(m.spec_metas())),
{
}

/// The two faces of the `change_reward_distribution` declaration agree: a list built from
/// any resolved addresses satisfies the declared roles positionally, so
/// what the builder emits always passes on-chain validation.
pub proof fn lemma_change_reward_distribution_declaration_consistent(m: ChangeRewardDistributionMeta)
    ensures
        m.spec_metas().len() == ChangeRewardDistributionMeta::spec_roles().len(),
        spec_roles_accept(ChangeRewardDistributionMeta::spec_roles(), spec_as_supplied(m.spec_metas())),
{
}

/// The two faces of the `add_validator` declaration agree: a list built from
/// any resolved addresses satisfies the declared roles positionally, so
/// what the builder emits always passes on-chain validation.
pub proof fn lemma_add_validator_declaration_consistent(m: AddValidatorMeta)
    ensures
        m.spec_metas().len() == AddValidatorMeta::spec_roles().len(),
        spec_roles_accept(AddValidatorMeta::spec_roles(), spec_as_supplied(m.spec_metas())),
{
}

/// The two faces of the `remove_validator` declaration agree: a list built from
/// any resolved addresses satisfies the declared roles positionally, so
/// what the builder emits always passes on-chain validation.
pub proof fn lemma_remove_validator_declaration_consistent(m: RemoveValidatorMeta)
    ensures
        m.spec_metas().len() == RemoveValidatorMeta::spec_roles().len(),
        spec_roles_accept(RemoveValidatorMeta::spec_roles(), spec_as_supplied(m.spec_metas())),
{
}

/// The two faces of the `claim_validator_fees` declaration agree: a list built from
/// any resolved addresses satisfies the declared roles positionally, so
/// what the builder emits always passes on-chain validation.
pub proof fn lemma_claim_validator_fees_declaration_consistent(m: ClaimValidatorFeeMeta)
    ensures
        m.spec_metas().len() == ClaimValidatorFeeMeta::spec_roles().len(),
        spec_roles_accept(ClaimValidatorFeeMeta::spec_roles(), spec_as_supplied(m.spec_metas())),
{
}

/// The two faces of the `add_maintainer` declaration agree: a list built from
/// any resolved addresses satisfies the declared roles positionally, so
/// what the builder emits always passes on-chain validation.
pub proof fn lemma_add_maintainer_declaration_consistent(m: AddMaintainerMeta)
    ensures
        m.spec_metas().len() == AddMaintainerMeta::spec_roles().len(),
        spec_roles_accept(AddMaintainerMeta::spec_roles(), spec_as_supplied(m.spec_metas())),
{
}

/// The two faces of the `remove_maintainer` declaration agree: a list built from
/// any resolved addresses satisfies the declared roles positionally, so
/// what the builder emits always passes on-chain validation.
pub proof fn lemma_remove_maintainer_declaration_consistent(m: RemoveMaintainerMeta)
    ensures
        m.spec_metas().len() == RemoveMaintainerMeta::spec_roles().len(),
        spec_roles_accept(RemoveMaintainerMeta::spec_roles(), spec_as_supplied(m.spec_metas())),
{
}

/// The two faces of the `merge_stake` declaration agree: a list built from
/// any resolved addresses satisfies the declared roles positionally, so
/// what the builder emits always passes on-chain validation.
pub proof fn lemma_merge_stake_declaration_consistent(m: MergeStakeMeta)
    ensures
        m.spec_metas().len() == MergeStakeMeta::spec_roles().len(),
        spec_roles_accept(MergeStakeMeta::spec_roles(), spec_as_supplied(m.spec_metas())),
{
}

/// The two faces of the `update_validator_balance` declaration agree:
/// the fixed prefix of a built list satisfies the declared roles, and
/// every appended stake-account entry satisfies the trailing role, so
/// what the builder emits always passes on-chain validation.
pub proof fn lemma_update_validator_balance_declaration_consistent(m: UpdateValidatorBalanceMeta)
    ensures
        m.spec_metas().len() == UpdateValidatorBalanceMeta::spec_roles().len()
            + m.stake_accounts@.len(),
        spec_roles_accept(
            UpdateValidatorBalanceMeta::spec_roles(),
            spec_as_supplied(m.spec_metas()),
        ),
        forall|i: int|
            UpdateValidatorBalanceMeta::spec_roles().len() <= i < m.spec_metas().len()
                ==> crate::accounts::spec_role_accepts(
                UpdateValidatorBalanceMeta::spec_tail_role(),
                #[trigger] spec_as_supplied(m.spec_metas())[i],
            ),
{
}

} // verus!
