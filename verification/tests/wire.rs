//! The instruction codec, the builders, the authorization protocol, and
//! the derived addresses, held against the real ledger libraries.

use solido_core::accounts::{
    build_account_metas, validate_account_list, validate_account_list_with_tail, AccountMeta,
    AccountRole, SuppliedAccount,
};
use solido_core::address::Address;
use solido_core::error::LidoError;
use solido_core::ids;
use solido_core::instruction::{
    deposit, update_validator_balance, AddMaintainerMeta, AddValidatorMeta,
    ChangeRewardDistributionMeta, ClaimValidatorFeeMeta, DepositAccountsMeta,
    InitializeAccountsMeta, LidoInstruction, MergeStakeMeta, RemoveMaintainerMeta,
    RemoveValidatorMeta, StakeDepositAccountsMeta, UpdateExchangeRateAccountsMeta,
    UpdateValidatorBalanceMeta,
};
use solido_core::pda::find_authority_program_address;
use solido_core::state::{RewardDistribution, Weight};
use solido_core::token::{Lamports, StLamports};

fn addr(n: u64) -> Address {
    Address { w0: n, w1: 2 * n, w2: 3 * n, w3: 4 * n }
}

fn address_from_pubkey(pubkey: &solana_program::pubkey::Pubkey) -> Address {
    let b = pubkey.to_bytes();
    Address {
        w0: u64::from_le_bytes(b[0..8].try_into().unwrap()),
        w1: u64::from_le_bytes(b[8..16].try_into().unwrap()),
        w2: u64::from_le_bytes(b[16..24].try_into().unwrap()),
        w3: u64::from_le_bytes(b[24..32].try_into().unwrap()),
    }
}

fn pubkey_from_address(address: &Address) -> solana_program::pubkey::Pubkey {
    let mut b = [0u8; 32];
    b[0..8].copy_from_slice(&address.w0.to_le_bytes());
    b[8..16].copy_from_slice(&address.w1.to_le_bytes());
    b[16..24].copy_from_slice(&address.w2.to_le_bytes());
    b[24..32].copy_from_slice(&address.w3.to_le_bytes());
    solana_program::pubkey::Pubkey::new_from_array(b)
}

#[test]
fn encode_deposit_exact_bytes() {
    let data = LidoInstruction::Deposit { amount: Lamports(0x0102030405060708) }.encode();
    assert_eq!(
        data,
        vec![1u8, 0x08, 0x07, 0x06, 0x05, 0x04, 0x03, 0x02, 0x01]
    );
}

#[test]
fn encode_initialize_exact_bytes() {
    let data = LidoInstruction::Initialize {
        reward_distribution: RewardDistribution {
            insurance_fee: 1,
            treasury_fee: 2,
            validation_fee: 3,
            manager_fee: 4,
        },
        max_validators: 5,
        max_maintainers: 6,
    }
    .encode();
    let mut expected = vec![0u8];
    for v in [1u32, 2, 3, 4, 5, 6] {
        expected.extend_from_slice(&v.to_le_bytes());
    }
    assert_eq!(data, expected);
}

#[test]
fn codec_round_trips_every_operation() {
    let operations = vec![
        LidoInstruction::Initialize {
            reward_distribution: RewardDistribution {
                insurance_fee: 9,
                treasury_fee: 8,
                validation_fee: 7,
                manager_fee: 6,
            },
            max_validators: 1000,
            max_maintainers: 5000,
        },
        LidoInstruction::Deposit { amount: Lamports(u64::MAX) },
        LidoInstruction::StakeDeposit { amount: Lamports(0) },
        LidoInstruction::UpdateExchangeRate,
        LidoInstruction::UpdateValidatorBalance,
        LidoInstruction::Withdraw { amount: StLamports(42) },
        LidoInstruction::ClaimValidatorFees,
        LidoInstruction::ChangeRewardDistribution {
            new_reward_distribution: RewardDistribution {
                insurance_fee: 0,
                treasury_fee: 0,
                validation_fee: 0,
                manager_fee: u32::MAX,
            },
        },
        LidoInstruction::AddValidator { weight: Weight(17) },
        LidoInstruction::RemoveValidator,
        LidoInstruction::AddMaintainer,
        LidoInstruction::RemoveMaintainer,
        LidoInstruction::MergeStake,
    ];
    for op in operations {
        let data = op.encode();
        assert_eq!(LidoInstruction::decode(&data), Ok(op));
    }
}

#[test]
fn decode_rejects_malformed_payloads() {
    assert_eq!(
        LidoInstruction::decode(&vec![]),
        Err(LidoError::InvalidInstructionData)
    );
    // Unknown discriminant.
    assert_eq!(
        LidoInstruction::decode(&vec![13u8]),
        Err(LidoError::InvalidInstructionData)
    );
    // Right discriminant, wrong payload length.
    assert_eq!(
        LidoInstruction::decode(&vec![1u8, 0, 0]),
        Err(LidoError::InvalidInstructionData)
    );
    // Trailing garbage after a bare operation.
    assert_eq!(
        LidoInstruction::decode(&vec![3u8, 0]),
        Err(LidoError::InvalidInstructionData)
    );
}

#[test]
fn deposit_builder_emits_declared_account_list() {
    let accounts = DepositAccountsMeta {
        lido: addr(1),
        user: addr(2),
        recipient: addr(3),
        st_sol_mint: addr(4),
        reserve_account: addr(5),
        mint_authority: addr(6),
    };
    let program = addr(9);
    let ins = deposit(&program, &accounts, Lamports(77)).unwrap();
    assert_eq!(ins.program_id, program);
    assert_eq!(ins.data, LidoInstruction::Deposit { amount: Lamports(77) }.encode());
    let metas = ins.accounts;
    assert_eq!(metas.len(), 8);
    // Order and flags follow the declaration.
    assert_eq!(metas[0], AccountMeta { address: addr(1), is_signer: false, is_writable: false });
    assert_eq!(metas[1], AccountMeta { address: addr(2), is_signer: true, is_writable: true });
    assert_eq!(metas[2], AccountMeta { address: addr(3), is_signer: false, is_writable: true });
    assert_eq!(metas[3], AccountMeta { address: addr(4), is_signer: false, is_writable: true });
    assert_eq!(metas[4], AccountMeta { address: addr(5), is_signer: false, is_writable: true });
    assert_eq!(metas[5], AccountMeta { address: addr(6), is_signer: false, is_writable: false });
    // The two fixed positions hold the token and system programs.
    assert_eq!(metas[6].address, ids::spl_token_id());
    assert_eq!(metas[7].address, ids::system_program_id());
}

#[test]
fn update_validator_balance_builder_appends_stake_accounts() {
    let accounts = UpdateValidatorBalanceMeta {
        lido: addr(1),
        validator_vote_account: addr(2),
        st_sol_mint: addr(3),
        mint_authority: addr(4),
        treasury_st_sol_account: addr(5),
        developer_st_sol_account: addr(6),
        stake_accounts: vec![addr(21), addr(22), addr(23)],
    };
    let ins = update_validator_balance(&addr(9), &accounts);
    assert_eq!(
        ins.data,
        LidoInstruction::UpdateValidatorBalance.encode()
    );
    let metas = ins.accounts;
    assert_eq!(metas.len(), 8 + 3);
    assert_eq!(metas[6].address, ids::sysvar_clock_id());
    assert_eq!(metas[7].address, ids::spl_token_id());
    for (i, a) in [addr(21), addr(22), addr(23)].iter().enumerate() {
        assert_eq!(
            metas[8 + i],
            AccountMeta { address: *a, is_signer: false, is_writable: false }
        );
    }
}

fn role(signer: bool, writable: bool) -> AccountRole {
    AccountRole { require_signer: signer, require_writable: writable, fixed_address: None }
}

fn supplied(address: Address, signer: bool, writable: bool) -> SuppliedAccount {
    SuppliedAccount { address, is_signer: signer, is_writable: writable }
}

#[test]
fn validation_accepts_a_correctly_shaped_list() {
    // The declared roles: one signer-writable, one plain account.
    let roles = vec![role(true, true), role(false, false)];
    let list = vec![supplied(addr(1), true, true), supplied(addr(2), false, false)];
    assert_eq!(validate_account_list(&roles, &list), Ok(()));
}

#[test]
fn validation_rejects_flag_violations_on_either_position() {
    let roles = vec![role(true, true), role(false, false)];
    // Missing signer flag on the first position.
    let list = vec![supplied(addr(1), false, true), supplied(addr(2), false, false)];
    assert_eq!(
        validate_account_list(&roles, &list),
        Err(LidoError::AuthorizationMismatch)
    );
    // Missing writable flag on the first position.
    let list = vec![supplied(addr(1), true, false), supplied(addr(2), false, false)];
    assert_eq!(
        validate_account_list(&roles, &list),
        Err(LidoError::AuthorizationMismatch)
    );
    // A list of the wrong length.
    let list = vec![supplied(addr(1), true, true)];
    assert_eq!(
        validate_account_list(&roles, &list),
        Err(LidoError::AuthorizationMismatch)
    );
    let list = vec![
        supplied(addr(1), true, true),
        supplied(addr(2), false, false),
        supplied(addr(3), false, false),
    ];
    assert_eq!(
        validate_account_list(&roles, &list),
        Err(LidoError::AuthorizationMismatch)
    );
}

#[test]
fn validation_pins_fixed_addresses() {
    let roles = vec![AccountRole {
        require_signer: false,
        require_writable: false,
        fixed_address: Some(ids::spl_token_id()),
    }];
    let list = vec![supplied(ids::spl_token_id(), false, false)];
    assert_eq!(validate_account_list(&roles, &list), Ok(()));
    // A substituted account in a fixed position is rejected.
    let list = vec![supplied(addr(3), false, false)];
    assert_eq!(
        validate_account_list(&roles, &list),
        Err(LidoError::AuthorizationMismatch)
    );
}

#[test]
fn validation_with_trailing_variable_role() {
    let roles = vec![role(true, false)];
    let tail = role(false, false);
    // Any number of trailing accounts that satisfy the tail role.
    let list = vec![
        supplied(addr(1), true, false),
        supplied(addr(2), false, false),
        supplied(addr(3), true, true),
    ];
    assert_eq!(
        validate_account_list_with_tail(&roles, &tail, &list),
        Ok(())
    );
    let list = vec![supplied(addr(1), true, false)];
    assert_eq!(
        validate_account_list_with_tail(&roles, &tail, &list),
        Ok(())
    );
    // The fixed prefix is still checked.
    let list = vec![supplied(addr(1), false, false), supplied(addr(2), false, false)];
    assert_eq!(
        validate_account_list_with_tail(&roles, &tail, &list),
        Err(LidoError::AuthorizationMismatch)
    );
    // A writable tail role rejects a read-only trailing account.
    let tail = role(false, true);
    let list = vec![supplied(addr(1), true, false), supplied(addr(2), false, false)];
    assert_eq!(
        validate_account_list_with_tail(&roles, &tail, &list),
        Err(LidoError::AuthorizationMismatch)
    );
}

#[test]
fn built_lists_validate_against_their_declaration() {
    let roles = vec![
        role(false, true),
        AccountRole {
            require_signer: false,
            require_writable: false,
            fixed_address: Some(ids::sysvar_rent_id()),
        },
        role(true, false),
    ];
    let addresses = vec![addr(1), addr(2)];
    let metas = build_account_metas(&roles, &addresses);
    assert_eq!(metas.len(), 3);
    assert_eq!(metas[0], AccountMeta { address: addr(1), is_signer: false, is_writable: true });
    assert_eq!(
        metas[1],
        AccountMeta { address: ids::sysvar_rent_id(), is_signer: false, is_writable: false }
    );
    assert_eq!(metas[2], AccountMeta { address: addr(2), is_signer: true, is_writable: false });
    let as_supplied: Vec<SuppliedAccount> = metas
        .iter()
        .map(|m| SuppliedAccount {
            address: m.address,
            is_signer: m.is_signer,
            is_writable: m.is_writable,
        })
        .collect();
    assert_eq!(validate_account_list(&roles, &as_supplied), Ok(()));
}

#[test]
fn program_ids_match_the_ledger_libraries() {
    let check = |ours: Address, theirs: [u8; 32]| {
        let mut b = [0u8; 32];
        b[0..8].copy_from_slice(&ours.w0.to_le_bytes());
        b[8..16].copy_from_slice(&ours.w1.to_le_bytes());
        b[16..24].copy_from_slice(&ours.w2.to_le_bytes());
        b[24..32].copy_from_slice(&ours.w3.to_le_bytes());
        assert_eq!(b, theirs);
    };
    check(ids::spl_token_id(), spl_token::id().to_bytes());
    check(ids::sysvar_rent_id(), solana_sdk_ids::sysvar::rent::id().to_bytes());
    check(ids::sysvar_clock_id(), solana_sdk_ids::sysvar::clock::id().to_bytes());
    check(
        ids::sysvar_stake_history_id(),
        solana_sdk_ids::sysvar::stake_history::id().to_bytes(),
    );
    check(ids::system_program_id(), solana_sdk_ids::system_program::id().to_bytes());
    check(ids::stake_program_id(), solana_sdk_ids::stake::id().to_bytes());
    check(
        ids::stake_program_config_id(),
        solana_sdk_ids::stake::config::id().to_bytes(),
    );
}

#[test]
fn derived_authority_matches_direct_derivation() {
    let program_id = addr(400);
    let lido_address = addr(500);
    let seed = solido_core::reserve_authority_seed();
    let (derived, bump) =
        find_authority_program_address(&program_id, &lido_address, seed.as_slice()).unwrap();
    // The same derivation, done directly with the ledger's library.
    let expected = solana_program::pubkey::Pubkey::find_program_address(
        &[&pubkey_from_address(&lido_address).to_bytes(), b"reserve_authority"],
        &pubkey_from_address(&program_id),
    );
    assert_eq!(derived, address_from_pubkey(&expected.0));
    assert_eq!(bump, expected.1);
    // The derived address is none of the inputs.
    assert_ne!(derived, program_id);
    assert_ne!(derived, lido_address);
}

#[test]
fn seed_constants_spell_their_names() {
    assert_eq!(solido_core::reserve_authority_seed(), b"reserve_authority".to_vec());
    assert_eq!(solido_core::deposit_authority_seed(), b"deposit_authority".to_vec());
    assert_eq!(solido_core::fee_manager_authority_seed(), b"fee_authority".to_vec());
    assert_eq!(solido_core::stake_pool_authority_seed(), b"stake_pool_authority".to_vec());
    assert_eq!(
        solido_core::validator_stake_account_seed(),
        b"validator_stake_account".to_vec()
    );
}

#[test]
fn stake_account_address_is_deterministic() {
    let a = solido_core::pda::find_stake_account_address(&addr(1), &addr(2), &addr(3), 0).unwrap();
    let b = solido_core::pda::find_stake_account_address(&addr(1), &addr(2), &addr(3), 0).unwrap();
    let c = solido_core::pda::find_stake_account_address(&addr(1), &addr(2), &addr(3), 1).unwrap();
    assert_eq!(a, b);
    assert_ne!(a.0, c.0);
}

fn as_supplied(metas: &[AccountMeta]) -> Vec<SuppliedAccount> {
    metas
        .iter()
        .map(|m| SuppliedAccount {
            address: m.address,
            is_signer: m.is_signer,
            is_writable: m.is_writable,
        })
        .collect()
}

#[test]
fn every_built_list_validates_against_its_declaration() {
    let list = InitializeAccountsMeta {
        lido: addr(1),
        manager: addr(2),
        st_sol_mint: addr(3),
        treasury_account: addr(4),
        developer_account: addr(5),
        reserve_account: addr(6),
    }
    .to_vec();
    assert_eq!(
        validate_account_list(&InitializeAccountsMeta::roles(), &as_supplied(&list)),
        Ok(())
    );
    let list = DepositAccountsMeta {
        lido: addr(1),
        user: addr(2),
        recipient: addr(3),
        st_sol_mint: addr(4),
        reserve_account: addr(5),
        mint_authority: addr(6),
    }
    .to_vec();
    assert_eq!(
        validate_account_list(&DepositAccountsMeta::roles(), &as_supplied(&list)),
        Ok(())
    );
    let list = StakeDepositAccountsMeta {
        lido: addr(1),
        maintainer: addr(2),
        reserve: addr(3),
        validator_vote_account: addr(4),
        stake_account_end: addr(5),
        stake_authority: addr(6),
    }
    .to_vec();
    assert_eq!(
        validate_account_list(&StakeDepositAccountsMeta::roles(), &as_supplied(&list)),
        Ok(())
    );
    let list = UpdateExchangeRateAccountsMeta { lido: addr(1), reserve: addr(2), st_sol_mint: addr(3) }
        .to_vec();
    assert_eq!(
        validate_account_list(&UpdateExchangeRateAccountsMeta::roles(), &as_supplied(&list)),
        Ok(())
    );
    let list = ChangeRewardDistributionMeta {
        lido: addr(1),
        manager: addr(2),
        treasury_account: addr(3),
        developer_account: addr(4),
    }
    .to_vec();
    assert_eq!(
        validate_account_list(&ChangeRewardDistributionMeta::roles(), &as_supplied(&list)),
        Ok(())
    );
    let list = AddValidatorMeta {
        lido: addr(1),
        manager: addr(2),
        validator_vote_account: addr(3),
        validator_fee_st_sol_account: addr(4),
    }
    .to_vec();
    assert_eq!(
        validate_account_list(&AddValidatorMeta::roles(), &as_supplied(&list)),
        Ok(())
    );
    let list = RemoveValidatorMeta {
        lido: addr(1),
        manager: addr(2),
        validator_vote_account_to_remove: addr(3),
    }
    .to_vec();
    assert_eq!(
        validate_account_list(&RemoveValidatorMeta::roles(), &as_supplied(&list)),
        Ok(())
    );
    let list = ClaimValidatorFeeMeta {
        lido: addr(1),
        st_sol_mint: addr(2),
        mint_authority: addr(3),
        validator_fee_st_sol_account: addr(4),
    }
    .to_vec();
    assert_eq!(
        validate_account_list(&ClaimValidatorFeeMeta::roles(), &as_supplied(&list)),
        Ok(())
    );
    let list = AddMaintainerMeta { lido: addr(1), manager: addr(2), maintainer: addr(3) }.to_vec();
    assert_eq!(
        validate_account_list(&AddMaintainerMeta::roles(), &as_supplied(&list)),
        Ok(())
    );
    let list = RemoveMaintainerMeta { lido: addr(1), manager: addr(2), maintainer: addr(3) }.to_vec();
    assert_eq!(
        validate_account_list(&RemoveMaintainerMeta::roles(), &as_supplied(&list)),
        Ok(())
    );
    let list = MergeStakeMeta {
        lido: addr(1),
        validator_vote_account: addr(2),
        from_stake: addr(3),
        to_stake: addr(4),
        stake_authority: addr(5),
        reserve_account: addr(6),
    }
    .to_vec();
    assert_eq!(
        validate_account_list(&MergeStakeMeta::roles(), &as_supplied(&list)),
        Ok(())
    );
}

#[test]
fn update_validator_balance_list_validates_with_tail() {
    let accounts = UpdateValidatorBalanceMeta {
        lido: addr(1),
        validator_vote_account: addr(2),
        st_sol_mint: addr(3),
        mint_authority: addr(4),
        treasury_st_sol_account: addr(5),
        developer_st_sol_account: addr(6),
        stake_accounts: vec![addr(21), addr(22)],
    };
    let list = accounts.to_vec();
    assert_eq!(
        validate_account_list_with_tail(
            &UpdateValidatorBalanceMeta::roles(),
            &UpdateValidatorBalanceMeta::tail_role(),
            &as_supplied(&list),
        ),
        Ok(())
    );
    // Substituting the fixed token-program position is caught.
    let mut tampered = as_supplied(&list);
    tampered[7].address = addr(99);
    assert_eq!(
        validate_account_list_with_tail(
            &UpdateValidatorBalanceMeta::roles(),
            &UpdateValidatorBalanceMeta::tail_role(),
            &tampered,
        ),
        Err(LidoError::AuthorizationMismatch)
    );
}
