//! Lifecycle scenarios: registries, exchange rate, balances and rewards.

use solido_core::address::Address;
use solido_core::error::LidoError;
use solido_core::processor::sum_amounts;
use solido_core::state::{
    ExchangeRate, FeeRecipients, Lido, RewardDistribution, RewardShares, Weight,
};
use solido_core::token::{Lamports, StLamports};

fn addr(n: u64) -> Address {
    Address { w0: n, w1: 2 * n, w2: 3 * n, w3: 4 * n }
}

fn distribution(insurance: u32, treasury: u32, validation: u32, manager: u32) -> RewardDistribution {
    RewardDistribution {
        insurance_fee: insurance,
        treasury_fee: treasury,
        validation_fee: validation,
        manager_fee: manager,
    }
}

fn new_lido(max_validators: u32, max_maintainers: u32) -> Lido {
    Lido::new(
        addr(1),
        addr(2),
        addr(3),
        distribution(1, 1, 1, 1),
        FeeRecipients { treasury_account: addr(4), developer_account: addr(5) },
        max_validators,
        max_maintainers,
    )
}

#[test]
fn initialize_starts_empty() {
    let lido = new_lido(3, 2);
    assert_eq!(lido.validators.len(), 0);
    assert_eq!(lido.maintainers.len(), 0);
    assert_eq!(lido.exchange_rate.computed_in_epoch, 0);
    assert_eq!(lido.exchange_rate.sol_balance, Lamports(0));
    assert_eq!(lido.exchange_rate.st_sol_supply, StLamports(0));
    assert_eq!(lido.max_validators, 3);
    assert_eq!(lido.max_maintainers, 2);
}

#[test]
fn validator_capacity_frees_after_removal() {
    // Initialize with room for three validators; the fourth insert fails
    // with CapacityExceeded; removing one frees the slot again.
    let mut lido = new_lido(3, 2);
    assert_eq!(lido.add_validator(addr(10), addr(110), Weight(1)), Ok(()));
    assert_eq!(lido.add_validator(addr(11), addr(111), Weight(1)), Ok(()));
    assert_eq!(lido.add_validator(addr(12), addr(112), Weight(1)), Ok(()));
    assert_eq!(
        lido.add_validator(addr(13), addr(113), Weight(1)),
        Err(LidoError::CapacityExceeded)
    );
    assert_eq!(lido.remove_validator(addr(11)), Ok(()));
    assert_eq!(lido.validators.len(), 2);
    assert_eq!(lido.add_validator(addr(13), addr(113), Weight(1)), Ok(()));
    assert_eq!(lido.validators.len(), 3);
}

#[test]
fn add_validator_rejects_duplicate() {
    let mut lido = new_lido(3, 2);
    assert_eq!(lido.add_validator(addr(10), addr(110), Weight(1)), Ok(()));
    assert_eq!(
        lido.add_validator(addr(10), addr(119), Weight(9)),
        Err(LidoError::DuplicateEntry)
    );
}

#[test]
fn remove_validator_not_found() {
    let mut lido = new_lido(3, 2);
    assert_eq!(lido.remove_validator(addr(10)), Err(LidoError::NotFound));
}

#[test]
fn remove_validator_with_stake_accounts_fails() {
    let mut lido = new_lido(3, 2);
    assert_eq!(lido.add_validator(addr(10), addr(110), Weight(1)), Ok(()));
    assert_eq!(lido.stake_deposit(addr(10), Lamports(50), Lamports(100)), Ok(0));
    assert_eq!(
        lido.remove_validator(addr(10)),
        Err(LidoError::ValidatorHasStakeAccounts)
    );
    // The validator is still there, untouched.
    assert_eq!(lido.validators.len(), 1);
    assert_eq!(lido.validators[0].stake_accounts_seed_end, 1);
}

#[test]
fn remove_validator_with_unclaimed_credit_fails() {
    let mut lido = new_lido(3, 2);
    assert_eq!(lido.add_validator(addr(10), addr(110), Weight(1)), Ok(()));
    // Earn a fee credit: stake, refresh the rate, observe a reward.
    assert_eq!(lido.stake_deposit(addr(10), Lamports(4), Lamports(100)), Ok(0));
    assert_eq!(
        lido.update_exchange_rate(1, Lamports(0), StLamports(2)),
        Ok(())
    );
    let observed = vec![Lamports(14)];
    let shares = lido
        .update_validator_balance(addr(10), 1, &observed)
        .unwrap();
    assert_eq!(shares.validation, StLamports(1));
    // With stake accounts still live, removal fails on the range first.
    assert_eq!(
        lido.remove_validator(addr(10)),
        Err(LidoError::ValidatorHasStakeAccounts)
    );
    // A validator with empty range but unclaimed credit fails on the
    // credit: construct one directly.
    let mut lido2 = new_lido(3, 2);
    assert_eq!(lido2.add_validator(addr(20), addr(120), Weight(1)), Ok(()));
    let mut v = lido2.validators[0];
    v.fee_credit = StLamports(7);
    lido2.validators[0] = v;
    assert_eq!(
        lido2.remove_validator(addr(20)),
        Err(LidoError::ValidatorHasUnclaimedCredit)
    );
    assert_eq!(lido2.claim_validator_fees(addr(20)), Ok(StLamports(7)));
    assert_eq!(lido2.remove_validator(addr(20)), Ok(()));
}

#[test]
fn maintainer_registry_capacity_and_duplicates() {
    let mut lido = new_lido(1, 2);
    assert_eq!(lido.add_maintainer(addr(30)), Ok(()));
    assert_eq!(lido.add_maintainer(addr(30)), Err(LidoError::DuplicateEntry));
    assert_eq!(lido.add_maintainer(addr(31)), Ok(()));
    assert_eq!(lido.add_maintainer(addr(32)), Err(LidoError::CapacityExceeded));
    assert_eq!(lido.remove_maintainer(addr(30)), Ok(()));
    assert_eq!(lido.remove_maintainer(addr(30)), Err(LidoError::NotFound));
    assert_eq!(lido.maintainers, vec![addr(31)]);
}

#[test]
fn update_exchange_rate_computes_pooled_value() {
    let mut lido = new_lido(3, 2);
    assert_eq!(lido.add_validator(addr(10), addr(110), Weight(1)), Ok(()));
    assert_eq!(lido.stake_deposit(addr(10), Lamports(40), Lamports(100)), Ok(0));
    assert_eq!(
        lido.update_exchange_rate(1, Lamports(2), StLamports(21)),
        Ok(())
    );
    // The rate is reserve (2) plus observed stake balances (40), over the
    // supplied derivative supply.
    assert_eq!(
        lido.exchange_rate,
        ExchangeRate {
            computed_in_epoch: 1,
            sol_balance: Lamports(42),
            st_sol_supply: StLamports(21),
        }
    );
}

#[test]
fn update_exchange_rate_rejects_second_call_in_epoch() {
    // The idempotency guard: a second recomputation in the same epoch is
    // rejected with AlreadyUpdated, not silently accepted.
    let mut lido = new_lido(3, 2);
    assert_eq!(
        lido.update_exchange_rate(1, Lamports(10), StLamports(5)),
        Ok(())
    );
    let before = lido.clone();
    assert_eq!(
        lido.update_exchange_rate(1, Lamports(999), StLamports(777)),
        Err(LidoError::AlreadyUpdated)
    );
    assert_eq!(lido, before);
    // The next epoch goes through again.
    assert_eq!(
        lido.update_exchange_rate(2, Lamports(999), StLamports(777)),
        Ok(())
    );
}

#[test]
fn update_validator_balance_mints_exact_reward_split() {
    let mut lido = new_lido(3, 2);
    assert_eq!(lido.add_validator(addr(10), addr(110), Weight(1)), Ok(()));
    assert_eq!(lido.stake_deposit(addr(10), Lamports(4), Lamports(100)), Ok(0));
    // Rate: 4 native over 2 derivative units.
    assert_eq!(
        lido.update_exchange_rate(1, Lamports(0), StLamports(2)),
        Ok(())
    );
    // The stake account grew from 4 to 14: a 10-native reward, worth
    // 10 * 2 / 4 = 5 derivative units.
    let observed = vec![Lamports(14)];
    let shares = lido
        .update_validator_balance(addr(10), 1, &observed)
        .unwrap();
    // Split 5 over (1, 1, 1, 1): 1 each, the manager takes the remainder.
    assert_eq!(
        shares,
        RewardShares {
            insurance: StLamports(1),
            treasury: StLamports(1),
            validation: StLamports(1),
            manager: StLamports(2),
        }
    );
    let v = lido.validators[0];
    assert_eq!(v.stake_accounts_balance, Lamports(14));
    assert_eq!(v.fee_credit, StLamports(1));
    assert_eq!(v.last_update_epoch, 1);
    // Claiming pays the credit out once.
    assert_eq!(lido.claim_validator_fees(addr(10)), Ok(StLamports(1)));
    assert_eq!(lido.validators[0].fee_credit, StLamports(0));
}

#[test]
fn update_validator_balance_once_per_epoch() {
    let mut lido = new_lido(3, 2);
    assert_eq!(lido.add_validator(addr(10), addr(110), Weight(1)), Ok(()));
    assert_eq!(lido.stake_deposit(addr(10), Lamports(4), Lamports(100)), Ok(0));
    assert_eq!(
        lido.update_exchange_rate(1, Lamports(0), StLamports(2)),
        Ok(())
    );
    let observed = vec![Lamports(14)];
    assert!(lido.update_validator_balance(addr(10), 1, &observed).is_ok());
    let before = lido.clone();
    // A repeat in the same epoch must fail: no double-minting.
    assert_eq!(
        lido.update_validator_balance(addr(10), 1, &observed),
        Err(LidoError::AlreadyUpdated)
    );
    assert_eq!(lido, before);
}

#[test]
fn update_validator_balance_needs_fresh_rate() {
    let mut lido = new_lido(3, 2);
    assert_eq!(lido.add_validator(addr(10), addr(110), Weight(1)), Ok(()));
    assert_eq!(lido.stake_deposit(addr(10), Lamports(4), Lamports(100)), Ok(0));
    assert_eq!(
        lido.update_exchange_rate(1, Lamports(0), StLamports(2)),
        Ok(())
    );
    // Epoch 2 arrived but the rate is still epoch 1: stale.
    let observed = vec![Lamports(14)];
    assert_eq!(
        lido.update_validator_balance(addr(10), 2, &observed),
        Err(LidoError::StaleRate)
    );
}

#[test]
fn update_validator_balance_on_decrease_mints_nothing() {
    // A slashed validator: the balance drops, nothing is minted, and the
    // record still updates to the lower observation.
    let mut lido = new_lido(3, 2);
    assert_eq!(lido.add_validator(addr(10), addr(110), Weight(1)), Ok(()));
    assert_eq!(lido.stake_deposit(addr(10), Lamports(40), Lamports(100)), Ok(0));
    assert_eq!(
        lido.update_exchange_rate(1, Lamports(0), StLamports(2)),
        Ok(())
    );
    let observed = vec![Lamports(25)];
    let shares = lido
        .update_validator_balance(addr(10), 1, &observed)
        .unwrap();
    assert_eq!(
        shares,
        RewardShares {
            insurance: StLamports(0),
            treasury: StLamports(0),
            validation: StLamports(0),
            manager: StLamports(0),
        }
    );
    assert_eq!(lido.validators[0].stake_accounts_balance, Lamports(25));
    assert_eq!(lido.validators[0].fee_credit, StLamports(0));
}

#[test]
fn update_validator_balance_checks_account_count() {
    let mut lido = new_lido(3, 2);
    assert_eq!(lido.add_validator(addr(10), addr(110), Weight(1)), Ok(()));
    assert_eq!(lido.stake_deposit(addr(10), Lamports(4), Lamports(100)), Ok(0));
    assert_eq!(
        lido.update_exchange_rate(1, Lamports(0), StLamports(2)),
        Ok(())
    );
    // The seed range holds one account; supplying two is a mismatch.
    let observed = vec![Lamports(4), Lamports(1)];
    assert_eq!(
        lido.update_validator_balance(addr(10), 1, &observed),
        Err(LidoError::AuthorizationMismatch)
    );
}

#[test]
fn stake_deposit_extends_range_and_checks_reserve() {
    let mut lido = new_lido(3, 2);
    assert_eq!(lido.add_validator(addr(10), addr(110), Weight(1)), Ok(()));
    // More than the reserve holds: rejected.
    assert_eq!(
        lido.stake_deposit(addr(10), Lamports(101), Lamports(100)),
        Err(LidoError::ArithmeticUnderflow)
    );
    assert_eq!(lido.stake_deposit(addr(10), Lamports(60), Lamports(100)), Ok(0));
    assert_eq!(lido.stake_deposit(addr(10), Lamports(40), Lamports(40)), Ok(1));
    let v = lido.validators[0];
    assert_eq!(v.stake_accounts_seed_begin, 0);
    assert_eq!(v.stake_accounts_seed_end, 2);
    assert_eq!(v.stake_accounts_balance, Lamports(100));
    assert_eq!(
        lido.stake_deposit(addr(99), Lamports(1), Lamports(100)),
        Err(LidoError::NotFound)
    );
}

#[test]
fn merge_stake_contracts_range_and_sweeps_inactive() {
    let mut lido = new_lido(3, 2);
    assert_eq!(lido.add_validator(addr(10), addr(110), Weight(1)), Ok(()));
    assert_eq!(lido.stake_deposit(addr(10), Lamports(60), Lamports(100)), Ok(0));
    assert_eq!(lido.stake_deposit(addr(10), Lamports(40), Lamports(40)), Ok(1));
    // Same activation epoch: the merge goes through, the inactive value
    // of both accounts is swept back to the reserve.
    assert_eq!(
        lido.merge_stake(addr(10), 7, 7, Lamports(3), Lamports(2)),
        Ok(Lamports(5))
    );
    let v = lido.validators[0];
    assert_eq!(v.stake_accounts_seed_begin, 1);
    assert_eq!(v.stake_accounts_seed_end, 2);
    assert_eq!(v.stake_accounts_balance, Lamports(95));
    // Only one account left: nothing to merge.
    assert_eq!(
        lido.merge_stake(addr(10), 7, 7, Lamports(0), Lamports(0)),
        Err(LidoError::MergeIneligible)
    );
}

#[test]
fn merge_stake_rejects_activation_epoch_mismatch() {
    let mut lido = new_lido(3, 2);
    assert_eq!(lido.add_validator(addr(10), addr(110), Weight(1)), Ok(()));
    assert_eq!(lido.stake_deposit(addr(10), Lamports(60), Lamports(100)), Ok(0));
    assert_eq!(lido.stake_deposit(addr(10), Lamports(40), Lamports(40)), Ok(1));
    let before = lido.clone();
    assert_eq!(
        lido.merge_stake(addr(10), 7, 8, Lamports(0), Lamports(0)),
        Err(LidoError::MergeIneligible)
    );
    assert_eq!(lido, before);
}

#[test]
fn deposit_establishes_pool_one_to_one() {
    let mut lido = new_lido(3, 2);
    // The rate is recomputed for epoch 1 with no derivative supply yet:
    // deposits that epoch mint one-to-one.
    assert_eq!(
        lido.update_exchange_rate(1, Lamports(0), StLamports(0)),
        Ok(())
    );
    assert_eq!(lido.deposit(1, Lamports(250)), Ok(StLamports(250)));
}

#[test]
fn deposit_and_withdraw_need_fresh_rate() {
    // Recomputation must precede any deposit or withdrawal that epoch:
    // with the rate still stamped epoch 1, both fail in epoch 2.
    let mut lido = new_lido(3, 2);
    assert_eq!(
        lido.update_exchange_rate(1, Lamports(4), StLamports(2)),
        Ok(())
    );
    assert_eq!(lido.deposit(2, Lamports(5)), Err(LidoError::StaleRate));
    assert_eq!(lido.withdraw(2, StLamports(1)), Err(LidoError::StaleRate));
    // In the rate's own epoch both go through.
    assert_eq!(lido.deposit(1, Lamports(5)), Ok(StLamports(2)));
    assert_eq!(lido.withdraw(1, StLamports(1)), Ok(Lamports(2)));
}

#[test]
fn deposit_and_withdraw_round_down_toward_pool() {
    let mut lido = new_lido(3, 2);
    // Rate: 4 native over 2 derivative units (1 derivative = 2 native).
    assert_eq!(
        lido.update_exchange_rate(1, Lamports(4), StLamports(2)),
        Ok(())
    );
    // 5 native * 2 / 4 = 2.5, floored to 2 derivative units.
    assert_eq!(lido.deposit(1, Lamports(5)), Ok(StLamports(2)));
    // 3 derivative * 4 / 2 = 6 native, exactly.
    assert_eq!(lido.withdraw(1, StLamports(3)), Ok(Lamports(6)));
}

#[test]
fn withdraw_fails_before_rate_established() {
    let mut lido = new_lido(3, 2);
    assert_eq!(
        lido.update_exchange_rate(1, Lamports(0), StLamports(0)),
        Ok(())
    );
    // The rate is fresh but its derivative supply is zero: the conversion
    // is undefined, distinct from staleness.
    assert_eq!(
        lido.withdraw(1, StLamports(1)),
        Err(LidoError::InvalidUnitConversion)
    );
}

#[test]
fn change_reward_distribution_replaces_policy() {
    let mut lido = new_lido(3, 2);
    let new_distribution = distribution(2, 3, 4, 5);
    let new_recipients = FeeRecipients { treasury_account: addr(40), developer_account: addr(41) };
    assert_eq!(
        lido.change_reward_distribution(new_distribution, new_recipients),
        Ok(())
    );
    assert_eq!(lido.reward_distribution, new_distribution);
    assert_eq!(lido.fee_recipients, new_recipients);
}

#[test]
fn sum_amounts_detects_overflow() {
    let amounts = vec![Lamports(u64::MAX), Lamports(1)];
    assert_eq!(sum_amounts(&amounts), Err(LidoError::ArithmeticOverflow));
    let amounts = vec![Lamports(u64::MAX - 1), Lamports(1)];
    assert_eq!(sum_amounts(&amounts), Ok(Lamports(u64::MAX)));
    let amounts: Vec<Lamports> = vec![];
    assert_eq!(sum_amounts(&amounts), Ok(Lamports(0)));
}

#[test]
fn value_conservation_over_a_mixed_sequence() {
    // Concrete reading of the conservation invariant: track the live pool
    // while depositing and withdrawing at a fixed rate, and check that the
    // supply valued at the rate never exceeds the pooled value.
    let mut lido = new_lido(3, 2);
    assert_eq!(
        lido.update_exchange_rate(1, Lamports(10), StLamports(3)),
        Ok(())
    );
    let rate = lido.exchange_rate;
    let mut supply: u64 = 3;
    let mut pooled: u64 = 10;
    let conserved = |supply: u64, pooled: u64| {
        (supply as u128) * (rate.sol_balance.0 as u128)
            <= (pooled as u128) * (rate.st_sol_supply.0 as u128)
    };
    assert!(conserved(supply, pooled));
    for step in 0..40u64 {
        if step % 3 == 0 && supply > 1 {
            let burn = StLamports(1 + step % 2);
            if burn.0 <= supply {
                let out = lido.withdraw(1, burn).unwrap();
                if out.0 <= pooled {
                    supply -= burn.0;
                    pooled -= out.0;
                }
            }
        } else {
            let amount = Lamports(1 + step * 7 % 13);
            let minted = lido.deposit(1, amount).unwrap();
            supply += minted.0;
            pooled += amount.0;
        }
        assert!(conserved(supply, pooled));
    }
}
