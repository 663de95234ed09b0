//! Value units, conversions and the reward split.

use solido_core::error::LidoError;
use solido_core::state::{ExchangeRate, RewardDistribution, RewardShares};
use solido_core::token::{mul_div_floor, Lamports, StLamports};

fn distribution(insurance: u32, treasury: u32, validation: u32, manager: u32) -> RewardDistribution {
    RewardDistribution {
        insurance_fee: insurance,
        treasury_fee: treasury,
        validation_fee: validation,
        manager_fee: manager,
    }
}

#[test]
fn checked_add_and_sub() {
    assert_eq!(Lamports(3).checked_add(Lamports(4)), Ok(Lamports(7)));
    assert_eq!(
        Lamports(u64::MAX).checked_add(Lamports(1)),
        Err(LidoError::ArithmeticOverflow)
    );
    assert_eq!(Lamports(4).checked_sub(Lamports(3)), Ok(Lamports(1)));
    assert_eq!(
        Lamports(3).checked_sub(Lamports(4)),
        Err(LidoError::ArithmeticUnderflow)
    );
    assert_eq!(StLamports(3).checked_add(StLamports(4)), Ok(StLamports(7)));
    assert_eq!(
        StLamports(0).checked_sub(StLamports(1)),
        Err(LidoError::ArithmeticUnderflow)
    );
    assert_eq!(
        StLamports(u64::MAX).checked_add(StLamports(1)),
        Err(LidoError::ArithmeticOverflow)
    );
}

#[test]
fn mul_div_rounds_down() {
    // 7 * 3 / 2 = 10.5, floored to 10.
    assert_eq!(mul_div_floor(7, 3, 2), Ok(10));
    assert_eq!(Lamports(7).checked_mul_ratio(3, 2), Ok(Lamports(10)));
    assert_eq!(StLamports(7).checked_mul_ratio(3, 2), Ok(StLamports(10)));
    assert_eq!(mul_div_floor(7, 3, 0), Err(LidoError::InvalidUnitConversion));
    assert_eq!(
        mul_div_floor(u64::MAX, u64::MAX, 1),
        Err(LidoError::ArithmeticOverflow)
    );
    // A large product that still floors back into range.
    assert_eq!(mul_div_floor(u64::MAX, 2, 4), Ok(u64::MAX / 2));
}

#[test]
fn exchange_rate_conversions() {
    let rate = ExchangeRate {
        computed_in_epoch: 1,
        sol_balance: Lamports(10),
        st_sol_supply: StLamports(4),
    };
    // Native to derivative: 7 * 4 / 10 = 2.8, floored to 2.
    assert_eq!(rate.exchange_sol(Lamports(7)), Ok(StLamports(2)));
    // Derivative to native: 3 * 10 / 4 = 7.5, floored to 7.
    assert_eq!(rate.exchange_st_sol(StLamports(3)), Ok(Lamports(7)));
}

#[test]
fn exchange_rate_undefined_denominators() {
    let no_balance = ExchangeRate {
        computed_in_epoch: 1,
        sol_balance: Lamports(0),
        st_sol_supply: StLamports(4),
    };
    assert_eq!(
        no_balance.exchange_sol(Lamports(7)),
        Err(LidoError::InvalidUnitConversion)
    );
    let no_supply = ExchangeRate {
        computed_in_epoch: 1,
        sol_balance: Lamports(10),
        st_sol_supply: StLamports(0),
    };
    assert_eq!(
        no_supply.exchange_st_sol(StLamports(3)),
        Err(LidoError::InvalidUnitConversion)
    );
}

#[test]
fn round_trip_conversion_loses_to_the_pool() {
    // Converting native to derivative and back never gains value.
    let rate = ExchangeRate {
        computed_in_epoch: 1,
        sol_balance: Lamports(10),
        st_sol_supply: StLamports(3),
    };
    for amount in [0u64, 1, 2, 5, 7, 9, 10, 99, 100, 12345] {
        let st = rate.exchange_sol(Lamports(amount)).unwrap();
        let back = rate.exchange_st_sol(st).unwrap();
        assert!(back.0 <= amount);
    }
}

#[test]
fn split_reward_sums_exactly() {
    let d = distribution(1, 1, 1, 1);
    // 5 over four equal parts: 1 + 1 + 1, remainder 2 to the manager.
    assert_eq!(
        d.split_reward(StLamports(5)),
        Ok(RewardShares {
            insurance: StLamports(1),
            treasury: StLamports(1),
            validation: StLamports(1),
            manager: StLamports(2),
        })
    );
    // Uneven parts: 100 over (3, 1, 5, 1): 30 + 10 + 50 + 10.
    let d = distribution(3, 1, 5, 1);
    assert_eq!(
        d.split_reward(StLamports(100)),
        Ok(RewardShares {
            insurance: StLamports(30),
            treasury: StLamports(10),
            validation: StLamports(50),
            manager: StLamports(10),
        })
    );
    // The sum is exact for awkward numbers too.
    let d = distribution(7, 11, 13, 17);
    for reward in [0u64, 1, 2, 47, 48, 49, 1000, u64::MAX] {
        let s = d.split_reward(StLamports(reward)).unwrap();
        let total = s
            .insurance
            .0
            .checked_add(s.treasury.0)
            .and_then(|t| t.checked_add(s.validation.0))
            .and_then(|t| t.checked_add(s.manager.0))
            .unwrap();
        assert_eq!(total, reward);
    }
}

#[test]
fn split_reward_remainder_goes_to_manager() {
    // 10 over (1, 1, 1, 0): floors are 3 + 3 + 3; the manager, last in
    // the fixed order, takes the remaining 1 despite a zero part.
    let d = distribution(1, 1, 1, 0);
    assert_eq!(
        d.split_reward(StLamports(10)),
        Ok(RewardShares {
            insurance: StLamports(3),
            treasury: StLamports(3),
            validation: StLamports(3),
            manager: StLamports(1),
        })
    );
}

#[test]
fn split_reward_rejects_zero_total() {
    let d = distribution(0, 0, 0, 0);
    assert_eq!(
        d.split_reward(StLamports(10)),
        Err(LidoError::InvalidRewardDistribution)
    );
    assert_eq!(d.total(), 0);
    assert_eq!(distribution(1, 2, 3, 4).total(), 10);
}
