//! The persisted state record and its parts.
//!
//! [`Lido`] is the singleton record of one deployed instance: the manager
//! authority, the derivative-token mint, the reserve address, the reward
//! distribution policy, the exchange rate, and the two fixed-capacity
//! registries (validators and maintainers). Registries never grow past the
//! capacity declared at initialization, because the persisted record has a
//! declared maximum size.

use vstd::prelude::*;

use crate::address::Address;
use crate::error::LidoError;
use crate::token::{mul_div_floor, spec_mul_div_floor, spec_mul_div_result, Lamports, StLamports};
use vstd::arithmetic::div_mod::{
    lemma_div_is_ordered, lemma_div_multiples_vanish, lemma_fundamental_div_mod, lemma_mod_bound,
};

verus! {

/// A validator's relative share of newly delegated stake.
#[derive(Clone, Copy, Debug, PartialEq, Eq, Structural)]
pub struct Weight(pub u64);

/// The conversion rate between native and derivative units, recomputed at
/// most once per epoch from the pooled balances observed at that moment.
///
/// The rate's value is the ratio `sol_balance / st_sol_supply`: one
/// derivative unit redeems for that many native units.
#[derive(Clone, Copy, Debug, PartialEq, Eq, Structural)]
pub struct ExchangeRate {
    /// The epoch in which this rate was computed.
    pub computed_in_epoch: u64,
    /// Total native value the pool held when the rate was computed.
    pub sol_balance: Lamports,
    /// Total derivative-token supply when the rate was computed.
    pub st_sol_supply: StLamports,
}

impl ExchangeRate {
    /// What converting native units to derivative units returns:
    /// `amount * st_sol_supply / sol_balance`, rounded down, or the exact
    /// error (undefined rate, or a result above the 64-bit range).
    pub open spec fn spec_exchange_sol(self, amount: Lamports) -> Result<StLamports, LidoError> {
        match spec_mul_div_result(amount.0, self.st_sol_supply.0, self.sol_balance.0) {
            Ok(v) => Ok(StLamports(v)),
            Err(e) => Err(e),
        }
    }

    /// What converting derivative units back to native units returns:
    /// `amount * sol_balance / st_sol_supply`, rounded down, or the exact
    /// error.
    pub open spec fn spec_exchange_st_sol(self, amount: StLamports) -> Result<
        Lamports,
        LidoError,
    > {
        match spec_mul_div_result(amount.0, self.sol_balance.0, self.st_sol_supply.0) {
            Ok(v) => Ok(Lamports(v)),
            Err(e) => Err(e),
        }
    }

    /// Convert native units to derivative units at this rate, rounding down.
    ///
    /// Fails with `InvalidUnitConversion` while the pool's native balance is
    /// zero (the rate is not yet established in this direction).
    pub fn exchange_sol(&self, amount: Lamports) -> (r: Result<StLamports, LidoError>)
        ensures
            r == self.spec_exchange_sol(amount),
    {
        match mul_div_floor(amount.0, self.st_sol_supply.0, self.sol_balance.0) {
            Ok(v) => Ok(StLamports(v)),
            Err(e) => Err(e),
        }
    }

    /// Convert derivative units to native units at this rate, rounding down.
    ///
    /// Fails with `InvalidUnitConversion` while the derivative supply is
    /// zero (before the first deposit establishes the rate).
    pub fn exchange_st_sol(&self, amount: StLamports) -> (r: Result<Lamports, LidoError>)
        ensures
            r == self.spec_exchange_st_sol(amount),
    {
        match mul_div_floor(amount.0, self.sol_balance.0, self.st_sol_supply.0) {
            Ok(v) => Ok(Lamports(v)),
            Err(e) => Err(e),
        }
    }
}

/// The integer ratio in which observed rewards are distributed.
#[derive(Clone, Copy, Debug, PartialEq, Eq, Structural)]
pub struct RewardDistribution {
    pub insurance_fee: u32,
    pub treasury_fee: u32,
    pub validation_fee: u32,
    pub manager_fee: u32,
}

/// One reward, split over the four recipients. The parts always sum
/// exactly to the reward that was split.
#[derive(Clone, Copy, Debug, PartialEq, Eq, Structural)]
pub struct RewardShares {
    pub insurance: StLamports,
    pub treasury: StLamports,
    pub validation: StLamports,
    pub manager: StLamports,
}

impl RewardShares {
    /// The split of a zero reward: nothing for anybody.
    pub open spec fn spec_zero() -> RewardShares {
        RewardShares {
            insurance: StLamports(0),
            treasury: StLamports(0),
            validation: StLamports(0),
            manager: StLamports(0),
        }
    }

    /// The sum of the four parts, as an unbounded integer.
    pub open spec fn spec_total(self) -> int {
        self.insurance.0 + self.treasury.0 + self.validation.0 + self.manager.0
    }
}

/// One floored proportional share is never more than the whole reward.
proof fn lemma_share_le_reward(reward: u64, part: u64, total: u64)
    requires
        0 < total,
        part <= total,
    ensures
        0 <= spec_mul_div_floor(reward, part, total) <= reward,
{
    assert(reward * part <= reward * total) by (nonlinear_arith)
        requires
            part <= total,
            0 <= reward,
    {}
    lemma_div_is_ordered(0, reward * part, total as int);
    lemma_div_is_ordered(reward * part, reward * total, total as int);
    assert(reward * total == (total as int) * (reward as int)) by (nonlinear_arith);
    lemma_div_multiples_vanish(reward as int, total as int);
}

/// The three floored shares together never exceed the reward when their
/// parts are at most the total, so the remainder for the last recipient is
/// never negative.
proof fn lemma_three_shares_le_reward(reward: u64, a: u64, b: u64, c: u64, total: u64)
    requires
        0 < total,
        a + b + c <= total,
    ensures
        0 <= spec_mul_div_floor(reward, a, total) + spec_mul_div_floor(reward, b, total)
            + spec_mul_div_floor(reward, c, total) <= reward,
{
    let t = total as int;
    let pa = reward * a;
    let pb = reward * b;
    let pc = reward * c;
    assert(0 <= pa / t && 0 <= pb / t && 0 <= pc / t) by {
        assert(0 <= pa && 0 <= pb && 0 <= pc) by (nonlinear_arith)
            requires
                0 <= reward && 0 <= a && 0 <= b && 0 <= c,
                pa == reward * a && pb == reward * b && pc == reward * c,
        {}
        lemma_div_is_ordered(0, pa, t);
        lemma_div_is_ordered(0, pb, t);
        lemma_div_is_ordered(0, pc, t);
    }
    lemma_fundamental_div_mod(pa, t);
    lemma_fundamental_div_mod(pb, t);
    lemma_fundamental_div_mod(pc, t);
    lemma_mod_bound(pa, t);
    lemma_mod_bound(pb, t);
    lemma_mod_bound(pc, t);
    let qsum = pa / t + pb / t + pc / t;
    assert(t * qsum == pa + pb + pc - (pa % t + pb % t + pc % t)) by (nonlinear_arith)
        requires
            pa == t * (pa / t) + pa % t,
            pb == t * (pb / t) + pb % t,
            pc == t * (pc / t) + pc % t,
            qsum == pa / t + pb / t + pc / t,
    {}
    assert(pa + pb + pc <= reward * t) by (nonlinear_arith)
        requires
            pa == reward * a,
            pb == reward * b,
            pc == reward * c,
            a + b + c <= t,
            0 <= reward,
    {}
    assert(qsum <= reward) by (nonlinear_arith)
        requires
            t * qsum <= reward * t,
            0 < t,
    {}
}

impl RewardDistribution {
    /// The sum of the four parts of the ratio.
    pub open spec fn spec_total(self) -> int {
        self.insurance_fee + self.treasury_fee + self.validation_fee + self.manager_fee
    }

    /// The sum of the four parts; it always fits in 64 bits.
    pub fn total(&self) -> (r: u64)
        ensures
            r == self.spec_total(),
    {
        self.insurance_fee as u64 + self.treasury_fee as u64 + self.validation_fee as u64
            + self.manager_fee as u64
    }

    /// What splitting a reward returns. The insurance, treasury and
    /// validation parts are floored proportional shares; the manager takes
    /// the remainder, which closes every rounding gap, so the four parts sum
    /// exactly to the reward.
    pub open spec fn spec_split_reward(self, reward: StLamports) -> Result<
        RewardShares,
        LidoError,
    > {
        if self.spec_total() == 0 {
            Err(LidoError::InvalidRewardDistribution)
        } else {
            let t = self.spec_total() as u64;
            let insurance = spec_mul_div_floor(reward.0, self.insurance_fee as u64, t);
            let treasury = spec_mul_div_floor(reward.0, self.treasury_fee as u64, t);
            let validation = spec_mul_div_floor(reward.0, self.validation_fee as u64, t);
            Ok(
                RewardShares {
                    insurance: StLamports(insurance as u64),
                    treasury: StLamports(treasury as u64),
                    validation: StLamports(validation as u64),
                    manager: StLamports((reward.0 - insurance - treasury - validation) as u64),
                },
            )
        }
    }

    /// Split a reward over the four recipients in the fixed order
    /// insurance, treasury, validation, manager; the manager, last in that
    /// order, receives the remainder.
    ///
    /// Fails with `InvalidRewardDistribution` when all parts are zero
    /// (the split would be undefined); it never divides by zero. On success
    /// the four parts sum exactly to the reward: no value is created or
    /// destroyed by rounding.
    pub fn split_reward(&self, reward: StLamports) -> (r: Result<RewardShares, LidoError>)
        ensures
            r == self.spec_split_reward(reward),
            r matches Ok(shares) ==> shares.spec_total() == reward.0,
    {
        let total = self.total();
        if total == 0 {
            return Err(LidoError::InvalidRewardDistribution);
        }
        proof {
            lemma_share_le_reward(reward.0, self.insurance_fee as u64, total);
            lemma_share_le_reward(reward.0, self.treasury_fee as u64, total);
            lemma_share_le_reward(reward.0, self.validation_fee as u64, total);
            lemma_three_shares_le_reward(
                reward.0,
                self.insurance_fee as u64,
                self.treasury_fee as u64,
                self.validation_fee as u64,
                total,
            );
        }
        let insurance = match mul_div_floor(reward.0, self.insurance_fee as u64, total) {
            Ok(v) => v,
            Err(e) => { return Err(e) },
        };
        let treasury = match mul_div_floor(reward.0, self.treasury_fee as u64, total) {
            Ok(v) => v,
            Err(e) => { return Err(e) },
        };
        let validation = match mul_div_floor(reward.0, self.validation_fee as u64, total) {
            Ok(v) => v,
            Err(e) => { return Err(e) },
        };
        let manager = reward.0 - insurance - treasury - validation;
        Ok(
            RewardShares {
                insurance: StLamports(insurance),
                treasury: StLamports(treasury),
                validation: StLamports(validation),
                manager: StLamports(manager),
            },
        )
    }
}

/// The token accounts into which distributed rewards are minted.
#[derive(Clone, Copy, Debug, PartialEq, Eq, Structural)]
pub struct FeeRecipients {
    pub treasury_account: Address,
    pub developer_account: Address,
}

/// One member of the validator registry.
///
/// Its stake accounts are program-derived addresses indexed by a
/// per-validator seed; the live ones form the contiguous half-open range
/// `[stake_accounts_seed_begin, stake_accounts_seed_end)`.
#[derive(Clone, Copy, Debug, PartialEq, Eq, Structural)]
pub struct Validator {
    /// The validator's vote account; the registry key.
    pub vote_account_address: Address,
    /// The derivative-token account that receives this validator's fees.
    pub fee_st_sol_account: Address,
    /// Fees credited but not yet claimed, in derivative units.
    pub fee_credit: StLamports,
    /// Relative share of newly delegated stake.
    pub weight: Weight,
    /// First live stake-account seed.
    pub stake_accounts_seed_begin: u64,
    /// One past the last live stake-account seed.
    pub stake_accounts_seed_end: u64,
    /// The stake balance last observed over the whole seed range.
    pub stake_accounts_balance: Lamports,
    /// The epoch in which the balance was last reconciled; the guard
    /// against minting the same reward twice in one epoch.
    pub last_update_epoch: u64,
}

impl Validator {
    /// A fresh registry entry: empty seed range, nothing observed, no fees.
    pub fn new(vote_account_address: Address, fee_st_sol_account: Address, weight: Weight) -> (r:
        Validator)
        ensures
            r == (Validator {
                vote_account_address,
                fee_st_sol_account,
                fee_credit: StLamports(0),
                weight,
                stake_accounts_seed_begin: 0,
                stake_accounts_seed_end: 0,
                stake_accounts_balance: Lamports(0),
                last_update_epoch: 0,
            }),
    {
        Validator {
            vote_account_address,
            fee_st_sol_account,
            fee_credit: StLamports(0),
            weight,
            stake_accounts_seed_begin: 0,
            stake_accounts_seed_end: 0,
            stake_accounts_balance: Lamports(0),
            last_update_epoch: 0,
        }
    }

    /// The record's internal invariant: the seed range is a well-formed
    /// half-open interval, and a validator without stake accounts has no
    /// observed balance left.
    pub open spec fn well_formed(self) -> bool {
        &&& self.stake_accounts_seed_begin <= self.stake_accounts_seed_end
        &&& self.stake_accounts_seed_begin == self.stake_accounts_seed_end
            ==> self.stake_accounts_balance.0 == 0
    }

    /// How many stake accounts the seed range currently holds.
    pub open spec fn spec_stake_account_count(self) -> int {
        self.stake_accounts_seed_end - self.stake_accounts_seed_begin
    }
}

/// The singleton state record of one deployed instance.
#[derive(Clone, Debug, PartialEq, Eq)]
pub struct Lido {
    /// Version of the persisted layout.
    pub lido_version: u8,
    /// The authority that may run governance operations.
    pub manager: Address,
    /// The derivative-token mint.
    pub st_sol_mint: Address,
    /// The account that holds not-yet-delegated native value.
    pub reserve_account: Address,
    /// The current conversion rate and the epoch it was computed in.
    pub exchange_rate: ExchangeRate,
    /// How observed rewards are split.
    pub reward_distribution: RewardDistribution,
    /// Where the treasury and developer reward parts are minted.
    pub fee_recipients: FeeRecipients,
    /// Fixed capacity of the validator registry.
    pub max_validators: u32,
    /// Fixed capacity of the maintainer registry.
    pub max_maintainers: u32,
    /// The validator registry, keyed by vote account address.
    pub validators: Vec<Validator>,
    /// The maintainer registry: addresses trusted to run bookkeeping bots.
    pub maintainers: Vec<Address>,
}

impl Lido {
    /// Whether some registry entry has this vote account address.
    pub open spec fn has_validator(self, vote_account_address: Address) -> bool {
        exists|i: int|
            0 <= i < self.validators@.len() && self.validators@[i].vote_account_address
                == vote_account_address
    }

    /// The index of the registry entry with this vote account address;
    /// meaningful only when `has_validator` holds (and then unique, by
    /// `well_formed`).
    pub open spec fn validator_index(self, vote_account_address: Address) -> int {
        choose|i: int|
            0 <= i < self.validators@.len() && self.validators@[i].vote_account_address
                == vote_account_address
    }

    /// Whether this address is a registered maintainer.
    pub open spec fn has_maintainer(self, maintainer: Address) -> bool {
        exists|i: int| 0 <= i < self.maintainers@.len() && self.maintainers@[i] == maintainer
    }

    /// The index of this maintainer; meaningful only when `has_maintainer`
    /// holds.
    pub open spec fn maintainer_index(self, maintainer: Address) -> int {
        choose|i: int| 0 <= i < self.maintainers@.len() && self.maintainers@[i] == maintainer
    }

    /// The record's internal invariant: registries within their declared
    /// capacity, every validator record well formed, and both registries
    /// free of duplicate keys.
    pub open spec fn well_formed(self) -> bool {
        &&& self.validators@.len() <= self.max_validators
        &&& self.maintainers@.len() <= self.max_maintainers
        &&& forall|i: int| 0 <= i < self.validators@.len() ==> self.validators@[i].well_formed()
        &&& forall|i: int, j: int|
            0 <= i < j < self.validators@.len() ==> self.validators@[i].vote_account_address
                != self.validators@[j].vote_account_address
        &&& forall|i: int, j: int|
            0 <= i < j < self.maintainers@.len() ==> self.maintainers@[i] != self.maintainers@[j]
    }

    /// Find the registry index of a validator by its vote account address.
    pub fn find_validator(&self, vote_account_address: Address) -> (r: Option<usize>)
        ensures
            match r {
                Some(i) => i < self.validators@.len() && self.validators@[i as int].vote_account_address
                    == vote_account_address && self.has_validator(vote_account_address),
                None => !self.has_validator(vote_account_address),
            },
    {
        let n = self.validators.len();
        for i in 0..n
            invariant
                n == self.validators@.len(),
                forall|j: int|
                    0 <= j < i ==> self.validators@[j].vote_account_address
                        != vote_account_address,
        {
            if self.validators[i].vote_account_address == vote_account_address {
                return Some(i);
            }
        }
        None
    }

    /// Find the registry index of a maintainer.
    pub fn find_maintainer(&self, maintainer: Address) -> (r: Option<usize>)
        ensures
            match r {
                Some(i) => i < self.maintainers@.len() && self.maintainers@[i as int] == maintainer
                    && self.has_maintainer(maintainer),
                None => !self.has_maintainer(maintainer),
            },
    {
        let n = self.maintainers.len();
        for i in 0..n
            invariant
                n == self.maintainers@.len(),
                forall|j: int| 0 <= j < i ==> self.maintainers@[j] != maintainer,
        {
            if self.maintainers[i] == maintainer {
                return Some(i);
            }
        }
        None
    }

    /// Add a validator to the registry.
    ///
    /// Fails with `DuplicateEntry` when the vote account is already
    /// registered, and with `CapacityExceeded` when the registry is at the
    /// capacity declared at initialization. On failure the record is
    /// unchanged.
    pub fn add_validator(
        &mut self,
        vote_account_address: Address,
        fee_st_sol_account: Address,
        weight: Weight,
    ) -> (r: Result<(), LidoError>)
        requires
            old(self).well_formed(),
        ensures
            final(self).well_formed(),
            old(self).has_validator(vote_account_address) ==> r == Err::<(), LidoError>(
                LidoError::DuplicateEntry,
            ) && *final(self) == *old(self),
            !old(self).has_validator(vote_account_address) && old(self).validators@.len() >= old(self).max_validators ==> r == Err::<(), LidoError>(LidoError::CapacityExceeded) && *final(self) == *old(self),
            !old(self).has_validator(vote_account_address) && old(self).validators@.len() < old(self).max_validators ==> r == Ok::<(), LidoError>(()) && *final(self) == (Lido {
                validators: final(self).validators,
                ..*old(self)
            }) && final(self).validators@ == old(self).validators@.push(
                Validator::new_spec(vote_account_address, fee_st_sol_account, weight),
            ),
    {
        if let Some(_) = self.find_validator(vote_account_address) {
            return Err(LidoError::DuplicateEntry);
        }
        if self.validators.len() >= self.max_validators as usize {
            return Err(LidoError::CapacityExceeded);
        }
        self.validators.push(Validator::new(vote_account_address, fee_st_sol_account, weight));
        Ok(())
    }

    /// Remove a validator from the registry.
    ///
    /// Fails with `NotFound` when the vote account is not registered; with
    /// `ValidatorHasStakeAccounts` while the validator's seed range is
    /// non-empty or its observed balance is not fully reconciled to zero;
    /// and with `ValidatorHasUnclaimedCredit` while fees remain unclaimed.
    /// On failure the record is unchanged.
    pub fn remove_validator(&mut self, vote_account_address: Address) -> (r: Result<
        (),
        LidoError,
    >)
        requires
            old(self).well_formed(),
        ensures
            final(self).well_formed(),
            !old(self).has_validator(vote_account_address) ==> r == Err::<(), LidoError>(
                LidoError::NotFound,
            ) && *final(self) == *old(self),
            old(self).has_validator(vote_account_address) ==> {
                let i = old(self).validator_index(vote_account_address);
                let v = old(self).validators@[i];
                if v.spec_stake_account_count() != 0 || v.stake_accounts_balance.0 != 0 {
                    r == Err::<(), LidoError>(LidoError::ValidatorHasStakeAccounts) && *final(self)
                        == *old(self)
                } else if v.fee_credit.0 != 0 {
                    r == Err::<(), LidoError>(LidoError::ValidatorHasUnclaimedCredit) && *final(self) == *old(self)
                } else {
                    r == Ok::<(), LidoError>(()) && *final(self) == (Lido {
                        validators: final(self).validators,
                        ..*old(self)
                    }) && final(self).validators@ == old(self).validators@.remove(i)
                }
            },
    {
        let i = match self.find_validator(vote_account_address) {
            Some(i) => i,
            None => { return Err(LidoError::NotFound) },
        };
        proof {
            assert(old(self).validator_index(vote_account_address) == i);
        }
        let v = self.validators[i];
        if v.stake_accounts_seed_end > v.stake_accounts_seed_begin
            || v.stake_accounts_balance.0 != 0 {
            return Err(LidoError::ValidatorHasStakeAccounts);
        }
        if v.fee_credit.0 != 0 {
            return Err(LidoError::ValidatorHasUnclaimedCredit);
        }
        self.validators.remove(i);
        Ok(())
    }

    /// Add a maintainer to the registry.
    ///
    /// Fails with `DuplicateEntry` when the address is already registered
    /// and with `CapacityExceeded` at the declared capacity. On failure the
    /// record is unchanged.
    pub fn add_maintainer(&mut self, maintainer: Address) -> (r: Result<(), LidoError>)
        requires
            old(self).well_formed(),
        ensures
            final(self).well_formed(),
            old(self).has_maintainer(maintainer) ==> r == Err::<(), LidoError>(
                LidoError::DuplicateEntry,
            ) && *final(self) == *old(self),
            !old(self).has_maintainer(maintainer) && old(self).maintainers@.len() >= old(self).max_maintainers ==> r == Err::<(), LidoError>(LidoError::CapacityExceeded) && *final(self) == *old(self),
            !old(self).has_maintainer(maintainer) && old(self).maintainers@.len() < old(self).max_maintainers ==> r == Ok::<(), LidoError>(()) && *final(self) == (Lido {
                maintainers: final(self).maintainers,
                ..*old(self)
            }) && final(self).maintainers@ == old(self).maintainers@.push(maintainer),
    {
        if let Some(_) = self.find_maintainer(maintainer) {
            return Err(LidoError::DuplicateEntry);
        }
        if self.maintainers.len() >= self.max_maintainers as usize {
            return Err(LidoError::CapacityExceeded);
        }
        self.maintainers.push(maintainer);
        Ok(())
    }

    /// Remove a maintainer from the registry.
    ///
    /// Fails with `NotFound` when the address is not registered. On failure
    /// the record is unchanged.
    pub fn remove_maintainer(&mut self, maintainer: Address) -> (r: Result<(), LidoError>)
        requires
            old(self).well_formed(),
        ensures
            final(self).well_formed(),
            !old(self).has_maintainer(maintainer) ==> r == Err::<(), LidoError>(LidoError::NotFound)
                && *final(self) == *old(self),
            old(self).has_maintainer(maintainer) ==> r == Ok::<(), LidoError>(()) && *final(self)
                == (Lido { maintainers: final(self).maintainers, ..*old(self) }) && final(self).maintainers@ == old(self).maintainers@.remove(
                old(self).maintainer_index(maintainer),
            ),
    {
        let i = match self.find_maintainer(maintainer) {
            Some(i) => i,
            None => { return Err(LidoError::NotFound) },
        };
        proof {
            assert(old(self).maintainer_index(maintainer) == i);
        }
        self.maintainers.remove(i);
        Ok(())
    }
}

impl Validator {
    /// The value `Validator::new` returns, for use in contracts.
    pub open spec fn new_spec(
        vote_account_address: Address,
        fee_st_sol_account: Address,
        weight: Weight,
    ) -> Validator {
        Validator {
            vote_account_address,
            fee_st_sol_account,
            fee_credit: StLamports(0),
            weight,
            stake_accounts_seed_begin: 0,
            stake_accounts_seed_end: 0,
            stake_accounts_balance: Lamports(0),
            last_update_epoch: 0,
        }
    }
}

} // verus!
