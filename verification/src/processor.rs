//! The operation handlers: state transitions of the protocol core.
//!
//! Every handler validates all of its preconditions before it mutates
//! anything; on any failure it returns the first violated condition and
//! leaves the record exactly as it was, so the substrate's all-or-nothing
//! commit discipline holds of the in-memory record too.

use vstd::prelude::*;

use crate::address::Address;
use crate::error::LidoError;
use crate::state::{
    ExchangeRate, FeeRecipients, Lido, RewardDistribution, RewardShares, Validator,
};
use crate::token::{Lamports, StLamports};

verus! {

/// The sum of a sequence of native amounts, as an unbounded integer.
pub open spec fn spec_sum_amounts(s: Seq<Lamports>) -> int
    decreases s.len(),
{
    if s.len() == 0 {
        0
    } else {
        spec_sum_amounts(s.drop_last()) + s.last().0
    }
}

/// The sum of the last-observed stake balances of a validator sequence.
pub open spec fn spec_sum_validator_balances(s: Seq<Validator>) -> int
    decreases s.len(),
{
    if s.len() == 0 {
        0
    } else {
        spec_sum_validator_balances(s.drop_last()) + s.last().stake_accounts_balance.0
    }
}

proof fn lemma_sum_amounts_nonneg(s: Seq<Lamports>)
    ensures
        0 <= spec_sum_amounts(s),
    decreases s.len(),
{
    if s.len() > 0 {
        lemma_sum_amounts_nonneg(s.drop_last());
    }
}

proof fn lemma_sum_balances_nonneg(s: Seq<Validator>)
    ensures
        0 <= spec_sum_validator_balances(s),
    decreases s.len(),
{
    if s.len() > 0 {
        lemma_sum_balances_nonneg(s.drop_last());
    }
}

proof fn lemma_sum_amounts_take_succ(s: Seq<Lamports>, i: int)
    requires
        0 <= i < s.len(),
    ensures
        spec_sum_amounts(s.take(i + 1)) == spec_sum_amounts(s.take(i)) + s[i].0,
{
    assert(s.take(i + 1).drop_last() =~= s.take(i));
    assert(s.take(i + 1).last() == s[i]);
}

proof fn lemma_sum_amounts_take_le(s: Seq<Lamports>, i: int)
    requires
        0 <= i <= s.len(),
    ensures
        spec_sum_amounts(s.take(i)) <= spec_sum_amounts(s),
    decreases s.len() - i,
{
    if i == s.len() {
        assert(s.take(i) =~= s);
    } else {
        lemma_sum_amounts_take_succ(s, i);
        lemma_sum_amounts_take_le(s, i + 1);
    }
}

proof fn lemma_sum_balances_take_succ(s: Seq<Validator>, i: int)
    requires
        0 <= i < s.len(),
    ensures
        spec_sum_validator_balances(s.take(i + 1)) == spec_sum_validator_balances(s.take(i))
            + s[i].stake_accounts_balance.0,
{
    assert(s.take(i + 1).drop_last() =~= s.take(i));
    assert(s.take(i + 1).last() == s[i]);
}

proof fn lemma_sum_balances_take_le(s: Seq<Validator>, i: int)
    requires
        0 <= i <= s.len(),
    ensures
        spec_sum_validator_balances(s.take(i)) <= spec_sum_validator_balances(s),
    decreases s.len() - i,
{
    if i == s.len() {
        assert(s.take(i) =~= s);
    } else {
        lemma_sum_balances_take_succ(s, i);
        lemma_sum_balances_take_le(s, i + 1);
    }
}

/// Sum a list of observed stake balances; fails with `ArithmeticOverflow`
/// instead of wrapping.
pub fn sum_amounts(amounts: &Vec<Lamports>) -> (r: Result<Lamports, LidoError>)
    ensures
        r == if spec_sum_amounts(amounts@) <= u64::MAX {
            Ok::<Lamports, LidoError>(Lamports(spec_sum_amounts(amounts@) as u64))
        } else {
            Err::<Lamports, LidoError>(LidoError::ArithmeticOverflow)
        },
{
    let mut acc: u64 = 0;
    let n = amounts.len();
    proof {
        assert(amounts@.take(0) =~= Seq::<Lamports>::empty());
    }
    for i in 0..n
        invariant
            n == amounts@.len(),
            acc == spec_sum_amounts(amounts@.take(i as int)),
    {
        proof {
            lemma_sum_amounts_take_succ(amounts@, i as int);
        }
        if acc > u64::MAX - amounts[i].0 {
            proof {
                lemma_sum_amounts_take_le(amounts@, i + 1);
            }
            return Err(LidoError::ArithmeticOverflow);
        }
        acc = acc + amounts[i].0;
    }
    proof {
        assert(amounts@.take(n as int) =~= amounts@);
    }
    Ok(Lamports(acc))
}

impl Lido {
    /// Create the record of a fresh instance: registries empty, the
    /// exchange rate unestablished (everything zero, epoch zero).
    pub fn new(
        manager: Address,
        st_sol_mint: Address,
        reserve_account: Address,
        reward_distribution: RewardDistribution,
        fee_recipients: FeeRecipients,
        max_validators: u32,
        max_maintainers: u32,
    ) -> (l: Lido)
        ensures
            l.manager == manager,
            l.st_sol_mint == st_sol_mint,
            l.reserve_account == reserve_account,
            l.reward_distribution == reward_distribution,
            l.fee_recipients == fee_recipients,
            l.max_validators == max_validators,
            l.max_maintainers == max_maintainers,
            l.exchange_rate == (ExchangeRate {
                computed_in_epoch: 0,
                sol_balance: Lamports(0),
                st_sol_supply: StLamports(0),
            }),
            l.lido_version == 0,
            l.validators@ == Seq::<Validator>::empty(),
            l.maintainers@ == Seq::<Address>::empty(),
            l.well_formed(),
    {
        Lido {
            lido_version: 0,
            manager,
            st_sol_mint,
            reserve_account,
            exchange_rate: ExchangeRate {
                computed_in_epoch: 0,
                sol_balance: Lamports(0),
                st_sol_supply: StLamports(0),
            },
            reward_distribution,
            fee_recipients,
            max_validators,
            max_maintainers,
            validators: Vec::new(),
            maintainers: Vec::new(),
        }
    }

    /// What recomputing the exchange rate does to the record, or the exact
    /// error that rules it out. The new rate is the total pooled value
    /// (reserve plus every validator's last-observed stake balance) over
    /// the derivative supply, stamped with the current epoch.
    pub open spec fn spec_update_exchange_rate(
        self,
        current_epoch: u64,
        reserve_balance: Lamports,
        st_sol_supply: StLamports,
    ) -> Result<Lido, LidoError> {
        if self.exchange_rate.computed_in_epoch >= current_epoch {
            Err(LidoError::AlreadyUpdated)
        } else if reserve_balance.0 + spec_sum_validator_balances(self.validators@) > u64::MAX {
            Err(LidoError::ArithmeticOverflow)
        } else {
            Ok(
                Lido {
                    exchange_rate: ExchangeRate {
                        computed_in_epoch: current_epoch,
                        sol_balance: Lamports(
                            (reserve_balance.0 + spec_sum_validator_balances(
                                self.validators@,
                            )) as u64,
                        ),
                        st_sol_supply,
                    },
                    ..self
                },
            )
        }
    }

    /// Recompute the exchange rate for the current epoch from the observed
    /// reserve balance and derivative supply.
    ///
    /// Fails with `AlreadyUpdated` when the rate was already computed in
    /// this epoch: the repeat is rejected, not silently accepted, so a
    /// stale caller can tell. Callable by anybody; it only re-derives
    /// public information.
    pub fn update_exchange_rate(
        &mut self,
        current_epoch: u64,
        reserve_balance: Lamports,
        st_sol_supply: StLamports,
    ) -> (r: Result<(), LidoError>)
        requires
            old(self).well_formed(),
        ensures
            final(self).well_formed(),
            match old(self).spec_update_exchange_rate(current_epoch, reserve_balance, st_sol_supply) {
                Ok(l) => r == Ok::<(), LidoError>(()) && *final(self) == l,
                Err(e) => r == Err::<(), LidoError>(e) && *final(self) == *old(self),
            },
    {
        if self.exchange_rate.computed_in_epoch >= current_epoch {
            return Err(LidoError::AlreadyUpdated);
        }
        proof {
            lemma_sum_balances_nonneg(self.validators@);
        }
        let observed = match self.sum_validator_balances() {
            Ok(v) => v,
            Err(e) => { return Err(e) },
        };
        let sol_balance = match reserve_balance.checked_add(observed) {
            Ok(v) => v,
            Err(e) => { return Err(e) },
        };
        self.exchange_rate = ExchangeRate {
            computed_in_epoch: current_epoch,
            sol_balance,
            st_sol_supply,
        };
        Ok(())
    }

    /// Sum the last-observed stake balances over the whole registry.
    pub fn sum_validator_balances(&self) -> (r: Result<Lamports, LidoError>)
        ensures
            r == if spec_sum_validator_balances(self.validators@) <= u64::MAX {
                Ok::<Lamports, LidoError>(
                    Lamports(spec_sum_validator_balances(self.validators@) as u64),
                )
            } else {
                Err::<Lamports, LidoError>(LidoError::ArithmeticOverflow)
            },
    {
        let mut acc: u64 = 0;
        let n = self.validators.len();
        proof {
            assert(self.validators@.take(0) =~= Seq::<Validator>::empty());
        }
        for i in 0..n
            invariant
                n == self.validators@.len(),
                acc == spec_sum_validator_balances(self.validators@.take(i as int)),
        {
            proof {
                lemma_sum_balances_take_succ(self.validators@, i as int);
            }
            if acc > u64::MAX - self.validators[i].stake_accounts_balance.0 {
                proof {
                    lemma_sum_balances_take_le(self.validators@, i + 1);
                }
                return Err(LidoError::ArithmeticOverflow);
            }
            acc = acc + self.validators[i].stake_accounts_balance.0;
        }
        proof {
            assert(self.validators@.take(n as int) =~= self.validators@);
        }
        Ok(Lamports(acc))
    }

    /// What a deposit mints: `StaleRate` unless the exchange rate was
    /// recomputed in the current epoch; then derivative units at that
    /// rate, rounded down, or one-to-one before the first deposit
    /// establishes a supply.
    pub open spec fn spec_deposit(self, current_epoch: u64, amount: Lamports) -> Result<
        StLamports,
        LidoError,
    > {
        if self.exchange_rate.computed_in_epoch != current_epoch {
            Err(LidoError::StaleRate)
        } else {
            crate::balance::spec_minted_on_deposit(self.exchange_rate, amount)
        }
    }

    /// How many derivative units a deposit of `amount` mints.
    ///
    /// Fails with `StaleRate` unless the exchange rate was computed in
    /// `current_epoch`: recomputation must precede any deposit that epoch.
    /// While the recorded supply is zero (the pool is being established),
    /// the rate is one-to-one; afterwards the amount converts at the
    /// current rate, rounded down toward the pool.
    pub fn deposit(&self, current_epoch: u64, amount: Lamports) -> (r: Result<
        StLamports,
        LidoError,
    >)
        ensures
            r == self.spec_deposit(current_epoch, amount),
    {
        if self.exchange_rate.computed_in_epoch != current_epoch {
            Err(LidoError::StaleRate)
        } else if self.exchange_rate.st_sol_supply.0 == 0 {
            Ok(StLamports(amount.0))
        } else {
            self.exchange_rate.exchange_sol(amount)
        }
    }

    /// What a withdrawal redeems: `StaleRate` unless the exchange rate
    /// was recomputed in the current epoch; then the conversion at that
    /// rate, rounded down.
    pub open spec fn spec_withdraw(self, current_epoch: u64, amount: StLamports) -> Result<
        Lamports,
        LidoError,
    > {
        if self.exchange_rate.computed_in_epoch != current_epoch {
            Err(LidoError::StaleRate)
        } else {
            self.exchange_rate.spec_exchange_st_sol(amount)
        }
    }

    /// How many native units a withdrawal of `amount` derivative units
    /// redeems: the conversion at the current rate, rounded down toward
    /// the pool.
    ///
    /// Fails with `StaleRate` unless the exchange rate was computed in
    /// `current_epoch` (recomputation must precede any withdrawal that
    /// epoch), and with `InvalidUnitConversion` while the rate is not
    /// established.
    pub fn withdraw(&self, current_epoch: u64, amount: StLamports) -> (r: Result<
        Lamports,
        LidoError,
    >)
        ensures
            r == self.spec_withdraw(current_epoch, amount),
    {
        if self.exchange_rate.computed_in_epoch != current_epoch {
            Err(LidoError::StaleRate)
        } else {
            self.exchange_rate.exchange_st_sol(amount)
        }
    }

    /// What reconciling one validator's balance does: the updated registry
    /// entry and the reward shares to mint, or the exact error.
    ///
    /// A non-negative delta against the last-observed balance is a reward:
    /// it converts at the current-epoch rate and splits per the reward
    /// distribution, with the validation share credited to the validator.
    /// A negative delta mints nothing; the balance still updates.
    pub open spec fn spec_update_validator_balance(
        self,
        vote_account_address: Address,
        current_epoch: u64,
        observed: Seq<Lamports>,
    ) -> Result<(Validator, RewardShares), LidoError> {
        if !self.has_validator(vote_account_address) {
            Err(LidoError::NotFound)
        } else {
            let v = self.validators@[self.validator_index(vote_account_address)];
            if self.exchange_rate.computed_in_epoch != current_epoch {
                Err(LidoError::StaleRate)
            } else if v.last_update_epoch >= current_epoch {
                Err(LidoError::AlreadyUpdated)
            } else if observed.len() != v.spec_stake_account_count() {
                Err(LidoError::AuthorizationMismatch)
            } else if spec_sum_amounts(observed) > u64::MAX {
                Err(LidoError::ArithmeticOverflow)
            } else {
                let new_balance = Lamports(spec_sum_amounts(observed) as u64);
                if new_balance.0 < v.stake_accounts_balance.0 {
                    Ok(
                        (
                            Validator {
                                stake_accounts_balance: new_balance,
                                last_update_epoch: current_epoch,
                                ..v
                            },
                            RewardShares::spec_zero(),
                        ),
                    )
                } else {
                    let reward_sol = Lamports((new_balance.0 - v.stake_accounts_balance.0) as u64);
                    match self.exchange_rate.spec_exchange_sol(reward_sol) {
                        Err(e) => Err(e),
                        Ok(reward_st) => match self.reward_distribution.spec_split_reward(
                            reward_st,
                        ) {
                            Err(e) => Err(e),
                            Ok(shares) => if v.fee_credit.0 + shares.validation.0 > u64::MAX {
                                Err(LidoError::ArithmeticOverflow)
                            } else {
                                Ok(
                                    (
                                        Validator {
                                            stake_accounts_balance: new_balance,
                                            last_update_epoch: current_epoch,
                                            fee_credit: StLamports(
                                                (v.fee_credit.0 + shares.validation.0) as u64,
                                            ),
                                            ..v
                                        },
                                        shares,
                                    ),
                                )
                            },
                        },
                    }
                }
            }
        }
    }

    /// Reconcile one validator's observed stake balances against its
    /// last-observed balance and mint the reward delta.
    ///
    /// `observed` carries the current balance of each stake account in the
    /// validator's seed range, in seed order. Fails with `StaleRate` unless
    /// the exchange rate was computed in `current_epoch`, and with
    /// `AlreadyUpdated` when this validator was already reconciled in this
    /// epoch, so a reward is never minted twice. A decreased balance mints
    /// nothing and still updates the record. On failure the record is
    /// unchanged.
    pub fn update_validator_balance(
        &mut self,
        vote_account_address: Address,
        current_epoch: u64,
        observed: &Vec<Lamports>,
    ) -> (r: Result<RewardShares, LidoError>)
        requires
            old(self).well_formed(),
        ensures
            final(self).well_formed(),
            match old(self).spec_update_validator_balance(
                vote_account_address,
                current_epoch,
                observed@,
            ) {
                Ok(outcome) => r == Ok::<RewardShares, LidoError>(outcome.1) && final(self).validators@ == old(self).validators@.update(
                    old(self).validator_index(vote_account_address),
                    outcome.0,
                ) && *final(self) == (Lido { validators: final(self).validators, ..*old(self) }),
                Err(e) => r == Err::<RewardShares, LidoError>(e) && *final(self) == *old(self),
            },
    {
        let i = match self.find_validator(vote_account_address) {
            Some(i) => i,
            None => { return Err(LidoError::NotFound) },
        };
        proof {
            assert(old(self).validator_index(vote_account_address) == i);
        }
        let v = self.validators[i];
        if self.exchange_rate.computed_in_epoch != current_epoch {
            return Err(LidoError::StaleRate);
        }
        if v.last_update_epoch >= current_epoch {
            return Err(LidoError::AlreadyUpdated);
        }
        let range_len = v.stake_accounts_seed_end - v.stake_accounts_seed_begin;
        if observed.len() as u64 != range_len {
            return Err(LidoError::AuthorizationMismatch);
        }
        proof {
            lemma_sum_amounts_nonneg(observed@);
        }
        let new_balance = match sum_amounts(observed) {
            Ok(b) => b,
            Err(e) => { return Err(e) },
        };
        if new_balance.0 < v.stake_accounts_balance.0 {
            let updated = Validator {
                stake_accounts_balance: new_balance,
                last_update_epoch: current_epoch,
                ..v
            };
            self.validators.set(i, updated);
            return Ok(
                RewardShares {
                    insurance: StLamports(0),
                    treasury: StLamports(0),
                    validation: StLamports(0),
                    manager: StLamports(0),
                },
            );
        }
        let reward_sol = Lamports(new_balance.0 - v.stake_accounts_balance.0);
        let reward_st = match self.exchange_rate.exchange_sol(reward_sol) {
            Ok(a) => a,
            Err(e) => { return Err(e) },
        };
        let shares = match self.reward_distribution.split_reward(reward_st) {
            Ok(s) => s,
            Err(e) => { return Err(e) },
        };
        let fee_credit = match v.fee_credit.checked_add(shares.validation) {
            Ok(c) => c,
            Err(e) => { return Err(e) },
        };
        let updated = Validator {
            stake_accounts_balance: new_balance,
            last_update_epoch: current_epoch,
            fee_credit,
            ..v
        };
        self.validators.set(i, updated);
        Ok(shares)
    }

    /// What staking a deposit does: the updated registry entry and the
    /// seed of the brand-new stake account, or the exact error.
    pub open spec fn spec_stake_deposit(
        self,
        vote_account_address: Address,
        amount: Lamports,
        reserve_balance: Lamports,
    ) -> Result<(Validator, u64), LidoError> {
        if !self.has_validator(vote_account_address) {
            Err(LidoError::NotFound)
        } else {
            let v = self.validators@[self.validator_index(vote_account_address)];
            if amount.0 > reserve_balance.0 {
                Err(LidoError::ArithmeticUnderflow)
            } else if v.stake_accounts_seed_end == u64::MAX {
                Err(LidoError::ArithmeticOverflow)
            } else if v.stake_accounts_balance.0 + amount.0 > u64::MAX {
                Err(LidoError::ArithmeticOverflow)
            } else {
                Ok(
                    (
                        Validator {
                            stake_accounts_seed_end: (v.stake_accounts_seed_end + 1) as u64,
                            stake_accounts_balance: Lamports(
                                (v.stake_accounts_balance.0 + amount.0) as u64,
                            ),
                            ..v
                        },
                        v.stake_accounts_seed_end,
                    ),
                )
            }
        }
    }

    /// Move `amount` from the reserve into a brand-new stake account of
    /// this validator, at the seed this returns, and extend the seed range
    /// over it.
    ///
    /// Fails with `ArithmeticUnderflow` when the reserve holds less than
    /// `amount`. On failure the record is unchanged.
    pub fn stake_deposit(
        &mut self,
        vote_account_address: Address,
        amount: Lamports,
        reserve_balance: Lamports,
    ) -> (r: Result<u64, LidoError>)
        requires
            old(self).well_formed(),
        ensures
            final(self).well_formed(),
            match old(self).spec_stake_deposit(vote_account_address, amount, reserve_balance) {
                Ok(outcome) => r == Ok::<u64, LidoError>(outcome.1) && final(self).validators@
                    == old(self).validators@.update(
                    old(self).validator_index(vote_account_address),
                    outcome.0,
                ) && *final(self) == (Lido { validators: final(self).validators, ..*old(self) }),
                Err(e) => r == Err::<u64, LidoError>(e) && *final(self) == *old(self),
            },
    {
        let i = match self.find_validator(vote_account_address) {
            Some(i) => i,
            None => { return Err(LidoError::NotFound) },
        };
        proof {
            assert(old(self).validator_index(vote_account_address) == i);
        }
        let v = self.validators[i];
        if amount.0 > reserve_balance.0 {
            return Err(LidoError::ArithmeticUnderflow);
        }
        if v.stake_accounts_seed_end == u64::MAX {
            return Err(LidoError::ArithmeticOverflow);
        }
        let new_balance = match v.stake_accounts_balance.checked_add(amount) {
            Ok(b) => b,
            Err(e) => { return Err(e) },
        };
        let seed = v.stake_accounts_seed_end;
        let updated = Validator {
            stake_accounts_seed_end: seed + 1,
            stake_accounts_balance: new_balance,
            ..v
        };
        self.validators.set(i, updated);
        Ok(seed)
    }

    /// What merging the two oldest stake accounts does: the updated
    /// registry entry and the inactive balance swept back to the reserve,
    /// or the exact error.
    pub open spec fn spec_merge_stake(
        self,
        vote_account_address: Address,
        from_activation_epoch: u64,
        to_activation_epoch: u64,
        from_inactive: Lamports,
        to_inactive: Lamports,
    ) -> Result<(Validator, Lamports), LidoError> {
        if !self.has_validator(vote_account_address) {
            Err(LidoError::NotFound)
        } else {
            let v = self.validators@[self.validator_index(vote_account_address)];
            if v.spec_stake_account_count() < 2 {
                Err(LidoError::MergeIneligible)
            } else if from_activation_epoch != to_activation_epoch {
                Err(LidoError::MergeIneligible)
            } else if from_inactive.0 + to_inactive.0 > u64::MAX {
                Err(LidoError::ArithmeticOverflow)
            } else if from_inactive.0 + to_inactive.0 > v.stake_accounts_balance.0 {
                Err(LidoError::ArithmeticUnderflow)
            } else {
                Ok(
                    (
                        Validator {
                            stake_accounts_seed_begin: (v.stake_accounts_seed_begin + 1) as u64,
                            stake_accounts_balance: Lamports(
                                (v.stake_accounts_balance.0 - from_inactive.0
                                    - to_inactive.0) as u64,
                            ),
                            ..v
                        },
                        Lamports((from_inactive.0 + to_inactive.0) as u64),
                    ),
                )
            }
        }
    }

    /// Merge the stake account at the first live seed into its successor
    /// and contract the seed range; the returned inactive balance is swept
    /// back to the reserve so it can be delegated again.
    ///
    /// `from_activation_epoch` and `to_activation_epoch` are the observed
    /// activation epochs of the two accounts; merging is only valid when
    /// they match, else the call fails with `MergeIneligible`, as it does
    /// when the range holds fewer than two accounts. On failure the record
    /// is unchanged.
    pub fn merge_stake(
        &mut self,
        vote_account_address: Address,
        from_activation_epoch: u64,
        to_activation_epoch: u64,
        from_inactive: Lamports,
        to_inactive: Lamports,
    ) -> (r: Result<Lamports, LidoError>)
        requires
            old(self).well_formed(),
        ensures
            final(self).well_formed(),
            match old(self).spec_merge_stake(
                vote_account_address,
                from_activation_epoch,
                to_activation_epoch,
                from_inactive,
                to_inactive,
            ) {
                Ok(outcome) => r == Ok::<Lamports, LidoError>(outcome.1) && final(self).validators@
                    == old(self).validators@.update(
                    old(self).validator_index(vote_account_address),
                    outcome.0,
                ) && *final(self) == (Lido { validators: final(self).validators, ..*old(self) }),
                Err(e) => r == Err::<Lamports, LidoError>(e) && *final(self) == *old(self),
            },
    {
        let i = match self.find_validator(vote_account_address) {
            Some(i) => i,
            None => { return Err(LidoError::NotFound) },
        };
        proof {
            assert(old(self).validator_index(vote_account_address) == i);
        }
        let v = self.validators[i];
        if v.stake_accounts_seed_end - v.stake_accounts_seed_begin < 2 {
            return Err(LidoError::MergeIneligible);
        }
        if from_activation_epoch != to_activation_epoch {
            return Err(LidoError::MergeIneligible);
        }
        let swept = match from_inactive.checked_add(to_inactive) {
            Ok(s) => s,
            Err(e) => { return Err(e) },
        };
        let new_balance = match v.stake_accounts_balance.checked_sub(swept) {
            Ok(b) => b,
            Err(e) => { return Err(e) },
        };
        let updated = Validator {
            stake_accounts_seed_begin: v.stake_accounts_seed_begin + 1,
            stake_accounts_balance: new_balance,
            ..v
        };
        self.validators.set(i, updated);
        Ok(swept)
    }

    /// What claiming a validator's fees does: the entry with its credit
    /// cleared and the amount to mint to its fee account.
    pub open spec fn spec_claim_validator_fees(self, vote_account_address: Address) -> Result<
        (Validator, StLamports),
        LidoError,
    > {
        if !self.has_validator(vote_account_address) {
            Err(LidoError::NotFound)
        } else {
            let v = self.validators@[self.validator_index(vote_account_address)];
            Ok((Validator { fee_credit: StLamports(0), ..v }, v.fee_credit))
        }
    }

    /// Pay out a validator's accumulated fee credit: the returned amount
    /// is minted to the validator's fee account and the credit resets to
    /// zero. On failure the record is unchanged.
    pub fn claim_validator_fees(&mut self, vote_account_address: Address) -> (r: Result<
        StLamports,
        LidoError,
    >)
        requires
            old(self).well_formed(),
        ensures
            final(self).well_formed(),
            match old(self).spec_claim_validator_fees(vote_account_address) {
                Ok(outcome) => r == Ok::<StLamports, LidoError>(outcome.1) && final(self).validators@ == old(self).validators@.update(
                    old(self).validator_index(vote_account_address),
                    outcome.0,
                ) && *final(self) == (Lido { validators: final(self).validators, ..*old(self) }),
                Err(e) => r == Err::<StLamports, LidoError>(e) && *final(self) == *old(self),
            },
    {
        let i = match self.find_validator(vote_account_address) {
            Some(i) => i,
            None => { return Err(LidoError::NotFound) },
        };
        proof {
            assert(old(self).validator_index(vote_account_address) == i);
        }
        let v = self.validators[i];
        let updated = Validator { fee_credit: StLamports(0), ..v };
        self.validators.set(i, updated);
        Ok(v.fee_credit)
    }

    /// Replace the reward distribution policy and the fee recipients.
    /// A zero-total policy is accepted here; distribution itself rejects
    /// it when a reward is split.
    pub fn change_reward_distribution(
        &mut self,
        new_reward_distribution: RewardDistribution,
        new_fee_recipients: FeeRecipients,
    ) -> (r: Result<(), LidoError>)
        requires
            old(self).well_formed(),
        ensures
            final(self).well_formed(),
            r == Ok::<(), LidoError>(()),
            *final(self) == (Lido {
                reward_distribution: new_reward_distribution,
                fee_recipients: new_fee_recipients,
                ..*old(self)
            }),
    {
        self.reward_distribution = new_reward_distribution;
        self.fee_recipients = new_fee_recipients;
        Ok(())
    }
}

/// No double-minting: after a validator's balance was reconciled in an
/// epoch, reconciling it again in the same epoch fails with
/// `AlreadyUpdated`, whatever balances the second run observes. `post` is
/// the record the first run leaves behind.
pub proof fn lemma_update_validator_balance_rejects_repeat(
    pre: Lido,
    post: Lido,
    vote_account_address: Address,
    current_epoch: u64,
    observed_first: Seq<Lamports>,
    observed_second: Seq<Lamports>,
)
    requires
        pre.well_formed(),
        pre.spec_update_validator_balance(vote_account_address, current_epoch, observed_first)
            is Ok,
        post.validators@ == pre.validators@.update(
            pre.validator_index(vote_account_address),
            pre.spec_update_validator_balance(
                vote_account_address,
                current_epoch,
                observed_first,
            ).unwrap().0,
        ),
        post == (Lido { validators: post.validators, ..pre }),
    ensures
        post.spec_update_validator_balance(vote_account_address, current_epoch, observed_second)
            == Err::<(Validator, RewardShares), LidoError>(LidoError::AlreadyUpdated),
{
    let i = pre.validator_index(vote_account_address);
    assert(pre.has_validator(vote_account_address));
    assert(post.validators@[i].vote_account_address == vote_account_address);
    assert(post.has_validator(vote_account_address));
    let j = post.validator_index(vote_account_address);
    assert(0 <= j < post.validators@.len() && post.validators@[j].vote_account_address
        == vote_account_address);
    if j != i {
        assert(pre.validators@[j].vote_account_address == vote_account_address);
        assert(false);
    }
    assert(post.validators@[i].last_update_epoch == current_epoch);
}

/// A reconciliation never mints for a shrunken balance: when the
/// observed balances sum below the last-observed balance (a slashing),
/// the operation still succeeds, every reward share is zero, and the
/// record's balance drops to the new observation.
pub proof fn lemma_no_mint_on_balance_decrease(
    l: Lido,
    vote_account_address: Address,
    current_epoch: u64,
    observed: Seq<Lamports>,
)
    requires
        l.spec_update_validator_balance(vote_account_address, current_epoch, observed) is Ok,
        spec_sum_amounts(observed) < l.validators@[l.validator_index(
            vote_account_address,
        )].stake_accounts_balance.0,
    ensures
        l.spec_update_validator_balance(
            vote_account_address,
            current_epoch,
            observed,
        ).unwrap().1 == RewardShares::spec_zero(),
        l.spec_update_validator_balance(
            vote_account_address,
            current_epoch,
            observed,
        ).unwrap().0.stake_accounts_balance.0 == spec_sum_amounts(observed),
        l.spec_update_validator_balance(
            vote_account_address,
            current_epoch,
            observed,
        ).unwrap().0.fee_credit == l.validators@[l.validator_index(
            vote_account_address,
        )].fee_credit,
{
    lemma_sum_amounts_nonneg(observed);
}

/// Recomputing the exchange rate is idempotent-rejecting: after it
/// succeeds in an epoch, running it again in the same epoch fails with
/// `AlreadyUpdated`, whatever balances the second run observes.
pub proof fn lemma_update_exchange_rate_rejects_repeat(
    l: Lido,
    current_epoch: u64,
    reserve_balance: Lamports,
    st_sol_supply: StLamports,
    reserve_balance_2: Lamports,
    st_sol_supply_2: StLamports,
)
    requires
        l.spec_update_exchange_rate(current_epoch, reserve_balance, st_sol_supply) is Ok,
    ensures
        l.spec_update_exchange_rate(
            current_epoch,
            reserve_balance,
            st_sol_supply,
        ).unwrap().spec_update_exchange_rate(current_epoch, reserve_balance_2, st_sol_supply_2)
            == Err::<Lido, LidoError>(LidoError::AlreadyUpdated),
{
}

} // verus!
