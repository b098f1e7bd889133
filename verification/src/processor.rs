//! The accounting of the pool's operations.
//!
//! Each operation is a function from the pool record and the operation's
//! arguments to the new record and a receipt that says which tokens to mint
//! or burn and which lamports to move. Moving them is the caller's part. An
//! operation that fails leaves the record as it was.

use vstd::prelude::*;
use crate::error::StakePoolError;
use crate::fee::{Fee, FeeType, FutureEpochFee};
use crate::pool::{checked_u64, spec_referral_share, StakePool};
use crate::pubkey::Pubkey;
use crate::validator_list::{without_removed, ValidatorList};
use crate::validator::ValidatorStakeInfo;

verus! {

/// The pool tokens that a deposit mints, by receiver.
#[derive(Clone, Copy, Debug, PartialEq, Eq, Structural)]
pub struct DepositReceipt {
    /// Pool tokens for the depositor.
    pub pool_tokens_user: u64,
    /// Pool tokens for the manager's fee account.
    pub pool_tokens_manager: u64,
    /// Pool tokens for the referrer.
    pub pool_tokens_referral: u64,
}

impl DepositReceipt {
    /// All pool tokens that the deposit mints.
    pub open spec fn minted(self) -> int {
        self.pool_tokens_user + self.pool_tokens_manager + self.pool_tokens_referral
    }
}

/// What a withdrawal does with the pool tokens handed in, and the lamports
/// it releases.
#[derive(Clone, Copy, Debug, PartialEq, Eq, Structural)]
pub struct WithdrawReceipt {
    /// Pool tokens to burn.
    pub pool_tokens_burnt: u64,
    /// Pool tokens to pass on to the manager's fee account.
    pub pool_tokens_fee: u64,
    /// Lamports to release from the reserve.
    pub lamports: u64,
}

/// The sum of two 64-bit amounts, or the failure of the calculation.
pub open spec fn spec_sum(a: u64, b: u64) -> Result<u64, StakePoolError> {
    if a + b <= u64::MAX {
        Ok((a + b) as u64)
    } else {
        Err(StakePoolError::CalculationFailure)
    }
}

/// The difference of two 64-bit amounts, or the failure of the calculation.
pub open spec fn spec_difference(a: u64, b: u64) -> Result<u64, StakePoolError> {
    if a >= b {
        Ok((a - b) as u64)
    } else {
        Err(StakePoolError::CalculationFailure)
    }
}

/// An amount that was calculated, or the failure of the calculation.
pub open spec fn spec_calculated(amount: Option<u64>) -> Result<u64, StakePoolError> {
    match amount {
        Some(v) => Ok(v),
        None => Err(StakePoolError::CalculationFailure),
    }
}

fn sum(a: u64, b: u64) -> (r: Result<u64, StakePoolError>)
    ensures
        r == spec_sum(a, b),
{
    match a.checked_add(b) {
        Some(v) => Ok(v),
        None => Err(StakePoolError::CalculationFailure),
    }
}

fn difference(a: u64, b: u64) -> (r: Result<u64, StakePoolError>)
    ensures
        r == spec_difference(a, b),
{
    match a.checked_sub(b) {
        Some(v) => Ok(v),
        None => Err(StakePoolError::CalculationFailure),
    }
}

fn calculated(amount: Option<u64>) -> (r: Result<u64, StakePoolError>)
    ensures
        r == spec_calculated(amount),
{
    match amount {
        Some(v) => Ok(v),
        None => Err(StakePoolError::CalculationFailure),
    }
}

impl StakePool {
    /// Whether lamports and supply are zero together or nonzero together.
    pub open spec fn is_balanced(&self) -> bool {
        (self.total_lamports == 0) == (self.pool_token_supply == 0)
    }

    /// Whether the pool charges nothing on deposits and withdrawals of SOL.
    pub open spec fn charges_no_sol_fees(&self) -> bool {
        self.sol_deposit_fee.is_zero() && self.sol_withdrawal_fee.is_zero()
    }

    /// The split of `new_tokens` freshly minted pool tokens under a deposit
    /// fee `fee` of which `referral_pct` percent go to a referrer, if there
    /// is one.
    pub open spec fn spec_split_deposit(
        new_tokens: u64,
        fee: Fee,
        referral_pct: u8,
        referrer: bool,
    ) -> Result<DepositReceipt, StakePoolError> {
        match spec_calculated(checked_u64(fee.spec_apply(new_tokens))) {
            Err(e) => Err(e),
            Ok(fee_tokens) => match spec_difference(new_tokens, fee_tokens) {
                Err(e) => Err(e),
                Ok(user) => match (if referrer {
                    spec_calculated(checked_u64(spec_referral_share(fee_tokens, referral_pct)))
                } else {
                    Ok(0u64)
                }) {
                    Err(e) => Err(e),
                    Ok(referral) => match spec_difference(fee_tokens, referral) {
                        Err(e) => Err(e),
                        Ok(manager) => if new_tokens == 0 || user == 0 {
                            Err(StakePoolError::DepositTooSmall)
                        } else {
                            Ok(
                                DepositReceipt {
                                    pool_tokens_user: user,
                                    pool_tokens_manager: manager,
                                    pool_tokens_referral: referral,
                                },
                            )
                        },
                    },
                },
            },
        }
    }

    /// A deposit of `lamports` SOL in epoch `current_epoch`.
    ///
    /// The pool must have been updated in this epoch. The deposit mints
    /// `tokens_for_deposit(lamports)` pool tokens. Of these the deposit fee
    /// is withheld; the referral share of the fee goes to the referrer, if
    /// there is one, the rest of the fee to the manager, and what is left of
    /// the new tokens to the depositor. A deposit that leaves the depositor
    /// without tokens is too small.
    pub open spec fn spec_deposit_sol(
        self,
        lamports: u64,
        referrer: bool,
        current_epoch: u64,
    ) -> Result<(StakePool, DepositReceipt), StakePoolError> {
        if self.last_update_epoch != current_epoch {
            Err(StakePoolError::StakeListAndPoolOutOfDate)
        } else if lamports == 0 {
            Err(StakePoolError::DepositTooSmall)
        } else {
            match spec_calculated(checked_u64(self.spec_pool_tokens_for_deposit(lamports))) {
                Err(e) => Err(e),
                Ok(new_tokens) => match StakePool::spec_split_deposit(
                    new_tokens,
                    self.sol_deposit_fee,
                    self.sol_referral_fee,
                    referrer,
                ) {
                    Err(e) => Err(e),
                    Ok(receipt) => match (
                        spec_sum(self.total_lamports, lamports),
                        spec_sum(self.pool_token_supply, new_tokens),
                    ) {
                        (Ok(total_lamports), Ok(pool_token_supply)) => Ok(
                            (StakePool { total_lamports, pool_token_supply, ..self }, receipt),
                        ),
                        _ => Err(StakePoolError::CalculationFailure),
                    },
                },
            }
        }
    }

    /// A withdrawal of SOL for `pool_tokens` in epoch `current_epoch`.
    ///
    /// The pool must have been updated in this epoch, and the tokens must
    /// be worth at least one lamport. The withdrawal fee, in pool tokens,
    /// goes to the manager; the other tokens are burnt, and their worth in
    /// lamports is released from the reserve. A withdrawal that releases
    /// nothing is too small.
    pub open spec fn spec_withdraw_sol(self, pool_tokens: u64, current_epoch: u64) -> Result<
        (StakePool, WithdrawReceipt),
        StakePoolError,
    > {
        if self.last_update_epoch != current_epoch {
            Err(StakePoolError::StakeListAndPoolOutOfDate)
        } else {
            match spec_calculated(checked_u64(self.spec_lamports_withdraw_amount(pool_tokens))) {
                Err(e) => Err(e),
                Ok(worth) => if worth == 0 {
                    Err(StakePoolError::WithdrawalTooSmall)
                } else {
                    match spec_calculated(
                        checked_u64(self.sol_withdrawal_fee.spec_apply(pool_tokens)),
                    ) {
                        Err(e) => Err(e),
                        Ok(fee) => match spec_difference(pool_tokens, fee) {
                            Err(e) => Err(e),
                            Ok(burnt) => match spec_calculated(
                                checked_u64(self.spec_lamports_withdraw_amount(burnt)),
                            ) {
                                Err(e) => Err(e),
                                Ok(lamports) => if lamports == 0 {
                                    Err(StakePoolError::WithdrawalTooSmall)
                                } else {
                                    match (
                                        spec_difference(self.total_lamports, lamports),
                                        spec_difference(self.pool_token_supply, burnt),
                                    ) {
                                        (Ok(total_lamports), Ok(pool_token_supply)) => Ok(
                                            (
                                                StakePool {
                                                    total_lamports,
                                                    pool_token_supply,
                                                    ..self
                                                },
                                                WithdrawReceipt {
                                                    pool_tokens_burnt: burnt,
                                                    pool_tokens_fee: fee,
                                                    lamports,
                                                },
                                            ),
                                        ),
                                        _ => Err(StakePoolError::CalculationFailure),
                                    }
                                },
                            },
                        },
                    }
                },
            }
        }
    }

    /// Splits freshly minted pool tokens between the depositor, the manager
    /// and the referrer.
    pub fn split_deposit(new_tokens: u64, fee: &Fee, referral_pct: u8, referrer: bool) -> (r:
        Result<DepositReceipt, StakePoolError>)
        ensures
            r == StakePool::spec_split_deposit(new_tokens, *fee, referral_pct, referrer),
            r matches Ok(receipt) ==> receipt.minted() == new_tokens,
    {
        let fee_tokens = match fee.apply(new_tokens) {
            Some(v) => {
                if v > u64::MAX as u128 {
                    return Err(StakePoolError::CalculationFailure);
                }
                v as u64
            },
            None => {
                return Err(StakePoolError::CalculationFailure);
            },
        };
        let user = difference(new_tokens, fee_tokens)?;
        let referral = if referrer {
            proof {
                crate::math::lemma_u64_product_bound(fee_tokens, referral_pct as u64);
            }
            let share: u128 = (fee_tokens as u128) * (referral_pct as u128) / 100u128;
            if share > u64::MAX as u128 {
                return Err(StakePoolError::CalculationFailure);
            }
            share as u64
        } else {
            0
        };
        let manager = difference(fee_tokens, referral)?;
        if new_tokens == 0 || user == 0 {
            return Err(StakePoolError::DepositTooSmall);
        }
        Ok(
            DepositReceipt {
                pool_tokens_user: user,
                pool_tokens_manager: manager,
                pool_tokens_referral: referral,
            },
        )
    }

    /// Accounts for a deposit of `lamports` SOL. `referrer` says whether the
    /// deposit names a referrer.
    pub fn deposit_sol(&mut self, lamports: u64, referrer: bool, current_epoch: u64) -> (r: Result<
        DepositReceipt,
        StakePoolError,
    >)
        ensures
            match old(self).spec_deposit_sol(lamports, referrer, current_epoch) {
                Ok((pool, receipt)) => r == Ok::<DepositReceipt, StakePoolError>(receipt)
                    && *final(self) == pool,
                Err(e) => r == Err::<DepositReceipt, StakePoolError>(e) && *final(self) == *old(
                    self,
                ),
            },
            r matches Ok(receipt) ==> final(self).pool_token_supply == old(self).pool_token_supply
                + receipt.minted() && final(self).total_lamports == old(self).total_lamports
                + lamports,
    {
        if self.last_update_epoch != current_epoch {
            return Err(StakePoolError::StakeListAndPoolOutOfDate);
        }
        if lamports == 0 {
            return Err(StakePoolError::DepositTooSmall);
        }
        let new_tokens = calculated(self.calc_pool_tokens_for_deposit(lamports))?;
        let receipt = StakePool::split_deposit(
            new_tokens,
            &self.sol_deposit_fee,
            self.sol_referral_fee,
            referrer,
        )?;
        let total_lamports = sum(self.total_lamports, lamports);
        let pool_token_supply = sum(self.pool_token_supply, new_tokens);
        match (total_lamports, pool_token_supply) {
            (Ok(total), Ok(supply)) => {
                self.total_lamports = total;
                self.pool_token_supply = supply;
                Ok(receipt)
            },
            _ => Err(StakePoolError::CalculationFailure),
        }
    }

    /// Accounts for a withdrawal of SOL for `pool_tokens`.
    pub fn withdraw_sol(&mut self, pool_tokens: u64, current_epoch: u64) -> (r: Result<
        WithdrawReceipt,
        StakePoolError,
    >)
        ensures
            match old(self).spec_withdraw_sol(pool_tokens, current_epoch) {
                Ok((pool, receipt)) => r == Ok::<WithdrawReceipt, StakePoolError>(receipt)
                    && *final(self) == pool,
                Err(e) => r == Err::<WithdrawReceipt, StakePoolError>(e) && *final(self) == *old(
                    self,
                ),
            },
            r matches Ok(receipt) ==> final(self).pool_token_supply + receipt.pool_tokens_burnt
                == old(self).pool_token_supply && final(self).total_lamports + receipt.lamports
                == old(self).total_lamports && receipt.pool_tokens_burnt + receipt.pool_tokens_fee
                == pool_tokens,
    {
        if self.last_update_epoch != current_epoch {
            return Err(StakePoolError::StakeListAndPoolOutOfDate);
        }
        let worth = calculated(self.calc_lamports_withdraw_amount(pool_tokens))?;
        if worth == 0 {
            return Err(StakePoolError::WithdrawalTooSmall);
        }
        let fee = calculated(self.calc_pool_tokens_sol_withdrawal_fee(pool_tokens))?;
        let burnt = difference(pool_tokens, fee)?;
        let lamports = calculated(self.calc_lamports_withdraw_amount(burnt))?;
        if lamports == 0 {
            return Err(StakePoolError::WithdrawalTooSmall);
        }
        let total_lamports = difference(self.total_lamports, lamports);
        let pool_token_supply = difference(self.pool_token_supply, burnt);
        match (total_lamports, pool_token_supply) {
            (Ok(total), Ok(supply)) => {
                self.total_lamports = total;
                self.pool_token_supply = supply;
                Ok(WithdrawReceipt { pool_tokens_burnt: burnt, pool_tokens_fee: fee, lamports })
            },
            _ => Err(StakePoolError::CalculationFailure),
        }
    }
}

/// The lamports that the entries account for: active and transient stake of
/// every validator.
pub open spec fn total_staked(entries: Seq<ValidatorStakeInfo>) -> int
    decreases entries.len(),
{
    if entries.len() == 0 {
        0
    } else {
        total_staked(entries.drop_last()) + entries.last().spec_stake_lamports()
    }
}

/// Whether every entry was updated in `epoch`.
pub open spec fn all_updated_in(entries: Seq<ValidatorStakeInfo>, epoch: u64) -> bool {
    forall|i: int| 0 <= i < entries.len() ==> (#[trigger] entries[i]).last_update_epoch == epoch
}

/// The live fee after an epoch boundary: the pending fee if it is ready,
/// else the fee as it was.
pub open spec fn spec_fee_after_tick(live: Fee, pending: FutureEpochFee) -> Fee {
    match pending.spec_get() {
        Some(fee) => fee,
        None => live,
    }
}

/// The staked lamports are never negative and grow with the list.
pub proof fn lemma_total_staked_monotone(entries: Seq<ValidatorStakeInfo>, i: int)
    requires
        0 <= i <= entries.len(),
    ensures
        0 <= total_staked(entries.take(i)) <= total_staked(entries),
    decreases entries.len() - i,
{
    if i == entries.len() {
        assert(entries.take(i) =~= entries);
        lemma_total_staked_nonnegative(entries);
    } else {
        lemma_total_staked_monotone(entries, i + 1);
        assert(entries.take(i + 1).drop_last() =~= entries.take(i));
        lemma_total_staked_nonnegative(entries.take(i));
    }
}

/// The staked lamports are never negative.
pub proof fn lemma_total_staked_nonnegative(entries: Seq<ValidatorStakeInfo>)
    ensures
        0 <= total_staked(entries),
    decreases entries.len(),
{
    if entries.len() > 0 {
        lemma_total_staked_nonnegative(entries.drop_last());
    }
}

impl StakePool {
    /// A change of fee that `signer` asks for in epoch `current_epoch`.
    ///
    /// Only the manager changes fees. A fee above the whole is refused. The
    /// deposit fees and the referral shares change at once. The epoch fee
    /// and the two withdrawal fees are scheduled two epoch boundaries
    /// ahead, which needs a pool that was updated in this epoch, and a
    /// withdrawal fee may not rise by more than the allowed factor.
    pub open spec fn spec_set_fee(self, fee: FeeType, signer: Pubkey, current_epoch: u64) -> Result<
        StakePool,
        StakePoolError,
    > {
        if signer@ != self.manager@ {
            Err(StakePoolError::WrongManager)
        } else if fee.spec_can_only_change_next_epoch() && self.last_update_epoch
            != current_epoch {
            Err(StakePoolError::StakeListAndPoolOutOfDate)
        } else if fee.spec_is_too_high() {
            Err(StakePoolError::FeeTooHigh)
        } else {
            match fee {
                FeeType::SolReferral(pct) => Ok(StakePool { sol_referral_fee: pct, ..self }),
                FeeType::StakeReferral(pct) => Ok(StakePool { stake_referral_fee: pct, ..self }),
                FeeType::Epoch(new_fee) => Ok(
                    StakePool { next_epoch_fee: FutureEpochFee::Two(new_fee), ..self },
                ),
                FeeType::StakeWithdrawal(new_fee) => match new_fee.spec_check_withdrawal(
                    self.stake_withdrawal_fee,
                ) {
                    Err(e) => Err(e),
                    Ok(_) => Ok(
                        StakePool {
                            next_stake_withdrawal_fee: FutureEpochFee::Two(new_fee),
                            ..self
                        },
                    ),
                },
                FeeType::SolDeposit(new_fee) => Ok(StakePool { sol_deposit_fee: new_fee, ..self }),
                FeeType::StakeDeposit(new_fee) => Ok(
                    StakePool { stake_deposit_fee: new_fee, ..self },
                ),
                FeeType::SolWithdrawal(new_fee) => match new_fee.spec_check_withdrawal(
                    self.sol_withdrawal_fee,
                ) {
                    Err(e) => Err(e),
                    Ok(_) => Ok(
                        StakePool {
                            next_sol_withdrawal_fee: FutureEpochFee::Two(new_fee),
                            ..self
                        },
                    ),
                },
            }
        }
    }

    /// The record after the countdowns of the scheduled fees have moved on
    /// by one epoch boundary: a fee that was ready is now the live fee.
    pub open spec fn spec_tick_fees(self) -> StakePool {
        StakePool {
            epoch_fee: spec_fee_after_tick(self.epoch_fee, self.next_epoch_fee),
            next_epoch_fee: self.next_epoch_fee.spec_update_epoch(),
            stake_withdrawal_fee: spec_fee_after_tick(
                self.stake_withdrawal_fee,
                self.next_stake_withdrawal_fee,
            ),
            next_stake_withdrawal_fee: self.next_stake_withdrawal_fee.spec_update_epoch(),
            sol_withdrawal_fee: spec_fee_after_tick(
                self.sol_withdrawal_fee,
                self.next_sol_withdrawal_fee,
            ),
            next_sol_withdrawal_fee: self.next_sol_withdrawal_fee.spec_update_epoch(),
            ..self
        }
    }

    /// The lamports under management when the entries account for
    /// `total_staked` and the reserve holds `reserve_lamports`, of which
    /// `reserve_minimum` keep it exempt from rent.
    pub open spec fn spec_new_total(
        entries: Seq<ValidatorStakeInfo>,
        reserve_lamports: u64,
        reserve_minimum: u64,
    ) -> Result<u64, StakePoolError> {
        if total_staked(entries) > u64::MAX {
            Err(StakePoolError::CalculationFailure)
        } else {
            match spec_difference(reserve_lamports, reserve_minimum) {
                Err(e) => Err(e),
                Ok(free) => spec_sum(total_staked(entries) as u64, free),
            }
        }
    }

    /// The pool pass of epoch `current_epoch` over a list whose entries
    /// are `entries`.
    ///
    /// Every entry must have been updated in this epoch. The new total is
    /// what the entries account for plus what the reserve holds beyond its
    /// rent-exempt minimum. The reward is the growth of the total, or
    /// nothing if it shrank; the manager's fee on it is minted in pool
    /// tokens. The first pass of an epoch also moves the fee countdowns on
    /// and notes the balance of the epoch before. The result is the new
    /// record and the pool tokens to mint to the manager.
    pub open spec fn spec_update_stake_pool_balance(
        self,
        entries: Seq<ValidatorStakeInfo>,
        reserve_lamports: u64,
        reserve_minimum: u64,
        current_epoch: u64,
    ) -> Result<(StakePool, u64), StakePoolError> {
        if !all_updated_in(entries, current_epoch) {
            Err(StakePoolError::StakeListOutOfDate)
        } else {
            match StakePool::spec_new_total(entries, reserve_lamports, reserve_minimum) {
                Err(e) => Err(e),
                Ok(new_total) => {
                    let reward = if new_total >= self.total_lamports {
                        (new_total - self.total_lamports) as u64
                    } else {
                        0u64
                    };
                    match spec_calculated(self.spec_epoch_fee_amount(reward)) {
                        Err(e) => Err(e),
                        Ok(fee_tokens) => match spec_sum(self.pool_token_supply, fee_tokens) {
                            Err(e) => Err(e),
                            Ok(pool_token_supply) => {
                                let noted = if self.last_update_epoch < current_epoch {
                                    StakePool {
                                        last_epoch_pool_token_supply: self.pool_token_supply,
                                        last_epoch_total_lamports: self.total_lamports,
                                        ..self.spec_tick_fees()
                                    }
                                } else {
                                    self
                                };
                                Ok(
                                    (
                                        StakePool {
                                            total_lamports: new_total,
                                            pool_token_supply,
                                            last_update_epoch: current_epoch,
                                            ..noted
                                        },
                                        fee_tokens,
                                    ),
                                )
                            },
                        },
                    }
                },
            }
        }
    }

    /// Changes a fee of the pool at the request of `signer`.
    pub fn set_fee(&mut self, fee: &FeeType, signer: &Pubkey, current_epoch: u64) -> (r: Result<
        (),
        StakePoolError,
    >)
        ensures
            match old(self).spec_set_fee(*fee, *signer, current_epoch) {
                Ok(pool) => r == Ok::<(), StakePoolError>(()) && *final(self) == pool,
                Err(e) => r == Err::<(), StakePoolError>(e) && *final(self) == *old(self),
            },
    {
        if *signer != self.manager {
            return Err(StakePoolError::WrongManager);
        }
        if fee.can_only_change_next_epoch() && self.last_update_epoch != current_epoch {
            return Err(StakePoolError::StakeListAndPoolOutOfDate);
        }
        if fee.is_too_high() {
            return Err(StakePoolError::FeeTooHigh);
        }
        match fee {
            FeeType::SolReferral(pct) => {
                self.sol_referral_fee = *pct;
            },
            FeeType::StakeReferral(pct) => {
                self.stake_referral_fee = *pct;
            },
            FeeType::Epoch(new_fee) => {
                self.next_epoch_fee = FutureEpochFee::new(*new_fee);
            },
            FeeType::StakeWithdrawal(new_fee) => {
                new_fee.check_withdrawal(&self.stake_withdrawal_fee)?;
                self.next_stake_withdrawal_fee = FutureEpochFee::new(*new_fee);
            },
            FeeType::SolDeposit(new_fee) => {
                self.sol_deposit_fee = *new_fee;
            },
            FeeType::StakeDeposit(new_fee) => {
                self.stake_deposit_fee = *new_fee;
            },
            FeeType::SolWithdrawal(new_fee) => {
                new_fee.check_withdrawal(&self.sol_withdrawal_fee)?;
                self.next_sol_withdrawal_fee = FutureEpochFee::new(*new_fee);
            },
        }
        Ok(())
    }

    /// Moves the countdowns of the scheduled fees on by one epoch boundary.
    fn tick_fees(&mut self)
        ensures
            *final(self) == old(self).spec_tick_fees(),
    {
        if let Some(fee) = self.next_epoch_fee.get() {
            self.epoch_fee = *fee;
        }
        self.next_epoch_fee.update_epoch();
        if let Some(fee) = self.next_stake_withdrawal_fee.get() {
            self.stake_withdrawal_fee = *fee;
        }
        self.next_stake_withdrawal_fee.update_epoch();
        if let Some(fee) = self.next_sol_withdrawal_fee.get() {
            self.sol_withdrawal_fee = *fee;
        }
        self.next_sol_withdrawal_fee.update_epoch();
    }

    /// The pool pass: brings the pool's balance up to date with the
    /// validator list and the reserve, charges the manager's epoch fee and
    /// sweeps the entries that are ready for removal out of the list.
    /// Returns the pool tokens to mint to the manager's fee account.
    #[verifier::loop_isolation(false)]
    pub fn update_stake_pool_balance(
        &mut self,
        validator_list: &mut ValidatorList,
        reserve_lamports: u64,
        reserve_minimum: u64,
        current_epoch: u64,
    ) -> (r: Result<u64, StakePoolError>)
        ensures
            final(validator_list).header == old(validator_list).header,
            match old(self).spec_update_stake_pool_balance(
                old(validator_list).validators@,
                reserve_lamports,
                reserve_minimum,
                current_epoch,
            ) {
                Ok((pool, fee_tokens)) => {
                    &&& r == Ok::<u64, StakePoolError>(fee_tokens)
                    &&& *final(self) == pool
                    &&& final(validator_list).validators@ == without_removed(
                        old(validator_list).validators@,
                    )
                },
                Err(e) => {
                    &&& r == Err::<u64, StakePoolError>(e)
                    &&& *final(self) == *old(self)
                    &&& final(validator_list).validators@ == old(validator_list).validators@
                },
            },
            old(validator_list).is_well_formed() ==> final(validator_list).is_well_formed(),
    {
        let mut i: usize = 0;
        while i < validator_list.validators.len()
            invariant
                0 <= i <= validator_list.validators@.len(),
                forall|j: int|
                    0 <= j < i ==> (#[trigger] validator_list.validators@[j]).last_update_epoch
                        == current_epoch,
            decreases validator_list.validators@.len() - i,
        {
            if validator_list.validators[i].last_update_epoch != current_epoch {
                return Err(StakePoolError::StakeListOutOfDate);
            }
            i += 1;
        }
        let mut staked: u64 = 0;
        let mut k: usize = 0;
        while k < validator_list.validators.len()
            invariant
                0 <= k <= validator_list.validators@.len(),
                staked == total_staked(validator_list.validators@.take(k as int)),
            decreases validator_list.validators@.len() - k,
        {
            proof {
                assert(validator_list.validators@.take(k + 1).drop_last()
                    =~= validator_list.validators@.take(k as int));
                lemma_total_staked_monotone(validator_list.validators@, k + 1);
            }
            let entry = &validator_list.validators[k];
            let here = match entry.stake_lamports() {
                Some(v) => v,
                None => {
                    return Err(StakePoolError::CalculationFailure);
                },
            };
            staked = match staked.checked_add(here) {
                Some(v) => v,
                None => {
                    return Err(StakePoolError::CalculationFailure);
                },
            };
            k += 1;
        }
        proof {
            assert(validator_list.validators@.take(k as int) =~= validator_list.validators@);
        }
        let free = difference(reserve_lamports, reserve_minimum)?;
        let new_total = sum(staked, free)?;
        let reward = new_total.saturating_sub(self.total_lamports);
        let fee_tokens = calculated(self.calc_epoch_fee_amount(reward))?;
        let pool_token_supply = sum(self.pool_token_supply, fee_tokens)?;
        if self.last_update_epoch < current_epoch {
            let supply_before = self.pool_token_supply;
            let total_before = self.total_lamports;
            self.tick_fees();
            self.last_epoch_pool_token_supply = supply_before;
            self.last_epoch_total_lamports = total_before;
        }
        self.total_lamports = new_total;
        self.pool_token_supply = pool_token_supply;
        self.last_update_epoch = current_epoch;
        validator_list.cleanup_removed_validator_entries();
        Ok(fee_tokens)
    }
}

} // verus!
