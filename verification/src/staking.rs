//! Moving stake: the staker's rebalancing, and deposits and withdrawals of
//! stake accounts.

use vstd::prelude::*;
use crate::error::StakePoolError;
use crate::pda::{try_find_user_stake_program_address, user_stake_seeds};
use crate::pool::{checked_u64, StakePool};
use crate::processor::{
    spec_calculated, spec_difference, spec_sum, DepositReceipt, WithdrawReceipt,
};
use crate::pubkey::Pubkey;
use crate::session::{
    spec_must_withdraw_elsewhere, spec_verify_session, verify_session, Session, SessionContext,
    StakeWithdrawReceipt, UserStake,
};
use crate::trusted::program_address;
use crate::validator::{PodStakeStatus, StakeStatus, ValidatorStakeInfo};
use crate::validator_list::{
    first_match, holds_vote, lemma_live_transients_update, spec_transient_budget_free,
    ValidatorList,
};
use crate::MINIMUM_ACTIVE_STAKE;

verus! {

/// The place of the first entry with the vote account address `vote`.
pub open spec fn spec_position(entries: Seq<ValidatorStakeInfo>, vote: Seq<u8>) -> int {
    choose|i: int| first_match(entries, vote, i)
}

/// There is one first entry with a vote account address if there is any.
pub proof fn lemma_position(entries: Seq<ValidatorStakeInfo>, vote: Seq<u8>, i: int)
    requires
        first_match(entries, vote, i),
    ensures
        spec_position(entries, vote) == i,
        holds_vote(entries, vote),
{
    let j = spec_position(entries, vote);
    assert(first_match(entries, vote, j));
    if j < i {
    } else if i < j {
    }
}

/// An entry with a new transient stake account of `lamports`, to activate.
pub open spec fn spec_increased(entry: ValidatorStakeInfo, lamports: u64, seed: u64)
    -> ValidatorStakeInfo {
    ValidatorStakeInfo { transient_stake_lamports: lamports, transient_seed_suffix: seed, ..entry }
}

/// An entry of whose active stake `lamports` have moved into a new
/// transient stake account, to deactivate.
pub open spec fn spec_decreased(entry: ValidatorStakeInfo, lamports: u64, seed: u64)
    -> ValidatorStakeInfo {
    ValidatorStakeInfo {
        active_stake_lamports: (entry.active_stake_lamports - lamports) as u64,
        transient_stake_lamports: lamports,
        transient_seed_suffix: seed,
        status: PodStakeStatus(StakeStatus::DeactivatingTransient.spec_to_u8()),
        ..entry
    }
}

/// The status of a validator that is being removed: all its stake is
/// deactivating, a transient stake account included if it has one.
pub open spec fn spec_leaving_status(entry: ValidatorStakeInfo) -> StakeStatus {
    if entry.has_live_transient() {
        StakeStatus::DeactivatingAll
    } else {
        StakeStatus::DeactivatingValidator
    }
}

/// Whether the pool prefers another validator than `vote` for deposits and
/// that validator is active.
pub open spec fn spec_must_deposit_elsewhere(
    pool: StakePool,
    entries: Seq<ValidatorStakeInfo>,
    vote: Pubkey,
) -> bool {
    match pool.preferred_deposit_validator_vote_address {
        Some(preferred) => preferred@ != vote@ && exists|i: int|
            first_match(entries, preferred@, i) && entries[i].spec_status() == Some(
                StakeStatus::Active,
            ),
        None => false,
    }
}

impl StakePool {
    /// What the staker's operations on a validator ask of it before they
    /// create a transient stake account: the staker signs, the validator
    /// is listed and active, it has no transient stake account, and the
    /// budget of transient stake accounts is not used up.
    pub open spec fn spec_check_rebalance(
        self,
        entries: Seq<ValidatorStakeInfo>,
        signer: Pubkey,
        vote: Pubkey,
    ) -> Result<int, StakePoolError> {
        let at = spec_position(entries, vote@);
        if signer@ != self.staker@ {
            Err(StakePoolError::WrongStaker)
        } else if !holds_vote(entries, vote@) {
            Err(StakePoolError::ValidatorNotFound)
        } else if entries[at].spec_status() != Some(StakeStatus::Active) {
            Err(StakePoolError::InvalidState)
        } else if entries[at].has_live_transient() {
            Err(StakePoolError::TransientAccountInUse)
        } else if spec_transient_budget_free(entries) == 0 {
            Err(StakePoolError::TransientAccountInUse)
        } else {
            Ok(at)
        }
    }

    /// An increase of a validator's stake by `lamports` from the reserve,
    /// through a transient stake account with the seed `seed`.
    pub open spec fn spec_increase_validator_stake(
        self,
        entries: Seq<ValidatorStakeInfo>,
        signer: Pubkey,
        vote: Pubkey,
        lamports: u64,
        seed: u64,
    ) -> Result<Seq<ValidatorStakeInfo>, StakePoolError> {
        match self.spec_check_rebalance(entries, signer, vote) {
            Err(e) => Err(e),
            Ok(at) => Ok(entries.update(at, spec_increased(entries[at], lamports, seed))),
        }
    }

    /// A decrease of a validator's stake by `lamports`, through a transient
    /// stake account with the seed `seed`. What stays on the validator must
    /// not fall below `MINIMUM_ACTIVE_STAKE`.
    pub open spec fn spec_decrease_validator_stake(
        self,
        entries: Seq<ValidatorStakeInfo>,
        signer: Pubkey,
        vote: Pubkey,
        lamports: u64,
        seed: u64,
    ) -> Result<Seq<ValidatorStakeInfo>, StakePoolError> {
        match self.spec_check_rebalance(entries, signer, vote) {
            Err(e) => Err(e),
            Ok(at) => if lamports > entries[at].active_stake_lamports {
                Err(StakePoolError::CalculationFailure)
            } else if entries[at].active_stake_lamports - lamports < MINIMUM_ACTIVE_STAKE {
                Err(StakePoolError::StakeLamportsNotEqualToMinimum)
            } else {
                Ok(entries.update(at, spec_decreased(entries[at], lamports, seed)))
            },
        }
    }

    /// A further decrease of a validator's stake by `lamports`. Where the
    /// validator has a transient stake account that is deactivating and
    /// carries the seed `seed`, the lamports join it; where it has none,
    /// this is a decrease like any other.
    pub open spec fn spec_decrease_additional_validator_stake(
        self,
        entries: Seq<ValidatorStakeInfo>,
        signer: Pubkey,
        vote: Pubkey,
        lamports: u64,
        seed: u64,
    ) -> Result<Seq<ValidatorStakeInfo>, StakePoolError> {
        let at = spec_position(entries, vote@);
        if signer@ != self.staker@ {
            Err(StakePoolError::WrongStaker)
        } else if !holds_vote(entries, vote@) {
            Err(StakePoolError::ValidatorNotFound)
        } else if !entries[at].has_live_transient() {
            self.spec_decrease_validator_stake(entries, signer, vote, lamports, seed)
        } else if entries[at].spec_status() != Some(StakeStatus::DeactivatingTransient)
            || entries[at].transient_seed_suffix != seed {
            Err(StakePoolError::TransientAccountInUse)
        } else if lamports > entries[at].active_stake_lamports {
            Err(StakePoolError::CalculationFailure)
        } else if entries[at].active_stake_lamports - lamports < MINIMUM_ACTIVE_STAKE {
            Err(StakePoolError::StakeLamportsNotEqualToMinimum)
        } else if entries[at].transient_stake_lamports + lamports > u64::MAX {
            Err(StakePoolError::CalculationFailure)
        } else {
            Ok(
                entries.update(
                    at,
                    ValidatorStakeInfo {
                        active_stake_lamports: (entries[at].active_stake_lamports - lamports) as u64,
                        transient_stake_lamports: (entries[at].transient_stake_lamports
                            + lamports) as u64,
                        ..entries[at]
                    },
                ),
            )
        }
    }

    /// The removal of a validator from the pool: its stake begins to
    /// deactivate. The validator must be listed, and must not be leaving
    /// already.
    pub open spec fn spec_remove_validator_from_pool(
        self,
        entries: Seq<ValidatorStakeInfo>,
        signer: Pubkey,
        vote: Pubkey,
    ) -> Result<Seq<ValidatorStakeInfo>, StakePoolError> {
        let at = spec_position(entries, vote@);
        if signer@ != self.staker@ {
            Err(StakePoolError::WrongStaker)
        } else if !holds_vote(entries, vote@) {
            Err(StakePoolError::ValidatorNotFound)
        } else if entries[at].spec_status() != Some(StakeStatus::Active)
            && entries[at].spec_status() != Some(StakeStatus::DeactivatingTransient) {
            Err(StakePoolError::InvalidState)
        } else {
            Ok(
                entries.update(
                    at,
                    ValidatorStakeInfo {
                        status: PodStakeStatus(spec_leaving_status(entries[at]).spec_to_u8()),
                        ..entries[at]
                    },
                ),
            )
        }
    }

    /// Checks what the staker's operations ask of a validator, and finds
    /// its entry.
    fn check_rebalance(&self, validator_list: &ValidatorList, signer: &Pubkey, vote: &Pubkey) -> (r:
        Result<usize, StakePoolError>)
        ensures
            match self.spec_check_rebalance(validator_list.validators@, *signer, *vote) {
                Ok(at) => r is Ok && r->Ok_0 == at && 0 <= at < validator_list.validators@.len(),
                Err(e) => r == Err::<usize, StakePoolError>(e),
            },
    {
        if *signer != self.staker {
            return Err(StakePoolError::WrongStaker);
        }
        let at = match validator_list.position(vote) {
            Some(i) => i,
            None => {
                return Err(StakePoolError::ValidatorNotFound);
            },
        };
        proof {
            lemma_position(validator_list.validators@, vote@, at as int);
        }
        let entry = &validator_list.validators[at];
        match StakeStatus::from_u8(entry.status.0) {
            Some(StakeStatus::Active) => {},
            _ => {
                return Err(StakePoolError::InvalidState);
            },
        }
        if entry.transient_stake_lamports > 0 {
            return Err(StakePoolError::TransientAccountInUse);
        }
        if validator_list.transient_budget_free() == 0 {
            return Err(StakePoolError::TransientAccountInUse);
        }
        Ok(at)
    }

    /// Records an increase of a validator's stake.
    pub fn increase_validator_stake(
        &self,
        validator_list: &mut ValidatorList,
        signer: &Pubkey,
        vote: &Pubkey,
        lamports: u64,
        seed: u64,
    ) -> (r: Result<(), StakePoolError>)
        ensures
            final(validator_list).header == old(validator_list).header,
            match self.spec_increase_validator_stake(
                old(validator_list).validators@,
                *signer,
                *vote,
                lamports,
                seed,
            ) {
                Ok(entries) => {
                    &&& r == Ok::<(), StakePoolError>(())
                    &&& final(validator_list).validators@ == entries
                },
                Err(e) => {
                    &&& r == Err::<(), StakePoolError>(e)
                    &&& final(validator_list).validators@ == old(validator_list).validators@
                },
            },
            old(validator_list).is_well_formed() ==> final(validator_list).is_well_formed(),
    {
        let at = self.check_rebalance(validator_list, signer, vote)?;
        let mut entry = validator_list.validators[at];
        entry.transient_stake_lamports = lamports;
        entry.transient_seed_suffix = seed;
        proof {
            lemma_live_transients_update(old(validator_list).validators@, at as int, entry);
        }
        validator_list.validators[at] = entry;
        Ok(())
    }

    /// Records a decrease of a validator's stake.
    pub fn decrease_validator_stake(
        &self,
        validator_list: &mut ValidatorList,
        signer: &Pubkey,
        vote: &Pubkey,
        lamports: u64,
        seed: u64,
    ) -> (r: Result<(), StakePoolError>)
        ensures
            final(validator_list).header == old(validator_list).header,
            match self.spec_decrease_validator_stake(
                old(validator_list).validators@,
                *signer,
                *vote,
                lamports,
                seed,
            ) {
                Ok(entries) => {
                    &&& r == Ok::<(), StakePoolError>(())
                    &&& final(validator_list).validators@ == entries
                },
                Err(e) => {
                    &&& r == Err::<(), StakePoolError>(e)
                    &&& final(validator_list).validators@ == old(validator_list).validators@
                },
            },
            old(validator_list).is_well_formed() ==> final(validator_list).is_well_formed(),
    {
        let at = self.check_rebalance(validator_list, signer, vote)?;
        let mut entry = validator_list.validators[at];
        if lamports > entry.active_stake_lamports {
            return Err(StakePoolError::CalculationFailure);
        }
        if entry.active_stake_lamports - lamports < MINIMUM_ACTIVE_STAKE {
            return Err(StakePoolError::StakeLamportsNotEqualToMinimum);
        }
        entry.active_stake_lamports = entry.active_stake_lamports - lamports;
        entry.transient_stake_lamports = lamports;
        entry.transient_seed_suffix = seed;
        entry.status = PodStakeStatus(StakeStatus::DeactivatingTransient.to_u8());
        proof {
            lemma_live_transients_update(old(validator_list).validators@, at as int, entry);
        }
        validator_list.validators[at] = entry;
        Ok(())
    }

    /// Records a further decrease of a validator's stake.
    pub fn decrease_additional_validator_stake(
        &self,
        validator_list: &mut ValidatorList,
        signer: &Pubkey,
        vote: &Pubkey,
        lamports: u64,
        seed: u64,
    ) -> (r: Result<(), StakePoolError>)
        ensures
            final(validator_list).header == old(validator_list).header,
            match self.spec_decrease_additional_validator_stake(
                old(validator_list).validators@,
                *signer,
                *vote,
                lamports,
                seed,
            ) {
                Ok(entries) => {
                    &&& r == Ok::<(), StakePoolError>(())
                    &&& final(validator_list).validators@ == entries
                },
                Err(e) => {
                    &&& r == Err::<(), StakePoolError>(e)
                    &&& final(validator_list).validators@ == old(validator_list).validators@
                },
            },
            old(validator_list).is_well_formed() ==> final(validator_list).is_well_formed(),
    {
        if *signer != self.staker {
            return Err(StakePoolError::WrongStaker);
        }
        let at = match validator_list.position(vote) {
            Some(i) => i,
            None => {
                return Err(StakePoolError::ValidatorNotFound);
            },
        };
        proof {
            lemma_position(validator_list.validators@, vote@, at as int);
        }
        let mut entry = validator_list.validators[at];
        if entry.transient_stake_lamports == 0 {
            return self.decrease_validator_stake(validator_list, signer, vote, lamports, seed);
        }
        match StakeStatus::from_u8(entry.status.0) {
            Some(StakeStatus::DeactivatingTransient) => {},
            _ => {
                return Err(StakePoolError::TransientAccountInUse);
            },
        }
        if entry.transient_seed_suffix != seed {
            return Err(StakePoolError::TransientAccountInUse);
        }
        if lamports > entry.active_stake_lamports {
            return Err(StakePoolError::CalculationFailure);
        }
        if entry.active_stake_lamports - lamports < MINIMUM_ACTIVE_STAKE {
            return Err(StakePoolError::StakeLamportsNotEqualToMinimum);
        }
        let transient = match entry.transient_stake_lamports.checked_add(lamports) {
            Some(v) => v,
            None => {
                return Err(StakePoolError::CalculationFailure);
            },
        };
        entry.active_stake_lamports = entry.active_stake_lamports - lamports;
        entry.transient_stake_lamports = transient;
        proof {
            lemma_live_transients_update(old(validator_list).validators@, at as int, entry);
        }
        validator_list.validators[at] = entry;
        Ok(())
    }

    /// Records that a validator is being removed from the pool.
    pub fn remove_validator_from_pool(
        &self,
        validator_list: &mut ValidatorList,
        signer: &Pubkey,
        vote: &Pubkey,
    ) -> (r: Result<(), StakePoolError>)
        ensures
            final(validator_list).header == old(validator_list).header,
            match self.spec_remove_validator_from_pool(
                old(validator_list).validators@,
                *signer,
                *vote,
            ) {
                Ok(entries) => {
                    &&& r == Ok::<(), StakePoolError>(())
                    &&& final(validator_list).validators@ == entries
                },
                Err(e) => {
                    &&& r == Err::<(), StakePoolError>(e)
                    &&& final(validator_list).validators@ == old(validator_list).validators@
                },
            },
            old(validator_list).is_well_formed() ==> final(validator_list).is_well_formed(),
    {
        if *signer != self.staker {
            return Err(StakePoolError::WrongStaker);
        }
        let at = match validator_list.position(vote) {
            Some(i) => i,
            None => {
                return Err(StakePoolError::ValidatorNotFound);
            },
        };
        proof {
            lemma_position(validator_list.validators@, vote@, at as int);
        }
        let mut entry = validator_list.validators[at];
        match StakeStatus::from_u8(entry.status.0) {
            Some(StakeStatus::Active) => {},
            Some(StakeStatus::DeactivatingTransient) => {},
            _ => {
                return Err(StakePoolError::InvalidState);
            },
        }
        let leaving = if entry.transient_stake_lamports > 0 {
            StakeStatus::DeactivatingAll
        } else {
            StakeStatus::DeactivatingValidator
        };
        entry.status = PodStakeStatus(leaving.to_u8());
        proof {
            lemma_live_transients_update(old(validator_list).validators@, at as int, entry);
        }
        validator_list.validators[at] = entry;
        Ok(())
    }
}

/// An entry whose active stake has grown by `lamports`.
pub open spec fn spec_with_more_stake(entry: ValidatorStakeInfo, lamports: u64)
    -> ValidatorStakeInfo {
    ValidatorStakeInfo {
        active_stake_lamports: (entry.active_stake_lamports + lamports) as u64,
        ..entry
    }
}

/// An entry whose active stake has shrunk by `lamports`.
pub open spec fn spec_with_less_stake(entry: ValidatorStakeInfo, lamports: u64)
    -> ValidatorStakeInfo {
    ValidatorStakeInfo {
        active_stake_lamports: (entry.active_stake_lamports - lamports) as u64,
        ..entry
    }
}

/// The user's stake account that a session-delegated withdrawal creates:
/// at the derived address, deactivating from this epoch on, with the
/// account itself as its staker and withdrawer.
pub open spec fn spec_user_stake(address: Pubkey, lamports: u64, current_epoch: u64) -> UserStake {
    UserStake {
        address,
        lamports,
        deactivation_epoch: current_epoch,
        staker: address,
        withdrawer: address,
    }
}

/// The lamports that leave a user's stake account when `requested` are
/// asked for: as many as that, but no more than it holds; `u64::MAX` asks
/// for all.
pub open spec fn spec_withdrawable(stake: UserStake, requested: u64) -> u64 {
    if requested >= stake.lamports {
        stake.lamports
    } else {
        requested
    }
}

/// The final claim on a user's stake account.
///
/// The session must authorize the call. The account must be the one
/// derived for the session's wallet and `seed`, its stake must have
/// finished deactivating, and it must be its own staker and withdrawer.
pub open spec fn spec_withdraw_from_stake_account_with_session(
    stake: UserStake,
    session: Session,
    context: SessionContext,
    requested: u64,
    seed: u64,
    current_epoch: u64,
) -> Result<(UserStake, u64), StakePoolError> {
    match spec_verify_session(session, context) {
        Err(e) => Err(e),
        Ok(_) => match program_address(user_stake_seeds(session.user_wallet@, seed), crate::ID@) {
            None => Err(StakePoolError::InvalidProgramAddress),
            Some((address, _)) => if address != stake.address@ {
                Err(StakePoolError::InvalidProgramAddress)
            } else if current_epoch <= stake.deactivation_epoch {
                Err(StakePoolError::UserStakeNotActive)
            } else if stake.staker@ != stake.address@ || stake.withdrawer@ != stake.address@ {
                Err(StakePoolError::InvalidState)
            } else {
                let lamports = spec_withdrawable(stake, requested);
                Ok(
                    (
                        UserStake { lamports: (stake.lamports - lamports) as u64, ..stake },
                        lamports,
                    ),
                )
            },
        },
    }
}

/// Withdraws from a user's stake account to the user's wallet, and returns
/// the lamports withdrawn.
pub fn withdraw_from_stake_account_with_session(
    stake: &mut UserStake,
    session: &Session,
    context: &SessionContext,
    requested: u64,
    seed: u64,
    current_epoch: u64,
) -> (r: Result<u64, StakePoolError>)
    ensures
        match spec_withdraw_from_stake_account_with_session(
            *old(stake),
            *session,
            *context,
            requested,
            seed,
            current_epoch,
        ) {
            Ok((left, lamports)) => r == Ok::<u64, StakePoolError>(lamports) && *final(stake)
                == left,
            Err(e) => r == Err::<u64, StakePoolError>(e) && *final(stake) == *old(stake),
        },
{
    verify_session(session, context)?;
    let address = match try_find_user_stake_program_address(
        &crate::id(),
        &session.user_wallet,
        seed,
    ) {
        Some((address, _)) => address,
        None => {
            return Err(StakePoolError::InvalidProgramAddress);
        },
    };
    if address != stake.address {
        return Err(StakePoolError::InvalidProgramAddress);
    }
    if current_epoch <= stake.deactivation_epoch {
        return Err(StakePoolError::UserStakeNotActive);
    }
    if stake.staker != stake.address || stake.withdrawer != stake.address {
        return Err(StakePoolError::InvalidState);
    }
    let lamports = if requested >= stake.lamports {
        stake.lamports
    } else {
        requested
    };
    stake.lamports = stake.lamports - lamports;
    Ok(lamports)
}

impl StakePool {
    /// A deposit of a stake account of `stake_lamports` into the stake of
    /// the validator `vote`.
    ///
    /// The pool must have been updated in this epoch and the validator be
    /// listed and active. If the pool prefers a validator for deposits and
    /// that validator is active, the deposit must go to it. The tokens are
    /// minted and split as for a deposit of SOL, under the fees for stake.
    pub open spec fn spec_deposit_stake(
        self,
        entries: Seq<ValidatorStakeInfo>,
        vote: Pubkey,
        stake_lamports: u64,
        referrer: bool,
        current_epoch: u64,
    ) -> Result<(StakePool, Seq<ValidatorStakeInfo>, DepositReceipt), StakePoolError> {
        let at = spec_position(entries, vote@);
        if self.last_update_epoch != current_epoch {
            Err(StakePoolError::StakeListAndPoolOutOfDate)
        } else if !holds_vote(entries, vote@) {
            Err(StakePoolError::ValidatorNotFound)
        } else if entries[at].spec_status() != Some(StakeStatus::Active) {
            Err(StakePoolError::InvalidState)
        } else if spec_must_deposit_elsewhere(self, entries, vote) {
            Err(StakePoolError::IncorrectDepositVoteAddress)
        } else {
            match spec_calculated(checked_u64(self.spec_pool_tokens_for_deposit(stake_lamports))) {
                Err(e) => Err(e),
                Ok(new_tokens) => match StakePool::spec_split_deposit(
                    new_tokens,
                    self.stake_deposit_fee,
                    self.stake_referral_fee,
                    referrer,
                ) {
                    Err(e) => Err(e),
                    Ok(receipt) => match (
                        spec_sum(self.total_lamports, stake_lamports),
                        spec_sum(self.pool_token_supply, new_tokens),
                        spec_sum(entries[at].active_stake_lamports, stake_lamports),
                    ) {
                        (Ok(total_lamports), Ok(pool_token_supply), Ok(_)) => Ok(
                            (
                                StakePool { total_lamports, pool_token_supply, ..self },
                                entries.update(at, spec_with_more_stake(entries[at], stake_lamports)),
                                receipt,
                            ),
                        ),
                        _ => Err(StakePoolError::CalculationFailure),
                    },
                },
            }
        }
    }

    /// A withdrawal of stake from the validator `vote` for `pool_tokens`.
    ///
    /// The pool must have been updated in this epoch and the validator be
    /// listed. If the pool prefers a validator for withdrawals and that
    /// validator has stake available, the withdrawal must come from it.
    /// The withdrawal fee goes to the manager, the other tokens are burnt
    /// and their worth in lamports is split out of the validator's stake,
    /// which must keep `MINIMUM_ACTIVE_STAKE`.
    pub open spec fn spec_withdraw_stake(
        self,
        entries: Seq<ValidatorStakeInfo>,
        vote: Pubkey,
        pool_tokens: u64,
        current_epoch: u64,
    ) -> Result<(StakePool, Seq<ValidatorStakeInfo>, WithdrawReceipt), StakePoolError> {
        let at = spec_position(entries, vote@);
        if self.last_update_epoch != current_epoch {
            Err(StakePoolError::StakeListAndPoolOutOfDate)
        } else if !holds_vote(entries, vote@) {
            Err(StakePoolError::ValidatorNotFound)
        } else if spec_must_withdraw_elsewhere(self, entries, vote) {
            Err(StakePoolError::IncorrectWithdrawVoteAddress)
        } else {
            match spec_calculated(checked_u64(self.stake_withdrawal_fee.spec_apply(pool_tokens))) {
                Err(e) => Err(e),
                Ok(fee) => match spec_difference(pool_tokens, fee) {
                    Err(e) => Err(e),
                    Ok(burnt) => match spec_calculated(
                        checked_u64(self.spec_lamports_withdraw_amount(burnt)),
                    ) {
                        Err(e) => Err(e),
                        Ok(lamports) => if lamports == 0 {
                            Err(StakePoolError::WithdrawalTooSmall)
                        } else if lamports > entries[at].active_stake_lamports {
                            Err(StakePoolError::TooManyPoolTokensRequested)
                        } else if entries[at].active_stake_lamports - lamports
                            < MINIMUM_ACTIVE_STAKE {
                            Err(StakePoolError::StakeLamportsNotEqualToMinimum)
                        } else {
                            match (
                                spec_difference(self.total_lamports, lamports),
                                spec_difference(self.pool_token_supply, burnt),
                            ) {
                                (Ok(total_lamports), Ok(pool_token_supply)) => Ok(
                                    (
                                        StakePool { total_lamports, pool_token_supply, ..self },
                                        entries.update(
                                            at,
                                            spec_with_less_stake(entries[at], lamports),
                                        ),
                                        WithdrawReceipt {
                                            pool_tokens_burnt: burnt,
                                            pool_tokens_fee: fee,
                                            lamports,
                                        },
                                    ),
                                ),
                                _ => Err(StakePoolError::CalculationFailure),
                            }
                        },
                    },
                },
            }
        }
    }

    /// A session-delegated withdrawal of stake.
    ///
    /// The session must authorize the call, and the seeds of the user's
    /// stake account must derive an address. The withdrawal is accounted
    /// for as one of stake is and must release at least
    /// `minimum_lamports_out`. The stake goes to the user's stake account,
    /// deactivating from this epoch on.
    pub open spec fn spec_withdraw_stake_with_session(
        self,
        entries: Seq<ValidatorStakeInfo>,
        session: Session,
        context: SessionContext,
        vote: Pubkey,
        pool_tokens: u64,
        minimum_lamports_out: u64,
        seed: u64,
        current_epoch: u64,
    ) -> Result<(StakePool, Seq<ValidatorStakeInfo>, StakeWithdrawReceipt), StakePoolError> {
        match spec_verify_session(session, context) {
            Err(e) => Err(e),
            Ok(_) => match program_address(
                user_stake_seeds(session.user_wallet@, seed),
                crate::ID@,
            ) {
                None => Err(StakePoolError::InvalidProgramAddress),
                Some((address, _)) => match self.spec_withdraw_stake(
                    entries,
                    vote,
                    pool_tokens,
                    current_epoch,
                ) {
                    Err(e) => Err(e),
                    Ok((pool, updated, withdrawn)) => if withdrawn.lamports
                        < minimum_lamports_out {
                        Err(StakePoolError::SlippageExceeded)
                    } else {
                        Ok(
                            (
                                pool,
                                updated,
                                StakeWithdrawReceipt {
                                    withdrawn,
                                    user_stake: spec_user_stake(
                                        Pubkey::spec_from_bytes(address),
                                        withdrawn.lamports,
                                        current_epoch,
                                    ),
                                },
                            ),
                        )
                    },
                },
            },
        }
    }

    /// Whether a deposit to `vote` must go to the preferred validator
    /// instead.
    fn must_deposit_elsewhere(&self, validator_list: &ValidatorList, vote: &Pubkey) -> (r: bool)
        ensures
            r == spec_must_deposit_elsewhere(*self, validator_list.validators@, *vote),
    {
        match self.preferred_deposit_validator_vote_address {
            Some(preferred) => {
                if preferred == *vote {
                    return false;
                }
                match validator_list.position(&preferred) {
                    Some(i) => {
                        proof {
                            assert forall|j: int|
                                first_match(
                                    validator_list.validators@,
                                    preferred@,
                                    j,
                                ) implies j == i by {
                                lemma_position(validator_list.validators@, preferred@, j);
                                lemma_position(validator_list.validators@, preferred@, i as int);
                            }
                        }
                        match StakeStatus::from_u8(validator_list.validators[i].status.0) {
                            Some(StakeStatus::Active) => true,
                            _ => false,
                        }
                    },
                    None => false,
                }
            },
            None => false,
        }
    }

    /// Whether a withdrawal from `vote` must come from the preferred
    /// validator instead.
    fn must_withdraw_elsewhere(&self, validator_list: &ValidatorList, vote: &Pubkey) -> (r: bool)
        ensures
            r == spec_must_withdraw_elsewhere(*self, validator_list.validators@, *vote),
    {
        match self.preferred_withdraw_validator_vote_address {
            Some(preferred) => {
                if preferred == *vote {
                    return false;
                }
                match validator_list.position(&preferred) {
                    Some(i) => {
                        proof {
                            assert forall|j: int|
                                first_match(
                                    validator_list.validators@,
                                    preferred@,
                                    j,
                                ) implies j == i by {
                                lemma_position(validator_list.validators@, preferred@, j);
                                lemma_position(validator_list.validators@, preferred@, i as int);
                            }
                        }
                        validator_list.validators[i].active_stake_lamports > MINIMUM_ACTIVE_STAKE
                    },
                    None => false,
                }
            },
            None => false,
        }
    }

    /// Accounts for a deposit of a stake account.
    pub fn deposit_stake(
        &mut self,
        validator_list: &mut ValidatorList,
        vote: &Pubkey,
        stake_lamports: u64,
        referrer: bool,
        current_epoch: u64,
    ) -> (r: Result<DepositReceipt, StakePoolError>)
        ensures
            final(validator_list).header == old(validator_list).header,
            match old(self).spec_deposit_stake(
                old(validator_list).validators@,
                *vote,
                stake_lamports,
                referrer,
                current_epoch,
            ) {
                Ok((pool, entries, receipt)) => {
                    &&& r == Ok::<DepositReceipt, StakePoolError>(receipt)
                    &&& *final(self) == pool
                    &&& final(validator_list).validators@ == entries
                },
                Err(e) => {
                    &&& r == Err::<DepositReceipt, StakePoolError>(e)
                    &&& *final(self) == *old(self)
                    &&& final(validator_list).validators@ == old(validator_list).validators@
                },
            },
            old(validator_list).is_well_formed() ==> final(validator_list).is_well_formed(),
            r matches Ok(receipt) ==> final(self).pool_token_supply == old(self).pool_token_supply
                + receipt.minted(),
    {
        if self.last_update_epoch != current_epoch {
            return Err(StakePoolError::StakeListAndPoolOutOfDate);
        }
        let at = match validator_list.position(vote) {
            Some(i) => i,
            None => {
                return Err(StakePoolError::ValidatorNotFound);
            },
        };
        proof {
            lemma_position(validator_list.validators@, vote@, at as int);
        }
        let mut entry = validator_list.validators[at];
        match StakeStatus::from_u8(entry.status.0) {
            Some(StakeStatus::Active) => {},
            _ => {
                return Err(StakePoolError::InvalidState);
            },
        }
        if self.must_deposit_elsewhere(validator_list, vote) {
            return Err(StakePoolError::IncorrectDepositVoteAddress);
        }
        let new_tokens = match self.calc_pool_tokens_for_deposit(stake_lamports) {
            Some(v) => v,
            None => {
                return Err(StakePoolError::CalculationFailure);
            },
        };
        let receipt = StakePool::split_deposit(
            new_tokens,
            &self.stake_deposit_fee,
            self.stake_referral_fee,
            referrer,
        )?;
        let total = self.total_lamports.checked_add(stake_lamports);
        let supply = self.pool_token_supply.checked_add(new_tokens);
        let active = entry.active_stake_lamports.checked_add(stake_lamports);
        match (total, supply, active) {
            (Some(total), Some(supply), Some(active)) => {
                self.total_lamports = total;
                self.pool_token_supply = supply;
                entry.active_stake_lamports = active;
                proof {
                    lemma_live_transients_update(
                        old(validator_list).validators@,
                        at as int,
                        entry,
                    );
                }
                validator_list.validators[at] = entry;
                Ok(receipt)
            },
            _ => Err(StakePoolError::CalculationFailure),
        }
    }

    /// Works out a withdrawal of stake without recording it: the place of
    /// the validator's entry and the receipt.
    fn plan_withdraw_stake(
        &self,
        validator_list: &ValidatorList,
        vote: &Pubkey,
        pool_tokens: u64,
        current_epoch: u64,
    ) -> (r: Result<(usize, WithdrawReceipt), StakePoolError>)
        ensures
            match self.spec_withdraw_stake(
                validator_list.validators@,
                *vote,
                pool_tokens,
                current_epoch,
            ) {
                Ok((pool, entries, receipt)) => {
                    &&& r matches Ok((at, planned))
                    &&& planned == receipt
                    &&& at == spec_position(validator_list.validators@, vote@)
                    &&& 0 <= at < validator_list.validators@.len()
                    &&& receipt.lamports <= validator_list.validators@[at as int].active_stake_lamports
                    &&& receipt.lamports > 0
                    &&& pool.total_lamports == self.total_lamports - receipt.lamports
                    &&& pool.pool_token_supply == self.pool_token_supply
                        - receipt.pool_tokens_burnt
                },
                Err(e) => r == Err::<(usize, WithdrawReceipt), StakePoolError>(e),
            },
    {
        if self.last_update_epoch != current_epoch {
            return Err(StakePoolError::StakeListAndPoolOutOfDate);
        }
        let at = match validator_list.position(vote) {
            Some(i) => i,
            None => {
                return Err(StakePoolError::ValidatorNotFound);
            },
        };
        proof {
            lemma_position(validator_list.validators@, vote@, at as int);
        }
        if self.must_withdraw_elsewhere(validator_list, vote) {
            return Err(StakePoolError::IncorrectWithdrawVoteAddress);
        }
        let fee = match self.calc_pool_tokens_stake_withdrawal_fee(pool_tokens) {
            Some(v) => v,
            None => {
                return Err(StakePoolError::CalculationFailure);
            },
        };
        if fee > pool_tokens {
            return Err(StakePoolError::CalculationFailure);
        }
        let burnt = pool_tokens - fee;
        let lamports = match self.calc_lamports_withdraw_amount(burnt) {
            Some(v) => v,
            None => {
                return Err(StakePoolError::CalculationFailure);
            },
        };
        if lamports == 0 {
            return Err(StakePoolError::WithdrawalTooSmall);
        }
        let active = validator_list.validators[at].active_stake_lamports;
        if lamports > active {
            return Err(StakePoolError::TooManyPoolTokensRequested);
        }
        if active - lamports < MINIMUM_ACTIVE_STAKE {
            return Err(StakePoolError::StakeLamportsNotEqualToMinimum);
        }
        if lamports > self.total_lamports || burnt > self.pool_token_supply {
            return Err(StakePoolError::CalculationFailure);
        }
        Ok((at, WithdrawReceipt { pool_tokens_burnt: burnt, pool_tokens_fee: fee, lamports }))
    }

    /// Records a withdrawal of stake that was worked out before.
    fn commit_withdraw_stake(
        &mut self,
        validator_list: &mut ValidatorList,
        at: usize,
        receipt: &WithdrawReceipt,
    )
        requires
            0 <= at < old(validator_list).validators@.len(),
            0 < receipt.lamports <= old(validator_list).validators@[at as int].active_stake_lamports,
            receipt.lamports <= old(self).total_lamports,
            receipt.pool_tokens_burnt <= old(self).pool_token_supply,
        ensures
            final(validator_list).header == old(validator_list).header,
            *final(self) == (StakePool {
                total_lamports: (old(self).total_lamports - receipt.lamports) as u64,
                pool_token_supply: (old(self).pool_token_supply - receipt.pool_tokens_burnt) as u64,
                ..*old(self)
            }),
            final(validator_list).validators@ == old(validator_list).validators@.update(
                at as int,
                spec_with_less_stake(old(validator_list).validators@[at as int], receipt.lamports),
            ),
            old(validator_list).is_well_formed() ==> final(validator_list).is_well_formed(),
    {
        self.total_lamports = self.total_lamports - receipt.lamports;
        self.pool_token_supply = self.pool_token_supply - receipt.pool_tokens_burnt;
        let mut entry = validator_list.validators[at];
        entry.active_stake_lamports = entry.active_stake_lamports - receipt.lamports;
        proof {
            lemma_live_transients_update(old(validator_list).validators@, at as int, entry);
        }
        validator_list.validators[at] = entry;
    }

    /// Accounts for a withdrawal of stake.
    pub fn withdraw_stake(
        &mut self,
        validator_list: &mut ValidatorList,
        vote: &Pubkey,
        pool_tokens: u64,
        current_epoch: u64,
    ) -> (r: Result<WithdrawReceipt, StakePoolError>)
        ensures
            final(validator_list).header == old(validator_list).header,
            match old(self).spec_withdraw_stake(
                old(validator_list).validators@,
                *vote,
                pool_tokens,
                current_epoch,
            ) {
                Ok((pool, entries, receipt)) => {
                    &&& r == Ok::<WithdrawReceipt, StakePoolError>(receipt)
                    &&& *final(self) == pool
                    &&& final(validator_list).validators@ == entries
                },
                Err(e) => {
                    &&& r == Err::<WithdrawReceipt, StakePoolError>(e)
                    &&& *final(self) == *old(self)
                    &&& final(validator_list).validators@ == old(validator_list).validators@
                },
            },
            old(validator_list).is_well_formed() ==> final(validator_list).is_well_formed(),
    {
        let (at, receipt) = self.plan_withdraw_stake(
            validator_list,
            vote,
            pool_tokens,
            current_epoch,
        )?;
        self.commit_withdraw_stake(validator_list, at, &receipt);
        Ok(receipt)
    }

    /// Accounts for a session-delegated withdrawal of stake: the pool
    /// tokens to burn, and the user's new stake account.
    pub fn withdraw_stake_with_session(
        &mut self,
        validator_list: &mut ValidatorList,
        session: &Session,
        context: &SessionContext,
        vote: &Pubkey,
        pool_tokens: u64,
        minimum_lamports_out: u64,
        seed: u64,
        current_epoch: u64,
    ) -> (r: Result<StakeWithdrawReceipt, StakePoolError>)
        ensures
            final(validator_list).header == old(validator_list).header,
            match old(self).spec_withdraw_stake_with_session(
                old(validator_list).validators@,
                *session,
                *context,
                *vote,
                pool_tokens,
                minimum_lamports_out,
                seed,
                current_epoch,
            ) {
                Ok((pool, entries, receipt)) => {
                    &&& r == Ok::<StakeWithdrawReceipt, StakePoolError>(receipt)
                    &&& *final(self) == pool
                    &&& final(validator_list).validators@ == entries
                },
                Err(e) => {
                    &&& r == Err::<StakeWithdrawReceipt, StakePoolError>(e)
                    &&& *final(self) == *old(self)
                    &&& final(validator_list).validators@ == old(validator_list).validators@
                },
            },
            old(validator_list).is_well_formed() ==> final(validator_list).is_well_formed(),
    {
        verify_session(session, context)?;
        let address = match try_find_user_stake_program_address(
            &crate::id(),
            &session.user_wallet,
            seed,
        ) {
            Some((address, _)) => address,
            None => {
                return Err(StakePoolError::InvalidProgramAddress);
            },
        };
        proof {
            Pubkey::lemma_spec_from_bytes(address@);
            Pubkey::lemma_eq_by_view(address, Pubkey::spec_from_bytes(address@));
        }
        let (at, withdrawn) = self.plan_withdraw_stake(
            validator_list,
            vote,
            pool_tokens,
            current_epoch,
        )?;
        if withdrawn.lamports < minimum_lamports_out {
            return Err(StakePoolError::SlippageExceeded);
        }
        self.commit_withdraw_stake(validator_list, at, &withdrawn);
        Ok(
            StakeWithdrawReceipt {
                withdrawn,
                user_stake: UserStake {
                    address,
                    lamports: withdrawn.lamports,
                    deactivation_epoch: current_epoch,
                    staker: address,
                    withdrawer: address,
                },
            },
        )
    }
}

} // verus!
