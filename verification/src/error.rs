//! Failure kinds.

use vstd::prelude::*;

verus! {

/// Why an operation of the stake pool was refused.
#[derive(Clone, Copy, Debug, PartialEq, Eq, Structural)]
pub enum StakePoolError {
    /// The account cannot be initialized because it is already being used.
    AlreadyInUse,
    /// The address given for an account does not match the derived address.
    InvalidProgramAddress,
    /// The account is not in the state the operation needs.
    InvalidState,
    /// The account does not hold enough lamports to be exempt from rent.
    AccountNotRentExempt,
    /// A token account belongs to another mint than the pool's.
    WrongAccountMint,
    /// The signer is not the pool's manager.
    WrongManager,
    /// The signer is not the pool's staker.
    WrongStaker,
    /// An intermediate value overflowed or a division was not possible.
    CalculationFailure,
    /// A fee is larger than the amount it is taken from.
    FeeTooHigh,
    /// A withdrawal fee was raised by more than the allowed factor.
    FeeIncreaseTooHigh,
    /// The deposit leaves the depositor without a single pool token.
    DepositTooSmall,
    /// The withdrawal releases no lamports.
    WithdrawalTooSmall,
    /// The stake account does not hold exactly the minimum for a new validator.
    StakeLamportsNotEqualToMinimum,
    /// The outcome is below the minimum the caller asked for.
    SlippageExceeded,
    /// The validator is already part of the pool.
    ValidatorAlreadyAdded,
    /// The validator is not part of the pool.
    ValidatorNotFound,
    /// The validator list has no room left.
    TooManyValidators,
    /// The validator already has a transient stake account.
    TransientAccountInUse,
    /// More pool tokens were offered than can be redeemed here.
    TooManyPoolTokensRequested,
    /// The pool prefers another validator for deposits.
    IncorrectDepositVoteAddress,
    /// The pool prefers another validator for withdrawals.
    IncorrectWithdrawVoteAddress,
    /// An entry of the validator list was not updated this epoch.
    StakeListOutOfDate,
    /// The pool balance was not updated this epoch.
    StakeListAndPoolOutOfDate,
    /// The stake account was not updated this epoch.
    StakeNotUpdatedYet,
    /// The user's stake has not finished deactivating.
    UserStakeNotActive,
    /// The session does not authorize the call.
    InvalidSession,
    /// The session has run out.
    SessionExpired,
}

/// Failures that are not particular to the stake pool: malformed account
/// data and a call addressed to another program.
#[derive(Clone, Copy, Debug, PartialEq, Eq, Structural)]
pub enum ProgramError {
    /// The bytes of an account do not decode.
    InvalidAccountData,
    /// The bytes do not have the layout of the value that was asked for: they
    /// end too early, go on too long, or hold a tag that no variant has.
    BorshIoError,
    /// The program id of the call is not this program's.
    IncorrectProgramId,
}

} // verus!
