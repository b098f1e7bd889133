//! Operations on behalf of a user, authorized by a session.
//!
//! A session lets a short-lived signer act for a user's wallet. The session
//! record belongs to the session manager, which has checked the signer
//! before the pool is called; the pool checks what the record says.

use vstd::prelude::*;
use crate::error::StakePoolError;
use crate::pool::StakePool;
use crate::processor::{DepositReceipt, WithdrawReceipt};
use crate::pubkey::Pubkey;
use crate::validator::ValidatorStakeInfo;
use crate::validator_list::first_match;
use crate::MINIMUM_ACTIVE_STAKE;

verus! {

/// What the pool reads of a session record.
#[derive(Clone, Copy, Debug, PartialEq, Eq)]
pub struct Session {
    /// The wallet that the session acts for.
    pub user_wallet: Pubkey,
    /// The program that the session may call.
    pub authorized_program_id: Pubkey,
    /// The program signer that may spend for the session.
    pub authorized_signer_pda: Pubkey,
    /// The time at which the session ends, in seconds since the Unix epoch.
    pub expiration: i64,
}

/// What a session is checked against.
#[derive(Clone, Copy, Debug, PartialEq, Eq)]
pub struct SessionContext {
    /// The owner of the session account.
    pub session_owner: Pubkey,
    /// The session manager, which must own the session account.
    pub session_manager: Pubkey,
    /// The program signer that the call supplies.
    pub program_signer: Pubkey,
    /// The present time, in seconds since the Unix epoch.
    pub now: i64,
    /// The owner of the token account that the call spends from or pays
    /// into.
    pub token_account_owner: Pubkey,
}

/// Whether a session authorizes a call.
///
/// The session account must belong to the session manager, the session
/// must be for this program and for the program signer supplied, it must
/// not have run out, and it must act for the owner of the token account.
/// A session that has run out is `SessionExpired`; one that fails another
/// check is `InvalidSession`. The checks are made in this order.
pub open spec fn spec_verify_session(session: Session, context: SessionContext) -> Result<
    (),
    StakePoolError,
> {
    if context.session_owner@ != context.session_manager@ {
        Err(StakePoolError::InvalidSession)
    } else if session.authorized_program_id@ != crate::ID@ {
        Err(StakePoolError::InvalidSession)
    } else if session.authorized_signer_pda@ != context.program_signer@ {
        Err(StakePoolError::InvalidSession)
    } else if session.expiration <= context.now {
        Err(StakePoolError::SessionExpired)
    } else if session.user_wallet@ != context.token_account_owner@ {
        Err(StakePoolError::InvalidSession)
    } else {
        Ok(())
    }
}

/// Checks that a session authorizes a call.
pub fn verify_session(session: &Session, context: &SessionContext) -> (r: Result<
    (),
    StakePoolError,
>)
    ensures
        r == spec_verify_session(*session, *context),
{
    if context.session_owner != context.session_manager {
        return Err(StakePoolError::InvalidSession);
    }
    if session.authorized_program_id != crate::id() {
        return Err(StakePoolError::InvalidSession);
    }
    if session.authorized_signer_pda != context.program_signer {
        return Err(StakePoolError::InvalidSession);
    }
    if session.expiration <= context.now {
        return Err(StakePoolError::SessionExpired);
    }
    if session.user_wallet != context.token_account_owner {
        return Err(StakePoolError::InvalidSession);
    }
    Ok(())
}

/// What a session-delegated deposit of wrapped SOL does.
#[derive(Clone, Copy, Debug, PartialEq, Eq, Structural)]
pub struct WsolDepositReceipt {
    /// Lamports of the deposit that pay the rent of the recipient's new
    /// pool-token account; zero if the account existed.
    pub ata_rent: u64,
    /// Lamports that reach the reserve.
    pub lamports_deposited: u64,
    /// The pool tokens to mint.
    pub minted: DepositReceipt,
}

/// The lamports of a deposit that are left for the pool.
///
/// If the recipient's pool-token account does not exist yet, the deposit
/// pays its rent; a deposit that does not exceed the rent is too small.
pub open spec fn spec_net_deposit(lamports: u64, recipient_exists: bool, ata_rent: u64) -> Result<
    u64,
    StakePoolError,
> {
    if recipient_exists {
        Ok(lamports)
    } else if lamports <= ata_rent {
        Err(StakePoolError::DepositTooSmall)
    } else {
        Ok((lamports - ata_rent) as u64)
    }
}

/// A stake account of a user, split out of the pool by a session-delegated
/// withdrawal.
#[derive(Clone, Copy, Debug, PartialEq, Eq)]
pub struct UserStake {
    /// The address of the account.
    pub address: Pubkey,
    /// The lamports that the account holds.
    pub lamports: u64,
    /// The epoch in which the stake began to deactivate.
    pub deactivation_epoch: u64,
    /// Who may redelegate the stake.
    pub staker: Pubkey,
    /// Who may withdraw from the account.
    pub withdrawer: Pubkey,
}

/// What a session-delegated withdrawal of stake does.
#[derive(Clone, Copy, Debug, PartialEq, Eq)]
pub struct StakeWithdrawReceipt {
    /// The pool tokens to burn and to pass on, and the lamports split out.
    pub withdrawn: WithdrawReceipt,
    /// The user's new stake account.
    pub user_stake: UserStake,
}

/// The lamports of a validator's active stake that may leave it: what it
/// holds beyond the minimum.
pub open spec fn spec_available_stake(entry: ValidatorStakeInfo) -> int {
    if entry.active_stake_lamports > MINIMUM_ACTIVE_STAKE {
        entry.active_stake_lamports - MINIMUM_ACTIVE_STAKE
    } else {
        0
    }
}

/// Whether the pool prefers another validator than `vote` for withdrawals
/// and that validator has stake available.
pub open spec fn spec_must_withdraw_elsewhere(
    pool: StakePool,
    entries: Seq<ValidatorStakeInfo>,
    vote: Pubkey,
) -> bool {
    match pool.preferred_withdraw_validator_vote_address {
        Some(preferred) => preferred@ != vote@ && exists|i: int|
            first_match(entries, preferred@, i) && spec_available_stake(entries[i]) > 0,
        None => false,
    }
}

impl StakePool {
    /// A session-delegated deposit of `lamports` wrapped SOL.
    ///
    /// The session must authorize the call. The deposit first pays the
    /// rent of the recipient's pool-token account if that does not exist
    /// yet; the rest is deposited as SOL is. The depositor must receive at
    /// least `minimum_pool_tokens_out`.
    pub open spec fn spec_deposit_wsol_with_session(
        self,
        session: Session,
        context: SessionContext,
        lamports: u64,
        minimum_pool_tokens_out: u64,
        recipient_exists: bool,
        ata_rent: u64,
        referrer: bool,
        current_epoch: u64,
    ) -> Result<(StakePool, WsolDepositReceipt), StakePoolError> {
        match spec_verify_session(session, context) {
            Err(e) => Err(e),
            Ok(_) => match spec_net_deposit(lamports, recipient_exists, ata_rent) {
                Err(e) => Err(e),
                Ok(net) => match self.spec_deposit_sol(net, referrer, current_epoch) {
                    Err(e) => Err(e),
                    Ok((pool, minted)) => if minted.pool_tokens_user < minimum_pool_tokens_out {
                        Err(StakePoolError::SlippageExceeded)
                    } else {
                        Ok(
                            (
                                pool,
                                WsolDepositReceipt {
                                    ata_rent: (lamports - net) as u64,
                                    lamports_deposited: net,
                                    minted,
                                },
                            ),
                        )
                    },
                },
            },
        }
    }

    /// A session-delegated withdrawal of wrapped SOL for `pool_tokens`.
    ///
    /// The session must authorize the call. The withdrawal is accounted
    /// for as one of SOL is, and must release at least
    /// `minimum_lamports_out`.
    pub open spec fn spec_withdraw_wsol_with_session(
        self,
        session: Session,
        context: SessionContext,
        pool_tokens: u64,
        minimum_lamports_out: u64,
        current_epoch: u64,
    ) -> Result<(StakePool, WithdrawReceipt), StakePoolError> {
        match spec_verify_session(session, context) {
            Err(e) => Err(e),
            Ok(_) => match self.spec_withdraw_sol(pool_tokens, current_epoch) {
                Err(e) => Err(e),
                Ok((pool, receipt)) => if receipt.lamports < minimum_lamports_out {
                    Err(StakePoolError::SlippageExceeded)
                } else {
                    Ok((pool, receipt))
                },
            },
        }
    }

    /// Accounts for a session-delegated deposit of wrapped SOL.
    ///
    /// `recipient_exists` says whether the recipient's pool-token account
    /// exists; `ata_rent` is the rent of such an account.
    pub fn deposit_wsol_with_session(
        &mut self,
        session: &Session,
        context: &SessionContext,
        lamports: u64,
        minimum_pool_tokens_out: u64,
        recipient_exists: bool,
        ata_rent: u64,
        referrer: bool,
        current_epoch: u64,
    ) -> (r: Result<WsolDepositReceipt, StakePoolError>)
        ensures
            match old(self).spec_deposit_wsol_with_session(
                *session,
                *context,
                lamports,
                minimum_pool_tokens_out,
                recipient_exists,
                ata_rent,
                referrer,
                current_epoch,
            ) {
                Ok((pool, receipt)) => r == Ok::<WsolDepositReceipt, StakePoolError>(receipt)
                    && *final(self) == pool,
                Err(e) => r == Err::<WsolDepositReceipt, StakePoolError>(e) && *final(self)
                    == *old(self),
            },
    {
        verify_session(session, context)?;
        let net = if recipient_exists {
            lamports
        } else if lamports <= ata_rent {
            return Err(StakePoolError::DepositTooSmall);
        } else {
            lamports - ata_rent
        };
        let total_before = self.total_lamports;
        let supply_before = self.pool_token_supply;
        let minted = self.deposit_sol(net, referrer, current_epoch)?;
        if minted.pool_tokens_user < minimum_pool_tokens_out {
            self.total_lamports = total_before;
            self.pool_token_supply = supply_before;
            return Err(StakePoolError::SlippageExceeded);
        }
        Ok(WsolDepositReceipt { ata_rent: lamports - net, lamports_deposited: net, minted })
    }

    /// Accounts for a session-delegated withdrawal of wrapped SOL.
    pub fn withdraw_wsol_with_session(
        &mut self,
        session: &Session,
        context: &SessionContext,
        pool_tokens: u64,
        minimum_lamports_out: u64,
        current_epoch: u64,
    ) -> (r: Result<WithdrawReceipt, StakePoolError>)
        ensures
            match old(self).spec_withdraw_wsol_with_session(
                *session,
                *context,
                pool_tokens,
                minimum_lamports_out,
                current_epoch,
            ) {
                Ok((pool, receipt)) => r == Ok::<WithdrawReceipt, StakePoolError>(receipt)
                    && *final(self) == pool,
                Err(e) => r == Err::<WithdrawReceipt, StakePoolError>(e) && *final(self) == *old(
                    self,
                ),
            },
    {
        verify_session(session, context)?;
        let total_before = self.total_lamports;
        let supply_before = self.pool_token_supply;
        let receipt = self.withdraw_sol(pool_tokens, current_epoch)?;
        if receipt.lamports < minimum_lamports_out {
            self.total_lamports = total_before;
            self.pool_token_supply = supply_before;
            return Err(StakePoolError::SlippageExceeded);
        }
        Ok(receipt)
    }
}

} // verus!
