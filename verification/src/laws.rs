//! What holds of the pool whatever the inputs.

use vstd::prelude::*;
use crate::error::StakePoolError;
use crate::fee::{Fee, FeeType, FutureEpochFee};
use crate::math::lemma_div_bounds;
use crate::pool::{checked_u64, StakePool};
use crate::processor::{DepositReceipt, WithdrawReceipt};
use crate::pubkey::Pubkey;
use crate::session::{spec_net_deposit, Session, SessionContext};
use crate::validator::ValidatorStakeInfo;
use crate::validator_list::{
    lemma_without_removed, lemma_without_removed_fixpoint, live_transients, without_removed,
    ValidatorList,
};
use crate::MAX_TRANSIENT_STAKE_ACCOUNTS;

verus! {

/// The pool's supply follows the mint through a deposit of SOL: if the
/// supply equals the pool tokens in circulation before, it equals them
/// after the tokens of the receipt are minted.
pub proof fn lemma_deposit_sol_keeps_supply_backed(
    pool: StakePool,
    lamports: u64,
    referrer: bool,
    current_epoch: u64,
    circulating: int,
)
    requires
        circulating == pool.pool_token_supply,
    ensures
        pool.spec_deposit_sol(lamports, referrer, current_epoch) matches Ok((after, receipt))
            ==> after.pool_token_supply == circulating + receipt.minted(),
{
}

/// The pool's supply follows the mint through a withdrawal of SOL: the
/// tokens burnt leave the circulation, the fee only changes hands.
pub proof fn lemma_withdraw_sol_keeps_supply_backed(
    pool: StakePool,
    pool_tokens: u64,
    current_epoch: u64,
    circulating: int,
)
    requires
        circulating == pool.pool_token_supply,
    ensures
        pool.spec_withdraw_sol(pool_tokens, current_epoch) matches Ok((after, receipt)) ==> {
            &&& after.pool_token_supply == circulating - receipt.pool_tokens_burnt
            &&& receipt.pool_tokens_burnt + receipt.pool_tokens_fee == pool_tokens
        },
{
}

/// The pool's supply follows the mint through the pool pass: the epoch fee
/// is minted and added.
pub proof fn lemma_pool_pass_keeps_supply_backed(
    pool: StakePool,
    entries: Seq<ValidatorStakeInfo>,
    reserve_lamports: u64,
    reserve_minimum: u64,
    current_epoch: u64,
    circulating: int,
)
    requires
        circulating == pool.pool_token_supply,
    ensures
        pool.spec_update_stake_pool_balance(
            entries,
            reserve_lamports,
            reserve_minimum,
            current_epoch,
        ) matches Ok((after, fee_tokens)) ==> after.pool_token_supply == circulating + fee_tokens,
{
}

/// The pool's supply follows the mint through deposits and withdrawals of
/// stake.
pub proof fn lemma_stake_moves_keep_supply_backed(
    pool: StakePool,
    entries: Seq<ValidatorStakeInfo>,
    vote: Pubkey,
    amount: u64,
    referrer: bool,
    current_epoch: u64,
    circulating: int,
)
    requires
        circulating == pool.pool_token_supply,
    ensures
        pool.spec_deposit_stake(entries, vote, amount, referrer, current_epoch) matches Ok(
            (after, _, receipt),
        ) ==> after.pool_token_supply == circulating + receipt.minted(),
        pool.spec_withdraw_stake(entries, vote, amount, current_epoch) matches Ok(
            (after, _, receipt),
        ) ==> after.pool_token_supply == circulating - receipt.pool_tokens_burnt,
{
}

/// The pool's supply follows the mint through the operations that a
/// session delegates: they mint and burn what the operations they stand
/// for mint and burn.
pub proof fn lemma_session_operations_keep_supply_backed(
    pool: StakePool,
    entries: Seq<ValidatorStakeInfo>,
    session: Session,
    context: SessionContext,
    vote: Pubkey,
    amount: u64,
    minimum_out: u64,
    recipient_exists: bool,
    ata_rent: u64,
    referrer: bool,
    seed: u64,
    current_epoch: u64,
    circulating: int,
)
    requires
        circulating == pool.pool_token_supply,
    ensures
        pool.spec_deposit_wsol_with_session(
            session,
            context,
            amount,
            minimum_out,
            recipient_exists,
            ata_rent,
            referrer,
            current_epoch,
        ) matches Ok((after, receipt)) ==> after.pool_token_supply == circulating
            + receipt.minted.minted(),
        pool.spec_withdraw_wsol_with_session(
            session,
            context,
            amount,
            minimum_out,
            current_epoch,
        ) matches Ok((after, receipt)) ==> after.pool_token_supply == circulating
            - receipt.pool_tokens_burnt,
        pool.spec_withdraw_stake_with_session(
            entries,
            session,
            context,
            vote,
            amount,
            minimum_out,
            seed,
            current_epoch,
        ) matches Ok((after, _, receipt)) ==> after.pool_token_supply == circulating
            - receipt.withdrawn.pool_tokens_burnt,
{
}

/// A change of fees mints and burns nothing.
pub proof fn lemma_set_fee_keeps_balance(
    pool: StakePool,
    fee: FeeType,
    signer: Pubkey,
    current_epoch: u64,
)
    ensures
        pool.spec_set_fee(fee, signer, current_epoch) matches Ok(after) ==> {
            &&& after.pool_token_supply == pool.pool_token_supply
            &&& after.total_lamports == pool.total_lamports
        },
{
}

/// A fee of zero takes nothing.
pub proof fn lemma_zero_fee_takes_nothing(fee: Fee, amount: u64)
    requires
        fee.is_zero(),
    ensures
        fee.spec_apply(amount) == 0,
{
    if fee.denominator != 0 {
        assert(amount * fee.numerator == 0) by (nonlinear_arith)
            requires
                fee.numerator == 0,
        ;
        assert((0 + fee.denominator - 1) / (fee.denominator as int) == 0) by (nonlinear_arith)
            requires
                fee.denominator > 0,
        ;
    }
}

/// The first deposit into a pool without supply mints exactly one pool
/// token per lamport.
pub proof fn lemma_first_deposit_mints_one_for_one(
    pool: StakePool,
    lamports: u64,
    referrer: bool,
    current_epoch: u64,
)
    requires
        pool.pool_token_supply == 0,
    ensures
        checked_u64(pool.spec_pool_tokens_for_deposit(lamports)) == Some(lamports),
        pool.spec_deposit_sol(lamports, referrer, current_epoch) matches Ok((after, receipt)) ==> {
            &&& receipt.minted() == lamports
            &&& after.pool_token_supply == lamports
        },
        pool.total_lamports == 0 && pool.last_update_epoch == current_epoch && lamports > 0
            && pool.sol_deposit_fee.is_zero() ==> pool.spec_deposit_sol(
            lamports,
            referrer,
            current_epoch,
        ) == Ok::<(StakePool, DepositReceipt), StakePoolError>(
            (
                StakePool { total_lamports: lamports, pool_token_supply: lamports, ..pool },
                DepositReceipt {
                    pool_tokens_user: lamports,
                    pool_tokens_manager: 0,
                    pool_tokens_referral: 0,
                },
            ),
        ),
{
    lemma_zero_fee_takes_nothing(Fee { denominator: 0, numerator: 0 }, lamports);
    if pool.sol_deposit_fee.is_zero() {
        lemma_zero_fee_takes_nothing(pool.sol_deposit_fee, lamports);
        assert(crate::pool::spec_referral_share(0, pool.sol_referral_fee) == 0) by {
            assert(0 * (pool.sol_referral_fee as int) == 0);
        }
    }
}

/// In a pool with more pool tokens than lamports a single pool token is
/// worth less than a lamport, and its withdrawal is too small.
pub proof fn lemma_one_token_withdrawal_too_small(pool: StakePool, current_epoch: u64)
    requires
        pool.last_update_epoch == current_epoch,
        pool.total_lamports < pool.pool_token_supply,
    ensures
        checked_u64(pool.spec_lamports_withdraw_amount(1)) == Some(0u64),
        pool.spec_withdraw_sol(1, current_epoch) == Err::<
            (StakePool, WithdrawReceipt),
            StakePoolError,
        >(StakePoolError::WithdrawalTooSmall),
{
    assert(1 * pool.total_lamports == pool.total_lamports);
}

/// Under a withdrawal fee that is not zero the fee on a single pool token
/// is that token, so that its withdrawal is too small at any rate.
pub proof fn lemma_one_token_withdrawal_too_small_under_fee(pool: StakePool, current_epoch: u64)
    requires
        pool.last_update_epoch == current_epoch,
        !pool.sol_withdrawal_fee.is_zero(),
        !pool.sol_withdrawal_fee.exceeds_one(),
    ensures
        pool.spec_withdraw_sol(1, current_epoch) == Err::<
            (StakePool, WithdrawReceipt),
            StakePoolError,
        >(StakePoolError::WithdrawalTooSmall),
{
    let fee = pool.sol_withdrawal_fee;
    let n = fee.numerator as int;
    let d = fee.denominator as int;
    assert(1 * n == n);
    assert((n + d - 1) / d == 1) by (nonlinear_arith)
        requires
            0 < n <= d,
    ;
    assert(fee.spec_apply(1) == 1);
    assert(0 * pool.total_lamports == 0);
    let worth = pool.spec_lamports_withdraw_amount(1);
    if pool.pool_token_supply != 0 && 1 * pool.total_lamports >= pool.pool_token_supply {
        assert(1 * pool.total_lamports == pool.total_lamports);
        lemma_div_bounds(pool.total_lamports as int, pool.pool_token_supply as int);
        assert(worth <= pool.total_lamports) by (nonlinear_arith)
            requires
                worth == (pool.total_lamports as int) / (pool.pool_token_supply as int),
                worth * pool.pool_token_supply <= pool.total_lamports,
                pool.pool_token_supply >= 1,
                worth >= 0,
        ;
    }
}

/// A session-delegated deposit that only pays the rent of the recipient's
/// new account is too small.
pub proof fn lemma_deposit_of_rent_too_small(
    pool: StakePool,
    session: Session,
    context: SessionContext,
    lamports: u64,
    minimum_pool_tokens_out: u64,
    ata_rent: u64,
    referrer: bool,
    current_epoch: u64,
)
    requires
        crate::session::spec_verify_session(session, context) is Ok,
        lamports <= ata_rent,
    ensures
        spec_net_deposit(lamports, false, ata_rent) == Err::<u64, StakePoolError>(
            StakePoolError::DepositTooSmall,
        ),
        pool.spec_deposit_wsol_with_session(
            session,
            context,
            lamports,
            minimum_pool_tokens_out,
            false,
            ata_rent,
            referrer,
            current_epoch,
        ) == Err::<(StakePool, crate::session::WsolDepositReceipt), StakePoolError>(
            StakePoolError::DepositTooSmall,
        ),
{
}

/// Deposit, then withdraw what was minted: without fees, in a balanced
/// pool, the depositor never gets back more than was deposited, and loses
/// less than one lamport plus the lamports that stood behind one pool
/// token of the new supply before the deposit.
pub proof fn lemma_deposit_then_withdraw(pool: StakePool, lamports: u64, current_epoch: u64)
    requires
        pool.is_balanced(),
        pool.charges_no_sol_fees(),
    ensures
        pool.spec_deposit_sol(lamports, false, current_epoch) matches Ok((funded, minted))
            ==> funded.spec_withdraw_sol(minted.pool_tokens_user, current_epoch) matches Ok(
            (_, released),
        ) ==> {
            &&& released.lamports <= lamports
            &&& (lamports - released.lamports) * funded.pool_token_supply < pool.total_lamports
                + funded.pool_token_supply
        },
{
    if let Ok((funded, minted)) = pool.spec_deposit_sol(lamports, false, current_epoch) {
        let tokens = minted.pool_tokens_user;
        if let Ok((_, released)) = funded.spec_withdraw_sol(tokens, current_epoch) {
            let new_tokens = pool.spec_pool_tokens_for_deposit(lamports);
            lemma_zero_fee_takes_nothing(pool.sol_deposit_fee, new_tokens as u64);
            lemma_zero_fee_takes_nothing(funded.sol_withdrawal_fee, tokens);
            assert(tokens == new_tokens);
            let total = pool.total_lamports as int;
            let supply = pool.pool_token_supply as int;
            let funded_total = funded.total_lamports as int;
            let funded_supply = funded.pool_token_supply as int;
            let a = lamports as int;
            let t = tokens as int;
            let w = released.lamports as int;
            assert(funded_total == total + a && funded_supply == supply + t);
            assert(w == (t * funded_total) / funded_supply);
            assert(t * funded_total >= 0) by (nonlinear_arith)
                requires
                    t >= 0,
                    funded_total >= 0,
            ;
            lemma_div_bounds(t * funded_total, funded_supply);
            if total == 0 {
                assert(t == a);
                assert(w * funded_supply <= a * funded_supply && (a - w) * funded_supply < total
                    + funded_supply) by (nonlinear_arith)
                    requires
                        w * funded_supply <= t * funded_total,
                        t * funded_total < w * funded_supply + funded_supply,
                        funded_total == a,
                        funded_supply == a,
                        t == a,
                        total == 0,
                        a > 0,
                ;
            } else {
                assert(t == (a * supply) / total);
                assert(a * supply >= 0) by (nonlinear_arith)
                    requires
                        a >= 0,
                        supply >= 0,
                ;
                lemma_div_bounds(a * supply, total);
                assert(w * funded_supply <= a * funded_supply && (a - w) * funded_supply < total
                    + funded_supply) by (nonlinear_arith)
                    requires
                        w * funded_supply <= t * funded_total,
                        t * funded_total < w * funded_supply + funded_supply,
                        t * total <= a * supply,
                        a * supply < t * total + total,
                        funded_total == total + a,
                        funded_supply == supply + t,
                ;
            }
            assert(w <= a) by (nonlinear_arith)
                requires
                    w * funded_supply <= a * funded_supply,
                    funded_supply > 0,
            ;
        }
    }
}

/// Deposit, then withdraw what was minted: without fees, in a balanced
/// pool that holds no more lamports than the new supply of pool tokens,
/// the depositor gets back all but one lamport at most.
pub proof fn lemma_deposit_then_withdraw_loses_one_lamport_at_most(
    pool: StakePool,
    lamports: u64,
    current_epoch: u64,
)
    requires
        pool.is_balanced(),
        pool.charges_no_sol_fees(),
    ensures
        pool.spec_deposit_sol(lamports, false, current_epoch) matches Ok((funded, minted))
            ==> funded.spec_withdraw_sol(minted.pool_tokens_user, current_epoch) matches Ok(
            (_, released),
        ) ==> pool.total_lamports <= funded.pool_token_supply ==> lamports - 1
            <= released.lamports <= lamports,
{
    lemma_deposit_then_withdraw(pool, lamports, current_epoch);
    if let Ok((funded, minted)) = pool.spec_deposit_sol(lamports, false, current_epoch) {
        if let Ok((_, released)) = funded.spec_withdraw_sol(
            minted.pool_tokens_user,
            current_epoch,
        ) {
            if pool.total_lamports <= funded.pool_token_supply {
                let loss = lamports - released.lamports;
                let s = funded.pool_token_supply as int;
                assert(loss < 2) by (nonlinear_arith)
                    requires
                        loss * s < pool.total_lamports + s,
                        pool.total_lamports <= s,
                        s >= 0,
                ;
            }
        }
    }
}

/// Whether a scheduled fee is still waiting: the live fee is `live`, and
/// the countdown has not come further than the epochs since `set_epoch`
/// allow.
pub open spec fn fee_waits(
    live_now: Fee,
    pending: FutureEpochFee,
    last_update_epoch: u64,
    live: Fee,
    set_epoch: u64,
) -> bool {
    &&& live_now == live
    &&& (pending is Two && last_update_epoch >= set_epoch) || (pending is One && last_update_epoch
        >= set_epoch + 1)
}

/// Scheduling a fee leaves the live fee as it was and starts the wait.
pub proof fn lemma_set_fee_starts_wait(
    pool: StakePool,
    fee: FeeType,
    signer: Pubkey,
    current_epoch: u64,
)
    requires
        fee.spec_can_only_change_next_epoch(),
    ensures
        pool.spec_set_fee(fee, signer, current_epoch) matches Ok(after) ==> {
            &&& after.epoch_fee == pool.epoch_fee
            &&& after.stake_withdrawal_fee == pool.stake_withdrawal_fee
            &&& after.sol_withdrawal_fee == pool.sol_withdrawal_fee
            &&& fee is Epoch ==> fee_waits(
                after.epoch_fee,
                after.next_epoch_fee,
                after.last_update_epoch,
                pool.epoch_fee,
                current_epoch,
            )
            &&& fee is StakeWithdrawal ==> fee_waits(
                after.stake_withdrawal_fee,
                after.next_stake_withdrawal_fee,
                after.last_update_epoch,
                pool.stake_withdrawal_fee,
                current_epoch,
            )
            &&& fee is SolWithdrawal ==> fee_waits(
                after.sol_withdrawal_fee,
                after.next_sol_withdrawal_fee,
                after.last_update_epoch,
                pool.sol_withdrawal_fee,
                current_epoch,
            )
        },
{
}

/// A fee scheduled in epoch `set_epoch` does not go live in a pool pass
/// before epoch `set_epoch + 2`: a pass at an earlier epoch leaves the
/// live fee as it was, and leaves the fee waiting. Epochs do not run
/// backwards: the pass is at or after the pool's last update.
pub proof fn lemma_pool_pass_keeps_fee_waiting(
    pool: StakePool,
    entries: Seq<ValidatorStakeInfo>,
    reserve_lamports: u64,
    reserve_minimum: u64,
    current_epoch: u64,
    live: Fee,
    set_epoch: u64,
)
    requires
        pool.last_update_epoch <= current_epoch < set_epoch + 2,
    ensures
        pool.spec_update_stake_pool_balance(
            entries,
            reserve_lamports,
            reserve_minimum,
            current_epoch,
        ) matches Ok((after, _)) ==> {
            &&& fee_waits(
                pool.epoch_fee,
                pool.next_epoch_fee,
                pool.last_update_epoch,
                live,
                set_epoch,
            ) ==> fee_waits(
                after.epoch_fee,
                after.next_epoch_fee,
                after.last_update_epoch,
                live,
                set_epoch,
            )
            &&& fee_waits(
                pool.stake_withdrawal_fee,
                pool.next_stake_withdrawal_fee,
                pool.last_update_epoch,
                live,
                set_epoch,
            ) ==> fee_waits(
                after.stake_withdrawal_fee,
                after.next_stake_withdrawal_fee,
                after.last_update_epoch,
                live,
                set_epoch,
            )
            &&& fee_waits(
                pool.sol_withdrawal_fee,
                pool.next_sol_withdrawal_fee,
                pool.last_update_epoch,
                live,
                set_epoch,
            ) ==> fee_waits(
                after.sol_withdrawal_fee,
                after.next_sol_withdrawal_fee,
                after.last_update_epoch,
                live,
                set_epoch,
            )
        },
{
}

/// Deposits and withdrawals leave the fees and their schedule alone.
pub proof fn lemma_deposits_and_withdrawals_keep_fees(
    pool: StakePool,
    amount: u64,
    referrer: bool,
    current_epoch: u64,
)
    ensures
        pool.spec_deposit_sol(amount, referrer, current_epoch) matches Ok((after, _))
            ==> after == (StakePool {
            total_lamports: after.total_lamports,
            pool_token_supply: after.pool_token_supply,
            ..pool
        }),
        pool.spec_withdraw_sol(amount, current_epoch) matches Ok((after, _)) ==> after
            == (StakePool {
            total_lamports: after.total_lamports,
            pool_token_supply: after.pool_token_supply,
            ..pool
        }),
{
}

/// The pool pass does not lower the exchange rate: if the new total is not
/// below the old one, the lamports per pool token after the pass are at
/// least what they were, compared as fractions.
pub proof fn lemma_pool_pass_keeps_rate(
    pool: StakePool,
    entries: Seq<ValidatorStakeInfo>,
    reserve_lamports: u64,
    reserve_minimum: u64,
    current_epoch: u64,
)
    requires
        pool.is_balanced(),
        !pool.epoch_fee.exceeds_one(),
    ensures
        pool.spec_update_stake_pool_balance(
            entries,
            reserve_lamports,
            reserve_minimum,
            current_epoch,
        ) matches Ok((after, _)) ==> after.total_lamports >= pool.total_lamports
            ==> after.total_lamports * pool.pool_token_supply >= pool.total_lamports
            * after.pool_token_supply,
{
    if let Ok((after, fee_tokens)) = pool.spec_update_stake_pool_balance(
        entries,
        reserve_lamports,
        reserve_minimum,
        current_epoch,
    ) {
        if after.total_lamports >= pool.total_lamports {
            let total = pool.total_lamports as int;
            let supply = pool.pool_token_supply as int;
            let new_total = after.total_lamports as int;
            let reward_lamports = (new_total - total) as u64;
            let reward = reward_lamports as int;
            let minted = fee_tokens as int;
            assert(after.pool_token_supply == supply + minted);
            assert(pool.spec_epoch_fee_amount(reward_lamports) == Some(fee_tokens));
            let fee = pool.epoch_fee.spec_apply(reward_lamports);
            pool.epoch_fee.lemma_apply_at_most_amount(reward_lamports);
            pool.epoch_fee.lemma_apply_fits(reward_lamports);
            if reward == 0 {
                assert(new_total * supply >= total * (supply + minted)) by (nonlinear_arith)
                    requires
                        new_total == total,
                        minted == 0,
                ;
            } else if new_total == fee || supply == 0 {
                assert(total == 0);
                assert(new_total * supply >= total * (supply + minted)) by (nonlinear_arith)
                    requires
                        total == 0,
                        new_total >= 0,
                        supply >= 0,
                ;
            } else {
                let rest = new_total - fee;
                assert(minted == (supply * fee) / rest);
                assert(supply * fee >= 0) by (nonlinear_arith)
                    requires
                        supply >= 0,
                        fee >= 0,
                ;
                lemma_div_bounds(supply * fee, rest);
                assert(new_total * supply >= total * (supply + minted)) by (nonlinear_arith)
                    requires
                        minted * rest <= supply * fee,
                        rest == new_total - fee,
                        new_total == total + reward,
                        0 <= fee <= reward,
                        minted >= 0,
                        supply >= 0,
                        total >= 0,
                ;
            }
        }
    }
}

/// Sweeping the removed entries out of a list a second time changes
/// nothing.
pub proof fn lemma_cleanup_idempotent(entries: Seq<ValidatorStakeInfo>)
    ensures
        without_removed(without_removed(entries)) == without_removed(entries),
{
    lemma_without_removed(entries);
    lemma_without_removed_fixpoint(without_removed(entries));
}

/// In a well-formed list every entry that is ready for removal holds no
/// lamports, and no more validators have a live transient stake account
/// than the budget allows.
pub proof fn lemma_well_formed_list(list: ValidatorList)
    requires
        list.is_well_formed(),
    ensures
        forall|i: int|
            0 <= i < list.validators@.len() && (#[trigger] list.validators@[i]).is_ready_for_removal()
                ==> list.validators@[i].active_stake_lamports == 0
                && list.validators@[i].transient_stake_lamports == 0,
        live_transients(list.validators@) <= MAX_TRANSIENT_STAKE_ACCOUNTS,
{
}

/// Deposits and withdrawals of SOL keep a balanced pool balanced: lamports
/// and supply stay zero together or nonzero together.
pub proof fn lemma_deposits_and_withdrawals_keep_balance(
    pool: StakePool,
    amount: u64,
    referrer: bool,
    current_epoch: u64,
)
    requires
        pool.is_balanced(),
    ensures
        pool.spec_deposit_sol(amount, referrer, current_epoch) matches Ok((after, _))
            ==> after.is_balanced(),
        pool.spec_withdraw_sol(amount, current_epoch) matches Ok((after, _))
            ==> after.is_balanced(),
{
    if let Ok((after, receipt)) = pool.spec_withdraw_sol(amount, current_epoch) {
        let total = pool.total_lamports as int;
        let supply = pool.pool_token_supply as int;
        let burnt = receipt.pool_tokens_burnt as int;
        let released = receipt.lamports as int;
        assert(released == (burnt * total) / supply);
        assert(burnt * total >= 0) by (nonlinear_arith)
            requires
                burnt >= 0,
                total >= 0,
        ;
        lemma_div_bounds(burnt * total, supply);
        if burnt == supply {
            assert(released == total) by (nonlinear_arith)
                requires
                    released * supply <= burnt * total,
                    burnt * total < released * supply + supply,
                    burnt == supply,
                    supply > 0,
            ;
        } else {
            assert(released < total) by (nonlinear_arith)
                requires
                    released * supply <= burnt * total,
                    0 <= burnt < supply,
                    total > 0,
            ;
        }
    }
}

/// The pool pass keeps a balanced pool balanced, unless the pool has lost
/// all its lamports while pool tokens are outstanding.
pub proof fn lemma_pool_pass_keeps_balance(
    pool: StakePool,
    entries: Seq<ValidatorStakeInfo>,
    reserve_lamports: u64,
    reserve_minimum: u64,
    current_epoch: u64,
)
    requires
        pool.is_balanced(),
    ensures
        pool.spec_update_stake_pool_balance(
            entries,
            reserve_lamports,
            reserve_minimum,
            current_epoch,
        ) matches Ok((after, _)) ==> after.total_lamports > 0 || pool.pool_token_supply == 0
            ==> after.is_balanced(),
{
}

/// A deposit does not lower the exchange rate: the new pool tokens are
/// rounded down, so the lamports per pool token after the deposit are at
/// least what they were, compared as fractions.
pub proof fn lemma_deposit_keeps_rate(
    pool: StakePool,
    lamports: u64,
    referrer: bool,
    current_epoch: u64,
)
    requires
        pool.is_balanced(),
    ensures
        pool.spec_deposit_sol(lamports, referrer, current_epoch) matches Ok((after, _))
            ==> after.total_lamports * pool.pool_token_supply >= pool.total_lamports
            * after.pool_token_supply,
{
    if let Ok((after, receipt)) = pool.spec_deposit_sol(lamports, referrer, current_epoch) {
        let total = pool.total_lamports as int;
        let supply = pool.pool_token_supply as int;
        let a = lamports as int;
        let minted = after.pool_token_supply - supply;
        if total == 0 {
            assert(after.total_lamports * supply >= total * after.pool_token_supply)
                by (nonlinear_arith)
                requires
                    total == 0,
                    supply == 0,
            ;
        } else {
            assert(minted == (a * supply) / total);
            assert(a * supply >= 0) by (nonlinear_arith)
                requires
                    a >= 0,
                    supply >= 0,
            ;
            lemma_div_bounds(a * supply, total);
            assert((total + a) * supply >= total * (supply + minted)) by (nonlinear_arith)
                requires
                    minted * total <= a * supply,
            ;
        }
    }
}

/// A withdrawal does not lower the exchange rate: the lamports released
/// are rounded down, so the lamports per pool token after the withdrawal
/// are at least what they were, compared as fractions.
pub proof fn lemma_withdrawal_keeps_rate(pool: StakePool, pool_tokens: u64, current_epoch: u64)
    ensures
        pool.spec_withdraw_sol(pool_tokens, current_epoch) matches Ok((after, _))
            ==> after.total_lamports * pool.pool_token_supply >= pool.total_lamports
            * after.pool_token_supply,
{
    if let Ok((after, receipt)) = pool.spec_withdraw_sol(pool_tokens, current_epoch) {
        let total = pool.total_lamports as int;
        let supply = pool.pool_token_supply as int;
        let burnt = receipt.pool_tokens_burnt as int;
        let released = receipt.lamports as int;
        assert(released == (burnt * total) / supply);
        assert(burnt * total >= 0) by (nonlinear_arith)
            requires
                burnt >= 0,
                total >= 0,
        ;
        lemma_div_bounds(burnt * total, supply);
        assert((total - released) * supply >= total * (supply - burnt)) by (nonlinear_arith)
            requires
                released * supply <= burnt * total,
        ;
    }
}

/// The manager's epoch fee is the manager's share of the pool: where the
/// fee is `fee` lamports of a pool that holds `total` lamports after the
/// reward, the tokens minted are the most that keep the manager's share of
/// the new supply at `fee / total` or below.
pub proof fn lemma_epoch_fee_is_the_managers_share(pool: StakePool, reward_lamports: u64)
    requires
        reward_lamports > 0,
        pool.pool_token_supply > 0,
        pool.epoch_fee.spec_apply(reward_lamports) < pool.total_lamports + reward_lamports,
    ensures
        pool.spec_epoch_fee_amount(reward_lamports) matches Some(minted) ==> {
            let total = pool.total_lamports + reward_lamports;
            let fee = pool.epoch_fee.spec_apply(reward_lamports);
            &&& minted * total <= fee * (pool.pool_token_supply + minted)
            &&& (minted + 1) * total > fee * (pool.pool_token_supply + minted + 1)
        },
{
    if let Some(minted) = pool.spec_epoch_fee_amount(reward_lamports) {
        let total = pool.total_lamports + reward_lamports;
        let fee = pool.epoch_fee.spec_apply(reward_lamports);
        let supply = pool.pool_token_supply as int;
        pool.epoch_fee.lemma_apply_fits(reward_lamports);
        let rest = total - fee;
        let m = minted as int;
        assert(m == (supply * fee) / rest);
        assert(supply * fee >= 0) by (nonlinear_arith)
            requires
                supply >= 0,
                fee >= 0,
        ;
        lemma_div_bounds(supply * fee, rest);
        assert(m * total <= fee * (supply + m) && (m + 1) * total > fee * (supply + m + 1))
            by (nonlinear_arith)
            requires
                m * rest <= supply * fee,
                supply * fee < m * rest + rest,
                rest == total - fee,
        ;
    }
}

} // verus!
