//! The pool record and its exchange-rate arithmetic.

use vstd::prelude::*;
use crate::fee::{Fee, FutureEpochFee};
use crate::math::{ceil_div, lemma_div_bounds, lemma_u64_product_bound, mul_div_floor};
use crate::pubkey::Pubkey;

verus! {

/// The kind of account that a record describes.
#[derive(Clone, Copy, Debug, PartialEq, Eq, Structural)]
pub enum AccountType {
    /// If the account has not been initialized, the enum will be 0
    Uninitialized,
    /// Stake pool
    StakePool,
    /// Validator stake list
    ValidatorList,
}

impl Default for AccountType {
    fn default() -> (r: AccountType)
        ensures
            r == AccountType::Uninitialized,
    {
        AccountType::Uninitialized
    }
}

/// The lockup that every stake account of the pool must carry.
#[derive(Clone, Copy, Debug, PartialEq, Eq)]
pub struct Lockup {
    /// Time, in seconds since the Unix epoch, at which the lockup ends.
    pub unix_timestamp: i64,
    /// Epoch at which the lockup ends.
    pub epoch: u64,
    /// The one authority that can lift the lockup early.
    pub custodian: Pubkey,
}

impl Default for Lockup {
    /// No lockup: both bounds zero, the zero address as custodian.
    fn default() -> (r: Lockup)
        ensures
            r.unix_timestamp == 0,
            r.epoch == 0,
            r.custodian@ == Seq::new(32, |i: int| 0u8),
    {
        Lockup { unix_timestamp: 0, epoch: 0, custodian: Pubkey::default() }
    }
}

/// Initialized program details.
#[derive(Clone, Debug, PartialEq)]
pub struct StakePool {
    /// Account type, must be `StakePool` currently
    pub account_type: AccountType,
    /// Manager authority, allows for updating the staker, manager, and fee
    /// account
    pub manager: Pubkey,
    /// Staker authority, allows for adding and removing validators, and
    /// managing stake distribution
    pub staker: Pubkey,
    /// Stake deposit authority: signs stake deposits. Pools without one of
    /// their own use the derived deposit authority.
    pub stake_deposit_authority: Pubkey,
    /// Bump seed of the derived stake withdraw authority
    pub stake_withdraw_bump_seed: u8,
    /// Validator stake list storage account
    pub validator_list: Pubkey,
    /// Reserve stake account, holds deactivated stake
    pub reserve_stake: Pubkey,
    /// Pool Mint
    pub pool_mint: Pubkey,
    /// Manager fee account
    pub manager_fee_account: Pubkey,
    /// Pool token program id
    pub token_program_id: Pubkey,
    /// Total stake under management.
    /// Note that if `last_update_epoch` does not match the current epoch then
    /// this field may not be accurate
    pub total_lamports: u64,
    /// Total supply of pool tokens (should always match the supply in the Pool
    /// Mint)
    pub pool_token_supply: u64,
    /// Last epoch the `total_lamports` field was updated
    pub last_update_epoch: u64,
    /// Lockup that all stakes in the pool must have
    pub lockup: Lockup,
    /// Fee taken as a proportion of rewards each epoch
    pub epoch_fee: Fee,
    /// Fee for next epoch
    pub next_epoch_fee: FutureEpochFee,
    /// Preferred deposit validator vote account pubkey
    pub preferred_deposit_validator_vote_address: Option<Pubkey>,
    /// Preferred withdraw validator vote account pubkey
    pub preferred_withdraw_validator_vote_address: Option<Pubkey>,
    /// Fee assessed on stake deposits
    pub stake_deposit_fee: Fee,
    /// Fee assessed on withdrawals
    pub stake_withdrawal_fee: Fee,
    /// Future stake withdrawal fee, to be set for the following epoch
    pub next_stake_withdrawal_fee: FutureEpochFee,
    /// Fees paid out to referrers on referred stake deposits.
    /// Expressed as a percentage (0 - 100) of deposit fees.
    pub stake_referral_fee: u8,
    /// If set, SOL deposits need this authority's signature
    pub sol_deposit_authority: Option<Pubkey>,
    /// Fee assessed on SOL deposits
    pub sol_deposit_fee: Fee,
    /// Fees paid out to referrers on referred SOL deposits.
    /// Expressed as a percentage (0 - 100) of SOL deposit fees.
    pub sol_referral_fee: u8,
    /// If set, SOL withdrawals need this authority's signature
    pub sol_withdraw_authority: Option<Pubkey>,
    /// Fee assessed on SOL withdrawals
    pub sol_withdrawal_fee: Fee,
    /// Future SOL withdrawal fee, to be set for the following epoch
    pub next_sol_withdrawal_fee: FutureEpochFee,
    /// Last epoch's total pool tokens, used only for APR estimation
    pub last_epoch_pool_token_supply: u64,
    /// Last epoch's total lamports, used only for APR estimation
    pub last_epoch_total_lamports: u64,
}

/// The record of an account that was never initialized: every number zero,
/// every address the zero address, no fee, nothing pending, nothing
/// preferred.
pub open spec fn spec_default_stake_pool(pool: StakePool) -> bool {
    let zero = Seq::new(32, |i: int| 0u8);
    let no_fee = Fee { denominator: 0, numerator: 0 };
    &&& pool.account_type == AccountType::Uninitialized
    &&& pool.manager@ == zero
    &&& pool.staker@ == zero
    &&& pool.stake_deposit_authority@ == zero
    &&& pool.stake_withdraw_bump_seed == 0
    &&& pool.validator_list@ == zero
    &&& pool.reserve_stake@ == zero
    &&& pool.pool_mint@ == zero
    &&& pool.manager_fee_account@ == zero
    &&& pool.token_program_id@ == zero
    &&& pool.total_lamports == 0
    &&& pool.pool_token_supply == 0
    &&& pool.last_update_epoch == 0
    &&& pool.lockup.unix_timestamp == 0
    &&& pool.lockup.epoch == 0
    &&& pool.lockup.custodian@ == zero
    &&& pool.epoch_fee == no_fee
    &&& pool.next_epoch_fee == FutureEpochFee::Unset
    &&& pool.preferred_deposit_validator_vote_address is None
    &&& pool.preferred_withdraw_validator_vote_address is None
    &&& pool.stake_deposit_fee == no_fee
    &&& pool.stake_withdrawal_fee == no_fee
    &&& pool.next_stake_withdrawal_fee == FutureEpochFee::Unset
    &&& pool.stake_referral_fee == 0
    &&& pool.sol_deposit_authority is None
    &&& pool.sol_deposit_fee == no_fee
    &&& pool.sol_referral_fee == 0
    &&& pool.sol_withdraw_authority is None
    &&& pool.sol_withdrawal_fee == no_fee
    &&& pool.next_sol_withdrawal_fee == FutureEpochFee::Unset
    &&& pool.last_epoch_pool_token_supply == 0
    &&& pool.last_epoch_total_lamports == 0
}

impl Default for StakePool {
    fn default() -> (r: StakePool)
        ensures
            spec_default_stake_pool(r),
    {
        StakePool {
            account_type: AccountType::Uninitialized,
            manager: Pubkey::default(),
            staker: Pubkey::default(),
            stake_deposit_authority: Pubkey::default(),
            stake_withdraw_bump_seed: 0,
            validator_list: Pubkey::default(),
            reserve_stake: Pubkey::default(),
            pool_mint: Pubkey::default(),
            manager_fee_account: Pubkey::default(),
            token_program_id: Pubkey::default(),
            total_lamports: 0,
            pool_token_supply: 0,
            last_update_epoch: 0,
            lockup: Lockup::default(),
            epoch_fee: Fee::default(),
            next_epoch_fee: FutureEpochFee::Unset,
            preferred_deposit_validator_vote_address: None,
            preferred_withdraw_validator_vote_address: None,
            stake_deposit_fee: Fee::default(),
            stake_withdrawal_fee: Fee::default(),
            next_stake_withdrawal_fee: FutureEpochFee::Unset,
            stake_referral_fee: 0,
            sol_deposit_authority: None,
            sol_deposit_fee: Fee::default(),
            sol_referral_fee: 0,
            sol_withdraw_authority: None,
            sol_withdrawal_fee: Fee::default(),
            next_sol_withdrawal_fee: FutureEpochFee::Unset,
            last_epoch_pool_token_supply: 0,
            last_epoch_total_lamports: 0,
        }
    }
}

/// A mathematical amount as a 64-bit result: `None` when it does not fit.
pub open spec fn checked_u64(v: int) -> Option<u64> {
    if 0 <= v <= u64::MAX {
        Some(v as u64)
    } else {
        None
    }
}

/// The share `pct` percent of `fee`, rounded down.
pub open spec fn spec_referral_share(fee: u64, pct: u8) -> int {
    mul_div_floor(fee as int, pct as int, 100)
}

/// Narrows a 128-bit amount to 64 bits, or reports that it does not fit.
fn narrow(v: u128) -> (r: Option<u64>)
    ensures
        r == checked_u64(v as int),
{
    if v > u64::MAX as u128 {
        None
    } else {
        Some(v as u64)
    }
}

/// `fee * pct / 100`, rounded down, if it fits in 64 bits.
fn referral_share(fee: u64, pct: u8) -> (r: Option<u64>)
    ensures
        r == checked_u64(spec_referral_share(fee, pct)),
{
    proof {
        lemma_u64_product_bound(fee, pct as u64);
    }
    let product: u128 = (fee as u128) * (pct as u128);
    narrow(product / 100u128)
}

impl StakePool {
    /// Pool tokens for a deposit of `stake_lamports`: one for one while the
    /// pool is empty, afterwards in proportion to the present supply,
    /// rounded down.
    pub open spec fn spec_pool_tokens_for_deposit(&self, stake_lamports: u64) -> int {
        if self.total_lamports == 0 || self.pool_token_supply == 0 {
            stake_lamports as int
        } else {
            mul_div_floor(
                stake_lamports as int,
                self.pool_token_supply as int,
                self.total_lamports as int,
            )
        }
    }

    /// Lamports released for `pool_tokens`: their share of the pool's
    /// lamports, rounded down; nothing at all while the pool has no supply or
    /// the share is below one lamport.
    pub open spec fn spec_lamports_withdraw_amount(&self, pool_tokens: u64) -> int {
        if self.pool_token_supply == 0 || pool_tokens * self.total_lamports
            < self.pool_token_supply {
            0
        } else {
            mul_div_floor(
                pool_tokens as int,
                self.total_lamports as int,
                self.pool_token_supply as int,
            )
        }
    }

    /// The manager's epoch fee in pool tokens for a reward of
    /// `reward_lamports` that is not yet part of `total_lamports`.
    ///
    /// With `total` the lamports after the reward and `fee` the fee in
    /// lamports, the manager receives `supply * fee / (total - fee)` tokens,
    /// rounded down, which makes the manager's share of the pool after
    /// minting `fee / total`. Where that quotient is undefined (the fee is
    /// the whole pool, or there is no supply yet) the manager receives one
    /// token per lamport of reward.
    pub open spec fn spec_epoch_fee_amount(&self, reward_lamports: u64) -> Option<u64> {
        let total = self.total_lamports + reward_lamports;
        let fee = self.epoch_fee.spec_apply(reward_lamports);
        if reward_lamports == 0 {
            Some(0u64)
        } else if total == fee || self.pool_token_supply == 0 {
            Some(reward_lamports)
        } else if self.pool_token_supply * fee > u128::MAX || fee > total {
            None
        } else {
            checked_u64((self.pool_token_supply * fee) / (total - fee))
        }
    }

    /// Lamports per pool token, rounded up. Undefined without supply, and
    /// where the sum of lamports and supply exceeds 64 bits.
    pub open spec fn spec_lamports_per_pool_token(&self) -> Option<u64> {
        if self.pool_token_supply == 0 || self.total_lamports + self.pool_token_supply
            > u64::MAX {
            None
        } else {
            Some(ceil_div(self.total_lamports as int, self.pool_token_supply as int) as u64)
        }
    }

    /// Calculate the pool tokens that should be minted for a deposit of
    /// `stake_lamports`. `None` if the amount does not fit in 64 bits.
    pub fn calc_pool_tokens_for_deposit(&self, stake_lamports: u64) -> (r: Option<u64>)
        ensures
            r == checked_u64(self.spec_pool_tokens_for_deposit(stake_lamports)),
    {
        if self.total_lamports == 0 || self.pool_token_supply == 0 {
            return Some(stake_lamports);
        }
        proof {
            lemma_u64_product_bound(stake_lamports, self.pool_token_supply);
        }
        let product: u128 = (stake_lamports as u128) * (self.pool_token_supply as u128);
        narrow(product / (self.total_lamports as u128))
    }

    /// Calculate lamports amount on withdrawal. `None` if the amount does
    /// not fit in 64 bits.
    pub fn calc_lamports_withdraw_amount(&self, pool_tokens: u64) -> (r: Option<u64>)
        ensures
            r == checked_u64(self.spec_lamports_withdraw_amount(pool_tokens)),
    {
        proof {
            lemma_u64_product_bound(pool_tokens, self.total_lamports);
        }
        let numerator: u128 = (pool_tokens as u128) * (self.total_lamports as u128);
        let denominator: u128 = self.pool_token_supply as u128;
        if numerator < denominator || denominator == 0 {
            Some(0)
        } else {
            narrow(numerator / denominator)
        }
    }

    /// Calculate pool tokens to be deducted as stake withdrawal fees
    pub fn calc_pool_tokens_stake_withdrawal_fee(&self, pool_tokens: u64) -> (r: Option<u64>)
        ensures
            r == checked_u64(self.stake_withdrawal_fee.spec_apply(pool_tokens)),
    {
        match self.stake_withdrawal_fee.apply(pool_tokens) {
            Some(fee) => narrow(fee),
            None => None,
        }
    }

    /// Calculate pool tokens to be deducted as SOL withdrawal fees
    pub fn calc_pool_tokens_sol_withdrawal_fee(&self, pool_tokens: u64) -> (r: Option<u64>)
        ensures
            r == checked_u64(self.sol_withdrawal_fee.spec_apply(pool_tokens)),
    {
        match self.sol_withdrawal_fee.apply(pool_tokens) {
            Some(fee) => narrow(fee),
            None => None,
        }
    }

    /// Calculate pool tokens to be deducted as stake deposit fees
    pub fn calc_pool_tokens_stake_deposit_fee(&self, pool_tokens_minted: u64) -> (r: Option<u64>)
        ensures
            r == checked_u64(self.stake_deposit_fee.spec_apply(pool_tokens_minted)),
    {
        match self.stake_deposit_fee.apply(pool_tokens_minted) {
            Some(fee) => narrow(fee),
            None => None,
        }
    }

    /// Calculate pool tokens to be deducted from deposit fees as referral fees
    pub fn calc_pool_tokens_stake_referral_fee(&self, stake_deposit_fee: u64) -> (r: Option<u64>)
        ensures
            r == checked_u64(spec_referral_share(stake_deposit_fee, self.stake_referral_fee)),
    {
        referral_share(stake_deposit_fee, self.stake_referral_fee)
    }

    /// Calculate pool tokens to be deducted as SOL deposit fees
    pub fn calc_pool_tokens_sol_deposit_fee(&self, pool_tokens_minted: u64) -> (r: Option<u64>)
        ensures
            r == checked_u64(self.sol_deposit_fee.spec_apply(pool_tokens_minted)),
    {
        match self.sol_deposit_fee.apply(pool_tokens_minted) {
            Some(fee) => narrow(fee),
            None => None,
        }
    }

    /// Calculate pool tokens to be deducted from SOL deposit fees as referral
    /// fees
    pub fn calc_pool_tokens_sol_referral_fee(&self, sol_deposit_fee: u64) -> (r: Option<u64>)
        ensures
            r == checked_u64(spec_referral_share(sol_deposit_fee, self.sol_referral_fee)),
    {
        referral_share(sol_deposit_fee, self.sol_referral_fee)
    }

    /// Calculate the fee in pool tokens that goes to the manager
    ///
    /// This function assumes that `reward_lamports` has not already been added
    /// to the stake pool's `total_lamports`
    pub fn calc_epoch_fee_amount(&self, reward_lamports: u64) -> (r: Option<u64>)
        ensures
            r == self.spec_epoch_fee_amount(reward_lamports),
    {
        if reward_lamports == 0 {
            return Some(0);
        }
        let total_lamports: u128 = (self.total_lamports as u128) + (reward_lamports as u128);
        let fee_lamports: u128 = match self.epoch_fee.apply(reward_lamports) {
            Some(fee) => fee,
            None => {
                return None;
            },
        };
        if total_lamports == fee_lamports || self.pool_token_supply == 0 {
            Some(reward_lamports)
        } else {
            let product = match (self.pool_token_supply as u128).checked_mul(fee_lamports) {
                Some(p) => p,
                None => {
                    return None;
                },
            };
            if fee_lamports > total_lamports {
                return None;
            }
            narrow(product / (total_lamports - fee_lamports))
        }
    }

    /// Get the current value of pool tokens, rounded up
    pub fn get_lamports_per_pool_token(&self) -> (r: Option<u64>)
        ensures
            r == self.spec_lamports_per_pool_token(),
    {
        let sum = match self.total_lamports.checked_add(self.pool_token_supply) {
            Some(s) => s,
            None => {
                return None;
            },
        };
        if sum == 0 || self.pool_token_supply == 0 {
            return None;
        }
        proof {
            lemma_div_bounds(sum - 1, self.pool_token_supply as int);
            assert((sum - 1) / (self.pool_token_supply as int) <= sum - 1) by (nonlinear_arith)
                requires
                    ((sum - 1) / (self.pool_token_supply as int)) * self.pool_token_supply <= sum
                        - 1,
                    self.pool_token_supply >= 1,
                    (sum - 1) / (self.pool_token_supply as int) >= 0,
            ;
        }
        Some((sum - 1) / self.pool_token_supply)
    }

    /// Check if `StakePool` is actually initialized as a stake pool
    pub fn is_valid(&self) -> (r: bool)
        ensures
            r == (self.account_type == AccountType::StakePool),
    {
        self.account_type == AccountType::StakePool
    }

    /// Check if `StakePool` is currently uninitialized
    pub fn is_uninitialized(&self) -> (r: bool)
        ensures
            r == (self.account_type == AccountType::Uninitialized),
    {
        self.account_type == AccountType::Uninitialized
    }
}

} // verus!
