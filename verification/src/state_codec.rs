//! The byte layout of the pool record and of the validator list.

use vstd::prelude::*;
use crate::codec::{
    enc_i64, enc_option_pubkey, enc_pubkey, enc_u32, enc_u64, enc_u8, lemma_concat_assoc,
    lemma_take_i64_encodes, lemma_take_i64_of_encoding, lemma_take_option_pubkey_encodes,
    lemma_take_option_pubkey_of_encoding, lemma_take_pubkey_encodes,
    lemma_take_pubkey_of_encoding, lemma_take_u32_encodes, lemma_take_u32_of_encoding,
    lemma_take_u64_encodes, lemma_take_u64_of_encoding, lemma_take_u8_encodes,
    lemma_take_u8_of_encoding, read_i64, read_matches, read_option_pubkey, read_pubkey, read_u32,
    read_u64, read_u8, rest_of, take_i64, take_option_pubkey, take_pubkey, take_u32, take_u64,
    take_u8, value_of, write_i64, write_option_pubkey, write_pubkey, write_u32, write_u64,
    write_u8,
};
use crate::error::ProgramError;
use crate::fee::{Fee, FutureEpochFee};
use crate::pool::{AccountType, Lockup, StakePool};
use crate::validator::{
    read_validator_stake_info, take_validator_stake_info, write_validator_stake_info,
    ValidatorStakeInfo,
};
use crate::validator_list::{ValidatorList, ValidatorListHeader};

verus! {

/// The tag of an account type.
pub open spec fn account_type_tag(v: AccountType) -> u8 {
    match v {
        AccountType::Uninitialized => 0,
        AccountType::StakePool => 1,
        AccountType::ValidatorList => 2,
    }
}

/// The encoding of an account type: its tag.
pub open spec fn enc_account_type(v: AccountType) -> Seq<u8> {
    enc_u8(account_type_tag(v))
}

/// Reads an account type. A tag above 2 is malformed.
pub open spec fn take_account_type(s: Seq<u8>) -> Option<(AccountType, Seq<u8>)> {
    match take_u8(s) {
        Some((tag, rest)) => if tag == 0 {
            Some((AccountType::Uninitialized, rest))
        } else if tag == 1 {
            Some((AccountType::StakePool, rest))
        } else if tag == 2 {
            Some((AccountType::ValidatorList, rest))
        } else {
            None
        },
        None => None,
    }
}

/// Reading an account type off its encoding, whatever follows it, gives it back.
pub proof fn lemma_take_account_type_of_encoding(v: AccountType, rest: Seq<u8>)
    ensures
        take_account_type(enc_account_type(v) + rest) == Some((v, rest)),
{
    lemma_take_u8_of_encoding(account_type_tag(v), rest);
}

/// What was read as an account type is, byte for byte, its encoding.
pub proof fn lemma_take_account_type_encodes(s: Seq<u8>)
    ensures
        take_account_type(s) matches Some((v, rest)) ==> s == enc_account_type(v) + rest,
{
    lemma_take_u8_encodes(s);
}

/// Reads an account type at `pos`.
pub fn read_account_type(data: &[u8], pos: usize) -> (r: Option<(AccountType, usize)>)
    requires
        pos <= data@.len(),
    ensures
        read_matches(r, take_account_type(data@.skip(pos as int)), data@),
{
    match read_u8(data, pos) {
        Some((tag, next)) => {
            if tag == 0 {
                Some((AccountType::Uninitialized, next))
            } else if tag == 1 {
                Some((AccountType::StakePool, next))
            } else if tag == 2 {
                Some((AccountType::ValidatorList, next))
            } else {
                None
            }
        },
        None => None,
    }
}

/// Appends an account type.
pub fn write_account_type(out: &mut Vec<u8>, v: AccountType)
    ensures
        final(out)@ == old(out)@ + enc_account_type(v),
{
    let tag: u8 = match v {
        AccountType::Uninitialized => 0,
        AccountType::StakePool => 1,
        AccountType::ValidatorList => 2,
    };
    write_u8(out, tag);
}

/// The encoding of a fee: the denominator, then the numerator.
pub open spec fn enc_fee(v: Fee) -> Seq<u8> {
    enc_u64(v.denominator) + enc_u64(v.numerator)
}

/// Reads a fee.
pub open spec fn take_fee(s: Seq<u8>) -> Option<(Fee, Seq<u8>)> {
    match take_u64(s) {
        Some((denominator, s1)) => match take_u64(s1) {
            Some((numerator, s2)) => Some((Fee { denominator, numerator }, s2)),
            None => None,
        },
        None => None,
    }
}

/// Reading a fee off its encoding, whatever follows it, gives it back.
pub proof fn lemma_take_fee_of_encoding(v: Fee, rest: Seq<u8>)
    ensures
        take_fee(enc_fee(v) + rest) == Some((v, rest)),
{
    lemma_concat_assoc(enc_u64(v.denominator), enc_u64(v.numerator), rest);
    lemma_take_u64_of_encoding(v.denominator, enc_u64(v.numerator) + rest);
    lemma_take_u64_of_encoding(v.numerator, rest);
}

/// What was read as a fee is, byte for byte, its encoding.
pub proof fn lemma_take_fee_encodes(s: Seq<u8>)
    ensures
        take_fee(s) matches Some((v, rest)) ==> s == enc_fee(v) + rest,
{
    lemma_take_u64_encodes(s);
    let s1 = rest_of(take_u64(s));
    lemma_take_u64_encodes(s1);
    if let Some((v, rest)) = take_fee(s) {
        lemma_concat_assoc(enc_u64(v.denominator), enc_u64(v.numerator), rest);
    }
}

/// Reads a fee at `pos`.
pub fn read_fee(data: &[u8], pos: usize) -> (r: Option<(Fee, usize)>)
    requires
        pos <= data@.len(),
    ensures
        read_matches(r, take_fee(data@.skip(pos as int)), data@),
{
    let (denominator, pos) = match read_u64(data, pos) {
        Some(v) => v,
        None => {
            return None;
        },
    };
    let (numerator, pos) = match read_u64(data, pos) {
        Some(v) => v,
        None => {
            return None;
        },
    };
    Some((Fee { denominator, numerator }, pos))
}

/// Appends a fee.
pub fn write_fee(out: &mut Vec<u8>, v: &Fee)
    ensures
        final(out)@ == old(out)@ + enc_fee(*v),
{
    write_u64(out, v.denominator);
    write_u64(out, v.numerator);
    proof {
        lemma_concat_assoc(old(out)@, enc_u64(v.denominator), enc_u64(v.numerator));
    }
}

/// The encoding of a pending fee: a tag for the countdown, then the fee
/// unless nothing is pending.
pub open spec fn enc_future_epoch_fee(v: FutureEpochFee) -> Seq<u8> {
    match v {
        FutureEpochFee::Unset => enc_u8(0),
        FutureEpochFee::One(fee) => enc_u8(1) + enc_fee(fee),
        FutureEpochFee::Two(fee) => enc_u8(2) + enc_fee(fee),
    }
}

/// Reads a pending fee. A tag above 2 is malformed.
pub open spec fn take_future_epoch_fee(s: Seq<u8>) -> Option<(FutureEpochFee, Seq<u8>)> {
    match take_u8(s) {
        Some((tag, rest)) => if tag == 0 {
            Some((FutureEpochFee::Unset, rest))
        } else if tag == 1 {
            match take_fee(rest) {
                Some((fee, after)) => Some((FutureEpochFee::One(fee), after)),
                None => None,
            }
        } else if tag == 2 {
            match take_fee(rest) {
                Some((fee, after)) => Some((FutureEpochFee::Two(fee), after)),
                None => None,
            }
        } else {
            None
        },
        None => None,
    }
}

/// Reading a pending fee off its encoding, whatever follows it, gives it back.
pub proof fn lemma_take_future_epoch_fee_of_encoding(v: FutureEpochFee, rest: Seq<u8>)
    ensures
        take_future_epoch_fee(enc_future_epoch_fee(v) + rest) == Some((v, rest)),
{
    match v {
        FutureEpochFee::Unset => {
            lemma_take_u8_of_encoding(0, rest);
        },
        FutureEpochFee::One(fee) => {
            lemma_concat_assoc(enc_u8(1), enc_fee(fee), rest);
            lemma_take_u8_of_encoding(1, enc_fee(fee) + rest);
            lemma_take_fee_of_encoding(fee, rest);
        },
        FutureEpochFee::Two(fee) => {
            lemma_concat_assoc(enc_u8(2), enc_fee(fee), rest);
            lemma_take_u8_of_encoding(2, enc_fee(fee) + rest);
            lemma_take_fee_of_encoding(fee, rest);
        },
    }
}

/// What was read as a pending fee is, byte for byte, its encoding.
pub proof fn lemma_take_future_epoch_fee_encodes(s: Seq<u8>)
    ensures
        take_future_epoch_fee(s) matches Some((v, rest)) ==> s == enc_future_epoch_fee(v) + rest,
{
    lemma_take_u8_encodes(s);
    if let Some((tag, after_tag)) = take_u8(s) {
        lemma_take_fee_encodes(after_tag);
        if let Some((fee, rest)) = take_fee(after_tag) {
            lemma_concat_assoc(enc_u8(tag), enc_fee(fee), rest);
        }
    }
}

/// Reads a pending fee at `pos`.
pub fn read_future_epoch_fee(data: &[u8], pos: usize) -> (r: Option<(FutureEpochFee, usize)>)
    requires
        pos <= data@.len(),
    ensures
        read_matches(r, take_future_epoch_fee(data@.skip(pos as int)), data@),
{
    match read_u8(data, pos) {
        Some((tag, next)) => {
            if tag == 0 {
                Some((FutureEpochFee::Unset, next))
            } else if tag == 1 {
                match read_fee(data, next) {
                    Some((fee, after)) => Some((FutureEpochFee::One(fee), after)),
                    None => None,
                }
            } else if tag == 2 {
                match read_fee(data, next) {
                    Some((fee, after)) => Some((FutureEpochFee::Two(fee), after)),
                    None => None,
                }
            } else {
                None
            }
        },
        None => None,
    }
}

/// Appends a pending fee.
pub fn write_future_epoch_fee(out: &mut Vec<u8>, v: &FutureEpochFee)
    ensures
        final(out)@ == old(out)@ + enc_future_epoch_fee(*v),
{
    match v {
        FutureEpochFee::Unset => {
            write_u8(out, 0);
        },
        FutureEpochFee::One(fee) => {
            write_u8(out, 1);
            write_fee(out, fee);
            proof {
                lemma_concat_assoc(old(out)@, enc_u8(1), enc_fee(*fee));
            }
        },
        FutureEpochFee::Two(fee) => {
            write_u8(out, 2);
            write_fee(out, fee);
            proof {
                lemma_concat_assoc(old(out)@, enc_u8(2), enc_fee(*fee));
            }
        },
    }
}

/// The encoding of a lockup: the timestamp, the epoch, the custodian.
pub open spec fn enc_lockup(v: Lockup) -> Seq<u8> {
    enc_i64(v.unix_timestamp) + (enc_u64(v.epoch) + enc_pubkey(v.custodian))
}

/// Reads a lockup.
pub open spec fn take_lockup(s: Seq<u8>) -> Option<(Lockup, Seq<u8>)> {
    match take_i64(s) {
        Some((unix_timestamp, s1)) => match take_u64(s1) {
            Some((epoch, s2)) => match take_pubkey(s2) {
                Some((custodian, s3)) => Some((Lockup { unix_timestamp, epoch, custodian }, s3)),
                None => None,
            },
            None => None,
        },
        None => None,
    }
}

/// Reading a lockup off its encoding, whatever follows it, gives it back.
pub proof fn lemma_take_lockup_of_encoding(v: Lockup, rest: Seq<u8>)
    ensures
        take_lockup(enc_lockup(v) + rest) == Some((v, rest)),
{
    lemma_concat_assoc(enc_u64(v.epoch), enc_pubkey(v.custodian), rest);
    lemma_concat_assoc(
        enc_i64(v.unix_timestamp),
        enc_u64(v.epoch) + enc_pubkey(v.custodian),
        rest,
    );
    lemma_take_i64_of_encoding(v.unix_timestamp, enc_u64(v.epoch) + (enc_pubkey(v.custodian) + rest));
    lemma_take_u64_of_encoding(v.epoch, enc_pubkey(v.custodian) + rest);
    lemma_take_pubkey_of_encoding(v.custodian, rest);
}

/// What was read as a lockup is, byte for byte, its encoding.
pub proof fn lemma_take_lockup_encodes(s: Seq<u8>)
    ensures
        take_lockup(s) matches Some((v, rest)) ==> s == enc_lockup(v) + rest,
{
    lemma_take_i64_encodes(s);
    let s1 = rest_of(take_i64(s));
    lemma_take_u64_encodes(s1);
    let s2 = rest_of(take_u64(s1));
    lemma_take_pubkey_encodes(s2);
    if let Some((v, rest)) = take_lockup(s) {
        lemma_concat_assoc(enc_u64(v.epoch), enc_pubkey(v.custodian), rest);
        lemma_concat_assoc(
            enc_i64(v.unix_timestamp),
            enc_u64(v.epoch) + enc_pubkey(v.custodian),
            rest,
        );
    }
}

/// Reads a lockup at `pos`.
pub fn read_lockup(data: &[u8], pos: usize) -> (r: Option<(Lockup, usize)>)
    requires
        pos <= data@.len(),
    ensures
        read_matches(r, take_lockup(data@.skip(pos as int)), data@),
{
    let (unix_timestamp, pos) = match read_i64(data, pos) {
        Some(v) => v,
        None => {
            return None;
        },
    };
    let (epoch, pos) = match read_u64(data, pos) {
        Some(v) => v,
        None => {
            return None;
        },
    };
    let (custodian, pos) = match read_pubkey(data, pos) {
        Some(v) => v,
        None => {
            return None;
        },
    };
    Some((Lockup { unix_timestamp, epoch, custodian }, pos))
}

/// Appends a lockup.
pub fn write_lockup(out: &mut Vec<u8>, v: &Lockup)
    ensures
        final(out)@ == old(out)@ + enc_lockup(*v),
{
    write_i64(out, v.unix_timestamp);
    write_u64(out, v.epoch);
    write_pubkey(out, &v.custodian);
    assert(out@ =~= old(out)@ + enc_lockup(*v));
}

/// The first ten fields of a pool record, encoded and followed by `tail`: the
/// account type, the authorities and the accounts that the pool works with.
pub open spec fn enc_pool_accounts(pool: StakePool, tail: Seq<u8>) -> Seq<u8> {
    enc_account_type(pool.account_type)
        + (enc_pubkey(pool.manager)
            + (enc_pubkey(pool.staker)
                + (enc_pubkey(pool.stake_deposit_authority)
                    + (enc_u8(pool.stake_withdraw_bump_seed)
                        + (enc_pubkey(pool.validator_list)
                            + (enc_pubkey(pool.reserve_stake)
                                + (enc_pubkey(pool.pool_mint)
                                    + (enc_pubkey(pool.manager_fee_account)
                                        + (enc_pubkey(pool.token_program_id)
                                            + tail)))))))))
}

/// The next ten fields of a pool record, encoded and followed by `tail`: the
/// balance, the lockup, the epoch fee, the preferred validators and the
/// fees on stake.
pub open spec fn enc_pool_balance(pool: StakePool, tail: Seq<u8>) -> Seq<u8> {
    enc_u64(pool.total_lamports)
        + (enc_u64(pool.pool_token_supply)
            + (enc_u64(pool.last_update_epoch)
                + (enc_lockup(pool.lockup)
                    + (enc_fee(pool.epoch_fee)
                        + (enc_future_epoch_fee(pool.next_epoch_fee)
                            + (enc_option_pubkey(pool.preferred_deposit_validator_vote_address)
                                + (enc_option_pubkey(pool.preferred_withdraw_validator_vote_address)
                                    + (enc_fee(pool.stake_deposit_fee)
                                        + (enc_fee(pool.stake_withdrawal_fee)
                                            + tail)))))))))
}

/// The last ten fields of a pool record, encoded and followed by `tail`: the
/// pending stake withdrawal fee, the referral fees, the authorities and
/// fees for SOL, and last epoch's balance.
pub open spec fn enc_pool_sol_fees(pool: StakePool, tail: Seq<u8>) -> Seq<u8> {
    enc_future_epoch_fee(pool.next_stake_withdrawal_fee)
        + (enc_u8(pool.stake_referral_fee)
            + (enc_option_pubkey(pool.sol_deposit_authority)
                + (enc_fee(pool.sol_deposit_fee)
                    + (enc_u8(pool.sol_referral_fee)
                        + (enc_option_pubkey(pool.sol_withdraw_authority)
                            + (enc_fee(pool.sol_withdrawal_fee)
                                + (enc_future_epoch_fee(pool.next_sol_withdrawal_fee)
                                    + (enc_u64(pool.last_epoch_pool_token_supply)
                                        + (enc_u64(pool.last_epoch_total_lamports)
                                            + tail)))))))))
}

/// The encoding of a pool record followed by `tail`: the fields in their
/// order, each in the encoding of its kind.
pub open spec fn enc_stake_pool(pool: StakePool, tail: Seq<u8>) -> Seq<u8> {
    enc_pool_accounts(pool, enc_pool_balance(pool, enc_pool_sol_fees(pool, tail)))
}

/// Reads a pool record off the front of a sequence: field after field,
/// each from where the one before it ended.
pub open spec fn take_stake_pool(s: Seq<u8>) -> Option<(StakePool, Seq<u8>)> {
    let account_type = take_account_type(s);
    let manager = take_pubkey(rest_of(account_type));
    let staker = take_pubkey(rest_of(manager));
    let stake_deposit_authority = take_pubkey(rest_of(staker));
    let stake_withdraw_bump_seed = take_u8(rest_of(stake_deposit_authority));
    let validator_list = take_pubkey(rest_of(stake_withdraw_bump_seed));
    let reserve_stake = take_pubkey(rest_of(validator_list));
    let pool_mint = take_pubkey(rest_of(reserve_stake));
    let manager_fee_account = take_pubkey(rest_of(pool_mint));
    let token_program_id = take_pubkey(rest_of(manager_fee_account));
    let total_lamports = take_u64(rest_of(token_program_id));
    let pool_token_supply = take_u64(rest_of(total_lamports));
    let last_update_epoch = take_u64(rest_of(pool_token_supply));
    let lockup = take_lockup(rest_of(last_update_epoch));
    let epoch_fee = take_fee(rest_of(lockup));
    let next_epoch_fee = take_future_epoch_fee(rest_of(epoch_fee));
    let preferred_deposit_validator_vote_address = take_option_pubkey(rest_of(next_epoch_fee));
    let preferred_withdraw_validator_vote_address = take_option_pubkey(rest_of(preferred_deposit_validator_vote_address));
    let stake_deposit_fee = take_fee(rest_of(preferred_withdraw_validator_vote_address));
    let stake_withdrawal_fee = take_fee(rest_of(stake_deposit_fee));
    let next_stake_withdrawal_fee = take_future_epoch_fee(rest_of(stake_withdrawal_fee));
    let stake_referral_fee = take_u8(rest_of(next_stake_withdrawal_fee));
    let sol_deposit_authority = take_option_pubkey(rest_of(stake_referral_fee));
    let sol_deposit_fee = take_fee(rest_of(sol_deposit_authority));
    let sol_referral_fee = take_u8(rest_of(sol_deposit_fee));
    let sol_withdraw_authority = take_option_pubkey(rest_of(sol_referral_fee));
    let sol_withdrawal_fee = take_fee(rest_of(sol_withdraw_authority));
    let next_sol_withdrawal_fee = take_future_epoch_fee(rest_of(sol_withdrawal_fee));
    let last_epoch_pool_token_supply = take_u64(rest_of(next_sol_withdrawal_fee));
    let last_epoch_total_lamports = take_u64(rest_of(last_epoch_pool_token_supply));
    let complete = {
        &&& account_type is Some
        &&& manager is Some
        &&& staker is Some
        &&& stake_deposit_authority is Some
        &&& stake_withdraw_bump_seed is Some
        &&& validator_list is Some
        &&& reserve_stake is Some
        &&& pool_mint is Some
        &&& manager_fee_account is Some
        &&& token_program_id is Some
        &&& total_lamports is Some
        &&& pool_token_supply is Some
        &&& last_update_epoch is Some
        &&& lockup is Some
        &&& epoch_fee is Some
        &&& next_epoch_fee is Some
        &&& preferred_deposit_validator_vote_address is Some
        &&& preferred_withdraw_validator_vote_address is Some
        &&& stake_deposit_fee is Some
        &&& stake_withdrawal_fee is Some
        &&& next_stake_withdrawal_fee is Some
        &&& stake_referral_fee is Some
        &&& sol_deposit_authority is Some
        &&& sol_deposit_fee is Some
        &&& sol_referral_fee is Some
        &&& sol_withdraw_authority is Some
        &&& sol_withdrawal_fee is Some
        &&& next_sol_withdrawal_fee is Some
        &&& last_epoch_pool_token_supply is Some
        &&& last_epoch_total_lamports is Some
    };
    if complete {
        Some(
            (
                StakePool {
                    account_type: value_of(account_type),
                    manager: value_of(manager),
                    staker: value_of(staker),
                    stake_deposit_authority: value_of(stake_deposit_authority),
                    stake_withdraw_bump_seed: value_of(stake_withdraw_bump_seed),
                    validator_list: value_of(validator_list),
                    reserve_stake: value_of(reserve_stake),
                    pool_mint: value_of(pool_mint),
                    manager_fee_account: value_of(manager_fee_account),
                    token_program_id: value_of(token_program_id),
                    total_lamports: value_of(total_lamports),
                    pool_token_supply: value_of(pool_token_supply),
                    last_update_epoch: value_of(last_update_epoch),
                    lockup: value_of(lockup),
                    epoch_fee: value_of(epoch_fee),
                    next_epoch_fee: value_of(next_epoch_fee),
                    preferred_deposit_validator_vote_address: value_of(preferred_deposit_validator_vote_address),
                    preferred_withdraw_validator_vote_address: value_of(preferred_withdraw_validator_vote_address),
                    stake_deposit_fee: value_of(stake_deposit_fee),
                    stake_withdrawal_fee: value_of(stake_withdrawal_fee),
                    next_stake_withdrawal_fee: value_of(next_stake_withdrawal_fee),
                    stake_referral_fee: value_of(stake_referral_fee),
                    sol_deposit_authority: value_of(sol_deposit_authority),
                    sol_deposit_fee: value_of(sol_deposit_fee),
                    sol_referral_fee: value_of(sol_referral_fee),
                    sol_withdraw_authority: value_of(sol_withdraw_authority),
                    sol_withdrawal_fee: value_of(sol_withdrawal_fee),
                    next_sol_withdrawal_fee: value_of(next_sol_withdrawal_fee),
                    last_epoch_pool_token_supply: value_of(last_epoch_pool_token_supply),
                    last_epoch_total_lamports: value_of(last_epoch_total_lamports),
                },
                rest_of(last_epoch_total_lamports),
            ),
        )
    } else {
        None
    }
}

/// Reading an encoded pool record, whatever follows it, gives the record
/// back.
pub proof fn lemma_take_stake_pool_of_encoding(pool: StakePool, tail: Seq<u8>)
    ensures
        take_stake_pool(enc_stake_pool(pool, tail)) == Some((pool, tail)),
{
    let t30 = tail;
    let t29 = enc_u64(pool.last_epoch_total_lamports) + t30;
    let t28 = enc_u64(pool.last_epoch_pool_token_supply) + t29;
    let t27 = enc_future_epoch_fee(pool.next_sol_withdrawal_fee) + t28;
    let t26 = enc_fee(pool.sol_withdrawal_fee) + t27;
    let t25 = enc_option_pubkey(pool.sol_withdraw_authority) + t26;
    let t24 = enc_u8(pool.sol_referral_fee) + t25;
    let t23 = enc_fee(pool.sol_deposit_fee) + t24;
    let t22 = enc_option_pubkey(pool.sol_deposit_authority) + t23;
    let t21 = enc_u8(pool.stake_referral_fee) + t22;
    let t20 = enc_future_epoch_fee(pool.next_stake_withdrawal_fee) + t21;
    let t19 = enc_fee(pool.stake_withdrawal_fee) + t20;
    let t18 = enc_fee(pool.stake_deposit_fee) + t19;
    let t17 = enc_option_pubkey(pool.preferred_withdraw_validator_vote_address) + t18;
    let t16 = enc_option_pubkey(pool.preferred_deposit_validator_vote_address) + t17;
    let t15 = enc_future_epoch_fee(pool.next_epoch_fee) + t16;
    let t14 = enc_fee(pool.epoch_fee) + t15;
    let t13 = enc_lockup(pool.lockup) + t14;
    let t12 = enc_u64(pool.last_update_epoch) + t13;
    let t11 = enc_u64(pool.pool_token_supply) + t12;
    let t10 = enc_u64(pool.total_lamports) + t11;
    let t9 = enc_pubkey(pool.token_program_id) + t10;
    let t8 = enc_pubkey(pool.manager_fee_account) + t9;
    let t7 = enc_pubkey(pool.pool_mint) + t8;
    let t6 = enc_pubkey(pool.reserve_stake) + t7;
    let t5 = enc_pubkey(pool.validator_list) + t6;
    let t4 = enc_u8(pool.stake_withdraw_bump_seed) + t5;
    let t3 = enc_pubkey(pool.stake_deposit_authority) + t4;
    let t2 = enc_pubkey(pool.staker) + t3;
    let t1 = enc_pubkey(pool.manager) + t2;
    let t0 = enc_account_type(pool.account_type) + t1;
    lemma_take_account_type_of_encoding(pool.account_type, t1);
    lemma_take_pubkey_of_encoding(pool.manager, t2);
    lemma_take_pubkey_of_encoding(pool.staker, t3);
    lemma_take_pubkey_of_encoding(pool.stake_deposit_authority, t4);
    lemma_take_u8_of_encoding(pool.stake_withdraw_bump_seed, t5);
    lemma_take_pubkey_of_encoding(pool.validator_list, t6);
    lemma_take_pubkey_of_encoding(pool.reserve_stake, t7);
    lemma_take_pubkey_of_encoding(pool.pool_mint, t8);
    lemma_take_pubkey_of_encoding(pool.manager_fee_account, t9);
    lemma_take_pubkey_of_encoding(pool.token_program_id, t10);
    lemma_take_u64_of_encoding(pool.total_lamports, t11);
    lemma_take_u64_of_encoding(pool.pool_token_supply, t12);
    lemma_take_u64_of_encoding(pool.last_update_epoch, t13);
    lemma_take_lockup_of_encoding(pool.lockup, t14);
    lemma_take_fee_of_encoding(pool.epoch_fee, t15);
    lemma_take_future_epoch_fee_of_encoding(pool.next_epoch_fee, t16);
    lemma_take_option_pubkey_of_encoding(pool.preferred_deposit_validator_vote_address, t17);
    lemma_take_option_pubkey_of_encoding(pool.preferred_withdraw_validator_vote_address, t18);
    lemma_take_fee_of_encoding(pool.stake_deposit_fee, t19);
    lemma_take_fee_of_encoding(pool.stake_withdrawal_fee, t20);
    lemma_take_future_epoch_fee_of_encoding(pool.next_stake_withdrawal_fee, t21);
    lemma_take_u8_of_encoding(pool.stake_referral_fee, t22);
    lemma_take_option_pubkey_of_encoding(pool.sol_deposit_authority, t23);
    lemma_take_fee_of_encoding(pool.sol_deposit_fee, t24);
    lemma_take_u8_of_encoding(pool.sol_referral_fee, t25);
    lemma_take_option_pubkey_of_encoding(pool.sol_withdraw_authority, t26);
    lemma_take_fee_of_encoding(pool.sol_withdrawal_fee, t27);
    lemma_take_future_epoch_fee_of_encoding(pool.next_sol_withdrawal_fee, t28);
    lemma_take_u64_of_encoding(pool.last_epoch_pool_token_supply, t29);
    lemma_take_u64_of_encoding(pool.last_epoch_total_lamports, t30);
    assert(enc_stake_pool(pool, tail) == t0);
}

/// What was read as a pool record is, byte for byte, that record encoded.
pub proof fn lemma_take_stake_pool_encodes(s: Seq<u8>)
    ensures
        take_stake_pool(s) matches Some((pool, rest)) ==> s == enc_stake_pool(pool, rest),
{
    if take_stake_pool(s) is Some {
        lemma_take_account_type_encodes(s);
        let s1 = rest_of(take_account_type(s));
        lemma_take_pubkey_encodes(s1);
        let s2 = rest_of(take_pubkey(s1));
        lemma_take_pubkey_encodes(s2);
        let s3 = rest_of(take_pubkey(s2));
        lemma_take_pubkey_encodes(s3);
        let s4 = rest_of(take_pubkey(s3));
        lemma_take_u8_encodes(s4);
        let s5 = rest_of(take_u8(s4));
        lemma_take_pubkey_encodes(s5);
        let s6 = rest_of(take_pubkey(s5));
        lemma_take_pubkey_encodes(s6);
        let s7 = rest_of(take_pubkey(s6));
        lemma_take_pubkey_encodes(s7);
        let s8 = rest_of(take_pubkey(s7));
        lemma_take_pubkey_encodes(s8);
        let s9 = rest_of(take_pubkey(s8));
        lemma_take_pubkey_encodes(s9);
        let s10 = rest_of(take_pubkey(s9));
        lemma_take_u64_encodes(s10);
        let s11 = rest_of(take_u64(s10));
        lemma_take_u64_encodes(s11);
        let s12 = rest_of(take_u64(s11));
        lemma_take_u64_encodes(s12);
        let s13 = rest_of(take_u64(s12));
        lemma_take_lockup_encodes(s13);
        let s14 = rest_of(take_lockup(s13));
        lemma_take_fee_encodes(s14);
        let s15 = rest_of(take_fee(s14));
        lemma_take_future_epoch_fee_encodes(s15);
        let s16 = rest_of(take_future_epoch_fee(s15));
        lemma_take_option_pubkey_encodes(s16);
        let s17 = rest_of(take_option_pubkey(s16));
        lemma_take_option_pubkey_encodes(s17);
        let s18 = rest_of(take_option_pubkey(s17));
        lemma_take_fee_encodes(s18);
        let s19 = rest_of(take_fee(s18));
        lemma_take_fee_encodes(s19);
        let s20 = rest_of(take_fee(s19));
        lemma_take_future_epoch_fee_encodes(s20);
        let s21 = rest_of(take_future_epoch_fee(s20));
        lemma_take_u8_encodes(s21);
        let s22 = rest_of(take_u8(s21));
        lemma_take_option_pubkey_encodes(s22);
        let s23 = rest_of(take_option_pubkey(s22));
        lemma_take_fee_encodes(s23);
        let s24 = rest_of(take_fee(s23));
        lemma_take_u8_encodes(s24);
        let s25 = rest_of(take_u8(s24));
        lemma_take_option_pubkey_encodes(s25);
        let s26 = rest_of(take_option_pubkey(s25));
        lemma_take_fee_encodes(s26);
        let s27 = rest_of(take_fee(s26));
        lemma_take_future_epoch_fee_encodes(s27);
        let s28 = rest_of(take_future_epoch_fee(s27));
        lemma_take_u64_encodes(s28);
        let s29 = rest_of(take_u64(s28));
        lemma_take_u64_encodes(s29);
        let s30 = rest_of(take_u64(s29));
    }
}

/// Reads a pool record at `pos`.
pub fn read_stake_pool(data: &[u8], pos: usize) -> (r: Option<(StakePool, usize)>)
    requires
        pos <= data@.len(),
    ensures
        read_matches(r, take_stake_pool(data@.skip(pos as int)), data@),
{
    let (account_type, pos) = match read_account_type(data, pos) {
        Some(v) => v,
        None => {
            return None;
        },
    };
    let (manager, pos) = match read_pubkey(data, pos) {
        Some(v) => v,
        None => {
            return None;
        },
    };
    let (staker, pos) = match read_pubkey(data, pos) {
        Some(v) => v,
        None => {
            return None;
        },
    };
    let (stake_deposit_authority, pos) = match read_pubkey(data, pos) {
        Some(v) => v,
        None => {
            return None;
        },
    };
    let (stake_withdraw_bump_seed, pos) = match read_u8(data, pos) {
        Some(v) => v,
        None => {
            return None;
        },
    };
    let (validator_list, pos) = match read_pubkey(data, pos) {
        Some(v) => v,
        None => {
            return None;
        },
    };
    let (reserve_stake, pos) = match read_pubkey(data, pos) {
        Some(v) => v,
        None => {
            return None;
        },
    };
    let (pool_mint, pos) = match read_pubkey(data, pos) {
        Some(v) => v,
        None => {
            return None;
        },
    };
    let (manager_fee_account, pos) = match read_pubkey(data, pos) {
        Some(v) => v,
        None => {
            return None;
        },
    };
    let (token_program_id, pos) = match read_pubkey(data, pos) {
        Some(v) => v,
        None => {
            return None;
        },
    };
    let (total_lamports, pos) = match read_u64(data, pos) {
        Some(v) => v,
        None => {
            return None;
        },
    };
    let (pool_token_supply, pos) = match read_u64(data, pos) {
        Some(v) => v,
        None => {
            return None;
        },
    };
    let (last_update_epoch, pos) = match read_u64(data, pos) {
        Some(v) => v,
        None => {
            return None;
        },
    };
    let (lockup, pos) = match read_lockup(data, pos) {
        Some(v) => v,
        None => {
            return None;
        },
    };
    let (epoch_fee, pos) = match read_fee(data, pos) {
        Some(v) => v,
        None => {
            return None;
        },
    };
    let (next_epoch_fee, pos) = match read_future_epoch_fee(data, pos) {
        Some(v) => v,
        None => {
            return None;
        },
    };
    let (preferred_deposit_validator_vote_address, pos) = match read_option_pubkey(data, pos) {
        Some(v) => v,
        None => {
            return None;
        },
    };
    let (preferred_withdraw_validator_vote_address, pos) = match read_option_pubkey(data, pos) {
        Some(v) => v,
        None => {
            return None;
        },
    };
    let (stake_deposit_fee, pos) = match read_fee(data, pos) {
        Some(v) => v,
        None => {
            return None;
        },
    };
    let (stake_withdrawal_fee, pos) = match read_fee(data, pos) {
        Some(v) => v,
        None => {
            return None;
        },
    };
    let (next_stake_withdrawal_fee, pos) = match read_future_epoch_fee(data, pos) {
        Some(v) => v,
        None => {
            return None;
        },
    };
    let (stake_referral_fee, pos) = match read_u8(data, pos) {
        Some(v) => v,
        None => {
            return None;
        },
    };
    let (sol_deposit_authority, pos) = match read_option_pubkey(data, pos) {
        Some(v) => v,
        None => {
            return None;
        },
    };
    let (sol_deposit_fee, pos) = match read_fee(data, pos) {
        Some(v) => v,
        None => {
            return None;
        },
    };
    let (sol_referral_fee, pos) = match read_u8(data, pos) {
        Some(v) => v,
        None => {
            return None;
        },
    };
    let (sol_withdraw_authority, pos) = match read_option_pubkey(data, pos) {
        Some(v) => v,
        None => {
            return None;
        },
    };
    let (sol_withdrawal_fee, pos) = match read_fee(data, pos) {
        Some(v) => v,
        None => {
            return None;
        },
    };
    let (next_sol_withdrawal_fee, pos) = match read_future_epoch_fee(data, pos) {
        Some(v) => v,
        None => {
            return None;
        },
    };
    let (last_epoch_pool_token_supply, pos) = match read_u64(data, pos) {
        Some(v) => v,
        None => {
            return None;
        },
    };
    let (last_epoch_total_lamports, pos) = match read_u64(data, pos) {
        Some(v) => v,
        None => {
            return None;
        },
    };
    Some(
        (
            StakePool {
                account_type,
                manager,
                staker,
                stake_deposit_authority,
                stake_withdraw_bump_seed,
                validator_list,
                reserve_stake,
                pool_mint,
                manager_fee_account,
                token_program_id,
                total_lamports,
                pool_token_supply,
                last_update_epoch,
                lockup,
                epoch_fee,
                next_epoch_fee,
                preferred_deposit_validator_vote_address,
                preferred_withdraw_validator_vote_address,
                stake_deposit_fee,
                stake_withdrawal_fee,
                next_stake_withdrawal_fee,
                stake_referral_fee,
                sol_deposit_authority,
                sol_deposit_fee,
                sol_referral_fee,
                sol_withdraw_authority,
                sol_withdrawal_fee,
                next_sol_withdrawal_fee,
                last_epoch_pool_token_supply,
                last_epoch_total_lamports,
            },
            pos,
        ),
    )
}

/// Appends the first ten fields of a pool record.
fn write_pool_accounts(out: &mut Vec<u8>, pool: &StakePool, Ghost(tail): Ghost<Seq<u8>>)
    ensures
        final(out)@ + tail == old(out)@ + enc_pool_accounts(*pool, tail),
{
    write_account_type(out, pool.account_type);
    write_pubkey(out, &pool.manager);
    write_pubkey(out, &pool.staker);
    write_pubkey(out, &pool.stake_deposit_authority);
    write_u8(out, pool.stake_withdraw_bump_seed);
    write_pubkey(out, &pool.validator_list);
    write_pubkey(out, &pool.reserve_stake);
    write_pubkey(out, &pool.pool_mint);
    write_pubkey(out, &pool.manager_fee_account);
    write_pubkey(out, &pool.token_program_id);
    assert(out@ + tail =~= old(out)@ + enc_pool_accounts(*pool, tail));
}

/// Appends the middle ten fields of a pool record.
fn write_pool_balance(out: &mut Vec<u8>, pool: &StakePool, Ghost(tail): Ghost<Seq<u8>>)
    ensures
        final(out)@ + tail == old(out)@ + enc_pool_balance(*pool, tail),
{
    write_u64(out, pool.total_lamports);
    write_u64(out, pool.pool_token_supply);
    write_u64(out, pool.last_update_epoch);
    write_lockup(out, &pool.lockup);
    write_fee(out, &pool.epoch_fee);
    write_future_epoch_fee(out, &pool.next_epoch_fee);
    write_option_pubkey(out, &pool.preferred_deposit_validator_vote_address);
    write_option_pubkey(out, &pool.preferred_withdraw_validator_vote_address);
    write_fee(out, &pool.stake_deposit_fee);
    write_fee(out, &pool.stake_withdrawal_fee);
    assert(out@ + tail =~= old(out)@ + enc_pool_balance(*pool, tail));
}

/// Appends the last ten fields of a pool record.
fn write_pool_sol_fees(out: &mut Vec<u8>, pool: &StakePool, Ghost(tail): Ghost<Seq<u8>>)
    ensures
        final(out)@ + tail == old(out)@ + enc_pool_sol_fees(*pool, tail),
{
    write_future_epoch_fee(out, &pool.next_stake_withdrawal_fee);
    write_u8(out, pool.stake_referral_fee);
    write_option_pubkey(out, &pool.sol_deposit_authority);
    write_fee(out, &pool.sol_deposit_fee);
    write_u8(out, pool.sol_referral_fee);
    write_option_pubkey(out, &pool.sol_withdraw_authority);
    write_fee(out, &pool.sol_withdrawal_fee);
    write_future_epoch_fee(out, &pool.next_sol_withdrawal_fee);
    write_u64(out, pool.last_epoch_pool_token_supply);
    write_u64(out, pool.last_epoch_total_lamports);
    assert(out@ + tail =~= old(out)@ + enc_pool_sol_fees(*pool, tail));
}

/// Appends an encoded pool record.
pub fn write_stake_pool(out: &mut Vec<u8>, pool: &StakePool)
    ensures
        final(out)@ == old(out)@ + enc_stake_pool(*pool, Seq::empty()),
{
    let ghost sol_fees = enc_pool_sol_fees(*pool, Seq::empty());
    let ghost balance = enc_pool_balance(*pool, sol_fees);
    write_pool_accounts(out, pool, Ghost(balance));
    write_pool_balance(out, pool, Ghost(sol_fees));
    write_pool_sol_fees(out, pool, Ghost(Seq::empty()));
    assert(out@ + Seq::<u8>::empty() =~= out@);
}

impl StakePool {
    /// The bytes of the record.
    pub open spec fn spec_serialize(&self) -> Seq<u8> {
        enc_stake_pool(*self, Seq::empty())
    }

    /// The record that `data` is the bytes of, if it is those of any.
    pub open spec fn spec_deserialize(data: Seq<u8>) -> Option<StakePool> {
        match take_stake_pool(data) {
            Some((pool, rest)) => if rest.len() == 0 {
                Some(pool)
            } else {
                None
            },
            None => None,
        }
    }

    /// Serializes the record.
    pub fn to_vec(&self) -> (r: Vec<u8>)
        ensures
            r@ == self.spec_serialize(),
    {
        let mut out: Vec<u8> = Vec::new();
        write_stake_pool(&mut out, self);
        assert(out@ =~= self.spec_serialize());
        out
    }

    /// Reads a record from bytes that hold one record and nothing else.
    pub fn try_from_slice(data: &[u8]) -> (r: Result<StakePool, ProgramError>)
        ensures
            match StakePool::spec_deserialize(data@) {
                Some(pool) => r == Ok::<StakePool, ProgramError>(pool),
                None => r == Err::<StakePool, ProgramError>(ProgramError::BorshIoError),
            },
    {
        assert(data@.skip(0) =~= data@);
        match read_stake_pool(data, 0) {
            Some((pool, end)) => {
                if end == data.len() {
                    Ok(pool)
                } else {
                    Err(ProgramError::BorshIoError)
                }
            },
            None => Err(ProgramError::BorshIoError),
        }
    }

    /// Reads a record from the start of `data` and ignores what follows it,
    /// as an account does that is larger than its record.
    pub fn try_from_slice_unchecked(data: &[u8]) -> (r: Result<StakePool, ProgramError>)
        ensures
            match take_stake_pool(data@) {
                Some((pool, _)) => r == Ok::<StakePool, ProgramError>(pool),
                None => r == Err::<StakePool, ProgramError>(ProgramError::BorshIoError),
            },
    {
        assert(data@.skip(0) =~= data@);
        match read_stake_pool(data, 0) {
            Some((pool, _)) => Ok(pool),
            None => Err(ProgramError::BorshIoError),
        }
    }

    /// A record that is serialized and read again is the same record.
    pub proof fn lemma_serialize_then_deserialize(pool: StakePool)
        ensures
            StakePool::spec_deserialize(pool.spec_serialize()) == Some(pool),
    {
        lemma_take_stake_pool_of_encoding(pool, Seq::empty());
    }

    /// Bytes that are read as a record and serialized again are the same
    /// bytes.
    pub proof fn lemma_deserialize_then_serialize(data: Seq<u8>)
        ensures
            StakePool::spec_deserialize(data) matches Some(pool) ==> pool.spec_serialize() == data,
    {
        lemma_take_stake_pool_encodes(data);
        if let Some((pool, rest)) = take_stake_pool(data) {
            if rest.len() == 0 {
                assert(rest =~= Seq::empty());
            }
        }
    }
}

/// The encoding of a list header: the account type, then the capacity.
pub open spec fn enc_validator_list_header(v: ValidatorListHeader) -> Seq<u8> {
    enc_account_type(v.account_type) + enc_u32(v.max_validators)
}

/// Reads a list header.
pub open spec fn take_validator_list_header(s: Seq<u8>) -> Option<(ValidatorListHeader, Seq<u8>)> {
    match take_account_type(s) {
        Some((account_type, s1)) => match take_u32(s1) {
            Some((max_validators, s2)) => Some(
                (ValidatorListHeader { account_type, max_validators }, s2),
            ),
            None => None,
        },
        None => None,
    }
}

/// Reading a list header off its encoding, whatever follows it, gives it back.
pub proof fn lemma_take_validator_list_header_of_encoding(v: ValidatorListHeader, rest: Seq<u8>)
    ensures
        take_validator_list_header(enc_validator_list_header(v) + rest) == Some((v, rest)),
{
    lemma_concat_assoc(enc_account_type(v.account_type), enc_u32(v.max_validators), rest);
    lemma_take_account_type_of_encoding(v.account_type, enc_u32(v.max_validators) + rest);
    lemma_take_u32_of_encoding(v.max_validators, rest);
}

/// What was read as a list header is, byte for byte, its encoding.
pub proof fn lemma_take_validator_list_header_encodes(s: Seq<u8>)
    ensures
        take_validator_list_header(s) matches Some((v, rest)) ==> s == enc_validator_list_header(v)
            + rest,
{
    lemma_take_account_type_encodes(s);
    let s1 = rest_of(take_account_type(s));
    lemma_take_u32_encodes(s1);
    if let Some((v, rest)) = take_validator_list_header(s) {
        lemma_concat_assoc(enc_account_type(v.account_type), enc_u32(v.max_validators), rest);
    }
}

/// Reads a list header at `pos`.
pub fn read_validator_list_header(data: &[u8], pos: usize) -> (r: Option<
    (ValidatorListHeader, usize),
>)
    requires
        pos <= data@.len(),
    ensures
        read_matches(r, take_validator_list_header(data@.skip(pos as int)), data@),
{
    let (account_type, pos) = match read_account_type(data, pos) {
        Some(v) => v,
        None => {
            return None;
        },
    };
    let (max_validators, pos) = match read_u32(data, pos) {
        Some(v) => v,
        None => {
            return None;
        },
    };
    Some((ValidatorListHeader { account_type, max_validators }, pos))
}

/// Appends a list header.
pub fn write_validator_list_header(out: &mut Vec<u8>, v: &ValidatorListHeader)
    ensures
        final(out)@ == old(out)@ + enc_validator_list_header(*v),
{
    write_account_type(out, v.account_type);
    write_u32(out, v.max_validators);
    proof {
        lemma_concat_assoc(old(out)@, enc_account_type(v.account_type), enc_u32(v.max_validators));
    }
}

impl ValidatorListHeader {
    /// The five bytes of the header.
    pub open spec fn spec_serialize(&self) -> Seq<u8> {
        enc_validator_list_header(*self)
    }

    /// The header that `data` is the bytes of, if it is those of any.
    pub open spec fn spec_deserialize(data: Seq<u8>) -> Option<ValidatorListHeader> {
        match take_validator_list_header(data) {
            Some((header, rest)) => if rest.len() == 0 {
                Some(header)
            } else {
                None
            },
            None => None,
        }
    }

    /// Serializes the header.
    pub fn to_vec(&self) -> (r: Vec<u8>)
        ensures
            r@ == self.spec_serialize(),
    {
        let mut out: Vec<u8> = Vec::new();
        write_validator_list_header(&mut out, self);
        assert(out@ =~= self.spec_serialize());
        out
    }

    /// Reads a header from bytes that hold one header and nothing else.
    pub fn try_from_slice(data: &[u8]) -> (r: Result<ValidatorListHeader, ProgramError>)
        ensures
            match ValidatorListHeader::spec_deserialize(data@) {
                Some(header) => r == Ok::<ValidatorListHeader, ProgramError>(header),
                None => r == Err::<ValidatorListHeader, ProgramError>(ProgramError::BorshIoError),
            },
    {
        assert(data@.skip(0) =~= data@);
        match read_validator_list_header(data, 0) {
            Some((header, end)) => {
                if end == data.len() {
                    Ok(header)
                } else {
                    Err(ProgramError::BorshIoError)
                }
            },
            None => Err(ProgramError::BorshIoError),
        }
    }

    /// A header that is serialized and read again is the same header, and
    /// bytes that are read as a header and serialized again are the same
    /// bytes.
    pub proof fn lemma_roundtrip(header: ValidatorListHeader, data: Seq<u8>)
        ensures
            ValidatorListHeader::spec_deserialize(header.spec_serialize()) == Some(header),
            ValidatorListHeader::spec_deserialize(data) matches Some(h) ==> h.spec_serialize()
                == data,
    {
        lemma_take_validator_list_header_of_encoding(header, Seq::empty());
        assert(header.spec_serialize() + Seq::<u8>::empty() =~= header.spec_serialize());
        lemma_take_validator_list_header_encodes(data);
        if let Some((h, rest)) = take_validator_list_header(data) {
            if rest.len() == 0 {
                assert(h.spec_serialize() + rest =~= h.spec_serialize());
            }
        }
    }
}

/// The packed entries one after the other, followed by `tail`.
pub open spec fn enc_entries(entries: Seq<ValidatorStakeInfo>, tail: Seq<u8>) -> Seq<u8>
    decreases entries.len(),
{
    if entries.len() == 0 {
        tail
    } else {
        entries[0].spec_pack() + enc_entries(entries.skip(1), tail)
    }
}

/// Reads `n` packed entries.
pub open spec fn take_entries(s: Seq<u8>, n: nat) -> Option<(Seq<ValidatorStakeInfo>, Seq<u8>)>
    decreases n,
{
    if n == 0 {
        Some((Seq::empty(), s))
    } else {
        match take_validator_stake_info(s) {
            Some((entry, rest)) => match take_entries(rest, (n - 1) as nat) {
                Some((others, after)) => Some((seq![entry] + others, after)),
                None => None,
            },
            None => None,
        }
    }
}

/// Reading packed entries off its encoding, whatever follows it, gives it back.
pub proof fn lemma_take_entries_of_encoding(entries: Seq<ValidatorStakeInfo>, tail: Seq<u8>)
    ensures
        take_entries(enc_entries(entries, tail), entries.len()) == Some((entries, tail)),
    decreases entries.len(),
{
    if entries.len() == 0 {
        assert(entries =~= Seq::empty());
    } else {
        entries[0].lemma_take_of_pack(enc_entries(entries.skip(1), tail));
        lemma_take_entries_of_encoding(entries.skip(1), tail);
        assert(seq![entries[0]] + entries.skip(1) =~= entries);
    }
}

/// What was read as packed entries is, byte for byte, its encoding.
pub proof fn lemma_take_entries_encodes(s: Seq<u8>, n: nat)
    ensures
        take_entries(s, n) matches Some((entries, rest)) ==> entries.len() == n && s
            == enc_entries(entries, rest),
    decreases n,
{
    if n > 0 {
        ValidatorStakeInfo::lemma_take_encodes(s);
        if let Some((entry, rest)) = take_validator_stake_info(s) {
            lemma_take_entries_encodes(rest, (n - 1) as nat);
            if let Some((others, after)) = take_entries(rest, (n - 1) as nat) {
                let entries = seq![entry] + others;
                assert(entries.skip(1) =~= others);
            }
        }
    }
}

/// The encoding of a validator list followed by `tail`: the header, the
/// number of entries as a 32-bit integer, the packed entries.
pub open spec fn enc_validator_list(
    header: ValidatorListHeader,
    entries: Seq<ValidatorStakeInfo>,
    tail: Seq<u8>,
) -> Seq<u8> {
    enc_validator_list_header(header) + (enc_u32(entries.len() as u32) + enc_entries(
        entries,
        tail,
    ))
}

/// Reads a validator list.
pub open spec fn take_validator_list(s: Seq<u8>) -> Option<
    (ValidatorListHeader, Seq<ValidatorStakeInfo>, Seq<u8>),
> {
    match take_validator_list_header(s) {
        Some((header, s1)) => match take_u32(s1) {
            Some((count, s2)) => match take_entries(s2, count as nat) {
                Some((entries, rest)) => Some((header, entries, rest)),
                None => None,
            },
            None => None,
        },
        None => None,
    }
}

/// Reads `count` packed entries at `pos`.
fn read_entries(data: &[u8], pos: usize, count: u32) -> (r: Option<
    (Vec<ValidatorStakeInfo>, usize),
>)
    requires
        pos <= data@.len(),
    ensures
        match take_entries(data@.skip(pos as int), count as nat) {
            Some((entries, rest)) => match r {
                Some((got, end)) => got@ == entries && end <= data@.len() && rest == data@.skip(
                    end as int,
                ),
                None => false,
            },
            None => r is None,
        },
{
    let mut entries: Vec<ValidatorStakeInfo> = Vec::new();
    let mut at = pos;
    let mut i: u32 = 0;
    let ghost whole = take_entries(data@.skip(pos as int), count as nat);
    while i < count
        invariant
            0 <= i <= count,
            at <= data@.len(),
            entries@.len() == i,
            whole == take_entries(data@.skip(pos as int), count as nat),
            whole == match take_entries(data@.skip(at as int), (count - i) as nat) {
                Some((others, rest)) => Some((entries@ + others, rest)),
                None => None,
            },
        decreases count - i,
    {
        match read_validator_stake_info(data, at) {
            Some((entry, next)) => {
                proof {
                    let here = take_entries(data@.skip(at as int), (count - i) as nat);
                    let later = take_entries(data@.skip(next as int), (count - i - 1) as nat);
                    if let Some((others, rest)) = later {
                        assert(entries@ + (seq![entry] + others) =~= entries@.push(entry)
                            + others);
                    }
                }
                entries.push(entry);
                at = next;
            },
            None => {
                return None;
            },
        }
        i += 1;
    }
    proof {
        assert(entries@ + Seq::<ValidatorStakeInfo>::empty() =~= entries@);
    }
    Some((entries, at))
}

/// Appends packed entries.
fn write_entries(out: &mut Vec<u8>, entries: &Vec<ValidatorStakeInfo>)
    ensures
        final(out)@ == old(out)@ + enc_entries(entries@, Seq::empty()),
{
    let mut i: usize = 0;
    assert(entries@.skip(0) =~= entries@);
    while i < entries.len()
        invariant
            0 <= i <= entries@.len(),
            out@ + enc_entries(entries@.skip(i as int), Seq::empty()) == old(out)@ + enc_entries(
                entries@,
                Seq::empty(),
            ),
        decreases entries@.len() - i,
    {
        let ghost before = out@;
        write_validator_stake_info(out, &entries[i]);
        proof {
            let rest = entries@.skip(i as int);
            assert(rest[0] == entries@[i as int]);
            assert(rest.skip(1) =~= entries@.skip(i + 1));
            lemma_concat_assoc(
                before,
                entries@[i as int].spec_pack(),
                enc_entries(entries@.skip(i + 1), Seq::empty()),
            );
        }
        i += 1;
    }
    proof {
        assert(out@ + Seq::<u8>::empty() =~= out@);
    }
}

impl ValidatorList {
    /// The bytes of the list.
    pub open spec fn spec_serialize(&self) -> Seq<u8> {
        enc_validator_list(self.header, self.validators@, Seq::empty())
    }

    /// Serializes the list. The number of entries must fit the 32-bit count
    /// that precedes them.
    pub fn to_vec(&self) -> (r: Vec<u8>)
        requires
            self.validators@.len() <= u32::MAX,
        ensures
            r@ == self.spec_serialize(),
    {
        let mut out: Vec<u8> = Vec::new();
        write_validator_list_header(&mut out, &self.header);
        write_u32(&mut out, self.validators.len() as u32);
        write_entries(&mut out, &self.validators);
        assert(out@ =~= self.spec_serialize());
        out
    }

    /// Reads a list from the start of `data` and ignores what follows it,
    /// as a list account does whose slots are not all taken.
    pub fn try_from_slice_unchecked(data: &[u8]) -> (r: Result<ValidatorList, ProgramError>)
        ensures
            match take_validator_list(data@) {
                Some((header, entries, _)) => r is Ok && r->Ok_0.header == header
                    && r->Ok_0.validators@ == entries,
                None => r == Err::<ValidatorList, ProgramError>(ProgramError::BorshIoError),
            },
    {
        assert(data@.skip(0) =~= data@);
        let (header, pos) = match read_validator_list_header(data, 0) {
            Some(v) => v,
            None => {
                return Err(ProgramError::BorshIoError);
            },
        };
        let (count, pos) = match read_u32(data, pos) {
            Some(v) => v,
            None => {
                return Err(ProgramError::BorshIoError);
            },
        };
        match read_entries(data, pos, count) {
            Some((validators, _)) => Ok(ValidatorList { header, validators }),
            None => Err(ProgramError::BorshIoError),
        }
    }

    /// Reads a list from bytes that hold one list and nothing else.
    pub fn try_from_slice(data: &[u8]) -> (r: Result<ValidatorList, ProgramError>)
        ensures
            match take_validator_list(data@) {
                Some((header, entries, rest)) => if rest.len() == 0 {
                    r is Ok && r->Ok_0.header == header && r->Ok_0.validators@ == entries
                } else {
                    r == Err::<ValidatorList, ProgramError>(ProgramError::BorshIoError)
                },
                None => r == Err::<ValidatorList, ProgramError>(ProgramError::BorshIoError),
            },
    {
        assert(data@.skip(0) =~= data@);
        let (header, pos) = match read_validator_list_header(data, 0) {
            Some(v) => v,
            None => {
                return Err(ProgramError::BorshIoError);
            },
        };
        let (count, pos) = match read_u32(data, pos) {
            Some(v) => v,
            None => {
                return Err(ProgramError::BorshIoError);
            },
        };
        match read_entries(data, pos, count) {
            Some((validators, end)) => {
                if end == data.len() {
                    Ok(ValidatorList { header, validators })
                } else {
                    Err(ProgramError::BorshIoError)
                }
            },
            None => Err(ProgramError::BorshIoError),
        }
    }

    /// A list that is serialized and read again is the same list.
    pub proof fn lemma_serialize_then_deserialize(
        header: ValidatorListHeader,
        entries: Seq<ValidatorStakeInfo>,
        tail: Seq<u8>,
    )
        requires
            entries.len() <= u32::MAX,
        ensures
            take_validator_list(enc_validator_list(header, entries, tail)) == Some(
                (header, entries, tail),
            ),
    {
        let counted = enc_u32(entries.len() as u32) + enc_entries(entries, tail);
        lemma_take_validator_list_header_of_encoding(header, counted);
        lemma_take_u32_of_encoding(entries.len() as u32, enc_entries(entries, tail));
        lemma_take_entries_of_encoding(entries, tail);
    }

    /// Bytes that are read as a list and serialized again are the same
    /// bytes.
    pub proof fn lemma_deserialize_then_serialize(data: Seq<u8>)
        ensures
            take_validator_list(data) matches Some((header, entries, rest)) ==> data
                == enc_validator_list(header, entries, rest),
    {
        lemma_take_validator_list_header_encodes(data);
        let s1 = rest_of(take_validator_list_header(data));
        lemma_take_u32_encodes(s1);
        if let Some((count, s2)) = take_u32(s1) {
            lemma_take_entries_encodes(s2, count as nat);
        }
    }
}

} // verus!
