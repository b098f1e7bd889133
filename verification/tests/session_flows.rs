//! The session-delegated operations on a pool that is in use: funded, with
//! fees, and one epoch old.

use fogo_stake_pool::session::{Session, SessionContext};
use fogo_stake_pool::staking::withdraw_from_stake_account_with_session;
use fogo_stake_pool::state::{DerivedStakeAccount, Fee, StakePool, ValidatorList};
use fogo_stake_pool::{find_user_stake_program_address, id, Pubkey, StakePoolError};

fn key(seed: u8) -> Pubkey {
    Pubkey::new_from_array([seed; 32])
}

const NOW: i64 = 1_700_000_000;
const ATA_RENT: u64 = 2_039_280;
const EPOCH: u64 = 12;

fn session() -> Session {
    Session {
        user_wallet: key(1),
        authorized_program_id: id(),
        authorized_signer_pda: key(2),
        expiration: NOW + 3_600,
    }
}

fn context() -> SessionContext {
    SessionContext {
        session_owner: key(3),
        session_manager: key(3),
        program_signer: key(2),
        now: NOW,
        token_account_owner: key(1),
    }
}

fn pool_in_use() -> StakePool {
    StakePool {
        manager: key(10),
        staker: key(11),
        total_lamports: 11_000_000_000,
        pool_token_supply: 10_000_000_000,
        last_update_epoch: EPOCH,
        epoch_fee: Fee { numerator: 1, denominator: 100 },
        sol_deposit_fee: Fee { numerator: 3, denominator: 100 },
        sol_withdrawal_fee: Fee { numerator: 3, denominator: 1000 },
        stake_withdrawal_fee: Fee { numerator: 3, denominator: 1000 },
        sol_referral_fee: 50,
        ..Default::default()
    }
}

fn list_in_use() -> ValidatorList {
    let mut list = ValidatorList::new_empty(8);
    list.add(key(50), 0, EPOCH, &DerivedStakeAccount::Vacant).unwrap();
    list.validators[0].active_stake_lamports = 10_000_000_000;
    list
}

#[test]
fn deposit_wsol_with_session_success() {
    let mut pool = pool_in_use();
    let before = pool.clone();
    let receipt = pool
        .deposit_wsol_with_session(&session(), &context(), 100_000_000, 50_000_000, true, ATA_RENT, false, EPOCH)
        .unwrap();
    assert!(receipt.minted.pool_tokens_user > 0);
    assert!(receipt.minted.pool_tokens_user >= 50_000_000);
    assert_eq!(pool.total_lamports, before.total_lamports + 100_000_000);
    assert_eq!(
        pool.pool_token_supply,
        before.pool_token_supply + receipt.minted.pool_tokens_user + receipt.minted.pool_tokens_manager
    );
    assert_eq!(receipt.lamports_deposited, 100_000_000);
    assert_eq!(receipt.ata_rent, 0);
}

#[test]
fn fail_dust_deposit() {
    let mut pool = pool_in_use();
    let before = pool.clone();
    let dust_amount = 1; // 1 lamport
    assert_eq!(
        pool.deposit_wsol_with_session(&session(), &context(), dust_amount, 0, true, ATA_RENT, false, EPOCH),
        Err(StakePoolError::DepositTooSmall)
    );
    assert_eq!(pool, before);
}

#[test]
fn success_multiple_deposits() {
    let mut pool = pool_in_use();
    let mut user_tokens = 0u64;
    for _ in 0..2 {
        let receipt = pool
            .deposit_wsol_with_session(&session(), &context(), 500_000_000, 0, true, ATA_RENT, false, EPOCH)
            .unwrap();
        user_tokens += receipt.minted.pool_tokens_user;
    }
    assert!(user_tokens > 0);
    assert_eq!(pool.total_lamports, 12_000_000_000);
}

#[test]
fn success_exact_fee_calculation() {
    let mut pool = pool_in_use();
    let amount = 1_500_000_000;
    let expected_new_pool_tokens = pool.calc_pool_tokens_for_deposit(amount).unwrap();
    let expected_fee = pool.calc_pool_tokens_sol_deposit_fee(expected_new_pool_tokens).unwrap();
    let expected_user_tokens_from_deposit = expected_new_pool_tokens - expected_fee;
    // floor(1.5e9 * 1e10 / 1.1e10), and 3 percent of it rounded up
    assert_eq!(expected_new_pool_tokens, 1_363_636_363);
    assert_eq!(expected_fee, 40_909_091);
    let receipt = pool
        .deposit_wsol_with_session(&session(), &context(), amount, 0, true, ATA_RENT, false, EPOCH)
        .unwrap();
    assert_eq!(receipt.minted.pool_tokens_user, expected_user_tokens_from_deposit);
    assert!(receipt.minted.pool_tokens_manager >= expected_fee);
    assert_eq!(
        receipt.minted.pool_tokens_user + expected_fee,
        expected_new_pool_tokens,
        "Total minted tokens should equal user tokens + manager fee"
    );
    // with a referrer half of the fee goes to the referrer
    let mut other = pool_in_use();
    let receipt = other
        .deposit_wsol_with_session(&session(), &context(), amount, 0, true, ATA_RENT, true, EPOCH)
        .unwrap();
    assert_eq!(receipt.minted.pool_tokens_referral, 20_454_545);
    assert_eq!(receipt.minted.pool_tokens_manager, 20_454_546);
}

#[test]
fn success_onchain_ata_creation() {
    let mut pool = pool_in_use();
    let amount = 1_000_000_000;
    let receipt = pool
        .deposit_wsol_with_session(&session(), &context(), amount, 0, false, ATA_RENT, false, EPOCH)
        .unwrap();
    assert!(receipt.minted.pool_tokens_user > 0);
    assert_eq!(receipt.ata_rent, ATA_RENT);
    assert_eq!(receipt.lamports_deposited, amount - ATA_RENT);
    // fewer tokens than for the whole amount
    let whole = pool_in_use().calc_pool_tokens_for_deposit(amount).unwrap();
    assert!(receipt.minted.pool_tokens_user + receipt.minted.pool_tokens_manager < whole);
}

#[test]
fn fail_deposit_less_than_ata_rent() {
    let mut pool = pool_in_use();
    assert_eq!(
        pool.deposit_wsol_with_session(&session(), &context(), ATA_RENT / 2, 0, false, ATA_RENT, false, EPOCH),
        Err(StakePoolError::DepositTooSmall)
    );
    assert_eq!(
        pool.deposit_wsol_with_session(&session(), &context(), ATA_RENT, 0, false, ATA_RENT, false, EPOCH),
        Err(StakePoolError::DepositTooSmall)
    );
}

#[test]
fn success_deposit_slightly_more_than_ata_rent() {
    let mut pool = pool_in_use();
    let receipt = pool
        .deposit_wsol_with_session(&session(), &context(), ATA_RENT + 1_000, 0, false, ATA_RENT, false, EPOCH)
        .unwrap();
    assert!(receipt.minted.pool_tokens_user > 0);
    assert_eq!(receipt.lamports_deposited, 1_000);
}

#[test]
fn withdraw_wsol_with_session_success() {
    let mut pool = pool_in_use();
    let receipt = pool
        .withdraw_wsol_with_session(&session(), &context(), 1_000_000_000, 0, EPOCH)
        .unwrap();
    assert!(receipt.lamports > 0);
    // fee 3_000_000 tokens; 997_000_000 tokens at 1.1 lamports each
    assert_eq!(receipt.pool_tokens_fee, 3_000_000);
    assert_eq!(receipt.pool_tokens_burnt, 997_000_000);
    assert_eq!(receipt.lamports, 1_096_700_000);
    assert_eq!(pool.pool_token_supply, 10_000_000_000 - 997_000_000);
}

#[test]
fn fail_dust_withdrawal() {
    let mut pool = pool_in_use();
    assert_eq!(
        pool.withdraw_wsol_with_session(&session(), &context(), 1, 0, EPOCH),
        Err(StakePoolError::WithdrawalTooSmall)
    );
}

#[test]
fn success_full_withdrawal() {
    let mut pool = StakePool { sol_withdrawal_fee: Fee::default(), ..pool_in_use() };
    let minted = pool
        .deposit_wsol_with_session(&session(), &context(), 2_000_000_000, 0, true, ATA_RENT, false, EPOCH)
        .unwrap()
        .minted
        .pool_tokens_user;
    let receipt = pool
        .withdraw_wsol_with_session(&session(), &context(), minted, 0, EPOCH)
        .unwrap();
    assert!(receipt.lamports > 0);
    assert_eq!(receipt.pool_tokens_burnt, minted);
    assert_eq!(minted - receipt.pool_tokens_burnt - receipt.pool_tokens_fee, 0);
}

#[test]
fn success_multiple_withdrawals() {
    let mut pool = pool_in_use();
    let mut wsol = 0u64;
    for _ in 0..3 {
        wsol += pool
            .withdraw_wsol_with_session(&session(), &context(), 100_000_000, 0, EPOCH)
            .unwrap()
            .lamports;
    }
    assert!(wsol > 0);
    assert!(pool.pool_token_supply < 10_000_000_000);
}

#[test]
fn success_withdraw_stake_with_session() {
    let mut pool = pool_in_use();
    let mut list = list_in_use();
    let receipt = pool
        .withdraw_stake_with_session(&mut list, &session(), &context(), &key(50), 1_000_000_000, 0, 0, EPOCH)
        .unwrap();
    let (user_stake_pda, _) = find_user_stake_program_address(&id(), &key(1), 0);
    assert!(receipt.user_stake.lamports > 0);
    assert_eq!(receipt.user_stake.address, user_stake_pda);
    assert_eq!(receipt.user_stake.staker, user_stake_pda, "Staker should be user stake PDA");
    assert_eq!(receipt.user_stake.withdrawer, user_stake_pda, "Withdrawer should be user stake PDA");
    assert_eq!(receipt.user_stake.deactivation_epoch, EPOCH, "Stake should be deactivating");
    assert!(pool.pool_token_supply < 10_000_000_000, "Pool tokens should have been burned");
    assert_eq!(
        list.validators[0].active_stake_lamports,
        10_000_000_000 - receipt.user_stake.lamports
    );
}

#[test]
fn success_withdraw_from_stake_account_with_session() {
    let mut pool = pool_in_use();
    let mut list = list_in_use();
    let mut stake = pool
        .withdraw_stake_with_session(&mut list, &session(), &context(), &key(50), 1_000_000_000, 0, 0, EPOCH)
        .unwrap()
        .user_stake;
    let all = stake.lamports;
    assert_eq!(
        withdraw_from_stake_account_with_session(&mut stake, &session(), &context(), u64::MAX, 0, EPOCH),
        Err(StakePoolError::UserStakeNotActive),
        "Should fail - stake not yet fully deactivated"
    );
    assert_eq!(stake.lamports, all, "Stake account should still have all lamports");
    assert_eq!(
        withdraw_from_stake_account_with_session(&mut stake, &session(), &context(), u64::MAX, 0, EPOCH + 1),
        Ok(all)
    );
}

#[test]
fn fail_withdraw_from_wrong_user_stake_account() {
    let mut pool = pool_in_use();
    let mut list = list_in_use();
    let mut stake = pool
        .withdraw_stake_with_session(&mut list, &session(), &context(), &key(50), 1_000_000_000, 0, 0, EPOCH)
        .unwrap()
        .user_stake;
    assert!(
        withdraw_from_stake_account_with_session(&mut stake, &session(), &context(), u64::MAX, 999, EPOCH + 1)
            .is_err(),
        "Should fail with wrong stake account"
    );
}

#[test]
fn fail_withdraw_to_different_user_wallet() {
    let mut pool = pool_in_use();
    let mut list = list_in_use();
    let mut stake = pool
        .withdraw_stake_with_session(&mut list, &session(), &context(), &key(50), 1_000_000_000, 0, 0, EPOCH)
        .unwrap()
        .user_stake;
    let elsewhere = SessionContext { token_account_owner: key(99), ..context() };
    assert!(
        withdraw_from_stake_account_with_session(&mut stake, &session(), &elsewhere, u64::MAX, 0, EPOCH + 1)
            .is_err(),
        "Should fail when wallet doesn't match session user"
    );
}
