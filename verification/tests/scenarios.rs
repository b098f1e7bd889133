//! The pool through whole courses of events.

use fogo_stake_pool::list_pass::{
    StakeAccount, StakePhase, TransientAction, ValidatorAccounts, ValidatorAction,
};
use fogo_stake_pool::processor::DepositReceipt;
use fogo_stake_pool::session::{Session, SessionContext};
use fogo_stake_pool::staking::withdraw_from_stake_account_with_session;
use fogo_stake_pool::state::{
    DerivedStakeAccount,Fee, StakePool, StakeStatus, ValidatorList};
use fogo_stake_pool::{find_user_stake_program_address, id, Pubkey, StakePoolError};

fn key(seed: u8) -> Pubkey {
    Pubkey::new_from_array([seed; 32])
}

const RESERVE_RENT: u64 = 2_282_880;
const ATA_RENT: u64 = 2_039_280;
const NOW: i64 = 1_700_000_000;

fn session() -> Session {
    Session {
        user_wallet: key(1),
        authorized_program_id: id(),
        authorized_signer_pda: key(2),
        expiration: NOW + 600,
    }
}

fn context() -> SessionContext {
    SessionContext {
        session_owner: key(3),
        session_manager: key(3),
        program_signer: key(2),
        now: NOW,
        token_account_owner: key(1),
    }
}

fn empty_pool() -> StakePool {
    StakePool {
        account_type: fogo_stake_pool::AccountType::StakePool,
        manager: key(10),
        staker: key(11),
        ..Default::default()
    }
}

#[test]
fn bootstrap_deposit() {
    let mut pool = empty_pool();
    let mut reserve = RESERVE_RENT;
    let mut user_tokens = 0u64;
    let mut manager_tokens = 0u64;

    let receipt = pool.deposit_sol(1_000_000_000, false, 0).unwrap();
    reserve += 1_000_000_000;
    user_tokens += receipt.pool_tokens_user;
    manager_tokens += receipt.pool_tokens_manager;

    assert_eq!(user_tokens, 1_000_000_000);
    assert_eq!(reserve, RESERVE_RENT + 1_000_000_000);
    assert_eq!(pool.total_lamports, 1_000_000_000);
    assert_eq!(manager_tokens, 0);
    assert_eq!(receipt.pool_tokens_referral, 0);
    assert_eq!(pool.pool_token_supply, user_tokens + manager_tokens);
}

#[test]
fn second_deposit_after_reward() {
    let mut pool = empty_pool();
    let mut list = ValidatorList::new_empty(8);
    pool.epoch_fee = Fee { numerator: 1, denominator: 100 };
    let mut reserve = RESERVE_RENT;
    pool.deposit_sol(1_000_000_000, false, 0).unwrap();
    reserve += 1_000_000_000;

    // the reward arrives in the reserve from outside
    reserve += 100_000_000;
    // the epoch loop: nothing to cover in the list pass, then the pool pass
    assert_eq!(list.update_validator_list_balance(0, &[], 1), Ok(vec![]));
    let manager_fee_tokens = pool
        .update_stake_pool_balance(&mut list, reserve, RESERVE_RENT, 1)
        .unwrap();
    // supply * F / (L' - F) with L' = 1.1e9 and F = 1e6
    assert_eq!(manager_fee_tokens, 1_000_000_000u64 * 1_000_000 / (1_100_000_000 - 1_000_000));
    assert_eq!(manager_fee_tokens, 909_918);
    let supply_post_epoch = pool.pool_token_supply;
    assert_eq!(supply_post_epoch, 1_000_000_000 + manager_fee_tokens);
    assert_eq!(pool.total_lamports, 1_100_000_000);

    let receipt = pool.deposit_sol(1_100_000_000, false, 1).unwrap();
    assert_eq!(
        receipt,
        DepositReceipt {
            pool_tokens_user: supply_post_epoch,
            pool_tokens_manager: 0,
            pool_tokens_referral: 0,
        }
    );
    assert_eq!(pool.pool_token_supply, 2 * supply_post_epoch);
    assert_eq!(pool.total_lamports, 2_200_000_000);
}

#[test]
fn validator_add_increase_decrease_remove() {
    let mut pool = empty_pool();
    let staker = key(11);
    let vote = key(50);
    let mut list = ValidatorList::new_empty(8);
    list.add(key(49), 0, 0, &DerivedStakeAccount::Vacant).unwrap();
    let initial_len = list.validators.len();
    let mut reserve = RESERVE_RENT + 2_000_000_000;
    pool.deposit_sol(2_000_000_000, false, 0).unwrap();

    // add V with its minimum stake, taken from the reserve
    list.add(vote, 0, 0, &DerivedStakeAccount::Vacant).unwrap();
    reserve -= 1_000_000;
    list.find_mut(&vote).unwrap().active_stake_lamports = 1_000_000;
    assert_eq!(list.find(&vote).unwrap().status, StakeStatus::Active.into());
    assert_eq!(list.find(&vote).unwrap().transient_stake_lamports, 0);

    // increase: a transient stake account is created
    pool.increase_validator_stake(&mut list, &staker, &vote, 500_000_000, 1).unwrap();
    reserve -= 500_000_000;
    assert_eq!(list.find(&vote).unwrap().transient_stake_lamports, 500_000_000);
    assert_eq!(list.transient_budget_free(), 9);

    // one epoch later the list pass finds the transient stake effective
    let plain = ValidatorAccounts { validator_stake: None, transient_stake: None };
    let accounts = [
        plain,
        ValidatorAccounts {
            validator_stake: Some(StakeAccount { lamports: 1_000_000, phase: StakePhase::Active }),
            transient_stake: Some(StakeAccount { lamports: 500_000_000, phase: StakePhase::Active }),
        },
    ];
    let actions = list.update_validator_list_balance(0, &accounts, 1).unwrap();
    assert_eq!(actions[1].transient, TransientAction::MergeIntoValidator);
    let entry = *list.find(&vote).unwrap();
    assert_eq!(entry.status, StakeStatus::Active.into());
    assert_eq!(entry.active_stake_lamports, 501_000_000);
    assert_eq!(entry.transient_stake_lamports, 0);
    assert_eq!(pool.update_stake_pool_balance(&mut list, reserve, RESERVE_RENT, 1), Ok(0));
    assert_eq!(pool.total_lamports, 2_000_000_000);

    // decrease: a transient stake account is created, deactivating
    pool.decrease_validator_stake(&mut list, &staker, &vote, 500_000_000, 2).unwrap();
    let entry = *list.find(&vote).unwrap();
    assert_eq!(entry.status, StakeStatus::DeactivatingTransient.into());
    assert_eq!((entry.active_stake_lamports, entry.transient_stake_lamports), (1_000_000, 500_000_000));
    // the validator is to leave the pool
    pool.remove_validator_from_pool(&mut list, &staker, &vote).unwrap();
    assert_eq!(list.find(&vote).unwrap().status, StakeStatus::DeactivatingAll.into());

    // one epoch later both accounts have reached their inactive epoch
    let accounts = [
        plain,
        ValidatorAccounts {
            validator_stake: Some(StakeAccount { lamports: 1_000_000, phase: StakePhase::Inactive }),
            transient_stake: Some(StakeAccount { lamports: 500_000_000, phase: StakePhase::Inactive }),
        },
    ];
    let actions = list.update_validator_list_balance(0, &accounts, 2).unwrap();
    assert_eq!(actions[1].transient, TransientAction::MergeIntoReserve);
    assert_eq!(actions[1].validator, ValidatorAction::WithdrawIntoReserve);
    reserve += 501_000_000;
    let entry = *list.find(&vote).unwrap();
    assert_eq!(entry.status, StakeStatus::ReadyForRemoval.into());
    assert_eq!((entry.active_stake_lamports, entry.transient_stake_lamports), (0, 0));
    assert_eq!(list.transient_budget_free(), 10);

    // the pool pass sweeps the entry out, and cleaning up again changes nothing
    assert_eq!(pool.update_stake_pool_balance(&mut list, reserve, RESERVE_RENT, 2), Ok(0));
    assert_eq!(pool.total_lamports, 2_000_000_000);
    assert_eq!(list.validators.len(), initial_len);
    assert!(!list.contains(&vote));
    list.cleanup_removed_validator_entries();
    assert_eq!(list.validators.len(), initial_len);
}

#[test]
fn wrapped_native_round_trip() {
    let mut pool = empty_pool();
    let mut user_wsol = 2_000_000_000u64;
    let mut user_tokens = 0u64;
    let mut reserve = RESERVE_RENT;

    let receipt = pool
        .deposit_wsol_with_session(
            &session(),
            &context(),
            2_000_000_000,
            1_900_000_000,
            true,
            ATA_RENT,
            false,
            0,
        )
        .unwrap();
    user_wsol -= 2_000_000_000;
    reserve += receipt.lamports_deposited;
    user_tokens += receipt.minted.pool_tokens_user;
    assert_eq!(user_tokens, 2_000_000_000);
    assert_eq!(user_wsol, 0);
    assert_eq!(receipt.ata_rent, 0);
    assert_eq!(pool.pool_token_supply, 2_000_000_000);

    let receipt = pool
        .withdraw_wsol_with_session(&session(), &context(), 2_000_000_000, 1_900_000_000, 0)
        .unwrap();
    user_tokens -= receipt.pool_tokens_burnt + receipt.pool_tokens_fee;
    reserve -= receipt.lamports;
    user_wsol += receipt.lamports;
    assert_eq!(user_wsol, 2_000_000_000);
    assert_eq!(user_tokens, 0);
    assert_eq!(pool.pool_token_supply, 0);
    assert_eq!(pool.total_lamports, 0);
    assert_eq!(reserve, RESERVE_RENT);
}

#[test]
fn dust_deposit() {
    // the recipient's account does not exist: one lamport does not pay its rent
    let mut pool = empty_pool();
    assert_eq!(
        pool.deposit_wsol_with_session(&session(), &context(), 1, 0, false, ATA_RENT, false, 0),
        Err(StakePoolError::DepositTooSmall)
    );
    // the account exists, and the pool takes a deposit fee: the fee on one token is that token
    pool.sol_deposit_fee = Fee { numerator: 1, denominator: 1000 };
    assert_eq!(
        pool.deposit_wsol_with_session(&session(), &context(), 1, 0, true, ATA_RENT, false, 0),
        Err(StakePoolError::DepositTooSmall)
    );
    // a pool in which a lamport is worth less than a token
    let mut worth_more = StakePool { total_lamports: 3, pool_token_supply: 2, ..empty_pool() };
    assert_eq!(
        worth_more.deposit_wsol_with_session(&session(), &context(), 1, 0, true, ATA_RENT, false, 0),
        Err(StakePoolError::DepositTooSmall)
    );
    assert_eq!(pool.total_lamports, 0);
    assert_eq!(pool.pool_token_supply, 0);
}

#[test]
fn stake_withdraw_two_step() {
    let vote = key(50);
    let mut list = ValidatorList::new_empty(8);
    list.add(vote, 0, 3, &DerivedStakeAccount::Vacant).unwrap();
    list.find_mut(&vote).unwrap().active_stake_lamports = 10_000_000_000;
    let mut pool = StakePool {
        total_lamports: 10_000_000_000,
        pool_token_supply: 10_000_000_000,
        last_update_epoch: 3,
        ..empty_pool()
    };

    let receipt = pool
        .withdraw_stake_with_session(
            &mut list,
            &session(),
            &context(),
            &vote,
            5_000_000_000,
            4_900_000_000,
            0,
            3,
        )
        .unwrap();
    let (pda, _) = find_user_stake_program_address(&id(), &key(1), 0);
    let mut stake = receipt.user_stake;
    assert_eq!(stake.address, pda);
    assert_eq!(stake.staker, pda);
    assert_eq!(stake.withdrawer, pda);
    assert_eq!(stake.deactivation_epoch, 3);
    assert_eq!(stake.lamports, 5_000_000_000);
    assert_eq!(receipt.withdrawn.pool_tokens_burnt, 5_000_000_000);
    assert_eq!(pool.pool_token_supply, 5_000_000_000);
    assert_eq!(pool.total_lamports, 5_000_000_000);
    assert_eq!(list.find(&vote).unwrap().active_stake_lamports, 5_000_000_000);

    // in the same epoch the stake is still cooling down
    assert_eq!(
        withdraw_from_stake_account_with_session(&mut stake, &session(), &context(), u64::MAX, 0, 3),
        Err(StakePoolError::UserStakeNotActive)
    );
    assert_eq!(stake.lamports, 5_000_000_000);

    // past the cooldown everything goes to the wallet
    assert_eq!(
        withdraw_from_stake_account_with_session(&mut stake, &session(), &context(), u64::MAX, 0, 4),
        Ok(5_000_000_000)
    );
    assert_eq!(stake.lamports, 0);
}

#[test]
fn supply_follows_the_mint_through_a_course_of_operations() {
    let mut pool = empty_pool();
    pool.sol_deposit_fee = Fee { numerator: 1, denominator: 200 };
    pool.sol_withdrawal_fee = Fee { numerator: 1, denominator: 300 };
    pool.sol_referral_fee = 30;
    pool.epoch_fee = Fee { numerator: 1, denominator: 10 };
    let mut list = ValidatorList::new_empty(2);
    let mut minted: u128 = 0;
    let mut burnt: u128 = 0;
    let mut reserve: u64 = 0;
    for epoch in 0..30u64 {
        let fee_tokens = pool.update_stake_pool_balance(&mut list, reserve, 0, epoch).unwrap();
        minted += fee_tokens as u128;
        let receipt = pool.deposit_sol(1_000_003 + epoch * 7_919, epoch % 2 == 0, epoch).unwrap();
        reserve += 1_000_003 + epoch * 7_919;
        minted += (receipt.pool_tokens_user + receipt.pool_tokens_manager + receipt.pool_tokens_referral) as u128;
        let released = pool.withdraw_sol(receipt.pool_tokens_user / 3, epoch).unwrap();
        burnt += released.pool_tokens_burnt as u128;
        reserve -= released.lamports;
        // rewards
        reserve += 12_345;
        assert_eq!(pool.pool_token_supply as u128, minted - burnt);
        assert_eq!((pool.total_lamports == 0), (pool.pool_token_supply == 0));
    }
}
