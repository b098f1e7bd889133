use fogo_stake_pool::list_pass::{
    update_entry, ListPassActions, StakeAccount, StakePhase, TransientAction, ValidatorAccounts,
    ValidatorAction,
};
use fogo_stake_pool::state::{
    DerivedStakeAccount,
    PodStakeStatus, StakePool, StakeStatus, ValidatorList, ValidatorStakeInfo,
};
use fogo_stake_pool::{Pubkey, StakePoolError};

fn key(seed: u8) -> Pubkey {
    Pubkey::new_from_array([seed; 32])
}

fn entry(status: StakeStatus, active: u64, transient: u64) -> ValidatorStakeInfo {
    ValidatorStakeInfo {
        active_stake_lamports: active,
        transient_stake_lamports: transient,
        last_update_epoch: 5,
        transient_seed_suffix: 3,
        unused: 0,
        validator_seed_suffix: 4,
        status: status.into(),
        vote_account_address: key(9),
    }
}

fn account(lamports: u64, phase: StakePhase) -> Option<StakeAccount> {
    Some(StakeAccount { lamports, phase })
}

const NOTHING: ListPassActions = ListPassActions {
    transient: TransientAction::Keep,
    validator: ValidatorAction::Keep,
};

fn after(status: StakeStatus, active: u64, transient: u64) -> ValidatorStakeInfo {
    ValidatorStakeInfo { last_update_epoch: 6, ..entry(status, active, transient) }
}

#[test]
fn increase_finishes_in_the_validator_stake() {
    let e = entry(StakeStatus::Active, 1_000, 500);
    // still activating
    let accounts = ValidatorAccounts {
        validator_stake: account(1_010, StakePhase::Active),
        transient_stake: account(500, StakePhase::Activating),
    };
    assert_eq!(
        update_entry(&e, &accounts, 6),
        Ok((after(StakeStatus::Active, 1_010, 500), NOTHING))
    );
    // effective: joins the validator stake
    let accounts = ValidatorAccounts {
        validator_stake: account(1_010, StakePhase::Active),
        transient_stake: account(505, StakePhase::Active),
    };
    assert_eq!(
        update_entry(&e, &accounts, 6),
        Ok((
            after(StakeStatus::Active, 1_515, 0),
            ListPassActions {
                transient: TransientAction::MergeIntoValidator,
                validator: ValidatorAction::Keep
            }
        ))
    );
    // the validator stake is not effective yet: the transient waits
    let accounts = ValidatorAccounts {
        validator_stake: account(1_010, StakePhase::Activating),
        transient_stake: account(505, StakePhase::Active),
    };
    assert_eq!(
        update_entry(&e, &accounts, 6),
        Ok((after(StakeStatus::Active, 1_010, 505), NOTHING))
    );
    // the sum does not fit
    let accounts = ValidatorAccounts {
        validator_stake: account(u64::MAX, StakePhase::Active),
        transient_stake: account(1, StakePhase::Active),
    };
    assert_eq!(update_entry(&e, &accounts, 6), Err(StakePoolError::CalculationFailure));
}

#[test]
fn decrease_finishes_in_the_reserve() {
    let e = entry(StakeStatus::DeactivatingTransient, 1_000, 500);
    let cooling = ValidatorAccounts {
        validator_stake: account(1_000, StakePhase::Active),
        transient_stake: account(500, StakePhase::Deactivating),
    };
    assert_eq!(
        update_entry(&e, &cooling, 6),
        Ok((after(StakeStatus::DeactivatingTransient, 1_000, 500), NOTHING))
    );
    let done = ValidatorAccounts {
        validator_stake: account(1_000, StakePhase::Active),
        transient_stake: account(500, StakePhase::Inactive),
    };
    assert_eq!(
        update_entry(&e, &done, 6),
        Ok((
            after(StakeStatus::Active, 1_000, 0),
            ListPassActions {
                transient: TransientAction::MergeIntoReserve,
                validator: ValidatorAction::Keep
            }
        ))
    );
    // the transient account is gone already
    let gone = ValidatorAccounts {
        validator_stake: account(1_000, StakePhase::Active),
        transient_stake: None,
    };
    assert_eq!(update_entry(&e, &gone, 6), Ok((after(StakeStatus::Active, 1_000, 0), NOTHING)));
}

#[test]
fn removal_ends_ready_for_removal() {
    let leaving = entry(StakeStatus::DeactivatingValidator, 1_000, 0);
    let cooling = ValidatorAccounts {
        validator_stake: account(1_000, StakePhase::Deactivating),
        transient_stake: None,
    };
    assert_eq!(
        update_entry(&leaving, &cooling, 6),
        Ok((after(StakeStatus::DeactivatingValidator, 1_000, 0), NOTHING))
    );
    let done = ValidatorAccounts {
        validator_stake: account(1_000, StakePhase::Inactive),
        transient_stake: None,
    };
    assert_eq!(
        update_entry(&leaving, &done, 6),
        Ok((
            after(StakeStatus::ReadyForRemoval, 0, 0),
            ListPassActions {
                transient: TransientAction::Keep,
                validator: ValidatorAction::WithdrawIntoReserve
            }
        ))
    );

    let both = entry(StakeStatus::DeactivatingAll, 1_000, 500);
    // the transient is done, the validator stake is not
    let half = ValidatorAccounts {
        validator_stake: account(1_000, StakePhase::Deactivating),
        transient_stake: account(500, StakePhase::Inactive),
    };
    assert_eq!(
        update_entry(&both, &half, 6),
        Ok((
            after(StakeStatus::DeactivatingValidator, 1_000, 0),
            ListPassActions {
                transient: TransientAction::MergeIntoReserve,
                validator: ValidatorAction::Keep
            }
        ))
    );
    // the validator stake is done, the transient is not: both wait
    let other_half = ValidatorAccounts {
        validator_stake: account(1_000, StakePhase::Inactive),
        transient_stake: account(500, StakePhase::Deactivating),
    };
    assert_eq!(
        update_entry(&both, &other_half, 6),
        Ok((after(StakeStatus::DeactivatingAll, 1_000, 500), NOTHING))
    );
    // a transient that is effective does not join a validator that is leaving
    let effective = ValidatorAccounts {
        validator_stake: account(1_000, StakePhase::Active),
        transient_stake: account(500, StakePhase::Active),
    };
    assert_eq!(
        update_entry(&both, &effective, 6),
        Ok((after(StakeStatus::DeactivatingAll, 1_000, 500), NOTHING))
    );
    let all_done = ValidatorAccounts {
        validator_stake: account(1_000, StakePhase::Inactive),
        transient_stake: account(500, StakePhase::Inactive),
    };
    assert_eq!(
        update_entry(&both, &all_done, 6),
        Ok((
            after(StakeStatus::ReadyForRemoval, 0, 0),
            ListPassActions {
                transient: TransientAction::MergeIntoReserve,
                validator: ValidatorAction::WithdrawIntoReserve
            }
        ))
    );
}

#[test]
fn entries_that_are_left_alone_or_refused() {
    let accounts = ValidatorAccounts {
        validator_stake: account(77, StakePhase::Active),
        transient_stake: account(5, StakePhase::Inactive),
    };
    // updated in this epoch already
    let e = entry(StakeStatus::Active, 1_000, 500);
    assert_eq!(update_entry(&e, &accounts, 5), Ok((e, NOTHING)));
    // ready for removal: only the epoch moves
    let removed = entry(StakeStatus::ReadyForRemoval, 0, 0);
    assert_eq!(
        update_entry(&removed, &accounts, 6),
        Ok((after(StakeStatus::ReadyForRemoval, 0, 0), NOTHING))
    );
    // a transient account where the entry records none
    let plain = entry(StakeStatus::Active, 1_000, 0);
    assert_eq!(update_entry(&plain, &accounts, 6), Err(StakePoolError::InvalidState));
    // a status byte that stands for nothing
    let mut odd = e;
    odd.status = PodStakeStatus(9);
    assert_eq!(update_entry(&odd, &accounts, 6), Err(StakePoolError::InvalidState));
    assert_eq!(update_entry(&odd, &accounts, 5), Err(StakePoolError::InvalidState));
    // no validator stake account at all
    let none = ValidatorAccounts { validator_stake: None, transient_stake: None };
    assert_eq!(update_entry(&e, &none, 6), Ok((after(StakeStatus::Active, 0, 0), NOTHING)));
}

fn list_of(n: u8) -> ValidatorList {
    let mut list = ValidatorList::new_empty(20);
    for i in 0..n {
        list.add(key(i + 1), 0, 5, &DerivedStakeAccount::Vacant).unwrap();
        list.validators[i as usize].active_stake_lamports = 1_000 + i as u64;
    }
    list
}

fn active(lamports: u64) -> ValidatorAccounts {
    ValidatorAccounts { validator_stake: account(lamports, StakePhase::Active), transient_stake: None }
}

#[test]
fn list_pass_covers_four_entries_in_order() {
    let mut list = list_of(7);
    let accounts: Vec<ValidatorAccounts> = (0..6).map(|i| active(2_000 + i)).collect();
    let actions = list.update_validator_list_balance(1, &accounts, 6).unwrap();
    assert_eq!(actions, vec![NOTHING; 4]);
    let epochs: Vec<u64> = list.validators.iter().map(|e| e.last_update_epoch).collect();
    assert_eq!(epochs, vec![5, 6, 6, 6, 6, 5, 5]);
    let stakes: Vec<u64> = list.validators.iter().map(|e| e.active_stake_lamports).collect();
    assert_eq!(stakes, vec![1_000, 2_000, 2_001, 2_002, 2_003, 1_005, 1_006]);

    // near the end of the list, and beyond it
    let actions = list.update_validator_list_balance(5, &accounts, 6).unwrap();
    assert_eq!(actions.len(), 2);
    assert_eq!(list.validators[6].active_stake_lamports, 2_001);
    assert_eq!(list.update_validator_list_balance(7, &accounts, 6), Ok(vec![]));
    assert_eq!(list.update_validator_list_balance(u32::MAX, &accounts, 6), Ok(vec![]));
    // fewer accounts than entries
    let actions = list.update_validator_list_balance(0, &accounts[..1], 6).unwrap();
    assert_eq!(actions.len(), 1);
    assert_eq!(list.validators[0].active_stake_lamports, 2_000);
    assert_eq!(list.update_validator_list_balance(0, &[], 6), Ok(vec![]));
}

#[test]
fn list_pass_twice_in_an_epoch_is_a_no_op() {
    let mut list = list_of(3);
    list.validators[1].transient_stake_lamports = 400;
    list.validators[1].status = StakeStatus::DeactivatingTransient.into();
    let first = [
        active(1_500),
        ValidatorAccounts {
            validator_stake: account(900, StakePhase::Active),
            transient_stake: account(400, StakePhase::Inactive),
        },
        active(1_700),
    ];
    let actions = list.update_validator_list_balance(0, &first, 6).unwrap();
    assert_eq!(actions[1].transient, TransientAction::MergeIntoReserve);
    let once = list.clone();
    // whatever the accounts hold by then
    let later = [active(1), active(2), active(3)];
    assert_eq!(list.update_validator_list_balance(0, &later, 6), Ok(vec![NOTHING; 3]));
    assert_eq!(list, once);
    assert_eq!(list.update_validator_list_balance(0, &first, 6), Ok(vec![NOTHING; 3]));
    assert_eq!(list, once);
}

#[test]
fn list_pass_that_fails_changes_nothing() {
    let mut list = list_of(4);
    let before = list.clone();
    let accounts = [
        active(1_500),
        active(1_600),
        ValidatorAccounts {
            validator_stake: account(900, StakePhase::Active),
            transient_stake: account(400, StakePhase::Inactive),
        },
        active(1_700),
    ];
    assert_eq!(
        list.update_validator_list_balance(0, &accounts, 6),
        Err(StakePoolError::InvalidState)
    );
    assert_eq!(list, before);
}

#[test]
fn staker_operations() {
    let pool = StakePool { staker: key(100), ..Default::default() };
    let staker = key(100);
    let mut list = list_of(3);
    list.validators[0].active_stake_lamports = 5_000_000;

    assert_eq!(
        pool.increase_validator_stake(&mut list, &key(1), &key(1), 10, 0),
        Err(StakePoolError::WrongStaker)
    );
    assert_eq!(
        pool.increase_validator_stake(&mut list, &staker, &key(50), 10, 0),
        Err(StakePoolError::ValidatorNotFound)
    );
    assert_eq!(pool.increase_validator_stake(&mut list, &staker, &key(2), 700, 33), Ok(()));
    assert_eq!(list.validators[1].transient_stake_lamports, 700);
    assert_eq!(list.validators[1].transient_seed_suffix, 33);
    assert_eq!(list.validators[1].active_stake_lamports, 1_001);
    assert_eq!(list.validators[1].status, StakeStatus::Active.into());
    // increasing further is refused
    assert_eq!(
        pool.increase_validator_stake(&mut list, &staker, &key(2), 700, 33),
        Err(StakePoolError::TransientAccountInUse)
    );
    assert_eq!(
        pool.decrease_validator_stake(&mut list, &staker, &key(2), 1, 33),
        Err(StakePoolError::TransientAccountInUse)
    );

    // what stays must be the minimum at least
    assert_eq!(
        pool.decrease_validator_stake(&mut list, &staker, &key(1), 4_000_001, 1),
        Err(StakePoolError::StakeLamportsNotEqualToMinimum)
    );
    assert_eq!(
        pool.decrease_validator_stake(&mut list, &staker, &key(1), 5_000_001, 1),
        Err(StakePoolError::CalculationFailure)
    );
    assert_eq!(
        pool.decrease_validator_stake(&mut list, &key(2), &key(1), 1, 1),
        Err(StakePoolError::WrongStaker)
    );
    assert_eq!(
        pool.decrease_validator_stake(&mut list, &staker, &key(60), 1, 1),
        Err(StakePoolError::ValidatorNotFound)
    );
    assert_eq!(pool.decrease_validator_stake(&mut list, &staker, &key(1), 4_000_000, 8), Ok(()));
    assert_eq!(
        list.validators[0],
        ValidatorStakeInfo {
            active_stake_lamports: 1_000_000,
            transient_stake_lamports: 4_000_000,
            last_update_epoch: 5,
            transient_seed_suffix: 8,
            unused: 0,
            validator_seed_suffix: 0,
            status: StakeStatus::DeactivatingTransient.into(),
            vote_account_address: key(1),
        }
    );
    assert_eq!(
        pool.decrease_validator_stake(&mut list, &staker, &key(1), 1, 8),
        Err(StakePoolError::InvalidState)
    );

    // removal
    assert_eq!(
        pool.remove_validator_from_pool(&mut list, &key(3), &key(3)),
        Err(StakePoolError::WrongStaker)
    );
    assert_eq!(
        pool.remove_validator_from_pool(&mut list, &staker, &key(70)),
        Err(StakePoolError::ValidatorNotFound)
    );
    assert_eq!(pool.remove_validator_from_pool(&mut list, &staker, &key(3)), Ok(()));
    assert_eq!(list.validators[2].status, StakeStatus::DeactivatingValidator.into());
    assert_eq!(pool.remove_validator_from_pool(&mut list, &staker, &key(1)), Ok(()));
    assert_eq!(list.validators[0].status, StakeStatus::DeactivatingAll.into());
    assert_eq!(pool.remove_validator_from_pool(&mut list, &staker, &key(2)), Ok(()));
    assert_eq!(list.validators[1].status, StakeStatus::DeactivatingAll.into());
    assert_eq!(
        pool.remove_validator_from_pool(&mut list, &staker, &key(2)),
        Err(StakePoolError::InvalidState)
    );
    assert_eq!(
        pool.increase_validator_stake(&mut list, &staker, &key(3), 1, 1),
        Err(StakePoolError::InvalidState)
    );
}

#[test]
fn further_decrease_joins_the_deactivating_transient() {
    let pool = StakePool { staker: key(100), ..Default::default() };
    let staker = key(100);
    let mut list = list_of(2);
    list.validators[0].active_stake_lamports = 9_000_000;
    // no transient yet: a decrease like any other
    assert_eq!(
        pool.decrease_additional_validator_stake(&mut list, &staker, &key(1), 1_000_000, 4),
        Ok(())
    );
    assert_eq!(list.validators[0].status, StakeStatus::DeactivatingTransient.into());
    assert_eq!(list.validators[0].transient_stake_lamports, 1_000_000);
    assert_eq!(list.transient_budget_free(), 9);
    // the lamports join the transient
    assert_eq!(
        pool.decrease_additional_validator_stake(&mut list, &staker, &key(1), 2_000_000, 4),
        Ok(())
    );
    assert_eq!(
        (list.validators[0].active_stake_lamports, list.validators[0].transient_stake_lamports),
        (6_000_000, 3_000_000)
    );
    assert_eq!(list.transient_budget_free(), 9);
    let before = list.clone();
    // another seed, too much, too little left, the wrong signer, an unknown validator
    assert_eq!(
        pool.decrease_additional_validator_stake(&mut list, &staker, &key(1), 1, 5),
        Err(StakePoolError::TransientAccountInUse)
    );
    assert_eq!(
        pool.decrease_additional_validator_stake(&mut list, &staker, &key(1), 6_000_001, 4),
        Err(StakePoolError::CalculationFailure)
    );
    assert_eq!(
        pool.decrease_additional_validator_stake(&mut list, &staker, &key(1), 5_000_001, 4),
        Err(StakePoolError::StakeLamportsNotEqualToMinimum)
    );
    assert_eq!(
        pool.decrease_additional_validator_stake(&mut list, &key(1), &key(1), 1, 4),
        Err(StakePoolError::WrongStaker)
    );
    assert_eq!(
        pool.decrease_additional_validator_stake(&mut list, &staker, &key(9), 1, 4),
        Err(StakePoolError::ValidatorNotFound)
    );
    assert_eq!(list, before);
    // a transient that is activating is in the way
    list.validators[1].active_stake_lamports = 9_000_000;
    pool.increase_validator_stake(&mut list, &staker, &key(2), 500, 4).unwrap();
    assert_eq!(
        pool.decrease_additional_validator_stake(&mut list, &staker, &key(2), 1, 4),
        Err(StakePoolError::TransientAccountInUse)
    );
    list.validators[0].transient_stake_lamports = u64::MAX;
    assert_eq!(
        pool.decrease_additional_validator_stake(&mut list, &staker, &key(1), 1, 4),
        Err(StakePoolError::CalculationFailure)
    );
}

#[test]
fn transient_budget_is_enforced() {
    let pool = StakePool { staker: key(100), ..Default::default() };
    let staker = key(100);
    let mut list = list_of(12);
    for e in list.validators.iter_mut() {
        e.active_stake_lamports = 3_000_000;
    }
    for i in 1..=10u8 {
        if i % 2 == 0 {
            assert_eq!(pool.increase_validator_stake(&mut list, &staker, &key(i), 5, 0), Ok(()));
        } else {
            assert_eq!(pool.decrease_validator_stake(&mut list, &staker, &key(i), 5, 0), Ok(()));
        }
        assert_eq!(list.transient_budget_free(), 10 - i as usize);
    }
    let before = list.clone();
    assert_eq!(
        pool.increase_validator_stake(&mut list, &staker, &key(11), 5, 0),
        Err(StakePoolError::TransientAccountInUse)
    );
    assert_eq!(
        pool.decrease_validator_stake(&mut list, &staker, &key(12), 5, 0),
        Err(StakePoolError::TransientAccountInUse)
    );
    assert_eq!(list, before);
    let live = list.validators.iter().filter(|e| e.transient_stake_lamports > 0).count();
    assert_eq!(live, 10);
    // a transient that is merged frees its place
    let done = [ValidatorAccounts {
        validator_stake: account(3_000_000, StakePhase::Active),
        transient_stake: account(5, StakePhase::Inactive),
    }];
    list.update_validator_list_balance(0, &done, 6).unwrap();
    assert_eq!(list.transient_budget_free(), 1);
    assert_eq!(pool.increase_validator_stake(&mut list, &staker, &key(11), 5, 0), Ok(()));
}
