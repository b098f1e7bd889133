use fogo_stake_pool::state::{
    DerivedStakeAccount,
    AccountType, Fee, FeeType, FutureEpoch, FutureEpochFee, PodStakeStatus, StakePool,
    StakeStatus, ValidatorList, ValidatorListHeader, ValidatorStakeInfo,
};
use fogo_stake_pool::{ProgramError, Pubkey, StakePoolError};

#[test]
fn test_stake_pool_is_valid() {
    let mut pool = StakePool::default();
    assert!(!pool.is_valid());
    assert!(pool.is_uninitialized());

    pool.account_type = AccountType::StakePool;
    assert!(pool.is_valid());
    assert!(!pool.is_uninitialized());
}

#[test]
fn test_fee_apply() {
    let fee = Fee {
        numerator: 1,
        denominator: 10,
    };
    // 10% of 100 = 10
    assert_eq!(fee.apply(100), Some(10));

    // Zero denominator means zero fee
    let zero_fee = Fee {
        numerator: 1,
        denominator: 0,
    };
    assert_eq!(zero_fee.apply(100), Some(0));
}

#[test]
fn test_calc_pool_tokens_for_deposit() {
    let pool = StakePool {
        total_lamports: 1_000_000,
        pool_token_supply: 1_000_000,
        ..Default::default()
    };
    // 1:1 ratio
    assert_eq!(pool.calc_pool_tokens_for_deposit(100), Some(100));

    // Empty pool returns deposit amount
    let empty_pool = StakePool::default();
    assert_eq!(empty_pool.calc_pool_tokens_for_deposit(100), Some(100));
}

#[test]
fn test_future_epoch() {
    let mut future: FutureEpoch<u64> = FutureEpoch::new(42);
    assert_eq!(future.get(), None); // Two epochs away

    future.update_epoch();
    assert_eq!(future.get(), Some(&42)); // One epoch away, ready

    future.update_epoch();
    assert_eq!(future.get(), None); // Gone
}

#[test]
fn fee_apply_rounds_up() {
    let fee = Fee { numerator: 1, denominator: 3 };
    assert_eq!(fee.apply(0), Some(0));
    assert_eq!(fee.apply(1), Some(1));
    assert_eq!(fee.apply(3), Some(1));
    assert_eq!(fee.apply(4), Some(2));
    assert_eq!(fee.apply(10), Some(4));
    let whole = Fee { numerator: u64::MAX, denominator: 1 };
    assert_eq!(
        whole.apply(u64::MAX),
        Some((u64::MAX as u128) * (u64::MAX as u128))
    );
    let none = Fee { numerator: 0, denominator: 7 };
    assert_eq!(none.apply(1_000), Some(0));
}

#[test]
fn fee_in_words() {
    assert_eq!(Fee { numerator: 3, denominator: 1000 }.to_string(), "3/1000");
    assert_eq!(Fee { numerator: 0, denominator: 1000 }.to_string(), "none");
    assert_eq!(Fee { numerator: 5, denominator: 0 }.to_string(), "none");
    assert_eq!(
        Fee { numerator: u64::MAX, denominator: 10 }.to_string(),
        format!("{}/10", u64::MAX)
    );
    assert_eq!(Fee::default().to_string(), "none");
}

#[test]
fn fee_type_limits() {
    assert!(!FeeType::SolReferral(100).is_too_high());
    assert!(FeeType::SolReferral(101).is_too_high());
    assert!(!FeeType::StakeReferral(0).is_too_high());
    assert!(FeeType::StakeReferral(255).is_too_high());
    let one = Fee { numerator: 7, denominator: 7 };
    let more = Fee { numerator: 8, denominator: 7 };
    assert!(!FeeType::Epoch(one).is_too_high());
    assert!(FeeType::Epoch(more).is_too_high());
    assert!(!FeeType::StakeWithdrawal(one).is_too_high());
    assert!(FeeType::StakeWithdrawal(more).is_too_high());
    assert!(!FeeType::SolWithdrawal(one).is_too_high());
    assert!(FeeType::SolWithdrawal(more).is_too_high());
    assert!(!FeeType::SolDeposit(one).is_too_high());
    assert!(FeeType::SolDeposit(more).is_too_high());
    assert!(!FeeType::StakeDeposit(one).is_too_high());
    assert!(FeeType::StakeDeposit(more).is_too_high());

    assert!(FeeType::Epoch(one).can_only_change_next_epoch());
    assert!(FeeType::StakeWithdrawal(one).can_only_change_next_epoch());
    assert!(FeeType::SolWithdrawal(one).can_only_change_next_epoch());
    assert!(!FeeType::SolDeposit(one).can_only_change_next_epoch());
    assert!(!FeeType::StakeDeposit(one).can_only_change_next_epoch());
    assert!(!FeeType::SolReferral(1).can_only_change_next_epoch());
    assert!(!FeeType::StakeReferral(1).can_only_change_next_epoch());
}

#[test]
fn withdrawal_fee_increase_is_limited() {
    let old = Fee { numerator: 2, denominator: 100 };
    // 3/100 is exactly 3/2 of 2/100
    assert_eq!(Fee { numerator: 3, denominator: 100 }.check_withdrawal(&old), Ok(()));
    assert_eq!(
        Fee { numerator: 4, denominator: 100 }.check_withdrawal(&old),
        Err(StakePoolError::FeeIncreaseTooHigh)
    );
    // a zero fee counts as 1/1000: at most 3/2000 may follow
    let zero = Fee { numerator: 0, denominator: 0 };
    assert_eq!(Fee { numerator: 3, denominator: 2000 }.check_withdrawal(&zero), Ok(()));
    assert_eq!(
        Fee { numerator: 4, denominator: 2000 }.check_withdrawal(&zero),
        Err(StakePoolError::FeeIncreaseTooHigh)
    );
    // a decrease is always allowed
    assert_eq!(Fee { numerator: 0, denominator: 1 }.check_withdrawal(&old), Ok(()));
    // too large to compare
    let huge = Fee { numerator: u64::MAX, denominator: u64::MAX };
    assert_eq!(
        huge.check_withdrawal(&Fee { numerator: u64::MAX, denominator: u64::MAX }),
        Err(StakePoolError::CalculationFailure)
    );
    assert_eq!(fogo_stake_pool::fee::max_withdrawal_fee_increase(), Fee { numerator: 3, denominator: 2 });
    assert_eq!(fogo_stake_pool::fee::withdrawal_baseline_fee(), Fee { numerator: 1, denominator: 1000 });
}

#[test]
fn future_epoch_fee_counts_down() {
    let fee = Fee { numerator: 1, denominator: 100 };
    let mut pending = FutureEpochFee::new(fee);
    assert_eq!(pending, FutureEpochFee::Two(fee));
    assert_eq!(pending.get(), None);
    pending.update_epoch();
    assert_eq!(pending, FutureEpochFee::One(fee));
    assert_eq!(pending.get(), Some(&fee));
    pending.update_epoch();
    assert_eq!(pending, FutureEpochFee::Unset);
    assert_eq!(pending.get(), None);
    pending.update_epoch();
    assert_eq!(pending, FutureEpochFee::Unset);
    assert_eq!(FutureEpochFee::default(), FutureEpochFee::Unset);
    assert_eq!(FutureEpoch::<u64>::default(), FutureEpoch::Unset);
}

#[test]
fn future_epoch_conversions() {
    let fee = Fee { numerator: 1, denominator: 100 };
    assert_eq!(Option::<Fee>::from(FutureEpochFee::Unset), None);
    assert_eq!(Option::<Fee>::from(FutureEpochFee::One(fee)), Some(fee));
    assert_eq!(Option::<Fee>::from(FutureEpochFee::Two(fee)), Some(fee));
    assert_eq!(Option::<u64>::from(FutureEpoch::<u64>::Unset), None);
    assert_eq!(Option::<u64>::from(FutureEpoch::One(7u64)), Some(7));
    assert_eq!(Option::<u64>::from(FutureEpoch::Two(8u64)), Some(8));
    assert_eq!(FutureEpochFee::from(FutureEpoch::<Fee>::Unset), FutureEpochFee::Unset);
    assert_eq!(FutureEpochFee::from(FutureEpoch::One(fee)), FutureEpochFee::One(fee));
    assert_eq!(FutureEpochFee::from(FutureEpoch::Two(fee)), FutureEpochFee::Two(fee));
    assert_eq!(FutureEpoch::<Fee>::from(FutureEpochFee::Unset), FutureEpoch::Unset);
    assert_eq!(FutureEpoch::<Fee>::from(FutureEpochFee::One(fee)), FutureEpoch::One(fee));
    assert_eq!(FutureEpoch::<Fee>::from(FutureEpochFee::Two(fee)), FutureEpoch::Two(fee));
}

#[test]
fn exchange_rate_formulas() {
    let pool = StakePool {
        total_lamports: 1_100_000_000,
        pool_token_supply: 1_000_000_000,
        ..Default::default()
    };
    // floor(1_000 * 1e9 / 1.1e9) = 909
    assert_eq!(pool.calc_pool_tokens_for_deposit(1_000), Some(909));
    // floor(1_000 * 1.1e9 / 1e9) = 1_100
    assert_eq!(pool.calc_lamports_withdraw_amount(1_000), Some(1_100));
    assert_eq!(pool.calc_lamports_withdraw_amount(0), Some(0));
    // ceil(1.1e9 / 1e9) = 2
    assert_eq!(pool.get_lamports_per_pool_token(), Some(2));

    let more_tokens = StakePool {
        total_lamports: 10,
        pool_token_supply: 25,
        ..Default::default()
    };
    // 2 * 10 < 25: below one lamport
    assert_eq!(more_tokens.calc_lamports_withdraw_amount(2), Some(0));
    assert_eq!(more_tokens.calc_lamports_withdraw_amount(3), Some(1));
    assert_eq!(more_tokens.get_lamports_per_pool_token(), Some(1));

    let empty = StakePool::default();
    assert_eq!(empty.calc_lamports_withdraw_amount(5), Some(0));
    assert_eq!(empty.get_lamports_per_pool_token(), None);

    let overflowing = StakePool {
        total_lamports: 1,
        pool_token_supply: u64::MAX,
        ..Default::default()
    };
    assert_eq!(overflowing.calc_pool_tokens_for_deposit(2), None);
    assert_eq!(overflowing.get_lamports_per_pool_token(), None);
    let rich = StakePool {
        total_lamports: u64::MAX,
        pool_token_supply: 1,
        ..Default::default()
    };
    assert_eq!(rich.calc_lamports_withdraw_amount(2), None);
}

#[test]
fn fee_calculations_of_the_pool() {
    let pool = StakePool {
        stake_deposit_fee: Fee { numerator: 5, denominator: 1000 },
        stake_withdrawal_fee: Fee { numerator: 10, denominator: 1000 },
        sol_deposit_fee: Fee { numerator: 3, denominator: 1000 },
        sol_withdrawal_fee: Fee { numerator: 8, denominator: 1000 },
        stake_referral_fee: 50,
        sol_referral_fee: 25,
        ..Default::default()
    };
    assert_eq!(pool.calc_pool_tokens_stake_deposit_fee(1_000_000), Some(5_000));
    assert_eq!(pool.calc_pool_tokens_stake_withdrawal_fee(1_000_000), Some(10_000));
    assert_eq!(pool.calc_pool_tokens_sol_deposit_fee(1_000_000), Some(3_000));
    assert_eq!(pool.calc_pool_tokens_sol_withdrawal_fee(1_000_000), Some(8_000));
    // rounded up
    assert_eq!(pool.calc_pool_tokens_sol_deposit_fee(1), Some(1));
    // floor(5_001 * 50 / 100)
    assert_eq!(pool.calc_pool_tokens_stake_referral_fee(5_001), Some(2_500));
    // floor(3_001 * 25 / 100)
    assert_eq!(pool.calc_pool_tokens_sol_referral_fee(3_001), Some(750));

    let greedy = StakePool {
        sol_deposit_fee: Fee { numerator: u64::MAX, denominator: 1 },
        sol_referral_fee: 255,
        ..Default::default()
    };
    assert_eq!(greedy.calc_pool_tokens_sol_deposit_fee(2), None);
    assert_eq!(greedy.calc_pool_tokens_sol_referral_fee(u64::MAX), None);
}

#[test]
fn epoch_fee_amount() {
    let pool = StakePool {
        total_lamports: 1_000_000_000,
        pool_token_supply: 1_000_000_000,
        epoch_fee: Fee { numerator: 1, denominator: 100 },
        ..Default::default()
    };
    assert_eq!(pool.calc_epoch_fee_amount(0), Some(0));
    // total 1.1e9, fee 1e6 lamports: 1e9 * 1e6 / (1.1e9 - 1e6)
    assert_eq!(pool.calc_epoch_fee_amount(100_000_000), Some(909_918));

    // no supply yet: one token per lamport of reward
    let unminted = StakePool {
        epoch_fee: Fee { numerator: 1, denominator: 100 },
        ..Default::default()
    };
    assert_eq!(unminted.calc_epoch_fee_amount(500), Some(500));

    // the fee is the whole pool
    let all = StakePool {
        total_lamports: 0,
        pool_token_supply: 10,
        epoch_fee: Fee { numerator: 1, denominator: 1 },
        ..Default::default()
    };
    assert_eq!(all.calc_epoch_fee_amount(500), Some(500));

    // a fee above the whole exceeds the total
    let too_much = StakePool {
        total_lamports: 10,
        pool_token_supply: 10,
        epoch_fee: Fee { numerator: 3, denominator: 1 },
        ..Default::default()
    };
    assert_eq!(too_much.calc_epoch_fee_amount(100), None);
}

#[test]
fn stake_status_bytes() {
    assert_eq!(StakeStatus::default(), StakeStatus::Active);
    let all = [
        (StakeStatus::Active, 0u8),
        (StakeStatus::DeactivatingTransient, 1),
        (StakeStatus::ReadyForRemoval, 2),
        (StakeStatus::DeactivatingValidator, 3),
        (StakeStatus::DeactivatingAll, 4),
    ];
    for (status, byte) in all {
        assert_eq!(status.to_u8(), byte);
        assert_eq!(StakeStatus::from_u8(byte), Some(status));
        assert_eq!(PodStakeStatus::from(status), PodStakeStatus(byte));
        assert_eq!(StakeStatus::try_from(PodStakeStatus(byte)), Ok(status));
    }
    assert_eq!(StakeStatus::from_u8(5), None);
    assert_eq!(
        StakeStatus::try_from(PodStakeStatus(5)),
        Err(ProgramError::InvalidAccountData)
    );
    assert_eq!(
        StakeStatus::try_from(PodStakeStatus(255)),
        Err(ProgramError::InvalidAccountData)
    );
}

fn key(seed: u8) -> Pubkey {
    let mut bytes = [0u8; 32];
    bytes[0] = seed;
    bytes[31] = seed.wrapping_mul(3);
    Pubkey::new_from_array(bytes)
}

#[test]
fn pubkey_basics() {
    assert_eq!(Pubkey::default().to_bytes(), [0u8; 32]);
    let k = key(9);
    assert_eq!(k, Pubkey::new_from_array(k.to_bytes()));
    assert_ne!(k, key(10));
    assert_eq!(k.to_vec(), k.to_bytes().to_vec());
    assert_eq!(Pubkey::try_from_slice(&k.to_bytes()), Some(k));
    assert_eq!(Pubkey::try_from_slice(&[1u8; 31]), None);
    assert_eq!(Pubkey::try_from_slice(&[1u8; 33]), None);
    let mut last_differs = k.to_bytes();
    last_differs[31] ^= 1;
    assert_ne!(k, Pubkey::new_from_array(last_differs));
}

#[test]
fn validator_entry_scans() {
    let entry = ValidatorStakeInfo {
        active_stake_lamports: 100_000_000,
        transient_stake_lamports: 50_000_000,
        last_update_epoch: 99,
        transient_seed_suffix: 1,
        unused: 0,
        validator_seed_suffix: 42,
        status: StakeStatus::Active.into(),
        vote_account_address: key(7),
    };
    assert_eq!(entry.stake_lamports(), Some(150_000_000));
    let mut data = [0xAAu8; 80];
    entry.pack_into_slice(&mut data);
    assert_eq!(&data[73..], &[0xAAu8; 7]);
    assert_eq!(&data[0..8], &100_000_000u64.to_le_bytes());
    assert_eq!(&data[8..16], &50_000_000u64.to_le_bytes());
    assert_eq!(&data[16..24], &99u64.to_le_bytes());
    assert_eq!(&data[24..32], &1u64.to_le_bytes());
    assert_eq!(&data[32..36], &0u32.to_le_bytes());
    assert_eq!(&data[36..40], &42u32.to_le_bytes());
    assert_eq!(data[40], 0);
    assert_eq!(&data[41..73], &key(7).to_bytes());

    assert!(ValidatorStakeInfo::memcmp_pubkey(&data, &key(7)));
    assert!(!ValidatorStakeInfo::memcmp_pubkey(&data, &key(8)));
    assert!(ValidatorStakeInfo::active_lamports_greater_than(&data, &99_999_999));
    assert!(!ValidatorStakeInfo::active_lamports_greater_than(&data, &100_000_000));
    assert!(ValidatorStakeInfo::transient_lamports_greater_than(&data, &49_999_999));
    assert!(!ValidatorStakeInfo::transient_lamports_greater_than(&data, &50_000_000));
    assert!(ValidatorStakeInfo::is_active(&data));
    assert!(!ValidatorStakeInfo::is_removed(&data));

    assert_eq!(ValidatorStakeInfo::unpack_from_slice(&data[..73]), Ok(entry));
    assert_eq!(
        ValidatorStakeInfo::unpack_from_slice(&data[..72]),
        Err(ProgramError::BorshIoError)
    );
    assert_eq!(
        ValidatorStakeInfo::unpack_from_slice(&data),
        Err(ProgramError::BorshIoError)
    );

    let removed = ValidatorStakeInfo {
        active_stake_lamports: 0,
        transient_stake_lamports: 0,
        status: StakeStatus::ReadyForRemoval.into(),
        ..entry
    };
    let mut bytes = [0u8; 73];
    removed.pack_into_slice(&mut bytes);
    assert!(ValidatorStakeInfo::is_removed(&bytes));
    assert!(!ValidatorStakeInfo::is_active(&bytes));
    bytes[15] = 1;
    assert!(!ValidatorStakeInfo::is_removed(&bytes));

    let full = ValidatorStakeInfo {
        active_stake_lamports: u64::MAX,
        transient_stake_lamports: 1,
        ..entry
    };
    assert_eq!(full.stake_lamports(), None);
    assert_eq!(ValidatorStakeInfo::LEN, 73);
    assert_eq!(ValidatorStakeInfo::default().stake_lamports(), Some(0));
}

#[test]
fn validator_list_basics() {
    assert_eq!(ValidatorListHeader::LEN, 5);
    let header = ValidatorListHeader::default();
    assert!(header.is_uninitialized());
    assert!(!header.is_valid());

    let sized = ValidatorList::new(3);
    assert!(sized.header.is_valid());
    assert!(!sized.header.is_uninitialized());
    assert_eq!(sized.header.max_validators, 3);
    assert_eq!(sized.validators, vec![ValidatorStakeInfo::default(); 3]);
    assert!(!sized.has_active_stake());

    assert_eq!(ValidatorList::calculate_max_validators(0), 0);
    assert_eq!(ValidatorList::calculate_max_validators(8), 0);
    assert_eq!(ValidatorList::calculate_max_validators(9 + 72), 0);
    assert_eq!(ValidatorList::calculate_max_validators(9 + 73), 1);
    assert_eq!(ValidatorList::calculate_max_validators(9 + 73 * 20_000 + 5), 20_000);

    let mut list = ValidatorList::new_empty(2);
    assert_eq!(list.validators.len(), 0);
    assert_eq!(list.add(key(1), 0, 7, &DerivedStakeAccount::Vacant), Ok(()));
    assert_eq!(list.add(key(1), 0, 7, &DerivedStakeAccount::Vacant), Err(StakePoolError::ValidatorAlreadyAdded));
    assert_eq!(list.add(key(2), 5, 7, &DerivedStakeAccount::Vacant), Ok(()));
    assert_eq!(list.add(key(3), 0, 7, &DerivedStakeAccount::Vacant), Err(StakePoolError::TooManyValidators));
    assert_eq!(list.add(key(1), 0, 7, &DerivedStakeAccount::Vacant), Err(StakePoolError::TooManyValidators));
    assert!(list.contains(&key(1)));
    assert!(list.contains(&key(2)));
    assert!(!list.contains(&key(3)));
    // what stands at the derived stake account address
    let mut roomy = ValidatorList::new_empty(3);
    assert_eq!(
        roomy.add(key(1), 0, 7, &DerivedStakeAccount::Foreign),
        Err(StakePoolError::AlreadyInUse)
    );
    assert_eq!(
        roomy.add(key(1), 0, 7, &DerivedStakeAccount::Delegated { vote: key(2) }),
        Err(StakePoolError::InvalidState)
    );
    assert!(roomy.validators.is_empty());
    assert_eq!(roomy.add(key(1), 0, 7, &DerivedStakeAccount::Delegated { vote: key(1) }), Ok(()));
    assert_eq!(
        roomy.add(key(1), 0, 7, &DerivedStakeAccount::Foreign),
        Err(StakePoolError::ValidatorAlreadyAdded)
    );
    assert_eq!(roomy.validators.len(), 1);
    assert_eq!(list.position(&key(2)), Some(1));
    assert_eq!(list.position(&key(3)), None);
    assert_eq!(
        list.find(&key(2)),
        Some(&ValidatorStakeInfo {
            last_update_epoch: 7,
            validator_seed_suffix: 5,
            vote_account_address: key(2),
            ..ValidatorStakeInfo::default()
        })
    );
    assert_eq!(list.find(&key(3)), None);
    assert!(!list.has_active_stake());
    list.find_mut(&key(2)).unwrap().active_stake_lamports = 10;
    assert_eq!(list.validators[1].active_stake_lamports, 10);
    assert_eq!(list.validators[0].active_stake_lamports, 0);
    assert!(list.has_active_stake());
    assert!(list.find_mut(&key(3)).is_none());
    assert_eq!(list.transient_budget_free(), 10);

    assert_eq!(list.remove(&key(3)), Err(StakePoolError::ValidatorNotFound));
    assert_eq!(list.remove(&key(1)), Err(StakePoolError::InvalidState));
    list.find_mut(&key(1)).unwrap().status = StakeStatus::ReadyForRemoval.into();
    assert_eq!(list.remove(&key(1)), Ok(()));
    assert_eq!(list.validators.len(), 1);
    assert_eq!(list.validators[0].vote_account_address, key(2));
}

#[test]
fn a_pool_supports_twenty_thousand_validators() {
    let mut list = ValidatorList::new_empty(u32::MAX);
    for i in 0..20_000u32 {
        let mut bytes = [0u8; 32];
        bytes[..4].copy_from_slice(&i.to_le_bytes());
        list.validators.push(ValidatorStakeInfo {
            vote_account_address: Pubkey::new_from_array(bytes),
            ..ValidatorStakeInfo::default()
        });
    }
    list.validators.pop();
    assert_eq!(list.add(key(200), 0, 0, &DerivedStakeAccount::Vacant), Ok(()));
    assert_eq!(list.validators.len(), 20_000);
    assert_eq!(
        list.add(key(201), 0, 0, &DerivedStakeAccount::Vacant),
        Err(StakePoolError::TooManyValidators)
    );
}

#[test]
fn cleanup_is_idempotent_and_keeps_order() {
    let mut list = ValidatorList::new_empty(10);
    for i in 1..=6u8 {
        list.add(key(i), 0, 0, &DerivedStakeAccount::Vacant).unwrap();
    }
    list.find_mut(&key(2)).unwrap().status = StakeStatus::ReadyForRemoval.into();
    list.find_mut(&key(5)).unwrap().status = StakeStatus::ReadyForRemoval.into();
    list.find_mut(&key(6)).unwrap().status = StakeStatus::ReadyForRemoval.into();
    list.cleanup_removed_validator_entries();
    let votes: Vec<Pubkey> = list.validators.iter().map(|v| v.vote_account_address).collect();
    assert_eq!(votes, vec![key(1), key(3), key(4)]);
    let once = list.clone();
    list.cleanup_removed_validator_entries();
    assert_eq!(list, once);
}

#[test]
fn transient_budget_counts_live_transients() {
    let mut list = ValidatorList::new_empty(20);
    for i in 1..=12u8 {
        list.add(key(i), 0, 0, &DerivedStakeAccount::Vacant).unwrap();
    }
    assert_eq!(list.transient_budget_free(), 10);
    for i in 1..=4u8 {
        list.find_mut(&key(i)).unwrap().transient_stake_lamports = 5;
    }
    assert_eq!(list.transient_budget_free(), 6);
    for i in 5..=12u8 {
        list.find_mut(&key(i)).unwrap().transient_stake_lamports = 5;
    }
    assert_eq!(list.transient_budget_free(), 0);
}
