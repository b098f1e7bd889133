//! The byte layouts, held against bytes that borsh, bytemuck and spl-pod write.

use borsh::BorshSerialize;
use fogo_stake_pool::state as interface;
use fogo_stake_pool::DerivedStakeAccount;
use fogo_stake_pool::state_codec::{read_account_type, read_future_epoch_fee};
use fogo_stake_pool::{ProgramError, Pubkey};
use solana_program::stake::state::Lockup;
use spl_pod::primitives::{PodU32, PodU64};

type Key = solana_program::pubkey::Pubkey;

fn ours(key: &Key) -> Pubkey {
    Pubkey::new_from_array(key.to_bytes())
}

/// Helper function to serialize using borsh
fn serialize<T: BorshSerialize>(value: &T) -> Vec<u8> {
    borsh::to_vec(value).expect("serialization failed")
}

/// A fee as borsh sees it: the two fields in their order.
#[derive(Clone, Copy)]
struct ProgramFee {
    denominator: u64,
    numerator: u64,
}

fn serialize_fee(fee: &ProgramFee) -> Vec<u8> {
    serialize(&(fee.denominator, fee.numerator))
}

/// A pending fee as borsh sees it: the index of the variant, then its field.
#[derive(Clone, Copy)]
enum ProgramFutureEpoch {
    Nothing,
    One(ProgramFee),
    Two(ProgramFee),
}

fn serialize_future_epoch(value: &ProgramFutureEpoch) -> Vec<u8> {
    match value {
        ProgramFutureEpoch::Nothing => serialize(&0u8),
        ProgramFutureEpoch::One(fee) => [serialize(&1u8), serialize_fee(fee)].concat(),
        ProgramFutureEpoch::Two(fee) => [serialize(&2u8), serialize_fee(fee)].concat(),
    }
}

struct ProgramStakePool {
    account_type: u8,
    manager: Key,
    staker: Key,
    stake_deposit_authority: Key,
    stake_withdraw_bump_seed: u8,
    validator_list: Key,
    reserve_stake: Key,
    pool_mint: Key,
    manager_fee_account: Key,
    token_program_id: Key,
    total_lamports: u64,
    pool_token_supply: u64,
    last_update_epoch: u64,
    lockup: Lockup,
    epoch_fee: ProgramFee,
    next_epoch_fee: ProgramFutureEpoch,
    preferred_deposit_validator_vote_address: Option<Key>,
    preferred_withdraw_validator_vote_address: Option<Key>,
    stake_deposit_fee: ProgramFee,
    stake_withdrawal_fee: ProgramFee,
    next_stake_withdrawal_fee: ProgramFutureEpoch,
    stake_referral_fee: u8,
    sol_deposit_authority: Option<Key>,
    sol_deposit_fee: ProgramFee,
    sol_referral_fee: u8,
    sol_withdraw_authority: Option<Key>,
    sol_withdrawal_fee: ProgramFee,
    next_sol_withdrawal_fee: ProgramFutureEpoch,
    last_epoch_pool_token_supply: u64,
    last_epoch_total_lamports: u64,
}

fn serialize_stake_pool(pool: &ProgramStakePool) -> Vec<u8> {
    [
        serialize(&pool.account_type),
        serialize(&pool.manager.to_bytes()),
        serialize(&pool.staker.to_bytes()),
        serialize(&pool.stake_deposit_authority.to_bytes()),
        serialize(&pool.stake_withdraw_bump_seed),
        serialize(&pool.validator_list.to_bytes()),
        serialize(&pool.reserve_stake.to_bytes()),
        serialize(&pool.pool_mint.to_bytes()),
        serialize(&pool.manager_fee_account.to_bytes()),
        serialize(&pool.token_program_id.to_bytes()),
        serialize(&pool.total_lamports),
        serialize(&pool.pool_token_supply),
        serialize(&pool.last_update_epoch),
        serialize(&(
            pool.lockup.unix_timestamp,
            pool.lockup.epoch,
            pool.lockup.custodian.to_bytes(),
        )),
        serialize_fee(&pool.epoch_fee),
        serialize_future_epoch(&pool.next_epoch_fee),
        serialize(&pool.preferred_deposit_validator_vote_address.map(|k| k.to_bytes())),
        serialize(&pool.preferred_withdraw_validator_vote_address.map(|k| k.to_bytes())),
        serialize_fee(&pool.stake_deposit_fee),
        serialize_fee(&pool.stake_withdrawal_fee),
        serialize_future_epoch(&pool.next_stake_withdrawal_fee),
        serialize(&pool.stake_referral_fee),
        serialize(&pool.sol_deposit_authority.map(|k| k.to_bytes())),
        serialize_fee(&pool.sol_deposit_fee),
        serialize(&pool.sol_referral_fee),
        serialize(&pool.sol_withdraw_authority.map(|k| k.to_bytes())),
        serialize_fee(&pool.sol_withdrawal_fee),
        serialize_future_epoch(&pool.next_sol_withdrawal_fee),
        serialize(&pool.last_epoch_pool_token_supply),
        serialize(&pool.last_epoch_total_lamports),
    ]
    .concat()
}

/// Creates a sample StakePool with all fields populated for testing
fn create_sample_program_stake_pool() -> ProgramStakePool {
    ProgramStakePool {
        account_type: 1,
        manager: Key::new_unique(),
        staker: Key::new_unique(),
        stake_deposit_authority: Key::new_unique(),
        stake_withdraw_bump_seed: 255,
        validator_list: Key::new_unique(),
        reserve_stake: Key::new_unique(),
        pool_mint: Key::new_unique(),
        manager_fee_account: Key::new_unique(),
        token_program_id: Key::new_unique(),
        total_lamports: 1_000_000_000,
        pool_token_supply: 500_000_000,
        last_update_epoch: 100,
        lockup: Lockup {
            unix_timestamp: 1234567890,
            epoch: 50,
            custodian: Key::new_unique(),
        },
        epoch_fee: ProgramFee {
            denominator: 100,
            numerator: 1,
        },
        next_epoch_fee: ProgramFutureEpoch::Nothing,
        preferred_deposit_validator_vote_address: Some(Key::new_unique()),
        preferred_withdraw_validator_vote_address: None,
        stake_deposit_fee: ProgramFee {
            denominator: 1000,
            numerator: 5,
        },
        stake_withdrawal_fee: ProgramFee {
            denominator: 1000,
            numerator: 10,
        },
        next_stake_withdrawal_fee: ProgramFutureEpoch::Nothing,
        stake_referral_fee: 50,
        sol_deposit_authority: Some(Key::new_unique()),
        sol_deposit_fee: ProgramFee {
            denominator: 1000,
            numerator: 3,
        },
        sol_referral_fee: 25,
        sol_withdraw_authority: None,
        sol_withdrawal_fee: ProgramFee {
            denominator: 1000,
            numerator: 8,
        },
        next_sol_withdrawal_fee: ProgramFutureEpoch::Nothing,
        last_epoch_pool_token_supply: 400_000_000,
        last_epoch_total_lamports: 900_000_000,
    }
}

/// Creates a sample Fee for testing
fn create_sample_program_fee() -> ProgramFee {
    ProgramFee {
        denominator: 10000,
        numerator: 250,
    }
}

#[test]
fn stake_pool_serialization_compatibility() {
    let program_pool = create_sample_program_stake_pool();

    // Serialize using borsh
    let serialized = serialize_stake_pool(&program_pool);

    // Deserialize using interface types
    let interface_pool = interface::StakePool::try_from_slice(&serialized).unwrap();

    // Verify key fields match
    assert_eq!(
        interface_pool.account_type,
        interface::AccountType::StakePool
    );
    assert_eq!(interface_pool.manager, ours(&program_pool.manager));
    assert_eq!(interface_pool.staker, ours(&program_pool.staker));
    assert_eq!(
        interface_pool.stake_deposit_authority,
        ours(&program_pool.stake_deposit_authority)
    );
    assert_eq!(
        interface_pool.stake_withdraw_bump_seed,
        program_pool.stake_withdraw_bump_seed
    );
    assert_eq!(interface_pool.validator_list, ours(&program_pool.validator_list));
    assert_eq!(interface_pool.reserve_stake, ours(&program_pool.reserve_stake));
    assert_eq!(interface_pool.pool_mint, ours(&program_pool.pool_mint));
    assert_eq!(
        interface_pool.manager_fee_account,
        ours(&program_pool.manager_fee_account)
    );
    assert_eq!(
        interface_pool.token_program_id,
        ours(&program_pool.token_program_id)
    );
    assert_eq!(interface_pool.total_lamports, program_pool.total_lamports);
    assert_eq!(
        interface_pool.pool_token_supply,
        program_pool.pool_token_supply
    );
    assert_eq!(
        interface_pool.last_update_epoch,
        program_pool.last_update_epoch
    );
    assert_eq!(
        interface_pool.lockup,
        interface::Lockup {
            unix_timestamp: program_pool.lockup.unix_timestamp,
            epoch: program_pool.lockup.epoch,
            custodian: ours(&program_pool.lockup.custodian),
        }
    );
    assert_eq!(
        interface_pool.epoch_fee.numerator,
        program_pool.epoch_fee.numerator
    );
    assert_eq!(
        interface_pool.epoch_fee.denominator,
        program_pool.epoch_fee.denominator
    );
    assert_eq!(
        interface_pool.preferred_deposit_validator_vote_address,
        program_pool
            .preferred_deposit_validator_vote_address
            .map(|k| ours(&k))
    );
    assert_eq!(
        interface_pool.preferred_withdraw_validator_vote_address,
        program_pool
            .preferred_withdraw_validator_vote_address
            .map(|k| ours(&k))
    );
    assert_eq!(
        interface_pool.stake_deposit_fee.numerator,
        program_pool.stake_deposit_fee.numerator
    );
    assert_eq!(
        interface_pool.stake_withdrawal_fee.numerator,
        program_pool.stake_withdrawal_fee.numerator
    );
    assert_eq!(
        interface_pool.stake_referral_fee,
        program_pool.stake_referral_fee
    );
    assert_eq!(
        interface_pool.sol_deposit_authority,
        program_pool.sol_deposit_authority.map(|k| ours(&k))
    );
    assert_eq!(
        interface_pool.sol_deposit_fee.numerator,
        program_pool.sol_deposit_fee.numerator
    );
    assert_eq!(
        interface_pool.sol_referral_fee,
        program_pool.sol_referral_fee
    );
    assert_eq!(
        interface_pool.sol_withdraw_authority,
        program_pool.sol_withdraw_authority.map(|k| ours(&k))
    );
    assert_eq!(
        interface_pool.sol_withdrawal_fee.numerator,
        program_pool.sol_withdrawal_fee.numerator
    );
    assert_eq!(
        interface_pool.last_epoch_pool_token_supply,
        program_pool.last_epoch_pool_token_supply
    );
    assert_eq!(
        interface_pool.last_epoch_total_lamports,
        program_pool.last_epoch_total_lamports
    );
}

#[test]
fn stake_pool_roundtrip_compatibility() {
    let program_pool = create_sample_program_stake_pool();

    // Serialize with borsh, deserialize with interface, serialize with interface
    let program_serialized = serialize_stake_pool(&program_pool);
    let interface_pool = interface::StakePool::try_from_slice(&program_serialized).unwrap();
    let interface_serialized = interface_pool.to_vec();

    // The serialized bytes should be identical
    assert_eq!(
        program_serialized, interface_serialized,
        "Roundtrip serialization mismatch - program and interface produce different bytes"
    );
}

#[test]
fn validator_list_header_serialization_compatibility() {
    // Serialize using borsh
    let serialized = serialize(&(2u8, 1000u32));

    // Deserialize using interface types
    let interface_header = interface::ValidatorListHeader::try_from_slice(&serialized).unwrap();

    // Verify fields match
    assert_eq!(
        interface_header.account_type,
        interface::AccountType::ValidatorList
    );
    assert_eq!(interface_header.max_validators, 1000);
}

#[test]
fn validator_list_header_roundtrip_compatibility() {
    let program_serialized = serialize(&(2u8, 1000u32));
    let interface_header =
        interface::ValidatorListHeader::try_from_slice(&program_serialized).unwrap();
    let interface_serialized = interface_header.to_vec();

    assert_eq!(
        program_serialized, interface_serialized,
        "ValidatorListHeader roundtrip serialization mismatch"
    );
}

#[test]
fn validator_stake_info_serialization_compatibility() {
    let active_stake_lamports = PodU64::from(100_000_000);
    let transient_stake_lamports = PodU64::from(50_000_000);
    let last_update_epoch = PodU64::from(99);
    let transient_seed_suffix = PodU64::from(1);
    let unused = PodU32::from(0);
    let validator_seed_suffix = PodU32::from(42);
    let status: interface::PodStakeStatus = interface::StakeStatus::Active.into();
    let vote_account_address = Key::new_unique();

    // the entry as bytemuck lays out the packed struct
    let serialized = [
        bytemuck::bytes_of(&active_stake_lamports),
        bytemuck::bytes_of(&transient_stake_lamports),
        bytemuck::bytes_of(&last_update_epoch),
        bytemuck::bytes_of(&transient_seed_suffix),
        bytemuck::bytes_of(&unused),
        bytemuck::bytes_of(&validator_seed_suffix),
        &[status.0],
        vote_account_address.as_ref(),
    ]
    .concat();

    // Deserialize using interface types
    let interface_info = interface::ValidatorStakeInfo::unpack_from_slice(&serialized).unwrap();

    // Verify fields match
    assert_eq!(
        interface_info.active_stake_lamports,
        u64::from(active_stake_lamports)
    );
    assert_eq!(
        interface_info.transient_stake_lamports,
        u64::from(transient_stake_lamports)
    );
    assert_eq!(
        interface_info.last_update_epoch,
        u64::from(last_update_epoch)
    );
    assert_eq!(
        interface_info.transient_seed_suffix,
        u64::from(transient_seed_suffix)
    );
    assert_eq!(interface_info.unused, u32::from(unused));
    assert_eq!(
        interface_info.validator_seed_suffix,
        u32::from(validator_seed_suffix)
    );
    assert_eq!(
        interface_info.vote_account_address,
        ours(&vote_account_address)
    );
}

#[test]
fn fee_serialization_compatibility() {
    let program_fee = create_sample_program_fee();

    // Serialize using borsh
    let serialized = serialize_fee(&program_fee);

    // Deserialize using interface types
    let (interface_fee, end) = fogo_stake_pool::state_codec::read_fee(&serialized, 0).unwrap();
    assert_eq!(end, serialized.len());

    // Verify fields match
    assert_eq!(interface_fee.numerator, program_fee.numerator);
    assert_eq!(interface_fee.denominator, program_fee.denominator);
}

#[test]
fn fee_roundtrip_compatibility() {
    let program_fee = create_sample_program_fee();

    let program_serialized = serialize_fee(&program_fee);
    let (interface_fee, _) = fogo_stake_pool::state_codec::read_fee(&program_serialized, 0).unwrap();
    let mut interface_serialized = Vec::new();
    fogo_stake_pool::state_codec::write_fee(&mut interface_serialized, &interface_fee);

    assert_eq!(
        program_serialized, interface_serialized,
        "Fee roundtrip serialization mismatch"
    );
}

#[test]
fn account_type_serialization_compatibility() {
    // Test all AccountType variants
    let variants = [
        (0u8, interface::AccountType::Uninitialized),
        (1u8, interface::AccountType::StakePool),
        (2u8, interface::AccountType::ValidatorList),
    ];

    for (program_variant, expected_interface_variant) in variants {
        let serialized = serialize(&program_variant);
        let (interface_variant, _) = read_account_type(&serialized, 0).unwrap();
        assert_eq!(
            interface_variant, expected_interface_variant,
            "AccountType variant mismatch"
        );
    }
    assert_eq!(read_account_type(&serialize(&3u8), 0), None);
}

#[test]
fn stake_status_serialization_compatibility() {
    // Test all StakeStatus variants
    let variants = [
        (0u8, interface::StakeStatus::Active),
        (1u8, interface::StakeStatus::DeactivatingTransient),
        (2u8, interface::StakeStatus::ReadyForRemoval),
        (3u8, interface::StakeStatus::DeactivatingValidator),
        (4u8, interface::StakeStatus::DeactivatingAll),
    ];

    for (program_variant, expected_interface_variant) in variants {
        let serialized = serialize(&program_variant);
        let interface_variant = interface::StakeStatus::from_u8(serialized[0]).unwrap();
        assert_eq!(
            interface_variant, expected_interface_variant,
            "StakeStatus variant mismatch"
        );
    }
}

#[test]
fn future_epoch_none_serialization_compatibility() {
    let program_future = ProgramFutureEpoch::Nothing;

    let serialized = serialize_future_epoch(&program_future);
    let (interface_future, _) = read_future_epoch_fee(&serialized, 0).unwrap();

    assert!(
        matches!(interface_future, interface::FutureEpochFee::Unset),
        "FutureEpoch::None mismatch"
    );
}

#[test]
fn future_epoch_one_serialization_compatibility() {
    let fee = ProgramFee {
        denominator: 100,
        numerator: 5,
    };
    let program_future = ProgramFutureEpoch::One(fee);

    let serialized = serialize_future_epoch(&program_future);
    let (interface_future, _) = read_future_epoch_fee(&serialized, 0).unwrap();

    match interface_future {
        interface::FutureEpochFee::One(interface_fee) => {
            assert_eq!(interface_fee.numerator, fee.numerator);
            assert_eq!(interface_fee.denominator, fee.denominator);
        }
        _ => panic!("Expected FutureEpoch::One"),
    }
}

#[test]
fn future_epoch_two_serialization_compatibility() {
    let fee = ProgramFee {
        denominator: 200,
        numerator: 10,
    };
    let program_future = ProgramFutureEpoch::Two(fee);

    let serialized = serialize_future_epoch(&program_future);
    let (interface_future, _) = read_future_epoch_fee(&serialized, 0).unwrap();

    match interface_future {
        interface::FutureEpochFee::Two(interface_fee) => {
            assert_eq!(interface_fee.numerator, fee.numerator);
            assert_eq!(interface_fee.denominator, fee.denominator);
        }
        _ => panic!("Expected FutureEpoch::Two"),
    }
}

#[test]
fn stake_pool_with_every_optional_field_round_trips() {
    let mut program_pool = create_sample_program_stake_pool();
    program_pool.lockup.unix_timestamp = -5;
    program_pool.next_epoch_fee = ProgramFutureEpoch::Two(ProgramFee { denominator: 7, numerator: 3 });
    program_pool.next_stake_withdrawal_fee =
        ProgramFutureEpoch::One(ProgramFee { denominator: 9, numerator: 2 });
    program_pool.next_sol_withdrawal_fee =
        ProgramFutureEpoch::Two(ProgramFee { denominator: u64::MAX, numerator: 1 });
    program_pool.preferred_withdraw_validator_vote_address = Some(Key::new_unique());
    program_pool.sol_withdraw_authority = Some(Key::new_unique());
    let bytes = serialize_stake_pool(&program_pool);
    let pool = interface::StakePool::try_from_slice(&bytes).unwrap();
    assert_eq!(pool.lockup.unix_timestamp, -5);
    assert_eq!(
        pool.next_epoch_fee,
        interface::FutureEpochFee::Two(interface::Fee { denominator: 7, numerator: 3 })
    );
    assert_eq!(
        pool.next_stake_withdrawal_fee,
        interface::FutureEpochFee::One(interface::Fee { denominator: 9, numerator: 2 })
    );
    assert_eq!(pool.to_vec(), bytes);
    assert_eq!(interface::StakePool::try_from_slice(&pool.to_vec()), Ok(pool.clone()));

    // bytes that follow the record: refused by the strict reading only
    let mut longer = bytes.clone();
    longer.extend_from_slice(&[0u8; 40]);
    assert_eq!(
        interface::StakePool::try_from_slice(&longer),
        Err(ProgramError::BorshIoError)
    );
    assert_eq!(
        interface::StakePool::try_from_slice_unchecked(&longer),
        Ok(pool.clone())
    );
    // a record cut short, and tags that no variant has
    assert_eq!(
        interface::StakePool::try_from_slice(&bytes[..bytes.len() - 1]),
        Err(ProgramError::BorshIoError)
    );
    assert_eq!(
        interface::StakePool::try_from_slice_unchecked(&[]),
        Err(ProgramError::BorshIoError)
    );
    let mut bad_type = bytes.clone();
    bad_type[0] = 3;
    assert_eq!(
        interface::StakePool::try_from_slice(&bad_type),
        Err(ProgramError::BorshIoError)
    );
    let mut bad_option = bytes.clone();
    let option_at = 1 + 32 * 3 + 1 + 32 * 5 + 8 * 3 + 48 + 16 + 17;
    assert_eq!(bad_option[option_at], 1);
    bad_option[option_at] = 2;
    assert_eq!(
        interface::StakePool::try_from_slice(&bad_option),
        Err(ProgramError::BorshIoError)
    );
    // the default record
    let default_bytes = interface::StakePool::default().to_vec();
    assert_eq!(default_bytes.len(), 1 + 32 * 3 + 1 + 32 * 5 + 8 * 3 + 48 + 16 + 1 + 1 + 1 + 32 + 1 + 1 + 1 + 16 + 1 + 1 + 16 + 1 + 16);
    assert!(default_bytes.iter().all(|b| *b == 0));
    assert_eq!(
        interface::StakePool::try_from_slice(&default_bytes),
        Ok(interface::StakePool::default())
    );
}

#[test]
fn validator_list_round_trips() {
    let mut list = interface::ValidatorList::new_empty(5);
    list.add(ours(&Key::new_unique()), 0, 3, &DerivedStakeAccount::Vacant).unwrap();
    list.add(ours(&Key::new_unique()), 9, 3, &DerivedStakeAccount::Vacant).unwrap();
    list.validators[1].active_stake_lamports = 77;
    let bytes = list.to_vec();
    // header, count, entries
    assert_eq!(bytes.len(), 5 + 4 + 2 * 73);
    assert_eq!(&bytes[..9], &serialize(&(2u8, 5u32, 2u32))[..]);
    let mut first = [0u8; 73];
    list.validators[0].pack_into_slice(&mut first);
    assert_eq!(&bytes[9..82], &first);
    assert_eq!(interface::ValidatorList::try_from_slice(&bytes), Ok(list.clone()));

    // an account with room for five entries: zeroes follow the two in use
    let mut account = bytes.clone();
    account.resize(5 + 4 + 5 * 73, 0);
    assert_eq!(
        interface::ValidatorList::try_from_slice_unchecked(&account),
        Ok(list.clone())
    );
    assert_eq!(
        interface::ValidatorList::try_from_slice(&account),
        Err(ProgramError::BorshIoError)
    );
    assert_eq!(
        interface::ValidatorList::try_from_slice(&bytes[..bytes.len() - 1]),
        Err(ProgramError::BorshIoError)
    );
    assert_eq!(
        interface::ValidatorList::try_from_slice_unchecked(&bytes[..7]),
        Err(ProgramError::BorshIoError)
    );
    let empty = interface::ValidatorList::new_empty(0);
    assert_eq!(empty.to_vec(), serialize(&(2u8, 0u32, 0u32)));
    assert_eq!(
        interface::ValidatorListHeader::try_from_slice(&[2, 1, 0, 0]),
        Err(ProgramError::BorshIoError)
    );
    assert_eq!(
        interface::ValidatorListHeader::try_from_slice(&[2, 1, 0, 0, 0, 0]),
        Err(ProgramError::BorshIoError)
    );
}
