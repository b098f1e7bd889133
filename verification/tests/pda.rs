use fogo_stake_pool::pda::{
    find_program_signer_address, find_transient_wsol_program_address,
    try_find_deposit_authority_program_address, try_find_ephemeral_stake_program_address,
    try_find_program_signer_address, try_find_stake_program_address,
    try_find_transient_stake_program_address, try_find_transient_wsol_program_address,
    try_find_user_stake_program_address, try_find_withdraw_authority_program_address,
};
use fogo_stake_pool::{
    check_program_account, find_deposit_authority_program_address,
    find_ephemeral_stake_program_address, find_stake_program_address,
    find_transient_stake_program_address, find_user_stake_program_address,
    find_withdraw_authority_program_address, id, ProgramError, Pubkey,
};
use std::str::FromStr;

type Key = solana_program::pubkey::Pubkey;

fn ours(key: &Key) -> Pubkey {
    Pubkey::new_from_array(key.to_bytes())
}

fn theirs(key: &Pubkey) -> Key {
    Key::new_from_array(key.to_bytes())
}

fn theirs_with_bump(found: (Pubkey, u8)) -> (Key, u8) {
    (theirs(&found.0), found.1)
}

#[test]
fn test_validator_stake_account_derivation() {
    let vote = Key::new_unique();
    let stake_pool = Key::new_unique();
    let function_derived =
        find_stake_program_address(&id(), &ours(&vote), &ours(&stake_pool), None);
    let hand_derived =
        Key::find_program_address(&[vote.as_ref(), stake_pool.as_ref()], &theirs(&id()));
    assert_eq!(theirs_with_bump(function_derived), hand_derived);
}

#[test]
fn test_deposit_authority_derivation() {
    let stake_pool = ours(&Key::new_unique());
    let (pda, _bump) = find_deposit_authority_program_address(&id(), &stake_pool);
    // Verify it's a valid PDA (not on the ed25519 curve)
    assert!(!theirs(&pda).is_on_curve());
}

#[test]
fn test_withdraw_authority_derivation() {
    let stake_pool = ours(&Key::new_unique());
    let (pda, _bump) = find_withdraw_authority_program_address(&id(), &stake_pool);
    assert!(!theirs(&pda).is_on_curve());
}

#[test]
fn test_transient_stake_derivation() {
    let vote = ours(&Key::new_unique());
    let stake_pool = ours(&Key::new_unique());
    let (pda, _bump) = find_transient_stake_program_address(&id(), &vote, &stake_pool, 0);
    assert!(!theirs(&pda).is_on_curve());
}

#[test]
fn test_ephemeral_stake_derivation() {
    let stake_pool = ours(&Key::new_unique());
    let (pda, _bump) = find_ephemeral_stake_program_address(&id(), &stake_pool, 0);
    assert!(!theirs(&pda).is_on_curve());
}

#[test]
fn test_user_stake_derivation() {
    let user = ours(&Key::new_unique());
    let (pda, _bump) = find_user_stake_program_address(&id(), &user, 0);
    assert!(!theirs(&pda).is_on_curve());
}

#[test]
fn program_id_is_the_declared_address() {
    let declared = Key::from_str("SP1s4uFeTAX9jsXXmwyDs1gxYYf7cdDZ8qHUHVxE1yr").unwrap();
    assert_eq!(theirs(&id()), declared);
    assert_eq!(id().to_bytes(), fogo_stake_pool::ID);
    assert_eq!(check_program_account(&id()), Ok(()));
    assert_eq!(
        check_program_account(&ours(&Key::new_unique())),
        Err(ProgramError::IncorrectProgramId)
    );
    assert_eq!(
        check_program_account(&Pubkey::default()),
        Err(ProgramError::IncorrectProgramId)
    );
}

#[test]
fn seeds_are_the_stated_bytes() {
    assert_eq!(&fogo_stake_pool::AUTHORITY_DEPOSIT, b"deposit");
    assert_eq!(&fogo_stake_pool::AUTHORITY_WITHDRAW, b"withdrawal");
    assert_eq!(&fogo_stake_pool::TRANSIENT_STAKE_SEED_PREFIX, b"transient");
    assert_eq!(&fogo_stake_pool::EPHEMERAL_STAKE_SEED_PREFIX, b"ephemeral");
    assert_eq!(&fogo_stake_pool::USER_STAKE_SEED_PREFIX, b"user_stake");
    assert_eq!(&fogo_stake_pool::TRANSIENT_WSOL_SEED, b"transient_wsol");
    assert_eq!(&fogo_stake_pool::PROGRAM_SIGNER_SEED, b"program_signer");
    assert_eq!(fogo_stake_pool::MINIMUM_ACTIVE_STAKE, 1_000_000);
    assert_eq!(fogo_stake_pool::MINIMUM_RESERVE_LAMPORTS, 0);
    assert_eq!(fogo_stake_pool::MAX_VALIDATORS_TO_UPDATE, 4);
    assert_eq!(fogo_stake_pool::MAX_TRANSIENT_STAKE_ACCOUNTS, 10);
    assert_eq!(fogo_stake_pool::MAX_VALIDATORS_IN_POOL, 20_000);
}

#[test]
fn every_derivation_follows_its_seed_schedule() {
    let program = Key::new_unique();
    let pool = Key::new_unique();
    let vote = Key::new_unique();
    let user = Key::new_unique();
    let seed: u64 = 0x0102_0304_0506_0708;

    assert_eq!(
        theirs_with_bump(find_deposit_authority_program_address(&ours(&program), &ours(&pool))),
        Key::find_program_address(&[pool.as_ref(), b"deposit"], &program)
    );
    assert_eq!(
        theirs_with_bump(find_withdraw_authority_program_address(&ours(&program), &ours(&pool))),
        Key::find_program_address(&[pool.as_ref(), b"withdrawal"], &program)
    );
    assert_eq!(
        theirs_with_bump(find_stake_program_address(
            &ours(&program),
            &ours(&vote),
            &ours(&pool),
            Some(0x0A0B_0C0D)
        )),
        Key::find_program_address(
            &[vote.as_ref(), pool.as_ref(), &0x0A0B_0C0Du32.to_le_bytes()],
            &program
        )
    );
    assert_eq!(
        theirs_with_bump(find_stake_program_address(
            &ours(&program),
            &ours(&vote),
            &ours(&pool),
            None
        )),
        Key::find_program_address(&[vote.as_ref(), pool.as_ref(), &[]], &program)
    );
    assert_eq!(
        theirs_with_bump(find_transient_stake_program_address(
            &ours(&program),
            &ours(&vote),
            &ours(&pool),
            seed
        )),
        Key::find_program_address(
            &[b"transient", vote.as_ref(), pool.as_ref(), &seed.to_le_bytes()],
            &program
        )
    );
    assert_eq!(
        theirs_with_bump(find_ephemeral_stake_program_address(&ours(&program), &ours(&pool), seed)),
        Key::find_program_address(&[b"ephemeral", pool.as_ref(), &seed.to_le_bytes()], &program)
    );
    assert_eq!(
        theirs_with_bump(find_user_stake_program_address(&ours(&program), &ours(&user), seed)),
        Key::find_program_address(&[b"user_stake", user.as_ref(), &seed.to_le_bytes()], &program)
    );
    assert_eq!(
        theirs_with_bump(find_transient_wsol_program_address(&ours(&program), &ours(&user))),
        Key::find_program_address(&[b"transient_wsol", user.as_ref()], &program)
    );
    assert_eq!(
        theirs_with_bump(find_program_signer_address(&ours(&program))),
        Key::find_program_address(&[b"program_signer"], &program)
    );
}

#[test]
fn checked_derivations_agree_with_the_unchecked() {
    let program = ours(&Key::new_unique());
    let pool = ours(&Key::new_unique());
    let vote = ours(&Key::new_unique());
    let user = ours(&Key::new_unique());
    assert_eq!(
        try_find_deposit_authority_program_address(&program, &pool),
        Some(find_deposit_authority_program_address(&program, &pool))
    );
    assert_eq!(
        try_find_withdraw_authority_program_address(&program, &pool),
        Some(find_withdraw_authority_program_address(&program, &pool))
    );
    assert_eq!(
        try_find_stake_program_address(&program, &vote, &pool, Some(3)),
        Some(find_stake_program_address(&program, &vote, &pool, Some(3)))
    );
    assert_eq!(
        try_find_transient_stake_program_address(&program, &vote, &pool, 9),
        Some(find_transient_stake_program_address(&program, &vote, &pool, 9))
    );
    assert_eq!(
        try_find_ephemeral_stake_program_address(&program, &pool, 9),
        Some(find_ephemeral_stake_program_address(&program, &pool, 9))
    );
    assert_eq!(
        try_find_user_stake_program_address(&program, &user, 9),
        Some(find_user_stake_program_address(&program, &user, 9))
    );
    assert_eq!(
        try_find_transient_wsol_program_address(&program, &user),
        Some(find_transient_wsol_program_address(&program, &user))
    );
    assert_eq!(
        try_find_program_signer_address(&program),
        Some(find_program_signer_address(&program))
    );
    // a derived address is never one of its own inputs
    let (pda, _) = find_deposit_authority_program_address(&program, &pool);
    assert_ne!(pda, program);
    assert_ne!(pda, pool);
}
