//! Program-derived addresses of the stake pool.
//!
//! Every authority and every stake account of a pool lives at an address
//! derived from the program id and a fixed schedule of seeds. The seed
//! schedules are stated here as sequences of bytes; the derivation itself is
//! `trusted::program_address`.
//!
//! A derivation can fail: no bump seed may give an address off the curve.
//! The `find_*` functions are for callers who know that it does not; the
//! `try_find_*` functions make no such demand and answer `None`.

use vstd::prelude::*;
use vstd::bytes::{spec_u32_to_le_bytes, spec_u64_to_le_bytes, u32_to_le_bytes, u64_to_le_bytes};
use vstd::pervasive::unreached;
use vstd::slice::slice_to_vec;
use crate::error::ProgramError;
use crate::pubkey::Pubkey;
use crate::trusted::{address_view, derive_program_address, program_address, seeds_view};
use crate::{
    AUTHORITY_DEPOSIT, AUTHORITY_WITHDRAW, EPHEMERAL_STAKE_SEED_PREFIX, PROGRAM_SIGNER_SEED,
    TRANSIENT_STAKE_SEED_PREFIX, TRANSIENT_WSOL_SEED, USER_STAKE_SEED_PREFIX,
};

verus! {

/// Seeds of the deposit authority: the pool's address, then `"deposit"`.
pub open spec fn deposit_authority_seeds(stake_pool_address: Seq<u8>) -> Seq<Seq<u8>> {
    seq![stake_pool_address, AUTHORITY_DEPOSIT@]
}

/// Seeds of the withdraw authority: the pool's address, then `"withdrawal"`.
pub open spec fn withdraw_authority_seeds(stake_pool_address: Seq<u8>) -> Seq<Seq<u8>> {
    seq![stake_pool_address, AUTHORITY_WITHDRAW@]
}

/// The last seed of a validator stake account: the four bytes of the seed
/// in little-endian order, or nothing for the validator's first account.
pub open spec fn validator_seed_bytes(seed: Option<u32>) -> Seq<u8> {
    match seed {
        Some(s) => spec_u32_to_le_bytes(s),
        None => Seq::empty(),
    }
}

/// Seeds of a validator's stake account: the vote account's address, the
/// pool's address, then the optional seed.
pub open spec fn stake_seeds(
    vote_account_address: Seq<u8>,
    stake_pool_address: Seq<u8>,
    seed: Option<u32>,
) -> Seq<Seq<u8>> {
    seq![vote_account_address, stake_pool_address, validator_seed_bytes(seed)]
}

/// Seeds of a validator's transient stake account: `"transient"`, the vote
/// account's address, the pool's address, the seed in little-endian order.
pub open spec fn transient_stake_seeds(
    vote_account_address: Seq<u8>,
    stake_pool_address: Seq<u8>,
    seed: u64,
) -> Seq<Seq<u8>> {
    seq![
        TRANSIENT_STAKE_SEED_PREFIX@,
        vote_account_address,
        stake_pool_address,
        spec_u64_to_le_bytes(seed),
    ]
}

/// Seeds of an ephemeral stake account: `"ephemeral"`, the pool's address,
/// the seed in little-endian order.
pub open spec fn ephemeral_stake_seeds(stake_pool_address: Seq<u8>, seed: u64) -> Seq<Seq<u8>> {
    seq![EPHEMERAL_STAKE_SEED_PREFIX@, stake_pool_address, spec_u64_to_le_bytes(seed)]
}

/// Seeds of a user's stake account: `"user_stake"`, the user's wallet, the
/// seed in little-endian order.
pub open spec fn user_stake_seeds(user_wallet: Seq<u8>, seed: u64) -> Seq<Seq<u8>> {
    seq![USER_STAKE_SEED_PREFIX@, user_wallet, spec_u64_to_le_bytes(seed)]
}

/// Seeds of a user's transient wrapped-native token account:
/// `"transient_wsol"`, then the user's wallet.
pub open spec fn transient_wsol_seeds(user_wallet: Seq<u8>) -> Seq<Seq<u8>> {
    seq![TRANSIENT_WSOL_SEED@, user_wallet]
}

/// The one seed of the program signer: `"program_signer"`.
pub open spec fn program_signer_seeds() -> Seq<Seq<u8>> {
    seq![PROGRAM_SIGNER_SEED@]
}

/// The address that `seeds` derive under `program_id`, for seeds known to
/// derive one.
pub(crate) fn find_address(seeds: &Vec<Vec<u8>>, program_id: &Pubkey) -> (r: (Pubkey, u8))
    requires
        program_address(seeds_view(seeds@), program_id@) is Some,
    ensures
        Some((r.0@, r.1)) == program_address(seeds_view(seeds@), program_id@),
{
    match derive_program_address(seeds, program_id) {
        Some(found) => found,
        None => unreached(),
    }
}

/// Whether `seeds` derive an address under `program_id`.
pub(crate) fn has_address(seeds: &Vec<Vec<u8>>, program_id: &Pubkey) -> (r: bool)
    ensures
        r == (program_address(seeds_view(seeds@), program_id@) is Some),
{
    derive_program_address(seeds, program_id).is_some()
}

fn deposit_authority_seed_list(stake_pool_address: &Pubkey) -> (r: Vec<Vec<u8>>)
    ensures
        seeds_view(r@) == deposit_authority_seeds(stake_pool_address@),
{
    let mut seeds: Vec<Vec<u8>> = Vec::new();
    seeds.push(stake_pool_address.to_vec());
    seeds.push(slice_to_vec(AUTHORITY_DEPOSIT.as_slice()));
    assert(seeds_view(seeds@) =~= deposit_authority_seeds(stake_pool_address@));
    seeds
}

fn withdraw_authority_seed_list(stake_pool_address: &Pubkey) -> (r: Vec<Vec<u8>>)
    ensures
        seeds_view(r@) == withdraw_authority_seeds(stake_pool_address@),
{
    let mut seeds: Vec<Vec<u8>> = Vec::new();
    seeds.push(stake_pool_address.to_vec());
    seeds.push(slice_to_vec(AUTHORITY_WITHDRAW.as_slice()));
    assert(seeds_view(seeds@) =~= withdraw_authority_seeds(stake_pool_address@));
    seeds
}

fn stake_seed_list(
    vote_account_address: &Pubkey,
    stake_pool_address: &Pubkey,
    seed: Option<u32>,
) -> (r: Vec<Vec<u8>>)
    ensures
        seeds_view(r@) == stake_seeds(vote_account_address@, stake_pool_address@, seed),
{
    let mut seeds: Vec<Vec<u8>> = Vec::new();
    seeds.push(vote_account_address.to_vec());
    seeds.push(stake_pool_address.to_vec());
    let last: Vec<u8> = match seed {
        Some(s) => u32_to_le_bytes(s),
        None => Vec::new(),
    };
    assert(last@ =~= validator_seed_bytes(seed));
    seeds.push(last);
    assert(seeds_view(seeds@) =~= stake_seeds(
        vote_account_address@,
        stake_pool_address@,
        seed,
    ));
    seeds
}

fn transient_stake_seed_list(
    vote_account_address: &Pubkey,
    stake_pool_address: &Pubkey,
    seed: u64,
) -> (r: Vec<Vec<u8>>)
    ensures
        seeds_view(r@) == transient_stake_seeds(vote_account_address@, stake_pool_address@, seed),
{
    let mut seeds: Vec<Vec<u8>> = Vec::new();
    seeds.push(slice_to_vec(TRANSIENT_STAKE_SEED_PREFIX.as_slice()));
    seeds.push(vote_account_address.to_vec());
    seeds.push(stake_pool_address.to_vec());
    seeds.push(u64_to_le_bytes(seed));
    assert(seeds_view(seeds@) =~= transient_stake_seeds(
        vote_account_address@,
        stake_pool_address@,
        seed,
    ));
    seeds
}

fn ephemeral_stake_seed_list(stake_pool_address: &Pubkey, seed: u64) -> (r: Vec<Vec<u8>>)
    ensures
        seeds_view(r@) == ephemeral_stake_seeds(stake_pool_address@, seed),
{
    let mut seeds: Vec<Vec<u8>> = Vec::new();
    seeds.push(slice_to_vec(EPHEMERAL_STAKE_SEED_PREFIX.as_slice()));
    seeds.push(stake_pool_address.to_vec());
    seeds.push(u64_to_le_bytes(seed));
    assert(seeds_view(seeds@) =~= ephemeral_stake_seeds(stake_pool_address@, seed));
    seeds
}

fn user_stake_seed_list(user_wallet: &Pubkey, seed: u64) -> (r: Vec<Vec<u8>>)
    ensures
        seeds_view(r@) == user_stake_seeds(user_wallet@, seed),
{
    let mut seeds: Vec<Vec<u8>> = Vec::new();
    seeds.push(slice_to_vec(USER_STAKE_SEED_PREFIX.as_slice()));
    seeds.push(user_wallet.to_vec());
    seeds.push(u64_to_le_bytes(seed));
    assert(seeds_view(seeds@) =~= user_stake_seeds(user_wallet@, seed));
    seeds
}

fn transient_wsol_seed_list(user_wallet: &Pubkey) -> (r: Vec<Vec<u8>>)
    ensures
        seeds_view(r@) == transient_wsol_seeds(user_wallet@),
{
    let mut seeds: Vec<Vec<u8>> = Vec::new();
    seeds.push(slice_to_vec(TRANSIENT_WSOL_SEED.as_slice()));
    seeds.push(user_wallet.to_vec());
    assert(seeds_view(seeds@) =~= transient_wsol_seeds(user_wallet@));
    seeds
}

fn program_signer_seed_list() -> (r: Vec<Vec<u8>>)
    ensures
        seeds_view(r@) == program_signer_seeds(),
{
    let mut seeds: Vec<Vec<u8>> = Vec::new();
    seeds.push(slice_to_vec(PROGRAM_SIGNER_SEED.as_slice()));
    assert(seeds_view(seeds@) =~= program_signer_seeds());
    seeds
}

/// Generates the deposit authority program address for the stake pool
pub fn find_deposit_authority_program_address(
    program_id: &Pubkey,
    stake_pool_address: &Pubkey,
) -> (r: (Pubkey, u8))
    requires
        program_address(deposit_authority_seeds(stake_pool_address@), program_id@) is Some,
    ensures
        Some((r.0@, r.1)) == program_address(
            deposit_authority_seeds(stake_pool_address@),
            program_id@,
        ),
{
    find_address(&deposit_authority_seed_list(stake_pool_address), program_id)
}

/// The deposit authority program address for the stake pool, or `None`
/// where the seeds derive no address.
pub fn try_find_deposit_authority_program_address(
    program_id: &Pubkey,
    stake_pool_address: &Pubkey,
) -> (r: Option<(Pubkey, u8)>)
    ensures
        address_view(r) == program_address(
            deposit_authority_seeds(stake_pool_address@),
            program_id@,
        ),
{
    if has_address(&deposit_authority_seed_list(stake_pool_address), program_id) {
        Some(find_deposit_authority_program_address(program_id, stake_pool_address))
    } else {
        None
    }
}

/// Generates the withdraw authority program address for the stake pool
pub fn find_withdraw_authority_program_address(
    program_id: &Pubkey,
    stake_pool_address: &Pubkey,
) -> (r: (Pubkey, u8))
    requires
        program_address(withdraw_authority_seeds(stake_pool_address@), program_id@) is Some,
    ensures
        Some((r.0@, r.1)) == program_address(
            withdraw_authority_seeds(stake_pool_address@),
            program_id@,
        ),
{
    find_address(&withdraw_authority_seed_list(stake_pool_address), program_id)
}

/// The withdraw authority program address for the stake pool, or `None`
/// where the seeds derive no address.
pub fn try_find_withdraw_authority_program_address(
    program_id: &Pubkey,
    stake_pool_address: &Pubkey,
) -> (r: Option<(Pubkey, u8)>)
    ensures
        address_view(r) == program_address(
            withdraw_authority_seeds(stake_pool_address@),
            program_id@,
        ),
{
    if has_address(&withdraw_authority_seed_list(stake_pool_address), program_id) {
        Some(find_withdraw_authority_program_address(program_id, stake_pool_address))
    } else {
        None
    }
}

/// Generates the stake program address for a validator's vote account.
///
/// The `seed` parameter allows for multiple stake accounts per validator.
/// When `None`, derives the primary stake account. When `Some(n)`, derives
/// an additional stake account with that seed suffix.
pub fn find_stake_program_address(
    program_id: &Pubkey,
    vote_account_address: &Pubkey,
    stake_pool_address: &Pubkey,
    seed: Option<u32>,
) -> (r: (Pubkey, u8))
    requires
        program_address(
            stake_seeds(vote_account_address@, stake_pool_address@, seed),
            program_id@,
        ) is Some,
    ensures
        Some((r.0@, r.1)) == program_address(
            stake_seeds(vote_account_address@, stake_pool_address@, seed),
            program_id@,
        ),
{
    find_address(&stake_seed_list(vote_account_address, stake_pool_address, seed), program_id)
}

/// The stake program address for a validator's vote account, or `None`
/// where the seeds derive no address.
pub fn try_find_stake_program_address(
    program_id: &Pubkey,
    vote_account_address: &Pubkey,
    stake_pool_address: &Pubkey,
    seed: Option<u32>,
) -> (r: Option<(Pubkey, u8)>)
    ensures
        address_view(r) == program_address(
            stake_seeds(vote_account_address@, stake_pool_address@, seed),
            program_id@,
        ),
{
    if has_address(
        &stake_seed_list(vote_account_address, stake_pool_address, seed),
        program_id,
    ) {
        Some(
            find_stake_program_address(program_id, vote_account_address, stake_pool_address, seed),
        )
    } else {
        None
    }
}

/// Generates the transient stake account address for a validator.
///
/// Transient stake accounts are used during stake activation/deactivation
/// transitions.
pub fn find_transient_stake_program_address(
    program_id: &Pubkey,
    vote_account_address: &Pubkey,
    stake_pool_address: &Pubkey,
    seed: u64,
) -> (r: (Pubkey, u8))
    requires
        program_address(
            transient_stake_seeds(vote_account_address@, stake_pool_address@, seed),
            program_id@,
        ) is Some,
    ensures
        Some((r.0@, r.1)) == program_address(
            transient_stake_seeds(vote_account_address@, stake_pool_address@, seed),
            program_id@,
        ),
{
    find_address(
        &transient_stake_seed_list(vote_account_address, stake_pool_address, seed),
        program_id,
    )
}

/// The transient stake account address for a validator, or `None` where the
/// seeds derive no address.
pub fn try_find_transient_stake_program_address(
    program_id: &Pubkey,
    vote_account_address: &Pubkey,
    stake_pool_address: &Pubkey,
    seed: u64,
) -> (r: Option<(Pubkey, u8)>)
    ensures
        address_view(r) == program_address(
            transient_stake_seeds(vote_account_address@, stake_pool_address@, seed),
            program_id@,
        ),
{
    if has_address(
        &transient_stake_seed_list(vote_account_address, stake_pool_address, seed),
        program_id,
    ) {
        Some(
            find_transient_stake_program_address(
                program_id,
                vote_account_address,
                stake_pool_address,
                seed,
            ),
        )
    } else {
        None
    }
}

/// Generates the ephemeral stake account address.
///
/// Ephemeral stake accounts are used during stake pool redelegation
/// operations.
pub fn find_ephemeral_stake_program_address(
    program_id: &Pubkey,
    stake_pool_address: &Pubkey,
    seed: u64,
) -> (r: (Pubkey, u8))
    requires
        program_address(ephemeral_stake_seeds(stake_pool_address@, seed), program_id@) is Some,
    ensures
        Some((r.0@, r.1)) == program_address(
            ephemeral_stake_seeds(stake_pool_address@, seed),
            program_id@,
        ),
{
    find_address(&ephemeral_stake_seed_list(stake_pool_address, seed), program_id)
}

/// The ephemeral stake account address, or `None` where the seeds derive no
/// address.
pub fn try_find_ephemeral_stake_program_address(
    program_id: &Pubkey,
    stake_pool_address: &Pubkey,
    seed: u64,
) -> (r: Option<(Pubkey, u8)>)
    ensures
        address_view(r) == program_address(
            ephemeral_stake_seeds(stake_pool_address@, seed),
            program_id@,
        ),
{
    if has_address(&ephemeral_stake_seed_list(stake_pool_address, seed), program_id) {
        Some(find_ephemeral_stake_program_address(program_id, stake_pool_address, seed))
    } else {
        None
    }
}

/// Generates the user stake account address for session-based withdrawals.
///
/// The address is derived from the user's wallet and a seed of the user's
/// choice, so that one user can hold several such accounts.
pub fn find_user_stake_program_address(program_id: &Pubkey, user_wallet: &Pubkey, seed: u64) -> (r:
    (Pubkey, u8))
    requires
        program_address(user_stake_seeds(user_wallet@, seed), program_id@) is Some,
    ensures
        Some((r.0@, r.1)) == program_address(user_stake_seeds(user_wallet@, seed), program_id@),
{
    find_address(&user_stake_seed_list(user_wallet, seed), program_id)
}

/// The user stake account address, or `None` where the seeds derive no
/// address.
pub fn try_find_user_stake_program_address(
    program_id: &Pubkey,
    user_wallet: &Pubkey,
    seed: u64,
) -> (r: Option<(Pubkey, u8)>)
    ensures
        address_view(r) == program_address(user_stake_seeds(user_wallet@, seed), program_id@),
{
    if has_address(&user_stake_seed_list(user_wallet, seed), program_id) {
        Some(find_user_stake_program_address(program_id, user_wallet, seed))
    } else {
        None
    }
}

/// Generates the address of the transient wrapped-native token account that
/// a session-delegated deposit or withdrawal of `user_wallet` passes
/// through.
pub fn find_transient_wsol_program_address(program_id: &Pubkey, user_wallet: &Pubkey) -> (r: (
    Pubkey,
    u8,
))
    requires
        program_address(transient_wsol_seeds(user_wallet@), program_id@) is Some,
    ensures
        Some((r.0@, r.1)) == program_address(transient_wsol_seeds(user_wallet@), program_id@),
{
    find_address(&transient_wsol_seed_list(user_wallet), program_id)
}

/// The address of a user's transient wrapped-native token account, or
/// `None` where the seeds derive no address.
pub fn try_find_transient_wsol_program_address(program_id: &Pubkey, user_wallet: &Pubkey) -> (r:
    Option<(Pubkey, u8)>)
    ensures
        address_view(r) == program_address(transient_wsol_seeds(user_wallet@), program_id@),
{
    if has_address(&transient_wsol_seed_list(user_wallet), program_id) {
        Some(find_transient_wsol_program_address(program_id, user_wallet))
    } else {
        None
    }
}

/// Generates the address of the program signer, the authority that owns
/// the transient wrapped-native token accounts.
pub fn find_program_signer_address(program_id: &Pubkey) -> (r: (Pubkey, u8))
    requires
        program_address(program_signer_seeds(), program_id@) is Some,
    ensures
        Some((r.0@, r.1)) == program_address(program_signer_seeds(), program_id@),
{
    find_address(&program_signer_seed_list(), program_id)
}

/// The address of the program signer, or `None` where the seed derives no
/// address.
pub fn try_find_program_signer_address(program_id: &Pubkey) -> (r: Option<(Pubkey, u8)>)
    ensures
        address_view(r) == program_address(program_signer_seeds(), program_id@),
{
    if has_address(&program_signer_seed_list(), program_id) {
        Some(find_program_signer_address(program_id))
    } else {
        None
    }
}

/// Checks that the supplied program ID is the stake pool program's.
pub fn check_program_account(program_id: &Pubkey) -> (r: Result<(), ProgramError>)
    ensures
        program_id@ == crate::ID@ ==> r == Ok::<(), ProgramError>(()),
        program_id@ != crate::ID@ ==> r == Err::<(), ProgramError>(
            ProgramError::IncorrectProgramId,
        ),
{
    if *program_id != crate::id() {
        return Err(ProgramError::IncorrectProgramId);
    }
    Ok(())
}

} // verus!
