//! A stake pool: its records, its accounting and its addresses.
//!
//! A stake pool gathers the stake of many depositors, delegates it to a
//! list of validators and issues one pool token whose worth in lamports
//! floats with the rewards. This crate holds what the pool decides and
//! calculates, with machine-checked contracts:
//!
//! - `pool`, `fee`, `validator`, `validator_list`: the records and their
//!   arithmetic, gathered again under `state`;
//! - `codec`, `state_codec`: their byte layouts, with proofs that reading
//!   and writing undo each other;
//! - `pda`: the seed schedules of the pool's derived addresses;
//! - `processor`, `staking`, `session`, `list_pass`: the accounting of the
//!   operations, each as a function from the records and the operation's
//!   arguments to the new records and a receipt;
//! - `laws`: what holds of these whatever the inputs;
//! - `squads`, `instruction`: proposals to a multisig that manages a pool;
//! - `trusted`: the few calls into other libraries, with the contracts that
//!   are taken on trust.
//!
//! Lamports and tokens are moved by the caller: the functions here say how
//! many, and what the records hold afterwards.

use vstd::prelude::*;

pub mod codec;
pub mod error;
pub mod fee;
pub mod instruction;
pub mod laws;
pub mod list_pass;
pub mod math;
pub mod pda;
pub mod pool;
pub mod processor;
pub mod pubkey;
pub mod session;
pub mod squads;
pub mod state;
pub mod staking;
pub mod state_codec;
pub mod trusted;
pub mod validator;
pub mod validator_list;

pub use crate::error::{ProgramError, StakePoolError};
pub use crate::fee::{Fee, FeeType, FutureEpoch, FutureEpochFee};
pub use crate::pda::{
    check_program_account, find_deposit_authority_program_address,
    find_ephemeral_stake_program_address, find_stake_program_address,
    find_transient_stake_program_address, find_user_stake_program_address,
    find_withdraw_authority_program_address,
};
pub use crate::pool::{AccountType, Lockup, StakePool};
pub use crate::pubkey::Pubkey;
pub use crate::validator::{PodStakeStatus, StakeStatus, ValidatorStakeInfo};
pub use crate::validator_list::{DerivedStakeAccount, ValidatorList, ValidatorListHeader};

verus! {

/// The bytes of the program id, `SP1s4uFeTAX9jsXXmwyDs1gxYYf7cdDZ8qHUHVxE1yr`.
pub const ID: [u8; 32] = [
    6, 128, 105, 155, 224, 53, 34, 30, 40, 2, 73, 15, 33, 212, 191, 62,
    29, 232, 228, 77, 138, 26, 156, 109, 95, 66, 212, 241, 90, 170, 152, 89,
];

/// The program id.
pub fn id() -> (r: Pubkey)
    ensures
        r@ == ID@,
{
    Pubkey(ID)
}

/// Seed for deposit authority: `"deposit"`
pub const AUTHORITY_DEPOSIT: [u8; 7] = [100, 101, 112, 111, 115, 105, 116];

/// Seed for withdraw authority: `"withdrawal"`
pub const AUTHORITY_WITHDRAW: [u8; 10] = [119, 105, 116, 104, 100, 114, 97, 119, 97, 108];

/// Seed for transient stake account: `"transient"`
pub const TRANSIENT_STAKE_SEED_PREFIX: [u8; 9] = [116, 114, 97, 110, 115, 105, 101, 110, 116];

/// Seed for ephemeral stake account: `"ephemeral"`
pub const EPHEMERAL_STAKE_SEED_PREFIX: [u8; 9] = [101, 112, 104, 101, 109, 101, 114, 97, 108];

/// Seed for user stake account created during session withdrawal:
/// `"user_stake"`
pub const USER_STAKE_SEED_PREFIX: [u8; 10] = [117, 115, 101, 114, 95, 115, 116, 97, 107, 101];

/// Seed for the transient wrapped-native token account of a session
/// deposit or withdrawal: `"transient_wsol"`
pub const TRANSIENT_WSOL_SEED: [u8; 14] = [
    116, 114, 97, 110, 115, 105, 101, 110, 116, 95, 119, 115, 111, 108,
];

/// Seed for the program signer: `"program_signer"`
pub const PROGRAM_SIGNER_SEED: [u8; 14] = [
    112, 114, 111, 103, 114, 97, 109, 95, 115, 105, 103, 110, 101, 114,
];

/// Minimum amount of staked lamports required in a validator stake account to
/// allow for merges without a mismatch on credits observed
pub const MINIMUM_ACTIVE_STAKE: u64 = 1_000_000;

/// Minimum amount of lamports in the reserve
pub const MINIMUM_RESERVE_LAMPORTS: u64 = 0;

/// Maximum amount of validator stake accounts to update per
/// `UpdateValidatorListBalance` instruction, based on compute limits
pub const MAX_VALIDATORS_TO_UPDATE: usize = 4;

/// The maximum number of transient stake accounts respecting
/// transaction account limits.
pub const MAX_TRANSIENT_STAKE_ACCOUNTS: usize = 10;

/// The maximum number of validators that can be supported in a pool in order
/// for stake withdrawals to still work
pub const MAX_VALIDATORS_IN_POOL: u32 = 20_000;

} // verus!
