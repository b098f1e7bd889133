//! The calls that leave the verified code.
//!
//! Each function here hands its arguments to a library outside this crate
//! and states, as its contract, what that library is known to return. Verus
//! takes these contracts on trust; everything else in the crate is proved
//! from them.

use vstd::prelude::*;
use crate::pubkey::Pubkey;

verus! {

/// The program-derived address for `seeds` under `program_id`, with its bump
/// seed: what `solana_program::pubkey::Pubkey::try_find_program_address`
/// computes from these bytes. It hashes the seeds, a bump byte counting down
/// from 255 and the program id until the digest is not a point of the
/// ed25519 curve; it answers `None` when no bump byte gives such a digest or
/// the seeds are too many or too long.
pub uninterp spec fn program_address(seeds: Seq<Seq<u8>>, program_id: Seq<u8>) -> Option<
    (Seq<u8>, u8),
>;

/// The byte sequences held by a list of seeds.
pub open spec fn seeds_view(seeds: Seq<Vec<u8>>) -> Seq<Seq<u8>> {
    seeds.map_values(|s: Vec<u8>| s@)
}

/// An address with its bump seed, as bytes.
pub open spec fn address_view(found: Option<(Pubkey, u8)>) -> Option<(Seq<u8>, u8)> {
    match found {
        Some((address, bump)) => Some((address@, bump)),
        None => None,
    }
}

/// Calls `solana_program::pubkey::Pubkey::try_find_program_address`. The
/// search is a function of the seeds and the program id alone, so the
/// result is the named `program_address` of their bytes.
#[verifier::external_body]
pub(crate) fn derive_program_address(seeds: &Vec<Vec<u8>>, program_id: &Pubkey) -> (r: Option<
    (Pubkey, u8),
>)
    ensures
        address_view(r) == program_address(seeds_view(seeds@), program_id@),
{
    let parts: Vec<&[u8]> = seeds.iter().map(|s| s.as_slice()).collect();
    let id = solana_program::pubkey::Pubkey::new_from_array(program_id.0);
    solana_program::pubkey::Pubkey::try_find_program_address(&parts, &id).map(
        |(address, bump)| (Pubkey(address.to_bytes()), bump),
    )
}

/// The first `n` items of `s`.
pub open spec fn prefix(s: Seq<u8>, n: usize) -> Seq<u8> {
    s.take(n as int)
}

/// Calls `solana_program::program_memory::sol_memcmp`, which compares the
/// first `n` bytes of two regions like C's `memcmp`: it returns zero when
/// they agree, and otherwise the difference of the two bytes at the first
/// place where they differ. It reads `n` bytes of each region without
/// looking at the slices' lengths, so both must hold at least `n`.
#[verifier::external_body]
pub(crate) fn compare_memory(s1: &[u8], s2: &[u8], n: usize) -> (r: i32)
    requires
        n <= s1@.len(),
        n <= s2@.len(),
    ensures
        prefix(s1@, n) == prefix(s2@, n) ==> r == 0,
        forall|i: int|
            0 <= i < n && s1@.take(i) == s2@.take(i) && s1@[i] != s2@[i] ==> r == s1@[i] - s2@[i],
{
    solana_program::program_memory::sol_memcmp(s1, s2, n)
}

/// Calls borsh's `u64::try_from_slice`, which reads a 64-bit integer in
/// little-endian order from a slice of exactly eight bytes and fails on any
/// other length.
#[verifier::external_body]
pub(crate) fn decode_u64(bytes: &[u8]) -> (r: Option<u64>)
    ensures
        bytes@.len() == 8 ==> r == Some(vstd::bytes::spec_u64_from_le_bytes(bytes@)),
        bytes@.len() != 8 ==> r is None,
{
    borsh::BorshDeserialize::try_from_slice(bytes).ok()
}

/// Calls `solana_sdk_ids::system_program::id`, the address of the system
/// program: 32 zero bytes.
#[verifier::external_body]
pub(crate) fn system_program_id() -> (r: Pubkey)
    ensures
        r@ == Seq::new(32, |i: int| 0u8),
{
    Pubkey(solana_sdk_ids::system_program::id().to_bytes())
}

} // verus!
