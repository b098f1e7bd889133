//! One validator's entry in the validator list.

use vstd::prelude::*;
use vstd::bytes::{spec_u32_to_le_bytes, spec_u64_from_le_bytes, spec_u64_to_le_bytes};
use vstd::std_specs::convert::{FromSpecImpl, TryFromSpecImpl};
use crate::codec::{
    enc_pubkey, lemma_concat_assoc, lemma_take_pubkey_encodes, lemma_take_pubkey_of_encoding,
    lemma_take_u32_encodes, lemma_take_u32_of_encoding, lemma_take_u64_encodes,
    lemma_take_u64_of_encoding, lemma_take_u8_encodes, lemma_take_u8_of_encoding, read_matches,
    read_pubkey, read_u32, read_u64, read_u8, rest_of, take_pubkey, take_u32, take_u64, take_u8,
    write_pubkey, write_u32, write_u64, write_u8,
};
use crate::error::ProgramError;
use crate::pubkey::Pubkey;
use crate::trusted::{compare_memory, decode_u64};

verus! {

/// Status of the stake account in the validator list, for accounting
#[derive(Clone, Copy, Debug, PartialEq, Eq, Structural)]
pub enum StakeStatus {
    /// Stake account is active, there may be a transient stake as well
    Active,
    /// The transient stake account is deactivating
    DeactivatingTransient,
    /// No more validator stake accounts exist, entry ready for removal during
    /// `UpdateStakePoolBalance`
    ReadyForRemoval,
    /// Only the validator stake account is deactivating, no transient stake
    /// account exists
    DeactivatingValidator,
    /// Both the transient and validator stake account are deactivating, when
    /// a validator is removed with a transient stake active
    DeactivatingAll,
}

impl Default for StakeStatus {
    fn default() -> (r: StakeStatus)
        ensures
            r == StakeStatus::Active,
    {
        StakeStatus::Active
    }
}

impl StakeStatus {
    /// The byte that stands for the status in a packed entry.
    pub open spec fn spec_to_u8(self) -> u8 {
        match self {
            StakeStatus::Active => 0,
            StakeStatus::DeactivatingTransient => 1,
            StakeStatus::ReadyForRemoval => 2,
            StakeStatus::DeactivatingValidator => 3,
            StakeStatus::DeactivatingAll => 4,
        }
    }

    /// The status that a byte stands for, if any.
    pub open spec fn spec_from_u8(n: u8) -> Option<StakeStatus> {
        if n == 0 {
            Some(StakeStatus::Active)
        } else if n == 1 {
            Some(StakeStatus::DeactivatingTransient)
        } else if n == 2 {
            Some(StakeStatus::ReadyForRemoval)
        } else if n == 3 {
            Some(StakeStatus::DeactivatingValidator)
        } else if n == 4 {
            Some(StakeStatus::DeactivatingAll)
        } else {
            None
        }
    }

    /// The byte that stands for the status in a packed entry.
    pub fn to_u8(&self) -> (r: u8)
        ensures
            r == self.spec_to_u8(),
    {
        match self {
            StakeStatus::Active => 0,
            StakeStatus::DeactivatingTransient => 1,
            StakeStatus::ReadyForRemoval => 2,
            StakeStatus::DeactivatingValidator => 3,
            StakeStatus::DeactivatingAll => 4,
        }
    }

    /// The status that a byte stands for, if any.
    pub fn from_u8(n: u8) -> (r: Option<StakeStatus>)
        ensures
            r == StakeStatus::spec_from_u8(n),
    {
        if n == 0 {
            Some(StakeStatus::Active)
        } else if n == 1 {
            Some(StakeStatus::DeactivatingTransient)
        } else if n == 2 {
            Some(StakeStatus::ReadyForRemoval)
        } else if n == 3 {
            Some(StakeStatus::DeactivatingValidator)
        } else if n == 4 {
            Some(StakeStatus::DeactivatingAll)
        } else {
            None
        }
    }

    /// Each status is the one that its byte stands for, and no two share a
    /// byte.
    pub proof fn lemma_byte_roundtrip(status: StakeStatus, n: u8)
        ensures
            StakeStatus::spec_from_u8(status.spec_to_u8()) == Some(status),
            StakeStatus::spec_from_u8(n) matches Some(s) ==> s.spec_to_u8() == n,
    {
    }
}

/// A byte that *should* be a valid `StakeStatus` underneath: the form in
/// which an entry holds its status.
#[derive(Clone, Copy, Debug, PartialEq, Eq, Structural)]
pub struct PodStakeStatus(pub u8);

impl Default for PodStakeStatus {
    fn default() -> (r: PodStakeStatus)
        ensures
            r == PodStakeStatus(0),
    {
        PodStakeStatus(0)
    }
}

impl TryFrom<PodStakeStatus> for StakeStatus {
    type Error = ProgramError;

    fn try_from(pod: PodStakeStatus) -> (r: Result<StakeStatus, ProgramError>) {
        match StakeStatus::from_u8(pod.0) {
            Some(status) => Ok(status),
            None => Err(ProgramError::InvalidAccountData),
        }
    }
}

impl TryFromSpecImpl<PodStakeStatus> for StakeStatus {
    open spec fn obeys_try_from_spec() -> bool {
        true
    }

    open spec fn try_from_spec(pod: PodStakeStatus) -> Result<StakeStatus, ProgramError> {
        match StakeStatus::spec_from_u8(pod.0) {
            Some(status) => Ok(status),
            None => Err(ProgramError::InvalidAccountData),
        }
    }
}

impl From<StakeStatus> for PodStakeStatus {
    fn from(status: StakeStatus) -> (r: PodStakeStatus) {
        PodStakeStatus(status.to_u8())
    }
}

impl FromSpecImpl<StakeStatus> for PodStakeStatus {
    open spec fn obeys_from_spec() -> bool {
        true
    }

    open spec fn from_spec(status: StakeStatus) -> PodStakeStatus {
        PodStakeStatus(status.spec_to_u8())
    }
}

/// Information about a validator in the pool
///
/// The order of the fields is the order of the bytes of a packed entry, and
/// scanners of the list depend on it.
#[derive(Clone, Copy, Debug, PartialEq, Eq)]
pub struct ValidatorStakeInfo {
    /// Amount of lamports on the validator stake account, including rent
    ///
    /// Note that if `last_update_epoch` does not match the current epoch then
    /// this field may not be accurate
    pub active_stake_lamports: u64,
    /// Amount of transient stake delegated to this validator
    ///
    /// Note that if `last_update_epoch` does not match the current epoch then
    /// this field may not be accurate
    pub transient_stake_lamports: u64,
    /// Last epoch the active and transient stake lamports fields were updated
    pub last_update_epoch: u64,
    /// Transient account seed suffix, used to derive the transient stake
    /// account address
    pub transient_seed_suffix: u64,
    /// Unused space, initially meant to specify the end of seed suffixes
    pub unused: u32,
    /// Validator account seed suffix
    pub validator_seed_suffix: u32,
    /// Status of the validator stake account
    pub status: PodStakeStatus,
    /// Validator vote account address
    pub vote_account_address: Pubkey,
}

impl Default for ValidatorStakeInfo {
    /// The entry of all zeroes: no stake, status `Active`, the zero address.
    fn default() -> (r: ValidatorStakeInfo)
        ensures
            r.is_zeroed(),
    {
        ValidatorStakeInfo {
            active_stake_lamports: 0,
            transient_stake_lamports: 0,
            last_update_epoch: 0,
            transient_seed_suffix: 0,
            unused: 0,
            validator_seed_suffix: 0,
            status: PodStakeStatus(0),
            vote_account_address: Pubkey::default(),
        }
    }
}

/// Reads a packed entry off the front of a sequence.
pub open spec fn take_validator_stake_info(s: Seq<u8>) -> Option<(ValidatorStakeInfo, Seq<u8>)> {
    match take_u64(s) {
        Some((active, s1)) => match take_u64(s1) {
            Some((transient, s2)) => match take_u64(s2) {
                Some((epoch, s3)) => match take_u64(s3) {
                    Some((transient_seed, s4)) => match take_u32(s4) {
                        Some((unused, s5)) => match take_u32(s5) {
                            Some((validator_seed, s6)) => match take_u8(s6) {
                                Some((status, s7)) => match take_pubkey(s7) {
                                    Some((vote, s8)) => Some(
                                        (
                                            ValidatorStakeInfo {
                                                active_stake_lamports: active,
                                                transient_stake_lamports: transient,
                                                last_update_epoch: epoch,
                                                transient_seed_suffix: transient_seed,
                                                unused: unused,
                                                validator_seed_suffix: validator_seed,
                                                status: PodStakeStatus(status),
                                                vote_account_address: vote,
                                            },
                                            s8,
                                        ),
                                    ),
                                    None => None,
                                },
                                None => None,
                            },
                            None => None,
                        },
                        None => None,
                    },
                    None => None,
                },
                None => None,
            },
            None => None,
        },
        None => None,
    }
}

impl ValidatorStakeInfo {
    /// Number of bytes of a packed entry.
    pub const LEN: usize = 73;

    /// The 73 bytes of the packed entry: the four 64-bit fields, the two
    /// 32-bit fields, the status byte and the vote account's address, in
    /// this order, integers in little-endian order, nothing in between.
    pub open spec fn spec_pack(self) -> Seq<u8> {
        spec_u64_to_le_bytes(self.active_stake_lamports) + (spec_u64_to_le_bytes(
            self.transient_stake_lamports,
        ) + (spec_u64_to_le_bytes(self.last_update_epoch) + (spec_u64_to_le_bytes(
            self.transient_seed_suffix,
        ) + (spec_u32_to_le_bytes(self.unused) + (spec_u32_to_le_bytes(self.validator_seed_suffix)
            + (seq![self.status.0] + enc_pubkey(self.vote_account_address)))))))
    }

    /// Whether this is the entry of all zeroes.
    pub open spec fn is_zeroed(self) -> bool {
        &&& self.active_stake_lamports == 0
        &&& self.transient_stake_lamports == 0
        &&& self.last_update_epoch == 0
        &&& self.transient_seed_suffix == 0
        &&& self.unused == 0
        &&& self.validator_seed_suffix == 0
        &&& self.status == PodStakeStatus(0)
        &&& self.vote_account_address@ == Seq::new(32, |i: int| 0u8)
    }

    /// The status of the entry, if its status byte stands for one.
    pub open spec fn spec_status(self) -> Option<StakeStatus> {
        StakeStatus::spec_from_u8(self.status.0)
    }

    /// Whether the entry records a transient stake account that holds
    /// lamports.
    pub open spec fn has_live_transient(self) -> bool {
        self.transient_stake_lamports > 0
    }

    /// Whether the entry is marked as ready for removal.
    pub open spec fn is_ready_for_removal(self) -> bool {
        self.spec_status() == Some(StakeStatus::ReadyForRemoval)
    }

    /// The total of active and transient lamports.
    pub open spec fn spec_stake_lamports(self) -> int {
        self.active_stake_lamports + self.transient_stake_lamports
    }

    /// A packed entry is 73 bytes long, with each field at its fixed place.
    pub proof fn lemma_pack_layout(self)
        ensures
            self.spec_pack().len() == 73,
            self.spec_pack().subrange(0, 8) == spec_u64_to_le_bytes(self.active_stake_lamports),
            self.spec_pack().subrange(8, 16) == spec_u64_to_le_bytes(
                self.transient_stake_lamports,
            ),
            self.spec_pack()[40] == self.status.0,
            self.spec_pack().subrange(41, 73) == self.vote_account_address@,
    {
        vstd::bytes::lemma_auto_spec_u64_to_from_le_bytes();
        vstd::bytes::lemma_auto_spec_u32_to_from_le_bytes();
        let p = self.spec_pack();
        assert(p.subrange(0, 8) =~= spec_u64_to_le_bytes(self.active_stake_lamports));
        assert(p.subrange(8, 16) =~= spec_u64_to_le_bytes(self.transient_stake_lamports));
        assert(p.subrange(41, 73) =~= self.vote_account_address@);
    }

    /// Reading a packed entry, whatever follows it, gives the entry back.
    pub proof fn lemma_take_of_pack(self, rest: Seq<u8>)
        ensures
            take_validator_stake_info(self.spec_pack() + rest) == Some((self, rest)),
    {
        let e7 = enc_pubkey(self.vote_account_address);
        let e6 = seq![self.status.0];
        let e5 = spec_u32_to_le_bytes(self.validator_seed_suffix);
        let e4 = spec_u32_to_le_bytes(self.unused);
        let e3 = spec_u64_to_le_bytes(self.transient_seed_suffix);
        let e2 = spec_u64_to_le_bytes(self.last_update_epoch);
        let e1 = spec_u64_to_le_bytes(self.transient_stake_lamports);
        let e0 = spec_u64_to_le_bytes(self.active_stake_lamports);
        let t7 = e7 + rest;
        let t6 = e6 + t7;
        let t5 = e5 + t6;
        let t4 = e4 + t5;
        let t3 = e3 + t4;
        let t2 = e2 + t3;
        let t1 = e1 + t2;
        let t0 = e0 + t1;
        lemma_concat_assoc(e6, e7, rest);
        lemma_concat_assoc(e5, e6 + e7, rest);
        lemma_concat_assoc(e4, e5 + (e6 + e7), rest);
        lemma_concat_assoc(e3, e4 + (e5 + (e6 + e7)), rest);
        lemma_concat_assoc(e2, e3 + (e4 + (e5 + (e6 + e7))), rest);
        lemma_concat_assoc(e1, e2 + (e3 + (e4 + (e5 + (e6 + e7)))), rest);
        lemma_concat_assoc(e0, e1 + (e2 + (e3 + (e4 + (e5 + (e6 + e7))))), rest);
        assert(self.spec_pack() + rest == t0);
        lemma_take_u64_of_encoding(self.active_stake_lamports, t1);
        lemma_take_u64_of_encoding(self.transient_stake_lamports, t2);
        lemma_take_u64_of_encoding(self.last_update_epoch, t3);
        lemma_take_u64_of_encoding(self.transient_seed_suffix, t4);
        lemma_take_u32_of_encoding(self.unused, t5);
        lemma_take_u32_of_encoding(self.validator_seed_suffix, t6);
        lemma_take_u8_of_encoding(self.status.0, t7);
        lemma_take_pubkey_of_encoding(self.vote_account_address, rest);
    }

    /// What was read as an entry is, byte for byte, that entry packed.
    pub proof fn lemma_take_encodes(s: Seq<u8>)
        ensures
            take_validator_stake_info(s) matches Some((v, rest)) ==> s == v.spec_pack() + rest,
    {
        if let Some((v, rest)) = take_validator_stake_info(s) {
            lemma_take_u64_encodes(s);
            let s1 = rest_of(take_u64(s));
            lemma_take_u64_encodes(s1);
            let s2 = rest_of(take_u64(s1));
            lemma_take_u64_encodes(s2);
            let s3 = rest_of(take_u64(s2));
            lemma_take_u64_encodes(s3);
            let s4 = rest_of(take_u64(s3));
            lemma_take_u32_encodes(s4);
            let s5 = rest_of(take_u32(s4));
            lemma_take_u32_encodes(s5);
            let s6 = rest_of(take_u32(s5));
            lemma_take_u8_encodes(s6);
            let s7 = rest_of(take_u8(s6));
            lemma_take_pubkey_encodes(s7);
            let e7 = enc_pubkey(v.vote_account_address);
            let e6 = seq![v.status.0];
            let e5 = spec_u32_to_le_bytes(v.validator_seed_suffix);
            let e4 = spec_u32_to_le_bytes(v.unused);
            let e3 = spec_u64_to_le_bytes(v.transient_seed_suffix);
            let e2 = spec_u64_to_le_bytes(v.last_update_epoch);
            let e1 = spec_u64_to_le_bytes(v.transient_stake_lamports);
            let e0 = spec_u64_to_le_bytes(v.active_stake_lamports);
            lemma_concat_assoc(e6, e7, rest);
            lemma_concat_assoc(e5, e6 + e7, rest);
            lemma_concat_assoc(e4, e5 + (e6 + e7), rest);
            lemma_concat_assoc(e3, e4 + (e5 + (e6 + e7)), rest);
            lemma_concat_assoc(e2, e3 + (e4 + (e5 + (e6 + e7))), rest);
            lemma_concat_assoc(e1, e2 + (e3 + (e4 + (e5 + (e6 + e7)))), rest);
            lemma_concat_assoc(e0, e1 + (e2 + (e3 + (e4 + (e5 + (e6 + e7))))), rest);
        }
    }

    /// Whether packed bytes describe an entry that is ready for removal and
    /// holds no lamports.
    pub open spec fn spec_is_removed(data: Seq<u8>) -> bool {
        &&& StakeStatus::spec_from_u8(data[40]) == Some(StakeStatus::ReadyForRemoval)
        &&& forall|i: int| 0 <= i < 16 ==> data[i] == 0
    }

    /// Two entries with the same packed bytes are the same entry.
    pub proof fn lemma_pack_injective(a: ValidatorStakeInfo, b: ValidatorStakeInfo)
        requires
            a.spec_pack() == b.spec_pack(),
        ensures
            a == b,
    {
        a.lemma_take_of_pack(Seq::empty());
        b.lemma_take_of_pack(Seq::empty());
    }

    /// Get the total lamports on this validator (active and transient)
    pub fn stake_lamports(&self) -> (r: Option<u64>)
        ensures
            r == crate::pool::checked_u64(self.spec_stake_lamports()),
    {
        self.active_stake_lamports.checked_add(self.transient_stake_lamports)
    }

    /// Performs a very cheap comparison, for checking if this validator stake
    /// info matches the vote account address: whether bytes 41 to 72 of a
    /// packed entry are the bytes of `vote_address`.
    pub fn memcmp_pubkey(data: &[u8], vote_address: &Pubkey) -> (r: bool)
        requires
            data@.len() >= 73,
        ensures
            r == (data@.subrange(41, 73) == vote_address@),
    {
        let address = vote_address.to_bytes();
        let stored = &data[41..73];
        let wanted = address.as_slice();
        let difference = compare_memory(stored, wanted, 32);
        proof {
            assert(stored@.take(32) =~= stored@);
            assert(wanted@.take(32) =~= wanted@);
            if stored@ != wanted@ {
                lemma_first_difference(stored@, wanted@, 32);
            }
        }
        difference == 0
    }

    /// Performs a comparison, used to check if this validator stake
    /// info has more active lamports than some limit
    pub fn active_lamports_greater_than(data: &[u8], lamports: &u64) -> (r: bool)
        requires
            data@.len() >= 8,
        ensures
            r == (spec_u64_from_le_bytes(data@.subrange(0, 8)) > *lamports),
    {
        match decode_u64(&data[0..8]) {
            Some(active) => active > *lamports,
            None => vstd::pervasive::unreached(),
        }
    }

    /// Performs a comparison, used to check if this validator stake
    /// info has more transient lamports than some limit
    pub fn transient_lamports_greater_than(data: &[u8], lamports: &u64) -> (r: bool)
        requires
            data@.len() >= 16,
        ensures
            r == (spec_u64_from_le_bytes(data@.subrange(8, 16)) > *lamports),
    {
        match decode_u64(&data[8..16]) {
            Some(transient) => transient > *lamports,
            None => vstd::pervasive::unreached(),
        }
    }

    /// Check that the validator stake info is totally removed
    pub fn is_removed(data: &[u8]) -> (r: bool)
        requires
            data@.len() >= 41,
        ensures
            r == ValidatorStakeInfo::spec_is_removed(data@),
    {
        match StakeStatus::from_u8(data[40]) {
            Some(StakeStatus::ReadyForRemoval) => {},
            _ => {
                return false;
            },
        }
        let mut i: usize = 0;
        while i < 16
            invariant
                0 <= i <= 16,
                data@.len() >= 41,
                forall|j: int| 0 <= j < i ==> data@[j] == 0,
            decreases 16 - i,
        {
            if data[i] != 0 {
                return false;
            }
            i += 1;
        }
        true
    }

    /// Check that the validator stake info is active
    pub fn is_active(data: &[u8]) -> (r: bool)
        requires
            data@.len() >= 41,
        ensures
            r == (StakeStatus::spec_from_u8(data@[40]) == Some(StakeStatus::Active)),
    {
        match StakeStatus::from_u8(data[40]) {
            Some(StakeStatus::Active) => true,
            _ => false,
        }
    }

    /// Writes the packed entry over the first 73 bytes of `data` and leaves
    /// the others as they are.
    pub fn pack_into_slice(&self, data: &mut [u8])
        requires
            old(data)@.len() >= 73,
        ensures
            final(data)@ == self.spec_pack() + old(data)@.skip(73),
    {
        let mut packed: Vec<u8> = Vec::new();
        write_validator_stake_info(&mut packed, self);
        proof {
            self.lemma_pack_layout();
            assert(packed@ =~= self.spec_pack());
        }
        let mut i: usize = 0;
        while i < 73
            invariant
                0 <= i <= 73,
                packed@ == self.spec_pack(),
                packed@.len() == 73,
                data@.len() == old(data)@.len(),
                data@.len() >= 73,
                forall|j: int| 0 <= j < i ==> data@[j] == packed@[j],
                forall|j: int| i <= j < data@.len() ==> data@[j] == old(data)@[j],
            decreases 73 - i,
        {
            data[i] = packed[i];
            i += 1;
        }
        assert(data@ =~= self.spec_pack() + old(data)@.skip(73));
    }

    /// Reads an entry from exactly 73 packed bytes.
    pub fn unpack_from_slice(src: &[u8]) -> (r: Result<ValidatorStakeInfo, ProgramError>)
        ensures
            src@.len() == 73 ==> r is Ok && r->Ok_0.spec_pack() == src@,
            src@.len() != 73 ==> r == Err::<ValidatorStakeInfo, ProgramError>(
                ProgramError::BorshIoError,
            ),
    {
        if src.len() != 73 {
            return Err(ProgramError::BorshIoError);
        }
        proof {
            assert(src@.skip(0) =~= src@);
            ValidatorStakeInfo::lemma_take_encodes(src@);
        }
        match read_validator_stake_info(src, 0) {
            Some((info, _)) => {
                proof {
                    info.lemma_pack_layout();
                    let rest = rest_of(take_validator_stake_info(src@));
                    assert(src@.len() == info.spec_pack().len() + rest.len());
                    assert(src@ =~= info.spec_pack());
                }
                Ok(info)
            },
            None => Err(ProgramError::BorshIoError),
        }
    }
}

/// Two sequences that differ somewhere in their first `n` places have a
/// first place where they differ.
proof fn lemma_first_difference(a: Seq<u8>, b: Seq<u8>, n: nat)
    requires
        n <= a.len(),
        n <= b.len(),
        a.take(n as int) != b.take(n as int),
    ensures
        exists|i: int| 0 <= i < n && a.take(i) == b.take(i) && a[i] != b[i],
    decreases n,
{
    if n == 0 {
        assert(a.take(0) =~= b.take(0));
    } else if a.take(n - 1) == b.take(n - 1) {
        if a[n - 1] == b[n - 1] {
            assert(a.take(n as int) =~= a.take(n - 1).push(a[n - 1]));
            assert(b.take(n as int) =~= b.take(n - 1).push(b[n - 1]));
        }
        assert(0 <= n - 1 < n && a.take(n - 1) == b.take(n - 1) && a[n - 1] != b[n - 1]);
    } else {
        lemma_first_difference(a, b, (n - 1) as nat);
    }
}

/// Reads a packed entry at `pos`.
pub fn read_validator_stake_info(data: &[u8], pos: usize) -> (r: Option<
    (ValidatorStakeInfo, usize),
>)
    requires
        pos <= data@.len(),
    ensures
        read_matches(r, take_validator_stake_info(data@.skip(pos as int)), data@),
{
    let (active, pos) = match read_u64(data, pos) {
        Some(v) => v,
        None => {
            return None;
        },
    };
    let (transient, pos) = match read_u64(data, pos) {
        Some(v) => v,
        None => {
            return None;
        },
    };
    let (epoch, pos) = match read_u64(data, pos) {
        Some(v) => v,
        None => {
            return None;
        },
    };
    let (transient_seed, pos) = match read_u64(data, pos) {
        Some(v) => v,
        None => {
            return None;
        },
    };
    let (unused, pos) = match read_u32(data, pos) {
        Some(v) => v,
        None => {
            return None;
        },
    };
    let (validator_seed, pos) = match read_u32(data, pos) {
        Some(v) => v,
        None => {
            return None;
        },
    };
    let (status, pos) = match read_u8(data, pos) {
        Some(v) => v,
        None => {
            return None;
        },
    };
    let (vote, pos) = match read_pubkey(data, pos) {
        Some(v) => v,
        None => {
            return None;
        },
    };
    Some(
        (
            ValidatorStakeInfo {
                active_stake_lamports: active,
                transient_stake_lamports: transient,
                last_update_epoch: epoch,
                transient_seed_suffix: transient_seed,
                unused,
                validator_seed_suffix: validator_seed,
                status: PodStakeStatus(status),
                vote_account_address: vote,
            },
            pos,
        ),
    )
}

/// Appends a packed entry.
pub fn write_validator_stake_info(out: &mut Vec<u8>, v: &ValidatorStakeInfo)
    ensures
        final(out)@ == old(out)@ + v.spec_pack(),
{
    write_u64(out, v.active_stake_lamports);
    write_u64(out, v.transient_stake_lamports);
    write_u64(out, v.last_update_epoch);
    write_u64(out, v.transient_seed_suffix);
    write_u32(out, v.unused);
    write_u32(out, v.validator_seed_suffix);
    write_u8(out, v.status.0);
    write_pubkey(out, &v.vote_account_address);
    assert(out@ =~= old(out)@ + v.spec_pack());
}

} // verus!
