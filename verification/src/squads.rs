//! Proposals to a Squads multisig.
//!
//! A pool whose manager or staker is a multisig vault is operated through
//! proposals: a transaction account is created under the multisig, the
//! instructions are attached to it one by one, it is activated, and the
//! members approve it. This module reads the multisig account, derives the
//! addresses involved and builds those instructions.

use vstd::prelude::*;
use vstd::bytes::{
    spec_u16_from_le_bytes, spec_u32_from_le_bytes, spec_u32_to_le_bytes, u16_from_le_bytes,
    u32_from_le_bytes, u32_to_le_bytes,
};
use vstd::slice::slice_to_vec;
use vstd::std_specs::convert::FromSpecImpl;
use crate::instruction::{instructions_view, AccountMeta, Instruction, InstructionView};
use crate::pda::{find_address, has_address};
use crate::pubkey::Pubkey;
use crate::trusted::{address_view, program_address, seeds_view, system_program_id};

verus! {

/// The bytes of the id of the Squads multisig program,
/// `SMPLecH534NA9acpos4G6x7uf3LWbCAwZQE9e8ZekMu`.
pub const SQUADS_MPL_PROGRAM_ID: [u8; 32] = [
    6, 126, 145, 221, 206, 113, 192, 199, 95, 63, 255, 186, 30, 214, 44, 175,
    64, 4, 111, 29, 216, 195, 82, 136, 59, 16, 168, 125, 183, 58, 217, 48,
];

/// First seed of every address under a multisig: `"squad"`
pub const SEED_PREFIX: [u8; 5] = [115, 113, 117, 97, 100];

/// Last seed of a multisig's address: `"multisig"`
pub const SEED_MULTISIG: [u8; 8] = [109, 117, 108, 116, 105, 115, 105, 103];

/// Last seed of a transaction's address: `"transaction"`
pub const SEED_TRANSACTION: [u8; 11] = [116, 114, 97, 110, 115, 97, 99, 116, 105, 111, 110];

/// Last seed of an attached instruction's address: `"instruction"`
pub const SEED_INSTRUCTION: [u8; 11] = [105, 110, 115, 116, 114, 117, 99, 116, 105, 111, 110];

/// Last seed of a vault's address: `"authority"`
pub const SEED_AUTHORITY: [u8; 9] = [97, 117, 116, 104, 111, 114, 105, 116, 121];

/// Tag of the instruction that creates a transaction.
pub const CREATE_TRANSACTION: [u8; 8] = [227, 193, 53, 239, 55, 126, 112, 105];

/// Tag of the instruction that attaches an instruction to a transaction.
pub const ADD_INSTRUCTION: [u8; 8] = [11, 70, 136, 166, 202, 55, 246, 74];

/// Tag of the instruction that activates a transaction.
pub const ACTIVATE_TRANSACTION: [u8; 8] = [56, 17, 0, 163, 135, 11, 135, 32];

/// Tag of the instruction that approves a transaction.
pub const APPROVE_TRANSACTION: [u8; 8] = [224, 39, 88, 181, 36, 59, 155, 122];

/// The id of the Squads multisig program.
pub fn squads_mpl_program_id() -> (r: Pubkey)
    ensures
        r@ == SQUADS_MPL_PROGRAM_ID@,
{
    Pubkey(SQUADS_MPL_PROGRAM_ID)
}

/// Why the bytes of an account are not a multisig account.
#[derive(Clone, Copy, Debug, PartialEq, Eq, Structural)]
pub enum MultisigError {
    /// There is no room for the 8-byte account tag.
    DataTooShort,
    /// There is no room for the fields before the members.
    BasicFieldsTooShort,
    /// There is no room for as many members as the account announces.
    KeysTooShort,
}

impl MultisigError {
    /// The failure in words.
    pub fn message(&self) -> (r: &'static str)
        ensures
            *self == MultisigError::DataTooShort ==> r@ == "Account data too short"@,
            *self == MultisigError::BasicFieldsTooShort ==> r@
                == "Account data too short for basic fields"@,
            *self == MultisigError::KeysTooShort ==> r@ == "Account data too short for keys"@,
    {
        match self {
            MultisigError::DataTooShort => "Account data too short",
            MultisigError::BasicFieldsTooShort => "Account data too short for basic fields",
            MultisigError::KeysTooShort => "Account data too short for keys",
        }
    }
}

/// Squads multisig account state (partial, only fields we need)
#[derive(Clone, Debug, PartialEq)]
pub struct MultisigAccount {
    /// Number of signers required to execute a transaction
    pub threshold: u16,
    /// Index to seed the authority
    pub authority_index: u32,
    /// Index for the next transaction
    pub transaction_index: u32,
    /// Bump seed for the multisig PDA
    pub bump: u8,
    /// Key used to seed the multisig PDA
    pub create_key: Pubkey,
    /// Members of the multisig
    pub keys: Vec<Pubkey>,
}

/// What a multisig account holds.
pub ghost struct MultisigAccountView {
    pub threshold: u16,
    pub authority_index: u32,
    pub transaction_index: u32,
    pub bump: u8,
    pub create_key: Pubkey,
    pub keys: Seq<Pubkey>,
}

impl View for MultisigAccount {
    type V = MultisigAccountView;

    open spec fn view(&self) -> MultisigAccountView {
        MultisigAccountView {
            threshold: self.threshold,
            authority_index: self.authority_index,
            transaction_index: self.transaction_index,
            bump: self.bump,
            create_key: self.create_key,
            keys: self.keys@,
        }
    }
}

/// The number of members that the fields of a multisig account announce.
/// `fields` is the account data after its 8-byte tag.
pub open spec fn spec_keys_len(fields: Seq<u8>) -> int {
    spec_u32_from_le_bytes(fields.subrange(46, 50)) as int
}

/// The `i`-th member of a multisig account.
pub open spec fn spec_key_at(fields: Seq<u8>, i: int) -> Pubkey {
    Pubkey::spec_from_bytes(fields.subrange(50 + 32 * i, 82 + 32 * i))
}

/// The multisig account that account data describes.
///
/// After an 8-byte tag the fields lie at fixed places: the threshold in
/// bytes 0 and 1, the authority index in bytes 2 and 3, the transaction
/// index in bytes 4 to 7, the bump in byte 12, the create key in bytes 13 to
/// 44, the number of members in bytes 46 to 49 and the members from byte 50
/// on, 32 bytes each. Integers are in little-endian order. What lies in
/// between or behind is not read.
pub open spec fn spec_deserialize(data: Seq<u8>) -> Result<MultisigAccountView, MultisigError> {
    let fields = data.skip(8);
    if data.len() < 8 {
        Err(MultisigError::DataTooShort)
    } else if fields.len() < 50 {
        Err(MultisigError::BasicFieldsTooShort)
    } else if fields.len() < 50 + spec_keys_len(fields) * 32 {
        Err(MultisigError::KeysTooShort)
    } else {
        Ok(
            MultisigAccountView {
                threshold: spec_u16_from_le_bytes(fields.subrange(0, 2)),
                authority_index: spec_u16_from_le_bytes(fields.subrange(2, 4)) as u32,
                transaction_index: spec_u32_from_le_bytes(fields.subrange(4, 8)),
                bump: fields[12],
                create_key: Pubkey::spec_from_bytes(fields.subrange(13, 45)),
                keys: Seq::new(spec_keys_len(fields) as nat, |i: int| spec_key_at(fields, i)),
            },
        )
    }
}

/// Reads the address at `at` in `fields`.
fn key_at(fields: &[u8], at: usize) -> (r: Pubkey)
    requires
        at + 32 <= fields@.len(),
    ensures
        r == Pubkey::spec_from_bytes(fields@.subrange(at as int, at + 32)),
{
    let len = fields.len();
    assert(at + 32 <= len);
    match Pubkey::try_from_slice(&fields[at..at + 32]) {
        Some(key) => {
            proof {
                let bytes = fields@.subrange(at as int, at + 32);
                Pubkey::lemma_spec_from_bytes(bytes);
                Pubkey::lemma_eq_by_view(key, Pubkey::spec_from_bytes(bytes));
            }
            key
        },
        None => vstd::pervasive::unreached(),
    }
}

impl MultisigAccount {
    /// Deserialize a multisig account from account data
    pub fn deserialize(data: &[u8]) -> (r: Result<MultisigAccount, MultisigError>)
        ensures
            match spec_deserialize(data@) {
                Ok(account) => r is Ok && r->Ok_0@ == account,
                Err(e) => r == Err::<MultisigAccount, MultisigError>(e),
            },
    {
        if data.len() < 8 {
            return Err(MultisigError::DataTooShort);
        }
        let fields = &data[8..data.len()];
        assert(fields@ =~= data@.skip(8));
        if fields.len() < 50 {
            return Err(MultisigError::BasicFieldsTooShort);
        }
        let threshold = u16_from_le_bytes(&fields[0..2]);
        let authority_index = u16_from_le_bytes(&fields[2..4]) as u32;
        let transaction_index = u32_from_le_bytes(&fields[4..8]);
        let bump = fields[12];
        let create_key = key_at(fields, 13);
        let keys_len = u32_from_le_bytes(&fields[46..50]);
        let keys_end: u64 = 50 + (keys_len as u64) * 32;
        if (fields.len() as u64) < keys_end {
            return Err(MultisigError::KeysTooShort);
        }
        let mut keys: Vec<Pubkey> = Vec::new();
        let mut i: usize = 0;
        while i < keys_len as usize
            invariant
                0 <= i <= keys_len,
                50 + keys_len * 32 <= fields@.len() <= usize::MAX,
                keys@.len() == i,
                forall|j: int| 0 <= j < i ==> keys@[j] == spec_key_at(fields@, j),
            decreases keys_len - i,
        {
            assert(i * 32 + 32 <= keys_len * 32) by (nonlinear_arith)
                requires
                    i < keys_len,
            ;
            let start = 50 + i * 32;
            keys.push(key_at(fields, start));
            i += 1;
        }
        let account = MultisigAccount {
            threshold,
            authority_index,
            transaction_index,
            bump,
            create_key,
            keys,
        };
        proof {
            assert(account@.keys =~= Seq::new(
                spec_keys_len(fields@) as nat,
                |i: int| spec_key_at(fields@, i),
            ));
        }
        Ok(account)
    }

    /// Check if a pubkey is a member of this multisig
    pub fn is_member(&self, key: &Pubkey) -> (r: bool)
        ensures
            r == exists|i: int| 0 <= i < self.keys@.len() && self.keys@[i]@ == key@,
    {
        let mut i: usize = 0;
        while i < self.keys.len()
            invariant
                0 <= i <= self.keys@.len(),
                forall|j: int| 0 <= j < i ==> self.keys@[j]@ != key@,
            decreases self.keys@.len() - i,
        {
            if self.keys[i] == *key {
                return true;
            }
            i += 1;
        }
        false
    }
}

/// Account meta for Squads instructions (serializable)
#[derive(Clone, Copy, Debug, PartialEq, Eq)]
pub struct MsAccountMeta {
    /// The account's address.
    pub pubkey: Pubkey,
    /// Whether the instruction needs this account's signature.
    pub is_signer: bool,
    /// Whether the instruction may change the account.
    pub is_writable: bool,
}

/// The byte that stands for a flag.
pub open spec fn flag_byte(flag: bool) -> u8 {
    if flag {
        1
    } else {
        0
    }
}

impl MsAccountMeta {
    /// The 34 bytes of the account meta: the address, then one byte for
    /// each flag.
    pub open spec fn spec_serialize(self) -> Seq<u8> {
        self.pubkey@ + seq![flag_byte(self.is_signer), flag_byte(self.is_writable)]
    }

    /// The account meta with the address and flags of `meta`.
    pub open spec fn spec_from(meta: AccountMeta) -> MsAccountMeta {
        MsAccountMeta {
            pubkey: meta.pubkey,
            is_signer: meta.is_signer,
            is_writable: meta.is_writable,
        }
    }

    /// The 34 bytes of the account meta.
    pub fn serialize(&self) -> (r: Vec<u8>)
        ensures
            r@ == self.spec_serialize(),
    {
        let mut buf = self.pubkey.to_vec();
        buf.push(if self.is_signer {
            1
        } else {
            0
        });
        buf.push(if self.is_writable {
            1
        } else {
            0
        });
        assert(buf@ =~= self.spec_serialize());
        buf
    }
}

impl<'a> From<&'a AccountMeta> for MsAccountMeta {
    fn from(meta: &'a AccountMeta) -> (r: MsAccountMeta) {
        MsAccountMeta {
            pubkey: meta.pubkey,
            is_signer: meta.is_signer,
            is_writable: meta.is_writable,
        }
    }
}

impl<'a> FromSpecImpl<&'a AccountMeta> for MsAccountMeta {
    open spec fn obeys_from_spec() -> bool {
        true
    }

    open spec fn from_spec(meta: &'a AccountMeta) -> MsAccountMeta {
        MsAccountMeta::spec_from(*meta)
    }
}

/// Incoming instruction data for add_instruction
#[derive(Clone, Debug, PartialEq)]
pub struct IncomingInstruction {
    /// The program that executes the instruction.
    pub program_id: Pubkey,
    /// The accounts that the instruction touches.
    pub keys: Vec<MsAccountMeta>,
    /// What the program is asked to do.
    pub data: Vec<u8>,
}

/// What an incoming instruction holds.
pub ghost struct IncomingInstructionView {
    pub program_id: Pubkey,
    pub keys: Seq<MsAccountMeta>,
    pub data: Seq<u8>,
}

impl View for IncomingInstruction {
    type V = IncomingInstructionView;

    open spec fn view(&self) -> IncomingInstructionView {
        IncomingInstructionView {
            program_id: self.program_id,
            keys: self.keys@,
            data: self.data@,
        }
    }
}

/// The account metas one after the other, 34 bytes each.
pub open spec fn spec_serialize_keys(keys: Seq<MsAccountMeta>) -> Seq<u8>
    decreases keys.len(),
{
    if keys.len() == 0 {
        Seq::empty()
    } else {
        spec_serialize_keys(keys.drop_last()) + keys.last().spec_serialize()
    }
}

/// A length as the 32-bit count that precedes a list; a length beyond 32
/// bits keeps its low 32 bits.
pub open spec fn spec_count(len: nat) -> u32 {
    len as u32
}

impl IncomingInstructionView {
    /// The incoming instruction for an instruction: the same program and
    /// data, and each account with its flags.
    pub open spec fn of(ix: InstructionView) -> IncomingInstructionView {
        IncomingInstructionView {
            program_id: ix.program_id,
            keys: ix.accounts.map_values(|meta: AccountMeta| MsAccountMeta::spec_from(meta)),
            data: ix.data,
        }
    }

    /// The bytes of the incoming instruction: the program id, the number of
    /// accounts as a 32-bit integer, the accounts, the length of the data as
    /// a 32-bit integer, the data.
    pub open spec fn spec_serialize(self) -> Seq<u8> {
        self.program_id@ + spec_u32_to_le_bytes(spec_count(self.keys.len()))
            + spec_serialize_keys(self.keys) + spec_u32_to_le_bytes(spec_count(self.data.len()))
            + self.data
    }

    /// The room that the instruction account needs: the serialized
    /// instruction, then a 4-byte index and two single bytes.
    pub open spec fn spec_max_size(self) -> nat {
        32 + 4 + 34 * self.keys.len() + 4 + self.data.len() + 4 + 1 + 1
    }
}

/// A list as its 32-bit count.
fn count_of(len: usize) -> (r: u32)
    ensures
        r == spec_count(len as nat),
{
    #[verifier::truncate]
    (len as u32)
}

impl IncomingInstruction {
    /// Create from a native Solana instruction
    pub fn from_instruction(ix: &Instruction) -> (r: IncomingInstruction)
        ensures
            r@ == IncomingInstructionView::of(ix@),
    {
        let mut keys: Vec<MsAccountMeta> = Vec::new();
        let mut i: usize = 0;
        while i < ix.accounts.len()
            invariant
                0 <= i <= ix.accounts@.len(),
                keys@.len() == i,
                forall|j: int|
                    0 <= j < i ==> keys@[j] == MsAccountMeta::spec_from(ix.accounts@[j]),
            decreases ix.accounts@.len() - i,
        {
            keys.push(MsAccountMeta::from(&ix.accounts[i]));
            i += 1;
        }
        let r = IncomingInstruction {
            program_id: ix.program_id,
            keys,
            data: slice_to_vec(ix.data.as_slice()),
        };
        assert(r@.keys =~= IncomingInstructionView::of(ix@).keys);
        r
    }

    /// Serialize for the add_instruction instruction data
    pub fn serialize(&self) -> (r: Vec<u8>)
        ensures
            r@ == self@.spec_serialize(),
    {
        let mut buf = self.program_id.to_vec();
        let mut count = u32_to_le_bytes(count_of(self.keys.len()));
        buf.append(&mut count);
        let ghost head = buf@;
        let mut i: usize = 0;
        while i < self.keys.len()
            invariant
                0 <= i <= self.keys@.len(),
                buf@ == head + spec_serialize_keys(self.keys@.take(i as int)),
            decreases self.keys@.len() - i,
        {
            let mut key = self.keys[i].serialize();
            buf.append(&mut key);
            proof {
                assert(self.keys@.take(i + 1).drop_last() =~= self.keys@.take(i as int));
                assert(buf@ =~= head + spec_serialize_keys(self.keys@.take(i + 1)));
            }
            i += 1;
        }
        proof {
            assert(self.keys@.take(i as int) =~= self.keys@);
        }
        let mut len = u32_to_le_bytes(count_of(self.data.len()));
        buf.append(&mut len);
        let mut data = slice_to_vec(self.data.as_slice());
        buf.append(&mut data);
        buf
    }

    /// Calculate the max size needed for the instruction account
    pub fn get_max_size(&self) -> (r: usize)
        requires
            self@.spec_max_size() <= usize::MAX,
        ensures
            r == self@.spec_max_size(),
    {
        32 + 4 + (34 * self.keys.len()) + 4 + self.data.len() + 4 + 1 + 1
    }
}

/// Seeds of a multisig's address: `"squad"`, the create key, `"multisig"`.
pub open spec fn multisig_pda_seeds(create_key: Seq<u8>) -> Seq<Seq<u8>> {
    seq![SEED_PREFIX@, create_key, SEED_MULTISIG@]
}

/// Seeds of a transaction's address: `"squad"`, the multisig's address, the
/// transaction's index in little-endian order, `"transaction"`.
pub open spec fn transaction_pda_seeds(multisig: Seq<u8>, transaction_index: u32) -> Seq<Seq<u8>> {
    seq![SEED_PREFIX@, multisig, spec_u32_to_le_bytes(transaction_index), SEED_TRANSACTION@]
}

/// Seeds of an attached instruction's address: `"squad"`, the
/// transaction's address, the instruction's index as one byte,
/// `"instruction"`.
pub open spec fn instruction_pda_seeds(transaction: Seq<u8>, instruction_index: u8) -> Seq<
    Seq<u8>,
> {
    seq![SEED_PREFIX@, transaction, seq![instruction_index], SEED_INSTRUCTION@]
}

/// Seeds of a vault's address: `"squad"`, the multisig's address, the
/// authority index in little-endian order, `"authority"`.
pub open spec fn vault_pda_seeds(multisig: Seq<u8>, authority_index: u32) -> Seq<Seq<u8>> {
    seq![SEED_PREFIX@, multisig, spec_u32_to_le_bytes(authority_index), SEED_AUTHORITY@]
}

fn multisig_pda_seed_list(create_key: &Pubkey) -> (r: Vec<Vec<u8>>)
    ensures
        seeds_view(r@) == multisig_pda_seeds(create_key@),
{
    let mut seeds: Vec<Vec<u8>> = Vec::new();
    seeds.push(slice_to_vec(SEED_PREFIX.as_slice()));
    seeds.push(create_key.to_vec());
    seeds.push(slice_to_vec(SEED_MULTISIG.as_slice()));
    assert(seeds_view(seeds@) =~= multisig_pda_seeds(create_key@));
    seeds
}

fn transaction_pda_seed_list(multisig: &Pubkey, transaction_index: u32) -> (r: Vec<Vec<u8>>)
    ensures
        seeds_view(r@) == transaction_pda_seeds(multisig@, transaction_index),
{
    let mut seeds: Vec<Vec<u8>> = Vec::new();
    seeds.push(slice_to_vec(SEED_PREFIX.as_slice()));
    seeds.push(multisig.to_vec());
    seeds.push(u32_to_le_bytes(transaction_index));
    seeds.push(slice_to_vec(SEED_TRANSACTION.as_slice()));
    assert(seeds_view(seeds@) =~= transaction_pda_seeds(multisig@, transaction_index));
    seeds
}

fn instruction_pda_seed_list(transaction: &Pubkey, instruction_index: u8) -> (r: Vec<Vec<u8>>)
    ensures
        seeds_view(r@) == instruction_pda_seeds(transaction@, instruction_index),
{
    let mut seeds: Vec<Vec<u8>> = Vec::new();
    seeds.push(slice_to_vec(SEED_PREFIX.as_slice()));
    seeds.push(transaction.to_vec());
    let mut index: Vec<u8> = Vec::new();
    index.push(instruction_index);
    assert(index@ =~= seq![instruction_index]);
    seeds.push(index);
    seeds.push(slice_to_vec(SEED_INSTRUCTION.as_slice()));
    assert(seeds_view(seeds@) =~= instruction_pda_seeds(transaction@, instruction_index));
    seeds
}

fn vault_pda_seed_list(multisig: &Pubkey, authority_index: u32) -> (r: Vec<Vec<u8>>)
    ensures
        seeds_view(r@) == vault_pda_seeds(multisig@, authority_index),
{
    let mut seeds: Vec<Vec<u8>> = Vec::new();
    seeds.push(slice_to_vec(SEED_PREFIX.as_slice()));
    seeds.push(multisig.to_vec());
    seeds.push(u32_to_le_bytes(authority_index));
    seeds.push(slice_to_vec(SEED_AUTHORITY.as_slice()));
    assert(seeds_view(seeds@) =~= vault_pda_seeds(multisig@, authority_index));
    seeds
}

/// Derive the multisig PDA
pub fn find_multisig_pda(create_key: &Pubkey) -> (r: (Pubkey, u8))
    requires
        program_address(multisig_pda_seeds(create_key@), SQUADS_MPL_PROGRAM_ID@) is Some,
    ensures
        Some((r.0@, r.1)) == program_address(
            multisig_pda_seeds(create_key@),
            SQUADS_MPL_PROGRAM_ID@,
        ),
{
    find_address(&multisig_pda_seed_list(create_key), &squads_mpl_program_id())
}

/// The multisig PDA, or `None` where the seeds derive no address.
pub fn try_find_multisig_pda(create_key: &Pubkey) -> (r: Option<(Pubkey, u8)>)
    ensures
        address_view(r) == program_address(
            multisig_pda_seeds(create_key@),
            SQUADS_MPL_PROGRAM_ID@,
        ),
{
    if has_address(&multisig_pda_seed_list(create_key), &squads_mpl_program_id()) {
        Some(find_multisig_pda(create_key))
    } else {
        None
    }
}

/// Derive a transaction PDA
pub fn find_transaction_pda(multisig: &Pubkey, transaction_index: u32) -> (r: (Pubkey, u8))
    requires
        program_address(
            transaction_pda_seeds(multisig@, transaction_index),
            SQUADS_MPL_PROGRAM_ID@,
        ) is Some,
    ensures
        Some((r.0@, r.1)) == program_address(
            transaction_pda_seeds(multisig@, transaction_index),
            SQUADS_MPL_PROGRAM_ID@,
        ),
{
    find_address(&transaction_pda_seed_list(multisig, transaction_index), &squads_mpl_program_id())
}

/// A transaction PDA, or `None` where the seeds derive no address.
pub fn try_find_transaction_pda(multisig: &Pubkey, transaction_index: u32) -> (r: Option<
    (Pubkey, u8),
>)
    ensures
        address_view(r) == program_address(
            transaction_pda_seeds(multisig@, transaction_index),
            SQUADS_MPL_PROGRAM_ID@,
        ),
{
    if has_address(
        &transaction_pda_seed_list(multisig, transaction_index),
        &squads_mpl_program_id(),
    ) {
        Some(find_transaction_pda(multisig, transaction_index))
    } else {
        None
    }
}

/// Derive an instruction PDA
pub fn find_instruction_pda(transaction: &Pubkey, instruction_index: u8) -> (r: (Pubkey, u8))
    requires
        program_address(
            instruction_pda_seeds(transaction@, instruction_index),
            SQUADS_MPL_PROGRAM_ID@,
        ) is Some,
    ensures
        Some((r.0@, r.1)) == program_address(
            instruction_pda_seeds(transaction@, instruction_index),
            SQUADS_MPL_PROGRAM_ID@,
        ),
{
    find_address(
        &instruction_pda_seed_list(transaction, instruction_index),
        &squads_mpl_program_id(),
    )
}

/// An instruction PDA, or `None` where the seeds derive no address.
pub fn try_find_instruction_pda(transaction: &Pubkey, instruction_index: u8) -> (r: Option<
    (Pubkey, u8),
>)
    ensures
        address_view(r) == program_address(
            instruction_pda_seeds(transaction@, instruction_index),
            SQUADS_MPL_PROGRAM_ID@,
        ),
{
    if has_address(
        &instruction_pda_seed_list(transaction, instruction_index),
        &squads_mpl_program_id(),
    ) {
        Some(find_instruction_pda(transaction, instruction_index))
    } else {
        None
    }
}

/// Derive the vault (authority) PDA for a multisig
/// Default vault uses authority_index = 1
pub fn find_vault_pda(multisig: &Pubkey, authority_index: u32) -> (r: (Pubkey, u8))
    requires
        program_address(vault_pda_seeds(multisig@, authority_index), SQUADS_MPL_PROGRAM_ID@)
            is Some,
    ensures
        Some((r.0@, r.1)) == program_address(
            vault_pda_seeds(multisig@, authority_index),
            SQUADS_MPL_PROGRAM_ID@,
        ),
{
    find_address(&vault_pda_seed_list(multisig, authority_index), &squads_mpl_program_id())
}

/// The vault PDA for a multisig, or `None` where the seeds derive no
/// address.
pub fn try_find_vault_pda(multisig: &Pubkey, authority_index: u32) -> (r: Option<(Pubkey, u8)>)
    ensures
        address_view(r) == program_address(
            vault_pda_seeds(multisig@, authority_index),
            SQUADS_MPL_PROGRAM_ID@,
        ),
{
    if has_address(&vault_pda_seed_list(multisig, authority_index), &squads_mpl_program_id()) {
        Some(find_vault_pda(multisig, authority_index))
    } else {
        None
    }
}

/// The address of the system program.
pub open spec fn spec_system_program_id() -> Pubkey {
    Pubkey::spec_from_bytes(Seq::new(32, |i: int| 0u8))
}

/// The address of the Squads multisig program.
pub open spec fn spec_squads_mpl_program_id() -> Pubkey {
    Pubkey::spec_from_bytes(SQUADS_MPL_PROGRAM_ID@)
}

/// A writable account.
pub open spec fn writable(pubkey: Pubkey, is_signer: bool) -> AccountMeta {
    AccountMeta { pubkey, is_signer, is_writable: true }
}

/// A read-only account.
pub open spec fn readonly(pubkey: Pubkey, is_signer: bool) -> AccountMeta {
    AccountMeta { pubkey, is_signer, is_writable: false }
}

/// The instruction that creates a transaction under a multisig: the
/// multisig and the new transaction account writable, the creator writable
/// and signing, the system program; as data the tag and the authority
/// index.
pub open spec fn spec_create_transaction(
    multisig: Pubkey,
    transaction_pda: Pubkey,
    creator: Pubkey,
    authority_index: u32,
) -> InstructionView {
    InstructionView {
        program_id: spec_squads_mpl_program_id(),
        accounts: seq![
            writable(multisig, false),
            writable(transaction_pda, false),
            writable(creator, true),
            readonly(spec_system_program_id(), false),
        ],
        data: CREATE_TRANSACTION@ + spec_u32_to_le_bytes(authority_index),
    }
}

/// The instruction that attaches an instruction to a transaction: the
/// multisig read-only, the transaction and the new instruction account
/// writable, the creator writable and signing, the system program; as data
/// the tag and the serialized incoming instruction.
pub open spec fn spec_add_instruction(
    multisig: Pubkey,
    transaction_pda: Pubkey,
    instruction_pda: Pubkey,
    creator: Pubkey,
    incoming: IncomingInstructionView,
) -> InstructionView {
    InstructionView {
        program_id: spec_squads_mpl_program_id(),
        accounts: seq![
            readonly(multisig, false),
            writable(transaction_pda, false),
            writable(instruction_pda, false),
            writable(creator, true),
            readonly(spec_system_program_id(), false),
        ],
        data: ADD_INSTRUCTION@ + incoming.spec_serialize(),
    }
}

/// The instruction that activates a transaction: the multisig read-only,
/// the transaction writable, the creator writable and signing; as data the
/// tag alone.
pub open spec fn spec_activate_transaction(
    multisig: Pubkey,
    transaction_pda: Pubkey,
    creator: Pubkey,
) -> InstructionView {
    InstructionView {
        program_id: spec_squads_mpl_program_id(),
        accounts: seq![
            readonly(multisig, false),
            writable(transaction_pda, false),
            writable(creator, true),
        ],
        data: ACTIVATE_TRANSACTION@,
    }
}

/// The instruction by which a member approves a transaction: the multisig
/// read-only, the transaction writable, the member writable and signing; as
/// data the tag alone.
pub open spec fn spec_approve_transaction(
    multisig: Pubkey,
    transaction_pda: Pubkey,
    member: Pubkey,
) -> InstructionView {
    InstructionView {
        program_id: spec_squads_mpl_program_id(),
        accounts: seq![
            readonly(multisig, false),
            writable(transaction_pda, false),
            writable(member, true),
        ],
        data: APPROVE_TRANSACTION@,
    }
}

/// The Squads program id as the value that instructions carry.
fn program_id_for_instructions() -> (r: Pubkey)
    ensures
        r == spec_squads_mpl_program_id(),
{
    let id = squads_mpl_program_id();
    proof {
        Pubkey::lemma_spec_from_bytes(SQUADS_MPL_PROGRAM_ID@);
        Pubkey::lemma_eq_by_view(id, spec_squads_mpl_program_id());
    }
    id
}

/// The system program's address as the value that instructions carry.
fn system_program_for_instructions() -> (r: Pubkey)
    ensures
        r == spec_system_program_id(),
{
    let id = system_program_id();
    proof {
        Pubkey::lemma_spec_from_bytes(Seq::new(32, |i: int| 0u8));
        Pubkey::lemma_eq_by_view(id, spec_system_program_id());
    }
    id
}

/// Build a create_transaction instruction
pub fn create_transaction_instruction(
    multisig: &Pubkey,
    transaction_pda: &Pubkey,
    creator: &Pubkey,
    authority_index: u32,
) -> (r: Instruction)
    ensures
        r@ == spec_create_transaction(*multisig, *transaction_pda, *creator, authority_index),
{
    let mut data = slice_to_vec(CREATE_TRANSACTION.as_slice());
    let mut index = u32_to_le_bytes(authority_index);
    data.append(&mut index);
    let mut accounts: Vec<AccountMeta> = Vec::new();
    accounts.push(AccountMeta::new(*multisig, false));
    accounts.push(AccountMeta::new(*transaction_pda, false));
    accounts.push(AccountMeta::new(*creator, true));
    accounts.push(AccountMeta::new_readonly(system_program_for_instructions(), false));
    let r = Instruction { program_id: program_id_for_instructions(), accounts, data };
    assert(r@.accounts =~= spec_create_transaction(
        *multisig,
        *transaction_pda,
        *creator,
        authority_index,
    ).accounts);
    r
}

/// Build an add_instruction instruction
pub fn add_instruction_instruction(
    multisig: &Pubkey,
    transaction_pda: &Pubkey,
    instruction_pda: &Pubkey,
    creator: &Pubkey,
    incoming_instruction: &IncomingInstruction,
) -> (r: Instruction)
    ensures
        r@ == spec_add_instruction(
            *multisig,
            *transaction_pda,
            *instruction_pda,
            *creator,
            incoming_instruction@,
        ),
{
    let mut data = slice_to_vec(ADD_INSTRUCTION.as_slice());
    let mut incoming = incoming_instruction.serialize();
    data.append(&mut incoming);
    let mut accounts: Vec<AccountMeta> = Vec::new();
    accounts.push(AccountMeta::new_readonly(*multisig, false));
    accounts.push(AccountMeta::new(*transaction_pda, false));
    accounts.push(AccountMeta::new(*instruction_pda, false));
    accounts.push(AccountMeta::new(*creator, true));
    accounts.push(AccountMeta::new_readonly(system_program_for_instructions(), false));
    let r = Instruction { program_id: program_id_for_instructions(), accounts, data };
    assert(r@.accounts =~= spec_add_instruction(
        *multisig,
        *transaction_pda,
        *instruction_pda,
        *creator,
        incoming_instruction@,
    ).accounts);
    r
}

/// Build an activate_transaction instruction
pub fn activate_transaction_instruction(
    multisig: &Pubkey,
    transaction_pda: &Pubkey,
    creator: &Pubkey,
) -> (r: Instruction)
    ensures
        r@ == spec_activate_transaction(*multisig, *transaction_pda, *creator),
{
    let mut accounts: Vec<AccountMeta> = Vec::new();
    accounts.push(AccountMeta::new_readonly(*multisig, false));
    accounts.push(AccountMeta::new(*transaction_pda, false));
    accounts.push(AccountMeta::new(*creator, true));
    let r = Instruction {
        program_id: program_id_for_instructions(),
        accounts,
        data: slice_to_vec(ACTIVATE_TRANSACTION.as_slice()),
    };
    assert(r@.accounts =~= spec_activate_transaction(
        *multisig,
        *transaction_pda,
        *creator,
    ).accounts);
    r
}

/// Build an approve_transaction instruction
pub fn approve_transaction_instruction(
    multisig: &Pubkey,
    transaction_pda: &Pubkey,
    member: &Pubkey,
) -> (r: Instruction)
    ensures
        r@ == spec_approve_transaction(*multisig, *transaction_pda, *member),
{
    let mut accounts: Vec<AccountMeta> = Vec::new();
    accounts.push(AccountMeta::new_readonly(*multisig, false));
    accounts.push(AccountMeta::new(*transaction_pda, false));
    accounts.push(AccountMeta::new(*member, true));
    let r = Instruction {
        program_id: program_id_for_instructions(),
        accounts,
        data: slice_to_vec(APPROVE_TRANSACTION.as_slice()),
    };
    assert(r@.accounts =~= spec_approve_transaction(*multisig, *transaction_pda, *member).accounts);
    r
}

/// Why a proposal could not be built.
#[derive(Clone, Copy, Debug, PartialEq, Eq, Structural)]
pub enum ProposalError {
    /// The account data is not a multisig account.
    Multisig(MultisigError),
    /// The multisig has used up its transaction indices.
    TransactionIndexOverflow,
    /// The proposer is not a member of the multisig.
    NotAMember,
    /// The seeds of an account of the proposal derive no address.
    NoProgramAddress,
}

/// Get the vault pubkey for a multisig (default vault uses
/// authority_index = 1). `account_data` is the data of the account at
/// `multisig_address`, which must be a multisig account.
pub fn get_vault_pubkey(account_data: &[u8], multisig_address: &Pubkey) -> (r: Result<
    Pubkey,
    ProposalError,
>)
    ensures
        match spec_deserialize(account_data@) {
            Err(e) => r == Err::<Pubkey, ProposalError>(ProposalError::Multisig(e)),
            Ok(_) => match program_address(
                vault_pda_seeds(multisig_address@, 1),
                SQUADS_MPL_PROGRAM_ID@,
            ) {
                Some((address, _)) => r is Ok && r->Ok_0@ == address,
                None => r == Err::<Pubkey, ProposalError>(ProposalError::NoProgramAddress),
            },
        },
{
    match MultisigAccount::deserialize(account_data) {
        Ok(_) => {},
        Err(e) => {
            return Err(ProposalError::Multisig(e));
        },
    }
    match try_find_vault_pda(multisig_address, 1) {
        Some((vault_pda, _)) => Ok(vault_pda),
        None => Err(ProposalError::NoProgramAddress),
    }
}

/// Who proposes to which multisig
#[derive(Clone, Copy, Debug, PartialEq, Eq)]
pub struct SquadsProposalConfig {
    /// The address of the multisig.
    pub multisig_address: Pubkey,
    /// The member who creates the proposal and signs its instructions.
    pub proposer: Pubkey,
    /// Who pays for the transactions that carry the instructions.
    pub fee_payer: Pubkey,
}

/// Result of creating a Squads proposal
#[derive(Clone, Debug, PartialEq)]
pub struct SquadsProposalResult {
    /// The address of the new transaction account.
    pub transaction_pda: Pubkey,
    /// The index of the new transaction under the multisig.
    pub transaction_index: u32,
    /// The instructions to submit, in this order.
    pub instructions: Vec<Instruction>,
    /// External signers that must sign the execute_transaction call
    /// These are accounts that need is_signer=true but are not the vault PDA
    pub external_signers: Vec<Pubkey>,
}

/// What the result of creating a proposal holds.
pub ghost struct SquadsProposalResultView {
    pub transaction_pda: Pubkey,
    pub transaction_index: u32,
    pub instructions: Seq<InstructionView>,
    pub external_signers: Seq<Pubkey>,
}

impl View for SquadsProposalResult {
    type V = SquadsProposalResultView;

    open spec fn view(&self) -> SquadsProposalResultView {
        SquadsProposalResultView {
            transaction_pda: self.transaction_pda,
            transaction_index: self.transaction_index,
            instructions: instructions_view(self.instructions@),
            external_signers: self.external_signers@,
        }
    }
}

/// The index under which the instruction at place `i` of a proposal is
/// attached: `i + 1`, of which one byte is kept.
pub open spec fn spec_instruction_index(i: int) -> u8 {
    (i + 1) as u8
}

/// The address of the instruction account at place `i` of a proposal.
pub open spec fn spec_instruction_pda(transaction_pda: Pubkey, i: int) -> Option<(Seq<u8>, u8)> {
    program_address(
        instruction_pda_seeds(transaction_pda@, spec_instruction_index(i)),
        SQUADS_MPL_PROGRAM_ID@,
    )
}

/// The instructions that attach the first `n` of `ixs` to a transaction,
/// or `None` if one of their accounts has no address.
pub open spec fn spec_attached(
    multisig_address: Pubkey,
    transaction_pda: Pubkey,
    proposer: Pubkey,
    ixs: Seq<InstructionView>,
    n: int,
) -> Option<Seq<InstructionView>>
    decreases n,
{
    if n <= 0 {
        Some(Seq::empty())
    } else {
        match (
            spec_attached(multisig_address, transaction_pda, proposer, ixs, n - 1),
            spec_instruction_pda(transaction_pda, n - 1),
        ) {
            (Some(before), Some((address, _))) => Some(
                before.push(
                    spec_add_instruction(
                        multisig_address,
                        transaction_pda,
                        Pubkey::spec_from_bytes(address),
                        proposer,
                        IncomingInstructionView::of(ixs[n - 1]),
                    ),
                ),
            ),
            _ => None,
        }
    }
}

/// Whether `key` is among `keys`.
pub open spec fn spec_is_member(keys: Seq<Pubkey>, key: Pubkey) -> bool {
    exists|i: int| 0 <= i < keys.len() && keys[i]@ == key@
}

/// The proposal of `ixs` to a multisig.
///
/// The transaction takes the index after the multisig's present one. The
/// proposal creates it, attaches the instructions in their order,
/// activates it and, if asked, approves it in the proposer's name.
pub open spec fn spec_proposal(
    config: SquadsProposalConfig,
    multisig: MultisigAccountView,
    ixs: Seq<InstructionView>,
    auto_approve: bool,
    external_signers: Seq<Pubkey>,
) -> Result<SquadsProposalResultView, ProposalError> {
    let index = multisig.transaction_index + 1;
    if index > u32::MAX {
        Err(ProposalError::TransactionIndexOverflow)
    } else {
        match program_address(
            transaction_pda_seeds(config.multisig_address@, index as u32),
            SQUADS_MPL_PROGRAM_ID@,
        ) {
            None => Err(ProposalError::NoProgramAddress),
            Some((address, _)) => {
                let transaction_pda = Pubkey::spec_from_bytes(address);
                if !spec_is_member(multisig.keys, config.proposer) {
                    Err(ProposalError::NotAMember)
                } else {
                    match spec_attached(
                        config.multisig_address,
                        transaction_pda,
                        config.proposer,
                        ixs,
                        ixs.len() as int,
                    ) {
                        None => Err(ProposalError::NoProgramAddress),
                        Some(attached) => Ok(
                            SquadsProposalResultView {
                                transaction_pda,
                                transaction_index: index as u32,
                                instructions: seq![
                                    spec_create_transaction(
                                        config.multisig_address,
                                        transaction_pda,
                                        config.proposer,
                                        multisig.authority_index,
                                    ),
                                ] + attached + seq![
                                    spec_activate_transaction(
                                        config.multisig_address,
                                        transaction_pda,
                                        config.proposer,
                                    ),
                                ] + if auto_approve {
                                    seq![
                                        spec_approve_transaction(
                                            config.multisig_address,
                                            transaction_pda,
                                            config.proposer,
                                        ),
                                    ]
                                } else {
                                    Seq::empty()
                                },
                                external_signers,
                            },
                        ),
                    }
                }
            },
        }
    }
}

/// Build instructions to propose stake pool operation(s) to a Squads multisig
///
/// This creates a new Squads transaction, adds all the provided instructions
/// to it, activates it, and optionally approves it (if the proposer is a
/// member). `multisig` is the present state of the multisig account.
///
/// Returns the instructions to submit and the transaction PDA for tracking.
pub fn build_proposal_instructions(
    config: &SquadsProposalConfig,
    multisig: &MultisigAccount,
    stake_pool_instructions: &[Instruction],
    auto_approve: bool,
) -> (r: Result<SquadsProposalResult, ProposalError>)
    ensures
        match spec_proposal(
            *config,
            multisig@,
            instructions_view(stake_pool_instructions@),
            auto_approve,
            Seq::empty(),
        ) {
            Ok(proposal) => r is Ok && r->Ok_0@ == proposal,
            Err(e) => r == Err::<SquadsProposalResult, ProposalError>(e),
        },
{
    let none: Vec<Pubkey> = Vec::new();
    build_proposal_instructions_with_external_signers(
        config,
        multisig,
        stake_pool_instructions,
        auto_approve,
        none.as_slice(),
    )
}

/// Build instructions to propose stake pool operation(s) to a Squads multisig
/// with support for external signers.
///
/// `external_signers` are pubkeys that must sign the execute_transaction call
/// (in addition to the vault PDA which signs via invoke_signed).
#[verifier::loop_isolation(false)]
pub fn build_proposal_instructions_with_external_signers(
    config: &SquadsProposalConfig,
    multisig: &MultisigAccount,
    stake_pool_instructions: &[Instruction],
    auto_approve: bool,
    external_signers: &[Pubkey],
) -> (r: Result<SquadsProposalResult, ProposalError>)
    ensures
        match spec_proposal(
            *config,
            multisig@,
            instructions_view(stake_pool_instructions@),
            auto_approve,
            external_signers@,
        ) {
            Ok(proposal) => r is Ok && r->Ok_0@ == proposal,
            Err(e) => r == Err::<SquadsProposalResult, ProposalError>(e),
        },
{
    let ghost ixs = instructions_view(stake_pool_instructions@);
    let new_transaction_index = match multisig.transaction_index.checked_add(1) {
        Some(index) => index,
        None => {
            return Err(ProposalError::TransactionIndexOverflow);
        },
    };
    let transaction_pda = match try_find_transaction_pda(
        &config.multisig_address,
        new_transaction_index,
    ) {
        Some((address, _)) => address,
        None => {
            return Err(ProposalError::NoProgramAddress);
        },
    };
    proof {
        Pubkey::lemma_spec_from_bytes(transaction_pda@);
        Pubkey::lemma_eq_by_view(transaction_pda, Pubkey::spec_from_bytes(transaction_pda@));
    }
    let proposer_pubkey = config.proposer;
    if !multisig.is_member(&proposer_pubkey) {
        return Err(ProposalError::NotAMember);
    }
    let mut instructions: Vec<Instruction> = Vec::new();
    let ghost create = spec_create_transaction(
        config.multisig_address,
        transaction_pda,
        proposer_pubkey,
        multisig.authority_index,
    );
    instructions.push(
        create_transaction_instruction(
            &config.multisig_address,
            &transaction_pda,
            &proposer_pubkey,
            multisig.authority_index,
        ),
    );
    assert(instructions_view(instructions@) =~= seq![create] + Seq::empty());
    let mut i: usize = 0;
    while i < stake_pool_instructions.len()
        invariant
            0 <= i <= stake_pool_instructions@.len(),
            ixs == instructions_view(stake_pool_instructions@),
            proposer_pubkey == config.proposer,
            spec_attached(
                config.multisig_address,
                transaction_pda,
                proposer_pubkey,
                ixs,
                i as int,
            ) is Some,
            instructions_view(instructions@) == seq![create] + spec_attached(
                config.multisig_address,
                transaction_pda,
                proposer_pubkey,
                ixs,
                i as int,
            )->0,
        decreases stake_pool_instructions@.len() - i,
    {
        let instruction_index = #[verifier::truncate] ((i + 1) as u8);
        let instruction_pda = match try_find_instruction_pda(&transaction_pda, instruction_index) {
            Some((address, _)) => address,
            None => {
                proof {
                    lemma_attached_fails_later(
                        config.multisig_address,
                        transaction_pda,
                        proposer_pubkey,
                        ixs,
                        i + 1,
                        ixs.len() as int,
                    );
                }
                return Err(ProposalError::NoProgramAddress);
            },
        };
        proof {
            Pubkey::lemma_spec_from_bytes(instruction_pda@);
            Pubkey::lemma_eq_by_view(instruction_pda, Pubkey::spec_from_bytes(instruction_pda@));
        }
        let incoming = IncomingInstruction::from_instruction(&stake_pool_instructions[i]);
        let ghost before = instructions_view(instructions@);
        instructions.push(
            add_instruction_instruction(
                &config.multisig_address,
                &transaction_pda,
                &instruction_pda,
                &proposer_pubkey,
                &incoming,
            ),
        );
        proof {
            let attached = spec_attached(
                config.multisig_address,
                transaction_pda,
                proposer_pubkey,
                ixs,
                i as int,
            )->0;
            let added = spec_add_instruction(
                config.multisig_address,
                transaction_pda,
                instruction_pda,
                proposer_pubkey,
                IncomingInstructionView::of(ixs[i as int]),
            );
            assert(instructions_view(instructions@) =~= before.push(added));
            assert(before.push(added) =~= seq![create] + attached.push(added));
        }
        i += 1;
    }
    let ghost attached = spec_attached(
        config.multisig_address,
        transaction_pda,
        proposer_pubkey,
        ixs,
        ixs.len() as int,
    )->0;
    let ghost activate = spec_activate_transaction(
        config.multisig_address,
        transaction_pda,
        proposer_pubkey,
    );
    instructions.push(
        activate_transaction_instruction(
            &config.multisig_address,
            &transaction_pda,
            &proposer_pubkey,
        ),
    );
    assert(instructions_view(instructions@) =~= seq![create] + attached + seq![activate]);
    if auto_approve {
        let ghost approve = spec_approve_transaction(
            config.multisig_address,
            transaction_pda,
            proposer_pubkey,
        );
        instructions.push(
            approve_transaction_instruction(
                &config.multisig_address,
                &transaction_pda,
                &proposer_pubkey,
            ),
        );
        assert(instructions_view(instructions@) =~= seq![create] + attached + seq![activate]
            + seq![approve]);
    } else {
        assert(instructions_view(instructions@) =~= seq![create] + attached + seq![activate]
            + Seq::empty());
    }
    Ok(
        SquadsProposalResult {
            transaction_pda,
            transaction_index: new_transaction_index,
            instructions,
            external_signers: slice_to_vec(external_signers),
        },
    )
}

/// Once an instruction cannot be attached, no longer list can be.
proof fn lemma_attached_fails_later(
    multisig_address: Pubkey,
    transaction_pda: Pubkey,
    proposer: Pubkey,
    ixs: Seq<InstructionView>,
    k: int,
    n: int,
)
    requires
        1 <= k <= n,
        spec_attached(multisig_address, transaction_pda, proposer, ixs, k) is None,
    ensures
        spec_attached(multisig_address, transaction_pda, proposer, ixs, n) is None,
    decreases n - k,
{
    if k < n {
        lemma_attached_fails_later(multisig_address, transaction_pda, proposer, ixs, k + 1, n);
    }
}

} // verus!
