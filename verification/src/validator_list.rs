//! The validator list: the pool's validators in a fixed order.

use vstd::prelude::*;
use crate::error::StakePoolError;
use crate::pool::AccountType;
use crate::pubkey::Pubkey;
use crate::validator::{PodStakeStatus, StakeStatus, ValidatorStakeInfo};
use crate::{MAX_TRANSIENT_STAKE_ACCOUNTS, MAX_VALIDATORS_IN_POOL};

verus! {

/// Helper type to deserialize just the start of a `ValidatorList`
#[derive(Clone, Copy, Debug, PartialEq, Eq, Structural)]
pub struct ValidatorListHeader {
    /// Account type, must be `ValidatorList` currently
    pub account_type: AccountType,
    /// Maximum allowable number of validators
    pub max_validators: u32,
}

impl Default for ValidatorListHeader {
    fn default() -> (r: ValidatorListHeader)
        ensures
            r == (ValidatorListHeader {
                account_type: AccountType::Uninitialized,
                max_validators: 0,
            }),
    {
        ValidatorListHeader { account_type: AccountType::Uninitialized, max_validators: 0 }
    }
}

impl ValidatorListHeader {
    /// Length of the header in bytes
    pub const LEN: usize = 5;

    /// Check if validator stake list is actually initialized as a validator
    /// stake list
    pub fn is_valid(&self) -> (r: bool)
        ensures
            r == (self.account_type == AccountType::ValidatorList),
    {
        self.account_type == AccountType::ValidatorList
    }

    /// Check if the validator stake list is uninitialized
    pub fn is_uninitialized(&self) -> (r: bool)
        ensures
            r == (self.account_type == AccountType::Uninitialized),
    {
        self.account_type == AccountType::Uninitialized
    }
}

/// What stands at the address derived for a new validator's stake account.
#[derive(Clone, Copy, Debug, PartialEq, Eq)]
pub enum DerivedStakeAccount {
    /// No account yet.
    Vacant,
    /// An account that does not belong to the stake program.
    Foreign,
    /// A stake account, delegated to the vote account `vote`.
    Delegated { vote: Pubkey },
}

/// Storage list for all validator stake accounts in the pool.
#[derive(Clone, Debug, PartialEq)]
pub struct ValidatorList {
    /// Data outside of the validator list, separated out for cheaper
    /// deserialization
    pub header: ValidatorListHeader,
    /// List of stake info for each validator in the pool
    pub validators: Vec<ValidatorStakeInfo>,
}

/// Whether `i` is the first place in `entries` that holds the vote account
/// address `vote`.
pub open spec fn first_match(entries: Seq<ValidatorStakeInfo>, vote: Seq<u8>, i: int) -> bool {
    &&& 0 <= i < entries.len()
    &&& entries[i].vote_account_address@ == vote
    &&& forall|j: int| 0 <= j < i ==> entries[j].vote_account_address@ != vote
}

/// Whether some entry holds the vote account address `vote`.
pub open spec fn holds_vote(entries: Seq<ValidatorStakeInfo>, vote: Seq<u8>) -> bool {
    exists|i: int| 0 <= i < entries.len() && entries[i].vote_account_address@ == vote
}

/// Number of entries that record a transient stake account with lamports.
pub open spec fn live_transients(entries: Seq<ValidatorStakeInfo>) -> nat
    decreases entries.len(),
{
    if entries.len() == 0 {
        0
    } else {
        live_transients(entries.drop_last()) + if entries.last().has_live_transient() {
            1nat
        } else {
            0nat
        }
    }
}

/// The entries that are not marked as ready for removal, in their order.
pub open spec fn without_removed(entries: Seq<ValidatorStakeInfo>) -> Seq<ValidatorStakeInfo>
    decreases entries.len(),
{
    if entries.len() == 0 {
        Seq::empty()
    } else if entries.last().is_ready_for_removal() {
        without_removed(entries.drop_last())
    } else {
        without_removed(entries.drop_last()).push(entries.last())
    }
}

/// The entry that joins the list for a new validator: no lamports yet,
/// status `Active`, last updated in the present epoch.
pub open spec fn spec_new_entry(
    vote_account_address: Pubkey,
    validator_seed_suffix: u32,
    current_epoch: u64,
) -> ValidatorStakeInfo {
    ValidatorStakeInfo {
        active_stake_lamports: 0,
        transient_stake_lamports: 0,
        last_update_epoch: current_epoch,
        transient_seed_suffix: 0,
        unused: 0,
        validator_seed_suffix,
        status: PodStakeStatus(0),
        vote_account_address,
    }
}

/// Whether a validator may join the list.
///
/// The list must have a free slot, must hold fewer validators than a pool
/// can support, and must not hold the vote account yet; the address derived
/// for the validator's stake account must be vacant or hold a stake
/// account delegated to this vote account.
pub open spec fn spec_check_add(
    header: ValidatorListHeader,
    entries: Seq<ValidatorStakeInfo>,
    vote_account_address: Pubkey,
    stake_account: DerivedStakeAccount,
) -> Result<(), StakePoolError> {
    if entries.len() >= header.max_validators || entries.len() >= MAX_VALIDATORS_IN_POOL {
        Err(StakePoolError::TooManyValidators)
    } else if holds_vote(entries, vote_account_address@) {
        Err(StakePoolError::ValidatorAlreadyAdded)
    } else {
        match stake_account {
            DerivedStakeAccount::Vacant => Ok(()),
            DerivedStakeAccount::Foreign => Err(StakePoolError::AlreadyInUse),
            DerivedStakeAccount::Delegated { vote } => if vote@ != vote_account_address@ {
                Err(StakePoolError::InvalidState)
            } else {
                Ok(())
            },
        }
    }
}

/// How many more transient stake accounts may be created.
pub open spec fn spec_transient_budget_free(entries: Seq<ValidatorStakeInfo>) -> nat {
    if live_transients(entries) >= MAX_TRANSIENT_STAKE_ACCOUNTS {
        0
    } else {
        (MAX_TRANSIENT_STAKE_ACCOUNTS - live_transients(entries)) as nat
    }
}

/// No two entries share a vote account address.
pub open spec fn votes_unique(entries: Seq<ValidatorStakeInfo>) -> bool {
    forall|i: int, j: int|
        0 <= i < j < entries.len() ==> entries[i].vote_account_address@
            != entries[j].vote_account_address@
}

/// Every entry that is ready for removal holds no lamports.
pub open spec fn removed_hold_nothing(entries: Seq<ValidatorStakeInfo>) -> bool {
    forall|i: int|
        0 <= i < entries.len() && (#[trigger] entries[i]).is_ready_for_removal()
            ==> entries[i].active_stake_lamports == 0 && entries[i].transient_stake_lamports == 0
}

/// Adding an entry at the end adds it to the count if it has a live
/// transient.
pub proof fn lemma_live_transients_push(entries: Seq<ValidatorStakeInfo>, e: ValidatorStakeInfo)
    ensures
        live_transients(entries.push(e)) == live_transients(entries) + if e.has_live_transient() {
            1nat
        } else {
            0nat
        },
{
    assert(entries.push(e).drop_last() =~= entries);
}

/// The count of live transients is at most the number of entries.
pub proof fn lemma_live_transients_bound(entries: Seq<ValidatorStakeInfo>)
    ensures
        live_transients(entries) <= entries.len(),
    decreases entries.len(),
{
    if entries.len() > 0 {
        lemma_live_transients_bound(entries.drop_last());
    }
}

/// Replacing one entry changes the count by that entry's share.
pub proof fn lemma_live_transients_update(
    entries: Seq<ValidatorStakeInfo>,
    i: int,
    e: ValidatorStakeInfo,
)
    requires
        0 <= i < entries.len(),
    ensures
        live_transients(entries.update(i, e)) + (if entries[i].has_live_transient() {
            1nat
        } else {
            0nat
        }) == live_transients(entries) + (if e.has_live_transient() {
            1nat
        } else {
            0nat
        }),
    decreases entries.len(),
{
    let updated = entries.update(i, e);
    if i == entries.len() - 1 {
        assert(updated.drop_last() =~= entries.drop_last());
    } else {
        assert(updated.drop_last() =~= entries.drop_last().update(i, e));
        lemma_live_transients_update(entries.drop_last(), i, e);
    }
}

/// Taking one entry out lowers the count by that entry's share.
pub proof fn lemma_live_transients_remove(entries: Seq<ValidatorStakeInfo>, i: int)
    requires
        0 <= i < entries.len(),
    ensures
        live_transients(entries.remove(i)) + (if entries[i].has_live_transient() {
            1nat
        } else {
            0nat
        }) == live_transients(entries),
    decreases entries.len(),
{
    if i == entries.len() - 1 {
        assert(entries.remove(i) =~= entries.drop_last());
    } else {
        assert(entries.remove(i).drop_last() =~= entries.drop_last().remove(i));
        assert(entries.remove(i).last() == entries.last());
        lemma_live_transients_remove(entries.drop_last(), i);
    }
}

/// Every entry that the sweep keeps was in the list, the sweep keeps none
/// that is ready for removal, and it keeps no more live transients than
/// there were.
pub proof fn lemma_without_removed(entries: Seq<ValidatorStakeInfo>)
    ensures
        without_removed(entries).len() <= entries.len(),
        forall|k: int|
            0 <= k < without_removed(entries).len() ==> !(#[trigger] without_removed(
                entries,
            )[k]).is_ready_for_removal(),
        forall|k: int|
            0 <= k < without_removed(entries).len() ==> exists|j: int|
                0 <= j < entries.len() && entries[j] == #[trigger] without_removed(entries)[k],
        live_transients(without_removed(entries)) <= live_transients(entries),
        votes_unique(entries) ==> votes_unique(without_removed(entries)),
    decreases entries.len(),
{
    if entries.len() > 0 {
        let before = entries.drop_last();
        let kept = without_removed(before);
        lemma_without_removed(before);
        let result = without_removed(entries);
        assert forall|k: int| 0 <= k < result.len() implies exists|j: int|
            0 <= j < entries.len() && entries[j] == #[trigger] result[k] by {
            if k < kept.len() {
                let j = choose|j: int| 0 <= j < before.len() && before[j] == kept[k];
                assert(entries[j] == result[k]);
            } else {
                assert(entries[entries.len() - 1] == result[k]);
            }
        }
        if !entries.last().is_ready_for_removal() {
            lemma_live_transients_push(kept, entries.last());
        }
        if votes_unique(entries) {
            assert(votes_unique(before)) by {
                assert forall|i: int, j: int| 0 <= i < j < before.len() implies before[i].vote_account_address@
                    != before[j].vote_account_address@ by {
                    assert(before[i] == entries[i] && before[j] == entries[j]);
                }
            }
            assert forall|i: int, j: int| 0 <= i < j < result.len() implies result[i].vote_account_address@
                != result[j].vote_account_address@ by {
                if j == kept.len() {
                    let src = choose|src: int| 0 <= src < before.len() && before[src] == kept[i];
                    assert(entries[src] == result[i]);
                    assert(entries[entries.len() - 1] == result[j]);
                }
            }
        }
    }
}

/// A list without entries that are ready for removal is left as it is.
pub proof fn lemma_without_removed_fixpoint(entries: Seq<ValidatorStakeInfo>)
    requires
        forall|k: int| 0 <= k < entries.len() ==> !(#[trigger] entries[k]).is_ready_for_removal(),
    ensures
        without_removed(entries) == entries,
    decreases entries.len(),
{
    if entries.len() > 0 {
        let before = entries.drop_last();
        assert forall|k: int| 0 <= k < before.len() implies !(#[trigger] before[k]).is_ready_for_removal() by {
            assert(before[k] == entries[k]);
        }
        lemma_without_removed_fixpoint(before);
        assert(before.push(entries.last()) =~= entries);
    } else {
        assert(entries =~= Seq::empty());
    }
}

impl ValidatorList {
    /// The invariant of a validator list in use: it is marked as a validator
    /// list, holds no more entries than its capacity and than a pool can
    /// support, no vote account twice, no lamports in an entry that is
    /// ready for removal, and no more live transient stake accounts than
    /// the budget allows.
    pub open spec fn is_well_formed(&self) -> bool {
        &&& self.header.account_type == AccountType::ValidatorList
        &&& self.validators@.len() <= self.header.max_validators
        &&& self.validators@.len() <= MAX_VALIDATORS_IN_POOL
        &&& votes_unique(self.validators@)
        &&& removed_hold_nothing(self.validators@)
        &&& live_transients(self.validators@) <= MAX_TRANSIENT_STAKE_ACCOUNTS
    }

    /// Create an empty list with room for `max_validators` entries: the
    /// list of a pool that was just initialized.
    pub fn new_empty(max_validators: u32) -> (r: ValidatorList)
        ensures
            r.header == (ValidatorListHeader {
                account_type: AccountType::ValidatorList,
                max_validators,
            }),
            r.validators@.len() == 0,
            r.is_well_formed(),
    {
        ValidatorList {
            header: ValidatorListHeader { account_type: AccountType::ValidatorList, max_validators },
            validators: Vec::new(),
        }
    }

    /// Create an instance with `max_validators` zeroed entries: the shape of
    /// a list account of that capacity when every slot is taken.
    pub fn new(max_validators: u32) -> (r: ValidatorList)
        ensures
            r.header == (ValidatorListHeader {
                account_type: AccountType::ValidatorList,
                max_validators,
            }),
            r.validators@.len() == max_validators,
            forall|i: int| 0 <= i < max_validators ==> (#[trigger] r.validators@[i]).is_zeroed(),
    {
        let mut validators: Vec<ValidatorStakeInfo> = Vec::new();
        let mut i: u32 = 0;
        while i < max_validators
            invariant
                0 <= i <= max_validators,
                validators@.len() == i,
                forall|j: int| 0 <= j < i ==> (#[trigger] validators@[j]).is_zeroed(),
            decreases max_validators - i,
        {
            validators.push(ValidatorStakeInfo::default());
            i += 1;
        }
        ValidatorList {
            header: ValidatorListHeader { account_type: AccountType::ValidatorList, max_validators },
            validators,
        }
    }

    /// Calculate the number of validator entries that fit in the provided
    /// length: what is left after the header and the entry count, in whole
    /// entries.
    pub fn calculate_max_validators(buffer_length: usize) -> (r: usize)
        ensures
            buffer_length < 9 ==> r == 0,
            buffer_length >= 9 ==> r == (buffer_length - 9) / 73,
    {
        if buffer_length < 9 {
            0
        } else {
            (buffer_length - 9) / 73
        }
    }

    /// Check if contains validator with particular pubkey
    pub fn contains(&self, vote_account_address: &Pubkey) -> (r: bool)
        ensures
            r == holds_vote(self.validators@, vote_account_address@),
    {
        let mut i: usize = 0;
        while i < self.validators.len()
            invariant
                0 <= i <= self.validators@.len(),
                forall|j: int|
                    0 <= j < i ==> self.validators@[j].vote_account_address@
                        != vote_account_address@,
            decreases self.validators@.len() - i,
        {
            if self.validators[i].vote_account_address == *vote_account_address {
                return true;
            }
            i += 1;
        }
        false
    }

    /// The place of the first entry with this vote account address.
    pub fn position(&self, vote_account_address: &Pubkey) -> (r: Option<usize>)
        ensures
            match r {
                Some(i) => first_match(self.validators@, vote_account_address@, i as int),
                None => !holds_vote(self.validators@, vote_account_address@),
            },
    {
        let mut i: usize = 0;
        while i < self.validators.len()
            invariant
                0 <= i <= self.validators@.len(),
                forall|j: int|
                    0 <= j < i ==> self.validators@[j].vote_account_address@
                        != vote_account_address@,
            decreases self.validators@.len() - i,
        {
            if self.validators[i].vote_account_address == *vote_account_address {
                return Some(i);
            }
            i += 1;
        }
        None
    }

    /// Find a validator by vote account address (mutable): the first entry
    /// with this address. What the caller writes through the reference
    /// replaces that entry and nothing else.
    pub fn find_mut<'a>(&'a mut self, vote_account_address: &Pubkey) -> (r: Option<
        &'a mut ValidatorStakeInfo,
    >)
        ensures
            final(self).header == old(self).header,
            match r {
                Some(entry) => exists|i: int|
                    {
                        &&& first_match(old(self).validators@, vote_account_address@, i)
                        &&& *entry == old(self).validators@[i]
                        &&& final(self).validators@ == old(self).validators@.update(
                            i,
                            *final(entry),
                        )
                    },
                None => {
                    &&& !holds_vote(old(self).validators@, vote_account_address@)
                    &&& final(self).validators@ == old(self).validators@
                },
            },
    {
        match self.position(vote_account_address) {
            Some(i) => Some(&mut self.validators[i]),
            None => None,
        }
    }

    /// Find a validator by vote account address: the first entry with this
    /// address.
    pub fn find(&self, vote_account_address: &Pubkey) -> (r: Option<&ValidatorStakeInfo>)
        ensures
            match r {
                Some(entry) => exists|i: int|
                    first_match(self.validators@, vote_account_address@, i) && *entry
                        == self.validators@[i],
                None => !holds_vote(self.validators@, vote_account_address@),
            },
    {
        match self.position(vote_account_address) {
            Some(i) => Some(&self.validators[i]),
            None => None,
        }
    }

    /// Check if the list has any active stake
    pub fn has_active_stake(&self) -> (r: bool)
        ensures
            r == exists|i: int|
                0 <= i < self.validators@.len() && self.validators@[i].active_stake_lamports > 0,
    {
        let mut i: usize = 0;
        while i < self.validators.len()
            invariant
                0 <= i <= self.validators@.len(),
                forall|j: int| 0 <= j < i ==> self.validators@[j].active_stake_lamports == 0,
            decreases self.validators@.len() - i,
        {
            if self.validators[i].active_stake_lamports > 0 {
                return true;
            }
            i += 1;
        }
        false
    }

    /// Appends an entry for a new validator: status `Active`, no lamports,
    /// last updated in `current_epoch`. `stake_account` says what stands
    /// at the address derived for the validator's stake account.
    ///
    /// Refused with `TooManyValidators` when every slot is taken or the
    /// list holds `MAX_VALIDATORS_IN_POOL` validators, else with
    /// `ValidatorAlreadyAdded` when the vote account is already listed,
    /// else with `AlreadyInUse` when the derived address holds an account
    /// of another program, else with `InvalidState` when it holds a stake
    /// account delegated to another vote account.
    pub fn add(
        &mut self,
        vote_account_address: Pubkey,
        validator_seed_suffix: u32,
        current_epoch: u64,
        stake_account: &DerivedStakeAccount,
    ) -> (r: Result<(), StakePoolError>)
        ensures
            final(self).header == old(self).header,
            r == spec_check_add(old(self).header, old(self).validators@, vote_account_address, *stake_account),
            r is Ok ==> final(self).validators@ == old(self).validators@.push(
                spec_new_entry(vote_account_address, validator_seed_suffix, current_epoch),
            ),
            r is Err ==> final(self).validators@ == old(self).validators@,
            old(self).is_well_formed() ==> final(self).is_well_formed(),
    {
        if self.validators.len() >= self.header.max_validators as usize || self.validators.len()
            >= MAX_VALIDATORS_IN_POOL as usize {
            return Err(StakePoolError::TooManyValidators);
        }
        if self.contains(&vote_account_address) {
            return Err(StakePoolError::ValidatorAlreadyAdded);
        }
        match stake_account {
            DerivedStakeAccount::Vacant => {},
            DerivedStakeAccount::Foreign => {
                return Err(StakePoolError::AlreadyInUse);
            },
            DerivedStakeAccount::Delegated { vote } => {
                if *vote != vote_account_address {
                    return Err(StakePoolError::InvalidState);
                }
            },
        }
        let entry = ValidatorStakeInfo {
            active_stake_lamports: 0,
            transient_stake_lamports: 0,
            last_update_epoch: current_epoch,
            transient_seed_suffix: 0,
            unused: 0,
            validator_seed_suffix,
            status: PodStakeStatus(0),
            vote_account_address,
        };
        self.validators.push(entry);
        proof {
            lemma_live_transients_push(old(self).validators@, entry);
        }
        Ok(())
    }

    /// Takes the entry of a validator out of the list; the others keep
    /// their order. Refused with `ValidatorNotFound` when the vote account
    /// is not listed, and with `InvalidState` unless the entry is ready for
    /// removal.
    pub fn remove(&mut self, vote_account_address: &Pubkey) -> (r: Result<(), StakePoolError>)
        ensures
            final(self).header == old(self).header,
            !holds_vote(old(self).validators@, vote_account_address@) ==> r == Err::<
                (),
                StakePoolError,
            >(StakePoolError::ValidatorNotFound),
            forall|i: int|
                first_match(old(self).validators@, vote_account_address@, i) ==> if old(
                    self,
                ).validators@[i].is_ready_for_removal() {
                    r == Ok::<(), StakePoolError>(()) && final(self).validators@ == old(
                        self,
                    ).validators@.remove(i)
                } else {
                    r == Err::<(), StakePoolError>(StakePoolError::InvalidState)
                },
            r is Err ==> final(self).validators@ == old(self).validators@,
            old(self).is_well_formed() ==> final(self).is_well_formed(),
    {
        let at = match self.position(vote_account_address) {
            Some(i) => i,
            None => {
                return Err(StakePoolError::ValidatorNotFound);
            },
        };
        proof {
            assert forall|i: int|
                first_match(old(self).validators@, vote_account_address@, i) implies i == at by {
                if i < at {
                } else if i > at {
                }
            }
        }
        match StakeStatus::from_u8(self.validators[at].status.0) {
            Some(StakeStatus::ReadyForRemoval) => {},
            _ => {
                return Err(StakePoolError::InvalidState);
            },
        }
        let _ = self.validators.remove(at);
        proof {
            lemma_live_transients_remove(old(self).validators@, at as int);
        }
        Ok(())
    }

    /// How many more transient stake accounts may be created before the
    /// list holds `MAX_TRANSIENT_STAKE_ACCOUNTS` of them.
    pub fn transient_budget_free(&self) -> (r: usize)
        ensures
            r == spec_transient_budget_free(self.validators@),
    {
        let mut live: usize = 0;
        let mut i: usize = 0;
        while i < self.validators.len()
            invariant
                0 <= i <= self.validators@.len(),
                live == live_transients(self.validators@.take(i as int)),
                live <= i,
            decreases self.validators@.len() - i,
        {
            proof {
                assert(self.validators@.take(i + 1).drop_last() =~= self.validators@.take(
                    i as int,
                ));
            }
            if self.validators[i].transient_stake_lamports > 0 {
                live += 1;
            }
            i += 1;
        }
        proof {
            assert(self.validators@.take(i as int) =~= self.validators@);
        }
        if live >= MAX_TRANSIENT_STAKE_ACCOUNTS {
            0
        } else {
            MAX_TRANSIENT_STAKE_ACCOUNTS - live
        }
    }

    /// Deletes every entry that is ready for removal; the others keep their
    /// order.
    pub fn cleanup_removed_validator_entries(&mut self)
        ensures
            final(self).header == old(self).header,
            final(self).validators@ == without_removed(old(self).validators@),
            old(self).is_well_formed() ==> final(self).is_well_formed(),
    {
        let mut kept: Vec<ValidatorStakeInfo> = Vec::new();
        let mut i: usize = 0;
        while i < self.validators.len()
            invariant
                0 <= i <= self.validators@.len(),
                kept@ == without_removed(self.validators@.take(i as int)),
            decreases self.validators@.len() - i,
        {
            proof {
                assert(self.validators@.take(i + 1).drop_last() =~= self.validators@.take(
                    i as int,
                ));
            }
            let entry = self.validators[i];
            match StakeStatus::from_u8(entry.status.0) {
                Some(StakeStatus::ReadyForRemoval) => {},
                _ => {
                    kept.push(entry);
                },
            }
            i += 1;
        }
        proof {
            assert(self.validators@.take(i as int) =~= self.validators@);
            lemma_without_removed(self.validators@);
        }
        self.validators = kept;
    }
}

} // verus!
