//! The list pass: bringing validator entries up to date with their stake
//! accounts.
//!
//! Once per epoch each entry is compared with what its validator stake
//! account and its transient stake account hold. The pass decides which
//! accounts to merge or withdraw, and records what is left. Looking at
//! the accounts and carrying out the merges is the caller's part.

use vstd::prelude::*;
use crate::error::StakePoolError;
use crate::validator::{PodStakeStatus, StakeStatus, ValidatorStakeInfo};
use crate::validator_list::{
    lemma_live_transients_update, live_transients, removed_hold_nothing, votes_unique,
    ValidatorList,
};
use crate::MAX_VALIDATORS_TO_UPDATE;

verus! {

/// How far the delegation of a stake account has come.
#[derive(Clone, Copy, Debug, PartialEq, Eq, Structural)]
pub enum StakePhase {
    /// The stake was delegated and is not yet effective.
    Activating,
    /// The stake is effective.
    Active,
    /// The stake was deactivated and is still cooling down.
    Deactivating,
    /// The stake has reached its inactive epoch, or was never delegated.
    Inactive,
}

/// What a stake account holds, as the caller found it.
#[derive(Clone, Copy, Debug, PartialEq, Eq, Structural)]
pub struct StakeAccount {
    /// The lamports in the account.
    pub lamports: u64,
    /// The phase of its delegation.
    pub phase: StakePhase,
}

/// The two stake accounts of a validator, each if it exists.
#[derive(Clone, Copy, Debug, PartialEq, Eq, Structural)]
pub struct ValidatorAccounts {
    /// The validator stake account.
    pub validator_stake: Option<StakeAccount>,
    /// The transient stake account.
    pub transient_stake: Option<StakeAccount>,
}

/// What the pass does with a transient stake account.
#[derive(Clone, Copy, Debug, PartialEq, Eq, Structural)]
pub enum TransientAction {
    /// Leave it.
    Keep,
    /// Merge it into the validator stake account.
    MergeIntoValidator,
    /// Merge it into the reserve.
    MergeIntoReserve,
}

/// What the pass does with a validator stake account.
#[derive(Clone, Copy, Debug, PartialEq, Eq, Structural)]
pub enum ValidatorAction {
    /// Leave it.
    Keep,
    /// Withdraw all of it into the reserve.
    WithdrawIntoReserve,
}

/// What the pass does with the accounts of one validator.
#[derive(Clone, Copy, Debug, PartialEq, Eq, Structural)]
pub struct ListPassActions {
    /// What to do with the transient stake account.
    pub transient: TransientAction,
    /// What to do with the validator stake account.
    pub validator: ValidatorAction,
}

/// Whether an account is absent or has reached its inactive epoch.
pub open spec fn is_done(account: Option<StakeAccount>) -> bool {
    match account {
        Some(a) => a.phase == StakePhase::Inactive,
        None => true,
    }
}

/// Whether an account exists and its stake is effective.
pub open spec fn is_effective(account: Option<StakeAccount>) -> bool {
    match account {
        Some(a) => a.phase == StakePhase::Active,
        None => false,
    }
}

/// The lamports of an account, none if it is absent.
pub open spec fn lamports_of(account: Option<StakeAccount>) -> u64 {
    match account {
        Some(a) => a.lamports,
        None => 0,
    }
}

/// Whether a status says that the validator is being removed.
pub open spec fn is_leaving(status: StakeStatus) -> bool {
    status == StakeStatus::DeactivatingValidator || status == StakeStatus::DeactivatingAll
}

/// What the pass does with a transient stake account: one that has reached
/// its inactive epoch goes to the reserve; one whose stake is effective
/// joins the validator stake account, if that is effective too and the
/// validator is not being removed; any other stays.
pub open spec fn spec_transient_action(status: StakeStatus, accounts: ValidatorAccounts)
    -> TransientAction {
    match accounts.transient_stake {
        None => TransientAction::Keep,
        Some(t) => if t.phase == StakePhase::Inactive {
            TransientAction::MergeIntoReserve
        } else if t.phase == StakePhase::Active && is_effective(accounts.validator_stake)
            && !is_leaving(status) {
            TransientAction::MergeIntoValidator
        } else {
            TransientAction::Keep
        },
    }
}

/// What the pass does with a validator stake account: that of a validator
/// being removed is withdrawn once it has reached its inactive epoch and no
/// transient stake is left to wait for.
pub open spec fn spec_validator_action(status: StakeStatus, accounts: ValidatorAccounts)
    -> ValidatorAction {
    if is_leaving(status) && accounts.validator_stake is Some && is_done(accounts.validator_stake)
        && is_done(accounts.transient_stake) {
        ValidatorAction::WithdrawIntoReserve
    } else {
        ValidatorAction::Keep
    }
}

/// The status of an entry after the pass, given what is left of its stake.
pub open spec fn spec_status_after(status: StakeStatus, active: u64, transient: u64) -> StakeStatus {
    match status {
        StakeStatus::Active => StakeStatus::Active,
        StakeStatus::DeactivatingTransient => if transient == 0 {
            StakeStatus::Active
        } else {
            StakeStatus::DeactivatingTransient
        },
        StakeStatus::DeactivatingValidator => if active == 0 && transient == 0 {
            StakeStatus::ReadyForRemoval
        } else {
            StakeStatus::DeactivatingValidator
        },
        StakeStatus::DeactivatingAll => if active == 0 && transient == 0 {
            StakeStatus::ReadyForRemoval
        } else if transient == 0 {
            StakeStatus::DeactivatingValidator
        } else {
            StakeStatus::DeactivatingAll
        },
        StakeStatus::ReadyForRemoval => StakeStatus::ReadyForRemoval,
    }
}

/// The pass over one entry in epoch `current_epoch`.
///
/// An entry that was updated in this epoch is left as it is, and so is the
/// stake of one that is ready for removal. For any other the pass decides
/// what to merge and withdraw, records the lamports that the accounts hold
/// after that, and moves the status on. It refuses, with `InvalidState`, an
/// entry whose status byte stands for no status, and accounts that show a
/// transient stake where the entry records none.
pub open spec fn spec_update_entry(
    entry: ValidatorStakeInfo,
    accounts: ValidatorAccounts,
    current_epoch: u64,
) -> Result<(ValidatorStakeInfo, ListPassActions), StakePoolError> {
    let nothing = ListPassActions {
        transient: TransientAction::Keep,
        validator: ValidatorAction::Keep,
    };
    match entry.spec_status() {
        None => Err(StakePoolError::InvalidState),
        Some(status) => if entry.last_update_epoch == current_epoch {
            Ok((entry, nothing))
        } else if status == StakeStatus::ReadyForRemoval {
            Ok((ValidatorStakeInfo { last_update_epoch: current_epoch, ..entry }, nothing))
        } else if accounts.transient_stake is Some && !entry.has_live_transient() {
            Err(StakePoolError::InvalidState)
        } else {
            let actions = ListPassActions {
                transient: spec_transient_action(status, accounts),
                validator: spec_validator_action(status, accounts),
            };
            let transient = if actions.transient == TransientAction::Keep {
                lamports_of(accounts.transient_stake)
            } else {
                0u64
            };
            let merged = if actions.transient == TransientAction::MergeIntoValidator {
                lamports_of(accounts.transient_stake)
            } else {
                0u64
            };
            let active = if actions.validator == ValidatorAction::WithdrawIntoReserve {
                0
            } else {
                lamports_of(accounts.validator_stake) + merged
            };
            if active > u64::MAX {
                Err(StakePoolError::CalculationFailure)
            } else {
                Ok(
                    (
                        ValidatorStakeInfo {
                            active_stake_lamports: active as u64,
                            transient_stake_lamports: transient,
                            last_update_epoch: current_epoch,
                            status: PodStakeStatus(
                                spec_status_after(status, active as u64, transient).spec_to_u8(),
                            ),
                            ..entry
                        },
                        actions,
                    ),
                )
            }
        },
    }
}

/// The pass over one entry.
pub fn update_entry(entry: &ValidatorStakeInfo, accounts: &ValidatorAccounts, current_epoch: u64)
    -> (r: Result<(ValidatorStakeInfo, ListPassActions), StakePoolError>)
    ensures
        r == spec_update_entry(*entry, *accounts, current_epoch),
{
    let nothing = ListPassActions {
        transient: TransientAction::Keep,
        validator: ValidatorAction::Keep,
    };
    let status = match StakeStatus::from_u8(entry.status.0) {
        Some(s) => s,
        None => {
            return Err(StakePoolError::InvalidState);
        },
    };
    if entry.last_update_epoch == current_epoch {
        return Ok((*entry, nothing));
    }
    if status == StakeStatus::ReadyForRemoval {
        let mut updated = *entry;
        updated.last_update_epoch = current_epoch;
        return Ok((updated, nothing));
    }
    if accounts.transient_stake.is_some() && entry.transient_stake_lamports == 0 {
        return Err(StakePoolError::InvalidState);
    }
    let leaving = status == StakeStatus::DeactivatingValidator || status
        == StakeStatus::DeactivatingAll;
    let validator_effective = match accounts.validator_stake {
        Some(v) => v.phase == StakePhase::Active,
        None => false,
    };
    let validator_done = match accounts.validator_stake {
        Some(v) => v.phase == StakePhase::Inactive,
        None => true,
    };
    let transient_done = match accounts.transient_stake {
        Some(t) => t.phase == StakePhase::Inactive,
        None => true,
    };
    let transient_action = match accounts.transient_stake {
        None => TransientAction::Keep,
        Some(t) => {
            if t.phase == StakePhase::Inactive {
                TransientAction::MergeIntoReserve
            } else if t.phase == StakePhase::Active && validator_effective && !leaving {
                TransientAction::MergeIntoValidator
            } else {
                TransientAction::Keep
            }
        },
    };
    let validator_action = if leaving && accounts.validator_stake.is_some() && validator_done
        && transient_done {
        ValidatorAction::WithdrawIntoReserve
    } else {
        ValidatorAction::Keep
    };
    let transient_lamports = match accounts.transient_stake {
        Some(t) => t.lamports,
        None => 0,
    };
    let validator_lamports = match accounts.validator_stake {
        Some(v) => v.lamports,
        None => 0,
    };
    let transient = if transient_action == TransientAction::Keep {
        transient_lamports
    } else {
        0
    };
    let merged = if transient_action == TransientAction::MergeIntoValidator {
        transient_lamports
    } else {
        0
    };
    let active = if validator_action == ValidatorAction::WithdrawIntoReserve {
        0
    } else {
        match validator_lamports.checked_add(merged) {
            Some(v) => v,
            None => {
                return Err(StakePoolError::CalculationFailure);
            },
        }
    };
    let status_after = match status {
        StakeStatus::Active => StakeStatus::Active,
        StakeStatus::DeactivatingTransient => if transient == 0 {
            StakeStatus::Active
        } else {
            StakeStatus::DeactivatingTransient
        },
        StakeStatus::DeactivatingValidator => if active == 0 && transient == 0 {
            StakeStatus::ReadyForRemoval
        } else {
            StakeStatus::DeactivatingValidator
        },
        StakeStatus::DeactivatingAll => if active == 0 && transient == 0 {
            StakeStatus::ReadyForRemoval
        } else if transient == 0 {
            StakeStatus::DeactivatingValidator
        } else {
            StakeStatus::DeactivatingAll
        },
        StakeStatus::ReadyForRemoval => StakeStatus::ReadyForRemoval,
    };
    let mut updated = *entry;
    updated.active_stake_lamports = active;
    updated.transient_stake_lamports = transient;
    updated.last_update_epoch = current_epoch;
    updated.status = PodStakeStatus(status_after.to_u8());
    Ok((updated, ListPassActions { transient: transient_action, validator: validator_action }))
}

/// What the pass keeps of an entry: its vote account; that a removed entry
/// holds nothing; that no transient stake appears where none was.
pub proof fn lemma_update_entry_keeps(
    entry: ValidatorStakeInfo,
    accounts: ValidatorAccounts,
    current_epoch: u64,
)
    requires
        entry.is_ready_for_removal() ==> entry.active_stake_lamports == 0
            && entry.transient_stake_lamports == 0,
    ensures
        spec_update_entry(entry, accounts, current_epoch) matches Ok((updated, _)) ==> {
            &&& updated.vote_account_address == entry.vote_account_address
            &&& updated.validator_seed_suffix == entry.validator_seed_suffix
            &&& updated.transient_seed_suffix == entry.transient_seed_suffix
            &&& updated.spec_status() is Some
            &&& updated.is_ready_for_removal() ==> updated.active_stake_lamports == 0
                && updated.transient_stake_lamports == 0
            &&& updated.has_live_transient() ==> entry.has_live_transient()
        },
{
    if let Some(status) = entry.spec_status() {
        StakeStatus::lemma_byte_roundtrip(status, entry.status.0);
        if let Ok((updated, _)) = spec_update_entry(entry, accounts, current_epoch) {
            if entry.last_update_epoch != current_epoch && status != StakeStatus::ReadyForRemoval {
                let after = spec_status_after(
                    status,
                    updated.active_stake_lamports,
                    updated.transient_stake_lamports,
                );
                StakeStatus::lemma_byte_roundtrip(after, 0);
            }
        }
    }
}

/// A second pass over an entry in the same epoch changes nothing and asks
/// for nothing, whatever the accounts then hold.
pub proof fn lemma_update_entry_idempotent(
    entry: ValidatorStakeInfo,
    accounts: ValidatorAccounts,
    later_accounts: ValidatorAccounts,
    current_epoch: u64,
)
    ensures
        spec_update_entry(entry, accounts, current_epoch) matches Ok((updated, _))
            ==> spec_update_entry(updated, later_accounts, current_epoch) == Ok::<
            (ValidatorStakeInfo, ListPassActions),
            StakePoolError,
        >(
            (
                updated,
                ListPassActions {
                    transient: TransientAction::Keep,
                    validator: ValidatorAction::Keep,
                },
            ),
        ),
{
    lemma_update_entry_keeps_status(entry, accounts, current_epoch);
}

/// An entry that the pass has updated carries a status and the epoch of
/// the pass.
pub proof fn lemma_update_entry_keeps_status(
    entry: ValidatorStakeInfo,
    accounts: ValidatorAccounts,
    current_epoch: u64,
)
    ensures
        spec_update_entry(entry, accounts, current_epoch) matches Ok((updated, _)) ==> {
            &&& updated.spec_status() is Some
            &&& updated.last_update_epoch == current_epoch
        },
{
    if let Some(status) = entry.spec_status() {
        if let Ok((updated, _)) = spec_update_entry(entry, accounts, current_epoch) {
            if entry.last_update_epoch != current_epoch && status != StakeStatus::ReadyForRemoval {
                let after = spec_status_after(
                    status,
                    updated.active_stake_lamports,
                    updated.transient_stake_lamports,
                );
                StakeStatus::lemma_byte_roundtrip(after, 0);
            }
        }
    }
}

/// How many entries one pass covers: as many as it is given accounts for,
/// but no more than `MAX_VALIDATORS_TO_UPDATE`, and none beyond the end of
/// the list.
pub open spec fn spec_pass_count(len: nat, start_index: u32, supplied: nat) -> nat {
    let left: nat = if start_index <= len {
        (len - start_index) as nat
    } else {
        0
    };
    let bounded: nat = if supplied <= MAX_VALIDATORS_TO_UPDATE {
        supplied
    } else {
        MAX_VALIDATORS_TO_UPDATE as nat
    };
    if bounded <= left {
        bounded
    } else {
        left
    }
}

/// The pass over the `n` entries from `start` on, in ascending order, the
/// `k`-th of them with the `k`-th of `accounts`. The first entry that is
/// refused fails the pass.
pub open spec fn spec_update_entries(
    entries: Seq<ValidatorStakeInfo>,
    start: int,
    accounts: Seq<ValidatorAccounts>,
    n: nat,
    current_epoch: u64,
) -> Result<(Seq<ValidatorStakeInfo>, Seq<ListPassActions>), StakePoolError>
    decreases n,
{
    if n == 0 {
        Ok((entries, Seq::empty()))
    } else {
        match spec_update_entries(entries, start, accounts, (n - 1) as nat, current_epoch) {
            Err(e) => Err(e),
            Ok((done, actions)) => match spec_update_entry(
                done[start + n - 1],
                accounts[n - 1],
                current_epoch,
            ) {
                Err(e) => Err(e),
                Ok((updated, action)) => Ok(
                    (done.update(start + n - 1, updated), actions.push(action)),
                ),
            },
        }
    }
}

/// What a pass keeps of a list: its length, the vote account of every
/// entry, every entry that it does not cover, that a removed entry holds
/// nothing, and the bound on live transient stake accounts.
pub proof fn lemma_update_entries_keep(
    entries: Seq<ValidatorStakeInfo>,
    start: int,
    accounts: Seq<ValidatorAccounts>,
    n: nat,
    current_epoch: u64,
)
    requires
        0 <= start,
        n == 0 || start + n <= entries.len(),
        n <= accounts.len(),
        removed_hold_nothing(entries),
    ensures
        spec_update_entries(entries, start, accounts, n, current_epoch) matches Ok(
            (out, actions),
        ) ==> {
            &&& out.len() == entries.len()
            &&& actions.len() == n
            &&& forall|i: int|
                0 <= i < out.len() ==> (#[trigger] out[i]).vote_account_address
                    == entries[i].vote_account_address
            &&& forall|i: int|
                0 <= i < out.len() && !(start <= i < start + n) ==> #[trigger] out[i] == entries[i]
            &&& forall|i: int|
                start <= i < start + n ==> (#[trigger] out[i]).last_update_epoch == current_epoch
                    && out[i].spec_status() is Some
            &&& removed_hold_nothing(out)
            &&& live_transients(out) <= live_transients(entries)
            &&& votes_unique(entries) ==> votes_unique(out)
        },
    decreases n,
{
    if n > 0 {
        lemma_update_entries_keep(entries, start, accounts, (n - 1) as nat, current_epoch);
        if let Ok((done, _)) = spec_update_entries(
            entries,
            start,
            accounts,
            (n - 1) as nat,
            current_epoch,
        ) {
            let at = start + n - 1;
            assert(done[at] == entries[at]);
            lemma_update_entry_keeps(done[at], accounts[n - 1], current_epoch);
            lemma_update_entry_keeps_status(done[at], accounts[n - 1], current_epoch);
            if let Ok((updated, _)) = spec_update_entry(done[at], accounts[n - 1], current_epoch) {
                lemma_live_transients_update(done, at, updated);
            }
        }
    }
}

/// A second pass over the same entries in the same epoch changes nothing
/// and asks for nothing, whatever the accounts then hold.
pub proof fn lemma_update_entries_idempotent(
    entries: Seq<ValidatorStakeInfo>,
    start: int,
    accounts: Seq<ValidatorAccounts>,
    later_accounts: Seq<ValidatorAccounts>,
    n: nat,
    current_epoch: u64,
)
    requires
        0 <= start,
        n == 0 || start + n <= entries.len(),
        n <= accounts.len(),
        n <= later_accounts.len(),
        removed_hold_nothing(entries),
    ensures
        spec_update_entries(entries, start, accounts, n, current_epoch) matches Ok((out, _))
            ==> spec_update_entries(out, start, later_accounts, n, current_epoch) matches Ok(
            (again, actions),
        ) && again == out && actions.len() == n && forall|k: int|
            0 <= k < n ==> #[trigger] actions[k] == (ListPassActions {
                transient: TransientAction::Keep,
                validator: ValidatorAction::Keep,
            }),
{
    lemma_update_entries_keep(entries, start, accounts, n, current_epoch);
    if let Ok((out, _)) = spec_update_entries(entries, start, accounts, n, current_epoch) {
        lemma_second_pass(out, start, later_accounts, n, n, current_epoch);
    }
}

/// A pass over entries that were all updated in this epoch changes
/// nothing and asks for nothing.
proof fn lemma_second_pass(
    out: Seq<ValidatorStakeInfo>,
    start: int,
    later_accounts: Seq<ValidatorAccounts>,
    covered: nat,
    n: nat,
    current_epoch: u64,
)
    requires
        0 <= start,
        n <= covered,
        covered == 0 || start + covered <= out.len(),
        forall|i: int|
            start <= i < start + covered ==> (#[trigger] out[i]).last_update_epoch == current_epoch
                && out[i].spec_status() is Some,
    ensures
        spec_update_entries(out, start, later_accounts, n, current_epoch) matches Ok(
            (again, actions),
        ) && again == out && actions.len() == n && forall|k: int|
            0 <= k < n ==> #[trigger] actions[k] == (ListPassActions {
                transient: TransientAction::Keep,
                validator: ValidatorAction::Keep,
            }),
    decreases n,
{
    if n > 0 {
        lemma_second_pass(out, start, later_accounts, covered, (n - 1) as nat, current_epoch);
        let at = start + n - 1;
        assert(out[at].last_update_epoch == current_epoch && out[at].spec_status() is Some);
        assert(out.update(at, out[at]) =~= out);
    }
}

impl ValidatorList {
    /// The list pass: brings up to `MAX_VALIDATORS_TO_UPDATE` entries from
    /// `start_index` on up to date, the `k`-th of them with the `k`-th of
    /// `accounts`, and returns what to do with the accounts of each. If an
    /// entry is refused the pass fails and the list stays as it was.
    #[verifier::loop_isolation(false)]
    pub fn update_validator_list_balance(
        &mut self,
        start_index: u32,
        accounts: &[ValidatorAccounts],
        current_epoch: u64,
    ) -> (r: Result<Vec<ListPassActions>, StakePoolError>)
        ensures
            final(self).header == old(self).header,
            match spec_update_entries(
                old(self).validators@,
                start_index as int,
                accounts@,
                spec_pass_count(old(self).validators@.len(), start_index, accounts@.len()),
                current_epoch,
            ) {
                Ok((entries, actions)) => {
                    &&& r is Ok
                    &&& r->Ok_0@ == actions
                    &&& final(self).validators@ == entries
                },
                Err(e) => {
                    &&& r == Err::<Vec<ListPassActions>, StakePoolError>(e)
                    &&& final(self).validators@ == old(self).validators@
                },
            },
            old(self).is_well_formed() ==> final(self).is_well_formed(),
    {
        let len = self.validators.len();
        let start = start_index as usize;
        let left = if start <= len {
            len - start
        } else {
            0
        };
        let bounded = if accounts.len() <= MAX_VALIDATORS_TO_UPDATE {
            accounts.len()
        } else {
            MAX_VALIDATORS_TO_UPDATE
        };
        let count = if bounded <= left {
            bounded
        } else {
            left
        };
        let ghost before = self.validators@;
        let mut updated: Vec<ValidatorStakeInfo> = Vec::new();
        let mut actions: Vec<ListPassActions> = Vec::new();
        let mut k: usize = 0;
        while k < count
            invariant
                0 <= k <= count,
                self.validators@ == before,
                updated@.len() == k,
                spec_update_entries(before, start as int, accounts@, k as nat, current_epoch)
                    matches Ok((done, acts)) && acts == actions@ && done.len() == before.len()
                    && (forall|j: int| 0 <= j < k ==> updated@[j] == #[trigger] done[start + j])
                    && (forall|i: int|
                    0 <= i < done.len() && !(start <= i < start + k) ==> #[trigger] done[i]
                        == before[i]),
            decreases count - k,
        {
            match update_entry(&self.validators[start + k], &accounts[k], current_epoch) {
                Ok((entry, action)) => {
                    updated.push(entry);
                    actions.push(action);
                },
                Err(e) => {
                    proof {
                        lemma_update_entries_fail_later(
                            before,
                            start as int,
                            accounts@,
                            (k + 1) as nat,
                            count as nat,
                            current_epoch,
                        );
                    }
                    return Err(e);
                },
            }
            k += 1;
        }
        let ghost target = spec_update_entries(
            before,
            start as int,
            accounts@,
            count as nat,
            current_epoch,
        )->Ok_0.0;
        let mut w: usize = 0;
        while w < count
            invariant
                0 <= w <= count,
                self.header == old(self).header,
                self.validators@.len() == before.len(),
                forall|i: int|
                    0 <= i < before.len() ==> #[trigger] self.validators@[i] == (if start <= i
                        < start + w {
                        target[i]
                    } else {
                        before[i]
                    }),
            decreases count - w,
        {
            self.validators[start + w] = updated[w];
            w += 1;
        }
        proof {
            assert(self.validators@ =~= target);
            if old(self).is_well_formed() {
                lemma_update_entries_keep(
                    before,
                    start as int,
                    accounts@,
                    count as nat,
                    current_epoch,
                );
            }
        }
        Ok(actions)
    }
}

/// Once a pass fails at an entry, it fails with the same refusal however
/// many more entries it was to cover.
proof fn lemma_update_entries_fail_later(
    entries: Seq<ValidatorStakeInfo>,
    start: int,
    accounts: Seq<ValidatorAccounts>,
    k: nat,
    n: nat,
    current_epoch: u64,
)
    requires
        k <= n,
        spec_update_entries(entries, start, accounts, k, current_epoch) is Err,
    ensures
        spec_update_entries(entries, start, accounts, n, current_epoch) == spec_update_entries(
            entries,
            start,
            accounts,
            k,
            current_epoch,
        ),
    decreases n - k,
{
    if k < n {
        lemma_update_entries_fail_later(entries, start, accounts, k, (n - 1) as nat, current_epoch);
    }
}

} // verus!
