//! The operations on the pool: changes to the registries of validators and
//! maintainers, changes to the pool configuration, automatic deactivation of
//! validators, and the merging of stake accounts.
//!
//! An operation that fails leaves every value it was handed as it was.

use vstd::prelude::*;
use crate::account::{MergeStakeAccounts, SignerAccount, TokenAccount, VoteAccount};
use crate::error::LidoError;
use crate::instruction::{merge_instruction, stake_merge, Instruction};
use crate::list::{
    holds, lemma_push_keeps_unique, lemma_remove_keeps_unique,
    lemma_update_keeps_unique, position_of, unique_keys, AccountList,
};
use crate::pubkey::{lemma_pubkey_equal_by_view, vote_program_address, vote_program_id, Pubkey};
use crate::state::{
    pubkey_seed, stake_account_address, valid_validators, Criteria, FeeRecipients, Lido,
    Maintainer, RewardDistribution, Validator, ValidatorPerf, ABSENT_PERFORMANCE_MEETS_CRITERIA,
};

verus! {

/// The bytes of `stake_authority`, the seed that marks the address of the
/// authority over the pool's stake accounts.
pub open spec fn stake_authority_seed() -> Seq<u8> {
    seq![115u8, 116, 97, 107, 101, 95, 97, 117, 116, 104, 111, 114, 105, 116, 121]
}

/// The seeds with which the pool signs as the authority over its stake
/// accounts: the pool, the marker, and the bump seed.
pub open spec fn stake_authority_seeds(lido_address: Pubkey, bump_seed: u8) -> Seq<Seq<u8>> {
    seq![lido_address@, stake_authority_seed(), seq![bump_seed]]
}

/// A merge of two stake accounts that the stake program is to carry out on
/// behalf of the pool.
#[derive(Clone, Debug, PartialEq, Eq)]
pub struct MergeRequest {
    /// The instruction for the stake program.
    pub instruction: Instruction,
    /// The seeds with which the pool signs the instruction.
    pub signer_seeds: Vec<Vec<u8>>,
}

/// The bytes of an address that may be missing.
pub open spec fn address_bytes(address: Option<Pubkey>) -> Option<Seq<u8>> {
    match address {
        Some(key) => Some(key@),
        None => None,
    }
}

/// What merging the two oldest stake accounts of the validator at `index`
/// does to the registry, given the addresses derived for the seeds `begin`
/// and `begin + 1`. The merge is refused with `StaleIndex` if the entry at
/// `index` is not the validator named in `accounts`, and with
/// `InvalidStakeAccount` if the validator has fewer than two stake accounts
/// or a supplied stake account is not the derived one. Otherwise the
/// validator's range of seeds begins one later.
pub open spec fn merge_stake_outcome(
    validators: Seq<Validator>,
    index: u32,
    accounts: MergeStakeAccounts,
    from_derived: Option<Seq<u8>>,
    to_derived: Option<Seq<u8>>,
) -> Result<Seq<Validator>, LidoError> {
    if !holds(validators, index, accounts.validator_vote_account) {
        Err(LidoError::StaleIndex)
    } else if !validators[index as int].can_merge() {
        Err(LidoError::InvalidStakeAccount)
    } else if from_derived != Some(accounts.from_stake@) {
        Err(LidoError::InvalidStakeAccount)
    } else if to_derived != Some(accounts.to_stake@) {
        Err(LidoError::InvalidStakeAccount)
    } else {
        Ok(validators.update(index as int, validators[index as int].after_merge()))
    }
}

/// Whether `request` asks the stake program to merge `accounts.from_stake`
/// into `accounts.to_stake`, signed by the pool's stake authority.
pub open spec fn is_merge_request(
    request: MergeRequest,
    lido: Lido,
    lido_address: Pubkey,
    accounts: MergeStakeAccounts,
) -> bool {
    &&& request.instruction@ == merge_instruction(
        accounts.to_stake,
        accounts.from_stake,
        accounts.stake_authority,
    )
    &&& request.signer_seeds.deep_view() == stake_authority_seeds(
        lido_address,
        lido.stake_authority_bump_seed,
    )
}

/// Whether `derived` is the address `supplied`.
fn is_derived(derived: &Option<Pubkey>, supplied: &Pubkey) -> (same: bool)
    ensures
        same == (address_bytes(*derived) == Some(supplied@)),
{
    match derived {
        Some(address) => {
            proof {
                lemma_pubkey_equal_by_view(*address, *supplied);
            }
            *address == *supplied
        },
        None => false,
    }
}

/// The seeds with which the pool signs as its stake authority.
fn authority_signer_seeds(lido_address: &Pubkey, bump_seed: u8) -> (seeds: Vec<Vec<u8>>)
    ensures
        seeds.deep_view() == stake_authority_seeds(*lido_address, bump_seed),
{
    let marker: Vec<u8> = vec![
        115u8, 116, 97, 107, 101, 95, 97, 117, 116, 104, 111, 114, 105, 116, 121,
    ];
    let bump: Vec<u8> = vec![bump_seed];
    let mut seeds: Vec<Vec<u8>> = Vec::new();
    seeds.push(pubkey_seed(lido_address));
    seeds.push(marker);
    seeds.push(bump);
    proof {
        assert(seeds.deep_view() =~~= stake_authority_seeds(*lido_address, bump_seed));
    }
    seeds
}

/// Merges the two oldest stake accounts of a validator, given the addresses
/// that were derived for their seeds.
///
/// `from_derived` and `to_derived` are the addresses derived for the seeds
/// `begin` and `begin + 1` of the validator's range, or `None` where none
/// could be derived. The registry is updated before the request is handed
/// back: whoever carries the request out does so within the same atomic
/// transaction, so that a failure there undoes the update as well.
pub fn merge_stake_accounts(
    lido: &Lido,
    lido_address: &Pubkey,
    validators: &mut AccountList<Validator>,
    validator_index: u32,
    accounts: &MergeStakeAccounts,
    from_derived: Option<Pubkey>,
    to_derived: Option<Pubkey>,
) -> (result: Result<MergeRequest, LidoError>)
    requires
        old(validators).wf(),
    ensures
        final(validators).wf(),
        final(validators).capacity() == old(validators).capacity(),
        valid_validators(old(validators)@) ==> valid_validators(final(validators)@),
        match merge_stake_outcome(
            old(validators)@,
            validator_index,
            *accounts,
            address_bytes(from_derived),
            address_bytes(to_derived),
        ) {
            Ok(merged) => final(validators)@ == merged && (result matches Ok(request)
                && is_merge_request(request, *lido, *lido_address, *accounts)),
            Err(e) => final(validators)@ == old(validators)@ && result == Err::<
                MergeRequest,
                LidoError,
            >(e),
        },
{
    let validator = validators.get_mut(validator_index, &accounts.validator_vote_account)?;
    let begin = validator.stake_seeds.begin;
    let end = validator.stake_seeds.end;
    if begin >= end || end - begin < 2 {
        return Err(LidoError::InvalidStakeAccount);
    }
    if !is_derived(&from_derived, &accounts.from_stake) {
        return Err(LidoError::InvalidStakeAccount);
    }
    if !is_derived(&to_derived, &accounts.to_stake) {
        return Err(LidoError::InvalidStakeAccount);
    }
    validator.stake_seeds.begin = begin + 1;
    proof {
        let before = old(validators)@;
        if valid_validators(before) {
            let index = validator_index as int;
            lemma_update_keeps_unique(before, index, before[index].after_merge());
        }
    }
    let mut built = stake_merge(&accounts.to_stake, &accounts.from_stake, &accounts.stake_authority);
    let instruction = built.remove(0);
    let signer_seeds = authority_signer_seeds(lido_address, lido.stake_authority_bump_seed);
    Ok(MergeRequest { instruction, signer_seeds })
}

/// Merges the two oldest stake accounts of a validator: those with the seeds
/// `begin` and `begin + 1` of its range.
///
/// Anyone may ask for this. The addresses of both stake accounts are derived
/// anew from the pool, the validator and the seed, and the accounts named in
/// `accounts` have to be exactly those. On success the validator's range of
/// seeds begins one later, and the result is the request for the stake
/// program that carries the merge out.
pub fn process_merge_stake(
    program_id: &Pubkey,
    lido: &Lido,
    lido_address: &Pubkey,
    validators: &mut AccountList<Validator>,
    validator_index: u32,
    accounts: &MergeStakeAccounts,
) -> (result: Result<MergeRequest, LidoError>)
    requires
        old(validators).wf(),
    ensures
        final(validators).wf(),
        final(validators).capacity() == old(validators).capacity(),
        valid_validators(old(validators)@) ==> valid_validators(final(validators)@),
        match merge_stake_outcome(
            old(validators)@,
            validator_index,
            *accounts,
            stake_account_address(
                *program_id,
                *lido_address,
                accounts.validator_vote_account,
                old(validators)@[validator_index as int].stake_seeds.begin,
            ),
            stake_account_address(
                *program_id,
                *lido_address,
                accounts.validator_vote_account,
                (old(validators)@[validator_index as int].stake_seeds.begin + 1) as u64,
            ),
        ) {
            Ok(merged) => final(validators)@ == merged && (result matches Ok(request)
                && is_merge_request(request, *lido, *lido_address, *accounts)),
            Err(e) => final(validators)@ == old(validators)@ && result == Err::<
                MergeRequest,
                LidoError,
            >(e),
        },
{
    let validator = *validators.get(validator_index, &accounts.validator_vote_account)?;
    let from_seed = validator.stake_seeds.begin;
    if from_seed >= validator.stake_seeds.end || validator.stake_seeds.end - from_seed < 2 {
        return Err(LidoError::InvalidStakeAccount);
    }
    let to_seed = from_seed + 1;
    let from_derived = match validator.find_stake_account_address(
        program_id,
        lido_address,
        from_seed,
    ) {
        Some((address, _)) => Some(address),
        None => None,
    };
    let to_derived = match validator.find_stake_account_address(program_id, lido_address, to_seed) {
        Some((address, _)) => Some(address),
        None => None,
    };
    merge_stake_accounts(
        lido,
        lido_address,
        validators,
        validator_index,
        accounts,
        from_derived,
        to_derived,
    )
}

/// Whether the validator `key` meets the performance thresholds of
/// `criteria`, going by its snapshot in `perfs`. A validator without a
/// snapshot is judged by `ABSENT_PERFORMANCE_MEETS_CRITERIA`.
pub open spec fn performs_well(perfs: Seq<ValidatorPerf>, criteria: Criteria, key: Pubkey) -> bool {
    match position_of(perfs, key) {
        Some(index) => perfs[index as int].meets(criteria),
        None => ABSENT_PERFORMANCE_MEETS_CRITERIA,
    }
}

/// Whether the validator behind `vote_account` has to be deactivated: its
/// vote account is no longer owned by the vote program, it charges more than
/// the commission limit, or it misses a performance threshold.
pub open spec fn violates(
    criteria: Criteria,
    perfs: Seq<ValidatorPerf>,
    vote_account: VoteAccount,
) -> bool {
    ||| vote_account.owner != vote_program_address()
    ||| (vote_account.commission matches Some(commission) && commission > criteria.max_commission)
    ||| !performs_well(perfs, criteria, vote_account.key)
}

/// What automatic curation does to the registry. The steps are taken in this
/// order:
///
/// - it fails with `InvalidAccountInfo` if no validator has the identity of
///   `vote_account`; otherwise it goes by the first validator with that
///   identity;
/// - nothing changes if that validator is inactive already;
/// - the validator is deactivated if the vote account is not owned by the
///   vote program, whatever else the account holds;
/// - it fails with `InvalidVoteAccount` if the data of the account holds no
///   commission;
/// - the validator is deactivated if `violates` holds, and nothing changes
///   if it does not.
pub open spec fn deactivate_if_violates_outcome(
    criteria: Criteria,
    validators: Seq<Validator>,
    perfs: Seq<ValidatorPerf>,
    vote_account: VoteAccount,
) -> Result<Seq<Validator>, LidoError> {
    match position_of(validators, vote_account.key) {
        None => Err(LidoError::InvalidAccountInfo),
        Some(index) => {
            let deactivated = validators.update(
                index as int,
                validators[index as int].deactivated(),
            );
            if !validators[index as int].active {
                Ok(validators)
            } else if vote_account.owner != vote_program_address() {
                Ok(deactivated)
            } else if vote_account.commission is None {
                Err(LidoError::InvalidVoteAccount)
            } else if violates(criteria, perfs, vote_account) {
                Ok(deactivated)
            } else {
                Ok(validators)
            }
        },
    }
}

/// Deactivates a validator that violates the pool's criteria.
///
/// Anyone may ask for this, any number of times. The validator is looked up
/// by the identity of `vote_account`. It is deactivated if the vote account
/// is no longer owned by the vote program, if its commission exceeds the
/// limit, or if its performance snapshot misses a threshold. A validator that
/// is inactive already, or that complies, is left as it is. No validator is
/// ever removed or reactivated here. The commission is looked at last: only
/// an active validator whose account the vote program owns needs one, and
/// only then does an account without one fail with `InvalidVoteAccount`.
pub fn process_deactivate_if_violates(
    lido: &Lido,
    validators: &mut AccountList<Validator>,
    validator_perfs: &AccountList<ValidatorPerf>,
    vote_account: &VoteAccount,
) -> (result: Result<(), LidoError>)
    requires
        old(validators).wf(),
        validator_perfs.wf(),
    ensures
        final(validators).wf(),
        final(validators).capacity() == old(validators).capacity(),
        valid_validators(old(validators)@) ==> valid_validators(final(validators)@),
        match deactivate_if_violates_outcome(
            lido.criteria,
            old(validators)@,
            validator_perfs@,
            *vote_account,
        ) {
            Ok(curated) => final(validators)@ == curated && result is Ok,
            Err(e) => final(validators)@ == old(validators)@ && result == Err::<(), LidoError>(e),
        },
{
    let index = match validators.find(&vote_account.key) {
        Some(index) => index,
        None => {
            return Err(LidoError::InvalidAccountInfo);
        },
    };
    let validator = validators.get_mut(index, &vote_account.key)?;
    if !validator.active {
        return Ok(());
    }
    let should_deactivate = if vote_account.owner == vote_program_id() {
        let does_perform_well = match validator_perfs.find(&vote_account.key) {
            Some(perf_index) => validator_perfs.get(perf_index, &vote_account.key)?.meets_criteria(
                &lido.criteria,
            ),
            None => ABSENT_PERFORMANCE_MEETS_CRITERIA,
        };
        let commission = match vote_account.commission {
            Some(commission) => commission,
            None => {
                return Err(LidoError::InvalidVoteAccount);
            },
        };
        !(does_perform_well && commission <= lido.criteria.max_commission)
    } else {
        true
    };
    if should_deactivate {
        validator.deactivate();
        proof {
            let before = old(validators)@;
            if valid_validators(before) {
                lemma_update_keeps_unique(
                    before,
                    index as int,
                    before[index as int].deactivated(),
                );
            }
        }
    }
    Ok(())
}

/// What a vote account is refused with as that of a new validator, if it is
/// refused: the checks are made in this order. `Unauthorized` unless
/// `manager` is the pool's manager and has signed; `NotRentExempt` if the
/// account holds less than `rent_exempt_minimum`; `InvalidVoteAccount` if the
/// account is not owned by the vote program, holds no commission, or charges
/// more than the limit.
pub open spec fn new_validator_error(
    lido: Lido,
    manager: SignerAccount,
    vote_account: VoteAccount,
    rent_exempt_minimum: u64,
) -> Option<LidoError> {
    if !lido.is_manager(manager) {
        Some(LidoError::Unauthorized)
    } else if vote_account.lamports < rent_exempt_minimum {
        Some(LidoError::NotRentExempt)
    } else if vote_account.owner != vote_program_address() {
        Some(LidoError::InvalidVoteAccount)
    } else {
        match vote_account.commission {
            None => Some(LidoError::InvalidVoteAccount),
            Some(commission) => if commission > lido.criteria.max_commission {
                Some(LidoError::InvalidVoteAccount)
            } else {
                None
            },
        }
    }
}

/// What adding a validator does to a registry with room for `capacity`
/// entries. It is refused as `new_validator_error` says; then with
/// `RegistryFull` if there is no room; then with `InvalidAccountInfo` if a
/// validator with the identity of `vote_account` is listed already, so that
/// no identity is ever listed twice. Otherwise a fresh validator is appended.
pub open spec fn add_validator_outcome(
    lido: Lido,
    validators: Seq<Validator>,
    capacity: u32,
    manager: SignerAccount,
    vote_account: VoteAccount,
    rent_exempt_minimum: u64,
) -> Result<Seq<Validator>, LidoError> {
    match new_validator_error(lido, manager, vote_account, rent_exempt_minimum) {
        Some(e) => Err(e),
        None => if validators.len() >= capacity {
            Err(LidoError::RegistryFull)
        } else if position_of(validators, vote_account.key) is Some {
            Err(LidoError::InvalidAccountInfo)
        } else {
            Ok(validators.push(Validator::fresh(vote_account.key)))
        },
    }
}

/// Decides whether the manager may add the validator behind `vote_account`,
/// before the registry is looked at.
pub fn check_new_validator(
    lido: &Lido,
    manager: &SignerAccount,
    vote_account: &VoteAccount,
    rent_exempt_minimum: u64,
) -> (result: Result<(), LidoError>)
    ensures
        match new_validator_error(*lido, *manager, *vote_account, rent_exempt_minimum) {
            None => result is Ok,
            Some(e) => result == Err::<(), LidoError>(e),
        },
{
    lido.check_manager(manager)?;
    if vote_account.lamports < rent_exempt_minimum {
        return Err(LidoError::NotRentExempt);
    }
    if !(vote_account.owner == vote_program_id()) {
        return Err(LidoError::InvalidVoteAccount);
    }
    match vote_account.commission {
        Some(commission) => {
            if commission > lido.criteria.max_commission {
                Err(LidoError::InvalidVoteAccount)
            } else {
                Ok(())
            }
        },
        None => Err(LidoError::InvalidVoteAccount),
    }
}

/// Adds a validator to the registry, on behalf of the manager.
///
/// The vote account has to hold at least `rent_exempt_minimum`, the balance
/// below which an account of its size is charged rent; it has to be owned by
/// the vote program; and its commission must not exceed the limit. A
/// validator that is listed already is not added again. The new entry is
/// active and has no stake accounts.
pub fn process_add_validator(
    lido: &Lido,
    validators: &mut AccountList<Validator>,
    manager: &SignerAccount,
    vote_account: &VoteAccount,
    rent_exempt_minimum: u64,
) -> (result: Result<(), LidoError>)
    requires
        old(validators).wf(),
    ensures
        final(validators).wf(),
        final(validators).capacity() == old(validators).capacity(),
        valid_validators(old(validators)@) ==> valid_validators(final(validators)@),
        match add_validator_outcome(
            *lido,
            old(validators)@,
            old(validators).capacity(),
            *manager,
            *vote_account,
            rent_exempt_minimum,
        ) {
            Ok(extended) => result is Ok && final(validators)@ == extended,
            Err(e) => result == Err::<(), LidoError>(e) && final(validators)@ == old(validators)@,
        },
{
    check_new_validator(lido, manager, vote_account, rent_exempt_minimum)?;
    if validators.len() >= validators.max_entries() {
        return Err(LidoError::RegistryFull);
    }
    match validators.find(&vote_account.key) {
        Some(_) => {
            return Err(LidoError::InvalidAccountInfo);
        },
        None => {},
    }
    proof {
        if valid_validators(validators@) {
            lemma_push_keeps_unique(validators@, Validator::fresh(vote_account.key));
        }
    }
    validators.push(Validator::new(vote_account.key))
}

/// What removing the validator at `index` does to the registry: it fails
/// with `StaleIndex` if the entry at `index` does not have the identity
/// `key`, and with `ValidatorNotRemovable` if the validator is not
/// removable; otherwise the entry is gone and the later ones have moved down.
pub open spec fn remove_validator_outcome(
    validators: Seq<Validator>,
    index: u32,
    key: Pubkey,
) -> Result<Seq<Validator>, LidoError> {
    if !holds(validators, index, key) {
        Err(LidoError::StaleIndex)
    } else if !validators[index as int].is_removable() {
        Err(LidoError::ValidatorNotRemovable)
    } else {
        Ok(validators.remove(index as int))
    }
}

/// Removes a validator from the registry.
///
/// This is the last step of taking a validator out of the pool, and anyone
/// may ask for it: once a validator is inactive and nothing is staked with
/// it, no decision is left to make.
pub fn process_remove_validator(
    validators: &mut AccountList<Validator>,
    validator_index: u32,
    validator_vote_account_to_remove: &Pubkey,
) -> (result: Result<(), LidoError>)
    requires
        old(validators).wf(),
    ensures
        final(validators).wf(),
        final(validators).capacity() == old(validators).capacity(),
        valid_validators(old(validators)@) ==> valid_validators(final(validators)@),
        match remove_validator_outcome(
            old(validators)@,
            validator_index,
            *validator_vote_account_to_remove,
        ) {
            Ok(remaining) => result is Ok && final(validators)@ == remaining,
            Err(e) => result == Err::<(), LidoError>(e) && final(validators)@ == old(validators)@,
        },
{
    validators.get(validator_index, validator_vote_account_to_remove)?.check_can_be_removed()?;
    proof {
        if valid_validators(validators@) {
            lemma_remove_keeps_unique(validators@, validator_index as int);
        }
    }
    validators.remove(validator_index, validator_vote_account_to_remove)?;
    Ok(())
}

/// What deactivating the validator at `index` on behalf of `manager` does to
/// the registry: it fails with `Unauthorized` unless `manager` is the pool's
/// manager and has signed, and with `StaleIndex` if the entry at `index` does
/// not have the identity `key`; otherwise the entry is inactive.
pub open spec fn deactivate_validator_outcome(
    lido: Lido,
    validators: Seq<Validator>,
    index: u32,
    manager: SignerAccount,
    key: Pubkey,
) -> Result<Seq<Validator>, LidoError> {
    if !lido.is_manager(manager) {
        Err(LidoError::Unauthorized)
    } else if !holds(validators, index, key) {
        Err(LidoError::StaleIndex)
    } else {
        Ok(validators.update(index as int, validators[index as int].deactivated()))
    }
}

/// Clears the `active` flag of a validator, on behalf of the manager.
///
/// No new stake is delegated to an inactive validator, and it can be removed
/// once nothing is staked with it any more. Deactivating an inactive
/// validator changes nothing.
pub fn process_deactivate_validator(
    lido: &Lido,
    validators: &mut AccountList<Validator>,
    validator_index: u32,
    manager: &SignerAccount,
    validator_vote_account_to_deactivate: &Pubkey,
) -> (result: Result<(), LidoError>)
    requires
        old(validators).wf(),
    ensures
        final(validators).wf(),
        final(validators).capacity() == old(validators).capacity(),
        valid_validators(old(validators)@) ==> valid_validators(final(validators)@),
        match deactivate_validator_outcome(
            *lido,
            old(validators)@,
            validator_index,
            *manager,
            *validator_vote_account_to_deactivate,
        ) {
            Ok(changed) => result is Ok && final(validators)@ == changed,
            Err(e) => result == Err::<(), LidoError>(e) && final(validators)@ == old(validators)@,
        },
{
    lido.check_manager(manager)?;
    let validator = validators.get_mut(validator_index, validator_vote_account_to_deactivate)?;
    validator.deactivate();
    proof {
        let before = old(validators)@;
        if valid_validators(before) {
            let index = validator_index as int;
            lemma_update_keeps_unique(before, index, before[index].deactivated());
        }
    }
    Ok(())
}

/// What adding the maintainer `key` does to a registry with room for
/// `capacity` entries: it fails with `Unauthorized` unless `manager` is the
/// pool's manager and has signed; with `RegistryFull` if there is no room;
/// and with `InvalidAccountInfo` if the maintainer is listed already, so that
/// no identity is ever listed twice. Otherwise the maintainer is appended.
pub open spec fn add_maintainer_outcome(
    lido: Lido,
    maintainers: Seq<Maintainer>,
    capacity: u32,
    manager: SignerAccount,
    key: Pubkey,
) -> Result<Seq<Maintainer>, LidoError> {
    if !lido.is_manager(manager) {
        Err(LidoError::Unauthorized)
    } else if maintainers.len() >= capacity {
        Err(LidoError::RegistryFull)
    } else if position_of(maintainers, key) is Some {
        Err(LidoError::InvalidAccountInfo)
    } else {
        Ok(maintainers.push(Maintainer { pubkey: key }))
    }
}

/// Adds a maintainer to the registry of maintainers, on behalf of the
/// manager. A maintainer that is listed already is not added again.
pub fn process_add_maintainer(
    lido: &Lido,
    maintainers: &mut AccountList<Maintainer>,
    manager: &SignerAccount,
    maintainer: &Pubkey,
) -> (result: Result<(), LidoError>)
    requires
        old(maintainers).wf(),
    ensures
        final(maintainers).wf(),
        final(maintainers).capacity() == old(maintainers).capacity(),
        unique_keys(old(maintainers)@) ==> unique_keys(final(maintainers)@),
        match add_maintainer_outcome(
            *lido,
            old(maintainers)@,
            old(maintainers).capacity(),
            *manager,
            *maintainer,
        ) {
            Ok(extended) => result is Ok && final(maintainers)@ == extended,
            Err(e) => result == Err::<(), LidoError>(e) && final(maintainers)@ == old(maintainers)@,
        },
{
    lido.check_manager(manager)?;
    if maintainers.len() >= maintainers.max_entries() {
        return Err(LidoError::RegistryFull);
    }
    match maintainers.find(maintainer) {
        Some(_) => {
            return Err(LidoError::InvalidAccountInfo);
        },
        None => {},
    }
    proof {
        if unique_keys(maintainers@) {
            lemma_push_keeps_unique(maintainers@, Maintainer { pubkey: *maintainer });
        }
    }
    maintainers.push(Maintainer::new(*maintainer))
}

/// What removing the maintainer at `index` does to the registry: it fails
/// with `Unauthorized` unless `manager` is the pool's manager and has signed,
/// and with `StaleIndex` if the entry at `index` does not have the identity
/// `key`; otherwise the entry is gone and the later ones have moved down.
pub open spec fn remove_maintainer_outcome(
    lido: Lido,
    maintainers: Seq<Maintainer>,
    index: u32,
    manager: SignerAccount,
    key: Pubkey,
) -> Result<Seq<Maintainer>, LidoError> {
    if !lido.is_manager(manager) {
        Err(LidoError::Unauthorized)
    } else if !holds(maintainers, index, key) {
        Err(LidoError::StaleIndex)
    } else {
        Ok(maintainers.remove(index as int))
    }
}

/// Removes a maintainer from the registry of maintainers, on behalf of the
/// manager.
pub fn process_remove_maintainer(
    lido: &Lido,
    maintainers: &mut AccountList<Maintainer>,
    maintainer_index: u32,
    manager: &SignerAccount,
    maintainer: &Pubkey,
) -> (result: Result<(), LidoError>)
    requires
        old(maintainers).wf(),
    ensures
        final(maintainers).wf(),
        final(maintainers).capacity() == old(maintainers).capacity(),
        unique_keys(old(maintainers)@) ==> unique_keys(final(maintainers)@),
        match remove_maintainer_outcome(
            *lido,
            old(maintainers)@,
            maintainer_index,
            *manager,
            *maintainer,
        ) {
            Ok(remaining) => result is Ok && final(maintainers)@ == remaining,
            Err(e) => result == Err::<(), LidoError>(e) && final(maintainers)@ == old(maintainers)@,
        },
{
    lido.check_manager(manager)?;
    proof {
        if unique_keys(maintainers@) && holds(maintainers@, maintainer_index, *maintainer) {
            lemma_remove_keeps_unique(maintainers@, maintainer_index as int);
        }
    }
    maintainers.remove(maintainer_index, maintainer)?;
    Ok(())
}

/// What changing the criteria is refused with, if it is refused. The limit
/// on the commission is checked before the signer is.
pub open spec fn change_criteria_error(
    lido: Lido,
    new_criteria: Criteria,
    manager: SignerAccount,
) -> Option<LidoError> {
    if !new_criteria.wf() {
        Some(LidoError::ValidationCommissionOutOfBounds)
    } else if !lido.is_manager(manager) {
        Some(LidoError::Unauthorized)
    } else {
        None
    }
}

/// Replaces the criteria that validators have to meet, on behalf of the
/// manager.
///
/// No validator is judged by the new criteria here: those that violate them
/// are deactivated when `process_deactivate_if_violates` is next called for
/// them.
pub fn process_change_criteria(
    lido: &mut Lido,
    new_criteria: Criteria,
    manager: &SignerAccount,
) -> (result: Result<(), LidoError>)
    ensures
        match change_criteria_error(*old(lido), new_criteria, *manager) {
            None => result is Ok && *final(lido) == (Lido { criteria: new_criteria, ..*old(lido) }),
            Some(e) => result == Err::<(), LidoError>(e) && *final(lido) == *old(lido),
        },
        old(lido).criteria.wf() ==> final(lido).criteria.wf(),
{
    new_criteria.check_commission_bound()?;
    lido.check_manager(manager)?;
    lido.criteria = new_criteria;
    Ok(())
}

/// What changing the reward distribution is refused with, if it is refused:
/// the signer is checked first, then the treasury, then the developer
/// account.
pub open spec fn change_reward_distribution_error(
    lido: Lido,
    manager: SignerAccount,
    treasury_account: TokenAccount,
    developer_account: TokenAccount,
) -> Option<LidoError> {
    if !lido.is_manager(manager) {
        Some(LidoError::Unauthorized)
    } else if !lido.is_st_sol_account(treasury_account) || !lido.is_st_sol_account(
        developer_account,
    ) {
        Some(LidoError::InvalidFeeRecipient)
    } else {
        None
    }
}

/// Replaces the reward distribution and both fee recipients, on behalf of
/// the manager. Each recipient has to be a token account of the pool's mint.
pub fn process_change_reward_distribution(
    lido: &mut Lido,
    new_reward_distribution: RewardDistribution,
    manager: &SignerAccount,
    treasury_account: &TokenAccount,
    developer_account: &TokenAccount,
) -> (result: Result<(), LidoError>)
    ensures
        match change_reward_distribution_error(
            *old(lido),
            *manager,
            *treasury_account,
            *developer_account,
        ) {
            None => result is Ok && *final(lido) == (Lido {
                reward_distribution: new_reward_distribution,
                fee_recipients: FeeRecipients {
                    treasury_account: treasury_account.key,
                    developer_account: developer_account.key,
                },
                ..*old(lido)
            }),
            Some(e) => result == Err::<(), LidoError>(e) && *final(lido) == *old(lido),
        },
{
    lido.check_manager(manager)?;
    lido.check_is_st_sol_account(treasury_account)?;
    lido.check_is_st_sol_account(developer_account)?;
    lido.reward_distribution = new_reward_distribution;
    lido.fee_recipients.treasury_account = treasury_account.key;
    lido.fee_recipients.developer_account = developer_account.key;
    Ok(())
}

} // verus!
