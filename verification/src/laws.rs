//! Properties that hold of every state of the pool, proved from the
//! definitions that the operations are specified with.

use vstd::prelude::*;
use crate::account::{MergeStakeAccounts, SignerAccount, VoteAccount};
use crate::error::LidoError;
use crate::list::{
    absent_before, holds, lemma_not_found_is_absent, lemma_position_of, lemma_push_keeps_unique,
    lemma_remove_keeps_unique, lemma_unique_position, lemma_update_keeps_unique, position_of,
    unique_keys, ListEntry,
};
use crate::process_management::{
    add_maintainer_outcome, add_validator_outcome, change_criteria_error,
    deactivate_if_violates_outcome, deactivate_validator_outcome, merge_stake_outcome,
    new_validator_error, remove_maintainer_outcome, remove_validator_outcome, violates,
};
use crate::pubkey::{vote_program_address, Pubkey};
use crate::state::{valid_validators, Criteria, Lido, Maintainer, Validator, ValidatorPerf};

verus! {

/// An access by position never reaches an entry with another identity than
/// the one that was named: where the entry at `index` has the identity `key`
/// it is that entry which is removed, and every other entry stays, in order;
/// where it has not, the removal fails with `StaleIndex`.
pub proof fn lemma_removal_checks_identity(validators: Seq<Validator>, index: u32, key: Pubkey)
    ensures
        match remove_validator_outcome(validators, index, key) {
            Ok(remaining) => {
                &&& validators[index as int].key() == key
                &&& remaining.len() == validators.len() - 1
                &&& forall|j: int| 0 <= j < index ==> remaining[j] == validators[j]
                &&& forall|j: int|
                    index <= j < remaining.len() ==> remaining[j] == validators[j + 1]
            },
            Err(e) => {
                &&& e == LidoError::StaleIndex <==> !holds(validators, index, key)
                &&& e == LidoError::ValidatorNotRemovable <==> holds(validators, index, key)
            },
        },
{
}

/// A position that was formed before a removal is stale after it for every
/// entry that moved: the entry now at `later` is the one that was at
/// `later + 1`, so naming the old position together with the identity fails
/// unless the entry found there has that identity itself.
pub proof fn lemma_removal_shifts_later_positions<T: ListEntry>(
    entries: Seq<T>,
    removed: u32,
    later: u32,
    key: Pubkey,
)
    requires
        removed < entries.len(),
        removed <= later,
        later + 1 <= u32::MAX,
    ensures
        holds(entries.remove(removed as int), later, key) <==> holds(
            entries,
            (later + 1) as u32,
            key,
        ),
{
}

/// A validator that still has stake accounts cannot be removed: asking for
/// the removal of the entry at `index` under its own identity fails with
/// `ValidatorNotRemovable`.
pub proof fn lemma_validator_with_stake_accounts_is_not_removable(
    validators: Seq<Validator>,
    index: u32,
    key: Pubkey,
)
    requires
        holds(validators, index, key),
        validators[index as int].stake_seeds.begin != validators[index as int].stake_seeds.end,
    ensures
        remove_validator_outcome(validators, index, key) == Err::<Seq<Validator>, LidoError>(
            LidoError::ValidatorNotRemovable,
        ),
{
}

/// Automatic curation finds the same validator before and after it ran.
proof fn lemma_curation_keeps_position(validators: Seq<Validator>, index: u32, key: Pubkey)
    requires
        position_of(validators, key) == Some(index),
    ensures
        position_of(
            validators.update(index as int, validators[index as int].deactivated()),
            key,
        ) == Some(index),
{
    let curated = validators.update(index as int, validators[index as int].deactivated());
    assert(holds(validators, index, key) && absent_before(validators, index as int, key));
    assert forall|j: int| 0 <= j < index && j < curated.len() implies (#[trigger] curated[j]).key()
        != key by {
        assert(curated[j] == validators[j]);
    }
    lemma_position_of(curated, key, index);
}

/// Automatic curation is idempotent: where it succeeded once, running it
/// again on the state it left, with the same inputs, succeeds and changes
/// nothing. A validator that was deactivated the first time is inactive after
/// both runs.
pub proof fn lemma_deactivate_if_violates_is_idempotent(
    criteria: Criteria,
    validators: Seq<Validator>,
    perfs: Seq<ValidatorPerf>,
    vote_account: VoteAccount,
)
    requires
        deactivate_if_violates_outcome(criteria, validators, perfs, vote_account) is Ok,
    ensures
        ({
            let once = deactivate_if_violates_outcome(criteria, validators, perfs, vote_account);
            let twice = deactivate_if_violates_outcome(
                criteria,
                once->Ok_0,
                perfs,
                vote_account,
            );
            let index = position_of(validators, vote_account.key)->Some_0;
            &&& twice == once
            &&& violates(criteria, perfs, vote_account) ==> !once->Ok_0[index as int].active
                && !twice->Ok_0[index as int].active
        }),
{
    let index = position_of(validators, vote_account.key)->Some_0;
    assert(holds(validators, index, vote_account.key));
    if violates(criteria, perfs, vote_account) {
        let once = validators.update(index as int, validators[index as int].deactivated());
        lemma_curation_keeps_position(validators, index, vote_account.key);
        assert(once.update(index as int, once[index as int].deactivated()) =~= once);
    }
}

/// Automatic curation never removes, adds, moves or reactivates a validator:
/// the registry keeps its length, every entry keeps its identity, its stake
/// accounts and its balance, and an inactive entry stays inactive.
pub proof fn lemma_curation_only_deactivates(
    criteria: Criteria,
    validators: Seq<Validator>,
    perfs: Seq<ValidatorPerf>,
    vote_account: VoteAccount,
)
    requires
        deactivate_if_violates_outcome(criteria, validators, perfs, vote_account) is Ok,
    ensures
        ({
            let curated = deactivate_if_violates_outcome(
                criteria,
                validators,
                perfs,
                vote_account,
            )->Ok_0;
            &&& curated.len() == validators.len()
            &&& forall|j: int|
                0 <= j < validators.len() ==> {
                    &&& (#[trigger] curated[j]).vote_account_address
                        == validators[j].vote_account_address
                    &&& curated[j].stake_seeds == validators[j].stake_seeds
                    &&& curated[j].undelegated_balance == validators[j].undelegated_balance
                    &&& curated[j].active ==> validators[j].active
                }
        }),
{
    let index = position_of(validators, vote_account.key)->Some_0;
    assert(holds(validators, index, vote_account.key));
}

/// Automatic curation of a validator that is inactive already changes
/// nothing and does not fail, whatever the vote account holds: its owner, its
/// commission and the performance snapshots play no part, and the data of
/// the account need not hold a commission at all.
pub proof fn lemma_curation_of_inactive_validator_changes_nothing(
    criteria: Criteria,
    validators: Seq<Validator>,
    perfs: Seq<ValidatorPerf>,
    vote_account: VoteAccount,
    index: u32,
)
    requires
        valid_validators(validators),
        holds(validators, index, vote_account.key),
        !validators[index as int].active,
    ensures
        deactivate_if_violates_outcome(criteria, validators, perfs, vote_account) == Ok::<
            Seq<Validator>,
            LidoError,
        >(validators),
{
    lemma_unique_position(validators, vote_account.key, index);
}

/// A validator whose vote account is no longer owned by the vote program is
/// deactivated by automatic curation, whatever its commission and its
/// performance snapshot are, and whether or not the data of the account
/// holds a commission. Nothing else in the registry changes.
pub proof fn lemma_curation_deactivates_on_foreign_owner(
    criteria: Criteria,
    validators: Seq<Validator>,
    perfs: Seq<ValidatorPerf>,
    vote_account: VoteAccount,
    index: u32,
)
    requires
        valid_validators(validators),
        holds(validators, index, vote_account.key),
        vote_account.owner != vote_program_address(),
    ensures
        deactivate_if_violates_outcome(criteria, validators, perfs, vote_account) == Ok::<
            Seq<Validator>,
            LidoError,
        >(validators.update(index as int, validators[index as int].deactivated())),
        !deactivate_if_violates_outcome(
            criteria,
            validators,
            perfs,
            vote_account,
        )->Ok_0[index as int].active,
{
    lemma_unique_position(validators, vote_account.key, index);
    if !validators[index as int].active {
        assert(validators.update(index as int, validators[index as int].deactivated())
            =~= validators);
    }
}

/// A validator that charges more than the commission limit is deactivated by
/// automatic curation, whatever its performance snapshot says and also where
/// it has none.
pub proof fn lemma_curation_deactivates_on_commission(
    criteria: Criteria,
    validators: Seq<Validator>,
    perfs: Seq<ValidatorPerf>,
    vote_account: VoteAccount,
    index: u32,
)
    requires
        valid_validators(validators),
        holds(validators, index, vote_account.key),
        vote_account.commission matches Some(commission) && commission > criteria.max_commission,
    ensures
        deactivate_if_violates_outcome(criteria, validators, perfs, vote_account) == Ok::<
            Seq<Validator>,
            LidoError,
        >(validators.update(index as int, validators[index as int].deactivated())),
        !deactivate_if_violates_outcome(
            criteria,
            validators,
            perfs,
            vote_account,
        )->Ok_0[index as int].active,
{
    lemma_unique_position(validators, vote_account.key, index);
    if !validators[index as int].active {
        assert(validators.update(index as int, validators[index as int].deactivated())
            =~= validators);
    }
}

/// Automatic curation fails only where it cannot decide: with
/// `InvalidAccountInfo` where no validator has the identity of the vote
/// account, and with `InvalidVoteAccount` where the validator found is
/// active, the vote program owns the account, and its data holds no
/// commission. It fails with nothing else, and succeeds on every other input.
pub proof fn lemma_curation_failures(
    criteria: Criteria,
    validators: Seq<Validator>,
    perfs: Seq<ValidatorPerf>,
    vote_account: VoteAccount,
)
    ensures
        ({
            let outcome = deactivate_if_violates_outcome(criteria, validators, perfs, vote_account);
            let found = position_of(validators, vote_account.key);
            &&& outcome == Err::<Seq<Validator>, LidoError>(LidoError::InvalidAccountInfo)
                <==> found is None
            &&& outcome == Err::<Seq<Validator>, LidoError>(LidoError::InvalidVoteAccount) <==> (
            found matches Some(index) && validators[index as int].active && vote_account.owner
                == vote_program_address() && vote_account.commission is None)
            &&& outcome matches Err(e) ==> e == LidoError::InvalidAccountInfo || e
                == LidoError::InvalidVoteAccount
        }),
{
}

/// A validator that is listed is not added again: the request is refused,
/// so the registry stays as it is. Where nothing else stands against the
/// validator and the registry has room, the refusal is `InvalidAccountInfo`.
pub proof fn lemma_listed_validator_is_not_added_again(
    lido: Lido,
    validators: Seq<Validator>,
    capacity: u32,
    manager: SignerAccount,
    vote_account: VoteAccount,
    rent_exempt_minimum: u64,
    index: u32,
)
    requires
        holds(validators, index, vote_account.key),
    ensures
        add_validator_outcome(
            lido,
            validators,
            capacity,
            manager,
            vote_account,
            rent_exempt_minimum,
        ) is Err,
        new_validator_error(lido, manager, vote_account, rent_exempt_minimum) is None
            && validators.len() < capacity ==> add_validator_outcome(
            lido,
            validators,
            capacity,
            manager,
            vote_account,
            rent_exempt_minimum,
        ) == Err::<Seq<Validator>, LidoError>(LidoError::InvalidAccountInfo),
{
    lemma_position_of_found(validators, vote_account.key, index);
}

/// A full registry takes no further validator: where the manager asks and
/// the vote account is acceptable, the request is refused with
/// `RegistryFull`, whether or not the validator is listed already.
pub proof fn lemma_full_validator_registry_refuses(
    lido: Lido,
    validators: Seq<Validator>,
    capacity: u32,
    manager: SignerAccount,
    vote_account: VoteAccount,
    rent_exempt_minimum: u64,
)
    requires
        new_validator_error(lido, manager, vote_account, rent_exempt_minimum) is None,
        validators.len() >= capacity,
    ensures
        add_validator_outcome(
            lido,
            validators,
            capacity,
            manager,
            vote_account,
            rent_exempt_minimum,
        ) == Err::<Seq<Validator>, LidoError>(LidoError::RegistryFull),
{
}

/// A full registry takes no further maintainer: the manager's request is
/// refused with `RegistryFull`, whether or not the maintainer is listed
/// already.
pub proof fn lemma_full_maintainer_registry_refuses(
    lido: Lido,
    maintainers: Seq<Maintainer>,
    capacity: u32,
    manager: SignerAccount,
    key: Pubkey,
)
    requires
        lido.is_manager(manager),
        maintainers.len() >= capacity,
    ensures
        add_maintainer_outcome(lido, maintainers, capacity, manager, key) == Err::<
            Seq<Maintainer>,
            LidoError,
        >(LidoError::RegistryFull),
{
}

/// An identity that an entry has is found at some position.
proof fn lemma_position_of_found<T: ListEntry>(entries: Seq<T>, key: Pubkey, index: u32)
    requires
        holds(entries, index, key),
    ensures
        position_of(entries, key) is Some,
    decreases index,
{
    if absent_before(entries, index as int, key) {
        lemma_position_of(entries, key, index);
    } else {
        let earlier = choose|j: int| 0 <= j < index && j < entries.len() && entries[j].key() == key;
        lemma_position_of_found(entries, key, earlier as u32);
    }
}

/// A maintainer that is listed is not added again: the request is refused,
/// and where the manager asks and the registry has room, the refusal is
/// `InvalidAccountInfo`.
pub proof fn lemma_listed_maintainer_is_not_added_again(
    lido: Lido,
    maintainers: Seq<Maintainer>,
    capacity: u32,
    manager: SignerAccount,
    key: Pubkey,
    index: u32,
)
    requires
        holds(maintainers, index, key),
    ensures
        add_maintainer_outcome(lido, maintainers, capacity, manager, key) is Err,
        lido.is_manager(manager) && maintainers.len() < capacity ==> add_maintainer_outcome(
            lido,
            maintainers,
            capacity,
            manager,
            key,
        ) == Err::<Seq<Maintainer>, LidoError>(LidoError::InvalidAccountInfo),
{
    lemma_position_of_found(maintainers, key, index);
}

/// Adding a validator keeps the registry valid and within its capacity: no
/// identity is listed twice, and no range of seeds ends before it begins.
pub proof fn lemma_add_validator_keeps_registry_valid(
    lido: Lido,
    validators: Seq<Validator>,
    capacity: u32,
    manager: SignerAccount,
    vote_account: VoteAccount,
    rent_exempt_minimum: u64,
)
    requires
        valid_validators(validators),
        validators.len() <= capacity,
    ensures
        match add_validator_outcome(
            lido,
            validators,
            capacity,
            manager,
            vote_account,
            rent_exempt_minimum,
        ) {
            Ok(extended) => valid_validators(extended) && extended.len() <= capacity,
            Err(_) => true,
        },
{
    if position_of(validators, vote_account.key) is None {
        lemma_not_found_is_absent(validators, vote_account.key, validators.len());
        lemma_push_keeps_unique(validators, Validator::fresh(vote_account.key));
    }
}

/// Removing a validator keeps the registry valid.
pub proof fn lemma_remove_validator_keeps_registry_valid(
    validators: Seq<Validator>,
    index: u32,
    key: Pubkey,
)
    requires
        valid_validators(validators),
    ensures
        match remove_validator_outcome(validators, index, key) {
            Ok(remaining) => valid_validators(remaining),
            Err(_) => true,
        },
{
    if holds(validators, index, key) {
        lemma_remove_keeps_unique(validators, index as int);
    }
}

/// Deactivation by the manager keeps the registry valid.
pub proof fn lemma_deactivate_validator_keeps_registry_valid(
    lido: Lido,
    validators: Seq<Validator>,
    index: u32,
    manager: SignerAccount,
    key: Pubkey,
)
    requires
        valid_validators(validators),
    ensures
        match deactivate_validator_outcome(lido, validators, index, manager, key) {
            Ok(changed) => valid_validators(changed),
            Err(_) => true,
        },
{
    if holds(validators, index, key) {
        lemma_update_keeps_unique(validators, index as int, validators[index as int].deactivated());
    }
}

/// Automatic curation keeps the registry valid.
pub proof fn lemma_curation_keeps_registry_valid(
    criteria: Criteria,
    validators: Seq<Validator>,
    perfs: Seq<ValidatorPerf>,
    vote_account: VoteAccount,
)
    requires
        valid_validators(validators),
    ensures
        match deactivate_if_violates_outcome(criteria, validators, perfs, vote_account) {
            Ok(curated) => valid_validators(curated),
            Err(_) => true,
        },
{
    match position_of(validators, vote_account.key) {
        Some(index) => {
            assert(holds(validators, index, vote_account.key));
            lemma_update_keeps_unique(
                validators,
                index as int,
                validators[index as int].deactivated(),
            );
        },
        None => {},
    }
}

/// Merging stake accounts keeps the registry valid.
pub proof fn lemma_merge_keeps_registry_valid(
    validators: Seq<Validator>,
    index: u32,
    accounts: MergeStakeAccounts,
    from_derived: Option<Seq<u8>>,
    to_derived: Option<Seq<u8>>,
)
    requires
        valid_validators(validators),
    ensures
        match merge_stake_outcome(validators, index, accounts, from_derived, to_derived) {
            Ok(merged) => valid_validators(merged),
            Err(_) => true,
        },
{
    if holds(validators, index, accounts.validator_vote_account) {
        lemma_update_keeps_unique(validators, index as int, validators[index as int].after_merge());
    }
}

/// Adding and removing maintainers keeps their identities distinct, and
/// adding keeps the registry within its capacity.
pub proof fn lemma_maintainer_changes_keep_identities_unique(
    lido: Lido,
    maintainers: Seq<Maintainer>,
    capacity: u32,
    manager: SignerAccount,
    key: Pubkey,
    index: u32,
)
    requires
        unique_keys(maintainers),
        maintainers.len() <= capacity,
    ensures
        match add_maintainer_outcome(lido, maintainers, capacity, manager, key) {
            Ok(extended) => unique_keys(extended) && extended.len() <= capacity,
            Err(_) => true,
        },
        match remove_maintainer_outcome(lido, maintainers, index, manager, key) {
            Ok(remaining) => unique_keys(remaining),
            Err(_) => true,
        },
{
    if position_of(maintainers, key) is None {
        lemma_not_found_is_absent(maintainers, key, maintainers.len());
        lemma_push_keeps_unique(maintainers, Maintainer { pubkey: key });
    }
    if holds(maintainers, index, key) {
        lemma_remove_keeps_unique(maintainers, index as int);
    }
}

/// Deactivation by the manager is idempotent and never reactivates: where it
/// succeeds, the entry is inactive, and asking again changes nothing.
pub proof fn lemma_deactivate_validator_is_idempotent(
    lido: Lido,
    validators: Seq<Validator>,
    index: u32,
    manager: SignerAccount,
    key: Pubkey,
)
    requires
        deactivate_validator_outcome(lido, validators, index, manager, key) is Ok,
    ensures
        ({
            let once = deactivate_validator_outcome(lido, validators, index, manager, key);
            &&& !once->Ok_0[index as int].active
            &&& deactivate_validator_outcome(lido, once->Ok_0, index, manager, key) == once
        }),
{
    let once = validators.update(index as int, validators[index as int].deactivated());
    assert(once.update(index as int, once[index as int].deactivated()) =~= once);
}

/// A commission limit above 100 percent is refused with
/// `ValidationCommissionOutOfBounds`, whoever asks; a limit of at most 100
/// percent is accepted from the manager.
pub proof fn lemma_change_criteria_bounds(lido: Lido, new_criteria: Criteria, manager: SignerAccount)
    ensures
        new_criteria.max_commission > 100 ==> change_criteria_error(lido, new_criteria, manager)
            == Some(LidoError::ValidationCommissionOutOfBounds),
        new_criteria.max_commission <= 100 && lido.is_manager(manager) ==> change_criteria_error(
            lido,
            new_criteria,
            manager,
        ) is None,
{
}

/// A validator with fewer than two stake accounts has nothing to merge:
/// asking for a merge under its own identity fails with
/// `InvalidStakeAccount`, whatever stake accounts are named.
pub proof fn lemma_merge_needs_two_stake_accounts(
    validators: Seq<Validator>,
    index: u32,
    accounts: MergeStakeAccounts,
    from_derived: Option<Seq<u8>>,
    to_derived: Option<Seq<u8>>,
)
    requires
        holds(validators, index, accounts.validator_vote_account),
        validators[index as int].stake_seeds.end - validators[index as int].stake_seeds.begin < 2,
    ensures
        merge_stake_outcome(validators, index, accounts, from_derived, to_derived) == Err::<
            Seq<Validator>,
            LidoError,
        >(LidoError::InvalidStakeAccount),
{
}

/// A successful merge moves the beginning of the validator's range of seeds
/// up by exactly one and changes nothing else: the end of the range, the
/// flag, the balance and every other entry stay. The seed that was merged
/// away is no longer in the range, and a well-formed range stays well formed.
pub proof fn lemma_merge_retires_one_seed(
    validators: Seq<Validator>,
    index: u32,
    accounts: MergeStakeAccounts,
    from_derived: Option<Seq<u8>>,
    to_derived: Option<Seq<u8>>,
)
    requires
        merge_stake_outcome(validators, index, accounts, from_derived, to_derived) is Ok,
    ensures
        ({
            let merged = merge_stake_outcome(
                validators,
                index,
                accounts,
                from_derived,
                to_derived,
            )->Ok_0;
            let before = validators[index as int];
            let after = merged[index as int];
            &&& merged.len() == validators.len()
            &&& after.stake_seeds.begin == before.stake_seeds.begin + 1
            &&& after.stake_seeds.end == before.stake_seeds.end
            &&& after.stake_seeds.wf()
            &&& !after.stake_seeds.contains(before.stake_seeds.begin)
            &&& after.vote_account_address == before.vote_account_address
            &&& after.active == before.active
            &&& after.undelegated_balance == before.undelegated_balance
            &&& forall|j: int| 0 <= j < validators.len() && j != index ==> merged[j] == validators[j]
        }),
{
}

/// The validator after `count` merges in a row, as long as each finds two
/// stake accounts to merge; the merges stop at the first that does not.
pub open spec fn after_merges(validator: Validator, count: nat) -> Validator
    decreases count,
{
    if count == 0 || !validator.can_merge() {
        validator
    } else {
        after_merges(validator.after_merge(), (count - 1) as nat)
    }
}

/// A seed that a merge has retired never comes back: however many merges
/// follow, the range of seeds begins after it.
pub proof fn lemma_merged_seed_stays_retired(validator: Validator, count: nat)
    requires
        validator.can_merge(),
    ensures
        after_merges(validator.after_merge(), count).stake_seeds.begin
            > validator.stake_seeds.begin,
        !after_merges(validator.after_merge(), count).stake_seeds.contains(
            validator.stake_seeds.begin,
        ),
        after_merges(validator.after_merge(), count).stake_seeds.end == validator.stake_seeds.end,
    decreases count,
{
    let next = validator.after_merge();
    if count > 0 && next.can_merge() {
        lemma_merged_seed_stays_retired(next, (count - 1) as nat);
    }
}

} // verus!
