//! The pool configuration and the entries of its registries.

use vstd::prelude::*;
use crate::account::{SignerAccount, TokenAccount};
use crate::error::LidoError;
use crate::list::{unique_keys, ListEntry};
use crate::pubkey::{program_address, try_find_program_address, Pubkey};

verus! {

/// The highest commission, in percent, that the criteria may allow.
pub const MAX_COMMISSION_PERCENT: u8 = 100;

/// Whether a validator without a performance snapshot counts as meeting the
/// performance thresholds: having no data is not held against a validator.
pub const ABSENT_PERFORMANCE_MEETS_CRITERIA: bool = true;

/// The thresholds a validator has to meet to stay active.
#[derive(Clone, Copy, Debug, PartialEq, Eq)]
pub struct Criteria {
    /// The highest commission, in percent, a validator may charge.
    pub max_commission: u8,
    /// The lowest acceptable rate of produced blocks.
    pub min_block_production_rate: u64,
    /// The lowest acceptable rate of successful votes.
    pub min_vote_success_rate: u64,
    /// The lowest acceptable uptime.
    pub min_uptime: u64,
}

impl Criteria {
    /// The commission limit is a percentage.
    pub open spec fn wf(&self) -> bool {
        self.max_commission <= MAX_COMMISSION_PERCENT
    }

    /// Accepts the criteria only if the commission limit is a percentage.
    pub fn check_commission_bound(&self) -> (result: Result<(), LidoError>)
        ensures
            self.wf() ==> result is Ok,
            !self.wf() ==> result == Err::<(), LidoError>(
                LidoError::ValidationCommissionOutOfBounds,
            ),
    {
        if self.max_commission > MAX_COMMISSION_PERCENT {
            Err(LidoError::ValidationCommissionOutOfBounds)
        } else {
            Ok(())
        }
    }
}

/// The weights by which staking rewards are split.
#[derive(Clone, Copy, Debug, PartialEq, Eq)]
pub struct RewardDistribution {
    pub treasury_fee: u32,
    pub developer_fee: u32,
    pub st_sol_appreciation: u32,
}

/// The accounts that receive the fees.
#[derive(Clone, Copy, Debug, PartialEq, Eq)]
pub struct FeeRecipients {
    pub treasury_account: Pubkey,
    pub developer_account: Pubkey,
}

/// The address of the token program, which owns every token account:
/// `TokenkegQfeZyiNwAJbNbGKPFXCWuBvf9Ss623VQ5DA`.
pub open spec fn token_program_address() -> Pubkey {
    Pubkey {
        bytes: [
            6, 221, 246, 225, 215, 101, 161, 147, 217, 203, 225, 70, 206, 235, 121, 172,
            28, 180, 133, 237, 95, 91, 55, 145, 58, 140, 245, 133, 126, 255, 0, 169,
        ],
    }
}

/// The address of the token program.
pub fn token_program_id() -> (id: Pubkey)
    ensures
        id == token_program_address(),
{
    Pubkey {
        bytes: [
            6, 221, 246, 225, 215, 101, 161, 147, 217, 203, 225, 70, 206, 235, 121, 172,
            28, 180, 133, 237, 95, 91, 55, 145, 58, 140, 245, 133, 126, 255, 0, 169,
        ],
    }
}

/// The configuration of one pool.
#[derive(Clone, Copy, Debug, PartialEq, Eq)]
pub struct Lido {
    /// The identity that may change the configuration and the registries.
    pub manager: Pubkey,
    /// The mint of the pool's own token.
    pub st_sol_mint: Pubkey,
    /// The thresholds validators have to meet.
    pub criteria: Criteria,
    /// How rewards are split.
    pub reward_distribution: RewardDistribution,
    /// Who receives the fees.
    pub fee_recipients: FeeRecipients,
    /// The bump seed of the authority that signs for the pool's stake accounts.
    pub stake_authority_bump_seed: u8,
    /// The address of the validator registry.
    pub validator_list: Pubkey,
    /// The address of the registry of performance snapshots.
    pub validator_perf_list: Pubkey,
    /// The address of the maintainer registry.
    pub maintainer_list: Pubkey,
}

impl Lido {
    /// Whether `account` is the pool's manager and has signed.
    pub open spec fn is_manager(&self, account: SignerAccount) -> bool {
        account.is_signer && account.key == self.manager
    }

    /// Whether `account` is a token account that holds the pool's own token.
    pub open spec fn is_st_sol_account(&self, account: TokenAccount) -> bool {
        account.owner == token_program_address() && account.mint == Some(self.st_sol_mint)
    }

    /// Accepts `manager` only if it is the pool's manager and has signed.
    pub fn check_manager(&self, manager: &SignerAccount) -> (result: Result<(), LidoError>)
        ensures
            self.is_manager(*manager) ==> result is Ok,
            !self.is_manager(*manager) ==> result == Err::<(), LidoError>(LidoError::Unauthorized),
    {
        if manager.is_signer && manager.key == self.manager {
            Ok(())
        } else {
            Err(LidoError::Unauthorized)
        }
    }

    /// Accepts `account` only if it is a token account of the pool's mint.
    pub fn check_is_st_sol_account(&self, account: &TokenAccount) -> (result: Result<
        (),
        LidoError,
    >)
        ensures
            self.is_st_sol_account(*account) ==> result is Ok,
            !self.is_st_sol_account(*account) ==> result == Err::<(), LidoError>(
                LidoError::InvalidFeeRecipient,
            ),
    {
        if !(account.owner == token_program_id()) {
            return Err(LidoError::InvalidFeeRecipient);
        }
        match account.mint {
            Some(mint) => {
                if mint == self.st_sol_mint {
                    Ok(())
                } else {
                    Err(LidoError::InvalidFeeRecipient)
                }
            },
            None => Err(LidoError::InvalidFeeRecipient),
        }
    }
}

/// A contiguous range of seeds, `begin` included and `end` excluded, each of
/// which names one stake account of a validator.
#[derive(Clone, Copy, Debug, PartialEq, Eq)]
pub struct SeedRange {
    pub begin: u64,
    pub end: u64,
}

impl SeedRange {
    /// The range does not end before it begins.
    pub open spec fn wf(&self) -> bool {
        self.begin <= self.end
    }

    /// Whether the range names the stake account with seed `seed`.
    pub open spec fn contains(&self, seed: u64) -> bool {
        self.begin <= seed < self.end
    }
}

/// A validator that the pool delegates stake to.
#[derive(Clone, Copy, Debug, PartialEq, Eq)]
pub struct Validator {
    /// The validator's vote account, which is its identity.
    pub vote_account_address: Pubkey,
    /// The seeds of the validator's stake accounts. Fully active accounts
    /// have the lowest seeds, activating ones the highest.
    pub stake_seeds: SeedRange,
    /// The balance held for the validator that is not delegated.
    pub undelegated_balance: u64,
    /// Whether new stake may be delegated to the validator. Once cleared, the
    /// flag is never set again.
    pub active: bool,
}

impl ListEntry for Validator {
    open spec fn key(&self) -> Pubkey {
        self.vote_account_address
    }

    fn pubkey(&self) -> (key: &Pubkey) {
        &self.vote_account_address
    }
}

/// What holds of the validator registry whatever operations it went through:
/// no two validators have the same identity, and no range of seeds ends
/// before it begins.
pub open spec fn valid_validators(validators: Seq<Validator>) -> bool {
    &&& unique_keys(validators)
    &&& forall|j: int| 0 <= j < validators.len() ==> (#[trigger] validators[j]).stake_seeds.wf()
}

/// The bytes of `validator_stake_account`, the seed that marks the address of
/// a validator's stake account.
pub open spec fn validator_stake_account_seed() -> Seq<u8> {
    seq![
        118u8, 97, 108, 105, 100, 97, 116, 111, 114, 95, 115, 116, 97, 107, 101, 95, 97, 99, 99,
        111, 117, 110, 116,
    ]
}

/// The eight bytes of `seed`, lowest first.
pub open spec fn seed_le_bytes(seed: u64) -> Seq<u8> {
    seq![
        (seed % 0x100) as u8,
        (seed / 0x100 % 0x100) as u8,
        (seed / 0x1_0000 % 0x100) as u8,
        (seed / 0x100_0000 % 0x100) as u8,
        (seed / 0x1_0000_0000 % 0x100) as u8,
        (seed / 0x100_0000_0000 % 0x100) as u8,
        (seed / 0x1_0000_0000_0000 % 0x100) as u8,
        (seed / 0x100_0000_0000_0000 % 0x100) as u8,
    ]
}

/// The seeds from which the address of a stake account is derived: the pool,
/// the validator, the marker, and the number of the stake account.
pub open spec fn stake_account_seeds(lido: Pubkey, vote_account: Pubkey, seed: u64) -> Seq<
    Seq<u8>,
> {
    seq![lido@, vote_account@, validator_stake_account_seed(), seed_le_bytes(seed)]
}

/// The address of the stake account with number `seed` that the validator
/// `vote_account` has in the pool `lido`, run by the program `program_id`,
/// as its bytes; `None` if no address can be derived.
pub open spec fn stake_account_address(
    program_id: Pubkey,
    lido: Pubkey,
    vote_account: Pubkey,
    seed: u64,
) -> Option<Seq<u8>> {
    match program_address(stake_account_seeds(lido, vote_account, seed), program_id@) {
        Some((address, _)) => Some(address),
        None => None,
    }
}

/// The bytes of `key`, as a seed.
pub(crate) fn pubkey_seed(key: &Pubkey) -> (bytes: Vec<u8>)
    ensures
        bytes@ == key@,
{
    let mut bytes: Vec<u8> = Vec::new();
    let mut i: usize = 0;
    while i < 32
        invariant
            i <= 32,
            bytes@ == key@.subrange(0, i as int),
        decreases 32 - i,
    {
        bytes.push(key.bytes[i]);
        i += 1;
    }
    bytes
}

/// The marker seed of a validator's stake account.
fn stake_account_marker() -> (bytes: Vec<u8>)
    ensures
        bytes@ == validator_stake_account_seed(),
{
    let bytes: Vec<u8> = vec![
        118u8, 97, 108, 105, 100, 97, 116, 111, 114, 95, 115, 116, 97, 107, 101, 95, 97, 99, 99,
        111, 117, 110, 116,
    ];
    bytes
}

/// The number of a stake account, as a seed.
fn seed_number(seed: u64) -> (bytes: Vec<u8>)
    ensures
        bytes@ == seed_le_bytes(seed),
{
    let bytes: Vec<u8> = vec![
        (seed % 0x100) as u8,
        (seed / 0x100 % 0x100) as u8,
        (seed / 0x1_0000 % 0x100) as u8,
        (seed / 0x100_0000 % 0x100) as u8,
        (seed / 0x1_0000_0000 % 0x100) as u8,
        (seed / 0x100_0000_0000 % 0x100) as u8,
        (seed / 0x1_0000_0000_0000 % 0x100) as u8,
        (seed / 0x100_0000_0000_0000 % 0x100) as u8,
    ];
    bytes
}

impl Validator {
    /// A validator is removable once it is inactive, has no stake accounts
    /// left and holds no balance.
    pub open spec fn is_removable(&self) -> bool {
        !self.active && self.stake_seeds.begin == self.stake_seeds.end && self.undelegated_balance
            == 0
    }

    /// Whether the validator has two stake accounts that can be merged.
    pub open spec fn can_merge(&self) -> bool {
        self.stake_seeds.begin + 1 < self.stake_seeds.end
    }

    /// The validator as it is after its two oldest stake accounts were
    /// merged: the range of seeds begins one later.
    pub open spec fn after_merge(&self) -> Validator {
        Validator {
            stake_seeds: SeedRange {
                begin: (self.stake_seeds.begin + 1) as u64,
                end: self.stake_seeds.end,
            },
            ..*self
        }
    }

    /// The validator as it is after deactivation.
    pub open spec fn deactivated(&self) -> Validator {
        Validator { active: false, ..*self }
    }

    /// A new validator: active, without stake accounts or balance.
    pub open spec fn fresh(vote_account_address: Pubkey) -> Validator {
        Validator {
            vote_account_address,
            stake_seeds: SeedRange { begin: 0, end: 0 },
            undelegated_balance: 0,
            active: true,
        }
    }

    /// A new validator: active, without stake accounts or balance.
    pub fn new(vote_account_address: Pubkey) -> (validator: Validator)
        ensures
            validator == Validator::fresh(vote_account_address),
    {
        Validator {
            vote_account_address,
            stake_seeds: SeedRange { begin: 0, end: 0 },
            undelegated_balance: 0,
            active: true,
        }
    }

    /// Clears the `active` flag. Nothing else changes, and nothing changes if
    /// the validator is inactive already.
    pub fn deactivate(&mut self)
        ensures
            *final(self) == old(self).deactivated(),
    {
        self.active = false;
    }

    /// Accepts the validator for removal only if it is removable.
    pub fn check_can_be_removed(&self) -> (result: Result<(), LidoError>)
        ensures
            self.is_removable() ==> result is Ok,
            !self.is_removable() ==> result == Err::<(), LidoError>(
                LidoError::ValidatorNotRemovable,
            ),
    {
        if self.active || self.stake_seeds.begin != self.stake_seeds.end
            || self.undelegated_balance != 0 {
            Err(LidoError::ValidatorNotRemovable)
        } else {
            Ok(())
        }
    }

    /// Derives the address of the validator's stake account with number
    /// `seed`, and the bump seed that goes with it.
    pub fn find_stake_account_address(
        &self,
        program_id: &Pubkey,
        lido_address: &Pubkey,
        seed: u64,
    ) -> (found: Option<(Pubkey, u8)>)
        ensures
            match found {
                Some((address, bump)) => program_address(
                    stake_account_seeds(*lido_address, self.vote_account_address, seed),
                    program_id@,
                ) == Some((address@, bump)),
                None => program_address(
                    stake_account_seeds(*lido_address, self.vote_account_address, seed),
                    program_id@,
                ) is None,
            },
            found is Some <==> stake_account_address(
                *program_id,
                *lido_address,
                self.vote_account_address,
                seed,
            ) is Some,
            found matches Some((address, _)) ==> stake_account_address(
                *program_id,
                *lido_address,
                self.vote_account_address,
                seed,
            ) == Some(address@),
    {
        let mut seeds: Vec<Vec<u8>> = Vec::new();
        seeds.push(pubkey_seed(lido_address));
        seeds.push(pubkey_seed(&self.vote_account_address));
        seeds.push(stake_account_marker());
        seeds.push(seed_number(seed));
        proof {
            assert(seeds.deep_view() =~~= stake_account_seeds(
                *lido_address,
                self.vote_account_address,
                seed,
            ));
        }
        try_find_program_address(&seeds, program_id)
    }
}

/// An address trusted to run the pool's maintenance operations.
#[derive(Clone, Copy, Debug, PartialEq, Eq)]
pub struct Maintainer {
    /// The identity of the maintainer.
    pub pubkey: Pubkey,
}

impl Maintainer {
    /// The maintainer with the given identity.
    pub fn new(pubkey: Pubkey) -> (maintainer: Maintainer)
        ensures
            maintainer == (Maintainer { pubkey }),
    {
        Maintainer { pubkey }
    }
}

impl ListEntry for Maintainer {
    open spec fn key(&self) -> Pubkey {
        self.pubkey
    }

    fn pubkey(&self) -> (key: &Pubkey) {
        &self.pubkey
    }
}

/// A snapshot of how a validator has performed, as observed off-chain.
#[derive(Clone, Copy, Debug, PartialEq, Eq)]
pub struct ValidatorPerf {
    /// The validator the snapshot is about.
    pub validator_vote_account_address: Pubkey,
    /// The observed rate of produced blocks.
    pub block_production_rate: u64,
    /// The observed rate of successful votes.
    pub vote_success_rate: u64,
    /// The observed uptime.
    pub uptime: u64,
}

impl ValidatorPerf {
    /// Whether the snapshot reaches every performance threshold of `criteria`.
    pub open spec fn meets(&self, criteria: Criteria) -> bool {
        &&& self.block_production_rate >= criteria.min_block_production_rate
        &&& self.vote_success_rate >= criteria.min_vote_success_rate
        &&& self.uptime >= criteria.min_uptime
    }

    /// Whether the snapshot reaches every performance threshold of `criteria`.
    pub fn meets_criteria(&self, criteria: &Criteria) -> (meets: bool)
        ensures
            meets == self.meets(*criteria),
    {
        self.block_production_rate >= criteria.min_block_production_rate
            && self.vote_success_rate >= criteria.min_vote_success_rate && self.uptime
            >= criteria.min_uptime
    }
}

impl ListEntry for ValidatorPerf {
    open spec fn key(&self) -> Pubkey {
        self.validator_vote_account_address
    }

    fn pubkey(&self) -> (key: &Pubkey) {
        &self.validator_vote_account_address
    }
}

} // verus!
