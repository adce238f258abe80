use lido::account::MergeStakeAccounts;
use lido::error::LidoError;
use lido::instruction::{
    clock_sysvar_id, stake_history_sysvar_id, stake_program_id, AccountMeta, Instruction,
};
use lido::list::AccountList;
use lido::process_management::{merge_stake_accounts, process_merge_stake, MergeRequest};
use lido::pubkey::Pubkey;
use lido::state::{Criteria, FeeRecipients, Lido, RewardDistribution, SeedRange, Validator};
use std::str::FromStr;

const PROGRAM: u8 = 100;
const POOL: u8 = 101;
const AUTHORITY: u8 = 102;
const BUMP: u8 = 253;

fn key(byte: u8) -> Pubkey {
    Pubkey::new_from_array([byte; 32])
}

fn outside(key: &Pubkey) -> solana_program::pubkey::Pubkey {
    solana_program::pubkey::Pubkey::new_from_array(key.to_bytes())
}

fn named(address: &str) -> Pubkey {
    Pubkey::new_from_array(solana_program::pubkey::Pubkey::from_str(address).unwrap().to_bytes())
}

fn pool() -> Lido {
    Lido {
        manager: key(1),
        st_sol_mint: key(2),
        criteria: Criteria {
            max_commission: 5,
            min_block_production_rate: 0,
            min_vote_success_rate: 0,
            min_uptime: 0,
        },
        reward_distribution: RewardDistribution {
            treasury_fee: 1,
            developer_fee: 1,
            st_sol_appreciation: 1,
        },
        fee_recipients: FeeRecipients { treasury_account: key(3), developer_account: key(4) },
        stake_authority_bump_seed: BUMP,
        validator_list: key(5),
        validator_perf_list: key(6),
        maintainer_list: key(7),
    }
}

fn validator(byte: u8, begin: u64, end: u64) -> Validator {
    Validator {
        vote_account_address: key(byte),
        stake_seeds: SeedRange { begin, end },
        undelegated_balance: 9,
        active: true,
    }
}

fn registry(entries: &[Validator]) -> AccountList<Validator> {
    let mut list = AccountList::new(8);
    for entry in entries {
        list.push(*entry).unwrap();
    }
    list
}

/// The address of a stake account, derived with the outside crate alone.
fn stake_address(vote_account: u8, seed: u64) -> Pubkey {
    let (address, _) = solana_program::pubkey::Pubkey::find_program_address(
        &[&[POOL; 32], &[vote_account; 32], b"validator_stake_account", &seed.to_le_bytes()],
        &outside(&key(PROGRAM)),
    );
    Pubkey::new_from_array(address.to_bytes())
}

fn accounts(vote_account: u8, from_seed: u64) -> MergeStakeAccounts {
    MergeStakeAccounts {
        validator_vote_account: key(vote_account),
        from_stake: stake_address(vote_account, from_seed),
        to_stake: stake_address(vote_account, from_seed + 1),
        stake_authority: key(AUTHORITY),
    }
}

fn expected_request(accounts: &MergeStakeAccounts) -> MergeRequest {
    let meta = |pubkey: Pubkey, is_signer: bool, is_writable: bool| AccountMeta {
        pubkey,
        is_signer,
        is_writable,
    };
    MergeRequest {
        instruction: Instruction {
            program_id: named("Stake11111111111111111111111111111111111111"),
            accounts: vec![
                meta(accounts.to_stake, false, true),
                meta(accounts.from_stake, false, true),
                meta(named("SysvarC1ock11111111111111111111111111111111"), false, false),
                meta(named("SysvarStakeHistory1111111111111111111111111"), false, false),
                meta(accounts.stake_authority, true, false),
            ],
            data: vec![7, 0, 0, 0],
        },
        signer_seeds: vec![vec![POOL; 32], b"stake_authority".to_vec(), vec![BUMP]],
    }
}

fn merge(
    validators: &mut AccountList<Validator>,
    index: u32,
    accounts: &MergeStakeAccounts,
) -> Result<MergeRequest, LidoError> {
    process_merge_stake(&key(PROGRAM), &pool(), &key(POOL), validators, index, accounts)
}

#[test]
fn find_stake_account_address_derives_as_the_chain_does() {
    for (vote_account, seed) in [(1u8, 0u64), (1, 1), (2, 255), (3, 256), (4, 0x0102_0304_0506_0708), (5, u64::MAX)] {
        let (expected, expected_bump) = solana_program::pubkey::Pubkey::find_program_address(
            &[&[POOL; 32], &[vote_account; 32], b"validator_stake_account", &seed.to_le_bytes()],
            &outside(&key(PROGRAM)),
        );
        let found = validator(vote_account, 0, 0).find_stake_account_address(
            &key(PROGRAM),
            &key(POOL),
            seed,
        );
        assert_eq!(found, Some((Pubkey::new_from_array(expected.to_bytes()), expected_bump)));
        let (address, _) = found.unwrap();
        assert_ne!(address, key(PROGRAM));
        assert_ne!(address, key(POOL));
        assert_ne!(address, key(vote_account));
    }
}

#[test]
fn stake_account_addresses_differ_by_seed_validator_pool_and_program() {
    let base = validator(1, 0, 0).find_stake_account_address(&key(PROGRAM), &key(POOL), 0);
    assert_ne!(base, validator(1, 0, 0).find_stake_account_address(&key(PROGRAM), &key(POOL), 1));
    assert_ne!(base, validator(2, 0, 0).find_stake_account_address(&key(PROGRAM), &key(POOL), 0));
    assert_ne!(base, validator(1, 0, 0).find_stake_account_address(&key(PROGRAM), &key(9), 0));
    assert_ne!(base, validator(1, 0, 0).find_stake_account_address(&key(9), &key(POOL), 0));
    assert_eq!(base, validator(1, 5, 8).find_stake_account_address(&key(PROGRAM), &key(POOL), 0));
}

#[test]
fn merge_stake_moves_the_range_and_asks_for_the_merge() {
    let mut validators = registry(&[validator(1, 0, 0), validator(2, 4, 9)]);
    let named_accounts = accounts(2, 4);
    let request = merge(&mut validators, 1, &named_accounts);
    assert_eq!(request, Ok(expected_request(&named_accounts)));
    assert_eq!(validators.get(1, &key(2)), Ok(&validator(2, 5, 9)));
    assert_eq!(validators.get(0, &key(1)), Ok(&validator(1, 0, 0)));
    assert_eq!(validators.len(), 2);
}

#[test]
fn merge_request_is_what_the_stake_program_expects() {
    let mut validators = registry(&[validator(1, 0, 2)]);
    let named_accounts = accounts(1, 0);
    let request = merge(&mut validators, 0, &named_accounts).unwrap();
    let built = solana_program::stake::instruction::merge(
        &outside(&named_accounts.to_stake),
        &outside(&named_accounts.from_stake),
        &outside(&named_accounts.stake_authority),
    );
    assert_eq!(built.len(), 1);
    assert_eq!(outside(&request.instruction.program_id), built[0].program_id);
    assert_eq!(outside(&request.instruction.program_id), solana_program::stake::program::id());
    assert_eq!(request.instruction.data, built[0].data);
    assert_eq!(request.instruction.accounts.len(), built[0].accounts.len());
    for (ours, theirs) in request.instruction.accounts.iter().zip(built[0].accounts.iter()) {
        assert_eq!(outside(&ours.pubkey), theirs.pubkey);
        assert_eq!(ours.is_signer, theirs.is_signer);
        assert_eq!(ours.is_writable, theirs.is_writable);
    }
    assert_eq!(
        outside(&request.instruction.accounts[2].pubkey),
        solana_program::sysvar::clock::id()
    );
    assert_eq!(
        outside(&request.instruction.accounts[3].pubkey),
        solana_program::sysvar::stake_history::id()
    );
}

#[test]
fn merge_stake_three_accounts_down_to_one() {
    let mut validators = registry(&[validator(1, 0, 3)]);
    let first = accounts(1, 0);
    assert_eq!(merge(&mut validators, 0, &first), Ok(expected_request(&first)));
    assert_eq!(validators.get(0, &key(1)).unwrap().stake_seeds, SeedRange { begin: 1, end: 3 });
    // The account that was merged away cannot be merged again.
    assert_eq!(merge(&mut validators, 0, &first), Err(LidoError::InvalidStakeAccount));
    assert_eq!(validators.get(0, &key(1)).unwrap().stake_seeds, SeedRange { begin: 1, end: 3 });
    let second = accounts(1, 1);
    assert_eq!(merge(&mut validators, 0, &second), Ok(expected_request(&second)));
    assert_eq!(validators.get(0, &key(1)).unwrap().stake_seeds, SeedRange { begin: 2, end: 3 });
    // One stake account is left: there is nothing to merge it with.
    assert_eq!(merge(&mut validators, 0, &accounts(1, 2)), Err(LidoError::InvalidStakeAccount));
    assert_eq!(validators.get(0, &key(1)), Ok(&validator(1, 2, 3)));
}

#[test]
fn merge_stake_with_fewer_than_two_accounts_fails() {
    for (begin, end) in [(0u64, 0u64), (0, 1), (3, 3), (3, 4), (5, 2), (u64::MAX, u64::MAX), (u64::MAX - 1, u64::MAX), (u64::MAX, 0)] {
        let mut validators = registry(&[validator(1, begin, end)]);
        let named_accounts = accounts(1, begin.min(u64::MAX - 1));
        assert_eq!(merge(&mut validators, 0, &named_accounts), Err(LidoError::InvalidStakeAccount));
        assert_eq!(validators.get(0, &key(1)), Ok(&validator(1, begin, end)));
    }
}

#[test]
fn merge_stake_at_the_top_of_the_seed_space() {
    let mut validators = registry(&[validator(1, u64::MAX - 2, u64::MAX)]);
    let named_accounts = accounts(1, u64::MAX - 2);
    assert_eq!(merge(&mut validators, 0, &named_accounts), Ok(expected_request(&named_accounts)));
    assert_eq!(validators.get(0, &key(1)), Ok(&validator(1, u64::MAX - 1, u64::MAX)));
}

#[test]
fn merge_stake_wants_the_derived_from_account() {
    let mut validators = registry(&[validator(1, 0, 3)]);
    let mut named_accounts = accounts(1, 0);
    named_accounts.from_stake = stake_address(1, 2);
    assert_eq!(merge(&mut validators, 0, &named_accounts), Err(LidoError::InvalidStakeAccount));
    named_accounts.from_stake = stake_address(2, 0);
    assert_eq!(merge(&mut validators, 0, &named_accounts), Err(LidoError::InvalidStakeAccount));
    named_accounts.from_stake = key(50);
    assert_eq!(merge(&mut validators, 0, &named_accounts), Err(LidoError::InvalidStakeAccount));
    assert_eq!(validators.get(0, &key(1)), Ok(&validator(1, 0, 3)));
}

#[test]
fn merge_stake_wants_the_derived_to_account() {
    let mut validators = registry(&[validator(1, 0, 3)]);
    let mut named_accounts = accounts(1, 0);
    named_accounts.to_stake = stake_address(1, 2);
    assert_eq!(merge(&mut validators, 0, &named_accounts), Err(LidoError::InvalidStakeAccount));
    named_accounts.to_stake = named_accounts.from_stake;
    assert_eq!(merge(&mut validators, 0, &named_accounts), Err(LidoError::InvalidStakeAccount));
    assert_eq!(validators.get(0, &key(1)), Ok(&validator(1, 0, 3)));
}

#[test]
fn merge_stake_with_stale_position_fails() {
    let mut validators = registry(&[validator(1, 0, 3), validator(2, 0, 3)]);
    assert_eq!(merge(&mut validators, 0, &accounts(2, 0)), Err(LidoError::StaleIndex));
    assert_eq!(merge(&mut validators, 2, &accounts(2, 0)), Err(LidoError::StaleIndex));
    assert_eq!(validators.get(0, &key(1)), Ok(&validator(1, 0, 3)));
    assert_eq!(validators.get(1, &key(2)), Ok(&validator(2, 0, 3)));
}

#[test]
fn merge_stake_accounts_goes_by_the_derived_addresses() {
    let named_accounts = MergeStakeAccounts {
        validator_vote_account: key(1),
        from_stake: key(10),
        to_stake: key(11),
        stake_authority: key(AUTHORITY),
    };
    let lido = pool();
    let mut validators = registry(&[validator(1, 6, 8)]);
    let cases = [
        (None, Some(key(11))),
        (Some(key(10)), None),
        (Some(key(11)), Some(key(10))),
        (Some(key(10)), Some(key(10))),
        (None, None),
    ];
    for (from_derived, to_derived) in cases {
        assert_eq!(
            merge_stake_accounts(&lido, &key(POOL), &mut validators, 0, &named_accounts, from_derived, to_derived),
            Err(LidoError::InvalidStakeAccount)
        );
        assert_eq!(validators.get(0, &key(1)), Ok(&validator(1, 6, 8)));
    }
    assert_eq!(
        merge_stake_accounts(&lido, &key(POOL), &mut validators, 1, &named_accounts, Some(key(10)), Some(key(11))),
        Err(LidoError::StaleIndex)
    );
    assert_eq!(
        merge_stake_accounts(&lido, &key(POOL), &mut validators, 0, &named_accounts, Some(key(10)), Some(key(11))),
        Ok(expected_request(&named_accounts))
    );
    assert_eq!(validators.get(0, &key(1)), Ok(&validator(1, 7, 8)));
    assert_eq!(
        merge_stake_accounts(&lido, &key(POOL), &mut validators, 0, &named_accounts, Some(key(10)), Some(key(11))),
        Err(LidoError::InvalidStakeAccount)
    );
}

#[test]
fn program_and_sysvar_addresses_are_those_of_the_chain() {
    assert_eq!(outside(&stake_program_id()), solana_program::stake::program::id());
    assert_eq!(outside(&clock_sysvar_id()), solana_program::sysvar::clock::id());
    assert_eq!(outside(&stake_history_sysvar_id()), solana_program::sysvar::stake_history::id());
    assert_eq!(stake_program_id(), named("Stake11111111111111111111111111111111111111"));
    assert_eq!(clock_sysvar_id(), named("SysvarC1ock11111111111111111111111111111111"));
    assert_eq!(stake_history_sysvar_id(), named("SysvarStakeHistory1111111111111111111111111"));
}

#[test]
fn merge_request_names_the_stated_program_and_sysvars() {
    let mut validators = registry(&[validator(1, 0, 2)]);
    let request = merge(&mut validators, 0, &accounts(1, 0)).unwrap();
    assert_eq!(request.instruction.program_id, stake_program_id());
    assert_eq!(request.instruction.accounts[2].pubkey, clock_sysvar_id());
    assert_eq!(request.instruction.accounts[3].pubkey, stake_history_sysvar_id());
}
