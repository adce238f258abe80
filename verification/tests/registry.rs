use lido::error::LidoError;
use lido::list::{AccountList, ListEntry};
use lido::pubkey::Pubkey;
use lido::state::{Maintainer, SeedRange, Validator, ValidatorPerf};

fn key(byte: u8) -> Pubkey {
    Pubkey::new_from_array([byte; 32])
}

fn maintainers(keys: &[u8], capacity: u32) -> AccountList<Maintainer> {
    let mut list = AccountList::new(capacity);
    for byte in keys {
        assert_eq!(list.push(Maintainer::new(key(*byte))), Ok(()));
    }
    list
}

#[test]
fn pubkey_equality_goes_by_bytes() {
    let mut bytes = [7u8; 32];
    let a = Pubkey::new_from_array(bytes);
    assert_eq!(a, Pubkey::new_from_array([7u8; 32]));
    assert_eq!(a.to_bytes(), bytes);
    bytes[31] = 8;
    assert_ne!(a, Pubkey::new_from_array(bytes));
    bytes[31] = 7;
    bytes[0] = 0;
    assert_ne!(a, Pubkey::new_from_array(bytes));
}

#[test]
fn new_registry_is_empty() {
    let list: AccountList<Validator> = AccountList::new(3);
    assert_eq!(list.len(), 0);
    assert!(list.is_empty());
    assert_eq!(list.max_entries(), 3);
    assert_eq!(list.find(&key(1)), None);
    assert_eq!(list.get(0, &key(1)), Err(LidoError::StaleIndex));
}

#[test]
fn push_appends_in_order() {
    let list = maintainers(&[5, 3, 9], 4);
    assert_eq!(list.len(), 3);
    assert!(!list.is_empty());
    assert_eq!(list.get(0, &key(5)), Ok(&Maintainer { pubkey: key(5) }));
    assert_eq!(list.get(1, &key(3)), Ok(&Maintainer { pubkey: key(3) }));
    assert_eq!(list.get(2, &key(9)), Ok(&Maintainer { pubkey: key(9) }));
}

#[test]
fn push_fails_when_full() {
    let mut list = maintainers(&[1, 2], 2);
    assert_eq!(list.push(Maintainer::new(key(3))), Err(LidoError::RegistryFull));
    assert_eq!(list.len(), 2);
    assert_eq!(list.find(&key(3)), None);
}

#[test]
fn push_into_registry_without_room_fails() {
    let mut list: AccountList<Maintainer> = AccountList::new(0);
    assert_eq!(list.push(Maintainer::new(key(1))), Err(LidoError::RegistryFull));
    assert!(list.is_empty());
}

#[test]
fn get_checks_identity_and_position() {
    let list = maintainers(&[1, 2, 3], 8);
    assert_eq!(list.get(1, &key(1)), Err(LidoError::StaleIndex));
    assert_eq!(list.get(3, &key(3)), Err(LidoError::StaleIndex));
    assert_eq!(list.get(u32::MAX, &key(3)), Err(LidoError::StaleIndex));
    assert_eq!(list.get(2, &key(3)).map(|m| m.pubkey), Ok(key(3)));
}

#[test]
fn get_mut_changes_the_entry_in_place() {
    let mut list: AccountList<Validator> = AccountList::new(4);
    list.push(Validator::new(key(1))).unwrap();
    list.push(Validator::new(key(2))).unwrap();
    assert_eq!(list.get_mut(0, &key(2)).map(|v| *v), Err(LidoError::StaleIndex));
    let entry = list.get_mut(1, &key(2)).unwrap();
    entry.stake_seeds = SeedRange { begin: 4, end: 9 };
    assert_eq!(list.get(1, &key(2)).unwrap().stake_seeds, SeedRange { begin: 4, end: 9 });
    assert_eq!(list.get(0, &key(1)), Ok(&Validator::new(key(1))));
    assert_eq!(list.len(), 2);
}

#[test]
fn remove_returns_the_entry_and_shifts_the_rest() {
    let mut list = maintainers(&[1, 2, 3, 4], 4);
    assert_eq!(list.remove(1, &key(2)), Ok(Maintainer { pubkey: key(2) }));
    assert_eq!(list.len(), 3);
    assert_eq!(list.get(0, &key(1)).map(|m| m.pubkey), Ok(key(1)));
    assert_eq!(list.get(1, &key(3)).map(|m| m.pubkey), Ok(key(3)));
    assert_eq!(list.get(2, &key(4)).map(|m| m.pubkey), Ok(key(4)));
    assert_eq!(list.get(3, &key(4)), Err(LidoError::StaleIndex));
    assert_eq!(list.max_entries(), 4);
}

#[test]
fn remove_with_stale_position_changes_nothing() {
    let mut list = maintainers(&[1, 2, 3], 4);
    assert_eq!(list.remove(0, &key(2)), Err(LidoError::StaleIndex));
    assert_eq!(list.remove(3, &key(3)), Err(LidoError::StaleIndex));
    assert_eq!(list.len(), 3);
    assert_eq!(list.find(&key(1)), Some(0));
    assert_eq!(list.find(&key(2)), Some(1));
    assert_eq!(list.find(&key(3)), Some(2));
}

#[test]
fn position_formed_before_a_removal_is_stale_after_it() {
    let mut list = maintainers(&[1, 2, 3], 4);
    list.remove(0, &key(1)).unwrap();
    // The entries moved down: the old positions no longer match.
    assert_eq!(list.get(1, &key(2)), Err(LidoError::StaleIndex));
    assert_eq!(list.get(2, &key(3)), Err(LidoError::StaleIndex));
    assert_eq!(list.remove(2, &key(3)), Err(LidoError::StaleIndex));
    assert_eq!(list.get(0, &key(2)).map(|m| m.pubkey), Ok(key(2)));
    assert_eq!(list.remove(1, &key(3)).map(|m| m.pubkey), Ok(key(3)));
}

#[test]
fn sequences_of_add_and_remove_never_reach_another_identity() {
    let mut list: AccountList<Maintainer> = AccountList::new(5);
    let mut model: Vec<u8> = Vec::new();
    let steps: [(bool, u8); 12] = [
        (true, 1), (true, 2), (true, 3), (false, 2), (true, 4), (true, 5), (true, 6),
        (true, 7), (false, 1), (false, 5), (true, 8), (false, 9),
    ];
    for (add, byte) in steps {
        if add {
            let expected = if model.len() < 5 { Ok(()) } else { Err(LidoError::RegistryFull) };
            assert_eq!(list.push(Maintainer::new(key(byte))), expected);
            if expected.is_ok() {
                model.push(byte);
            }
        } else if let Some(position) = model.iter().position(|b| *b == byte) {
            assert_eq!(list.remove(position as u32, &key(byte)), Ok(Maintainer::new(key(byte))));
            model.remove(position);
        } else {
            assert_eq!(list.find(&key(byte)), None);
        }
        assert_eq!(list.len() as usize, model.len());
        for position in 0..6u32 {
            for candidate in 0..10u8 {
                let found = list.get(position, &key(candidate));
                if model.get(position as usize) == Some(&candidate) {
                    assert_eq!(found.map(|m| *m.pubkey()), Ok(key(candidate)));
                } else {
                    assert_eq!(found, Err(LidoError::StaleIndex));
                }
            }
        }
    }
    assert_eq!(model, vec![3, 4, 6, 8]);
}

#[test]
fn find_returns_the_first_position() {
    let mut list: AccountList<ValidatorPerf> = AccountList::new(4);
    for (byte, rate) in [(1u8, 10u64), (2, 20), (1, 30)] {
        list.push(ValidatorPerf {
            validator_vote_account_address: key(byte),
            block_production_rate: rate,
            vote_success_rate: 0,
            uptime: 0,
        })
        .unwrap();
    }
    assert_eq!(list.find(&key(1)), Some(0));
    assert_eq!(list.find(&key(2)), Some(1));
    assert_eq!(list.find(&key(3)), None);
    assert_eq!(list.get(2, &key(1)).unwrap().block_production_rate, 30);
}

#[test]
fn entries_report_their_identity() {
    assert_eq!(*Validator::new(key(4)).pubkey(), key(4));
    assert_eq!(*Maintainer::new(key(5)).pubkey(), key(5));
    let perf = ValidatorPerf {
        validator_vote_account_address: key(6),
        block_production_rate: 0,
        vote_success_rate: 0,
        uptime: 0,
    };
    assert_eq!(*perf.pubkey(), key(6));
}
