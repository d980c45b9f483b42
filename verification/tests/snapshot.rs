use pumpkin_swap::address::Address;
use pumpkin_swap::error::AmmError;
use pumpkin_swap::snapshot::{try_get_account_data, Account, AccountMap};

fn address(byte: u8) -> Address {
    Address::new_from_array([byte; 32])
}

fn account(owner: u8, data: &[u8]) -> Account {
    Account { owner: address(owner), data: data.to_vec() }
}

#[test]
fn new_map_holds_nothing() {
    let map = AccountMap::new();
    assert_eq!(map.get(&address(1)), None);
    assert_eq!(
        try_get_account_data(&map, &address(1)),
        Err(AmmError::MissingAccount(address(1)))
    );
}

#[test]
fn inserted_accounts_are_found_by_their_address() {
    let mut map = AccountMap::new();
    map.insert(address(1), account(9, &[1, 2, 3]));
    map.insert(address(2), account(8, &[]));
    assert_eq!(map.get(&address(1)), Some(&account(9, &[1, 2, 3])));
    assert_eq!(map.get(&address(2)), Some(&account(8, &[])));
    assert_eq!(map.get(&address(3)), None);
    assert_eq!(try_get_account_data(&map, &address(1)), Ok(&[1u8, 2, 3][..]));
    assert_eq!(try_get_account_data(&map, &address(2)), Ok(&[][..]));
}

#[test]
fn inserting_again_replaces_the_account() {
    let mut map = AccountMap::new();
    map.insert(address(1), account(9, &[1, 2, 3]));
    map.insert(address(2), account(8, &[4]));
    map.insert(address(1), account(7, &[5, 6]));
    assert_eq!(map.get(&address(1)), Some(&account(7, &[5, 6])));
    assert_eq!(map.get(&address(2)), Some(&account(8, &[4])));
    assert_eq!(try_get_account_data(&map, &address(1)), Ok(&[5u8, 6][..]));
}

#[test]
fn missing_account_names_the_address() {
    let mut map = AccountMap::new();
    map.insert(address(1), account(9, &[1, 2, 3]));
    assert_eq!(
        try_get_account_data(&map, &address(4)),
        Err(AmmError::MissingAccount(address(4)))
    );
}
