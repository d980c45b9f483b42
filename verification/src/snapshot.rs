use vstd::prelude::*;

use crate::address::Address;
use crate::error::AmmError;

verus! {

/// What is read of an account: the program that owns it and its data.
#[derive(Debug, PartialEq, Eq)]
pub struct Account {
    pub owner: Address,
    pub data: Vec<u8>,
}

/// An account together with its address.
#[derive(Debug, PartialEq, Eq)]
pub struct KeyedAccount {
    pub key: Address,
    pub account: Account,
}

/// The account that a list of entries holds for `key`: that of the first
/// entry with this key.
pub open spec fn lookup(entries: Seq<KeyedAccount>, key: Address) -> Option<Account>
    decreases entries.len(),
{
    if entries.len() == 0 {
        None
    } else if entries[0].key == key {
        Some(entries[0].account)
    } else {
        lookup(entries.drop_first(), key)
    }
}

/// Where no entry before the one at `at` has the key of that entry, `lookup`
/// finds the account of that entry.
proof fn lemma_lookup_first(entries: Seq<KeyedAccount>, key: Address, at: int)
    requires
        0 <= at < entries.len(),
        entries[at].key == key,
        forall|j: int| 0 <= j < at ==> entries[j].key != key,
    ensures
        lookup(entries, key) == Some(entries[at].account),
    decreases entries.len(),
{
    if at > 0 {
        let rest = entries.drop_first();
        assert(forall|j: int| 0 <= j < at - 1 ==> rest[j] == entries[j + 1]);
        lemma_lookup_first(rest, key, at - 1);
    }
}

/// Where no entry has the key, `lookup` finds nothing.
proof fn lemma_lookup_absent(entries: Seq<KeyedAccount>, key: Address)
    requires
        forall|j: int| 0 <= j < entries.len() ==> entries[j].key != key,
    ensures
        lookup(entries, key) is None,
    decreases entries.len(),
{
    if entries.len() > 0 {
        let rest = entries.drop_first();
        assert(forall|j: int| 0 <= j < rest.len() ==> rest[j] == entries[j + 1]);
        lemma_lookup_absent(rest, key);
    }
}

/// The index of the entry that `lookup` found, or the number of entries
/// where it found none.
proof fn lemma_lookup_index(entries: Seq<KeyedAccount>, key: Address) -> (at: int)
    ensures
        0 <= at <= entries.len(),
        forall|j: int| 0 <= j < at ==> entries[j].key != key,
        at < entries.len() ==> entries[at].key == key && lookup(entries, key) == Some(
            entries[at].account,
        ),
        at == entries.len() ==> lookup(entries, key) is None,
    decreases entries.len(),
{
    if entries.len() == 0 || entries[0].key == key {
        0
    } else {
        let rest = entries.drop_first();
        let found = lemma_lookup_index(rest, key);
        assert(forall|j: int| 1 <= j < found + 1 ==> entries[j] == rest[j - 1]);
        found + 1
    }
}

/// Accounts by address, as they were fetched: at most one account for an
/// address, found again by that address.
#[derive(Debug)]
pub struct AccountMap {
    entries: Vec<KeyedAccount>,
}

impl View for AccountMap {
    type V = Map<Address, Account>;

    closed spec fn view(&self) -> Map<Address, Account> {
        Map::new(
            |key: Address| lookup(self.entries@, key) is Some,
            |key: Address| lookup(self.entries@, key).unwrap(),
        )
    }
}

impl AccountMap {
    /// A map that holds no account.
    pub fn new() -> (map: AccountMap)
        ensures
            map@ == Map::<Address, Account>::empty(),
    {
        let map = AccountMap { entries: Vec::new() };
        assert(map@ =~= Map::<Address, Account>::empty());
        map
    }

    /// The index of the first entry with `key`, or the number of entries
    /// where there is none.
    fn position(&self, key: &Address) -> (at: usize)
        ensures
            at <= self.entries@.len(),
            forall|j: int| 0 <= j < at ==> self.entries@[j].key != *key,
            at < self.entries@.len() ==> self.entries@[at as int].key == *key,
    {
        let mut i: usize = 0;
        while i < self.entries.len()
            invariant
                i <= self.entries@.len(),
                forall|j: int| 0 <= j < i ==> self.entries@[j].key != *key,
            decreases self.entries@.len() - i,
        {
            if self.entries[i].key == *key {
                return i;
            }
            i += 1;
        }
        i
    }

    /// Puts `account` at `key`, in place of the account that was there.
    pub fn insert(&mut self, key: Address, account: Account)
        ensures
            final(self)@ == old(self)@.insert(key, account),
    {
        let at: usize = self.position(&key);
        let entry = KeyedAccount { key, account };
        if at < self.entries.len() {
            self.entries[at] = entry;
        } else {
            self.entries.push(entry);
        }
        proof {
            let before = old(self).entries@;
            let after = self.entries@;
            assert(after.len() > at && after[at as int] == entry);
            assert(forall|j: int| 0 <= j < before.len() && j != at ==> after[j] == before[j]);
            lemma_lookup_first(after, key, at as int);
            assert forall|other: Address| other != key implies lookup(after, other) == lookup(
                before,
                other,
            ) by {
                let found = lemma_lookup_index(before, other);
                if found < before.len() {
                    lemma_lookup_first(after, other, found);
                } else {
                    lemma_lookup_absent(after, other);
                }
            }
            assert(self@ =~= old(self)@.insert(key, account));
        }
    }

    /// The account at `key`, if the map holds one.
    pub fn get(&self, key: &Address) -> (found: Option<&Account>)
        ensures
            match found {
                Some(account) => self@.contains_key(*key) && *account == self@[*key],
                None => !self@.contains_key(*key),
            },
    {
        let at: usize = self.position(key);
        if at < self.entries.len() {
            proof {
                lemma_lookup_first(self.entries@, *key, at as int);
            }
            Some(&self.entries[at].account)
        } else {
            proof {
                lemma_lookup_absent(self.entries@, *key);
            }
            None
        }
    }
}

/// What `try_get_account_data` answers on a map with the contents `accounts`.
pub open spec fn account_data(accounts: Map<Address, Account>, address: Address) -> Result<
    Seq<u8>,
    AmmError,
> {
    if accounts.contains_key(address) {
        Ok(accounts[address].data@)
    } else {
        Err(AmmError::MissingAccount(address))
    }
}

/// The data of the account at `address`, or the error that names the address
/// where the map holds no such account.
pub fn try_get_account_data<'a>(account_map: &'a AccountMap, address: &Address) -> (result: Result<
    &'a [u8],
    AmmError,
>)
    ensures
        match result {
            Ok(data) => account_data(account_map@, *address) == Ok::<Seq<u8>, AmmError>(data@),
            Err(error) => account_data(account_map@, *address) == Err::<Seq<u8>, AmmError>(error),
        },
{
    match account_map.get(address) {
        Some(account) => Ok(account.data.as_slice()),
        None => Err(AmmError::MissingAccount(*address)),
    }
}

} // verus!
