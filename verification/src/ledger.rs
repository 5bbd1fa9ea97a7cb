//! A key-addressed store of records: a record is created at an address
//! that holds none, and creation at an occupied address is rejected.
//! Nothing in the store is updated or removed.

use crate::address::Address;
use crate::error::Failure;
use crate::state::membership::Membership;
use crate::state::metadata::{MasterEdition, Metadata};
use crate::state::token::{Mint, TokenAccount};
use vstd::prelude::*;

verus! {

/// A record of one of the kinds the protocol creates.
#[derive(Clone, Debug, PartialEq, Eq)]
pub enum Account {
    Mint(Mint),
    Token(TokenAccount),
    Membership(Membership),
    Metadata(Metadata),
    MasterEdition(MasterEdition),
}

#[derive(Clone, Debug)]
struct Entry {
    key: Address,
    account: Account,
}

/// The records that exist, each under its address.
#[derive(Clone, Debug)]
pub struct Ledger {
    entries: Vec<Entry>,
}

/// The entry at `i` is the first one in `entries` kept under `key`.
spec fn first_at(entries: Seq<Entry>, i: int, key: Address) -> bool {
    &&& 0 <= i < entries.len()
    &&& entries[i].key == key
    &&& forall|j: int| 0 <= j < i ==> entries[j].key != key
}

spec fn holds(entries: Seq<Entry>, key: Address) -> bool {
    exists|i: int| first_at(entries, i, key)
}

spec fn index_of(entries: Seq<Entry>, key: Address) -> int {
    choose|i: int| first_at(entries, i, key)
}

spec fn records(entries: Seq<Entry>) -> Map<Address, Account> {
    Map::new(|key: Address| holds(entries, key), |key: Address| entries[index_of(entries, key)].account)
}

/// Appending an entry under a fresh address adds that record and no other.
proof fn lemma_push_fresh(entries: Seq<Entry>, entry: Entry)
    requires
        forall|j: int| 0 <= j < entries.len() ==> entries[j].key != entry.key,
    ensures
        records(entries.push(entry)) == records(entries).insert(entry.key, entry.account),
{
    let after = entries.push(entry);
    let n = entries.len() as int;
    assert forall|i: int, k: Address| first_at(entries, i, k) implies first_at(after, i, k) by {
        assert forall|j: int| 0 <= j < i implies after[j].key != k by {
            assert(after[j] == entries[j]);
        }
    }
    assert forall|i: int, k: Address| i < n && first_at(after, i, k) implies first_at(
        entries,
        i,
        k,
    ) by {
        assert forall|j: int| 0 <= j < i implies entries[j].key != k by {
            assert(after[j] == entries[j]);
        }
    }
    assert(first_at(after, n, entry.key)) by {
        assert forall|j: int| 0 <= j < n implies after[j].key != entry.key by {
            assert(after[j] == entries[j]);
        }
    }
    assert forall|k: Address| holds(after, k) <==> (k == entry.key || holds(entries, k)) by {
        if holds(after, k) && k != entry.key {
            let i = index_of(after, k);
            assert(first_at(entries, i, k));
        }
        if holds(entries, k) {
            assert(first_at(after, index_of(entries, k), k));
        }
    }
    assert forall|k: Address| holds(after, k) implies after[index_of(after, k)].account == (if k
        == entry.key {
        entry.account
    } else {
        entries[index_of(entries, k)].account
    }) by {
        let i = index_of(after, k);
        if k == entry.key {
            assert(first_at(after, n, k));
            if i < n {
                assert(after[i] == entries[i]);
            }
        } else {
            assert(first_at(entries, i, k));
            let j = index_of(entries, k);
            assert(first_at(entries, j, k));
        }
    }
    assert(records(after) =~= records(entries).insert(entry.key, entry.account));
}

impl View for Ledger {
    type V = Map<Address, Account>;

    closed spec fn view(&self) -> Map<Address, Account> {
        records(self.entries@)
    }
}

impl Ledger {
    /// A ledger without records.
    pub fn new() -> (ledger: Ledger)
        ensures
            ledger@ == Map::<Address, Account>::empty(),
    {
        let ledger = Ledger { entries: Vec::new() };
        assert(ledger@ =~= Map::<Address, Account>::empty());
        ledger
    }

    /// Where the record at `key` is kept, if there is one.
    fn position(&self, key: &Address) -> (r: Option<usize>)
        ensures
            match r {
                Some(i) => first_at(self.entries@, i as int, *key) && index_of(self.entries@, *key)
                    == i,
                None => forall|j: int| 0 <= j < self.entries.len() ==> self.entries[j].key != *key,
            },
    {
        let mut i: usize = 0;
        while i < self.entries.len()
            invariant
                i <= self.entries.len(),
                forall|j: int| 0 <= j < i ==> self.entries[j].key != *key,
            decreases self.entries.len() - i,
        {
            if self.entries[i].key == *key {
                assert(first_at(self.entries@, i as int, *key));
                return Some(i);
            }
            i += 1;
        }
        None
    }

    /// Whether a record exists at `key`.
    pub fn contains(&self, key: &Address) -> (r: bool)
        ensures
            r == self@.contains_key(*key),
    {
        self.position(key).is_some()
    }

    /// The record at `key`, if there is one.
    pub fn get(&self, key: &Address) -> (r: Option<&Account>)
        ensures
            match r {
                Some(account) => self@.contains_key(*key) && self@[*key] == *account,
                None => !self@.contains_key(*key),
            },
    {
        match self.position(key) {
            Some(i) => Some(&self.entries[i].account),
            None => None,
        }
    }

    /// The token class at `key`, if there is one.
    pub fn mint(&self, key: &Address) -> (r: Option<Mint>)
        ensures
            r == match self@.get(*key) {
                Some(Account::Mint(mint)) => Some(mint),
                _ => None,
            },
    {
        match self.get(key) {
            Some(Account::Mint(mint)) => Some(*mint),
            _ => None,
        }
    }

    /// The holding account at `key`, if there is one.
    pub fn token_account(&self, key: &Address) -> (r: Option<TokenAccount>)
        ensures
            r == match self@.get(*key) {
                Some(Account::Token(account)) => Some(account),
                _ => None,
            },
    {
        match self.get(key) {
            Some(Account::Token(account)) => Some(*account),
            _ => None,
        }
    }

    /// The membership record at `key`, if there is one.
    pub fn membership(&self, key: &Address) -> (r: Option<Membership>)
        ensures
            r == match self@.get(*key) {
                Some(Account::Membership(record)) => Some(record),
                _ => None,
            },
    {
        match self.get(key) {
            Some(Account::Membership(record)) => Some(*record),
            _ => None,
        }
    }

    /// The metadata record at `key`, if there is one.
    pub fn metadata(&self, key: &Address) -> (r: Option<&Metadata>)
        ensures
            match self@.get(*key) {
                Some(Account::Metadata(record)) => r == Some(&record),
                _ => r is None,
            },
    {
        match self.get(key) {
            Some(Account::Metadata(record)) => Some(record),
            _ => None,
        }
    }

    /// The master-edition record at `key`, if there is one.
    pub fn master_edition(&self, key: &Address) -> (r: Option<MasterEdition>)
        ensures
            r == match self@.get(*key) {
                Some(Account::MasterEdition(record)) => Some(record),
                _ => None,
            },
    {
        match self.get(key) {
            Some(Account::MasterEdition(record)) => Some(*record),
            _ => None,
        }
    }

    /// Creates `account` at `key`. Rejected with
    /// `Failure::AccountAlreadyExists`, and without effect, where a record
    /// exists there; records at other addresses stay as they are either way.
    pub fn create(&mut self, key: Address, account: Account) -> (r: Result<(), Failure>)
        ensures
            old(self)@.contains_key(key) ==> r == Err::<(), Failure>(Failure::AccountAlreadyExists)
                && final(self)@ == old(self)@,
            !old(self)@.contains_key(key) ==> r is Ok && final(self)@ == old(self)@.insert(
                key,
                account,
            ),
    {
        if self.position(&key).is_some() {
            return Err(Failure::AccountAlreadyExists);
        }
        proof {
            lemma_push_fresh(self.entries@, Entry { key, account });
        }
        self.entries.push(Entry { key, account });
        Ok(())
    }
}

} // verus!
