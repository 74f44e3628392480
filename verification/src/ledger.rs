//! The ledger: the accounts that exist, by address.

use vstd::prelude::*;
use crate::account::Account;
use crate::address::Address;

verus! {

#[derive(Clone, Copy)]
struct Entry {
    key: Address,
    account: Account,
}

/// The accounts that exist, each at its own address.
pub struct Ledger {
    entries: Vec<Entry>,
}

spec fn position(entries: Seq<Entry>, key: Address, i: int) -> bool {
    0 <= i < entries.len() && entries[i].key == key
}

spec fn distinct_keys(entries: Seq<Entry>) -> bool {
    forall|i: int, j: int|
        0 <= i < entries.len() && 0 <= j < entries.len() && #[trigger] entries[i].key
            == #[trigger] entries[j].key ==> i == j
}

spec fn as_map(entries: Seq<Entry>) -> Map<Address, Account> {
    Map::new(
        |key: Address| exists|i: int| position(entries, key, i),
        |key: Address| entries[choose|i: int| position(entries, key, i)].account,
    )
}

proof fn lemma_as_map_at(entries: Seq<Entry>, i: int)
    requires
        distinct_keys(entries),
        0 <= i < entries.len(),
    ensures
        as_map(entries).contains_key(entries[i].key),
        as_map(entries)[entries[i].key] == entries[i].account,
{
    let key = entries[i].key;
    assert(position(entries, key, i));
    let j = choose|j: int| position(entries, key, j);
    assert(position(entries, key, j));
}

proof fn lemma_update(before: Seq<Entry>, i: int, entry: Entry)
    requires
        distinct_keys(before),
        position(before, entry.key, i),
    ensures
        distinct_keys(before.update(i, entry)),
        as_map(before.update(i, entry)) == as_map(before).insert(entry.key, entry.account),
{
    let after = before.update(i, entry);
    let target = as_map(before).insert(entry.key, entry.account);
    assert forall|k: Address| as_map(after).contains_key(k) == target.contains_key(k) by {
        if as_map(after).contains_key(k) {
            let j = choose|j: int| position(after, k, j);
            assert(position(before, before[j].key, j));
        }
        if as_map(before).contains_key(k) {
            let j = choose|j: int| position(before, k, j);
            assert(position(after, k, j));
        }
        if k == entry.key {
            assert(position(after, k, i));
        }
    }
    assert forall|k: Address| as_map(after).contains_key(k) implies as_map(after)[k]
        == target[k] by {
        let j = choose|j: int| position(after, k, j);
        lemma_as_map_at(after, j);
        if j != i {
            lemma_as_map_at(before, j);
        }
    }
    assert(as_map(after) =~= target);
}

proof fn lemma_push(before: Seq<Entry>, entry: Entry)
    requires
        distinct_keys(before),
        !as_map(before).contains_key(entry.key),
    ensures
        distinct_keys(before.push(entry)),
        as_map(before.push(entry)) == as_map(before).insert(entry.key, entry.account),
{
    let after = before.push(entry);
    let n = before.len() as int;
    let target = as_map(before).insert(entry.key, entry.account);
    assert forall|a: int, b: int|
        0 <= a < after.len() && 0 <= b < after.len() && #[trigger] after[a].key
            == #[trigger] after[b].key implies a == b by {
        if a == n && b < n {
            assert(position(before, entry.key, b));
        }
        if b == n && a < n {
            assert(position(before, entry.key, a));
        }
    }
    assert forall|k: Address| as_map(after).contains_key(k) == target.contains_key(k) by {
        if as_map(after).contains_key(k) {
            let j = choose|j: int| position(after, k, j);
            if j < n {
                assert(position(before, k, j));
            }
        }
        if as_map(before).contains_key(k) {
            let j = choose|j: int| position(before, k, j);
            assert(position(after, k, j));
        }
        if k == entry.key {
            assert(position(after, k, n));
        }
    }
    assert forall|k: Address| as_map(after).contains_key(k) implies as_map(after)[k]
        == target[k] by {
        let j = choose|j: int| position(after, k, j);
        lemma_as_map_at(after, j);
        if j < n {
            lemma_as_map_at(before, j);
        }
    }
    assert(as_map(after) =~= target);
}

proof fn lemma_remove(before: Seq<Entry>, p: int)
    requires
        distinct_keys(before),
        0 <= p < before.len(),
    ensures
        distinct_keys(before.remove(p)),
        as_map(before.remove(p)) == as_map(before).remove(before[p].key),
{
    let after = before.remove(p);
    let key = before[p].key;
    let target = as_map(before).remove(key);
    assert forall|a: int, b: int|
        0 <= a < after.len() && 0 <= b < after.len() && #[trigger] after[a].key
            == #[trigger] after[b].key implies a == b by {
        let a0 = if a < p { a } else { a + 1 };
        let b0 = if b < p { b } else { b + 1 };
        assert(before[a0].key == before[b0].key);
    }
    assert forall|k: Address| as_map(after).contains_key(k) == target.contains_key(k) by {
        if as_map(after).contains_key(k) {
            let j = choose|j: int| position(after, k, j);
            let j0 = if j < p { j } else { j + 1 };
            assert(position(before, k, j0));
            assert(before[j0].key == before[p].key ==> j0 == p);
        }
        if as_map(before).contains_key(k) && k != key {
            let j = choose|j: int| position(before, k, j);
            let j1 = if j < p { j } else { j - 1 };
            assert(position(after, k, j1));
        }
    }
    assert forall|k: Address| as_map(after).contains_key(k) implies as_map(after)[k]
        == target[k] by {
        let j = choose|j: int| position(after, k, j);
        let j0 = if j < p { j } else { j + 1 };
        lemma_as_map_at(after, j);
        lemma_as_map_at(before, j0);
    }
    assert(as_map(after) =~= target);
}

impl Ledger {
    #[verifier::type_invariant]
    spec fn keys_are_distinct(self) -> bool {
        distinct_keys(self.entries@)
    }

    /// The accounts by address.
    pub closed spec fn view(&self) -> Map<Address, Account> {
        as_map(self.entries@)
    }

    /// A ledger without accounts.
    pub fn new() -> (r: Ledger)
        ensures
            r@ == Map::<Address, Account>::empty(),
    {
        let r = Ledger { entries: Vec::new() };
        assert(r@ =~= Map::<Address, Account>::empty());
        r
    }

    fn find(&self, key: &Address) -> (r: Option<usize>)
        ensures
            match r {
                Some(i) => position(self.entries@, *key, i as int),
                None => !self@.contains_key(*key),
            },
    {
        let mut i: usize = 0;
        while i < self.entries.len()
            invariant
                i <= self.entries.len(),
                forall|j: int| 0 <= j < i ==> self.entries@[j].key != *key,
            decreases self.entries.len() - i,
        {
            if self.entries[i].key == *key {
                return Some(i);
            }
            i += 1;
        }
        assert forall|j: int| !position(self.entries@, *key, j) by {}
        None
    }

    /// A ledger with the same accounts.
    pub fn snapshot(&self) -> (r: Ledger)
        ensures
            r@ == self@,
    {
        proof {
            use_type_invariant(self);
        }
        let mut entries: Vec<Entry> = Vec::new();
        let mut i: usize = 0;
        while i < self.entries.len()
            invariant
                i <= self.entries.len(),
                entries@ == self.entries@.subrange(0, i as int),
            decreases self.entries.len() - i,
        {
            entries.push(self.entries[i]);
            i += 1;
        }
        assert(entries@ =~= self.entries@);
        Ledger { entries }
    }

    /// The account at an address, if there is one.
    pub fn get(&self, key: &Address) -> (r: Option<Account>)
        ensures
            r == (if self@.contains_key(*key) {
                Some(self@[*key])
            } else {
                None
            }),
    {
        proof {
            use_type_invariant(self);
        }
        match self.find(key) {
            Some(i) => {
                proof {
                    lemma_as_map_at(self.entries@, i as int);
                }
                Some(self.entries[i].account)
            },
            None => None,
        }
    }

    /// Puts an account at an address, in place of the one there, if any.
    pub fn put(&mut self, key: Address, account: Account)
        ensures
            final(self)@ == old(self)@.insert(key, account),
    {
        proof {
            use_type_invariant(&*self);
        }
        let found = self.find(&key);
        let mut taken = Ledger::new();
        core::mem::swap(self, &mut taken);
        let mut entries = taken.entries;
        let entry = Entry { key, account };
        match found {
            Some(i) => {
                proof {
                    lemma_update(entries@, i as int, entry);
                }
                entries.set(i, entry);
            },
            None => {
                proof {
                    lemma_push(entries@, entry);
                }
                entries.push(entry);
            },
        }
        *self = Ledger { entries };
    }

    /// Takes the account at an address off the ledger, if there is one.
    pub fn remove(&mut self, key: &Address)
        ensures
            final(self)@ == old(self)@.remove(*key),
    {
        proof {
            use_type_invariant(&*self);
        }
        let found = self.find(key);
        let mut taken = Ledger::new();
        core::mem::swap(self, &mut taken);
        let mut entries = taken.entries;
        match found {
            Some(i) => {
                proof {
                    lemma_remove(entries@, i as int);
                }
                entries.remove(i);
            },
            None => {
                assert(as_map(entries@) =~= as_map(entries@).remove(*key));
            },
        }
        *self = Ledger { entries };
    }
}

} // verus!
