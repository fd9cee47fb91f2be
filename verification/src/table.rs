//! A store of records of one kind, each found by the address it lives at.

use vstd::prelude::*;
use crate::address::Address;
use crate::states::Account;

verus! {

/// No two of `entries` live at the same address.
pub open spec fn distinct_keys<T>(entries: Seq<Account<T>>) -> bool {
    forall|i: int, j: int|
        0 <= i < j < entries.len() ==> (#[trigger] entries[i]).key != (#[trigger] entries[j]).key
}

/// Some record of `entries` lives at `key`.
pub open spec fn holds_key<T>(entries: Seq<Account<T>>, key: Address) -> bool {
    exists|i: int| 0 <= i < entries.len() && (#[trigger] entries[i]).key == key
}

/// A record of `entries` that lives at `key`.
pub open spec fn record_at<T>(entries: Seq<Account<T>>, key: Address) -> Account<T> {
    entries[choose|i: int| 0 <= i < entries.len() && (#[trigger] entries[i]).key == key]
}

/// The records of `entries` by their addresses.
pub open spec fn by_address<T>(entries: Seq<Account<T>>) -> Map<Address, Account<T>> {
    Map::new(|k: Address| holds_key(entries, k), |k: Address| record_at(entries, k))
}

/// Where keys are distinct, the record at a key is the one entry with it.
pub proof fn lemma_record_at<T>(entries: Seq<Account<T>>, i: int)
    requires
        distinct_keys(entries),
        0 <= i < entries.len(),
    ensures
        holds_key(entries, entries[i].key),
        record_at(entries, entries[i].key) == entries[i],
{
    let key = entries[i].key;
    let j = choose|j: int| 0 <= j < entries.len() && (#[trigger] entries[j]).key == key;
    assert(entries[j].key == key);
    if i < j {
        assert(entries[i].key != entries[j].key);
    }
    if j < i {
        assert(entries[j].key != entries[i].key);
    }
}

/// Every record found by address carries that address.
pub proof fn lemma_record_key<T>(entries: Seq<Account<T>>, key: Address)
    requires
        holds_key(entries, key),
    ensures
        by_address(entries)[key].key == key,
{
}

/// Removing an entry removes its address and leaves the others as they are.
pub proof fn lemma_remove_entry<T>(entries: Seq<Account<T>>, i: int)
    requires
        distinct_keys(entries),
        0 <= i < entries.len(),
    ensures
        distinct_keys(entries.remove(i)),
        by_address(entries.remove(i)) == by_address(entries).remove(entries[i].key),
{
    let rest = entries.remove(i);
    let key = entries[i].key;
    assert forall|a: int, b: int| 0 <= a < b < rest.len() implies (#[trigger] rest[a]).key != (
    #[trigger] rest[b]).key by {
        let a0 = if a < i { a } else { a + 1 };
        let b0 = if b < i { b } else { b + 1 };
        assert(rest[a] == entries[a0]);
        assert(rest[b] == entries[b0]);
        assert(entries[a0].key != entries[b0].key);
    }
    assert forall|k: Address| holds_key(rest, k) <==> (holds_key(entries, k) && k != key) by {
        if holds_key(rest, k) {
            let a = choose|a: int| 0 <= a < rest.len() && (#[trigger] rest[a]).key == k;
            let a0 = if a < i { a } else { a + 1 };
            assert(rest[a] == entries[a0]);
            assert(entries[a0].key == k);
            if a0 < i {
                assert(entries[a0].key != entries[i].key);
            } else {
                assert(entries[i].key != entries[a0].key);
            }
        }
        if holds_key(entries, k) && k != key {
            let a0 = choose|a: int| 0 <= a < entries.len() && (#[trigger] entries[a]).key == k;
            let a = if a0 < i { a0 } else { a0 - 1 };
            assert(rest[a] == entries[a0]);
        }
    }
    assert forall|k: Address| holds_key(rest, k) implies record_at(rest, k) == record_at(
        entries,
        k,
    ) by {
        let a = choose|a: int| 0 <= a < rest.len() && (#[trigger] rest[a]).key == k;
        let a0 = if a < i { a } else { a + 1 };
        assert(rest[a] == entries[a0]);
        lemma_record_at(rest, a);
        lemma_record_at(entries, a0);
    }
    assert(by_address(rest) =~= by_address(entries).remove(key));
}

/// Adding an entry at a free address adds it and leaves the others as they
/// are.
pub proof fn lemma_push_entry<T>(entries: Seq<Account<T>>, entry: Account<T>)
    requires
        distinct_keys(entries),
        !holds_key(entries, entry.key),
    ensures
        distinct_keys(entries.push(entry)),
        by_address(entries.push(entry)) == by_address(entries).insert(entry.key, entry),
{
    let more = entries.push(entry);
    let n = entries.len() as int;
    assert forall|a: int, b: int| 0 <= a < b < more.len() implies (#[trigger] more[a]).key != (
    #[trigger] more[b]).key by {
        assert(more[a] == entries[a]);
        if b < n {
            assert(more[b] == entries[b]);
            assert(entries[a].key != entries[b].key);
        } else {
            assert(more[b] == entry);
            assert(entries[a].key != entry.key);
        }
    }
    assert(more[n] == entry);
    assert forall|k: Address| holds_key(more, k) <==> (holds_key(entries, k) || k == entry.key) by {
        if holds_key(more, k) {
            let a = choose|a: int| 0 <= a < more.len() && (#[trigger] more[a]).key == k;
            if a < n {
                assert(more[a] == entries[a]);
            }
        }
        if holds_key(entries, k) {
            let a = choose|a: int| 0 <= a < entries.len() && (#[trigger] entries[a]).key == k;
            assert(more[a] == entries[a]);
        }
        if k == entry.key {
            assert(more[n].key == k);
        }
    }
    assert forall|k: Address| holds_key(more, k) implies record_at(more, k) == (if k == entry.key {
        entry
    } else {
        record_at(entries, k)
    }) by {
        let a = choose|a: int| 0 <= a < more.len() && (#[trigger] more[a]).key == k;
        lemma_record_at(more, a);
        if a < n {
            assert(more[a] == entries[a]);
            lemma_record_at(entries, a);
        }
    }
    assert(by_address(more) =~= by_address(entries).insert(entry.key, entry));
}

/// Records of one kind, each at its own address.
pub struct Table<T> {
    entries: Vec<Account<T>>,
}

impl<T> View for Table<T> {
    type V = Map<Address, Account<T>>;

    closed spec fn view(&self) -> Map<Address, Account<T>> {
        by_address(self.entries@)
    }
}

impl<T> Table<T> {
    #[verifier::type_invariant]
    closed spec fn inv(&self) -> bool {
        distinct_keys(self.entries@)
    }

    /// Every record of the table carries the address it is found by.
    pub proof fn lemma_keys(self, key: Address)
        requires
            self@.contains_key(key),
        ensures
            self@[key].key == key,
    {
        lemma_record_key(self.entries@, key);
    }

    /// A table without records.
    pub fn new() -> (r: Table<T>)
        ensures
            r@ == Map::<Address, Account<T>>::empty(),
    {
        let r = Table { entries: Vec::new() };
        assert(r@ =~= Map::<Address, Account<T>>::empty());
        r
    }

    fn position(&self, key: &Address) -> (r: Option<usize>)
        ensures
            match r {
                Some(i) => i < self.entries@.len() && self.entries@[i as int].key == *key,
                None => !holds_key(self.entries@, *key),
            },
    {
        let mut i: usize = 0;
        while i < self.entries.len()
            invariant
                i <= self.entries@.len(),
                forall|j: int| 0 <= j < i ==> (#[trigger] self.entries@[j]).key != *key,
            decreases self.entries@.len() - i,
        {
            if self.entries[i].key.same(key) {
                return Some(i);
            }
            i += 1;
        }
        None
    }

    /// Whether a record lives at `key`.
    pub fn contains(&self, key: &Address) -> (r: bool)
        ensures
            r == self@.contains_key(*key),
    {
        match self.position(key) {
            Some(i) => {
                assert(holds_key(self.entries@, *key));
                true
            },
            None => false,
        }
    }

    /// The record that lives at `key`, if there is one.
    pub fn get(&self, key: &Address) -> (r: Option<&Account<T>>)
        ensures
            match r {
                Some(a) => self@.contains_key(*key) && *a == self@[*key] && a.key == *key,
                None => !self@.contains_key(*key),
            },
    {
        match self.position(key) {
            Some(i) => {
                proof {
                    use_type_invariant(self);
                    lemma_record_at(self.entries@, i as int);
                }
                Some(&self.entries[i])
            },
            None => None,
        }
    }

    /// Takes the record that lives at `key` out of the table, if there is
    /// one.
    pub fn take(&mut self, key: &Address) -> (r: Option<Account<T>>)
        ensures
            match r {
                Some(a) => old(self)@.contains_key(*key) && a == old(self)@[*key] && a.key == *key
                    && final(self)@ == old(self)@.remove(*key),
                None => !old(self)@.contains_key(*key) && final(self)@ == old(self)@,
            },
    {
        match self.position(key) {
            Some(i) => {
                proof {
                    use_type_invariant(&*self);
                    lemma_record_at(self.entries@, i as int);
                    lemma_remove_entry(self.entries@, i as int);
                }
                let mut entries: Vec<Account<T>> = Vec::new();
                core::mem::swap(&mut entries, &mut self.entries);
                let a = entries.remove(i);
                core::mem::swap(&mut entries, &mut self.entries);
                Some(a)
            },
            None => None,
        }
    }

    /// Puts `account` into the table at its own address, unless a record
    /// lives there already; says whether it did.
    pub fn put(&mut self, account: Account<T>) -> (r: bool)
        ensures
            r == !old(self)@.contains_key(account.key),
            r ==> final(self)@ == old(self)@.insert(account.key, account),
            !r ==> final(self)@ == old(self)@,
    {
        match self.position(&account.key) {
            Some(i) => {
                assert(holds_key(self.entries@, account.key));
                false
            },
            None => {
                proof {
                    use_type_invariant(&*self);
                    lemma_push_entry(self.entries@, account);
                }
                let mut entries: Vec<Account<T>> = Vec::new();
                core::mem::swap(&mut entries, &mut self.entries);
                entries.push(account);
                core::mem::swap(&mut entries, &mut self.entries);
                true
            },
        }
    }
}

} // verus!
