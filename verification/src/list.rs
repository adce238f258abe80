//! The registry: a bounded, ordered collection of entries, each with an
//! identity, in which every access by position names the identity it expects.

use vstd::prelude::*;
use crate::error::LidoError;
use crate::pubkey::Pubkey;

verus! {

/// An entry of a registry. Its identity is the address it was created for.
pub trait ListEntry: Sized {
    /// The identity of the entry.
    spec fn key(&self) -> Pubkey;

    /// The identity of the entry.
    fn pubkey(&self) -> (key: &Pubkey)
        ensures
            *key == self.key(),
    ;
}

/// Whether position `index` of `entries` exists and holds the entry whose
/// identity is `key`.
pub open spec fn holds<T: ListEntry>(entries: Seq<T>, index: u32, key: Pubkey) -> bool {
    index < entries.len() && entries[index as int].key() == key
}

/// Whether no entry of `entries` before position `end` has the identity `key`.
pub open spec fn absent_before<T: ListEntry>(entries: Seq<T>, end: int, key: Pubkey) -> bool {
    forall|j: int| 0 <= j < end && j < entries.len() ==> (#[trigger] entries[j]).key() != key
}

/// The position of the first entry of `entries` with the identity `key`, if
/// there is one.
pub open spec fn position_of<T: ListEntry>(entries: Seq<T>, key: Pubkey) -> Option<u32> {
    if exists|i: u32| holds(entries, i, key) && absent_before(entries, i as int, key) {
        Some(choose|i: u32| holds(entries, i, key) && absent_before(entries, i as int, key))
    } else {
        None
    }
}

/// Whether no two entries of `entries` have the same identity.
pub open spec fn unique_keys<T: ListEntry>(entries: Seq<T>) -> bool {
    forall|i: int, j: int|
        0 <= i < j < entries.len() ==> (#[trigger] entries[i]).key() != (#[trigger] entries[j]).key()
}

/// An ordered collection of at most `capacity()` entries. Entries keep the
/// order in which they were added; removing one moves the later ones down by
/// one position.
pub struct AccountList<T> {
    entries: Vec<T>,
    max_entries: u32,
}

impl<T> View for AccountList<T> {
    type V = Seq<T>;

    closed spec fn view(&self) -> Seq<T> {
        self.entries@
    }
}

impl<T> AccountList<T> {
    /// The number of entries the registry was created for.
    pub closed spec fn capacity(&self) -> u32 {
        self.max_entries
    }

    /// A registry holds no more entries than its capacity. Every registry
    /// made by `new` and changed through the methods below is well formed.
    pub open spec fn wf(&self) -> bool {
        self@.len() <= self.capacity()
    }
}

impl<T: ListEntry> AccountList<T> {
    /// An empty registry with room for `max_entries` entries.
    pub fn new(max_entries: u32) -> (list: Self)
        ensures
            list.wf(),
            list@ == Seq::<T>::empty(),
            list.capacity() == max_entries,
    {
        AccountList { entries: Vec::new(), max_entries }
    }

    /// The registry that holds `entries`, in their order, with room for
    /// `max_entries` entries in all; `RegistryFull` if they are more than that.
    pub fn from_entries(max_entries: u32, entries: Vec<T>) -> (result: Result<Self, LidoError>)
        ensures
            entries@.len() <= max_entries ==> (result matches Ok(list) && list.wf() && list@
                == entries@ && list.capacity() == max_entries),
            entries@.len() > max_entries ==> result matches Err(LidoError::RegistryFull),
    {
        if entries.len() > max_entries as usize {
            return Err(LidoError::RegistryFull);
        }
        Ok(AccountList { entries, max_entries })
    }

    /// The entries of the registry, in their order.
    pub fn into_entries(self) -> (entries: Vec<T>)
        ensures
            entries@ == self@,
    {
        self.entries
    }

    /// The number of entries, which never exceeds the capacity.
    pub fn len(&self) -> (n: u32)
        requires
            self.wf(),
        ensures
            n == self@.len(),
            n <= self.capacity(),
    {
        self.entries.len() as u32
    }

    /// Whether the registry has no entries.
    pub fn is_empty(&self) -> (empty: bool)
        ensures
            empty == (self@.len() == 0),
    {
        self.entries.len() == 0
    }

    /// The number of entries the registry was created for.
    pub fn max_entries(&self) -> (n: u32)
        ensures
            n == self.capacity(),
    {
        self.max_entries
    }

    /// Appends `entry`, unless the registry is full.
    pub fn push(&mut self, entry: T) -> (result: Result<(), LidoError>)
        requires
            old(self).wf(),
        ensures
            final(self).wf(),
            final(self).capacity() == old(self).capacity(),
            old(self)@.len() < old(self).capacity() ==> result is Ok && final(self)@ == old(self)@.push(entry),
            old(self)@.len() >= old(self).capacity() ==> result == Err::<(), LidoError>(
                LidoError::RegistryFull,
            ) && final(self)@ == old(self)@,
    {
        if self.entries.len() >= self.max_entries as usize {
            return Err(LidoError::RegistryFull);
        }
        self.entries.push(entry);
        Ok(())
    }

    /// The entry at `index`, provided its identity is `key`.
    pub fn get(&self, index: u32, key: &Pubkey) -> (result: Result<&T, LidoError>)
        ensures
            match result {
                Ok(entry) => holds(self@, index, *key) && *entry == self@[index as int],
                Err(e) => e == LidoError::StaleIndex && !holds(self@, index, *key),
            },
    {
        if index as usize >= self.entries.len() {
            return Err(LidoError::StaleIndex);
        }
        let entry = &self.entries[index as usize];
        if *entry.pubkey() == *key {
            Ok(entry)
        } else {
            Err(LidoError::StaleIndex)
        }
    }

    /// The entry at `index`, for changing in place, provided its identity is
    /// `key`. What the caller leaves in the entry is what the registry holds
    /// at `index` afterwards.
    pub fn get_mut(&mut self, index: u32, key: &Pubkey) -> (result: Result<&mut T, LidoError>)
        requires
            old(self).wf(),
        ensures
            final(self).wf(),
            final(self).capacity() == old(self).capacity(),
            match result {
                Ok(entry) => holds(old(self)@, index, *key) && *entry == old(self)@[index as int]
                    && final(self)@ == old(self)@.update(index as int, *final(entry)),
                Err(e) => e == LidoError::StaleIndex && !holds(old(self)@, index, *key)
                    && final(self)@ == old(self)@,
            },
    {
        if index as usize >= self.entries.len() {
            return Err(LidoError::StaleIndex);
        }
        if *self.entries[index as usize].pubkey() == *key {
            Ok(&mut self.entries[index as usize])
        } else {
            Err(LidoError::StaleIndex)
        }
    }

    /// Removes and returns the entry at `index`, provided its identity is
    /// `key`. The entries after it move down by one position, in order.
    pub fn remove(&mut self, index: u32, key: &Pubkey) -> (result: Result<T, LidoError>)
        requires
            old(self).wf(),
        ensures
            final(self).wf(),
            final(self).capacity() == old(self).capacity(),
            match result {
                Ok(entry) => holds(old(self)@, index, *key) && entry == old(self)@[index as int]
                    && final(self)@ == old(self)@.remove(index as int),
                Err(e) => e == LidoError::StaleIndex && !holds(old(self)@, index, *key) && final(self)@ == old(self)@,
            },
    {
        if index as usize >= self.entries.len() {
            return Err(LidoError::StaleIndex);
        }
        if *self.entries[index as usize].pubkey() == *key {
            let entry = self.entries.remove(index as usize);
            Ok(entry)
        } else {
            Err(LidoError::StaleIndex)
        }
    }

    /// The position of the first entry whose identity is `key`.
    pub fn find(&self, key: &Pubkey) -> (found: Option<u32>)
        requires
            self.wf(),
        ensures
            match found {
                Some(index) => holds(self@, index, *key) && absent_before(
                    self@,
                    index as int,
                    *key,
                ),
                None => absent_before(self@, self@.len() as int, *key),
            },
            found == position_of(self@, *key),
    {
        let mut i: usize = 0;
        while i < self.entries.len()
            invariant
                i <= self.entries.len(),
                self.entries@.len() <= u32::MAX,
                absent_before(self@, i as int, *key),
            decreases self.entries.len() - i,
        {
            if *self.entries[i].pubkey() == *key {
                proof {
                    lemma_position_of(self@, *key, i as u32);
                }
                return Some(i as u32);
            }
            i += 1;
        }
        proof {
            lemma_position_of_absent(self@, *key);
        }
        None
    }
}

/// The first position with an identity is unique.
pub proof fn lemma_position_of<T: ListEntry>(entries: Seq<T>, key: Pubkey, index: u32)
    requires
        holds(entries, index, key),
        absent_before(entries, index as int, key),
    ensures
        position_of(entries, key) == Some(index),
{
    let other = choose|i: u32| holds(entries, i, key) && absent_before(entries, i as int, key);
    assert(holds(entries, other, key) && absent_before(entries, other as int, key));
    if other < index {
        assert(entries[other as int].key() != key);
    }
    if index < other {
        assert(entries[index as int].key() != key);
    }
}

/// An identity that no entry has is found at no position.
pub proof fn lemma_position_of_absent<T: ListEntry>(entries: Seq<T>, key: Pubkey)
    requires
        absent_before(entries, entries.len() as int, key),
    ensures
        position_of(entries, key) is None,
{
    if exists|i: u32| holds(entries, i, key) && absent_before(entries, i as int, key) {
        let i = choose|i: u32| holds(entries, i, key) && absent_before(entries, i as int, key);
        assert(entries[i as int].key() != key);
    }
}

/// Where no two entries have the same identity, an identity is found at
/// the one position that holds it.
pub proof fn lemma_unique_position<T: ListEntry>(entries: Seq<T>, key: Pubkey, index: u32)
    requires
        unique_keys(entries),
        holds(entries, index, key),
    ensures
        position_of(entries, key) == Some(index),
{
    assert forall|j: int| 0 <= j < index && j < entries.len() implies (#[trigger] entries[j]).key()
        != key by {
        assert(entries[j].key() != entries[index as int].key());
    }
    lemma_position_of(entries, key, index);
}

/// An identity that is found at no position is the identity of no entry
/// among the first `end`.
pub proof fn lemma_not_found_is_absent<T: ListEntry>(entries: Seq<T>, key: Pubkey, end: nat)
    requires
        position_of(entries, key) is None,
        end <= entries.len() <= u32::MAX,
    ensures
        absent_before(entries, end as int, key),
    decreases end,
{
    if end > 0 {
        let last = (end - 1) as nat;
        lemma_not_found_is_absent(entries, key, last);
        if entries[last as int].key() == key {
            assert(holds(entries, last as u32, key) && absent_before(entries, last as int, key));
        }
    }
}

/// Appending an entry whose identity no entry has keeps the identities
/// distinct.
pub proof fn lemma_push_keeps_unique<T: ListEntry>(entries: Seq<T>, entry: T)
    requires
        unique_keys(entries),
        absent_before(entries, entries.len() as int, entry.key()),
    ensures
        unique_keys(entries.push(entry)),
{
    let pushed = entries.push(entry);
    assert forall|i: int, j: int| 0 <= i < j < pushed.len() implies (#[trigger] pushed[i]).key() != (
    #[trigger] pushed[j]).key() by {
        assert(pushed[i] == entries[i]);
        if j < entries.len() {
            assert(pushed[j] == entries[j]);
        }
    }
}

/// Removing an entry keeps the identities distinct.
pub proof fn lemma_remove_keeps_unique<T: ListEntry>(entries: Seq<T>, index: int)
    requires
        unique_keys(entries),
        0 <= index < entries.len(),
    ensures
        unique_keys(entries.remove(index)),
{
    let rest = entries.remove(index);
    assert forall|i: int, j: int| 0 <= i < j < rest.len() implies (#[trigger] rest[i]).key() != (
    #[trigger] rest[j]).key() by {
        let from_i = if i < index { i } else { i + 1 };
        let from_j = if j < index { j } else { j + 1 };
        assert(rest[i] == entries[from_i]);
        assert(rest[j] == entries[from_j]);
    }
}

/// Replacing an entry by one with the same identity keeps the identities
/// distinct.
pub proof fn lemma_update_keeps_unique<T: ListEntry>(entries: Seq<T>, index: int, entry: T)
    requires
        unique_keys(entries),
        0 <= index < entries.len(),
        entry.key() == entries[index].key(),
    ensures
        unique_keys(entries.update(index, entry)),
{
    let changed = entries.update(index, entry);
    assert forall|i: int, j: int| 0 <= i < j < changed.len() implies (#[trigger] changed[i]).key()
        != (#[trigger] changed[j]).key() by {
        assert(changed[i].key() == entries[i].key());
        assert(changed[j].key() == entries[j].key());
    }
}

} // verus!
