//! A store of records of one type, each kept under an address. A record is
//! created once, read and overwritten as often as wanted, and never removed.

use crate::accounts::Account;
use crate::address::Address;
use crate::error::LedgerError;
use vstd::prelude::*;

verus! {

/// Whether no two of `entries` are kept under one address.
pub open spec fn distinct_keys<T>(entries: Seq<Account<T>>) -> bool {
    forall|i: int, j: int| 0 <= i < j < entries.len() ==> entries[i].key != entries[j].key
}

/// Whether one of `entries` is kept under `key`.
pub open spec fn has_key<T>(entries: Seq<Account<T>>, key: Address) -> bool {
    exists|i: int| 0 <= i < entries.len() && entries[i].key == key
}

/// The position of the entry kept under `key`. It means something only where
/// there is such an entry.
pub open spec fn position_of<T>(entries: Seq<Account<T>>, key: Address) -> int {
    choose|i: int| 0 <= i < entries.len() && entries[i].key == key
}

/// The record kept under `key`, if there is one.
pub open spec fn record_at<T>(entries: Seq<Account<T>>, key: Address) -> Option<T> {
    if has_key(entries, key) {
        Some(entries[position_of(entries, key)].data)
    } else {
        None
    }
}

/// Where no two entries share an address, the entry at position `i` is the
/// one that its address finds.
pub proof fn lemma_position<T>(entries: Seq<Account<T>>, i: int)
    requires
        distinct_keys(entries),
        0 <= i < entries.len(),
    ensures
        has_key(entries, entries[i].key),
        position_of(entries, entries[i].key) == i,
        record_at(entries, entries[i].key) == Some(entries[i].data),
{
    let key = entries[i].key;
    let j = position_of(entries, key);
    if j < i {
        assert(entries[j].key != entries[i].key);
    } else if i < j {
        assert(entries[i].key != entries[j].key);
    }
}

/// A store of records of type `T`, in the order in which they were created.
pub struct RecordStore<T> {
    entries: Vec<Account<T>>,
}

impl<T> View for RecordStore<T> {
    type V = Seq<Account<T>>;

    closed spec fn view(&self) -> Seq<Account<T>> {
        self.entries@
    }
}

impl<T: Copy> RecordStore<T> {
    /// A store never holds two records under one address.
    pub open spec fn wf(&self) -> bool {
        distinct_keys(self@)
    }

    /// A store without records.
    pub fn new() -> (r: RecordStore<T>)
        ensures
            r@ == Seq::<Account<T>>::empty(),
            r.wf(),
    {
        RecordStore { entries: Vec::new() }
    }

    /// How many records the store holds.
    pub fn len(&self) -> (r: usize)
        ensures
            r == self@.len(),
    {
        self.entries.len()
    }

    /// The position of the record kept under `key`, if there is one.
    pub fn find(&self, key: &Address) -> (r: Option<usize>)
        requires
            self.wf(),
        ensures
            match r {
                Some(i) => i < self@.len() && self@[i as int].key == *key && position_of(
                    self@,
                    *key,
                ) == i,
                None => true,
            },
            r is Some <==> has_key(self@, *key),
    {
        let mut i: usize = 0;
        while i < self.entries.len()
            invariant
                self.wf(),
                i <= self.entries@.len(),
                forall|j: int| 0 <= j < i ==> self.entries@[j].key != *key,
            decreases self.entries@.len() - i,
        {
            if self.entries[i].key == *key {
                proof {
                    lemma_position(self@, i as int);
                }
                return Some(i);
            }
            i += 1;
        }
        None
    }

    /// The record kept under `key`, if there is one.
    pub fn read(&self, key: &Address) -> (r: Option<T>)
        requires
            self.wf(),
        ensures
            r == record_at(self@, *key),
    {
        match self.find(key) {
            Some(i) => Some(self.entries[i].data),
            None => None,
        }
    }

    /// Keeps `record` under `key`, as the last of the records. Fails with
    /// `AlreadyInitialized`, and changes nothing, where a record is kept
    /// under `key` already.
    pub fn create(&mut self, key: Address, record: T) -> (r: Result<(), LedgerError>)
        requires
            old(self).wf(),
        ensures
            final(self).wf(),
            r is Ok <==> !has_key(old(self)@, key),
            r is Ok ==> final(self)@ == old(self)@.push(Account { key, data: record }),
            r is Ok ==> record_at(final(self)@, key) == Some(record),
            r is Ok ==> forall|other: Address|
                other != key ==> #[trigger] record_at(final(self)@, other) == record_at(
                    old(self)@,
                    other,
                ),
            r is Err ==> r == Err::<(), LedgerError>(LedgerError::AlreadyInitialized),
            r is Err ==> final(self)@ == old(self)@,
    {
        if self.find(&key).is_some() {
            return Err(LedgerError::AlreadyInitialized);
        }
        proof {
            assert forall|other: Address| other != key implies #[trigger] record_at(
                old(self)@.push(Account { key, data: record }),
                other,
            ) == record_at(old(self)@, other) by {
                lemma_read_after_write(old(self)@, key, record, other);
            }
            lemma_read_own_write(old(self)@, key, record);
        }
        self.entries.push(Account { key, data: record });
        Ok(())
    }

    /// Replaces the record kept under `key` by `record`. Fails with
    /// `NotInitialized`, and changes nothing, where no record is kept under
    /// `key`.
    pub fn write(&mut self, key: &Address, record: T) -> (r: Result<(), LedgerError>)
        requires
            old(self).wf(),
        ensures
            final(self).wf(),
            r is Ok <==> has_key(old(self)@, *key),
            r is Ok ==> final(self)@ == old(self)@.update(
                position_of(old(self)@, *key),
                Account { key: *key, data: record },
            ),
            r is Ok ==> record_at(final(self)@, *key) == Some(record),
            r is Ok ==> forall|other: Address|
                other != *key ==> #[trigger] record_at(final(self)@, other) == record_at(
                    old(self)@,
                    other,
                ),
            r is Err ==> r == Err::<(), LedgerError>(LedgerError::NotInitialized),
            r is Err ==> final(self)@ == old(self)@,
    {
        match self.find(key) {
            Some(i) => {
                proof {
                    assert forall|other: Address| other != *key implies #[trigger] record_at(
                        old(self)@.update(i as int, Account { key: *key, data: record }),
                        other,
                    ) == record_at(old(self)@, other) by {
                        lemma_read_after_write(old(self)@, *key, record, other);
                    }
                    lemma_read_own_write(old(self)@, *key, record);
                }
                self.entries.set(i, Account { key: *key, data: record });
                Ok(())
            },
            None => Err(LedgerError::NotInitialized),
        }
    }
}

/// What was written is what is read: after a record was created or written
/// under an address, that record is read there.
pub proof fn lemma_read_own_write<T>(entries: Seq<Account<T>>, key: Address, record: T)
    requires
        distinct_keys(entries),
    ensures
        !has_key(entries, key) ==> {
            let created = entries.push(Account { key, data: record });
            distinct_keys(created) && record_at(created, key) == Some(record)
        },
        has_key(entries, key) ==> {
            let written = entries.update(
                position_of(entries, key),
                Account { key, data: record },
            );
            distinct_keys(written) && record_at(written, key) == Some(record)
        },
{
    if !has_key(entries, key) {
        let created = entries.push(Account { key, data: record });
        assert(distinct_keys(created));
        lemma_position(created, entries.len() as int);
    } else {
        let p = position_of(entries, key);
        let written = entries.update(p, Account { key, data: record });
        assert(distinct_keys(written));
        lemma_position(written, p);
    }
}

/// Writing leaves the other records alone: after a record was created or
/// written under an address, every other address reads what it read before.
pub proof fn lemma_read_after_write<T>(
    entries: Seq<Account<T>>,
    key: Address,
    record: T,
    other: Address,
)
    requires
        distinct_keys(entries),
        other != key,
    ensures
        !has_key(entries, key) ==> record_at(
            entries.push(Account { key, data: record }),
            other,
        ) == record_at(entries, other),
        has_key(entries, key) ==> record_at(
            entries.update(position_of(entries, key), Account { key, data: record }),
            other,
        ) == record_at(entries, other),
{
    lemma_read_own_write(entries, key, record);
    if !has_key(entries, key) {
        let created = entries.push(Account { key, data: record });
        if has_key(entries, other) {
            let i = position_of(entries, other);
            assert(created[i].key == other);
            lemma_position(created, i);
            lemma_position(entries, i);
        } else {
            if has_key(created, other) {
                let i = position_of(created, other);
                assert(i < entries.len());
                assert(entries[i].key == other);
            }
        }
    } else {
        let p = position_of(entries, key);
        let written = entries.update(p, Account { key, data: record });
        if has_key(entries, other) {
            let i = position_of(entries, other);
            assert(written[i].key == other);
            lemma_position(written, i);
            lemma_position(entries, i);
        } else {
            if has_key(written, other) {
                let i = position_of(written, other);
                assert(entries[i].key == other);
            }
        }
    }
}

} // verus!
