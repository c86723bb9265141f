//! A table of byte strings under string keys, kept in memory. It stands in
//! for the picture cache and for the blob store.

use vstd::prelude::*;
use crate::names::name_eq;

verus! {

/// One entry.
struct Blob {
    key: String,
    bytes: Vec<u8>,
}

/// The table.
pub struct BlobTable {
    entries: Vec<Blob>,
}

/// The map that a list of entries stands for; a later entry overrides an
/// earlier one of the same key.
spec fn as_map(entries: Seq<Blob>) -> Map<Seq<char>, Seq<u8>>
    decreases entries.len(),
{
    if entries.len() == 0 {
        Map::empty()
    } else {
        as_map(entries.drop_last()).insert(entries.last().key@, entries.last().bytes@)
    }
}

proof fn lemma_as_map_push(entries: Seq<Blob>, entry: Blob)
    ensures
        as_map(entries.push(entry)) == as_map(entries).insert(entry.key@, entry.bytes@),
{
    assert(entries.push(entry).drop_last() =~= entries);
}

impl View for BlobTable {
    type V = Map<Seq<char>, Seq<u8>>;

    closed spec fn view(&self) -> Map<Seq<char>, Seq<u8>> {
        as_map(self.entries@)
    }
}

impl BlobTable {
    /// The empty table.
    pub fn new() -> (table: BlobTable)
        ensures
            table@ == Map::<Seq<char>, Seq<u8>>::empty(),
    {
        BlobTable { entries: Vec::new() }
    }

    /// The bytes under `key`, if there are any.
    pub fn get(&self, key: &str) -> (found: Option<Vec<u8>>)
        ensures
            found is Some <==> self@.contains_key(key@),
            found matches Some(bytes) ==> bytes@ == self@[key@],
    {
        let mut at: Option<usize> = None;
        let mut i: usize = 0;
        while i < self.entries.len()
            invariant
                i <= self.entries.len(),
                at is Some <==> as_map(self.entries@.take(i as int)).contains_key(key@),
                at matches Some(j) ==> j < i && self.entries[j as int].bytes@ == as_map(
                    self.entries@.take(i as int),
                )[key@],
            decreases self.entries.len() - i,
        {
            proof {
                lemma_as_map_push(self.entries@.take(i as int), self.entries[i as int]);
                assert(self.entries@.take(i as int).push(self.entries[i as int])
                    =~= self.entries@.take(i + 1));
            }
            if name_eq(self.entries[i].key.as_str(), key) {
                at = Some(i);
            }
            i += 1;
        }
        assert(self.entries@.take(i as int) =~= self.entries@);
        match at {
            Some(j) => Some(self.entries[j].bytes.clone()),
            None => None,
        }
    }

    /// Removes what is under `key`.
    pub fn remove(&mut self, key: &str)
        ensures
            final(self)@ == old(self)@.remove(key@),
    {
        let mut kept: Vec<Blob> = Vec::new();
        let mut i: usize = 0;
        while i < self.entries.len()
            invariant
                i <= self.entries.len(),
                as_map(kept@) == as_map(self.entries@.take(i as int)).remove(key@),
            decreases self.entries.len() - i,
        {
            proof {
                lemma_as_map_push(self.entries@.take(i as int), self.entries[i as int]);
                assert(self.entries@.take(i as int).push(self.entries[i as int])
                    =~= self.entries@.take(i + 1));
            }
            if !name_eq(self.entries[i].key.as_str(), key) {
                let entry = Blob {
                    key: self.entries[i].key.clone(),
                    bytes: self.entries[i].bytes.clone(),
                };
                proof {
                    lemma_as_map_push(kept@, entry);
                    assert(as_map(kept@.push(entry)) =~= as_map(
                        self.entries@.take(i + 1),
                    ).remove(key@));
                }
                kept.push(entry);
            } else {
                assert(as_map(kept@) =~= as_map(self.entries@.take(i + 1)).remove(key@));
            }
            i += 1;
        }
        assert(self.entries@.take(i as int) =~= self.entries@);
        self.entries = kept;
    }

    /// Puts `bytes` under `key`, in place of what was there.
    pub fn put(&mut self, key: String, bytes: Vec<u8>)
        ensures
            final(self)@ == old(self)@.insert(key@, bytes@),
    {
        self.remove(key.as_str());
        let entry = Blob { key, bytes };
        proof {
            lemma_as_map_push(self.entries@, entry);
            assert(old(self)@.remove(entry.key@).insert(entry.key@, entry.bytes@) =~= old(
                self,
            )@.insert(entry.key@, entry.bytes@));
        }
        self.entries.push(entry);
    }
}

} // verus!
