//! The response cache: completed responses, kept under the encoding of the
//! identifier that names them.

use vstd::prelude::*;

verus! {

/// One cached response.
#[derive(Debug)]
pub struct Entry {
    key: Vec<u8>,
    value: Vec<u8>,
}

/// A map from keys to values in which a later write for a key replaces the
/// earlier one.
#[derive(Debug)]
pub struct ResponseCache {
    entries: Vec<Entry>,
}

/// No key stands at two places.
pub closed spec fn keys_distinct(entries: Seq<Entry>) -> bool {
    forall|i: int, j: int|
        0 <= i < j < entries.len() ==> (#[trigger] entries[i]).key@ != (#[trigger] entries[j]).key@
}

/// The map that a list of entries stands for.
pub closed spec fn entries_map(entries: Seq<Entry>) -> Map<Seq<u8>, Seq<u8>>
    decreases entries.len(),
{
    if entries.len() == 0 {
        Map::empty()
    } else {
        entries_map(entries.drop_last()).insert(entries.last().key@, entries.last().value@)
    }
}

proof fn lemma_absent(entries: Seq<Entry>, key: Seq<u8>)
    requires
        forall|i: int| 0 <= i < entries.len() ==> (#[trigger] entries[i]).key@ != key,
    ensures
        !entries_map(entries).contains_key(key),
    decreases entries.len(),
{
    if entries.len() > 0 {
        lemma_absent(entries.drop_last(), key);
    }
}

proof fn lemma_present(entries: Seq<Entry>, at: int)
    requires
        keys_distinct(entries),
        0 <= at < entries.len(),
    ensures
        entries_map(entries).contains_key(entries[at].key@),
        entries_map(entries)[entries[at].key@] == entries[at].value@,
    decreases entries.len(),
{
    if at < entries.len() - 1 {
        lemma_present(entries.drop_last(), at);
    }
}

proof fn lemma_replaced(entries: Seq<Entry>, at: int, entry: Entry)
    requires
        keys_distinct(entries),
        0 <= at < entries.len(),
        entry.key@ == entries[at].key@,
    ensures
        keys_distinct(entries.update(at, entry)),
        entries_map(entries.update(at, entry)) == entries_map(entries).insert(
            entry.key@,
            entry.value@,
        ),
    decreases entries.len(),
{
    let updated = entries.update(at, entry);
    if at == entries.len() - 1 {
        assert(updated.drop_last() =~= entries.drop_last());
        assert(entries_map(updated) =~= entries_map(entries).insert(entry.key@, entry.value@));
    } else {
        lemma_replaced(entries.drop_last(), at, entry);
        assert(updated.drop_last() =~= entries.drop_last().update(at, entry));
        assert(updated.last() == entries.last());
        assert(entries[at].key@ != entries[entries.len() - 1].key@);
        assert(entries_map(updated) =~= entries_map(entries).insert(entry.key@, entry.value@));
    }
}

fn bytes_equal(a: &[u8], b: &[u8]) -> (equal: bool)
    ensures
        equal == (a@ == b@),
{
    if a.len() != b.len() {
        return false;
    }
    let mut i: usize = 0;
    while i < a.len()
        invariant
            i <= a.len(),
            a.len() == b.len(),
            forall|k: int| 0 <= k < i ==> a@[k] == b@[k],
        decreases a.len() - i,
    {
        if a[i] != b[i] {
            return false;
        }
        i = i + 1;
    }
    assert(a@ =~= b@);
    true
}

impl View for ResponseCache {
    type V = Map<Seq<u8>, Seq<u8>>;

    closed spec fn view(&self) -> Map<Seq<u8>, Seq<u8>> {
        entries_map(self.entries@)
    }
}

impl ResponseCache {
    #[verifier::type_invariant]
    spec fn well_formed(self) -> bool {
        keys_distinct(self.entries@)
    }

    /// A cache that holds nothing.
    pub fn new() -> (cache: ResponseCache)
        ensures
            cache@ == Map::<Seq<u8>, Seq<u8>>::empty(),
    {
        ResponseCache { entries: Vec::new() }
    }

    fn position(&self, key: &[u8]) -> (at: Option<usize>)
        ensures
            match at {
                Some(i) => i < self.entries@.len() && self.entries@[i as int].key@ == key@,
                None => forall|i: int|
                    0 <= i < self.entries@.len() ==> (#[trigger] self.entries@[i]).key@ != key@,
            },
    {
        let mut i: usize = 0;
        while i < self.entries.len()
            invariant
                i <= self.entries@.len(),
                forall|k: int| 0 <= k < i ==> (#[trigger] self.entries@[k]).key@ != key@,
            decreases self.entries@.len() - i,
        {
            if bytes_equal(self.entries[i].key.as_slice(), key) {
                return Some(i);
            }
            i = i + 1;
        }
        None
    }

    /// The value cached under `key`, if there is one.
    pub fn get(&self, key: &[u8]) -> (found: Option<&Vec<u8>>)
        ensures
            match found {
                Some(value) => self@.contains_key(key@) && self@[key@] == value@,
                None => !self@.contains_key(key@),
            },
    {
        proof {
            use_type_invariant(self);
        }
        match self.position(key) {
            Some(i) => {
                proof {
                    lemma_present(self.entries@, i as int);
                }
                Some(&self.entries[i].value)
            },
            None => {
                proof {
                    lemma_absent(self.entries@, key@);
                }
                None
            },
        }
    }

    /// Caches `value` under `key`; a value cached there before is replaced.
    pub fn insert(&mut self, key: Vec<u8>, value: Vec<u8>)
        ensures
            final(self)@ == old(self)@.insert(key@, value@),
    {
        proof {
            use_type_invariant(&*self);
        }
        let at = self.position(key.as_slice());
        let entry = Entry { key, value };
        match at {
            Some(i) => {
                proof {
                    lemma_replaced(self.entries@, i as int, entry);
                }
                let mut entries: Vec<Entry> = Vec::new();
                core::mem::swap(&mut self.entries, &mut entries);
                entries.set(i, entry);
                self.entries = entries;
            },
            None => {
                let mut entries: Vec<Entry> = Vec::new();
                core::mem::swap(&mut self.entries, &mut entries);
                assert(entries@.push(entry).drop_last() =~= entries@);
                assert(keys_distinct(entries@.push(entry)));
                entries.push(entry);
                self.entries = entries;
            },
        }
    }
}

} // verus!
