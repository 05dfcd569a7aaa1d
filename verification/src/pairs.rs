//! The committed pairs: a map from string keys to string values, kept as a
//! list of entries in which no key occurs twice.

use vstd::prelude::*;

verus! {

/// The map that a list of entries stands for. Entries are applied from the
/// front, so a later entry replaces an earlier one that has the same key.
pub open spec fn map_of(entries: Seq<(String, String)>) -> Map<Seq<char>, Seq<char>>
    decreases entries.len(),
{
    if entries.len() == 0 {
        Map::empty()
    } else {
        map_of(entries.drop_last()).insert(entries.last().0@, entries.last().1@)
    }
}

/// No two entries of the list have the same key.
pub open spec fn distinct_keys(entries: Seq<(String, String)>) -> bool {
    forall|i: int, j: int| 0 <= i < j < entries.len() ==> entries[i].0@ != entries[j].0@
}

/// A key is in the map of a list exactly when some entry carries it.
pub proof fn lemma_map_of_dom(entries: Seq<(String, String)>, key: Seq<char>)
    ensures
        map_of(entries).contains_key(key) <==> exists|i: int|
            0 <= i < entries.len() && #[trigger] entries[i].0@ == key,
    decreases entries.len(),
{
    if entries.len() > 0 {
        let front = entries.drop_last();
        lemma_map_of_dom(front, key);
        if map_of(entries).contains_key(key) {
            if entries.last().0@ == key {
                assert(entries[entries.len() - 1].0@ == key);
            } else {
                let i = choose|i: int| 0 <= i < front.len() && #[trigger] front[i].0@ == key;
                assert(entries[i].0@ == key);
            }
        }
        if exists|i: int| 0 <= i < entries.len() && #[trigger] entries[i].0@ == key {
            let i = choose|i: int| 0 <= i < entries.len() && #[trigger] entries[i].0@ == key;
            if i < entries.len() - 1 {
                assert(front[i].0@ == key);
            }
        }
    }
}

/// The value under a key is that of the last entry that carries the key.
pub proof fn lemma_map_of_last(entries: Seq<(String, String)>, i: int)
    requires
        0 <= i < entries.len(),
        forall|j: int| i < j < entries.len() ==> entries[j].0@ != entries[i].0@,
    ensures
        map_of(entries).contains_key(entries[i].0@),
        map_of(entries)[entries[i].0@] == entries[i].1@,
    decreases entries.len(),
{
    if i < entries.len() - 1 {
        let front = entries.drop_last();
        assert(entries.last().0@ != entries[i].0@);
        assert(front[i] == entries[i]);
        assert forall|j: int| i < j < front.len() implies front[j].0@ != front[i].0@ by {
            assert(front[j] == entries[j]);
        }
        lemma_map_of_last(front, i);
    }
}

/// The map of a list is finite and has at most one key per entry, and exactly
/// one where the keys are distinct.
pub proof fn lemma_map_of_len(entries: Seq<(String, String)>)
    ensures
        map_of(entries).dom().finite(),
        map_of(entries).len() <= entries.len(),
        distinct_keys(entries) ==> map_of(entries).len() == entries.len(),
    decreases entries.len(),
{
    if entries.len() > 0 {
        let front = entries.drop_last();
        lemma_map_of_len(front);
        if distinct_keys(entries) {
            assert forall|i: int, j: int| 0 <= i < j < front.len() implies front[i].0@
                != front[j].0@ by {
                assert(front[i] == entries[i]);
                assert(front[j] == entries[j]);
            }
            lemma_map_of_dom(front, entries.last().0@);
            if map_of(front).contains_key(entries.last().0@) {
                let i = choose|i: int|
                    0 <= i < front.len() && #[trigger] front[i].0@ == entries.last().0@;
                assert(front[i] == entries[i]);
                assert(entries[i].0@ != entries[entries.len() - 1].0@);
            }
        }
    }
}

/// Appending an entry inserts it into the map.
pub proof fn lemma_map_of_push(entries: Seq<(String, String)>, entry: (String, String))
    ensures
        map_of(entries.push(entry)) == map_of(entries).insert(entry.0@, entry.1@),
{
    assert(entries.push(entry).drop_last() =~= entries);
}

/// Replacing the entry at `i` by one with the same key inserts the new entry
/// into the map and keeps the keys distinct.
pub proof fn lemma_map_of_update(entries: Seq<(String, String)>, i: int, entry: (String, String))
    requires
        distinct_keys(entries),
        0 <= i < entries.len(),
        entries[i].0@ == entry.0@,
    ensures
        distinct_keys(entries.update(i, entry)),
        map_of(entries.update(i, entry)) == map_of(entries).insert(entry.0@, entry.1@),
    decreases entries.len(),
{
    let updated = entries.update(i, entry);
    let front = entries.drop_last();
    assert forall|a: int, b: int| 0 <= a < b < updated.len() implies updated[a].0@
        != updated[b].0@ by {
        assert(entries[a].0@ != entries[b].0@);
    }
    if i == entries.len() - 1 {
        assert(updated.drop_last() =~= front);
        assert(map_of(updated) =~= map_of(entries).insert(entry.0@, entry.1@));
    } else {
        assert forall|a: int, b: int| 0 <= a < b < front.len() implies front[a].0@
            != front[b].0@ by {
            assert(front[a] == entries[a]);
            assert(front[b] == entries[b]);
        }
        assert(front[i] == entries[i]);
        lemma_map_of_update(front, i, entry);
        assert(updated.drop_last() =~= front.update(i, entry));
        assert(updated.last() == entries.last());
        assert(entries[i].0@ != entries[entries.len() - 1].0@);
        assert(map_of(updated) =~= map_of(entries).insert(entry.0@, entry.1@));
    }
}

/// Merging one more entry into a map is merging the shorter list and then
/// inserting the entry.
pub proof fn lemma_merge_push(
    base: Map<Seq<char>, Seq<char>>,
    entries: Seq<(String, String)>,
    entry: (String, String),
)
    ensures
        base.union_prefer_right(map_of(entries.push(entry))) == base.union_prefer_right(
            map_of(entries),
        ).insert(entry.0@, entry.1@),
{
    lemma_map_of_push(entries, entry);
    assert(base.union_prefer_right(map_of(entries.push(entry))) =~= base.union_prefer_right(
        map_of(entries),
    ).insert(entry.0@, entry.1@));
}

/// A finite map from string keys to string values.
///
/// The entries are kept in the order in which their keys first arrived; that
/// order carries no meaning, and the view is the map alone.
#[derive(Debug)]
pub struct Pairs {
    entries: Vec<(String, String)>,
}

impl View for Pairs {
    type V = Map<Seq<char>, Seq<char>>;

    closed spec fn view(&self) -> Map<Seq<char>, Seq<char>> {
        map_of(self.entries@)
    }
}

impl Pairs {
    #[verifier::type_invariant]
    spec fn keys_stay_distinct(&self) -> bool {
        distinct_keys(self.entries@)
    }

    /// An empty map.
    pub fn new() -> (pairs: Pairs)
        ensures
            pairs@ == Map::<Seq<char>, Seq<char>>::empty(),
    {
        Pairs { entries: Vec::new() }
    }

    /// The number of keys.
    pub fn len(&self) -> (n: usize)
        ensures
            self@.dom().finite(),
            n == self@.len(),
    {
        proof {
            use_type_invariant(self);
            lemma_map_of_len(self.entries@);
        }
        self.entries.len()
    }

    /// Whether the map holds no key.
    pub fn is_empty(&self) -> (empty: bool)
        ensures
            empty <==> self@ == Map::<Seq<char>, Seq<char>>::empty(),
    {
        proof {
            use_type_invariant(self);
            lemma_map_of_len(self.entries@);
            if self.entries@.len() == 0 {
            } else {
                lemma_map_of_last(self.entries@, self.entries@.len() - 1);
            }
        }
        self.entries.len() == 0
    }

    /// The position of the entry that carries `key`, if there is one.
    fn position(&self, key: &String) -> (found: Option<usize>)
        ensures
            match found {
                Some(i) => i < self.entries@.len() && self.entries@[i as int].0@ == key@,
                None => forall|j: int| 0 <= j < self.entries@.len() ==> self.entries@[j].0@ != key@,
            },
    {
        let mut i: usize = 0;
        while i < self.entries.len()
            invariant
                i <= self.entries@.len(),
                forall|j: int| 0 <= j < i ==> self.entries@[j].0@ != key@,
            decreases self.entries@.len() - i,
        {
            if self.entries[i].0 == *key {
                return Some(i);
            }
            i += 1;
        }
        None
    }

    /// Whether `key` is in the map.
    pub fn contains_key(&self, key: &str) -> (found: bool)
        ensures
            found == self@.contains_key(key@),
    {
        let owned = key.to_owned();
        proof {
            lemma_map_of_dom(self.entries@, key@);
        }
        self.position(&owned).is_some()
    }

    /// The value under `key`, if the map holds the key.
    pub fn get(&self, key: &str) -> (value: Option<&String>)
        ensures
            match value {
                Some(v) => self@.contains_key(key@) && v@ == self@[key@],
                None => !self@.contains_key(key@),
            },
    {
        let owned = key.to_owned();
        proof {
            use_type_invariant(self);
            lemma_map_of_dom(self.entries@, key@);
        }
        match self.position(&owned) {
            Some(i) => {
                proof {
                    lemma_map_of_last(self.entries@, i as int);
                }
                Some(&self.entries[i].1)
            },
            None => None,
        }
    }

    /// Puts `value` under `key`, in place of the value that the key had.
    pub fn insert(&mut self, key: String, value: String)
        ensures
            final(self)@ == old(self)@.insert(key@, value@),
    {
        proof {
            use_type_invariant(&*self);
        }
        let found = self.position(&key);
        let mut entries = Vec::new();
        std::mem::swap(&mut entries, &mut self.entries);
        match found {
            Some(i) => {
                proof {
                    lemma_map_of_update(entries@, i as int, (key, value));
                }
                entries.set(i, (key, value));
            },
            None => {
                proof {
                    lemma_map_of_push(entries@, (key, value));
                }
                entries.push((key, value));
            },
        }
        self.entries = entries;
    }

    /// Merges `entries` into the map, front to back: each entry replaces the
    /// value that its key had, and keys that no entry names stay as they are.
    pub fn extend(&mut self, entries: Vec<(String, String)>)
        ensures
            final(self)@ == old(self)@.union_prefer_right(map_of(entries@)),
    {
        assert(self@.union_prefer_right(map_of(entries@.take(0))) =~= self@);
        for entry in it: entries
            invariant
                self@ == old(self)@.union_prefer_right(map_of(entries@.take(it.index() as int))),
        {
            let (key, value) = entry;
            proof {
                let n = it.index() as int;
                assert(entries@.take(n + 1) =~= entries@.take(n).push(entries@[n]));
                lemma_merge_push(old(self)@, entries@.take(n), entries@[n]);
            }
            self.insert(key, value);
        }
        assert(entries@.take(entries@.len() as int) =~= entries@);
    }

    /// The entries of the map, one per key, in no meaningful order.
    pub fn entries(&self) -> (entries: &Vec<(String, String)>)
        ensures
            distinct_keys(entries@),
            map_of(entries@) == self@,
    {
        proof {
            use_type_invariant(self);
        }
        &self.entries
    }
}

} // verus!
