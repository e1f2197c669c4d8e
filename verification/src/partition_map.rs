//! Maps from partitions.

use vstd::prelude::*;

use crate::repr::PartitionId;

verus! {

/// A map from partitions, each known by its id.
pub struct PartitionMap<T> {
    entries: Vec<(PartitionId, T)>,
}

/// Whether an entry of the sequence belongs to the partition.
spec fn has_entry<T>(entries: Seq<(PartitionId, T)>, id: Seq<char>) -> bool {
    exists|i: int| 0 <= i < entries.len() && (#[trigger] entries[i]).0@ == id
}

/// What an entry of the sequence holds for the partition.
spec fn entry_of<T>(entries: Seq<(PartitionId, T)>, id: Seq<char>) -> T {
    entries[choose|i: int| 0 <= i < entries.len() && (#[trigger] entries[i]).0@ == id].1
}

/// Whether no partition has two entries in the sequence.
spec fn is_unique<T>(entries: Seq<(PartitionId, T)>) -> bool {
    forall|i: int, j: int|
        0 <= i < j < entries.len() ==> (#[trigger] entries[i]).0@ != (#[trigger] entries[j]).0@
}

/// The map that the entries stand for.
spec fn map_of<T>(entries: Seq<(PartitionId, T)>) -> Map<Seq<char>, T> {
    Map::new(|id: Seq<char>| has_entry(entries, id), |id: Seq<char>| entry_of(entries, id))
}

proof fn lemma_entry<T>(entries: Seq<(PartitionId, T)>, i: int)
    requires
        is_unique(entries),
        0 <= i < entries.len(),
    ensures
        map_of(entries).contains_key(entries[i].0@),
        map_of(entries)[entries[i].0@] == entries[i].1,
{
    let id = entries[i].0@;
    let j = choose|j: int| 0 <= j < entries.len() && (#[trigger] entries[j]).0@ == id;
    assert(entries[j].0@ == id);
    assert(i == j);
}

proof fn lemma_push<T>(entries: Seq<(PartitionId, T)>, entry: (PartitionId, T))
    requires
        is_unique(entries),
        !map_of(entries).contains_key(entry.0@),
    ensures
        is_unique(entries.push(entry)),
        map_of(entries.push(entry)) == map_of(entries).insert(entry.0@, entry.1),
{
    let longer = entries.push(entry);
    let n = entries.len() as int;
    assert forall|i: int| 0 <= i < n implies (#[trigger] longer[i]) == entries[i] && longer[i].0@
        != entry.0@ by {
        assert(entries[i].0@ != entry.0@);
    }
    assert(longer[n] == entry);
    assert(is_unique(longer));
    assert forall|id: Seq<char>| #[trigger]
        map_of(longer).contains_key(id) == map_of(entries).insert(entry.0@, entry.1).contains_key(
            id,
        ) by {
        if has_entry(entries, id) {
            let i = choose|i: int| 0 <= i < entries.len() && (#[trigger] entries[i]).0@ == id;
            assert(longer[i].0@ == id);
        }
        if has_entry(longer, id) && id != entry.0@ {
            let i = choose|i: int| 0 <= i < longer.len() && (#[trigger] longer[i]).0@ == id;
            assert(entries[i].0@ == id);
        }
    }
    assert forall|id: Seq<char>| #[trigger] map_of(longer).contains_key(id) implies map_of(
        longer,
    )[id] == map_of(entries).insert(entry.0@, entry.1)[id] by {
        let i = choose|i: int| 0 <= i < longer.len() && (#[trigger] longer[i]).0@ == id;
        lemma_entry(longer, i);
        if i < n {
            lemma_entry(entries, i);
        }
    }
    assert(map_of(longer) =~= map_of(entries).insert(entry.0@, entry.1));
}

proof fn lemma_remove<T>(entries: Seq<(PartitionId, T)>, i: int)
    requires
        is_unique(entries),
        0 <= i < entries.len(),
    ensures
        is_unique(entries.remove(i)),
        map_of(entries.remove(i)) == map_of(entries).remove(entries[i].0@),
{
    let shorter = entries.remove(i);
    let gone = entries[i].0@;
    assert forall|j: int| 0 <= j < shorter.len() implies (#[trigger] shorter[j]) == entries[if j < i {
        j
    } else {
        j + 1
    }] && shorter[j].0@ != gone by {}
    assert(is_unique(shorter));
    assert forall|id: Seq<char>| #[trigger]
        map_of(shorter).contains_key(id) == map_of(entries).remove(gone).contains_key(id) by {
        if has_entry(entries, id) && id != gone {
            let j = choose|j: int| 0 <= j < entries.len() && (#[trigger] entries[j]).0@ == id;
            let k = if j < i {
                j
            } else {
                j - 1
            };
            assert(shorter[k].0@ == id);
        }
        if has_entry(shorter, id) {
            let j = choose|j: int| 0 <= j < shorter.len() && (#[trigger] shorter[j]).0@ == id;
            let k = if j < i {
                j
            } else {
                j + 1
            };
            assert(entries[k].0@ == id);
        }
    }
    assert forall|id: Seq<char>| #[trigger] map_of(shorter).contains_key(id) implies map_of(
        shorter,
    )[id] == map_of(entries).remove(gone)[id] by {
        let j = choose|j: int| 0 <= j < shorter.len() && (#[trigger] shorter[j]).0@ == id;
        lemma_entry(shorter, j);
        lemma_entry(
            entries,
            if j < i {
                j
            } else {
                j + 1
            },
        );
    }
    assert(map_of(shorter) =~= map_of(entries).remove(gone));
}

proof fn lemma_len<T>(entries: Seq<(PartitionId, T)>)
    requires
        is_unique(entries),
    ensures
        map_of(entries).dom().finite(),
        map_of(entries).len() == entries.len(),
    decreases entries.len(),
{
    if entries.len() == 0 {
        assert(map_of(entries) =~= Map::<Seq<char>, T>::empty());
    } else {
        let rest = entries.drop_last();
        let last = entries.last();
        lemma_len(rest);
        assert(rest.push(last) =~= entries);
        assert(!has_entry(rest, last.0@)) by {
            if has_entry(rest, last.0@) {
                let i = choose|i: int| 0 <= i < rest.len() && (#[trigger] rest[i]).0@ == last.0@;
                assert(entries[i].0@ == entries[entries.len() - 1].0@);
            }
        }
        lemma_push(rest, last);
    }
}

impl<T> View for PartitionMap<T> {
    type V = Map<Seq<char>, T>;

    closed spec fn view(&self) -> Map<Seq<char>, T> {
        map_of(self.entries@)
    }
}

impl<T> PartitionMap<T> {
    #[verifier::type_invariant]
    closed spec fn inv(&self) -> bool {
        is_unique(self.entries@)
    }

    /// Makes an empty map.
    pub fn new() -> (res: Self)
        ensures
            res@ == Map::<Seq<char>, T>::empty(),
    {
        let res = PartitionMap { entries: Vec::new() };
        assert(res@ =~= Map::<Seq<char>, T>::empty());
        res
    }

    /// The number of partitions in the map.
    pub fn len(&self) -> (n: usize)
        ensures
            n == self@.len(),
    {
        proof {
            use_type_invariant(self);
            lemma_len(self.entries@);
        }
        self.entries.len()
    }

    fn position(&self, id: &PartitionId) -> (res: Option<usize>)
        ensures
            match res {
                Some(i) => i < self.entries@.len() && self.entries@[i as int].0@ == id@,
                None => !self@.contains_key(id@),
            },
    {
        let mut i: usize = 0;
        while i < self.entries.len()
            invariant
                i <= self.entries@.len(),
                forall|j: int| 0 <= j < i ==> (#[trigger] self.entries@[j]).0@ != id@,
            decreases self.entries@.len() - i,
        {
            if self.entries[i].0.text == id.text {
                return Some(i);
            }
            i += 1;
        }
        None
    }

    /// What the map holds for the partition.
    pub fn get(&self, id: &PartitionId) -> (res: Option<&T>)
        ensures
            match res {
                Some(value) => self@.contains_key(id@) && *value == self@[id@],
                None => !self@.contains_key(id@),
            },
    {
        match self.position(id) {
            Some(i) => {
                proof {
                    use_type_invariant(self);
                    lemma_entry(self.entries@, i as int);
                }
                Some(&self.entries[i].1)
            },
            None => None,
        }
    }

    /// Takes the partition out of the map, and returns what was held for it.
    pub fn remove(&mut self, id: &PartitionId) -> (res: Option<T>)
        ensures
            final(self)@ == old(self)@.remove(id@),
            match res {
                Some(value) => old(self)@.contains_key(id@) && value == old(self)@[id@],
                None => !old(self)@.contains_key(id@),
            },
    {
        match self.position(id) {
            Some(i) => {
                proof {
                    use_type_invariant(&*self);
                    lemma_entry(self.entries@, i as int);
                    lemma_remove(self.entries@, i as int);
                }
                let mut entries: Vec<(PartitionId, T)> = Vec::new();
                std::mem::swap(&mut entries, &mut self.entries);
                let (_, value) = entries.remove(i);
                self.entries = entries;
                Some(value)
            },
            None => {
                assert(self@.remove(id@) =~= self@);
                None
            },
        }
    }

    /// Holds a value for the partition, and returns what was held for it before.
    pub fn insert(&mut self, id: PartitionId, value: T) -> (res: Option<T>)
        ensures
            final(self)@ == old(self)@.insert(id@, value),
            match res {
                Some(before) => old(self)@.contains_key(id@) && before == old(self)@[id@],
                None => !old(self)@.contains_key(id@),
            },
    {
        let before = self.remove(&id);
        proof {
            use_type_invariant(&*self);
            lemma_push(self.entries@, (id, value));
            assert(self@.insert(id@, value) =~= old(self)@.insert(id@, value));
        }
        let mut entries: Vec<(PartitionId, T)> = Vec::new();
        std::mem::swap(&mut entries, &mut self.entries);
        entries.push((id, value));
        self.entries = entries;
        before
    }

    /// Takes some partition out of the map, if there is one.
    pub fn pop(&mut self) -> (res: Option<(PartitionId, T)>)
        ensures
            match res {
                Some((id, value)) => {
                    &&& old(self)@.contains_key(id@)
                    &&& value == old(self)@[id@]
                    &&& final(self)@ == old(self)@.remove(id@)
                    &&& final(self)@.len() == old(self)@.len() - 1
                },
                None => {
                    &&& old(self)@ == Map::<Seq<char>, T>::empty()
                    &&& final(self)@ == old(self)@
                },
            },
    {
        proof {
            use_type_invariant(&*self);
            lemma_len(self.entries@);
            if self.entries@.len() > 0 {
                let last = self.entries@.len() - 1;
                lemma_entry(self.entries@, last);
                lemma_remove(self.entries@, last);
                assert(self.entries@.remove(last) =~= self.entries@.subrange(0, last));
            } else {
                assert(self@ =~= Map::<Seq<char>, T>::empty());
            }
        }
        let mut entries: Vec<(PartitionId, T)> = Vec::new();
        std::mem::swap(&mut entries, &mut self.entries);
        let res = entries.pop();
        self.entries = entries;
        res
    }
}

} // verus!
