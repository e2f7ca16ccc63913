//! A table keyed by clepsydra id: at most one value per id, kept in the
//! order in which the ids were first recorded.

use vstd::prelude::*;

verus! {

/// The ids of a sequence of entries.
spec fn ids_of<V>(entries: Seq<(String, V)>) -> Seq<Seq<char>> {
    entries.map_values(|e: (String, V)| e.0@)
}

/// A sequence of entries read as a map from ids to values.
spec fn map_of<V>(entries: Seq<(String, V)>) -> Map<Seq<char>, V> {
    Map::new(
        |k: Seq<char>| ids_of(entries).contains(k),
        |k: Seq<char>| entries[ids_of(entries).index_of(k)].1,
    )
}

/// In entries without repeated ids, an id is found at its own position.
proof fn lemma_index_of<V>(entries: Seq<(String, V)>, i: int)
    requires
        ids_of(entries).no_duplicates(),
        0 <= i < entries.len(),
    ensures
        ids_of(entries).index_of(entries[i].0@) == i,
        map_of(entries).contains_key(entries[i].0@),
        map_of(entries)[entries[i].0@] == entries[i].1,
{
    assert(ids_of(entries)[i] == entries[i].0@);
    assert(ids_of(entries).contains(entries[i].0@));
}

/// Appending an entry with a new id adds that id to the map.
proof fn lemma_push<V>(entries: Seq<(String, V)>, id: String, value: V)
    requires
        ids_of(entries).no_duplicates(),
        !ids_of(entries).contains(id@),
    ensures
        ids_of(entries.push((id, value))) == ids_of(entries).push(id@),
        ids_of(entries.push((id, value))).no_duplicates(),
        map_of(entries.push((id, value))) == map_of(entries).insert(id@, value),
{
    let after = entries.push((id, value));
    assert(ids_of(after) =~= ids_of(entries).push(id@));
    assert forall|k: Seq<char>| ids_of(after).contains(k) implies
        after[ids_of(after).index_of(k)].1 == map_of(entries).insert(id@, value)[k] by {
        let j = ids_of(after).index_of(k);
        assert(0 <= j < after.len() && ids_of(after)[j] == k);
        if k == id@ {
            lemma_index_of(after, entries.len() as int);
        } else {
            assert(ids_of(entries)[j] == k);
            lemma_index_of(entries, j);
        }
    }
    assert forall|k: Seq<char>| map_of(entries).insert(id@, value).contains_key(k) implies
        ids_of(after).contains(k) by {
        if k != id@ {
            let j = ids_of(entries).index_of(k);
            assert(ids_of(after)[j] == k);
        } else {
            assert(ids_of(after)[entries.len() as int] == k);
        }
    }
    assert(map_of(after) =~= map_of(entries).insert(id@, value));
}

/// Replacing the value at a position keeps the ids and changes one value.
proof fn lemma_update<V>(entries: Seq<(String, V)>, i: int, id: String, value: V)
    requires
        ids_of(entries).no_duplicates(),
        0 <= i < entries.len(),
        entries[i].0@ == id@,
    ensures
        ids_of(entries.update(i, (id, value))) == ids_of(entries),
        map_of(entries.update(i, (id, value))) == map_of(entries).insert(id@, value),
{
    let after = entries.update(i, (id, value));
    assert(ids_of(after) =~= ids_of(entries));
    assert forall|k: Seq<char>| ids_of(after).contains(k) implies
        after[ids_of(after).index_of(k)].1 == map_of(entries).insert(id@, value)[k] by {
        let j = ids_of(after).index_of(k);
        assert(0 <= j < after.len() && ids_of(after)[j] == k);
        assert(ids_of(entries)[j] == k);
        lemma_index_of(entries, j);
        if k == id@ {
            lemma_index_of(entries, i);
        }
    }
    assert forall|k: Seq<char>| map_of(entries).insert(id@, value).contains_key(k) implies
        ids_of(after).contains(k) by {
        if k != id@ {
            let j = ids_of(entries).index_of(k);
            assert(ids_of(after)[j] == k);
        } else {
            assert(ids_of(after)[i] == k);
        }
    }
    assert(map_of(after) =~= map_of(entries).insert(id@, value));
}

/// The map of entries without repeated ids has one key per entry.
proof fn lemma_len<V>(entries: Seq<(String, V)>)
    requires
        ids_of(entries).no_duplicates(),
    ensures
        map_of(entries).len() == entries.len(),
{
    ids_of(entries).unique_seq_to_set();
    assert(map_of(entries).dom() =~= ids_of(entries).to_set());
}

/// A map from clepsydra ids to values.
pub struct IdTable<V> {
    entries: Vec<(String, V)>,
}

impl<V> IdTable<V> {
    /// The ids in the table, in the order in which they were first recorded.
    pub closed spec fn ids(&self) -> Seq<Seq<char>> {
        ids_of(self.entries@)
    }

    /// No id occurs twice.
    #[verifier::type_invariant]
    closed spec fn unique_ids(&self) -> bool {
        self.ids().no_duplicates()
    }

    /// The ids list the keys of the table's map, each exactly once.
    pub open spec fn ids_list_keys_once(&self) -> bool {
        &&& self.ids().no_duplicates()
        &&& forall|k: Seq<char>| #[trigger] self@.contains_key(k) <==> self.ids().contains(k)
    }

    /// The type invariant, as the public `ids_list_keys_once`.
    proof fn lemma_keys_once(&self)
        requires
            self.unique_ids(),
        ensures
            self.ids_list_keys_once(),
    {
        assert forall|k: Seq<char>| #[trigger] self@.contains_key(k) <==> self.ids().contains(k) by {
        }
    }

    /// The table as a map from ids to values.
    pub closed spec fn as_map(&self) -> Map<Seq<char>, V> {
        map_of(self.entries@)
    }

    /// The position of `id` in the table, if it is there.
    fn position(&self, id: &String) -> (pos: Option<usize>)
        ensures
            match pos {
                Some(i) => i < self.ids().len() && self.ids()[i as int] == id@,
                None => !self.ids().contains(id@),
            },
    {
        let n = self.entries.len();
        let mut i: usize = 0;
        while i < n
            invariant
                n == self.entries@.len(),
                i <= n,
                forall|j: int| 0 <= j < i ==> self.ids()[j] != id@,
            decreases n - i,
        {
            if self.entries[i].0 == *id {
                return Some(i);
            }
            i = i + 1;
        }
        None
    }

    /// An empty table.
    pub fn new() -> (table: Self)
        ensures
            table@ == Map::<Seq<char>, V>::empty(),
            table.ids() == Seq::<Seq<char>>::empty(),
            table.ids_list_keys_once(),
    {
        let table = IdTable { entries: Vec::new() };
        assert(table.ids() =~= Seq::<Seq<char>>::empty());
        assert(table@ =~= Map::<Seq<char>, V>::empty());
        proof { table.lemma_keys_once(); }
        table
    }

    /// How many ids the table holds.
    pub fn len(&self) -> (n: usize)
        ensures
            n == self@.len(),
            n == self.ids().len(),
            self.ids_list_keys_once(),
    {
        proof {
            use_type_invariant(self);
            self.lemma_keys_once();
            lemma_len(self.entries@);
        }
        self.entries.len()
    }

    /// The value recorded for `id`, if any.
    pub fn get(&self, id: &String) -> (value: Option<&V>)
        ensures
            match value {
                Some(v) => self@.contains_key(id@) && *v == self@[id@],
                None => !self@.contains_key(id@),
            },
            self.ids_list_keys_once(),
    {
        proof {
            use_type_invariant(self);
            self.lemma_keys_once();
        }
        match self.position(id) {
            Some(i) => {
                proof { lemma_index_of(self.entries@, i as int); }
                Some(&self.entries[i].1)
            },
            None => None,
        }
    }

    /// The value recorded for `id`, or `default` where there is none.
    pub fn get_or(&self, id: &String, default: V) -> (value: V)
        where
            V: Copy,
        ensures
            value == (if self@.contains_key(id@) { self@[id@] } else { default }),
            self.ids_list_keys_once(),
    {
        match self.get(id) {
            Some(v) => *v,
            None => default,
        }
    }

    /// The id at position `i`, in the order in which ids were first recorded.
    pub fn id_at(&self, i: usize) -> (id: &String)
        requires
            i < self.ids().len(),
        ensures
            id@ == self.ids()[i as int],
            self@.contains_key(id@),
            self.ids_list_keys_once(),
    {
        proof {
            use_type_invariant(self);
            self.lemma_keys_once();
            lemma_index_of(self.entries@, i as int);
        }
        &self.entries[i].0
    }

    /// The value recorded for the id at position `i`.
    pub fn value_at(&self, i: usize) -> (value: &V)
        requires
            i < self.ids().len(),
        ensures
            self@.contains_key(self.ids()[i as int]),
            *value == self@[self.ids()[i as int]],
            self.ids_list_keys_once(),
    {
        proof {
            use_type_invariant(self);
            self.lemma_keys_once();
            lemma_index_of(self.entries@, i as int);
        }
        &self.entries[i].1
    }

    /// Clones of the values, in the order of `ids()`.
    pub fn values(&self) -> (out: Vec<V>)
        where
            V: Clone,
        ensures
            self.ids_list_keys_once(),
            out@.len() == self.ids().len(),
            forall|i: int| 0 <= i < out@.len() ==> cloned(self@[self.ids()[i]], #[trigger] out@[i]),
    {
        let n = self.len();
        let mut out: Vec<V> = Vec::new();
        let mut i: usize = 0;
        while i < n
            invariant
                n == self.ids().len(),
                i <= n,
                out@.len() == i,
                forall|j: int| 0 <= j < i ==> cloned(self@[self.ids()[j]], #[trigger] out@[j]),
            decreases n - i,
        {
            let v = self.value_at(i).clone();
            out.push(v);
            i = i + 1;
        }
        out
    }

    /// Records `value` for `id`, replacing any value recorded before.
    pub fn insert(&mut self, id: String, value: V)
        ensures
            final(self)@ == old(self)@.insert(id@, value),
            old(self).ids().contains(id@) ==> final(self).ids() == old(self).ids(),
            !old(self).ids().contains(id@) ==> final(self).ids() == old(self).ids().push(id@),
            final(self).ids_list_keys_once(),
    {
        proof { use_type_invariant(&*self); }
        let pos = self.position(&id);
        let mut entries: Vec<(String, V)> = Vec::new();
        std::mem::swap(&mut entries, &mut self.entries);
        match pos {
            Some(i) => {
                proof { lemma_update(entries@, i as int, id, value); }
                entries.set(i, (id, value));
            },
            None => {
                proof { lemma_push(entries@, id, value); }
                entries.push((id, value));
            },
        }
        self.entries = entries;
        proof { self.lemma_keys_once(); }
    }
}

/// For each id of `keys`, in order, the value recorded for it in `values`,
/// or `default` where there is none.
pub fn values_for_ids<K, V: Copy>(keys: &IdTable<K>, values: &IdTable<V>, default: V) -> (out: Vec<V>)
    ensures
        keys.ids_list_keys_once(),
        out@.len() == keys.ids().len(),
        forall|i: int| 0 <= i < out@.len() ==> #[trigger] out@[i] == (if values@.contains_key(keys.ids()[i]) {
            values@[keys.ids()[i]]
        } else {
            default
        }),
{
    let n = keys.len();
    let mut out: Vec<V> = Vec::new();
    let mut i: usize = 0;
    while i < n
        invariant
            n == keys.ids().len(),
            i <= n,
            out@.len() == i,
            forall|j: int| 0 <= j < i ==> #[trigger] out@[j] == (if values@.contains_key(keys.ids()[j]) {
                values@[keys.ids()[j]]
            } else {
                default
            }),
        decreases n - i,
    {
        let v = values.get_or(keys.id_at(i), default);
        out.push(v);
        i = i + 1;
    }
    out
}

/// After `insert(id, value)`, a lookup of `id` gives back `value`, and
/// every other id keeps what it had (or stays absent).
pub proof fn insert_then_get<V>(before: Map<Seq<char>, V>, id: Seq<char>, value: V, other: Seq<char>)
    ensures
        before.insert(id, value).contains_key(id),
        before.insert(id, value)[id] == value,
        other != id ==> before.insert(id, value).contains_key(other) == before.contains_key(other),
        other != id && before.contains_key(other) ==> before.insert(id, value)[other] == before[other],
{
}

impl<V> View for IdTable<V> {
    type V = Map<Seq<char>, V>;

    open spec fn view(&self) -> Map<Seq<char>, V> {
        self.as_map()
    }
}

} // verus!
