//! A store of records keyed by text, kept in insertion order.

use vstd::prelude::*;

verus! {

/// Records under distinct text keys. Its view is the map from each key's
/// characters to the record stored under it.
pub struct Registry<V> {
    keys: Vec<String>,
    values: Vec<V>,
}

/// Whether `key` is the text of one of `keys`.
pub open spec fn holds_key(keys: Seq<String>, key: Seq<char>) -> bool {
    exists|i: int| 0 <= i < keys.len() && #[trigger] keys[i]@ == key
}

/// An index at which `keys` holds `key`, where it holds it.
pub open spec fn index_of(keys: Seq<String>, key: Seq<char>) -> int {
    choose|i: int| 0 <= i < keys.len() && #[trigger] keys[i]@ == key
}

/// No two of `keys` have the same text.
pub open spec fn distinct_keys(keys: Seq<String>) -> bool {
    forall|i: int, j: int|
        0 <= i < keys.len() && 0 <= j < keys.len() && i != j ==> #[trigger] keys[i]@
            != #[trigger] keys[j]@
}

impl<V> View for Registry<V> {
    type V = Map<Seq<char>, V>;

    closed spec fn view(&self) -> Map<Seq<char>, V> {
        Map::new(
            |key: Seq<char>| holds_key(self.keys@, key),
            |key: Seq<char>| self.values@[index_of(self.keys@, key)],
        )
    }
}

impl<V> Registry<V> {
    /// Keys and records pair up, and no key occurs twice.
    pub closed spec fn wf(&self) -> bool {
        &&& self.keys@.len() == self.values@.len()
        &&& distinct_keys(self.keys@)
    }

    /// The texts of the keys, oldest first.
    pub closed spec fn key_order(&self) -> Seq<Seq<char>> {
        Seq::new(self.keys@.len(), |i: int| self.keys@[i]@)
    }

    /// In a well-formed registry the key order lists the view's domain, each
    /// key once: the domain is finite and has as many keys as the order.
    pub proof fn lemma_key_order(&self)
        requires
            self.wf(),
        ensures
            self.key_order().no_duplicates(),
            forall|key: Seq<char>| self.key_order().contains(key) <==> self@.contains_key(key),
            self@.dom().finite(),
            self@.dom().len() == self.key_order().len(),
    {
        let order = self.key_order();
        assert(order.to_set() =~= self@.dom()) by {
            assert forall|key: Seq<char>| order.to_set().contains(key) <==> self@.dom().contains(
                key,
            ) by {
                if order.contains(key) {
                    let i = choose|i: int| 0 <= i < order.len() && order[i] == key;
                    assert(self.keys@[i]@ == key);
                }
                if self@.contains_key(key) {
                    let i = index_of(self.keys@, key);
                    assert(order[i] == key);
                }
            }
        }
        vstd::seq_lib::seq_to_set_is_finite(order);
        order.unique_seq_to_set();
        assert forall|key: Seq<char>| order.contains(key) <==> self@.contains_key(key) by {
            if order.contains(key) {
                let i = choose|i: int| 0 <= i < order.len() && order[i] == key;
                assert(self.keys@[i]@ == key);
            }
            if self@.contains_key(key) {
                let i = index_of(self.keys@, key);
                assert(order[i] == key);
            }
        }
    }

    proof fn lemma_entry(&self, i: int)
        requires
            self.wf(),
            0 <= i < self.keys@.len(),
        ensures
            self@.contains_key(self.keys@[i]@),
            self@[self.keys@[i]@] == self.values@[i],
            index_of(self.keys@, self.keys@[i]@) == i,
    {
        let key = self.keys@[i]@;
        assert(holds_key(self.keys@, key));
        let j = index_of(self.keys@, key);
        assert(self.keys@[j]@ == key);
    }

    /// An empty registry.
    pub fn new() -> (registry: Self)
        ensures
            registry.wf(),
            registry@ == Map::<Seq<char>, V>::empty(),
    {
        let registry = Registry { keys: Vec::new(), values: Vec::new() };
        assert(registry@ =~= Map::<Seq<char>, V>::empty());
        registry
    }

    /// How many records are stored.
    pub fn len(&self) -> (count: usize)
        requires
            self.wf(),
        ensures
            count == self@.dom().len(),
            count == self.key_order().len(),
    {
        proof {
            self.lemma_key_order();
        }
        self.keys.len()
    }

    fn find(&self, key: &String) -> (found: Option<usize>)
        requires
            self.wf(),
        ensures
            match found {
                Some(i) => i < self.keys@.len() && self.keys@[i as int]@ == key@,
                None => !holds_key(self.keys@, key@),
            },
    {
        let mut i: usize = 0;
        while i < self.keys.len()
            invariant
                i <= self.keys@.len(),
                forall|j: int| 0 <= j < i ==> self.keys@[j]@ != key@,
            decreases self.keys@.len() - i,
        {
            if self.keys[i] == *key {
                return Some(i);
            }
            i += 1;
        }
        None
    }

    /// The keys, oldest first.
    pub fn keys(&self) -> (keys: Vec<String>)
        requires
            self.wf(),
        ensures
            texts(keys@) == self.key_order(),
            texts(keys@).no_duplicates(),
            forall|key: Seq<char>| texts(keys@).contains(key) <==> self@.contains_key(key),
    {
        let keys = copy_list(&self.keys);
        proof {
            assert(texts(keys@) =~= self.key_order());
            self.lemma_key_order();
        }
        keys
    }

    /// Whether a record is stored under `key`.
    pub fn contains_key(&self, key: &String) -> (present: bool)
        requires
            self.wf(),
        ensures
            present == self@.contains_key(key@),
    {
        self.find(key).is_some()
    }

    /// The record stored under `key`, if there is one.
    pub fn get(&self, key: &String) -> (record: Option<&V>)
        requires
            self.wf(),
        ensures
            match record {
                Some(v) => self@.contains_key(key@) && *v == self@[key@],
                None => !self@.contains_key(key@),
            },
    {
        match self.find(key) {
            Some(i) => {
                proof {
                    self.lemma_entry(i as int);
                }
                Some(&self.values[i])
            },
            None => None,
        }
    }

    /// Stores `value` under `key`, in place of what was stored there.
    pub fn insert(&mut self, key: String, value: V)
        requires
            old(self).wf(),
        ensures
            final(self).wf(),
            final(self)@ == old(self)@.insert(key@, value),
            final(self).key_order() == if old(self)@.contains_key(key@) {
                old(self).key_order()
            } else {
                old(self).key_order().push(key@)
            },
    {
        let ghost before = *self;
        match self.find(&key) {
            Some(i) => {
                self.values.set(i, value);
                proof {
                    before.lemma_entry(i as int);
                    assert(self.wf());
                    assert forall|k: Seq<char>| #[trigger]
                        self@.contains_key(k) implies self@[k] == before@.insert(key@, value)[k] by {
                        let j = index_of(self.keys@, k);
                        self.lemma_entry(j);
                        before.lemma_entry(j);
                    }
                    assert(self@ =~= before@.insert(key@, value));
                    assert(self.key_order() =~= before.key_order());
                }
            },
            None => {
                self.keys.push(key);
                self.values.push(value);
                proof {
                    let n = before.keys@.len() as int;
                    assert(self.keys@[n]@ == key@);
                    assert(distinct_keys(self.keys@)) by {
                        assert forall|i: int, j: int|
                            0 <= i < self.keys@.len() && 0 <= j < self.keys@.len() && i
                                != j implies #[trigger] self.keys@[i]@ != #[trigger] self.keys@[j]@ by {
                            if i < n && j < n {
                                assert(before.keys@[i]@ != before.keys@[j]@);
                            } else if i < n {
                                assert(before.keys@[i]@ != key@);
                            } else {
                                assert(before.keys@[j]@ != key@);
                            }
                        }
                    }
                    self.lemma_entry(n);
                    assert forall|k: Seq<char>|
                        before@.insert(key@, value).contains_key(k) implies #[trigger]
                        self@.contains_key(k) && self@[k] == before@.insert(key@, value)[k] by {
                        if k != key@ {
                            let j = index_of(before.keys@, k);
                            before.lemma_entry(j);
                            assert(self.keys@[j]@ == k);
                            self.lemma_entry(j);
                        }
                    }
                    assert forall|k: Seq<char>| #[trigger]
                        self@.contains_key(k) implies before@.insert(key@, value).contains_key(
                        k,
                    ) by {
                        let j = index_of(self.keys@, k);
                        if j < n {
                            assert(before.keys@[j]@ == k);
                        }
                    }
                    assert(self@ =~= before@.insert(key@, value));
                    assert(self.key_order() =~= before.key_order().push(key@));
                }
            },
        }
    }

    /// Takes out the record stored under `key`, if there is one.
    pub fn remove(&mut self, key: &String) -> (removed: Option<V>)
        requires
            old(self).wf(),
        ensures
            final(self).wf(),
            final(self)@ == old(self)@.remove(key@),
            removed == if old(self)@.contains_key(key@) {
                Some(old(self)@[key@])
            } else {
                None
            },
    {
        let ghost before = *self;
        match self.find(key) {
            Some(i) => {
                self.keys.remove(i);
                let value = self.values.remove(i);
                proof {
                    let at = i as int;
                    before.lemma_entry(at);
                    assert forall|a: int, b: int|
                        0 <= a < self.keys@.len() && 0 <= b < self.keys@.len() && a
                            != b implies #[trigger] self.keys@[a]@ != #[trigger] self.keys@[b]@ by {
                        let a0 = if a < at { a } else { a + 1 };
                        let b0 = if b < at { b } else { b + 1 };
                        assert(before.keys@[a0]@ != before.keys@[b0]@);
                    }
                    assert(self.wf());
                    assert forall|k: Seq<char>|
                        before@.remove(key@).contains_key(k) implies #[trigger]
                        self@.contains_key(k) && self@[k] == before@[k] by {
                        let j = index_of(before.keys@, k);
                        before.lemma_entry(j);
                        let j1 = if j < at { j } else { j - 1 };
                        assert(self.keys@[j1]@ == k);
                        self.lemma_entry(j1);
                    }
                    assert forall|k: Seq<char>| #[trigger]
                        self@.contains_key(k) implies before@.remove(key@).contains_key(k) by {
                        let j = index_of(self.keys@, k);
                        let j0 = if j < at { j } else { j + 1 };
                        assert(before.keys@[j0]@ == k);
                        before.lemma_entry(j0);
                    }
                    assert(self@ =~= before@.remove(key@));
                }
                Some(value)
            },
            None => {
                assert(self@ =~= before@.remove(key@));
                None
            },
        }
    }
}

/// The texts of a list of strings, in order.
pub open spec fn texts(list: Seq<String>) -> Seq<Seq<char>> {
    Seq::new(list.len(), |i: int| list[i]@)
}

/// What an index lists under `key`: nothing where the key is absent.
pub open spec fn listed(index: Map<Seq<char>, Seq<Seq<char>>>, key: Seq<char>) -> Seq<Seq<char>> {
    if index.contains_key(key) {
        index[key]
    } else {
        Seq::empty()
    }
}

/// A copy of a list of strings.
pub fn copy_list(list: &Vec<String>) -> (copy: Vec<String>)
    ensures
        copy@ == list@,
{
    let mut copy: Vec<String> = Vec::new();
    let mut i: usize = 0;
    while i < list.len()
        invariant
            i <= list@.len(),
            copy@ == list@.subrange(0, i as int),
        decreases list@.len() - i,
    {
        copy.push(list[i].clone());
        assert(copy@ =~= list@.subrange(0, i + 1));
        i += 1;
    }
    assert(list@.subrange(0, list@.len() as int) =~= list@);
    copy
}

/// Whether `list` holds a string with the text of `id`.
pub fn list_holds(list: &Vec<String>, id: &String) -> (present: bool)
    ensures
        present == texts(list@).contains(id@),
{
    let mut i: usize = 0;
    while i < list.len()
        invariant
            i <= list@.len(),
            forall|j: int| 0 <= j < i ==> list@[j]@ != id@,
        decreases list@.len() - i,
    {
        if list[i] == *id {
            assert(texts(list@)[i as int] == id@);
            return true;
        }
        i += 1;
    }
    assert forall|j: int| 0 <= j < texts(list@).len() implies texts(list@)[j] != id@ by {
        assert(list@[j]@ != id@);
    }
    false
}

/// For each owner, the ids of the records it owns, oldest first. Its view
/// maps an owner's text to the texts of those ids.
pub struct Index {
    lists: Registry<Vec<String>>,
}

impl View for Index {
    type V = Map<Seq<char>, Seq<Seq<char>>>;

    closed spec fn view(&self) -> Map<Seq<char>, Seq<Seq<char>>> {
        self.lists@.map_values(|list: Vec<String>| texts(list@))
    }
}

impl Index {
    /// The underlying registry is well formed.
    pub closed spec fn wf(&self) -> bool {
        self.lists.wf()
    }

    /// An index that lists nothing.
    pub fn new() -> (index: Self)
        ensures
            index.wf(),
            index@ == Map::<Seq<char>, Seq<Seq<char>>>::empty(),
    {
        let index = Index { lists: Registry::new() };
        assert(index@ =~= Map::<Seq<char>, Seq<Seq<char>>>::empty());
        index
    }

    /// The ids listed under `owner`.
    pub fn list(&self, owner: &String) -> (ids: Vec<String>)
        requires
            self.wf(),
        ensures
            texts(ids@) == listed(self@, owner@),
    {
        match self.lists.get(owner) {
            Some(list) => copy_list(list),
            None => {
                let ids: Vec<String> = Vec::new();
                assert(texts(ids@) =~= Seq::<Seq<char>>::empty());
                ids
            },
        }
    }

    /// Lists `id` under `owner`, after what is listed there.
    pub fn add(&mut self, owner: String, id: String)
        requires
            old(self).wf(),
        ensures
            final(self).wf(),
            final(self)@ == old(self)@.insert(owner@, listed(old(self)@, owner@).push(id@)),
    {
        let mut ids = self.list(&owner);
        let ghost before = texts(ids@);
        ids.push(id);
        assert(texts(ids@) =~= before.push(id@));
        self.lists.insert(owner, ids);
        assert(self@ =~= old(self)@.insert(owner@, listed(old(self)@, owner@).push(id@)));
    }

    /// Lists `id` under `owner` unless it is listed there already.
    pub fn add_once(&mut self, owner: String, id: String)
        requires
            old(self).wf(),
        ensures
            final(self).wf(),
            final(self)@ == if listed(old(self)@, owner@).contains(id@) {
                old(self)@
            } else {
                old(self)@.insert(owner@, listed(old(self)@, owner@).push(id@))
            },
    {
        let ids = self.list(&owner);
        if !list_holds(&ids, &id) {
            self.add(owner, id);
        }
    }
}

/// Listing one more id under an owner keeps everything that was listed,
/// under every owner, and lists the new id under that owner.
pub proof fn lemma_listed_grows(
    index: Map<Seq<char>, Seq<Seq<char>>>,
    owner: Seq<char>,
    id: Seq<char>,
)
    ensures
        listed(index.insert(owner, listed(index, owner).push(id)), owner).contains(id),
        forall|other: Seq<char>, listed_id: Seq<char>| #[trigger]
            listed(index, other).contains(listed_id) ==> listed(
                index.insert(owner, listed(index, owner).push(id)),
                other,
            ).contains(listed_id),
{
    let grown = listed(index, owner).push(id);
    let after = index.insert(owner, grown);
    assert(grown[grown.len() - 1] == id);
    assert forall|other: Seq<char>, listed_id: Seq<char>| #[trigger]
        listed(index, other).contains(listed_id) implies listed(after, other).contains(
        listed_id,
    ) by {
        let list = listed(index, other);
        let i = choose|i: int| 0 <= i < list.len() && list[i] == listed_id;
        if other == owner {
            assert(grown[i] == listed_id);
        }
    }
}

} // verus!
