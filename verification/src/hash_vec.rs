use vstd::hash_map::{HashMapWithView, StringHashMap};
use vstd::prelude::*;

verus! {

broadcast use vstd::std_specs::hash::group_hash_axioms;

/// A key that a `HashVec` can be indexed by: it has a hash table of its own kind
/// that maps the key's view to a place in the vector.
pub trait HashKey: View + Sized {
    type Table;

    /// What the table maps each key to.
    spec fn table_model(table: &Self::Table) -> Map<Self::V, usize>;

    fn table_new() -> (table: Self::Table)
        ensures
            Self::table_model(&table) == Map::<Self::V, usize>::empty(),
    ;

    fn table_get(table: &Self::Table, key: &Self) -> (index: Option<usize>)
        ensures
            index == (if Self::table_model(table).contains_key(key@) {
                Some(Self::table_model(table)[key@])
            } else {
                None
            }),
    ;

    fn table_insert(table: &mut Self::Table, key: Self, index: usize)
        ensures
            Self::table_model(final(table)) == Self::table_model(old(table)).insert(key@, index),
    ;

    fn table_remove(table: &mut Self::Table, key: &Self)
        ensures
            Self::table_model(final(table)) == Self::table_model(old(table)).remove(key@),
    ;

    fn key_copy(&self) -> (key: Self)
        ensures
            key@ == self@,
    ;
}

impl HashKey for String {
    type Table = StringHashMap<usize>;

    open spec fn table_model(table: &Self::Table) -> Map<Seq<char>, usize> {
        table@
    }

    fn table_new() -> (table: Self::Table) {
        StringHashMap::new()
    }

    fn table_get(table: &Self::Table, key: &Self) -> (index: Option<usize>) {
        match table.get(key.as_str()) {
            Some(i) => Some(*i),
            None => None,
        }
    }

    fn table_insert(table: &mut Self::Table, key: Self, index: usize) {
        table.insert(key, index);
    }

    fn table_remove(table: &mut Self::Table, key: &Self) {
        table.remove(key.as_str());
    }

    fn key_copy(&self) -> (key: Self) {
        self.clone()
    }
}

impl HashKey for u32 {
    type Table = HashMapWithView<u32, usize>;

    open spec fn table_model(table: &Self::Table) -> Map<u32, usize> {
        table@
    }

    fn table_new() -> (table: Self::Table) {
        HashMapWithView::new()
    }

    fn table_get(table: &Self::Table, key: &Self) -> (index: Option<usize>) {
        match table.get(key) {
            Some(i) => Some(*i),
            None => None,
        }
    }

    fn table_insert(table: &mut Self::Table, key: Self, index: usize) {
        table.insert(key, index);
    }

    fn table_remove(table: &mut Self::Table, key: &Self) {
        let _ = table.remove(key);
    }

    fn key_copy(&self) -> (key: Self) {
        *self
    }
}

/// Values kept in the order in which their keys first came, with a hash table from
/// each key to the place of its value: lookup by key and by place are both direct.
#[verifier::reject_recursive_types(K)]
pub struct HashVec<K: HashKey, V> {
    vec: Vec<V>,
    keys: Vec<K>,
    map: K::Table,
}

impl<K: HashKey, V> HashVec<K, V> {
    #[verifier::type_invariant]
    spec fn inv(&self) -> bool {
        Self::spec_consistent(self.vec@.len(), self.keys@, K::table_model(&self.map))
    }

    /// The table holds exactly the keys of the vector, each with its place.
    spec fn spec_consistent(len: nat, keys: Seq<K>, model: Map<K::V, usize>) -> bool {
        &&& keys.len() == len
        &&& forall|i: int| 0 <= i < keys.len() ==> model.contains_key(#[trigger] keys[i]@)
        &&& forall|i: int| 0 <= i < keys.len() ==> model[#[trigger] keys[i]@] == i
        &&& forall|k: K::V| #[trigger]
            model.contains_key(k) ==> 0 <= model[k] < keys.len() && keys[model[k] as int]@ == k
    }

    /// The keys, in the order of their values.
    pub closed spec fn spec_keys(&self) -> Seq<K::V> {
        Seq::new(self.keys@.len(), |i: int| self.keys@[i]@)
    }

    /// The values, in the order in which their keys first came.
    pub closed spec fn spec_values(&self) -> Seq<V> {
        self.vec@
    }

    /// The place of the value of `key`, if the key is there.
    pub closed spec fn spec_index_of(&self, key: K::V) -> Option<usize> {
        if K::table_model(&self.map).contains_key(key) {
            Some(K::table_model(&self.map)[key])
        } else {
            None
        }
    }

    /// What holds of every `HashVec`: as many keys as values, no key twice, and
    /// `spec_index_of` is the place of the key among the keys.
    pub open spec fn spec_well_formed(&self) -> bool {
        &&& self.spec_keys().len() == self.spec_values().len()
        &&& self.spec_keys().len() <= usize::MAX
        &&& forall|i: int, j: int|
            0 <= i < self.spec_keys().len() && 0 <= j < self.spec_keys().len()
                && self.spec_keys()[i] == self.spec_keys()[j] ==> i == j
        &&& forall|i: int|
            0 <= i < self.spec_keys().len() ==> self.spec_index_of(#[trigger] self.spec_keys()[i])
                == Some(i as usize)
        &&& forall|k: K::V|
            !self.spec_keys().contains(k) ==> (#[trigger] self.spec_index_of(k)).is_none()
    }

    proof fn lemma_well_formed(&self)
        requires
            self.inv(),
        ensures
            self.spec_well_formed(),
    {
        let keys = self.spec_keys();
        let model = K::table_model(&self.map);
        assert(self.keys@.len() == self.keys.len());
        assert forall|k: K::V| !keys.contains(k) implies (#[trigger] self.spec_index_of(
            k,
        )).is_none() by {
            if model.contains_key(k) {
                assert(keys[model[k] as int] == k);
            }
        }
        assert forall|i: int, j: int|
            0 <= i < keys.len() && 0 <= j < keys.len() && keys[i] == keys[j] implies i == j by {
            assert(model[self.keys@[i]@] == i);
            assert(model[self.keys@[j]@] == j);
        }
        assert forall|i: int| 0 <= i < keys.len() implies self.spec_index_of(#[trigger] keys[i])
            == Some(i as usize) by {
            assert(model[self.keys@[i]@] == i);
        }
    }

    /// Puts `value` in place `index`, which is there.
    fn replace_at(&mut self, index: usize, value: V)
        requires
            index < old(self).spec_values().len(),
        ensures
            final(self).spec_keys() == old(self).spec_keys(),
            final(self).spec_values() == old(self).spec_values().update(index as int, value),
            forall|k: K::V| final(self).spec_index_of(k) == old(self).spec_index_of(k),
    {
        proof {
            use_type_invariant(&*self);
        }
        let mut fresh: HashVec<K, V> = HashVec::new();
        core::mem::swap(self, &mut fresh);
        let HashVec { mut vec, keys, map } = fresh;
        vec.set(index, value);
        *self = HashVec { vec, keys, map };
    }

    pub fn new() -> (hv: Self)
        ensures
            hv.spec_keys() == Seq::<K::V>::empty(),
            hv.spec_values() == Seq::<V>::empty(),
            hv.spec_well_formed(),
    {
        let hv = HashVec { vec: Vec::new(), keys: Vec::new(), map: K::table_new() };
        proof {
            hv.lemma_well_formed();
            assert(hv.spec_keys() =~= Seq::<K::V>::empty());
        }
        hv
    }

    pub fn len(&self) -> (n: usize)
        ensures
            n == self.spec_values().len(),
            n == self.spec_keys().len(),
            self.spec_well_formed(),
    {
        proof {
            use_type_invariant(self);
            self.lemma_well_formed();
        }
        self.vec.len()
    }

    pub fn is_empty(&self) -> (b: bool)
        ensures
            b == (self.spec_values().len() == 0),
    {
        self.vec.len() == 0
    }

    /// The values in order.
    pub fn vec(&self) -> (values: &Vec<V>)
        ensures
            values@ == self.spec_values(),
    {
        &self.vec
    }

    pub fn contains(&self, key: &K) -> (b: bool)
        ensures
            b == self.spec_keys().contains(key@),
            b == self.spec_index_of(key@).is_some(),
            b ==> self.spec_index_of(key@).unwrap() < self.spec_values().len(),
    {
        self.key_get_index(key).is_some()
    }

    pub fn key_get(&self, key: &K) -> (value: Option<&V>)
        ensures
            self.spec_well_formed(),
            match value {
                Some(v) => self.spec_index_of(key@).is_some() && *v == self.spec_values()[self.spec_index_of(
                    key@,
                ).unwrap() as int],
                None => self.spec_index_of(key@).is_none(),
            },
    {
        match self.key_get_index(key) {
            Some(index) => Some(&self.vec[index]),
            None => None,
        }
    }

    /// Puts `value` in the place of the value of `key`. Returns false, and changes
    /// nothing, where the key is not there.
    pub fn key_set(&mut self, key: &K, value: V) -> (done: bool)
        ensures
            final(self).spec_keys() == old(self).spec_keys(),
            final(self).spec_well_formed(),
            forall|k: K::V| final(self).spec_index_of(k) == old(self).spec_index_of(k),
            done == old(self).spec_index_of(key@).is_some(),
            done ==> old(self).spec_index_of(key@).unwrap() < old(self).spec_values().len(),
            done ==> final(self).spec_values() == old(self).spec_values().update(
                old(self).spec_index_of(key@).unwrap() as int,
                value,
            ),
            !done ==> final(self).spec_values() == old(self).spec_values(),
    {
        match self.key_get_index(key) {
            Some(index) => {
                self.replace_at(index, value);
                proof {
                    use_type_invariant(&*self);
                    self.lemma_well_formed();
                }
                true
            },
            None => false,
        }
    }

    pub fn index_get_mut(&mut self, index: usize) -> (value: Option<&mut V>)
        ensures
            final(self).spec_keys() == old(self).spec_keys(),
            forall|k: K::V| final(self).spec_index_of(k) == old(self).spec_index_of(k),
            match value {
                Some(v) => index < old(self).spec_values().len() && *v == old(self).spec_values()[index as int] && final(self).spec_values() == old(self).spec_values().update(index as int, *final(v)),
                None => index >= old(self).spec_values().len() && final(self).spec_values()
                    == old(self).spec_values(),
            },
    {
        proof {
            use_type_invariant(&*self);
        }
        if index >= self.vec.len() {
            return None;
        }
        Some(&mut self.vec[index])
    }

    pub fn key_get_mut(&mut self, key: &K) -> (value: Option<&mut V>)
        ensures
            final(self).spec_keys() == old(self).spec_keys(),
            forall|k: K::V| final(self).spec_index_of(k) == old(self).spec_index_of(k),
            match value {
                Some(v) => old(self).spec_index_of(key@).is_some() && *v == old(self).spec_values()[old(self).spec_index_of(key@).unwrap() as int] && final(self).spec_values() == old(self).spec_values().update(
                    old(self).spec_index_of(key@).unwrap() as int,
                    *final(v),
                ),
                None => old(self).spec_index_of(key@).is_none() && final(self).spec_values()
                    == old(self).spec_values(),
            },
    {
        proof {
            use_type_invariant(&*self);
        }
        match K::table_get(&self.map, key) {
            Some(index) => Some(&mut self.vec[index]),
            None => None,
        }
    }

    /// The place of the value of `key`, if the key is there.
    pub fn key_get_index(&self, key: &K) -> (index: Option<usize>)
        ensures
            index == self.spec_index_of(key@),
            self.spec_well_formed(),
            match index {
                Some(i) => i < self.spec_keys().len() && self.spec_keys()[i as int] == key@,
                None => !self.spec_keys().contains(key@),
            },
    {
        proof {
            use_type_invariant(self);
            self.lemma_well_formed();
        }
        let index = K::table_get(&self.map, key);
        proof {
            if index.is_none() && self.spec_keys().contains(key@) {
                let i = choose|i: int|
                    0 <= i < self.spec_keys().len() && self.spec_keys()[i] == key@;
                assert(K::table_model(&self.map).contains_key(self.keys@[i]@));
            }
        }
        index
    }

    pub fn index_get(&self, index: usize) -> (value: Option<&V>)
        ensures
            match value {
                Some(v) => index < self.spec_values().len() && *v == self.spec_values()[index as int],
                None => index >= self.spec_values().len(),
            },
    {
        if index >= self.vec.len() {
            return None;
        }
        Some(&self.vec[index])
    }

    /// Gives `key` the value `value`: in the place of its old value where the key
    /// is there already, else at the end.
    pub fn insert(&mut self, key: K, value: V)
        ensures
            final(self).spec_well_formed(),
            match old(self).spec_index_of(key@) {
                Some(i) => {
                    &&& final(self).spec_keys() == old(self).spec_keys()
                    &&& final(self).spec_values() == old(self).spec_values().update(
                        i as int,
                        value,
                    )
                },
                None => {
                    &&& final(self).spec_keys() == old(self).spec_keys().push(key@)
                    &&& final(self).spec_values() == old(self).spec_values().push(value)
                },
            },
            forall|k: K::V|
                old(self).spec_index_of(k).is_some() ==> final(self).spec_index_of(k) == old(self).spec_index_of(k),
            forall|k: K::V|
                k != key@ ==> final(self).spec_index_of(k) == old(self).spec_index_of(k),
            final(self).spec_index_of(key@).is_some(),
            final(self).spec_index_of(key@).unwrap() < final(self).spec_values().len(),
            final(self).spec_values()[final(self).spec_index_of(key@).unwrap() as int] == value,
    {
        proof {
            use_type_invariant(&*self);
            self.lemma_well_formed();
        }
        match K::table_get(&self.map, &key) {
            Some(i) => {
                self.replace_at(i, value);
            },
            None => {
                let mut fresh: HashVec<K, V> = HashVec::new();
                core::mem::swap(self, &mut fresh);
                let HashVec { mut vec, mut keys, mut map } = fresh;
                let ghost old_keys = keys@;
                let ghost old_model = K::table_model(&map);
                let i: usize = vec.len();
                let copy: K = key.key_copy();
                vec.push(value);
                keys.push(key);
                K::table_insert(&mut map, copy, i);
                proof {
                    let model = K::table_model(&map);
                    assert forall|k: K::V| #[trigger] model.contains_key(k) implies 0 <= model[k]
                        < keys@.len() && keys@[model[k] as int]@ == k by {
                        if k != key@ {
                            assert(old_model.contains_key(k));
                        }
                    }
                    assert forall|j: int| 0 <= j < keys@.len() implies model.contains_key(
                        #[trigger] keys@[j]@,
                    ) && model[keys@[j]@] == j by {
                        if j < old_keys.len() {
                            assert(old_model.contains_key(old_keys[j]@));
                            assert(old_model[old_keys[j]@] == j);
                        }
                    }
                }
                *self = HashVec { vec, keys, map };
                proof {
                    assert(self.spec_keys() =~= old(self).spec_keys().push(key@));
                }
            },
        }
        proof {
            use_type_invariant(&*self);
            self.lemma_well_formed();
        }
    }

    /// Takes `key` and its value out; the values after it move one place down.
    pub fn remove(&mut self, key: &K) -> (value: Option<V>)
        ensures
            final(self).spec_well_formed(),
            match old(self).spec_index_of(key@) {
                Some(i) => {
                    &&& value == Some(old(self).spec_values()[i as int])
                    &&& final(self).spec_keys() == old(self).spec_keys().remove(i as int)
                    &&& final(self).spec_values() == old(self).spec_values().remove(i as int)
                },
                None => {
                    &&& value.is_none()
                    &&& final(self).spec_keys() == old(self).spec_keys()
                    &&& final(self).spec_values() == old(self).spec_values()
                },
            },
    {
        proof {
            use_type_invariant(&*self);
            self.lemma_well_formed();
        }
        match K::table_get(&self.map, key) {
            None => None,
            Some(i) => {
                let mut fresh: HashVec<K, V> = HashVec::new();
                core::mem::swap(self, &mut fresh);
                let HashVec { mut vec, mut keys, mut map } = fresh;
                let ghost old_keys = keys@;
                let ghost old_model = K::table_model(&map);
                let removed: V = vec.remove(i);
                let _ = keys.remove(i);
                K::table_remove(&mut map, key);
                let mut j: usize = i;
                while j < keys.len()
                    invariant
                        i <= j <= keys@.len(),
                        keys@.len() + 1 == old_keys.len(),
                        keys@ == old_keys.remove(i as int),
                        old_keys[i as int]@ == key@,
                        Self::spec_consistent(old_keys.len(), old_keys, old_model),
                        forall|k: K::V|
                            K::table_model(&map).contains_key(k) <==> (old_model.contains_key(k)
                                && k != key@),
                        forall|k: K::V| #[trigger]
                            K::table_model(&map).contains_key(k) ==> K::table_model(&map)[k] == (
                            if old_model[k] <= i || old_model[k] > j {
                                old_model[k]
                            } else {
                                (old_model[k] - 1) as usize
                            }),
                    decreases keys@.len() - j,
                {
                    let copy: K = keys[j].key_copy();
                    proof {
                        assert(keys@[j as int] == old_keys[j + 1]);
                        assert(old_model.contains_key(old_keys[j + 1]@));
                        assert(old_model[old_keys[j + 1]@] == j + 1);
                    }
                    let ghost prev = K::table_model(&map);
                    K::table_insert(&mut map, copy, j);
                    proof {
                        let model = K::table_model(&map);
                        assert forall|k: K::V| #[trigger] model.contains_key(k) implies model[k]
                            == (if old_model[k] <= i || old_model[k] > j + 1 {
                            old_model[k]
                        } else {
                            (old_model[k] - 1) as usize
                        }) by {
                            if k == old_keys[j + 1]@ {
                            } else {
                                assert(prev.contains_key(k));
                                assert(old_model.contains_key(k));
                                assert(old_keys[old_model[k] as int]@ == k);
                            }
                        }
                    }
                    j += 1;
                }
                proof {
                    let model = K::table_model(&map);
                    assert forall|k: K::V| #[trigger] model.contains_key(k) implies 0 <= model[k]
                        < keys@.len() && keys@[model[k] as int]@ == k by {
                        assert(old_model.contains_key(k));
                        let m = old_model[k] as int;
                        assert(old_keys[m]@ == k);
                        if m > i {
                            assert(keys@[m - 1] == old_keys[m]);
                        } else {
                            assert(m != i);
                            assert(keys@[m] == old_keys[m]);
                        }
                    }
                    assert forall|x: int| 0 <= x < keys@.len() implies model.contains_key(
                        #[trigger] keys@[x]@,
                    ) && model[keys@[x]@] == x by {
                        if x < i {
                            assert(keys@[x] == old_keys[x]);
                            assert(old_model.contains_key(old_keys[x]@));
                            assert(old_model[old_keys[x]@] == x);
                        } else {
                            assert(keys@[x] == old_keys[x + 1]);
                            assert(old_model.contains_key(old_keys[x + 1]@));
                            assert(old_model[old_keys[x + 1]@] == x + 1);
                        }
                    }
                }
                *self = HashVec { vec, keys, map };
                proof {
                    use_type_invariant(&*self);
                    self.lemma_well_formed();
                    assert(self.spec_keys() =~= old(self).spec_keys().remove(i as int));
                }
                Some(removed)
            },
        }
    }
}

} // verus!
