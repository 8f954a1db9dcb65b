//! An insertion-ordered map whose indexing by a missing key for writing
//! creates the entry with the value type's default.
use vstd::prelude::*;

verus! {

/// Keys of a `MutMap`: compared and copied by their view.
pub trait MapKey: View + Sized {
    fn key_eq(&self, other: &Self) -> (b: bool)
        ensures
            b == (self@ == other@),
    ;

    fn key_clone(&self) -> (c: Self)
        ensures
            c@ == self@,
    ;
}

impl MapKey for String {
    fn key_eq(&self, other: &Self) -> (b: bool) {
        self.eq(other)
    }

    fn key_clone(&self) -> (c: Self) {
        self.clone()
    }
}

impl MapKey for u64 {
    fn key_eq(&self, other: &Self) -> (b: bool) {
        *self == *other
    }

    fn key_clone(&self) -> (c: Self) {
        *self
    }
}

/// Values that can be copied, the copy having the same view.
pub trait Duplicate: View + Sized {
    fn duplicate(&self) -> (r: Self)
        ensures
            r@ == self@,
    ;
}

impl Duplicate for String {
    fn duplicate(&self) -> (r: Self) {
        self.clone()
    }
}

impl Duplicate for Vec<String> {
    fn duplicate(&self) -> (r: Self) {
        let mut r: Vec<String> = Vec::new();
        let mut i: usize = 0;
        while i < self.len()
            invariant
                i <= self@.len(),
                r@ == self@.take(i as int),
            decreases self@.len() - i,
        {
            r.push(self[i].clone());
            i = i + 1;
            assert(r@ =~= self@.take(i as int));
        }
        assert(self@.take(self@.len() as int) =~= self@);
        r
    }
}

/// `s` lists the map `m`: one entry per key, each key once.
pub open spec fn lists_map<A, B>(s: Seq<(A, B)>, m: Map<A, B>) -> bool {
    &&& s.len() == m.len()
    &&& m.dom().finite()
    &&& forall|i: int, j: int| 0 <= i < s.len() && 0 <= j < s.len() && i != j ==> s[i].0 != s[j].0
    &&& forall|i: int| 0 <= i < s.len() ==> m.contains_key(#[trigger] s[i].0) && m[s[i].0] == s[i].1
    &&& forall|k: A| m.contains_key(k) ==> exists|i: int| 0 <= i < s.len() && #[trigger] s[i].0 == k
}

/// A map that keeps its keys in insertion order.
pub struct MutMap<K: MapKey, V> {
    keys: Vec<K>,
    vals: Vec<V>,
}

impl<K: MapKey, V> MutMap<K, V> {
    /// The keys, by view, in insertion order.
    pub closed spec fn key_seq(&self) -> Seq<K::V> {
        self.keys@.map_values(|k: K| k@)
    }

    /// The entries, keys by view, in insertion order.
    pub closed spec fn items(&self) -> Seq<(K::V, V)> {
        Seq::new(self.keys@.len(), |i: int| (self.keys@[i]@, self.vals@[i]))
    }

    #[verifier::type_invariant]
    closed spec fn wf(&self) -> bool {
        &&& self.keys@.len() == self.vals@.len()
        &&& self.key_seq().no_duplicates()
    }

    closed spec fn pos_of(&self, k: K::V) -> int {
        choose|i: int| 0 <= i < self.keys@.len() && self.keys@[i]@ == k
    }

    closed spec fn view_of(keys: Seq<K>, vals: Seq<V>) -> Map<K::V, V> {
        Map::new(
            |k: K::V| keys.map_values(|x: K| x@).contains(k),
            |k: K::V| vals[choose|i: int| 0 <= i < keys.len() && keys[i]@ == k],
        )
    }

    pub closed spec fn map_view(&self) -> Map<K::V, V> {
        Self::view_of(self.keys@, self.vals@)
    }

    proof fn lemma_update(&self, i: int)
        requires
            self.wf(),
            0 <= i < self.keys@.len(),
        ensures
            forall|x: V|
                #[trigger] Self::view_of(self.keys@, self.vals@.update(i, x)) == self.map_view().insert(
                    self.keys@[i]@,
                    x,
                ),
    {
        assert forall|x: V|
            #[trigger] Self::view_of(self.keys@, self.vals@.update(i, x)) == self.map_view().insert(
                self.keys@[i]@,
                x,
            ) by {
            let m2 = Self::view_of(self.keys@, self.vals@.update(i, x));
            let m1 = self.map_view().insert(self.keys@[i]@, x);
            self.lemma_pos(i);
            assert forall|k: K::V| m2.contains_key(k) implies m1.contains_key(k) && m2[k] == m1[k] by {
                let j = self.key_seq().index_of(k);
                self.lemma_pos(j);
                assert(self.keys@[j]@ == k);
            }
            assert(m2 =~= m1);
        }
    }

    proof fn lemma_pos(&self, i: int)
        requires
            self.wf(),
            0 <= i < self.keys@.len(),
        ensures
            self.pos_of(self.keys@[i]@) == i,
            self.map_view().contains_key(self.keys@[i]@),
            self.map_view()[self.keys@[i]@] == self.vals@[i],
    {
        let k = self.keys@[i]@;
        assert(self.key_seq()[i] == k);
        let p = self.pos_of(k);
        assert(self.key_seq()[p] == k);
    }

    proof fn lemma_items_list(&self)
        requires
            self.wf(),
        ensures
            lists_map(self.items(), self.map_view()),
            self.map_view().dom() == self.key_seq().to_set(),
    {
        let m = self.map_view();
        let ks = self.key_seq();
        assert(m.dom() =~= ks.to_set());
        ks.unique_seq_to_set();
        assert forall|i: int| 0 <= i < self.items().len() implies m.contains_key(
            #[trigger] self.items()[i].0,
        ) && m[self.items()[i].0] == self.items()[i].1 by {
            self.lemma_pos(i);
        }
        assert forall|i: int, j: int|
            0 <= i < self.items().len() && 0 <= j < self.items().len() && i != j implies self.items()[i].0
            != self.items()[j].0 by {
            assert(ks[i] == self.items()[i].0);
            assert(ks[j] == self.items()[j].0);
        }
        assert forall|k: K::V| m.contains_key(k) implies exists|i: int|
            0 <= i < self.items().len() && #[trigger] self.items()[i].0 == k by {
            let i = ks.index_of(k);
            assert(self.items()[i].0 == k);
        }
    }
}

impl<K: MapKey, V> MutMap<K, V> {
    /// An empty map.
    pub fn new() -> (m: Self)
        ensures
            m@ == Map::<K::V, V>::empty(),
            m.key_seq() == Seq::<K::V>::empty(),
    {
        let m = MutMap { keys: Vec::new(), vals: Vec::new() };
        proof {
            assert(m.map_view() =~= Map::<K::V, V>::empty());
        }
        m
    }

    /// The entries in insertion order; they list the map exactly.
    pub fn iter(&self) -> (it: Iter<'_, K, V>)
        ensures
            it.remaining() == self.items(),
            lists_map(self.items(), self@),
            self.items().map_values(|e: (K::V, V)| e.0) == self.key_seq(),
    {
        proof {
            use_type_invariant(self);
            self.lemma_items_list();
            assert(self.items().map_values(|e: (K::V, V)| e.0) =~= self.key_seq());
        }
        let it = Iter { keys: &self.keys, vals: &self.vals, pos: 0 };
        assert(it.remaining() =~= self.items());
        it
    }

    /// A copy: the same keys in the same order, each value duplicated.
    pub fn duplicate(&self) -> (r: Self)
        where V: Duplicate,
        ensures
            r.key_seq() == self.key_seq(),
            r@.dom() == self@.dom(),
            forall|k: K::V| #[trigger] r@.contains_key(k) ==> r@[k]@ == self@[k]@,
    {
        proof {
            use_type_invariant(self);
        }
        let mut keys: Vec<K> = Vec::new();
        let mut vals: Vec<V> = Vec::new();
        let mut i: usize = 0;
        while i < self.keys.len()
            invariant
                i <= self.keys@.len(),
                self.keys@.len() == self.vals@.len(),
                keys@.len() == i,
                vals@.len() == i,
                forall|j: int| 0 <= j < i ==> (#[trigger] keys@[j])@ == self.keys@[j]@,
                forall|j: int| 0 <= j < i ==> (#[trigger] vals@[j])@ == self.vals@[j]@,
            decreases self.keys@.len() - i,
        {
            keys.push(self.keys[i].key_clone());
            vals.push(self.vals[i].duplicate());
            i = i + 1;
        }
        proof {
            assert(keys@.map_values(|k: K| k@) =~= self.key_seq());
        }
        let r = MutMap { keys, vals };
        proof {
            assert forall|k: K::V| #[trigger] r.map_view().contains_key(k) implies r.map_view()[k]@
                == self.map_view()[k]@ by {
                let p = r.pos_of(k);
                r.lemma_pos(p);
                self.lemma_pos(p);
            }
            assert(r.map_view().dom() =~= self.map_view().dom());
        }
        r
    }

    /// Number of entries.
    pub fn len(&self) -> (n: usize)
        ensures
            n == self@.len(),
            n == self.key_seq().len(),
    {
        proof {
            use_type_invariant(self);
            self.lemma_items_list();
        }
        self.keys.len()
    }

    fn find(&self, k: &K) -> (r: Option<usize>)
        ensures
            match r {
                Some(i) => i < self.keys@.len() && self.keys@[i as int]@ == k@
                    && self.key_seq()[i as int] == k@,
                None => !self@.contains_key(k@),
            },
    {
        let mut i: usize = 0;
        while i < self.keys.len()
            invariant
                i <= self.keys@.len(),
                forall|j: int| 0 <= j < i ==> self.keys@[j]@ != k@,
            decreases self.keys@.len() - i,
        {
            if self.keys[i].key_eq(k) {
                return Some(i);
            }
            i = i + 1;
        }
        proof {
            if self.key_seq().contains(k@) {
                let j = self.key_seq().index_of(k@);
                assert(self.keys@[j]@ == k@);
            }
        }
        None
    }

    /// The value stored under `idx`, if any.
    pub fn get(&self, idx: &K) -> (r: Option<&V>)
        ensures
            match r {
                Some(v) => self@.contains_key(idx@) && *v == self@[idx@],
                None => !self@.contains_key(idx@),
            },
    {
        proof {
            use_type_invariant(self);
        }
        match self.find(idx) {
            Some(i) => {
                proof {
                    self.lemma_pos(i as int);
                }
                Some(&self.vals[i])
            },
            None => None,
        }
    }

    /// Whether `idx` has an entry.
    pub fn contains_key(&self, idx: &K) -> (b: bool)
        ensures
            b == self@.contains_key(idx@),
    {
        proof {
            use_type_invariant(self);
        }
        match self.find(idx) {
            Some(i) => {
                proof {
                    self.lemma_pos(i as int);
                }
                true
            },
            None => false,
        }
    }

    /// The value stored under `idx`, which must be present.
    pub fn index(&self, idx: &K) -> (r: &V)
        requires
            self@.contains_key(idx@),
        ensures
            *r == self@[idx@],
    {
        proof {
            use_type_invariant(self);
        }
        let i = self.find(idx).unwrap();
        proof {
            self.lemma_pos(i as int);
        }
        &self.vals[i]
    }

    /// The value stored under `idx` for writing; a missing key is first
    /// stored with `V`'s default value, after all present keys.
    pub fn index_mut(&mut self, idx: &K) -> (r: &mut V)
        where V: Default,
        ensures
            old(self)@.contains_key(idx@) ==> *r == old(self)@[idx@],
            !old(self)@.contains_key(idx@) ==> call_ensures(V::default, (), *r),
            final(self)@ == old(self)@.insert(idx@, *final(r)),
            final(self).key_seq() == (if old(self)@.contains_key(idx@) {
                old(self).key_seq()
            } else {
                old(self).key_seq().push(idx@)
            }),
    {
        proof {
            use_type_invariant(&*self);
        }
        let ghost old_map = self.map_view();
        let i = match self.find(idx) {
            Some(i) => {
                proof {
                    self.lemma_pos(i as int);
                    assert forall|x: V| #[trigger] self.map_view().insert(idx@, x) == old_map.insert(
                        idx@,
                        x,
                    ) by {}
                }
                i
            },
            None => {
                let d = V::default();
                assert(call_ensures(V::default, (), d));
                self.insert(idx.key_clone(), d);
                proof {
                    use_type_invariant(&*self);
                    assert(self.key_seq().len() == self.keys@.len());
                    assert(self.key_seq()[self.keys@.len() - 1] == idx@);
                    assert forall|x: V| #[trigger] self.map_view().insert(idx@, x) == old_map.insert(
                        idx@,
                        x,
                    ) by {
                        assert(self.map_view().insert(idx@, x) =~= old_map.insert(idx@, x));
                    }
                }
                self.keys.len() - 1
            },
        };
        proof {
            use_type_invariant(&*self);
            self.lemma_update(i as int);
            self.lemma_pos(i as int);
        }
        &mut self.vals[i]
    }

    /// Takes the entry of `k` out, giving back its value; the other entries
    /// keep their order.
    pub fn remove(&mut self, k: &K) -> (r: Option<V>)
        ensures
            final(self)@ == old(self)@.remove(k@),
            r == (if old(self)@.contains_key(k@) {
                Some(old(self)@[k@])
            } else {
                None
            }),
            old(self)@.contains_key(k@) ==> final(self).key_seq() == old(self).key_seq().remove(
                old(self).key_seq().index_of(k@),
            ),
            !old(self)@.contains_key(k@) ==> final(self).key_seq() == old(self).key_seq(),
    {
        proof {
            use_type_invariant(&*self);
        }
        let ghost old_map = self.map_view();
        let ghost old_keys = self.key_seq();
        let ghost old_self = *self;
        match self.find(k) {
            None => None,
            Some(i) => {
                proof {
                    self.lemma_pos(i as int);
                    assert(old_keys.index_of(k@) == i) by {
                        let j = old_keys.index_of(k@);
                        assert(old_keys[j] == k@);
                    }
                }
                let mut tmp = MutMap { keys: Vec::new(), vals: Vec::new() };
                proof {
                    assert(tmp.key_seq() =~= Seq::<K::V>::empty());
                }
                std::mem::swap(&mut tmp, self);
                let MutMap { keys, vals } = tmp;
                let mut keys = keys;
                let mut vals = vals;
                keys.remove(i);
                let v = vals.remove(i);
                proof {
                    assert(keys@.map_values(|x: K| x@) =~= old_keys.remove(i as int));
                }
                *self = MutMap { keys, vals };
                proof {
                    let n = self.keys@;
                    assert forall|kk: K::V| self.map_view().dom().contains(kk) <==> old_map.remove(
                        k@,
                    ).dom().contains(kk) by {
                        if old_map.contains_key(kk) && kk != k@ {
                            let j = old_keys.index_of(kk);
                            if j < i {
                                assert(self.key_seq()[j] == kk);
                            } else {
                                assert(j != i);
                                assert(self.key_seq()[j - 1] == kk);
                            }
                        }
                        if self.map_view().contains_key(kk) {
                            let j = self.key_seq().index_of(kk);
                            if j < i {
                                assert(old_keys[j] == kk);
                            } else {
                                assert(old_keys[j + 1] == kk);
                            }
                            assert(kk != k@);
                        }
                    }
                    assert forall|kk: K::V| #[trigger] self.map_view().contains_key(kk) implies self.map_view()[kk]
                        == old_map[kk] by {
                        let j = self.key_seq().index_of(kk);
                        self.lemma_pos(j);
                        assert(self.keys@[j]@ == kk);
                        if j < i {
                            old_self.lemma_pos(j);
                        } else {
                            old_self.lemma_pos(j + 1);
                        }
                    }
                    assert(self.map_view() =~= old_map.remove(k@));
                }
                Some(v)
            },
        }
    }

    /// Stores `v` under `k`; gives back the value it replaces, if any.
    /// A new key goes after all present ones; a present key keeps its place.
    pub fn insert(&mut self, k: K, v: V) -> (r: Option<V>)
        ensures
            final(self)@ == old(self)@.insert(k@, v),
            r == (if old(self)@.contains_key(k@) {
                Some(old(self)@[k@])
            } else {
                None
            }),
            final(self).key_seq() == (if old(self)@.contains_key(k@) {
                old(self).key_seq()
            } else {
                old(self).key_seq().push(k@)
            }),
    {
        proof {
            use_type_invariant(&*self);
        }
        let ghost old_map = self.map_view();
        let ghost old_keys = self.key_seq();
        let ghost old_self = *self;
        match self.find(&k) {
            Some(i) => {
                proof {
                    self.lemma_pos(i as int);
                }
                let mut v = v;
                let ghost kv = k@;
                let ghost vv = v;
                let mut tmp = MutMap { keys: Vec::new(), vals: Vec::new() };
                proof {
                    assert(tmp.key_seq() =~= Seq::<K::V>::empty());
                }
                std::mem::swap(&mut tmp, self);
                let MutMap { keys, vals } = tmp;
                let mut vals = vals;
                std::mem::swap(&mut vals[i], &mut v);
                proof {
                    assert(keys@.map_values(|x: K| x@) =~= old_keys);
                }
                *self = MutMap { keys, vals };
                proof {
                    assert(self.key_seq() =~= old_keys);
                    assert forall|j: int| 0 <= j < self.keys@.len() implies self.pos_of(
                        self.keys@[j]@,
                    ) == j by {
                        self.lemma_pos(j);
                    }
                    assert(self.map_view() =~= old_map.insert(kv, vv));
                }
                Some(v)
            },
            None => {
                let ghost kv = k@;
                let ghost vv = v;
                let mut tmp = MutMap { keys: Vec::new(), vals: Vec::new() };
                proof {
                    assert(tmp.key_seq() =~= Seq::<K::V>::empty());
                }
                std::mem::swap(&mut tmp, self);
                let MutMap { keys, vals } = tmp;
                let mut keys = keys;
                let mut vals = vals;
                keys.push(k);
                vals.push(v);
                proof {
                    assert(keys@.map_values(|x: K| x@) =~= old_keys.push(kv));
                    assert(!old_keys.contains(kv));
                }
                *self = MutMap { keys, vals };
                proof {
                    assert forall|kk: K::V| old_map.contains_key(kk) implies self.map_view().contains_key(kk)
                        && self.map_view()[kk] == old_map[kk] by {
                        let j = old_keys.index_of(kk);
                        old_self.lemma_pos(j);
                        assert(self.keys@[j] == old_self.keys@[j]);
                        self.lemma_pos(j);
                    }
                    self.lemma_pos(old_keys.len() as int);
                    assert(self.key_seq() =~= old_keys.push(kv));
                    assert forall|kk: K::V| #[trigger] self.map_view().contains_key(kk) implies kk == kv
                        || old_map.contains_key(kk) by {
                        let j = self.key_seq().index_of(kk);
                        if j < old_keys.len() {
                            assert(old_keys[j] == kk);
                        }
                    }
                    assert(self.map_view().contains_key(kv));
                    assert(self.map_view()[kv] == vv);
                    assert forall|kk: K::V| self.map_view().dom().contains(kk) <==> old_map.insert(
                        kv,
                        vv,
                    ).dom().contains(kk) by {
                        if old_map.contains_key(kk) {
                            let j = old_keys.index_of(kk);
                            assert(self.key_seq()[j] == kk);
                        }
                        if self.map_view().contains_key(kk) {
                            let j = self.key_seq().index_of(kk);
                            if j < old_keys.len() {
                                assert(old_keys[j] == kk);
                            }
                        }
                    }
                    assert(self.map_view().dom() =~= old_map.insert(kv, vv).dom());
                    assert(self.map_view() =~= old_map.insert(kv, vv));
                }
                None
            },
        }
    }
}

impl<K: MapKey, V> View for MutMap<K, V> {
    type V = Map<K::V, V>;

    closed spec fn view(&self) -> Map<K::V, V> {
        self.map_view()
    }
}

/// The entries of a map, in insertion order.
pub struct Iter<'a, K: MapKey, V> {
    keys: &'a Vec<K>,
    vals: &'a Vec<V>,
    pos: usize,
}

impl<'a, K: MapKey, V> Iter<'a, K, V> {
    /// What is still to come, in order.
    pub closed spec fn remaining(&self) -> Seq<(K::V, V)> {
        Seq::new(
            (self.keys@.len() - self.pos) as nat,
            |i: int| (self.keys@[self.pos + i]@, self.vals@[self.pos + i]),
        )
    }

    #[verifier::type_invariant]
    closed spec fn wf(&self) -> bool {
        &&& self.keys@.len() == self.vals@.len()
        &&& self.pos <= self.keys@.len()
    }

    /// Yields the next entry, or `None` once all have been yielded.
    pub fn next(&mut self) -> (r: Option<(&'a K, &'a V)>)
        ensures
            old(self).remaining().len() == 0 ==> r is None && final(self).remaining() == old(
                self,
            ).remaining(),
            old(self).remaining().len() > 0 ==> (r matches Some((k, v)) && (k@, *v) == old(
                self,
            ).remaining()[0] && final(self).remaining() == old(self).remaining().drop_first()),
    {
        proof {
            use_type_invariant(&*self);
        }
        let ghost before = self.remaining();
        if self.pos < self.keys.len() {
            let i = self.pos;
            self.pos = self.pos + 1;
            assert(self.remaining() =~= before.drop_first());
            Some((&self.keys[i], &self.vals[i]))
        } else {
            None
        }
    }

    /// Lower and upper bound on the number of entries still to come.
    pub fn size_hint(&self) -> (r: (usize, Option<usize>))
        ensures
            r.0 == self.remaining().len(),
            r.1 == Some(r.0),
    {
        proof {
            use_type_invariant(self);
        }
        let n = self.keys.len() - self.pos;
        (n, Some(n))
    }
}

} // verus!

verus! {

/// The keys of a map, in insertion order.
pub struct Keys<'a, K: MapKey, V> {
    inner: Iter<'a, K, V>,
}

impl<'a, K: MapKey, V> Keys<'a, K, V> {
    /// The keys still to come, in order.
    pub closed spec fn remaining(&self) -> Seq<K::V> {
        self.inner.remaining().map_values(|e: (K::V, V)| e.0)
    }

    /// Yields the next key, or `None` once all have been yielded.
    pub fn next(&mut self) -> (r: Option<&'a K>)
        ensures
            old(self).remaining().len() == 0 ==> r is None && final(self).remaining() == old(
                self,
            ).remaining(),
            old(self).remaining().len() > 0 ==> (r matches Some(k) && k@ == old(self).remaining()[0]
                && final(self).remaining() == old(self).remaining().drop_first()),
    {
        let ghost before = self.inner.remaining();
        let r = self.inner.next();
        proof {
            if before.len() > 0 {
                assert(self.inner.remaining().map_values(|e: (K::V, V)| e.0) =~= before.map_values(
                    |e: (K::V, V)| e.0,
                ).drop_first());
            }
        }
        match r {
            Some((k, _)) => Some(k),
            None => None,
        }
    }

    /// Lower and upper bound on the number of keys still to come.
    pub fn size_hint(&self) -> (r: (usize, Option<usize>))
        ensures
            r.0 == self.remaining().len(),
            r.1 == Some(r.0),
    {
        self.inner.size_hint()
    }
}

/// The values of a map, in the order of its keys.
pub struct Values<'a, K: MapKey, V> {
    inner: Iter<'a, K, V>,
}

impl<'a, K: MapKey, V> Values<'a, K, V> {
    /// The values still to come, in order.
    pub closed spec fn remaining(&self) -> Seq<V> {
        self.inner.remaining().map_values(|e: (K::V, V)| e.1)
    }

    /// Yields the next value, or `None` once all have been yielded.
    pub fn next(&mut self) -> (r: Option<&'a V>)
        ensures
            old(self).remaining().len() == 0 ==> r is None && final(self).remaining() == old(
                self,
            ).remaining(),
            old(self).remaining().len() > 0 ==> (r matches Some(v) && *v == old(self).remaining()[0]
                && final(self).remaining() == old(self).remaining().drop_first()),
    {
        let ghost before = self.inner.remaining();
        let r = self.inner.next();
        proof {
            if before.len() > 0 {
                assert(self.inner.remaining().map_values(|e: (K::V, V)| e.1) =~= before.map_values(
                    |e: (K::V, V)| e.1,
                ).drop_first());
            }
        }
        match r {
            Some((_, v)) => Some(v),
            None => None,
        }
    }

    /// Lower and upper bound on the number of values still to come.
    pub fn size_hint(&self) -> (r: (usize, Option<usize>))
        ensures
            r.0 == self.remaining().len(),
            r.1 == Some(r.0),
    {
        self.inner.size_hint()
    }
}

/// A `MutMap` keyed by strings, looked up by `&str`.
pub struct MutStrMap<V> {
    map: MutMap<String, V>,
}

impl<V> View for MutStrMap<V> {
    type V = Map<Seq<char>, V>;

    closed spec fn view(&self) -> Map<Seq<char>, V> {
        self.map@
    }
}

impl<V> MutStrMap<V> {
    /// The keys in insertion order.
    pub closed spec fn key_seq(&self) -> Seq<Seq<char>> {
        self.map.key_seq()
    }

    /// The entries in insertion order.
    pub closed spec fn items(&self) -> Seq<(Seq<char>, V)> {
        self.map.items()
    }

    /// An empty map.
    pub fn new() -> (m: Self)
        ensures
            m@ == Map::<Seq<char>, V>::empty(),
            m.key_seq() == Seq::<Seq<char>>::empty(),
    {
        MutStrMap { map: MutMap::new() }
    }

    /// The entries in insertion order; they list the map exactly.
    pub fn iter(&self) -> (it: Iter<'_, String, V>)
        ensures
            it.remaining() == self.items(),
            lists_map(self.items(), self@),
            self.items().map_values(|e: (Seq<char>, V)| e.0) == self.key_seq(),
    {
        self.map.iter()
    }

    /// The keys in insertion order.
    pub fn keys(&self) -> (it: Keys<'_, String, V>)
        ensures
            it.remaining() == self.key_seq(),
            self.key_seq().to_set() == self@.dom(),
            self.key_seq().no_duplicates(),
    {
        let inner = self.map.iter();
        proof {
            let s = self.items();
            assert forall|i: int, j: int|
                0 <= i < self.key_seq().len() && 0 <= j < self.key_seq().len() && i != j implies self.key_seq()[i]
                != self.key_seq()[j] by {
                assert(self.key_seq()[i] == s[i].0);
                assert(self.key_seq()[j] == s[j].0);
            }
            assert forall|k: Seq<char>| self.key_seq().to_set().contains(k) <==> self@.dom().contains(
                k,
            ) by {
                if self@.dom().contains(k) {
                    let i = choose|i: int| 0 <= i < s.len() && #[trigger] s[i].0 == k;
                    assert(self.key_seq()[i] == k);
                }
                if self.key_seq().contains(k) {
                    let i = self.key_seq().index_of(k);
                    assert(s[i].0 == k);
                }
            }
            assert(self.key_seq().to_set() =~= self@.dom());
        }
        Keys { inner }
    }

    /// The values, in the order of `keys`.
    pub fn values(&self) -> (it: Values<'_, String, V>)
        ensures
            it.remaining() == self.items().map_values(|e: (Seq<char>, V)| e.1),
    {
        Values { inner: self.map.iter() }
    }

    /// A copy: the same names in the same order, each value duplicated.
    pub fn duplicate(&self) -> (r: Self)
        where V: Duplicate,
        ensures
            r.key_seq() == self.key_seq(),
            r@.dom() == self@.dom(),
            forall|k: Seq<char>| #[trigger] r@.contains_key(k) ==> r@[k]@ == self@[k]@,
    {
        MutStrMap { map: self.map.duplicate() }
    }

    /// Number of entries.
    pub fn len(&self) -> (n: usize)
        ensures
            n == self@.len(),
    {
        self.map.len()
    }

    /// The value stored under `name`, if any.
    pub fn get(&self, name: &str) -> (r: Option<&V>)
        ensures
            match r {
                Some(v) => self@.contains_key(name@) && *v == self@[name@],
                None => !self@.contains_key(name@),
            },
    {
        let key = name.to_owned();
        self.map.get(&key)
    }

    /// Whether `name` has an entry.
    pub fn contains_key(&self, name: &str) -> (b: bool)
        ensures
            b == self@.contains_key(name@),
    {
        let key = name.to_owned();
        self.map.contains_key(&key)
    }

    /// Stores `v` under `k`; gives back the value it replaces, if any.
    pub fn insert(&mut self, k: &str, v: V) -> (r: Option<V>)
        ensures
            final(self)@ == old(self)@.insert(k@, v),
            r == (if old(self)@.contains_key(k@) {
                Some(old(self)@[k@])
            } else {
                None
            }),
            final(self).key_seq() == (if old(self)@.contains_key(k@) {
                old(self).key_seq()
            } else {
                old(self).key_seq().push(k@)
            }),
    {
        self.map.insert(k.to_owned(), v)
    }

    /// Takes the entry of `name` out, giving back its value.
    pub fn remove(&mut self, name: &str) -> (r: Option<V>)
        ensures
            final(self)@ == old(self)@.remove(name@),
            r == (if old(self)@.contains_key(name@) {
                Some(old(self)@[name@])
            } else {
                None
            }),
    {
        let key = name.to_owned();
        self.map.remove(&key)
    }

    /// The value stored under `name`, which must be present.
    pub fn index(&self, name: &str) -> (r: &V)
        requires
            self@.contains_key(name@),
        ensures
            *r == self@[name@],
    {
        let key = name.to_owned();
        self.map.index(&key)
    }

    /// The value stored under `name` for writing; a missing name is first
    /// stored with `V`'s default value.
    pub fn index_mut(&mut self, name: &str) -> (r: &mut V)
        where V: Default,
        ensures
            old(self)@.contains_key(name@) ==> *r == old(self)@[name@],
            !old(self)@.contains_key(name@) ==> call_ensures(V::default, (), *r),
            final(self)@ == old(self)@.insert(name@, *final(r)),
            final(self).key_seq() == (if old(self)@.contains_key(name@) {
                old(self).key_seq()
            } else {
                old(self).key_seq().push(name@)
            }),
    {
        let key = name.to_owned();
        self.map.index_mut(&key)
    }
}

impl<K: MapKey, V> Default for MutMap<K, V> {
    fn default() -> (m: Self)
        ensures
            m@ == Map::<K::V, V>::empty(),
    {
        MutMap::new()
    }
}

impl<V> Default for MutStrMap<V> {
    fn default() -> (m: Self)
        ensures
            m@ == Map::<Seq<char>, V>::empty(),
    {
        MutStrMap::new()
    }
}

/// What a lookup gives after a store (the maps' `insert`, `get`, `index` and
/// `remove` are stated over their views): the stored value under its key,
/// the old entry (or none) under every other key; a second store under the
/// same key replaces the first; a removed key is gone.
pub proof fn law_read_after_write<K, V>(m: Map<K, V>, k: K, v: V, w: V, j: K)
    ensures
        m.insert(k, v).contains_key(k) && m.insert(k, v)[k] == v,
        j != k ==> m.insert(k, v).contains_key(j) == m.contains_key(j),
        j != k && m.contains_key(j) ==> m.insert(k, v)[j] == m[j],
        m.insert(k, v).insert(k, w) == m.insert(k, w),
        !m.insert(k, v).remove(k).contains_key(k),
{
    assert(m.insert(k, v).insert(k, w) =~= m.insert(k, w));
}

/// A change made to a map: a store under a key (by `insert`, or by a write
/// through `index_mut`) or the removal of a key.
pub enum MapChange<K, V> {
    Store(K, V),
    Remove(K),
}

/// The map that the changes `ops`, made in order, turn `m` into (each
/// change as the maps' `insert`, `index_mut` and `remove` state it over
/// their views).
pub open spec fn replay<K, V>(m: Map<K, V>, ops: Seq<MapChange<K, V>>) -> Map<K, V>
    decreases ops.len(),
{
    if ops.len() == 0 {
        m
    } else {
        match ops.last() {
            MapChange::Store(k, v) => replay(m, ops.drop_last()).insert(k, v),
            MapChange::Remove(k) => replay(m, ops.drop_last()).remove(k),
        }
    }
}

/// Whether some change of `ops` stores under `k` and no later one removes it.
pub open spec fn stored_since<K, V>(ops: Seq<MapChange<K, V>>, k: K) -> bool {
    exists|i: int|
        0 <= i < ops.len() && (#[trigger] ops[i] matches MapChange::Store(k1, _) && k1 == k) && (
        forall|j: int| i < j < ops.len() ==> !(#[trigger] ops[j] matches MapChange::Remove(k2) && k2 == k))
}

/// A key is in a map made by `new` exactly when a store was made under it
/// and no removal of it followed.
pub proof fn law_present_iff_stored<K, V>(ops: Seq<MapChange<K, V>>, k: K)
    ensures
        replay(Map::<K, V>::empty(), ops).contains_key(k) <==> stored_since(ops, k),
    decreases ops.len(),
{
    if ops.len() > 0 {
        let pre = ops.drop_last();
        law_present_iff_stored(pre, k);
        let n = ops.len() - 1;
        assert forall|i: int| 0 <= i < pre.len() implies #[trigger] pre[i] == ops[i] by {}
        match ops.last() {
            MapChange::Store(k1, v) => {
                if k1 == k {
                    assert(ops[n] matches MapChange::Store(k1, _) && k1 == k);
                } else if stored_since(ops, k) {
                    let i = choose|i: int|
                        0 <= i < ops.len() && (#[trigger] ops[i] matches MapChange::Store(k1, _) && k1 == k) && (
                        forall|j: int| i < j < ops.len() ==> !(#[trigger] ops[j] matches MapChange::Remove(k2) && k2 == k));
                    assert(i < n);
                    assert(pre[i] == ops[i]);
                    assert forall|j: int| i < j < pre.len() implies !(#[trigger] pre[j] matches MapChange::Remove(k2) && k2 == k) by {
                        assert(pre[j] == ops[j]);
                    }
                } else if stored_since(pre, k) {
                    let i = choose|i: int|
                        0 <= i < pre.len() && (#[trigger] pre[i] matches MapChange::Store(k1, _) && k1 == k) && (
                        forall|j: int| i < j < pre.len() ==> !(#[trigger] pre[j] matches MapChange::Remove(k2) && k2 == k));
                    assert(ops[i] == pre[i]);
                    assert forall|j: int| i < j < ops.len() implies !(#[trigger] ops[j] matches MapChange::Remove(k2) && k2 == k) by {
                        if j < n {
                            assert(pre[j] == ops[j]);
                        }
                    }
                }
            },
            MapChange::Remove(k1) => {
                if k1 == k {
                    if stored_since(ops, k) {
                        let i = choose|i: int|
                            0 <= i < ops.len() && (#[trigger] ops[i] matches MapChange::Store(k1, _) && k1 == k) && (
                            forall|j: int| i < j < ops.len() ==> !(#[trigger] ops[j] matches MapChange::Remove(k2) && k2 == k));
                        assert(i != n);
                        assert(ops[n] matches MapChange::Remove(k2) && k2 == k);
                    }
                } else if stored_since(ops, k) {
                    let i = choose|i: int|
                        0 <= i < ops.len() && (#[trigger] ops[i] matches MapChange::Store(k1, _) && k1 == k) && (
                        forall|j: int| i < j < ops.len() ==> !(#[trigger] ops[j] matches MapChange::Remove(k2) && k2 == k));
                    assert(i < n);
                    assert(pre[i] == ops[i]);
                    assert forall|j: int| i < j < pre.len() implies !(#[trigger] pre[j] matches MapChange::Remove(k2) && k2 == k) by {
                        assert(pre[j] == ops[j]);
                    }
                } else if stored_since(pre, k) {
                    let i = choose|i: int|
                        0 <= i < pre.len() && (#[trigger] pre[i] matches MapChange::Store(k1, _) && k1 == k) && (
                        forall|j: int| i < j < pre.len() ==> !(#[trigger] pre[j] matches MapChange::Remove(k2) && k2 == k));
                    assert(ops[i] == pre[i]);
                    assert forall|j: int| i < j < ops.len() implies !(#[trigger] ops[j] matches MapChange::Remove(k2) && k2 == k) by {
                        if j < n {
                            assert(pre[j] == ops[j]);
                        }
                    }
                }
            },
        }
    }
}

} // verus!
