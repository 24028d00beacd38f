use vstd::prelude::*;

verus! {

/// The character sequences of a list of strings.
pub open spec fn string_views(s: Seq<String>) -> Seq<Seq<char>> {
    s.map_values(|x: String| x@)
}

/// The map whose keys are `keys` and whose value at `keys[i]` is `vals[i]`.
pub open spec fn assoc_map<V>(keys: Seq<Seq<char>>, vals: Seq<V>) -> Map<Seq<char>, V> {
    Map::new(|k: Seq<char>| keys.contains(k), |k: Seq<char>| vals[keys.index_of(k)])
}

/// With distinct keys, the key at `i` is found at `i` alone.
pub proof fn lemma_index_of_distinct(keys: Seq<Seq<char>>, i: int)
    requires
        keys.no_duplicates(),
        0 <= i < keys.len(),
    ensures
        keys.contains(keys[i]),
        keys.index_of(keys[i]) == i,
{
    assert(keys.contains(keys[i]));
    let j = keys.index_of(keys[i]);
    assert(0 <= j < keys.len() && keys[j] == keys[i]);
}

/// A map from names to values, kept as two parallel lists in insertion order
/// with distinct names (the order of names is not part of the map).
pub struct NameMap<V> {
    keys: Vec<String>,
    vals: Vec<V>,
}

impl<V> NameMap<V> {
    /// The lists are parallel and the names distinct.
    pub closed spec fn wf(&self) -> bool {
        &&& self.keys@.len() == self.vals@.len()
        &&& string_views(self.keys@).no_duplicates()
    }

    /// The names, in the order they were first inserted.
    pub closed spec fn names(&self) -> Seq<Seq<char>> {
        string_views(self.keys@)
    }

    pub closed spec fn view(&self) -> Map<Seq<char>, V> {
        assoc_map(string_views(self.keys@), self.vals@)
    }

    pub fn new() -> (r: NameMap<V>)
        ensures
            r.wf(),
            r.view() == Map::<Seq<char>, V>::empty(),
            r.names() == Seq::<Seq<char>>::empty(),
    {
        let r = NameMap { keys: Vec::new(), vals: Vec::new() };
        assert(string_views(r.keys@) =~= Seq::<Seq<char>>::empty());
        assert(r.view() =~= Map::<Seq<char>, V>::empty());
        r
    }

    /// Position of `key` in the lists.
    fn find(&self, key: &str) -> (r: Option<usize>)
        requires
            self.wf(),
        ensures
            r is Some <==> self.view().contains_key(key@),
            r matches Some(i) ==> i < self.vals@.len() && self.names()[i as int] == key@
                && self.names().index_of(key@) == i,
    {
        let k: String = key.to_owned();
        let mut i: usize = 0;
        while i < self.keys.len()
            invariant
                i <= self.keys.len(),
                k@ == key@,
                self.keys@.len() == self.vals@.len(),
                string_views(self.keys@).no_duplicates(),
                forall|j: int| 0 <= j < i ==> self.keys@[j]@ != key@,
            decreases self.keys.len() - i,
        {
            if self.keys[i] == k {
                proof {
                    lemma_index_of_distinct(string_views(self.keys@), i as int);
                }
                return Some(i);
            }
            i = i + 1;
        }
        proof {
            if string_views(self.keys@).contains(key@) {
                let j = string_views(self.keys@).index_of(key@);
                assert(self.keys@[j]@ == key@);
            }
        }
        None
    }

    pub fn contains_key(&self, key: &str) -> (r: bool)
        requires
            self.wf(),
        ensures
            r == self.view().contains_key(key@),
    {
        self.find(key).is_some()
    }

    pub fn get(&self, key: &str) -> (r: Option<&V>)
        requires
            self.wf(),
        ensures
            r is Some <==> self.view().contains_key(key@),
            r matches Some(v) ==> *v == self.view()[key@],
    {
        match self.find(key) {
            Some(i) => Some(&self.vals[i]),
            None => None,
        }
    }

    pub fn get_mut(&mut self, key: &str) -> (r: Option<&mut V>)
        requires
            old(self).wf(),
        ensures
            final(self).wf(),
            r is Some <==> old(self).view().contains_key(key@),
            r matches Some(v) ==> *v == old(self).view()[key@] && final(self).view() == old(
                self,
            ).view().insert(key@, *final(v)) && final(self).names() == old(self).names(),
            r is None ==> final(self).view() == old(self).view() && final(self).names() == old(
                self,
            ).names(),
    {
        match self.find(key) {
            Some(i) => {
                let ghost ov = self.vals@;
                let ghost ok = string_views(self.keys@);
                let r = &mut self.vals[i];
                proof {
                    assert forall|k: Seq<char>| true implies assoc_map(ok, ov.update(i as int, *final(r))).contains_key(k)
                        == old(self).view().insert(key@, *final(r)).contains_key(k) by {}
                    assert(assoc_map(ok, ov.update(i as int, *final(r))) =~= old(self).view().insert(
                        key@,
                        *final(r),
                    )) by {
                        assert forall|k: Seq<char>| #[trigger] ok.contains(k) && k != key@ implies ok.index_of(k) != i by {}
                    }
                }
                Some(r)
            },
            None => None,
        }
    }

    /// Sets the value of `key`; a new key goes to the end of the list, an
    /// existing one keeps its place.
    pub fn insert(&mut self, key: String, value: V)
        requires
            old(self).wf(),
        ensures
            final(self).wf(),
            final(self).view() == old(self).view().insert(key@, value),
            final(self).names() == if old(self).view().contains_key(key@) {
                old(self).names()
            } else {
                old(self).names().push(key@)
            },
    {
        let ghost ov = self.vals@;
        let ghost ok = string_views(self.keys@);
        match self.find(key.as_str()) {
            Some(i) => {
                self.vals[i] = value;
                proof {
                    assert forall|k: Seq<char>| #[trigger] ok.contains(k) && k != key@ implies ok.index_of(k) != i by {}
                    assert(self.view() =~= old(self).view().insert(key@, value));
                }
            },
            None => {
                let ghost kv = key@;
                self.keys.push(key);
                self.vals.push(value);
                proof {
                    let nk = string_views(self.keys@);
                    assert(nk =~= ok.push(kv));
                    assert(!ok.contains(kv));
                    assert forall|a: int, b: int| 0 <= a < nk.len() && 0 <= b < nk.len() && a != b implies nk[a] != nk[b] by {
                        if a == ok.len() {
                            assert(!ok.contains(nk[b]) || nk[b] != kv);
                        } else if b == ok.len() {
                            assert(nk[a] == ok[a]);
                        }
                    }
                    lemma_index_of_distinct(nk, ok.len() as int);
                    assert forall|k: Seq<char>| #[trigger] ok.contains(k) implies nk.index_of(k) == ok.index_of(k) by {
                        let j = ok.index_of(k);
                        lemma_index_of_distinct(nk, j);
                        assert(nk[j] == ok[j]);
                    }
                    assert forall|k: Seq<char>| #[trigger] nk.contains(k) <==> (ok.contains(k) || k == kv) by {
                        if nk.contains(k) {
                            let j = nk.index_of(k);
                            if j < ok.len() {
                                assert(ok[j] == nk[j]);
                            }
                        }
                        if ok.contains(k) {
                            let j = ok.index_of(k);
                            assert(nk[j] == ok[j]);
                        }
                    }
                    assert(self.vals@ == ov.push(value));
                    assert forall|k: Seq<char>| #[trigger] ok.contains(k) implies 0 <= ok.index_of(k) < ov.len() by {}
                    assert(self.view() =~= old(self).view().insert(kv, value));
                }
            },
        }
    }

    /// Removes `key` and hands back its value.
    pub fn remove(&mut self, key: &str) -> (r: Option<V>)
        requires
            old(self).wf(),
        ensures
            final(self).wf(),
            r is Some <==> old(self).view().contains_key(key@),
            r matches Some(v) ==> v == old(self).view()[key@],
            final(self).view() == old(self).view().remove(key@),
            final(self).names() == if old(self).view().contains_key(key@) {
                old(self).names().remove(old(self).names().index_of(key@))
            } else {
                old(self).names()
            },
    {
        let ghost ov = self.vals@;
        let ghost ok = string_views(self.keys@);
        match self.find(key) {
            Some(i) => {
                self.keys.remove(i);
                let v = self.vals.remove(i);
                proof {
                    let nk = string_views(self.keys@);
                    assert(nk =~= ok.remove(i as int));
                    assert forall|a: int, b: int| 0 <= a < nk.len() && 0 <= b < nk.len() && a != b implies nk[a] != nk[b] by {
                        let ia = if a < i { a } else { a + 1 };
                        let ib = if b < i { b } else { b + 1 };
                        assert(nk[a] == ok[ia]);
                        assert(nk[b] == ok[ib]);
                    }
                    assert forall|k: Seq<char>| #[trigger] nk.contains(k) implies ok.contains(k) && k != key@
                        && nk.index_of(k) == (if ok.index_of(k) < i { ok.index_of(k) } else { ok.index_of(k) - 1 }) by {
                        let j = nk.index_of(k);
                        let oj = if j < i { j } else { j + 1 };
                        assert(ok[oj] == nk[j]);
                        lemma_index_of_distinct(ok, oj);
                    }
                    assert forall|k: Seq<char>| #[trigger] ok.contains(k) && k != key@ implies nk.contains(k) by {
                        let oj = ok.index_of(k);
                        let j = if oj < i { oj } else { oj - 1 };
                        assert(nk[j] == ok[oj]);
                    }
                    assert(self.view() =~= old(self).view().remove(key@));
                }
                Some(v)
            },
            None => {
                assert(self.view() =~= old(self).view().remove(key@));
                None
            },
        }
    }

    /// A name map holds finitely many names.
    pub proof fn lemma_view_finite(&self)
        requires
            self.wf(),
        ensures
            self.view().dom().finite(),
            self.view().dom() == self.names().to_set(),
    {
        assert(self.view().dom() =~= self.names().to_set());
    }

    pub fn len(&self) -> (r: usize)
        requires
            self.wf(),
        ensures
            r == self.view().len(),
            r == self.names().len(),
    {
        proof {
            assert(self.view().dom() =~= self.names().to_set());
            self.names().unique_seq_to_set();
        }
        self.keys.len()
    }

    /// The names, in insertion order.
    pub fn key_list(&self) -> (r: Vec<&str>)
        requires
            self.wf(),
        ensures
            r@.len() == self.names().len(),
            forall|i: int| 0 <= i < r@.len() ==> #[trigger] r@[i]@ == self.names()[i],
            self.names().no_duplicates(),
            forall|k: Seq<char>| #[trigger] self.view().contains_key(k) <==> self.names().contains(k),
    {
        let mut r: Vec<&str> = Vec::new();
        let mut i: usize = 0;
        while i < self.keys.len()
            invariant
                i <= self.keys.len(),
                r@.len() == i,
                forall|j: int| 0 <= j < i ==> #[trigger] r@[j]@ == self.keys@[j]@,
            decreases self.keys.len() - i,
        {
            r.push(self.keys[i].as_str());
            i = i + 1;
        }
        r
    }

    /// The values, in the order of `names`.
    pub fn values(&self) -> (r: &Vec<V>)
        requires
            self.wf(),
        ensures
            r@.len() == self.names().len(),
            forall|i: int| 0 <= i < r@.len() ==> #[trigger] r@[i] == self.view()[self.names()[i]],
    {
        proof {
            assert forall|i: int| 0 <= i < self.vals@.len() implies #[trigger] self.vals@[i] == self.view()[self.names()[i]] by {
                lemma_index_of_distinct(self.names(), i);
            }
        }
        &self.vals
    }
}

} // verus!
