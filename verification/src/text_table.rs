use vstd::prelude::*;

verus! {

/// The map that a list of key and value pairs gives when later pairs replace
/// earlier ones with the same key.
pub open spec fn pairs_map<K, V>(s: Seq<(K, V)>) -> Map<K, V>
    decreases s.len(),
{
    if s.len() == 0 {
        Map::empty()
    } else {
        pairs_map(s.drop_last()).insert(s.last().0, s.last().1)
    }
}

/// The keys of `pairs_map(s)` are exactly the keys of the pairs.
pub proof fn lemma_pairs_map_dom<K, V>(s: Seq<(K, V)>)
    ensures
        pairs_map(s).dom() == s.map_values(|e: (K, V)| e.0).to_set(),
    decreases s.len(),
{
    let ks = s.map_values(|e: (K, V)| e.0);
    if s.len() > 0 {
        lemma_pairs_map_dom(s.drop_last());
        let kd = s.drop_last().map_values(|e: (K, V)| e.0);
        assert(kd =~= ks.drop_last());
        assert forall|k: K| ks.to_set().contains(k) implies pairs_map(s).dom().contains(k) by {
            let j = choose|j: int| 0 <= j < ks.len() && ks[j] == k;
            if j < ks.len() - 1 {
                assert(kd[j] == k);
                assert(kd.to_set().contains(k));
            }
        }
        assert forall|k: K| pairs_map(s).dom().contains(k) implies ks.to_set().contains(k) by {
            if k != s.last().0 {
                assert(kd.to_set().contains(k));
                let j = choose|j: int| 0 <= j < kd.len() && kd[j] == k;
                assert(ks[j] == k);
            } else {
                assert(ks[ks.len() - 1] == k);
            }
        }
    }
    assert(pairs_map(s).dom() =~= ks.to_set());
}

/// A small table from texts to values, kept as a list of entries in which no
/// text occurs twice. Entries keep the position where their text was first added.
pub struct TextKeyedTable<V> {
    entries: Vec<(String, V)>,
}

impl<V> TextKeyedTable<V> {
    /// The texts of the entries, in order.
    pub closed spec fn keys(&self) -> Seq<Seq<char>> {
        self.entries@.map_values(|e: (String, V)| e.0@)
    }

    /// The values of the entries, in order.
    pub closed spec fn values(&self) -> Seq<V> {
        self.entries@.map_values(|e: (String, V)| e.1)
    }

    /// No text occurs twice.
    #[verifier::type_invariant]
    pub closed spec fn wf(&self) -> bool {
        self.keys().no_duplicates()
    }

    /// The texts and values of a list of entries.
    pub closed spec fn entry_views(s: Seq<(String, V)>) -> Seq<(Seq<char>, V)> {
        s.map_values(|e: (String, V)| (e.0@, e.1))
    }

    /// The map that a list of entries stands for: later entries override earlier ones.
    pub closed spec fn map_of(s: Seq<(String, V)>) -> Map<Seq<char>, V> {
        pairs_map(Self::entry_views(s))
    }

    /// The table as a map from texts to values.
    pub closed spec fn view(&self) -> Map<Seq<char>, V> {
        Self::map_of(self.entries@)
    }

    proof fn lemma_map_of_step(s: Seq<(String, V)>)
        requires
            s.len() > 0,
        ensures
            Self::map_of(s) == Self::map_of(s.drop_last()).insert(s.last().0@, s.last().1),
    {
        assert(Self::entry_views(s).drop_last() =~= Self::entry_views(s.drop_last()));
    }

    proof fn lemma_map_of_dom(s: Seq<(String, V)>)
        ensures
            Self::map_of(s).dom() == s.map_values(|e: (String, V)| e.0@).to_set(),
    {
        lemma_pairs_map_dom(Self::entry_views(s));
        assert(Self::entry_views(s).map_values(|e: (Seq<char>, V)| e.0) =~= s.map_values(
            |e: (String, V)| e.0@,
        ));
    }

    proof fn lemma_map_of_entry(s: Seq<(String, V)>, idx: int)
        requires
            s.map_values(|e: (String, V)| e.0@).no_duplicates(),
            0 <= idx < s.len(),
        ensures
            Self::map_of(s).contains_key(s[idx].0@),
            Self::map_of(s)[s[idx].0@] == s[idx].1,
        decreases s.len(),
    {
        Self::lemma_map_of_step(s);
        if idx < s.len() - 1 {
            let ks = s.map_values(|e: (String, V)| e.0@);
            assert(s.drop_last().map_values(|e: (String, V)| e.0@) =~= ks.drop_last());
            Self::lemma_map_of_entry(s.drop_last(), idx);
            assert(ks[idx] != ks[s.len() - 1]);
        }
    }

    proof fn lemma_map_of_update(s: Seq<(String, V)>, idx: int, e: (String, V))
        requires
            0 <= idx < s.len(),
            s[idx].0@ == e.0@,
            s.map_values(|e: (String, V)| e.0@).no_duplicates(),
        ensures
            Self::map_of(s.update(idx, e)) == Self::map_of(s).insert(e.0@, e.1),
        decreases s.len(),
    {
        let ks = s.map_values(|e: (String, V)| e.0@);
        Self::lemma_map_of_step(s);
        Self::lemma_map_of_step(s.update(idx, e));
        if idx == s.len() - 1 {
            assert(s.update(idx, e).drop_last() =~= s.drop_last());
            assert(Self::map_of(s.update(idx, e)) =~= Self::map_of(s).insert(e.0@, e.1));
        } else {
            assert(s.update(idx, e).drop_last() =~= s.drop_last().update(idx, e));
            assert(s.drop_last().map_values(|e: (String, V)| e.0@) =~= ks.drop_last());
            Self::lemma_map_of_update(s.drop_last(), idx, e);
            assert(ks[idx] != ks[s.len() - 1]);
            assert(s.update(idx, e).last() == s.last());
            assert(Self::map_of(s.update(idx, e)) =~= Self::map_of(s).insert(e.0@, e.1));
        }
    }

    /// The entry at position `idx` is what the map holds for its text.
    pub proof fn lemma_entry(&self, idx: int)
        requires
            self.wf(),
            0 <= idx < self.keys().len(),
        ensures
            self.keys().len() == self.values().len(),
            self@.contains_key(self.keys()[idx]),
            self@[self.keys()[idx]] == self.values()[idx],
    {
        Self::lemma_map_of_entry(self.entries@, idx);
    }

    /// The map holds exactly the texts of the entries, one per entry.
    pub proof fn lemma_domain(&self)
        requires
            self.wf(),
        ensures
            self@.dom() == self.keys().to_set(),
            self@.dom().finite(),
            self@.dom().len() == self.keys().len(),
    {
        Self::lemma_map_of_dom(self.entries@);
        self.keys().unique_seq_to_set();
    }

}

impl<V: Copy> TextKeyedTable<V> {
    /// An empty table.
    pub fn new() -> (t: Self)
        ensures
            t@ == Map::<Seq<char>, V>::empty(),
            t.keys() == Seq::<Seq<char>>::empty(),
    {
        let t = TextKeyedTable { entries: Vec::new() };
        assert(t.keys() =~= Seq::<Seq<char>>::empty());
        t
    }

    /// The number of entries, which is the number of distinct texts in the map.
    pub fn len(&self) -> (n: usize)
        ensures
            n == self.keys().len(),
            n == self@.dom().len(),
    {
        proof {
            use_type_invariant(self);
            self.lemma_domain();
        }
        self.entries.len()
    }

    /// The text of the entry at position `i`.
    pub fn key_at(&self, i: usize) -> (k: &String)
        requires
            i < self.keys().len(),
        ensures
            k@ == self.keys()[i as int],
    {
        &self.entries[i].0
    }

    /// The value of the entry at position `i`.
    pub fn value_at(&self, i: usize) -> (v: V)
        requires
            i < self.keys().len(),
        ensures
            v == self.values()[i as int],
    {
        self.entries[i].1
    }

    /// The position of the entry for `key`, if there is one.
    fn position(&self, key: &String) -> (r: Option<usize>)
        ensures
            r is None <==> !self@.contains_key(key@),
            r matches Some(i) ==> i < self.keys().len() && self.keys()[i as int] == key@,
    {
        proof {
            use_type_invariant(self);
        }
        let n = self.entries.len();
        let mut i: usize = 0;
        while i < n
            invariant
                self.wf(),
                n == self.entries@.len(),
                i <= n,
                forall|j: int| 0 <= j < i ==> self.entries@[j].0@ != key@,
            decreases n - i,
        {
            if self.entries[i].0 == *key {
                assert(self.keys()[i as int] == key@);
                proof {
                    self.lemma_entry(i as int);
                }
                return Some(i);
            }
            i += 1;
        }
        proof {
            Self::lemma_map_of_dom(self.entries@);
            if self.keys().contains(key@) {
                let j = choose|j: int| 0 <= j < self.keys().len() && self.keys()[j] == key@;
                assert(self.entries@[j].0@ == key@);
            }
        }
        None
    }

    /// The value stored for `key`, if any.
    pub fn get(&self, key: &String) -> (r: Option<V>)
        ensures
            r == (if self@.contains_key(key@) {
                Some(self@[key@])
            } else {
                None::<V>
            }),
    {
        proof {
            use_type_invariant(self);
        }
        match self.position(key) {
            Some(i) => {
                proof {
                    self.lemma_entry(i as int);
                }
                Some(self.entries[i].1)
            },
            None => None,
        }
    }

    /// Stores `value` for `key`, in place of any value it had; a new text is added
    /// at the end.
    pub fn insert(&mut self, key: String, value: V)
        ensures
            final(self)@ == old(self)@.insert(key@, value),
            old(self)@.contains_key(key@) ==> final(self).keys() == old(self).keys(),
            !old(self)@.contains_key(key@) ==> final(self).keys() == old(self).keys().push(key@),
    {
        proof {
            use_type_invariant(&*self);
        }
        let ghost old_self = *self;
        let ghost e = (key, value);
        match self.position(&key) {
            Some(i) => {
                proof {
                    Self::lemma_map_of_update(old_self.entries@, i as int, e);
                    assert(old_self.entries@.update(i as int, e).map_values(
                        |e: (String, V)| e.0@,
                    ) =~= old_self.keys());
                }
                let mut entries: Vec<(String, V)> = Vec::new();
                std::mem::swap(&mut entries, &mut self.entries);
                entries.set(i, (key, value));
                self.entries = entries;
                assert(self.keys() =~= old_self.keys());
            },
            None => {
                proof {
                    let k = e.0@;
                    let ks = old_self.entries@.push(e).map_values(|e: (String, V)| e.0@);
                    assert(ks =~= old_self.keys().push(k));
                    assert(old_self.entries@.push(e).drop_last() =~= old_self.entries@);
                    Self::lemma_map_of_step(old_self.entries@.push(e));
                    Self::lemma_map_of_dom(old_self.entries@);
                    assert forall|a: int, b: int|
                        0 <= a < ks.len() && 0 <= b < ks.len() && a != b implies ks[a] != ks[b] by {
                        if a == ks.len() - 1 {
                            assert(old_self.keys()[b] == ks[b]);
                        } else if b == ks.len() - 1 {
                            assert(old_self.keys()[a] == ks[a]);
                        }
                    }
                }
                let mut entries: Vec<(String, V)> = Vec::new();
                std::mem::swap(&mut entries, &mut self.entries);
                entries.push((key, value));
                self.entries = entries;
            },
        }
    }
}

/// A value stored for a text is what a lookup of that text gives afterwards,
/// and lookups of every other text give what they gave before.
pub proof fn law_lookup_after_insert<V>(m: Map<Seq<char>, V>, k: Seq<char>, v: V, other: Seq<char>)
    requires
        other != k,
    ensures
        m.insert(k, v).contains_key(k),
        m.insert(k, v)[k] == v,
        m.insert(k, v).contains_key(other) == m.contains_key(other),
        m.contains_key(other) ==> m.insert(k, v)[other] == m[other],
{
}

} // verus!
