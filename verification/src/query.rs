use vstd::prelude::*;

verus! {

/// A query parameter as text: its name and its value.
pub type PairView = (Seq<char>, Seq<char>);

/// No name occurs twice among the pairs.
pub open spec fn keys_unique(s: Seq<PairView>) -> bool {
    forall|i: int, j: int| 0 <= i < j < s.len() ==> s[i].0 != s[j].0
}

/// Whether some pair has this name.
pub open spec fn has_key(s: Seq<PairView>, k: Seq<char>) -> bool {
    exists|i: int| 0 <= i < s.len() && s[i].0 == k
}

/// The map that the pairs describe, a later pair with a name replacing an
/// earlier one.
pub open spec fn pairs_to_map(s: Seq<PairView>) -> Map<Seq<char>, Seq<char>>
    decreases s.len(),
{
    if s.len() == 0 {
        Map::empty()
    } else {
        pairs_to_map(s.drop_last()).insert(s.last().0, s.last().1)
    }
}

/// Setting a parameter: the pair with that name takes the new value in its
/// place, or the pair is appended where the name is new.
pub open spec fn insert_pair(s: Seq<PairView>, k: Seq<char>, v: Seq<char>) -> Seq<PairView> {
    if has_key(s, k) {
        let i = choose|i: int| 0 <= i < s.len() && s[i].0 == k;
        s.update(i, (k, v))
    } else {
        s.push((k, v))
    }
}

/// Setting each pair of `t`, in order, on `s`.
pub open spec fn insert_all(s: Seq<PairView>, t: Seq<PairView>) -> Seq<PairView>
    decreases t.len(),
{
    if t.len() == 0 {
        s
    } else {
        insert_pair(insert_all(s, t.drop_last()), t.last().0, t.last().1)
    }
}

/// The query parameters of a request: names with their values, no name
/// twice, in the order in which they were first set.
pub struct QueryParams {
    pairs: Vec<(String, String)>,
}

impl View for QueryParams {
    type V = Seq<PairView>;

    closed spec fn view(&self) -> Seq<PairView> {
        self.pairs@.map_values(|p: (String, String)| (p.0@, p.1@))
    }
}

/// A map of pairs whose names are unique gives each name the value of its pair.
pub proof fn lemma_map_of_unique(s: Seq<PairView>, i: int)
    requires
        keys_unique(s),
        0 <= i < s.len(),
    ensures
        pairs_to_map(s).contains_key(s[i].0),
        pairs_to_map(s)[s[i].0] == s[i].1,
    decreases s.len(),
{
    if i < s.len() - 1 {
        lemma_map_of_unique(s.drop_last(), i);
    }
}

/// The names that the map holds are those of the pairs.
pub proof fn lemma_map_domain(s: Seq<PairView>, k: Seq<char>)
    ensures
        pairs_to_map(s).contains_key(k) == has_key(s, k),
    decreases s.len(),
{
    if s.len() > 0 {
        lemma_map_domain(s.drop_last(), k);
        if has_key(s.drop_last(), k) {
            let i = choose|i: int| 0 <= i < s.drop_last().len() && s.drop_last()[i].0 == k;
            assert(s[i].0 == k);
        }
        if has_key(s, k) && s.last().0 != k {
            let i = choose|i: int| 0 <= i < s.len() && s[i].0 == k;
            assert(s.drop_last()[i].0 == k);
        }
    }
}

proof fn lemma_update_map(s: Seq<PairView>, j: int, k: Seq<char>, v: Seq<char>)
    requires
        keys_unique(s),
        0 <= j < s.len(),
        s[j].0 == k,
    ensures
        pairs_to_map(s.update(j, (k, v))) == pairs_to_map(s).insert(k, v),
    decreases s.len(),
{
    let t = s.update(j, (k, v));
    if j == s.len() - 1 {
        assert(t.drop_last() =~= s.drop_last());
        assert(pairs_to_map(t) =~= pairs_to_map(s).insert(k, v));
    } else {
        assert(t.drop_last() =~= s.drop_last().update(j, (k, v)));
        lemma_update_map(s.drop_last(), j, k, v);
        assert(s.last().0 != k);
        assert(pairs_to_map(t) =~= pairs_to_map(s).insert(k, v));
    }
}

/// Setting a parameter keeps the names unique and sets that name, and only
/// that name, in the map.
pub proof fn lemma_insert_pair(s: Seq<PairView>, k: Seq<char>, v: Seq<char>)
    requires
        keys_unique(s),
    ensures
        keys_unique(insert_pair(s, k, v)),
        pairs_to_map(insert_pair(s, k, v)) == pairs_to_map(s).insert(k, v),
        has_key(s, k) ==> insert_pair(s, k, v).len() == s.len(),
        !has_key(s, k) ==> insert_pair(s, k, v).len() == s.len() + 1,
{
    if has_key(s, k) {
        let i = choose|i: int| 0 <= i < s.len() && s[i].0 == k;
        lemma_update_map(s, i, k, v);
    } else {
        let t = s.push((k, v));
        assert(t.drop_last() =~= s);
        assert forall|i: int, j: int| 0 <= i < j < t.len() implies t[i].0 != t[j].0 by {
            if j == s.len() {
                assert(s[i].0 != k);
            }
        }
    }
}

/// Setting all pairs of a sequence keeps the names unique and gives the map
/// of the first, with the map of the second laid over it.
pub proof fn lemma_insert_all(s: Seq<PairView>, t: Seq<PairView>)
    requires
        keys_unique(s),
    ensures
        keys_unique(insert_all(s, t)),
        pairs_to_map(insert_all(s, t)) == pairs_to_map(s).union_prefer_right(pairs_to_map(t)),
    decreases t.len(),
{
    if t.len() == 0 {
        assert(pairs_to_map(s).union_prefer_right(pairs_to_map(t)) =~= pairs_to_map(s));
    } else {
        lemma_insert_all(s, t.drop_last());
        lemma_insert_pair(insert_all(s, t.drop_last()), t.last().0, t.last().1);
        assert(pairs_to_map(insert_all(s, t)) =~= pairs_to_map(s).union_prefer_right(
            pairs_to_map(t),
        ));
    }
}

/// Setting the pairs of a sequence whose names are unique on no pairs gives
/// that sequence back.
pub proof fn lemma_insert_all_empty(t: Seq<PairView>)
    requires
        keys_unique(t),
    ensures
        insert_all(Seq::empty(), t) == t,
    decreases t.len(),
{
    if t.len() > 0 {
        let u = t.drop_last();
        lemma_insert_all_empty(u);
        if has_key(u, t.last().0) {
            let i = choose|i: int| 0 <= i < u.len() && u[i].0 == t.last().0;
            assert(t[i].0 == t[t.len() - 1].0);
        }
        assert(u.push(t.last()) =~= t);
    }
}

impl QueryParams {
    #[verifier::type_invariant]
    spec fn inv(self) -> bool {
        keys_unique(self@)
    }

    /// No parameters.
    pub fn new() -> (r: QueryParams)
        ensures
            r@ == Seq::<PairView>::empty(),
            keys_unique(r@),
    {
        let r = QueryParams { pairs: Vec::new() };
        assert(r@ =~= Seq::<PairView>::empty());
        r
    }

    /// The number of parameters.
    pub fn len(&self) -> (r: usize)
        ensures
            r == self@.len(),
            keys_unique(self@),
    {
        proof {
            use_type_invariant(self);
        }
        self.pairs.len()
    }

    /// The name and the value of the parameter at `index`, in order.
    pub fn pair_at(&self, index: usize) -> (r: (&String, &String))
        requires
            index < self@.len(),
        ensures
            (r.0@, r.1@) == self@[index as int],
    {
        let p = &self.pairs[index];
        (&p.0, &p.1)
    }

    /// A copy of these parameters.
    pub fn copy(&self) -> (r: QueryParams)
        ensures
            r@ == self@,
            keys_unique(r@),
    {
        proof {
            use_type_invariant(self);
        }
        let mut pairs: Vec<(String, String)> = Vec::new();
        let mut i: usize = 0;
        while i < self.pairs.len()
            invariant
                i <= self.pairs.len(),
                self@.len() == self.pairs.len(),
                keys_unique(self@),
                pairs@.map_values(|p: (String, String)| (p.0@, p.1@)) =~= self@.take(i as int),
            decreases self.pairs.len() - i,
        {
            let p = &self.pairs[i];
            let k = p.0.clone();
            let v = p.1.clone();
            let ghost before = pairs@;
            pairs.push((k, v));
            proof {
                assert(self@[i as int] == (k@, v@));
                assert(pairs@ == before.push((k, v)));
                assert(pairs@.map_values(|p: (String, String)| (p.0@, p.1@)) =~= before.map_values(
                    |p: (String, String)| (p.0@, p.1@),
                ).push((k@, v@)));
                assert(self@.take(i + 1) =~= self@.take(i as int).push(self@[i as int]));
            }
            i = i + 1;
        }
        assert(self@.take(i as int) =~= self@);
        QueryParams { pairs }
    }

    /// The position of the parameter with this name, if there is one.
    fn position(&self, key: &String) -> (r: Option<usize>)
        ensures
            match r {
                Some(i) => i < self@.len() && self@[i as int].0 == key@,
                None => !has_key(self@, key@),
            },
    {
        let mut i: usize = 0;
        while i < self.pairs.len()
            invariant
                i <= self.pairs.len(),
                self@.len() == self.pairs.len(),
                forall|j: int| 0 <= j < i ==> self@[j].0 != key@,
            decreases self.pairs.len() - i,
        {
            if self.pairs[i].0 == *key {
                return Some(i);
            }
            i = i + 1;
        }
        None
    }

    /// The value of the parameter with this name.
    pub fn get(&self, key: &str) -> (r: Option<&String>)
        ensures
            match r {
                Some(v) => pairs_to_map(self@).contains_key(key@) && pairs_to_map(self@)[key@] == v@,
                None => !pairs_to_map(self@).contains_key(key@),
            },
    {
        proof {
            use_type_invariant(self);
            lemma_map_domain(self@, key@);
        }
        let k = String::from_str(key);
        match self.position(&k) {
            Some(i) => {
                proof {
                    lemma_map_of_unique(self@, i as int);
                }
                Some(&self.pairs[i].1)
            },
            None => None,
        }
    }

    /// Sets the parameter `key` to `value`: its pair takes the new value in
    /// place, or a new pair is appended.
    pub fn insert(&mut self, key: &str, value: &str)
        ensures
            final(self)@ == insert_pair(old(self)@, key@, value@),
            keys_unique(final(self)@),
            pairs_to_map(final(self)@) == pairs_to_map(old(self)@).insert(key@, value@),
    {
        proof {
            use_type_invariant(&*self);
            lemma_insert_pair(self@, key@, value@);
        }
        let k = String::from_str(key);
        let v = String::from_str(value);
        let ghost old_view = self@;
        let found = self.position(&k);
        let mut pairs: Vec<(String, String)> = Vec::new();
        std::mem::swap(&mut pairs, &mut self.pairs);
        match found {
            Some(i) => {
                proof {
                    assert(has_key(old_view, key@));
                    let j = choose|j: int| 0 <= j < old_view.len() && old_view[j].0 == key@;
                    assert(j == i);
                }
                pairs.set(i, (k, v));
            },
            None => {
                pairs.push((k, v));
            },
        }
        assert(pairs@.map_values(|p: (String, String)| (p.0@, p.1@)) =~= insert_pair(
            old_view,
            key@,
            value@,
        ));
        self.pairs = pairs;
    }

    /// Sets every parameter of `other` on this one, in order.
    pub fn merge(&mut self, other: &QueryParams)
        ensures
            final(self)@ == insert_all(old(self)@, other@),
            keys_unique(final(self)@),
            pairs_to_map(final(self)@) == pairs_to_map(old(self)@).union_prefer_right(
                pairs_to_map(other@),
            ),
    {
        proof {
            use_type_invariant(&*self);
            lemma_insert_all(self@, other@);
        }
        let ghost start = self@;
        let mut i: usize = 0;
        while i < other.len()
            invariant
                i <= other@.len(),
                self@ == insert_all(start, other@.take(i as int)),
            decreases other@.len() - i,
        {
            let (k, v) = other.pair_at(i);
            self.insert(k.as_str(), v.as_str());
            proof {
                assert(other@.take(i + 1).drop_last() =~= other@.take(i as int));
            }
            i = i + 1;
        }
        assert(other@.take(i as int) =~= other@);
    }
}

} // verus!
