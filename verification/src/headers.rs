//! A small map from header names to header values.
//!
//! Entries are kept in insertion order and no name occurs twice; inserting
//! an existing name replaces its value in place.
use vstd::prelude::*;

verus! {

/// The abstract contents of an association list: later entries win.
pub open spec fn assoc_map(s: Seq<(Seq<char>, Seq<char>)>) -> Map<Seq<char>, Seq<char>>
    decreases s.len(),
{
    if s.len() == 0 {
        Map::empty()
    } else {
        assoc_map(s.drop_last()).insert(s.last().0, s.last().1)
    }
}

/// No key occurs twice in the association list.
pub open spec fn keys_distinct(s: Seq<(Seq<char>, Seq<char>)>) -> bool {
    forall|i: int, j: int| 0 <= i < s.len() && 0 <= j < s.len() && i != j ==> s[i].0 != s[j].0
}

/// A key is in the map exactly when some entry carries it, and then the map
/// holds that entry's value (given distinct keys).
proof fn lemma_assoc_lookup(s: Seq<(Seq<char>, Seq<char>)>, k: Seq<char>)
    requires
        keys_distinct(s),
    ensures
        assoc_map(s).dom().contains(k) <==> exists|i: int| 0 <= i < s.len() && s[i].0 == k,
        forall|i: int| 0 <= i < s.len() && s[i].0 == k ==> assoc_map(s)[k] == s[i].1,
        assoc_map(s).dom().finite(),
        assoc_map(s).dom().len() == s.len(),
    decreases s.len(),
{
    if s.len() > 0 {
        let p = s.drop_last();
        assert(keys_distinct(p));
        lemma_assoc_lookup(p, k);
        lemma_assoc_lookup(p, s.last().0);
        if assoc_map(s).dom().contains(k) {
            if k != s.last().0 {
                let i = choose|i: int| 0 <= i < p.len() && p[i].0 == k;
                assert(s[i].0 == k);
            } else {
                assert(s[s.len() - 1].0 == k);
            }
        }
        assert forall|i: int| 0 <= i < s.len() && s[i].0 == k implies assoc_map(s)[k] == s[i].1 by {
            if i < s.len() - 1 {
                assert(p[i] == s[i]);
                assert(s[i].0 != s[s.len() - 1].0);
            }
        }
        if (exists|i: int| 0 <= i < s.len() && s[i].0 == k) {
            let i = choose|i: int| 0 <= i < s.len() && s[i].0 == k;
            if i < s.len() - 1 {
                assert(p[i] == s[i]);
            }
        }
        if assoc_map(p).dom().contains(s.last().0) {
            let i = choose|i: int| 0 <= i < p.len() && p[i].0 == s.last().0;
            assert(s[i].0 == s[s.len() - 1].0);
        }
    }
}

/// Replacing the value of an existing key changes only that key's value.
proof fn lemma_assoc_update(s: Seq<(Seq<char>, Seq<char>)>, i: int, v: Seq<char>)
    requires
        keys_distinct(s),
        0 <= i < s.len(),
    ensures
        keys_distinct(s.update(i, (s[i].0, v))),
        assoc_map(s.update(i, (s[i].0, v))) == assoc_map(s).insert(s[i].0, v),
{
    let t = s.update(i, (s[i].0, v));
    assert(keys_distinct(t)) by {
        assert forall|a: int, b: int| 0 <= a < t.len() && 0 <= b < t.len() && a != b implies t[a].0
            != t[b].0 by {
            assert(t[a].0 == s[a].0);
            assert(t[b].0 == s[b].0);
        }
    }
    assert forall|k: Seq<char>| #[trigger] assoc_map(t).dom().contains(k) <==> assoc_map(s).insert(
        s[i].0,
        v,
    ).dom().contains(k) by {
        lemma_assoc_lookup(s, k);
        lemma_assoc_lookup(t, k);
        if exists|j: int| 0 <= j < s.len() && s[j].0 == k {
            let j = choose|j: int| 0 <= j < s.len() && s[j].0 == k;
            assert(t[j].0 == k);
        }
        if exists|j: int| 0 <= j < t.len() && t[j].0 == k {
            let j = choose|j: int| 0 <= j < t.len() && t[j].0 == k;
            assert(s[j].0 == k);
        }
    }
    assert forall|k: Seq<char>| #[trigger] assoc_map(t).dom().contains(k) implies assoc_map(t)[k]
        == assoc_map(s).insert(s[i].0, v)[k] by {
        lemma_assoc_lookup(s, k);
        lemma_assoc_lookup(t, k);
        let j = choose|j: int| 0 <= j < t.len() && t[j].0 == k;
        assert(s[j].0 == k);
    }
    assert(assoc_map(t) =~= assoc_map(s).insert(s[i].0, v));
}

/// Header names mapped to header values.
#[derive(Debug)]
pub struct HeaderMap {
    entries: Vec<(String, String)>,
}

impl HeaderMap {
    /// The entries as character sequences, in order.
    pub closed spec fn pairs(&self) -> Seq<(Seq<char>, Seq<char>)> {
        self.entries@.map_values(|e: (String, String)| (e.0@, e.1@))
    }

    #[verifier::type_invariant]
    spec fn distinct_names(&self) -> bool {
        keys_distinct(self.pairs())
    }

    /// The header names, in the order in which they were first inserted.
    pub closed spec fn names(&self) -> Seq<Seq<char>> {
        self.pairs().map_values(|p: (Seq<char>, Seq<char>)| p.0)
    }

    /// An empty map.
    pub fn new() -> (m: Self)
        ensures
            m@ == Map::<Seq<char>, Seq<char>>::empty(),
            m.names() == Seq::<Seq<char>>::empty(),
    {
        let m = HeaderMap { entries: Vec::new() };
        assert(m.pairs() =~= Seq::<(Seq<char>, Seq<char>)>::empty());
        assert(m.names() =~= Seq::<Seq<char>>::empty());
        m
    }

    /// The number of headers.
    pub fn len(&self) -> (n: usize)
        ensures
            n == self@.len(),
    {
        proof {
            use_type_invariant(self);
            lemma_assoc_lookup(self.pairs(), Seq::empty());
        }
        self.entries.len()
    }

    /// Whether the map holds no header.
    pub fn is_empty(&self) -> (b: bool)
        ensures
            b == (self@.len() == 0),
    {
        self.len() == 0
    }

    /// The position of the entry named `name`, if any.
    fn find(&self, name: &str) -> (r: Option<usize>)
        ensures
            match r {
                Some(i) => i < self.pairs().len() && self.pairs()[i as int].0 == name@,
                None => forall|j: int| 0 <= j < self.pairs().len() ==> self.pairs()[j].0 != name@,
            },
    {
        let mut i: usize = 0;
        while i < self.entries.len()
            invariant
                i <= self.entries@.len(),
                self.pairs().len() == self.entries@.len(),
                forall|j: int| 0 <= j < i ==> self.pairs()[j].0 != name@,
            decreases self.entries@.len() - i,
        {
            if crate::text::str_eq(self.entries[i].0.as_str(), name) {
                return Some(i);
            }
            i = i + 1;
        }
        None
    }

    /// The value stored under `name`, if any.
    pub fn get(&self, name: &str) -> (r: Option<&String>)
        ensures
            r is Some <==> self@.dom().contains(name@),
            r matches Some(v) ==> v@ == self@[name@],
    {
        proof {
            use_type_invariant(self);
            lemma_assoc_lookup(self.pairs(), name@);
        }
        match self.find(name) {
            Some(i) => Some(&self.entries[i].1),
            None => None,
        }
    }

    /// Stores `value` under `name`, replacing and returning any previous
    /// value; a new name goes after the existing ones.
    pub fn insert(&mut self, name: String, value: String) -> (prev: Option<String>)
        ensures
            final(self)@ == old(self)@.insert(name@, value@),
            prev is Some <==> old(self)@.dom().contains(name@),
            prev matches Some(p) ==> p@ == old(self)@[name@],
            old(self)@.dom().contains(name@) ==> final(self).names() == old(self).names(),
            !old(self)@.dom().contains(name@) ==> final(self).names() == old(self).names().push(
                name@,
            ),
    {
        proof {
            use_type_invariant(&*self);
            lemma_assoc_lookup(self.pairs(), name@);
        }
        let ghost old_pairs = self.pairs();
        let found = self.find(name.as_str());
        let mut entries: Vec<(String, String)> = Vec::new();
        std::mem::swap(&mut entries, &mut self.entries);
        assert(entries@.map_values(|e: (String, String)| (e.0@, e.1@)) == old_pairs);
        match found {
            Some(i) => {
                let old_value = entries[i].1.clone();
                let ghost name_view = old_pairs[i as int].0;
                proof {
                    lemma_assoc_update(old_pairs, i as int, value@);
                }
                let ghost vv = value@;
                entries.set(i, (name, value));
                proof {
                    let np = entries@.map_values(|e: (String, String)| (e.0@, e.1@));
                    assert(np =~= old_pairs.update(i as int, (name_view, vv)));
                }
                self.entries = entries;
                assert(self.pairs() =~= old_pairs.update(i as int, (name_view, value@)));
                assert(self.names() =~= old(self).names());
                Some(old_value)
            },
            None => {
                let ghost nv = name@;
                let ghost vv = value@;
                entries.push((name, value));
                proof {
                    let np = entries@.map_values(|e: (String, String)| (e.0@, e.1@));
                    assert(np =~= old_pairs.push((nv, vv)));
                    assert(np.drop_last() =~= old_pairs);
                    assert(keys_distinct(np));
                }
                self.entries = entries;
                assert(self.pairs() =~= old_pairs.push((nv, vv)));
                assert(self.pairs().drop_last() =~= old_pairs);
                assert(self.names() =~= old(self).names().push(nv));
                None
            },
        }
    }

    /// The entries in order, as (name, value) pairs.
    pub fn entries(&self) -> (r: &Vec<(String, String)>)
        ensures
            r@.map_values(|e: (String, String)| (e.0@, e.1@)) == self.pairs(),
    {
        &self.entries
    }
}

/// A header read back after `insert` has the inserted value; every other
/// name is present, and has its value, exactly as before.
pub proof fn lemma_insert_then_get(m: HeaderMap, name: Seq<char>, value: Seq<char>, other: Seq<char>)
    ensures
        m@.insert(name, value).dom().contains(name),
        m@.insert(name, value)[name] == value,
        other != name ==> (m@.insert(name, value).dom().contains(other) <==> m@.dom().contains(other)),
        other != name && m@.dom().contains(other) ==> m@.insert(name, value)[other] == m@[other],
{
}

/// Inserting a name that is present keeps the number of headers; a new
/// name adds one.
pub proof fn lemma_insert_len(m: HeaderMap, name: Seq<char>, value: Seq<char>)
    ensures
        m@.dom().finite(),
        m@.dom().contains(name) ==> m@.insert(name, value).len() == m@.len(),
        !m@.dom().contains(name) ==> m@.insert(name, value).len() == m@.len() + 1,
{
    lemma_assoc_finite(m.pairs());
    assert(m@.insert(name, value).dom() =~= m@.dom().insert(name));
}

/// An association list has finitely many keys.
proof fn lemma_assoc_finite(s: Seq<(Seq<char>, Seq<char>)>)
    ensures
        assoc_map(s).dom().finite(),
    decreases s.len(),
{
    if s.len() > 0 {
        lemma_assoc_finite(s.drop_last());
    }
}

impl View for HeaderMap {
    type V = Map<Seq<char>, Seq<char>>;

    closed spec fn view(&self) -> Map<Seq<char>, Seq<char>> {
        assoc_map(self.pairs())
    }
}

impl Clone for HeaderMap {
    fn clone(&self) -> (c: Self)
        ensures
            c@ == self@,
            c.names() == self.names(),
    {
        proof {
            use_type_invariant(self);
        }
        let mut entries: Vec<(String, String)> = Vec::new();
        let mut i: usize = 0;
        while i < self.entries.len()
            invariant
                i <= self.entries@.len(),
                entries@.len() == i,
                forall|j: int|
                    0 <= j < i ==> #[trigger] entries@[j] == self.entries@[j],
            decreases self.entries@.len() - i,
        {
            let e = &self.entries[i];
            entries.push((e.0.clone(), e.1.clone()));
            i = i + 1;
        }
        assert(entries@ =~= self.entries@);
        HeaderMap { entries }
    }
}

impl Default for HeaderMap {
    fn default() -> (m: Self)
        ensures
            m@ == Map::<Seq<char>, Seq<char>>::empty(),
    {
        HeaderMap::new()
    }
}

} // verus!
