//! A string-keyed map with string values, the representation behind every
//! import map the library builds.
//!
//! The entries are kept as an association list whose keys are unique; the
//! view is the mathematical `Map` the list describes, with later entries
//! overriding earlier ones — the semantics of repeated insertion.

use vstd::prelude::*;

verus! {

/// The mathematical map described by an association list, later entries
/// overriding earlier ones.
pub open spec fn assoc_map(s: Seq<(Seq<char>, Seq<char>)>) -> Map<Seq<char>, Seq<char>>
    decreases s.len(),
{
    if s.len() == 0 {
        Map::empty()
    } else {
        assoc_map(s.drop_last()).insert(s.last().0, s.last().1)
    }
}

/// No key occurs twice in the list.
pub open spec fn unique_keys(s: Seq<(Seq<char>, Seq<char>)>) -> bool {
    forall|i: int, j: int| 0 <= i < j < s.len() ==> (#[trigger] s[i]).0 != (#[trigger] s[j]).0
}

/// A key is in the map described by a list exactly when some entry holds it.
pub proof fn lemma_assoc_map_contains(s: Seq<(Seq<char>, Seq<char>)>, k: Seq<char>)
    ensures
        assoc_map(s).contains_key(k) <==> exists|i: int| 0 <= i < s.len() && (#[trigger] s[i]).0
            == k,
    decreases s.len(),
{
    if s.len() > 0 {
        lemma_assoc_map_contains(s.drop_last(), k);
        if s.last().0 == k {
            assert(s[s.len() - 1].0 == k);
        } else if assoc_map(s).contains_key(k) {
            let i = choose|i: int| 0 <= i < s.drop_last().len() && (#[trigger] s.drop_last()[i]).0
                == k;
            assert(s[i].0 == k);
        } else {
            assert forall|i: int| 0 <= i < s.len() implies (#[trigger] s[i]).0 != k by {
                if i < s.len() - 1 {
                    assert(s.drop_last()[i] == s[i]);
                }
            }
        }
    }
}

/// Under unique keys, the map's value at an entry's key is that entry's value.
pub proof fn lemma_assoc_map_index(s: Seq<(Seq<char>, Seq<char>)>, i: int)
    requires
        unique_keys(s),
        0 <= i < s.len(),
    ensures
        assoc_map(s).contains_key(s[i].0),
        assoc_map(s)[s[i].0] == s[i].1,
    decreases s.len(),
{
    if i < s.len() - 1 {
        assert(s.drop_last()[i] == s[i]);
        lemma_assoc_map_index(s.drop_last(), i);
        assert(s[i].0 != s.last().0);
    }
}

/// Under unique keys, every key of the map comes from an entry and the map's
/// domain is finite with exactly one element per entry.
pub proof fn lemma_assoc_map_dom_len(s: Seq<(Seq<char>, Seq<char>)>)
    requires
        unique_keys(s),
    ensures
        assoc_map(s).dom().finite(),
        assoc_map(s).dom().len() == s.len(),
    decreases s.len(),
{
    if s.len() == 0 {
        assert(assoc_map(s).dom() =~= Set::<Seq<char>>::empty());
    } else {
        lemma_assoc_map_dom_len(s.drop_last());
        lemma_assoc_map_contains(s.drop_last(), s.last().0);
        assert(forall|i: int|
            0 <= i < s.drop_last().len() ==> (#[trigger] s.drop_last()[i]) == s[i]);
        assert(!assoc_map(s.drop_last()).contains_key(s.last().0));
        assert(assoc_map(s).dom() =~= assoc_map(s.drop_last()).dom().insert(s.last().0));
    }
}

/// Appending an entry inserts its pair into the described map.
pub proof fn lemma_assoc_map_push(s: Seq<(Seq<char>, Seq<char>)>, k: Seq<char>, v: Seq<char>)
    ensures
        assoc_map(s.push((k, v))) == assoc_map(s).insert(k, v),
{
    assert(s.push((k, v)).drop_last() =~= s);
    assert(s.push((k, v)).last() == (k, v));
}

/// Under unique keys, overwriting the value of the entry holding a key
/// re-inserts that key into the described map.
pub proof fn lemma_assoc_map_update(s: Seq<(Seq<char>, Seq<char>)>, i: int, v: Seq<char>)
    requires
        unique_keys(s),
        0 <= i < s.len(),
    ensures
        assoc_map(s.update(i, (s[i].0, v))) == assoc_map(s).insert(s[i].0, v),
        unique_keys(s.update(i, (s[i].0, v))),
    decreases s.len(),
{
    let t = s.update(i, (s[i].0, v));
    assert forall|p: int, q: int| 0 <= p < q < t.len() implies (#[trigger] t[p]).0 != (
    #[trigger] t[q]).0 by {
        assert(t[p].0 == s[p].0 && t[q].0 == s[q].0);
    }
    if i == s.len() - 1 {
        assert(t.drop_last() =~= s.drop_last());
        assert(t.last() == (s[i].0, v));
        assert(assoc_map(t) =~= assoc_map(s).insert(s[i].0, v));
    } else {
        assert(t.drop_last() =~= s.drop_last().update(i, (s[i].0, v)));
        assert(s.drop_last()[i] == s[i]);
        lemma_assoc_map_update(s.drop_last(), i, v);
        assert(t.last() == s.last());
        assert(s[i].0 != s.last().0);
        assert(assoc_map(t) =~= assoc_map(s).insert(s[i].0, v));
    }
}

/// A string-to-string map with unique keys: the library's import-map
/// representation. Its view is the mathematical map of its entries.
#[derive(Debug)]
pub struct StringMap {
    entries: Vec<(String, String)>,
}

impl View for StringMap {
    type V = Map<Seq<char>, Seq<char>>;

    closed spec fn view(&self) -> Map<Seq<char>, Seq<char>> {
        assoc_map(self.entries.deep_view())
    }
}

impl StringMap {
    /// The entry list, as sequences of characters.
    pub closed spec fn entries_view(&self) -> Seq<(Seq<char>, Seq<char>)> {
        self.entries.deep_view()
    }

    /// Well-formed: no key occurs twice.
    pub closed spec fn wf(&self) -> bool {
        unique_keys(self.entries.deep_view())
    }

    /// The empty map.
    pub fn new() -> (r: StringMap)
        ensures
            r@ == Map::<Seq<char>, Seq<char>>::empty(),
            r.entries_view() == Seq::<(Seq<char>, Seq<char>)>::empty(),
            r.wf(),
    {
        let r = StringMap { entries: Vec::new() };
        proof {
            assert(r.entries.deep_view() =~= Seq::<(Seq<char>, Seq<char>)>::empty());
        }
        r
    }

    /// The number of entries, which under well-formedness is also the size
    /// of the map's domain.
    pub fn len(&self) -> (n: usize)
        requires
            self.wf(),
        ensures
            n == self.entries_view().len(),
            n == self@.dom().len(),
    {
        proof {
            lemma_assoc_map_dom_len(self.entries.deep_view());
        }
        self.entries.len()
    }

    /// Looks a key up: returns its value exactly when the map contains it.
    pub fn get(&self, key: &String) -> (r: Option<&String>)
        requires
            self.wf(),
        ensures
            match r {
                Some(v) => self@.contains_key(key@) && v@ == self@[key@],
                None => !self@.contains_key(key@),
            },
    {
        let n = self.entries.len();
        let mut i: usize = 0;
        while i < n
            invariant
                self.wf(),
                n == self.entries.len(),
                i <= n,
                forall|j: int| 0 <= j < i ==> (#[trigger] self.entries.deep_view()[j]).0 != key@,
            decreases n - i,
        {
            if self.entries[i].0.eq(key) {
                proof {
                    assert(self.entries.deep_view()[i as int].0 == key@);
                    lemma_assoc_map_index(self.entries.deep_view(), i as int);
                }
                return Some(&self.entries[i].1);
            }
            proof {
                assert(self.entries.deep_view()[i as int].0 == self.entries[i as int].0@);
            }
            i += 1;
        }
        proof {
            lemma_assoc_map_contains(self.entries.deep_view(), key@);
        }
        None
    }

    /// Whether the map contains a key.
    pub fn contains_key(&self, key: &String) -> (r: bool)
        requires
            self.wf(),
        ensures
            r == self@.contains_key(key@),
    {
        self.get(key).is_some()
    }

    /// Inserts a pair, overwriting the value if the key is already present.
    pub fn insert(&mut self, key: String, value: String)
        requires
            old(self).wf(),
        ensures
            final(self).wf(),
            final(self)@ == old(self)@.insert(key@, value@),
    {
        let n = self.entries.len();
        let mut i: usize = 0;
        while i < n
            invariant
                self == old(self),
                old(self).wf(),
                n == self.entries.len(),
                i <= n,
                forall|j: int| 0 <= j < i ==> (#[trigger] self.entries.deep_view()[j]).0 != key@,
            decreases n - i,
        {
            if self.entries[i].0.eq(&key) {
                proof {
                    assert(self.entries.deep_view()[i as int].0 == key@);
                }
                let ghost s = self.entries.deep_view();
                self.entries[i].1 = value;
                proof {
                    assert(self.entries.deep_view() =~= s.update(i as int, (key@, value@)));
                    lemma_assoc_map_update(s, i as int, value@);
                }
                return ;
            }
            proof {
                assert(self.entries.deep_view()[i as int].0 == self.entries[i as int].0@);
            }
            i += 1;
        }
        let ghost s = self.entries.deep_view();
        self.entries.push((key, value));
        proof {
            assert(self.entries.deep_view() =~= s.push((key@, value@)));
            lemma_assoc_map_push(s, key@, value@);
            assert forall|p: int, q: int|
                0 <= p < q < self.entries.deep_view().len() implies (#[trigger] self.entries.deep_view()[p]).0
                != (#[trigger] self.entries.deep_view()[q]).0 by {
                if q == self.entries.deep_view().len() - 1 {
                    assert(s[p].0 != key@);
                }
            }
        }
    }

    /// Read-only access to the entry list.
    pub fn entries(&self) -> (r: &Vec<(String, String)>)
        ensures
            r.deep_view() == self.entries_view(),
    {
        &self.entries
    }
}

} // verus!
