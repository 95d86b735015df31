//! An in-memory model of one storage tree: an association list of byte
//! strings whose mathematical content is a `Map<Seq<u8>, Seq<u8>>`.
//!
//! The relay semantics in `model` and the laws in `laws` are stated over
//! this map; `TreeModel` is the executable embodiment used by the reference
//! interpreter and by tests.

use vstd::prelude::*;

use crate::protocol::opt_bytes;

verus! {

/// The mathematical content of one tree: each present key maps to its value.
pub type StoreModel = Map<Seq<u8>, Seq<u8>>;

/// A lookup that distinguishes an absent key from a present one.
pub open spec fn store_lookup(m: StoreModel, k: Seq<u8>) -> Option<Seq<u8>> {
    if m.dom().contains(k) {
        Some(m[k])
    } else {
        None
    }
}

/// The map an association list denotes; later entries win.
pub open spec fn store_of(s: Seq<(Vec<u8>, Vec<u8>)>) -> StoreModel
    decreases s.len(),
{
    if s.len() == 0 {
        Map::empty()
    } else {
        store_of(s.drop_last()).insert(s.last().0@, s.last().1@)
    }
}

/// No two entries carry the same key.
pub open spec fn entries_wf(s: Seq<(Vec<u8>, Vec<u8>)>) -> bool {
    forall|i: int, j: int| 0 <= i < j < s.len() ==> s[i].0@ != s[j].0@
}

/// A key is in the denoted map exactly when some entry carries it.
pub proof fn lemma_store_of_dom(s: Seq<(Vec<u8>, Vec<u8>)>, k: Seq<u8>)
    ensures
        store_of(s).dom().contains(k) <==> exists|i: int| 0 <= i < s.len() && s[i].0@ == k,
    decreases s.len(),
{
    if s.len() > 0 {
        lemma_store_of_dom(s.drop_last(), k);
        if s.last().0@ == k {
            assert(s[s.len() - 1].0@ == k);
        } else if store_of(s).dom().contains(k) {
            let i = choose|i: int| 0 <= i < s.drop_last().len() && s.drop_last()[i].0@ == k;
            assert(s[i].0@ == k);
        } else if exists|i: int| 0 <= i < s.len() && s[i].0@ == k {
            let i = choose|i: int| 0 <= i < s.len() && s[i].0@ == k;
            assert(s.drop_last()[i].0@ == k);
        }
    }
}

/// With distinct keys, the entry carrying a key gives its value in the map.
pub proof fn lemma_store_of_entry(s: Seq<(Vec<u8>, Vec<u8>)>, i: int)
    requires
        entries_wf(s),
        0 <= i < s.len(),
    ensures
        store_of(s).dom().contains(s[i].0@),
        store_of(s)[s[i].0@] == s[i].1@,
    decreases s.len(),
{
    if i < s.len() - 1 {
        assert(entries_wf(s.drop_last())) by {
            assert(forall|x: int, y: int|
                0 <= x < y < s.len() - 1 ==> s.drop_last()[x].0@ != s.drop_last()[y].0@);
        }
        lemma_store_of_entry(s.drop_last(), i);
        assert(s[i].0@ != s.last().0@);
    }
}

/// Replacing the entry that carries a key denotes inserting into the map.
pub proof fn lemma_store_of_update(s: Seq<(Vec<u8>, Vec<u8>)>, i: int, p: (Vec<u8>, Vec<u8>))
    requires
        entries_wf(s),
        0 <= i < s.len(),
        s[i].0@ == p.0@,
    ensures
        store_of(s.update(i, p)) == store_of(s).insert(p.0@, p.1@),
        entries_wf(s.update(i, p)),
    decreases s.len(),
{
    let t = s.update(i, p);
    assert(entries_wf(t)) by {
        assert(forall|x: int, y: int| 0 <= x < y < t.len() ==> t[x].0@ != t[y].0@) by {
            assert(forall|x: int| 0 <= x < t.len() ==> t[x].0@ == s[x].0@);
        }
    }
    if i == s.len() - 1 {
        assert(t.drop_last() =~= s.drop_last());
        assert(store_of(t) == store_of(s.drop_last()).insert(p.0@, p.1@));
        assert(store_of(s.drop_last()).insert(s.last().0@, s.last().1@).insert(p.0@, p.1@)
            =~= store_of(s.drop_last()).insert(p.0@, p.1@));
    } else {
        assert(t.drop_last() =~= s.drop_last().update(i, p));
        assert(entries_wf(s.drop_last())) by {
            assert(forall|x: int, y: int|
                0 <= x < y < s.len() - 1 ==> s.drop_last()[x].0@ != s.drop_last()[y].0@);
        }
        lemma_store_of_update(s.drop_last(), i, p);
        assert(s.last().0@ != p.0@);
        assert(store_of(s.drop_last()).insert(p.0@, p.1@).insert(s.last().0@, s.last().1@)
            =~= store_of(s.drop_last()).insert(s.last().0@, s.last().1@).insert(p.0@, p.1@));
    }
}

/// Appending an entry with a fresh key denotes inserting into the map.
pub proof fn lemma_store_of_push(s: Seq<(Vec<u8>, Vec<u8>)>, p: (Vec<u8>, Vec<u8>))
    requires
        forall|i: int| 0 <= i < s.len() ==> s[i].0@ != p.0@,
        entries_wf(s),
    ensures
        store_of(s.push(p)) == store_of(s).insert(p.0@, p.1@),
        entries_wf(s.push(p)),
{
    assert(s.push(p).drop_last() =~= s);
    assert(s.push(p).last() == p);
}

/// One storage tree modelled in memory, with unique keys.
pub struct TreeModel {
    entries: Vec<(Vec<u8>, Vec<u8>)>,
}

impl View for TreeModel {
    type V = StoreModel;

    closed spec fn view(&self) -> StoreModel {
        store_of(self.entries@)
    }
}

impl TreeModel {
    /// The key-uniqueness invariant.
    pub closed spec fn wf(&self) -> bool {
        entries_wf(self.entries@)
    }

    /// An empty store.
    pub fn new() -> (r: TreeModel)
        ensures
            r@ == Map::<Seq<u8>, Seq<u8>>::empty(),
            r.wf(),
    {
        TreeModel { entries: Vec::new() }
    }

    /// The index of the entry carrying `key`, if one does.
    fn find(&self, key: &Vec<u8>) -> (r: Option<usize>)
        ensures
            match r {
                Some(i) => i < self.entries@.len() && self.entries@[i as int].0@ == key@,
                None => forall|j: int| 0 <= j < self.entries@.len()
                    ==> self.entries@[j].0@ != key@,
            },
    {
        let n = self.entries.len();
        for i in 0..n
            invariant
                n == self.entries@.len(),
                forall|j: int| 0 <= j < i ==> self.entries@[j].0@ != key@,
        {
            if self.entries[i].0 == *key {
                assert(self.entries@[i as int].0@ =~= key@);
                return Some(i);
            }
            assert(self.entries@[i as int].0@ != key@);
        }
        None
    }

    /// The value `key` currently holds, if any.
    pub fn get(&self, key: &Vec<u8>) -> (r: Option<&Vec<u8>>)
        requires
            self.wf(),
        ensures
            match r {
                Some(v) => self@.dom().contains(key@) && v@ == self@[key@],
                None => !self@.dom().contains(key@),
            },
    {
        match self.find(key) {
            Some(i) => {
                proof {
                    lemma_store_of_entry(self.entries@, i as int);
                }
                Some(&self.entries[i].1)
            }
            None => {
                proof {
                    lemma_store_of_dom(self.entries@, key@);
                }
                None
            }
        }
    }

    /// Set `key` to `value`, returning the value it held just before.
    pub fn insert(&mut self, key: Vec<u8>, value: Vec<u8>) -> (prev: Option<Vec<u8>>)
        requires
            old(self).wf(),
        ensures
            final(self).wf(),
            final(self)@ == old(self)@.insert(key@, value@),
            opt_bytes(prev) == store_lookup(old(self)@, key@),
    {
        let ghost s0 = self.entries@;
        match self.find(&key) {
            Some(i) => {
                proof {
                    lemma_store_of_entry(s0, i as int);
                }
                let old_pair = self.entries.remove(i);
                self.entries.insert(i, (key, value));
                proof {
                    assert(self.entries@ =~= s0.update(i as int, self.entries@[i as int]));
                    lemma_store_of_update(s0, i as int, self.entries@[i as int]);
                }
                Some(old_pair.1)
            }
            None => {
                proof {
                    lemma_store_of_dom(s0, key@);
                }
                self.entries.push((key, value));
                proof {
                    assert(self.entries@ =~= s0.push(self.entries@.last()));
                    lemma_store_of_push(s0, self.entries@.last());
                }
                None
            }
        }
    }

    /// A fresh store with the same contents.
    pub fn duplicate(&self) -> (r: TreeModel)
        requires
            self.wf(),
        ensures
            r@ == self@,
            r.wf(),
    {
        let n = self.entries.len();
        let mut out: Vec<(Vec<u8>, Vec<u8>)> = Vec::new();
        for i in 0..n
            invariant
                n == self.entries@.len(),
                out@.len() == i,
                forall|j: int| #![trigger out@[j]] 0 <= j < i
                    ==> out@[j].0@ == self.entries@[j].0@ && out@[j].1@ == self.entries@[j].1@,
        {
            let k = self.entries[i].0.clone();
            let v = self.entries[i].1.clone();
            assert(k@ =~= self.entries@[i as int].0@);
            assert(v@ =~= self.entries@[i as int].1@);
            out.push((k, v));
        }
        proof {
            lemma_store_of_congruent(out@, self.entries@);
        }
        TreeModel { entries: out }
    }
}

/// Association lists whose entries agree view-by-view denote the same map.
proof fn lemma_store_of_congruent(a: Seq<(Vec<u8>, Vec<u8>)>, b: Seq<(Vec<u8>, Vec<u8>)>)
    requires
        a.len() == b.len(),
        forall|j: int| #![trigger a[j]] 0 <= j < a.len()
            ==> a[j].0@ == b[j].0@ && a[j].1@ == b[j].1@,
    ensures
        store_of(a) == store_of(b),
        entries_wf(b) ==> entries_wf(a),
    decreases a.len(),
{
    if a.len() > 0 {
        lemma_store_of_congruent(a.drop_last(), b.drop_last());
        assert(a.last().0@ == b.last().0@ && a.last().1@ == b.last().1@);
        assert(store_of(a) =~= store_of(b));
    } else {
        assert(store_of(a) =~= store_of(b));
    }
}

} // verus!
