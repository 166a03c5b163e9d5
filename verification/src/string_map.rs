//! An insertion-ordered string-to-string mapping.
//!
//! Header mappings and client configurations are both mappings from text
//! names to text values.  The mapping is stored as a vector of key-value
//! pairs whose keys are unique, and it is abstracted by a mathematical
//! `Map<Seq<char>, Seq<char>>`; the order of the pairs is kept so that
//! encoding a mapping onto the wire is deterministic, but the order carries
//! no meaning at the application boundary.

use vstd::prelude::*;

verus! {

/// The mathematical mapping described by a sequence of key-value pairs,
/// where a later pair with the same key overrides an earlier one.
pub open spec fn map_of(pairs: Seq<(Seq<char>, Seq<char>)>) -> Map<Seq<char>, Seq<char>>
    decreases pairs.len(),
{
    if pairs.len() == 0 {
        Map::empty()
    } else {
        map_of(pairs.drop_last()).insert(pairs.last().0, pairs.last().1)
    }
}

/// True when no two pairs of the sequence share a key.
pub open spec fn unique_keys(pairs: Seq<(Seq<char>, Seq<char>)>) -> bool {
    forall|i: int, j: int| 0 <= i < j < pairs.len() ==> pairs[i].0 != pairs[j].0
}

/// True when some pair of the sequence holds the key.
pub open spec fn has_key(pairs: Seq<(Seq<char>, Seq<char>)>, k: Seq<char>) -> bool {
    exists|i: int| 0 <= i < pairs.len() && (#[trigger] pairs[i]).0 == k
}

/// The keys of the mapping described by a pair sequence are exactly the
/// keys of its pairs.
pub proof fn lemma_map_of_dom(pairs: Seq<(Seq<char>, Seq<char>)>)
    ensures
        forall|k: Seq<char>| #[trigger] map_of(pairs).contains_key(k) <==> has_key(pairs, k),
    decreases pairs.len(),
{
    if pairs.len() > 0 {
        let prefix = pairs.drop_last();
        lemma_map_of_dom(prefix);
        assert forall|k: Seq<char>| #[trigger] map_of(pairs).contains_key(k) implies has_key(
            pairs,
            k,
        ) by {
            if k == pairs.last().0 {
                assert((pairs[pairs.len() - 1]).0 == k);
            } else {
                assert(map_of(prefix).contains_key(k));
                assert(has_key(prefix, k));
                let i = choose|i: int| 0 <= i < prefix.len() && (#[trigger] prefix[i]).0 == k;
                assert((pairs[i]).0 == k);
            }
        }
        assert forall|k: Seq<char>| has_key(pairs, k) implies #[trigger] map_of(
            pairs,
        ).contains_key(k) by {
            let i = choose|i: int| 0 <= i < pairs.len() && (#[trigger] pairs[i]).0 == k;
            if i < pairs.len() - 1 {
                assert((prefix[i]).0 == k);
                assert(has_key(prefix, k));
                assert(map_of(prefix).contains_key(k));
            } else {
                assert(k == pairs.last().0);
            }
        }
    }
}

/// With unique keys, the mapping sends the key of each pair to that pair's
/// value.
pub proof fn lemma_map_of_index(pairs: Seq<(Seq<char>, Seq<char>)>, i: int)
    requires
        unique_keys(pairs),
        0 <= i < pairs.len(),
    ensures
        map_of(pairs).contains_key(pairs[i].0),
        map_of(pairs)[pairs[i].0] == pairs[i].1,
    decreases pairs.len(),
{
    if i == pairs.len() - 1 {
    } else {
        assert(pairs.drop_last()[i] == pairs[i]);
        lemma_map_of_index(pairs.drop_last(), i);
        assert(pairs[i].0 != pairs.last().0);
    }
}

/// The mapping described by a pair sequence is a finite map.
pub proof fn lemma_map_of_finite(pairs: Seq<(Seq<char>, Seq<char>)>)
    ensures
        map_of(pairs).dom().finite(),
    decreases pairs.len(),
{
    if pairs.len() > 0 {
        lemma_map_of_finite(pairs.drop_last());
    }
}

/// With unique keys, the mapping has exactly one entry per pair.
pub proof fn lemma_map_of_len(pairs: Seq<(Seq<char>, Seq<char>)>)
    requires
        unique_keys(pairs),
    ensures
        map_of(pairs).dom().finite(),
        map_of(pairs).dom().len() == pairs.len(),
    decreases pairs.len(),
{
    lemma_map_of_finite(pairs);
    if pairs.len() > 0 {
        let prefix = pairs.drop_last();
        lemma_map_of_len(prefix);
        lemma_map_of_dom(prefix);
        assert(forall|j: int| 0 <= j < prefix.len() ==> prefix[j] == pairs[j]);
        assert(!has_key(prefix, pairs.last().0)) by {
            if has_key(prefix, pairs.last().0) {
                let i = choose|i: int|
                    0 <= i < prefix.len() && (#[trigger] prefix[i]).0 == pairs.last().0;
                assert(pairs[i].0 == pairs[pairs.len() - 1].0);
            }
        }
        assert(!map_of(prefix).contains_key(pairs.last().0));
    }
}

/// Replacing the value of the pair that holds a key updates the mapping at
/// that key, when keys are unique.
pub proof fn lemma_map_of_update(pairs: Seq<(Seq<char>, Seq<char>)>, i: int, v: Seq<char>)
    requires
        unique_keys(pairs),
        0 <= i < pairs.len(),
    ensures
        map_of(pairs.update(i, (pairs[i].0, v))) == map_of(pairs).insert(pairs[i].0, v),
    decreases pairs.len(),
{
    let updated = pairs.update(i, (pairs[i].0, v));
    if i == pairs.len() - 1 {
        assert(updated.drop_last() =~= pairs.drop_last());
        assert(map_of(updated) =~= map_of(pairs).insert(pairs[i].0, v));
    } else {
        assert(updated.drop_last() =~= pairs.drop_last().update(i, (pairs[i].0, v)));
        assert(pairs.drop_last()[i] == pairs[i]);
        lemma_map_of_update(pairs.drop_last(), i, v);
        assert(pairs[i].0 != pairs.last().0);
        assert(map_of(updated) =~= map_of(pairs).insert(pairs[i].0, v));
    }
}

/// An insertion-ordered mapping from text keys to text values with unique
/// keys, viewed as a mathematical map.
#[derive(Debug, PartialEq, Eq, Clone)]
pub struct StringMap {
    pairs: Vec<(String, String)>,
}

impl View for StringMap {
    type V = Map<Seq<char>, Seq<char>>;

    open spec fn view(&self) -> Map<Seq<char>, Seq<char>> {
        map_of(self.pairs_view())
    }
}

impl StringMap {
    /// The underlying pair sequence, in insertion order.
    pub closed spec fn pairs_view(&self) -> Seq<(Seq<char>, Seq<char>)> {
        self.pairs.deep_view()
    }

    /// Well-formedness: no key occurs twice.
    pub open spec fn wf(&self) -> bool {
        unique_keys(self.pairs_view())
    }

    /// Creates an empty mapping.
    pub fn new() -> (r: StringMap)
        ensures
            r.wf(),
            r@ == Map::<Seq<char>, Seq<char>>::empty(),
            r.pairs_view() == Seq::<(Seq<char>, Seq<char>)>::empty(),
    {
        let r = StringMap { pairs: Vec::new() };
        proof {
            assert(r.pairs_view() =~= Seq::<(Seq<char>, Seq<char>)>::empty());
        }
        r
    }

    /// The number of entries in the mapping.
    pub fn len(&self) -> (r: usize)
        requires
            self.wf(),
        ensures
            r == self.pairs_view().len(),
            self@.dom().finite(),
            r == self@.dom().len(),
    {
        proof {
            lemma_map_of_len(self.pairs_view());
        }
        self.pairs.len()
    }

    /// The key of the entry at the given position, in insertion order.
    pub fn key_at(&self, i: usize) -> (r: &String)
        requires
            i < self.pairs_view().len(),
        ensures
            r@ == self.pairs_view()[i as int].0,
    {
        &self.pairs[i].0
    }

    /// The value of the entry at the given position, in insertion order.
    pub fn value_at(&self, i: usize) -> (r: &String)
        requires
            i < self.pairs_view().len(),
        ensures
            r@ == self.pairs_view()[i as int].1,
    {
        &self.pairs[i].1
    }

    /// Inserts an entry, overriding any existing value under the same key.
    pub fn insert(&mut self, key: String, value: String)
        requires
            old(self).wf(),
        ensures
            final(self).wf(),
            final(self)@ == old(self)@.insert(key@, value@),
            old(self)@.contains_key(key@) ==> final(self).pairs_view().len() == old(
                self,
            ).pairs_view().len(),
            !old(self)@.contains_key(key@) ==> final(self).pairs_view() == old(
                self,
            ).pairs_view().push((key@, value@)),
    {
        proof {
            lemma_map_of_dom(self.pairs_view());
        }
        let n = self.pairs.len();
        let mut i: usize = 0;
        while i < n
            invariant
                self.wf(),
                self.pairs_view() == old(self).pairs_view(),
                n == self.pairs_view().len(),
                i <= n,
                forall|j: int| 0 <= j < i ==> (#[trigger] self.pairs_view()[j]).0 != key@,
            decreases n - i,
        {
            if self.pairs[i].0 == key {
                let ghost old_pairs = self.pairs_view();
                proof {
                    assert((old_pairs[i as int]).0 == key@);
                    lemma_map_of_dom(old_pairs);
                }
                self.pairs[i] = (key, value);
                proof {
                    assert(self.pairs_view() =~= old_pairs.update(i as int, (key@, value@)));
                    lemma_map_of_update(old_pairs, i as int, value@);
                    assert forall|a: int, b: int|
                        0 <= a < b < self.pairs_view().len() implies (
                    #[trigger] self.pairs_view()[a]).0 != (#[trigger] self.pairs_view()[b]).0 by {
                        assert((self.pairs_view()[a]).0 == (old_pairs[a]).0);
                        assert((self.pairs_view()[b]).0 == (old_pairs[b]).0);
                    }
                }
                return ;
            }
            i += 1;
        }
        let ghost old_pairs = self.pairs_view();
        proof {
            assert(!has_key(old_pairs, key@)) by {
                if has_key(old_pairs, key@) {
                    let j = choose|j: int|
                        0 <= j < old_pairs.len() && (#[trigger] old_pairs[j]).0 == key@;
                }
            }
            lemma_map_of_dom(old_pairs);
        }
        self.pairs.push((key, value));
        proof {
            assert(self.pairs_view() =~= old_pairs.push((key@, value@)));
            assert(self.pairs_view().drop_last() =~= old_pairs);
            assert(forall|j: int|
                0 <= j < old_pairs.len() ==> (#[trigger] self.pairs_view()[j]) == old_pairs[j]);
            assert forall|a: int, b: int|
                0 <= a < b < self.pairs_view().len() implies (#[trigger] self.pairs_view()[a]).0
                != (#[trigger] self.pairs_view()[b]).0 by {
                if b == self.pairs_view().len() - 1 {
                    assert((self.pairs_view()[a]).0 == (old_pairs[a]).0);
                } else {
                    assert((self.pairs_view()[a]).0 == (old_pairs[a]).0);
                    assert((self.pairs_view()[b]).0 == (old_pairs[b]).0);
                }
            }
        }
    }

    /// Looks a key up, returning its value when the key is present.
    pub fn get(&self, key: &str) -> (r: Option<&String>)
        requires
            self.wf(),
        ensures
            match r {
                Some(v) => self@.contains_key(key@) && v@ == self@[key@],
                None => !self@.contains_key(key@),
            },
    {
        let owned_key = String::from_str(key);
        let n = self.pairs.len();
        let mut i: usize = 0;
        while i < n
            invariant
                self.wf(),
                owned_key@ == key@,
                n == self.pairs_view().len(),
                i <= n,
                forall|j: int| 0 <= j < i ==> (#[trigger] self.pairs_view()[j]).0 != key@,
            decreases n - i,
        {
            if self.pairs[i].0 == owned_key {
                proof {
                    lemma_map_of_index(self.pairs_view(), i as int);
                }
                return Some(&self.pairs[i].1);
            }
            i += 1;
        }
        proof {
            assert(!has_key(self.pairs_view(), key@)) by {
                if has_key(self.pairs_view(), key@) {
                    let j = choose|j: int|
                        0 <= j < self.pairs_view().len() && (#[trigger] self.pairs_view()[j]).0
                            == key@;
                }
            }
            lemma_map_of_dom(self.pairs_view());
        }
        None
    }

    /// True when the mapping holds an entry under the key.
    pub fn contains_key(&self, key: &str) -> (r: bool)
        requires
            self.wf(),
        ensures
            r == self@.contains_key(key@),
    {
        self.get(key).is_some()
    }
}

} // verus!
