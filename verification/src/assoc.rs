//! Association lists with `String` keys, viewed as maps.
//!
//! The server's two tables are vectors of key-value pairs whose keys
//! are pairwise distinct.  [`assoc_view`] reads such a sequence as a
//! `Map` from key views to value views; the lemmas relate the sequence
//! operations the store performs to `insert` and `remove` on that map.

use vstd::prelude::*;

verus! {

/// The map a sequence of key-value pairs denotes; a later entry wins,
/// though under [`distinct_keys`] the case does not arise.
pub open spec fn assoc_view<V: View>(s: Seq<(String, V)>) -> Map<Seq<char>, V::V>
    decreases s.len(),
{
    if s.len() == 0 {
        Map::empty()
    } else {
        assoc_view(s.drop_last()).insert(s.last().0@, s.last().1@)
    }
}

/// The keys of the entries are pairwise distinct.
pub open spec fn distinct_keys<V>(s: Seq<(String, V)>) -> bool {
    forall|i: int, j: int| 0 <= i < j < s.len() ==> s[i].0@ != s[j].0@
}

/// A key is in the map exactly when some entry holds it.
pub proof fn lemma_view_contains<V: View>(s: Seq<(String, V)>, k: Seq<char>)
    ensures
        assoc_view(s).contains_key(k) <==> exists|i: int| 0 <= i < s.len() && s[i].0@ == k,
    decreases s.len(),
{
    if s.len() > 0 {
        lemma_view_contains(s.drop_last(), k);
        if s.last().0@ == k {
            assert(s[s.len() - 1].0@ == k);
        } else if assoc_view(s).contains_key(k) {
            let i = choose|i: int| 0 <= i < s.drop_last().len() && s.drop_last()[i].0@ == k;
            assert(s[i].0@ == k);
        } else if exists|i: int| 0 <= i < s.len() && s[i].0@ == k {
            let i = choose|i: int| 0 <= i < s.len() && s[i].0@ == k;
            assert(s.drop_last()[i].0@ == k);
        }
    }
}

/// Under distinct keys, the entry at `i` gives the map's value at its key.
pub proof fn lemma_view_at<V: View>(s: Seq<(String, V)>, i: int)
    requires
        distinct_keys(s),
        0 <= i < s.len(),
    ensures
        assoc_view(s).contains_key(s[i].0@),
        assoc_view(s)[s[i].0@] == s[i].1@,
    decreases s.len(),
{
    if i < s.len() - 1 {
        lemma_view_at(s.drop_last(), i);
        assert(s.drop_last()[i] == s[i]);
        assert(s[i].0@ != s.last().0@);
    }
}

/// Replacing the value of the entry at `i` inserts at its key.
pub proof fn lemma_view_update<V: View>(s: Seq<(String, V)>, i: int, v: V)
    requires
        distinct_keys(s),
        0 <= i < s.len(),
    ensures
        distinct_keys(s.update(i, (s[i].0, v))),
        assoc_view(s.update(i, (s[i].0, v))) == assoc_view(s).insert(s[i].0@, v@),
    decreases s.len(),
{
    let t = s.update(i, (s[i].0, v));
    assert(forall|j: int| 0 <= j < s.len() && j != i ==> t[j] == s[j]);
    assert(t[i].0@ == s[i].0@);
    if i == s.len() - 1 {
        assert(t.drop_last() =~= s.drop_last());
        assert(assoc_view(t) =~= assoc_view(s).insert(s[i].0@, v@));
    } else {
        lemma_view_update(s.drop_last(), i, v);
        assert(t.drop_last() =~= s.drop_last().update(i, (s[i].0, v)));
        assert(t.last() == s.last());
        assert(s[i].0@ != s.last().0@);
        assert(assoc_view(t) =~= assoc_view(s).insert(s[i].0@, v@));
    }
}

/// Appending an entry with a fresh key inserts at that key.
pub proof fn lemma_view_push<V: View>(s: Seq<(String, V)>, key: String, v: V)
    requires
        distinct_keys(s),
        forall|i: int| 0 <= i < s.len() ==> s[i].0@ != key@,
    ensures
        distinct_keys(s.push((key, v))),
        assoc_view(s.push((key, v))) == assoc_view(s).insert(key@, v@),
{
    let t = s.push((key, v));
    assert(t.drop_last() =~= s);
    assert(forall|i: int, j: int| 0 <= i < j < t.len() ==> t[i].0@ != t[j].0@);
}

/// Removing the entry at `i` removes its key from the map.
pub proof fn lemma_view_remove<V: View>(s: Seq<(String, V)>, i: int)
    requires
        distinct_keys(s),
        0 <= i < s.len(),
    ensures
        distinct_keys(s.remove(i)),
        assoc_view(s.remove(i)) == assoc_view(s).remove(s[i].0@),
    decreases s.len(),
{
    let t = s.remove(i);
    assert(forall|j: int| 0 <= j < i ==> t[j] == s[j]);
    assert(forall|j: int| i <= j < t.len() ==> t[j] == s[j + 1]);
    if i == s.len() - 1 {
        assert(t =~= s.drop_last());
        lemma_view_contains(s.drop_last(), s[i].0@);
        assert(forall|j: int| 0 <= j < s.drop_last().len() ==> s.drop_last()[j].0@ != s[i].0@);
        assert(!assoc_view(s.drop_last()).contains_key(s[i].0@));
        assert(assoc_view(t) =~= assoc_view(s).remove(s[i].0@));
    } else {
        lemma_view_remove(s.drop_last(), i);
        assert(t.drop_last() =~= s.drop_last().remove(i));
        assert(t.last() == s.last());
        assert(s[i].0@ != s.last().0@);
        assert(assoc_view(t) =~= assoc_view(s).remove(s[i].0@));
    }
}

/// When no entry holds the key, the map does not contain it.
pub proof fn lemma_view_absent<V: View>(s: Seq<(String, V)>, k: Seq<char>)
    requires
        forall|i: int| 0 <= i < s.len() ==> s[i].0@ != k,
    ensures
        !assoc_view(s).contains_key(k),
{
    lemma_view_contains(s, k);
}

} // verus!
