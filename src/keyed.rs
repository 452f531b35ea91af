//! Lists of key and value pairs whose keys are unique: the mappings of the
//! metadata records, kept in the order in which their keys first came.

use vstd::prelude::*;

verus! {

/// The keys and values of a list of pairs, as texts and views.
pub open spec fn pairs_view<V: View>(s: Seq<(String, V)>) -> Seq<(Seq<char>, V::V)> {
    s.map_values(|p: (String, V)| (p.0@, p.1@))
}

/// No two pairs share a key.
pub open spec fn unique_keys<W>(s: Seq<(Seq<char>, W)>) -> bool {
    forall|i: int, j: int|
        0 <= i < s.len() && 0 <= j < s.len() && i != j ==> (#[trigger] s[i]).0 != (#[trigger] s[j]).0
}

/// Some pair has the key.
pub open spec fn has_key<W>(s: Seq<(Seq<char>, W)>, key: Seq<char>) -> bool {
    exists|i: int| 0 <= i < s.len() && (#[trigger] s[i]).0 == key
}

/// The list with the value of a key set: the pair holding the key takes
/// the value, or the pair is added at the end when no pair holds the key.
pub open spec fn put<W>(s: Seq<(Seq<char>, W)>, key: Seq<char>, value: W) -> Seq<(Seq<char>, W)> {
    if has_key(s, key) {
        let i = choose|i: int| 0 <= i < s.len() && (#[trigger] s[i]).0 == key;
        s.update(i, (key, value))
    } else {
        s.push((key, value))
    }
}

/// The list with the value of each key of `pairs` set, in the order of
/// `pairs`.
pub open spec fn put_all<W>(s: Seq<(Seq<char>, W)>, pairs: Seq<(Seq<char>, W)>) -> Seq<(Seq<char>, W)>
    decreases pairs.len(),
{
    if pairs.len() == 0 {
        s
    } else {
        let last = pairs.last();
        put(put_all(s, pairs.drop_last()), last.0, last.1)
    }
}

/// Setting the value of a key keeps the keys unique.
pub proof fn lemma_put_unique<W>(s: Seq<(Seq<char>, W)>, key: Seq<char>, value: W)
    requires
        unique_keys(s),
    ensures
        unique_keys(put(s, key, value)),
{
}

/// Sets the value of a key: the pair that holds the key takes the new
/// value, or a new pair is added at the end.
pub fn upsert<V: View>(v: &mut Vec<(String, V)>, key: String, value: V)
    requires
        unique_keys(pairs_view(old(v)@)),
    ensures
        pairs_view(final(v)@) == put(pairs_view(old(v)@), key@, value@),
        unique_keys(pairs_view(final(v)@)),
{
    let ghost s = pairs_view(v@);
    proof {
        lemma_put_unique(s, key@, value@);
    }
    let mut i: usize = 0;
    while i < v.len()
        invariant
            i <= v@.len(),
            v@ == old(v)@,
            s == pairs_view(v@),
            unique_keys(s),
            forall|j: int| 0 <= j < i ==> (#[trigger] v@[j]).0@ != key@,
        decreases v@.len() - i,
    {
        if v[i].0 == key {
            proof {
                assert(s[i as int].0 == key@);
                let k = choose|k: int| 0 <= k < s.len() && (#[trigger] s[k]).0 == key@;
                assert(k == i);
            }
            v[i] = (key, value);
            assert(pairs_view(v@) =~= put(s, key@, value@));
            return;
        }
        i += 1;
    }
    proof {
        assert forall|j: int| 0 <= j < s.len() implies (#[trigger] s[j]).0 != key@ by {
            assert(s[j].0 == v@[j].0@);
        }
    }
    v.push((key, value));
    assert(pairs_view(v@) =~= put(s, key@, value@));
}

} // verus!
