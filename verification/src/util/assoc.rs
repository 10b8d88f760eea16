use vstd::prelude::*;
use crate::util::regex::str_eq;

verus! {

/// The map an association list denotes: a later pair overrides an earlier one
/// with the same key. Lists kept with unique keys never rely on the override.
pub open spec fn spec_pairs_map<V>(pairs: Seq<(String, V)>) -> Map<Seq<char>, V>
    decreases pairs.len(),
{
    if pairs.len() == 0 {
        Map::empty()
    } else {
        spec_pairs_map(pairs.drop_last()).insert(pairs.last().0@, pairs.last().1)
    }
}

/// Whether an association list's keys are pairwise distinct.
pub open spec fn spec_keys_unique<V>(pairs: Seq<(String, V)>) -> bool {
    forall|a: int, b: int|
        0 <= a < b < pairs.len() ==> (#[trigger] pairs[a].0@) != (#[trigger] pairs[b].0@)
}

/// A key is in the denoted map exactly when some pair carries it.
pub proof fn lemma_pairs_map_contains<V>(pairs: Seq<(String, V)>, key: Seq<char>)
    ensures
        spec_pairs_map(pairs).contains_key(key) <==> exists|i: int|
            0 <= i < pairs.len() && (#[trigger] pairs[i].0@) == key,
    decreases pairs.len(),
{
    if pairs.len() > 0 {
        let prefix = pairs.drop_last();
        lemma_pairs_map_contains(prefix, key);
        if exists|i: int| 0 <= i < pairs.len() && (#[trigger] pairs[i].0@) == key {
            let i = choose|i: int| 0 <= i < pairs.len() && (#[trigger] pairs[i].0@) == key;
            if i < pairs.len() - 1 {
                assert(prefix[i].0@ == key);
            }
            assert(spec_pairs_map(pairs).contains_key(key));
        }
        if spec_pairs_map(pairs).contains_key(key) && pairs.last().0@ != key {
            let i = choose|i: int| 0 <= i < prefix.len() && (#[trigger] prefix[i].0@) == key;
            assert(pairs[i].0@ == key);
        }
    }
}

/// In a list with unique keys, replacing the pair that carries a key rewrites
/// exactly that key's entry of the denoted map.
pub proof fn lemma_pairs_map_update<V>(pairs: Seq<(String, V)>, i: int, p: (String, V))
    requires
        0 <= i < pairs.len(),
        pairs[i].0@ == p.0@,
        spec_keys_unique(pairs),
    ensures
        spec_pairs_map(pairs.update(i, p)) == spec_pairs_map(pairs).insert(p.0@, p.1),
    decreases pairs.len(),
{
    let prefix = pairs.drop_last();
    let updated = pairs.update(i, p);
    if i == pairs.len() - 1 {
        assert(updated.drop_last() =~= prefix);
        assert(updated.last() == p);
        assert(spec_pairs_map(updated) =~= spec_pairs_map(pairs).insert(p.0@, p.1));
    } else {
        assert(forall|a: int, b: int|
            0 <= a < b < prefix.len() ==> (#[trigger] prefix[a].0@) != (#[trigger] prefix[b].0@));
        lemma_pairs_map_update(prefix, i, p);
        assert(updated.drop_last() =~= prefix.update(i, p));
        assert(updated.last() == pairs.last());
        // the untouched last key differs from the updated one
        assert(pairs.last().0@ != p.0@);
        assert(spec_pairs_map(updated) =~= spec_pairs_map(pairs).insert(p.0@, p.1));
    }
}

/// Whether the association list carries `key`.
pub fn pairs_contain_key<V>(pairs: &Vec<(String, V)>, key: &str) -> (r: bool)
    ensures
        r == spec_pairs_map(pairs@).contains_key(key@),
{
    match pairs_find_key(pairs, key) {
        Some(_) => true,
        None => false,
    }
}

/// The position of the pair carrying `key`, searching from the end (so in a
/// list with duplicate keys it is the pair the denoted map holds).
pub fn pairs_find_key<V>(pairs: &Vec<(String, V)>, key: &str) -> (r: Option<usize>)
    ensures
        match r {
            Some(i) => i < pairs@.len() && pairs@[i as int].0@ == key@ && spec_pairs_map(
                pairs@,
            ).contains_key(key@),
            None => !spec_pairs_map(pairs@).contains_key(key@),
        },
{
    let mut i: usize = pairs.len();
    while i > 0
        invariant
            i <= pairs@.len(),
            forall|j: int| i <= j < pairs@.len() ==> (#[trigger] pairs@[j].0@) != key@,
        decreases i,
    {
        i = i - 1;
        if str_eq(pairs[i].0.as_str(), key) {
            proof {
                lemma_pairs_map_contains(pairs@, key@);
            }
            return Some(i);
        }
    }
    proof {
        lemma_pairs_map_contains(pairs@, key@);
    }
    None
}

} // verus!
