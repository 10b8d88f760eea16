use vstd::prelude::*;
use vstd::pervasive::VecAdditionalExecFns;
use crate::util::assoc::{
    lemma_pairs_map_contains, lemma_pairs_map_update, pairs_contain_key, pairs_find_key,
    spec_keys_unique, spec_pairs_map,
};

verus! {

/// One region's records folded into the merged map: a record whose instance
/// type is already present is ignored, so of two regions listing the same
/// type the one seen earlier wins.
pub open spec fn spec_merge_first_wins<V>(
    m: Map<Seq<char>, V>,
    items: Seq<(String, V)>,
) -> Map<Seq<char>, V>
    decreases items.len(),
{
    if items.len() == 0 {
        m
    } else {
        let m2 = if m.contains_key(items[0].0@) {
            m
        } else {
            m.insert(items[0].0@, items[0].1)
        };
        spec_merge_first_wins(m2, items.drop_first())
    }
}

/// Every region's records folded in order.
pub open spec fn spec_merge_all<V>(
    m: Map<Seq<char>, V>,
    results: Seq<Vec<(String, V)>>,
) -> Map<Seq<char>, V>
    decreases results.len(),
{
    if results.len() == 0 {
        m
    } else {
        spec_merge_all(spec_merge_first_wins(m, results[0]@), results.drop_first())
    }
}

/// Merge the per-region instance-type listings of a fan-out into one listing
/// with unique keys: regions are taken in order, and where two list the same
/// instance type the record of the earlier region wins.
pub fn merge_region_instance_types<V>(results: Vec<Vec<(String, V)>>) -> (r: Vec<(String, V)>)
    ensures
        spec_pairs_map(r@) == spec_merge_all(Map::<Seq<char>, V>::empty(), results@),
        spec_keys_unique(r@),
{
    let ghost goal = spec_merge_all(Map::<Seq<char>, V>::empty(), results@);
    let mut remaining = results;
    let mut merged: Vec<(String, V)> = Vec::new();
    proof {
        assert(spec_pairs_map(merged@) =~= Map::<Seq<char>, V>::empty());
    }
    while remaining.len() > 0
        invariant
            spec_merge_all(spec_pairs_map(merged@), remaining@) == goal,
            spec_keys_unique(merged@),
        decreases remaining@.len(),
    {
        let ghost remaining_prev = remaining@;
        let mut items = remaining.remove(0);
        proof {
            assert(remaining@ =~= remaining_prev.drop_first());
            assert(items@ == remaining_prev[0]@);
        }
        while items.len() > 0
            invariant
                spec_merge_all(
                    spec_merge_first_wins(spec_pairs_map(merged@), items@),
                    remaining@,
                ) == goal,
                spec_keys_unique(merged@),
            decreases items@.len(),
        {
            let ghost items_prev = items@;
            let (key, value) = items.remove(0);
            proof {
                assert(items@ =~= items_prev.drop_first());
                assert((key, value) == items_prev[0]);
            }
            if !pairs_contain_key(&merged, key.as_str()) {
                let ghost merged_prev = merged@;
                proof {
                    lemma_pairs_map_contains(merged_prev, key@);
                }
                merged.push((key, value));
                proof {
                    assert(merged@.drop_last() =~= merged_prev);
                    assert(spec_pairs_map(merged@) =~= spec_pairs_map(merged_prev).insert(
                        items_prev[0].0@,
                        items_prev[0].1,
                    ));
                }
            }
        }
    }
    proof {
        assert(spec_merge_all(spec_pairs_map(merged@), remaining@) == spec_pairs_map(merged@));
    }
    merged
}

/// One page's records folded into a region's map: a record without an
/// instance type name is skipped, and a later record for a type replaces an
/// earlier one.
pub open spec fn spec_collect_typed<V>(
    m: Map<Seq<char>, V>,
    items: Seq<(Option<String>, V)>,
) -> Map<Seq<char>, V>
    decreases items.len(),
{
    if items.len() == 0 {
        m
    } else {
        let m2 = match items[0].0 {
            Some(t) => m.insert(t@, items[0].1),
            None => m,
        };
        spec_collect_typed(m2, items.drop_first())
    }
}

/// Every page's records folded in order.
pub open spec fn spec_collect_pages<V>(
    m: Map<Seq<char>, V>,
    pages: Seq<Vec<(Option<String>, V)>>,
) -> Map<Seq<char>, V>
    decreases pages.len(),
{
    if pages.len() == 0 {
        m
    } else {
        spec_collect_pages(spec_collect_typed(m, pages[0]@), pages.drop_first())
    }
}

/// Flatten the pages of one region's instance-type listing into one listing
/// with unique keys, each record keyed by its instance type: records without
/// a type name are dropped, and of two records for the same type the later
/// one wins.
pub fn collect_instance_types<V>(pages: Vec<Vec<(Option<String>, V)>>) -> (r: Vec<(String, V)>)
    ensures
        spec_pairs_map(r@) == spec_collect_pages(Map::<Seq<char>, V>::empty(), pages@),
        spec_keys_unique(r@),
{
    let ghost goal = spec_collect_pages(Map::<Seq<char>, V>::empty(), pages@);
    let mut remaining = pages;
    let mut collected: Vec<(String, V)> = Vec::new();
    proof {
        assert(spec_pairs_map(collected@) =~= Map::<Seq<char>, V>::empty());
    }
    while remaining.len() > 0
        invariant
            spec_collect_pages(spec_pairs_map(collected@), remaining@) == goal,
            spec_keys_unique(collected@),
        decreases remaining@.len(),
    {
        let ghost remaining_prev = remaining@;
        let mut items = remaining.remove(0);
        proof {
            assert(remaining@ =~= remaining_prev.drop_first());
            assert(items@ == remaining_prev[0]@);
        }
        while items.len() > 0
            invariant
                spec_collect_pages(
                    spec_collect_typed(spec_pairs_map(collected@), items@),
                    remaining@,
                ) == goal,
                spec_keys_unique(collected@),
            decreases items@.len(),
        {
            let ghost items_prev = items@;
            let (key, value) = items.remove(0);
            proof {
                assert(items@ =~= items_prev.drop_first());
                assert((key, value) == items_prev[0]);
            }
            match key {
                Some(key) => {
                    let ghost collected_prev = collected@;
                    match pairs_find_key(&collected, key.as_str()) {
                        Some(at) => {
                            proof {
                                lemma_pairs_map_update(
                                    collected_prev,
                                    at as int,
                                    (key, value),
                                );
                            }
                            collected.set(at, (key, value));
                        },
                        None => {
                            proof {
                                lemma_pairs_map_contains(collected_prev, key@);
                            }
                            collected.push((key, value));
                            proof {
                                assert(collected@.drop_last() =~= collected_prev);
                            }
                        },
                    }
                    proof {
                        assert(spec_pairs_map(collected@) =~= spec_pairs_map(
                            collected_prev,
                        ).insert(items_prev[0].0->0@, items_prev[0].1));
                    }
                },
                None => {},
            }
        }
    }
    proof {
        assert(spec_collect_pages(spec_pairs_map(collected@), remaining@) == spec_pairs_map(
            collected@,
        ));
    }
    collected
}

} // verus!
