use vstd::prelude::*;
use vstd::pervasive::VecAdditionalExecFns;
use crate::util::assoc::{
    lemma_pairs_map_contains, lemma_pairs_map_update, pairs_find_key, spec_keys_unique,
    spec_pairs_map,
};

verus! {

/// One parameter of an engine-defaults listing, reduced to what the grouping
/// reads: the parameter's name and its node-type-specific values.
#[derive(Debug, Clone, PartialEq, Eq)]
pub struct CacheNodeParameterRecord {
    pub parameter_name: Option<String>,
    pub values: Vec<CacheNodeValueRecord>,
}

/// One node-type-specific value of a parameter.
#[derive(Debug, Clone, PartialEq, Eq)]
pub struct CacheNodeValueRecord {
    pub cache_node_type: Option<String>,
    pub value: Option<String>,
}

/// One parameter's values folded into the nested map
/// `node type -> parameter name -> value`: a value without a node type or
/// without a value is skipped, and a later value for the same node type
/// replaces an earlier one.
pub open spec fn spec_apply_parameter(
    m: Map<Seq<char>, Map<Seq<char>, String>>,
    name: Seq<char>,
    values: Seq<CacheNodeValueRecord>,
) -> Map<Seq<char>, Map<Seq<char>, String>>
    decreases values.len(),
{
    if values.len() == 0 {
        m
    } else {
        let m2 = match (values[0].cache_node_type, values[0].value) {
            (Some(t), Some(v)) => {
                let inner = if m.contains_key(t@) {
                    m[t@]
                } else {
                    Map::empty()
                };
                m.insert(t@, inner.insert(name, v))
            },
            _ => m,
        };
        spec_apply_parameter(m2, name, values.drop_first())
    }
}

/// Every parameter folded in order; a parameter without a name is skipped.
pub open spec fn spec_collect_parameters(
    m: Map<Seq<char>, Map<Seq<char>, String>>,
    params: Seq<CacheNodeParameterRecord>,
) -> Map<Seq<char>, Map<Seq<char>, String>>
    decreases params.len(),
{
    if params.len() == 0 {
        m
    } else {
        let m2 = match params[0].parameter_name {
            Some(n) => spec_apply_parameter(m, n@, params[0].values@),
            None => m,
        };
        spec_collect_parameters(m2, params.drop_first())
    }
}

/// The nested map a grouped association list denotes.
pub open spec fn spec_grouped_map(groups: Seq<(String, Vec<(String, String)>)>) -> Map<
    Seq<char>,
    Map<Seq<char>, String>,
>
    decreases groups.len(),
{
    if groups.len() == 0 {
        Map::empty()
    } else {
        spec_grouped_map(groups.drop_last()).insert(
            groups.last().0@,
            spec_pairs_map(groups.last().1@),
        )
    }
}

/// A key is in the denoted nested map exactly when some group carries it.
pub proof fn lemma_grouped_map_contains(
    groups: Seq<(String, Vec<(String, String)>)>,
    key: Seq<char>,
)
    ensures
        spec_grouped_map(groups).contains_key(key) <==> exists|i: int|
            0 <= i < groups.len() && (#[trigger] groups[i].0@) == key,
    decreases groups.len(),
{
    if groups.len() > 0 {
        let prefix = groups.drop_last();
        lemma_grouped_map_contains(prefix, key);
        if exists|i: int| 0 <= i < groups.len() && (#[trigger] groups[i].0@) == key {
            let i = choose|i: int| 0 <= i < groups.len() && (#[trigger] groups[i].0@) == key;
            if i < groups.len() - 1 {
                assert(prefix[i].0@ == key);
            }
            assert(spec_grouped_map(groups).contains_key(key));
        }
        if spec_grouped_map(groups).contains_key(key) && groups.last().0@ != key {
            let i = choose|i: int| 0 <= i < prefix.len() && (#[trigger] prefix[i].0@) == key;
            assert(groups[i].0@ == key);
        }
    }
}

/// In a grouped list with unique keys, the denoted nested map holds at each
/// group's key the map its pair list denotes.
pub proof fn lemma_grouped_map_index(groups: Seq<(String, Vec<(String, String)>)>, i: int)
    requires
        0 <= i < groups.len(),
        spec_keys_unique(groups),
    ensures
        spec_grouped_map(groups).contains_key(groups[i].0@),
        spec_grouped_map(groups)[groups[i].0@] == spec_pairs_map(groups[i].1@),
    decreases groups.len(),
{
    if i < groups.len() - 1 {
        let prefix = groups.drop_last();
        assert(forall|a: int, b: int|
            0 <= a < b < prefix.len() ==> (#[trigger] prefix[a].0@) != (#[trigger] prefix[b].0@));
        lemma_grouped_map_index(prefix, i);
        assert(groups.last().0@ != groups[i].0@);
    }
}

/// In a grouped list with unique keys, replacing the group that carries a key
/// rewrites exactly that key's entry of the denoted nested map.
pub proof fn lemma_grouped_map_update(
    groups: Seq<(String, Vec<(String, String)>)>,
    i: int,
    p: (String, Vec<(String, String)>),
)
    requires
        0 <= i < groups.len(),
        groups[i].0@ == p.0@,
        spec_keys_unique(groups),
    ensures
        spec_grouped_map(groups.update(i, p)) == spec_grouped_map(groups).insert(
            p.0@,
            spec_pairs_map(p.1@),
        ),
    decreases groups.len(),
{
    let prefix = groups.drop_last();
    let updated = groups.update(i, p);
    if i == groups.len() - 1 {
        assert(updated.drop_last() =~= prefix);
        assert(updated.last() == p);
        assert(spec_grouped_map(updated) =~= spec_grouped_map(groups).insert(
            p.0@,
            spec_pairs_map(p.1@),
        ));
    } else {
        assert(forall|a: int, b: int|
            0 <= a < b < prefix.len() ==> (#[trigger] prefix[a].0@) != (#[trigger] prefix[b].0@));
        lemma_grouped_map_update(prefix, i, p);
        assert(updated.drop_last() =~= prefix.update(i, p));
        assert(updated.last() == groups.last());
        assert(groups.last().0@ != p.0@);
        assert(spec_grouped_map(updated) =~= spec_grouped_map(groups).insert(
            p.0@,
            spec_pairs_map(p.1@),
        ));
    }
}

/// Group an engine-defaults parameter listing into
/// `instance type -> parameter name -> value`, as a grouped association list
/// with unique keys at both levels. A parameter without a name, and a value
/// without a node type or without a value, is skipped; where one pair of
/// instance type and parameter name appears twice, the later value wins.
pub fn collect_type_specific_parameters(params: Vec<CacheNodeParameterRecord>) -> (r: Vec<
    (String, Vec<(String, String)>),
>)
    ensures
        spec_grouped_map(r@) == spec_collect_parameters(
            Map::<Seq<char>, Map<Seq<char>, String>>::empty(),
            params@,
        ),
        spec_keys_unique(r@),
        forall|g: int| 0 <= g < r@.len() ==> spec_keys_unique(#[trigger] r@[g].1@),
{
    let ghost goal = spec_collect_parameters(
        Map::<Seq<char>, Map<Seq<char>, String>>::empty(),
        params@,
    );
    let mut remaining = params;
    let mut grouped: Vec<(String, Vec<(String, String)>)> = Vec::new();
    proof {
        assert(spec_grouped_map(grouped@) =~= Map::<Seq<char>, Map<Seq<char>, String>>::empty());
    }
    while remaining.len() > 0
        invariant
            spec_collect_parameters(spec_grouped_map(grouped@), remaining@) == goal,
            spec_keys_unique(grouped@),
            forall|g: int| 0 <= g < grouped@.len() ==> spec_keys_unique(#[trigger] grouped@[g].1@),
        decreases remaining@.len(),
    {
        let ghost remaining_prev = remaining@;
        let record = remaining.remove(0);
        proof {
            assert(remaining@ =~= remaining_prev.drop_first());
            assert(record == remaining_prev[0]);
        }
        let name = match record.parameter_name {
            Some(n) => n,
            None => {
                continue;
            },
        };
        let mut values = record.values;
        while values.len() > 0
            invariant
                spec_collect_parameters(
                    spec_apply_parameter(spec_grouped_map(grouped@), name@, values@),
                    remaining@,
                ) == goal,
                spec_keys_unique(grouped@),
                forall|g: int|
                    0 <= g < grouped@.len() ==> spec_keys_unique(#[trigger] grouped@[g].1@),
            decreases values@.len(),
        {
            let ghost values_prev = values@;
            let val = values.remove(0);
            proof {
                assert(values@ =~= values_prev.drop_first());
                assert(val == values_prev[0]);
            }
            let node_type = match val.cache_node_type {
                Some(t) => t,
                None => {
                    continue;
                },
            };
            let value = match val.value {
                Some(v) => v,
                None => {
                    continue;
                },
            };
            let ghost m0 = spec_grouped_map(grouped@);
            let at: usize = match pairs_find_key(&grouped, node_type.as_str()) {
                Some(at) => at,
                None => {
                    let ghost grouped_prev = grouped@;
                    proof {
                        lemma_grouped_map_contains(grouped_prev, node_type@);
                    }
                    grouped.push((node_type.clone(), Vec::new()));
                    proof {
                        lemma_pairs_map_contains(grouped_prev, node_type@);
                        assert(grouped@.drop_last() =~= grouped_prev);
                        assert(spec_pairs_map(grouped@.last().1@)
                            =~= Map::<Seq<char>, String>::empty());
                        assert(forall|g: int|
                            0 <= g < grouped_prev.len() ==> #[trigger] grouped@[g]
                                == grouped_prev[g]);
                        assert(spec_keys_unique(grouped@));
                        assert(forall|g: int|
                            0 <= g < grouped@.len() ==> spec_keys_unique(
                                #[trigger] grouped@[g].1@,
                            ));
                    }
                    grouped.len() - 1
                },
            };
            proof {
                assert(at < grouped@.len() && grouped@[at as int].0@ == node_type@);
                lemma_grouped_map_index(grouped@, at as int);
            }
            let ghost grouped_mid = grouped@;
            let ghost inner_prev = grouped@[at as int].1@;
            let inner_at = pairs_find_key(&grouped[at].1, name.as_str());
            let new_pair = (name.clone(), value.clone());
            match inner_at {
                Some(ia) => {
                    proof {
                        lemma_pairs_map_update(inner_prev, ia as int, new_pair);
                    }
                    grouped[at].1.set(ia, new_pair);
                    proof {
                        assert(grouped@[at as int].1@ =~= inner_prev.update(
                            ia as int,
                            new_pair,
                        ));
                        assert(forall|k: int|
                            0 <= k < inner_prev.len() ==> (#[trigger] grouped@[at as int].1@[k].0@)
                                == inner_prev[k].0@);
                        assert(spec_keys_unique(grouped@[at as int].1@));
                    }
                },
                None => {
                    proof {
                        lemma_pairs_map_contains(inner_prev, name@);
                    }
                    grouped[at].1.push(new_pair);
                    proof {
                        assert(grouped@[at as int].1@.drop_last() =~= inner_prev);
                        assert(spec_keys_unique(grouped@[at as int].1@));
                    }
                },
            }
            proof {
                let p = grouped@[at as int];
                assert(grouped@ =~= grouped_mid.update(at as int, p));
                assert(p.0@ == node_type@);
                assert(spec_pairs_map(p.1@) =~= spec_pairs_map(inner_prev).insert(name@, value));
                assert(forall|g: int|
                    0 <= g < grouped@.len() && g != at as int ==> #[trigger] grouped@[g]
                        == grouped_mid[g]);
                assert(forall|g: int|
                    0 <= g < grouped@.len() ==> (#[trigger] grouped@[g].0@) == grouped_mid[g].0@);
                assert(spec_keys_unique(grouped@));
                assert(forall|g: int|
                    0 <= g < grouped_mid.len() ==> spec_keys_unique(#[trigger] grouped_mid[g].1@));
                assert(forall|g: int|
                    0 <= g < grouped@.len() && g != at as int ==> (#[trigger] grouped@[g].1@)
                        == grouped_mid[g].1@);
                assert(forall|g: int|
                    0 <= g < grouped@.len() ==> spec_keys_unique(#[trigger] grouped@[g].1@));
                lemma_grouped_map_update(grouped_mid, at as int, p);
                // the one-step fold target: insert into the inner map the
                // fold's way, whether the group existed before or was just
                // created empty
                let inner0 = if m0.contains_key(node_type@) {
                    m0[node_type@]
                } else {
                    Map::<Seq<char>, String>::empty()
                };
                assert(spec_pairs_map(inner_prev) =~= inner0);
                assert(spec_grouped_map(grouped@) =~= m0.insert(
                    node_type@,
                    inner0.insert(name@, value),
                ));
            }
        }
    }
    proof {
        assert(spec_collect_parameters(spec_grouped_map(grouped@), remaining@) == spec_grouped_map(
            grouped@,
        ));
    }
    grouped
}

} // verus!
