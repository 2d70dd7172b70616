//! The pass that runs once all delivery points are resolved: an entity that
//! names drop points takes over their storage capacities.
//!
//! Entities are visited in order and updated in place, so an entity that
//! links to an earlier one sees the capacities that the earlier one has
//! already taken over. A capacity of a linked entity replaces the entity's own
//! capacity for the same cargo.

use crate::capacity::Capacity;
use crate::output_type::{DeliveryPoint, DeliveryPointView};
use vstd::prelude::*;

verus! {

/// The position of the entity that the short identifier `guid` names: the
/// last one that carries it.
pub open spec fn guid_index<F>(entities: Seq<DeliveryPointView<F>>, guid: Seq<char>) -> Option<int>
    decreases entities.len(),
{
    if entities.len() == 0 {
        None
    } else if entities.last().guid == Some(guid) {
        Some(entities.len() - 1)
    } else {
        guid_index(entities.drop_last(), guid)
    }
}

/// The capacities of an entity after it has taken over those of its drop
/// points, one drop point after the other. A drop point that no entity
/// carries is passed over.
pub open spec fn absorbed<F>(
    own: Map<Seq<char>, Option<Capacity>>,
    drop_point: Seq<Seq<char>>,
    entities: Seq<DeliveryPointView<F>>,
) -> Map<Seq<char>, Option<Capacity>>
    decreases drop_point.len(),
{
    if drop_point.len() == 0 {
        own
    } else {
        let before = absorbed(own, drop_point.drop_last(), entities);
        match guid_index(entities, drop_point.last()) {
            Some(j) => before.union_prefer_right(entities[j].demand_storage_configs),
            None => before,
        }
    }
}

/// The entity at `i` with the capacities of its drop points taken over.
pub open spec fn absorbed_entity<F>(entities: Seq<DeliveryPointView<F>>, i: int) -> DeliveryPointView<
    F,
> {
    DeliveryPointView {
        demand_storage_configs: absorbed(
            entities[i].demand_storage_configs,
            entities[i].drop_point,
            entities,
        ),
        ..entities[i]
    }
}

/// The entities after the first `n` of them have been visited.
pub open spec fn propagated_upto<F>(entities: Seq<DeliveryPointView<F>>, n: nat) -> Seq<
    DeliveryPointView<F>,
>
    decreases n,
{
    if n == 0 {
        entities
    } else {
        let before = propagated_upto(entities, (n - 1) as nat);
        before.update(n - 1, absorbed_entity(before, n - 1))
    }
}

/// The entities after the pass.
pub open spec fn propagated<F>(entities: Seq<DeliveryPointView<F>>) -> Seq<DeliveryPointView<F>> {
    propagated_upto(entities, entities.len())
}

/// Finds the entity that the short identifier `guid` names.
pub fn find_by_guid<F>(entities: &Vec<DeliveryPoint<F>>, guid: &str) -> (r: Option<usize>)
    ensures
        match r {
            Some(j) => guid_index(entities.deep_view(), guid@) == Some(j as int)
                && j < entities.len(),
            None => guid_index(entities.deep_view(), guid@) is None,
        },
{
    let ghost all = entities.deep_view();
    let mut i: usize = entities.len();
    proof {
        assert(all.take(i as int) == all);
    }
    while i > 0
        invariant
            i <= entities.len(),
            all == entities.deep_view(),
            guid_index(all, guid@) == guid_index(all.take(i as int), guid@),
        decreases i,
    {
        proof {
            assert(all.take(i as int).drop_last() == all.take(i - 1));
            assert(all.take(i as int).last() == entities@[i - 1].deep_view());
        }
        i -= 1;
        let hit = match &entities[i].guid {
            Some(g) => *g.as_str() == *guid,
            None => false,
        };
        if hit {
            return Some(i);
        }
    }
    None
}

/// Runs the pass: every entity takes over the capacities of the drop points
/// it names.
pub fn propagate_drop_point_storage<F>(output: &mut Vec<DeliveryPoint<F>>)
    ensures
        final(output).deep_view() == propagated(old(output).deep_view()),
        final(output).len() == old(output).len(),
{
    let ghost given = output.deep_view();
    let n = output.len();
    let mut i: usize = 0;
    while i < n
        invariant
            i <= n,
            n == output.len(),
            given.len() == n,
            output.deep_view() == propagated_upto(given, i as nat),
        decreases n - i,
    {
        let ghost before = output.deep_view();
        let mut updated = output[i].demand_storage_configs.copy();
        let links = output[i].drop_point.len();
        let ghost drops = before[i as int].drop_point;
        let mut k: usize = 0;
        proof {
            assert(before[i as int] == output@[i as int].deep_view());
            assert(drops.take(0).len() == 0);
        }
        while k < links
            invariant
                k <= links,
                i < n,
                n == output.len(),
                before == output.deep_view(),
                links == output@[i as int].drop_point.len(),
                drops == output@[i as int].drop_point.deep_view(),
                updated@ == absorbed(
                    before[i as int].demand_storage_configs,
                    drops.take(k as int),
                    before,
                ),
            decreases links - k,
        {
            proof {
                assert(drops.take(k + 1).drop_last() == drops.take(k as int));
                assert(drops.take(k + 1).last() == output@[i as int].drop_point@[k as int]@);
            }
            let found = find_by_guid(output, output[i].drop_point[k].as_str());
            if let Some(j) = found {
                proof {
                    assert(before[j as int] == output@[j as int].deep_view());
                }
                updated.absorb(&output[j].demand_storage_configs);
            }
            k += 1;
        }
        proof {
            assert(drops.take(links as int) == drops);
        }
        output[i].demand_storage_configs = updated;
        proof {
            let after = output.deep_view();
            let want = before.update(i as int, absorbed_entity(before, i as int));
            assert(after.len() == want.len());
            assert forall|j: int| 0 <= j < after.len() implies after[j] == want[j] by {
                assert(after[j] == output@[j].deep_view());
            }
            assert(after =~= want);
        }
        i += 1;
    }
}

/// Taking over one map and then another is taking over their union.
pub proof fn lemma_union_associates(
    a: Map<Seq<char>, Option<Capacity>>,
    b: Map<Seq<char>, Option<Capacity>>,
    c: Map<Seq<char>, Option<Capacity>>,
)
    ensures
        a.union_prefer_right(b).union_prefer_right(c) == a.union_prefer_right(
            b.union_prefer_right(c),
        ),
{
    assert(a.union_prefer_right(b).union_prefer_right(c) =~= a.union_prefer_right(
        b.union_prefer_right(c),
    ));
}

/// What the drop points lay over an entity does not depend on the entity's
/// own capacities.
pub proof fn lemma_absorbed_is_overlay<F>(
    own: Map<Seq<char>, Option<Capacity>>,
    drop_point: Seq<Seq<char>>,
    entities: Seq<DeliveryPointView<F>>,
)
    ensures
        absorbed(own, drop_point, entities) == own.union_prefer_right(
            absorbed(Map::empty(), drop_point, entities),
        ),
    decreases drop_point.len(),
{
    let none = Map::<Seq<char>, Option<Capacity>>::empty();
    if drop_point.len() == 0 {
        assert(own =~= own.union_prefer_right(none));
    } else {
        lemma_absorbed_is_overlay(own, drop_point.drop_last(), entities);
        match guid_index(entities, drop_point.last()) {
            Some(j) => {
                lemma_union_associates(
                    own,
                    absorbed(none, drop_point.drop_last(), entities),
                    entities[j].demand_storage_configs,
                );
            },
            None => {},
        }
    }
}

/// Taking over the same drop points a second time changes nothing.
pub proof fn lemma_absorbing_twice<F>(
    own: Map<Seq<char>, Option<Capacity>>,
    drop_point: Seq<Seq<char>>,
    entities: Seq<DeliveryPointView<F>>,
)
    ensures
        absorbed(absorbed(own, drop_point, entities), drop_point, entities) == absorbed(
            own,
            drop_point,
            entities,
        ),
{
    let overlay = absorbed(Map::<Seq<char>, Option<Capacity>>::empty(), drop_point, entities);
    let once = absorbed(own, drop_point, entities);
    lemma_absorbed_is_overlay(own, drop_point, entities);
    lemma_absorbed_is_overlay(once, drop_point, entities);
    lemma_union_associates(own, overlay, overlay);
    assert(overlay.union_prefer_right(overlay) =~= overlay);
}

/// Whether two lists of entities agree in everything but the capacities.
pub open spec fn same_but_storage<F>(
    a: Seq<DeliveryPointView<F>>,
    b: Seq<DeliveryPointView<F>>,
) -> bool {
    &&& a.len() == b.len()
    &&& forall|k: int|
        0 <= k < a.len() ==> (#[trigger] a[k]) == (DeliveryPointView {
            demand_storage_configs: a[k].demand_storage_configs,
            ..b[k]
        })
}

/// Visiting entities changes nothing but capacities, and nothing at all in
/// the entities that have not been visited yet.
pub proof fn lemma_pass_frame<F>(entities: Seq<DeliveryPointView<F>>, n: nat)
    requires
        n <= entities.len(),
    ensures
        same_but_storage(propagated_upto(entities, n), entities),
        forall|k: int| n <= k < entities.len() ==> propagated_upto(entities, n)[k] == entities[k],
    decreases n,
{
    if n > 0 {
        lemma_pass_frame(entities, (n - 1) as nat);
        let before = propagated_upto(entities, (n - 1) as nat);
        let after = propagated_upto(entities, n);
        assert forall|k: int| 0 <= k < after.len() implies (#[trigger] after[k]) == (
        DeliveryPointView {
            demand_storage_configs: after[k].demand_storage_configs,
            ..entities[k]
        }) by {
            assert(before[k] == (DeliveryPointView {
                demand_storage_configs: before[k].demand_storage_configs,
                ..entities[k]
            }));
        }
    }
}

/// An entity that has been visited is not changed again by the rest of the
/// pass.
pub proof fn lemma_visited_stays<F>(entities: Seq<DeliveryPointView<F>>, n: nat, m: nat, k: int)
    requires
        0 <= k < n <= m <= entities.len(),
    ensures
        propagated_upto(entities, m)[k] == propagated_upto(entities, n)[k],
    decreases m,
{
    if m > n {
        lemma_visited_stays(entities, n, (m - 1) as nat, k);
        lemma_pass_frame(entities, (m - 1) as nat);
    }
}

/// Lists that agree in everything but capacities name the same entities.
pub proof fn lemma_same_guid_index<F>(
    a: Seq<DeliveryPointView<F>>,
    b: Seq<DeliveryPointView<F>>,
    guid: Seq<char>,
)
    requires
        same_but_storage(a, b),
    ensures
        guid_index(a, guid) == guid_index(b, guid),
        guid_index(a, guid) matches Some(j) ==> 0 <= j < a.len(),
    decreases a.len(),
{
    if a.len() > 0 {
        assert(a.last() == a[a.len() - 1]);
        assert(b.last() == b[b.len() - 1]);
        assert(a[a.len() - 1].guid == b[b.len() - 1].guid);
        let ra = a.drop_last();
        let rb = b.drop_last();
        assert(same_but_storage(ra, rb)) by {
            assert forall|k: int| 0 <= k < ra.len() implies (#[trigger] ra[k]) == (
            DeliveryPointView { demand_storage_configs: ra[k].demand_storage_configs, ..rb[k] }) by {
                assert(ra[k] == a[k]);
                assert(rb[k] == b[k]);
            }
        }
        lemma_same_guid_index(ra, rb, guid);
    }
}

/// What an entity takes over depends only on the capacities of the
/// entities that its drop points name.
pub proof fn lemma_absorbed_same_sources<F>(
    own: Map<Seq<char>, Option<Capacity>>,
    drop_point: Seq<Seq<char>>,
    a: Seq<DeliveryPointView<F>>,
    b: Seq<DeliveryPointView<F>>,
)
    requires
        same_but_storage(a, b),
        forall|d: int, j: int|
            0 <= d < drop_point.len() && guid_index(a, #[trigger] drop_point[d]) == Some(j)
                ==> (#[trigger] a[j]).demand_storage_configs == b[j].demand_storage_configs,
    ensures
        absorbed(own, drop_point, a) == absorbed(own, drop_point, b),
    decreases drop_point.len(),
{
    if drop_point.len() > 0 {
        let rest = drop_point.drop_last();
        assert forall|d: int, j: int|
            0 <= d < rest.len() && guid_index(a, #[trigger] rest[d]) == Some(j) implies (
        #[trigger] a[j]).demand_storage_configs == b[j].demand_storage_configs by {
            assert(rest[d] == drop_point[d]);
        }
        lemma_absorbed_same_sources(own, rest, a, b);
        lemma_same_guid_index(a, b, drop_point.last());
        match guid_index(a, drop_point.last()) {
            Some(j) => {
                assert(drop_point[drop_point.len() - 1] == drop_point.last());
                assert(a[j].demand_storage_configs == b[j].demand_storage_configs);
            },
            None => {},
        }
    }
}

/// No entity links forward, or to itself, to an entity whose capacities the
/// pass changes: every link goes to an earlier entity or to one that the
/// pass leaves as it is.
pub open spec fn links_are_settled<F>(entities: Seq<DeliveryPointView<F>>) -> bool {
    forall|i: int, d: int, j: int|
        0 <= i < entities.len() && 0 <= d < entities[i].drop_point.len() && guid_index(
            entities,
            #[trigger] entities[i].drop_point[d],
        ) == Some(j) ==> j < i || (#[trigger] propagated(entities)[j]).demand_storage_configs
            == entities[j].demand_storage_configs
}

/// On the outcome of a pass, visiting the first `n` entities again changes
/// nothing.
pub proof fn lemma_second_pass_upto<F>(entities: Seq<DeliveryPointView<F>>, n: nat)
    requires
        links_are_settled(entities),
        n <= entities.len(),
    ensures
        propagated_upto(propagated(entities), n) == propagated(entities),
    decreases n,
{
    if n > 0 {
        let i = (n - 1) as int;
        let len = entities.len();
        let once = propagated(entities);
        lemma_second_pass_upto(entities, (n - 1) as nat);
        lemma_pass_frame(entities, len);
        // The state in which the first pass visited the entity at `i`.
        let seen = propagated_upto(entities, i as nat);
        lemma_pass_frame(entities, i as nat);
        lemma_visited_stays(entities, n, len, i);
        let own = entities[i].demand_storage_configs;
        let drops = entities[i].drop_point;
        assert(seen[i] == entities[i]);
        assert(once[i] == absorbed_entity(seen, i));
        assert(once[i].drop_point == drops);
        assert(same_but_storage(seen, once)) by {
            assert forall|k: int| 0 <= k < seen.len() implies (#[trigger] seen[k]) == (
            DeliveryPointView {
                demand_storage_configs: seen[k].demand_storage_configs,
                ..once[k]
            }) by {
                assert(once[k] == (DeliveryPointView {
                    demand_storage_configs: once[k].demand_storage_configs,
                    ..entities[k]
                }));
            }
        }
        assert forall|d: int, j: int|
            0 <= d < drops.len() && guid_index(seen, #[trigger] drops[d]) == Some(j) implies (
        #[trigger] seen[j]).demand_storage_configs == once[j].demand_storage_configs by {
            lemma_same_guid_index(seen, entities, drops[d]);
            if j < i {
                lemma_visited_stays(entities, i as nat, len, j);
            } else {
                assert(seen[j] == entities[j]);
                assert(entities[i].drop_point[d] == drops[d]);
                assert(once[j].demand_storage_configs == entities[j].demand_storage_configs);
            }
        }
        lemma_absorbed_same_sources(own, drops, seen, once);
        lemma_absorbing_twice(own, drops, once);
        assert(absorbed_entity(once, i) == once[i]);
        assert(once.update(i, once[i]) =~= once);
    }
}

/// Idempotence of the pass: where the links are settled, running the pass
/// on its own outcome changes nothing.
pub proof fn lemma_propagation_is_idempotent<F>(entities: Seq<DeliveryPointView<F>>)
    requires
        links_are_settled(entities),
    ensures
        propagated(propagated(entities)) == propagated(entities),
{
    lemma_pass_frame(entities, entities.len());
    lemma_second_pass_upto(entities, entities.len());
}

/// Entities without links of their own settle every link: a pass over
/// entities whose drop points name only entities that name no drop points is
/// idempotent.
pub proof fn lemma_leaf_links_are_settled<F>(entities: Seq<DeliveryPointView<F>>)
    requires
        forall|i: int, d: int, j: int|
            0 <= i < entities.len() && 0 <= d < entities[i].drop_point.len() && guid_index(
                entities,
                #[trigger] entities[i].drop_point[d],
            ) == Some(j) ==> (#[trigger] entities[j]).drop_point.len() == 0,
    ensures
        links_are_settled(entities),
{
    let len = entities.len();
    assert forall|i: int, d: int, j: int|
        0 <= i < entities.len() && 0 <= d < entities[i].drop_point.len() && guid_index(
            entities,
            #[trigger] entities[i].drop_point[d],
        ) == Some(j) implies j < i || (#[trigger] propagated(entities)[j]).demand_storage_configs
        == entities[j].demand_storage_configs by {
        assert(same_but_storage(entities, entities));
        lemma_same_guid_index(entities, entities, entities[i].drop_point[d]);
        assert(entities[j].drop_point.len() == 0);
        let seen = propagated_upto(entities, j as nat);
        lemma_pass_frame(entities, j as nat);
        lemma_visited_stays(entities, (j + 1) as nat, len, j);
        assert(seen[j] == entities[j]);
        assert(propagated_upto(entities, (j + 1) as nat)[j] == absorbed_entity(seen, j));
    }
}

} // verus!
