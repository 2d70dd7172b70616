//! Building delivery points: one entity from one world object, all
//! entities of the world kind by kind, and the pass over the drop points.

use crate::capacity::Capacity;
use crate::cargo_map::CargoMap;
use crate::entity::{Blueprint, Surroundings, cascaded_name, resolve_name, resolve_scene, scene_of};
use crate::error::ResolveError;
use crate::extract::{
    delivery_point_guid_of,
    extract_delivery_point_guid,
    extract_relative_location,
    location_of,
    shortened,
};
use crate::helper::{cargo_name, recorded_demands};
use crate::merge::{merge_for_entity, merged_for_entity};
use crate::output_type::{DeliveryPoint, DeliveryPointView, DemandConfigView};
use crate::output_type;
use crate::propagate::{propagate_drop_point_storage, propagated};
use crate::resolve::{SourceFile, resolve, resolved};
use crate::taxonomy::Taxonomy;
use crate::text::copy_text;
use crate::ue_type::{ObjectPath, UObject};
use vstd::prelude::*;

verus! {

/// What an entity pays for each cargo it demands, by the name of the cargo;
/// for a name that occurs twice the later rule stays.
pub open spec fn demand_payments<F>(demands: Seq<DemandConfigView<F>>) -> Map<Seq<char>, F>
    decreases demands.len(),
{
    if demands.len() == 0 {
        Map::empty()
    } else {
        let d = demands.last();
        let rest = demand_payments(demands.drop_last());
        match cargo_name(d.cargo_key, d.cargo_type) {
            Some(n) => rest.insert(n, d.payment_multiplier),
            None => rest,
        }
    }
}

fn demand_name<F>(demand: &output_type::DemandConfig<F>) -> (r: Option<&String>)
    ensures
        r.deep_view() == cargo_name(demand.deep_view().cargo_key, demand.deep_view().cargo_type),
{
    match &demand.cargo_key {
        Some(key) => Some(key),
        None => match &demand.cargo_type {
            Some(ty) => Some(ty),
            None => None,
        },
    }
}

/// The payments by cargo name.
pub fn map_demand_payments<F: Copy>(demand_configs: &Vec<output_type::DemandConfig<F>>) -> (r:
    CargoMap<F>)
    ensures
        r@ == demand_payments(demand_configs.deep_view()),
{
    let ghost all = demand_configs.deep_view();
    let mut out: CargoMap<F> = CargoMap::new();
    let mut i: usize = 0;
    proof {
        assert(all.take(0).len() == 0);
    }
    while i < demand_configs.len()
        invariant
            i <= demand_configs.len(),
            all == demand_configs.deep_view(),
            out@ == demand_payments(all.take(i as int)),
        decreases demand_configs.len() - i,
    {
        let demand = &demand_configs[i];
        proof {
            assert(all.take(i + 1).drop_last() == all.take(i as int));
            assert(all.take(i + 1).last() == demand.deep_view());
        }
        if let Some(n) = demand_name(demand) {
            out.insert(copy_text(n.as_str()), demand.payment_multiplier);
        }
        i += 1;
    }
    proof {
        assert(all.take(all.len() as int) == all);
    }
    out
}

/// Offers the capacities of the resolved demand rules to the record, in
/// order; the first capacity recorded for a name stays.
pub fn record_demands<F>(
    storage: &mut CargoMap<Option<Capacity>>,
    demand_configs: &Vec<output_type::DemandConfig<F>>,
)
    ensures
        final(storage)@ == recorded_demands(old(storage)@, demand_configs.deep_view()),
{
    let ghost all = demand_configs.deep_view();
    let mut i: usize = 0;
    proof {
        assert(all.take(0).len() == 0);
    }
    while i < demand_configs.len()
        invariant
            i <= demand_configs.len(),
            all == demand_configs.deep_view(),
            storage@ == recorded_demands(old(storage)@, all.take(i as int)),
        decreases demand_configs.len() - i,
    {
        let demand = &demand_configs[i];
        proof {
            assert(all.take(i + 1).drop_last() == all.take(i as int));
            assert(all.take(i + 1).last() == demand.deep_view());
        }
        if let Some(n) = demand_name(demand) {
            if !storage.contains_key(n.as_str()) && demand.max_storage.is_some() {
                storage.insert(copy_text(n.as_str()), demand.max_storage);
            }
        }
        i += 1;
    }
    proof {
        assert(all.take(all.len() as int) == all);
    }
}

/// The short identifiers of the entities that the references name, in
/// order; an entity without GUID is passed over. A reference that cannot be
/// resolved is an error.
pub open spec fn linked_guids<F>(
    links: Seq<ObjectPath>,
    container: Seq<char>,
    objects: Seq<UObject<F>>,
    files: Seq<SourceFile<F>>,
) -> Result<Seq<Seq<char>>, ResolveError>
    decreases links.len(),
{
    if links.len() == 0 {
        Ok(Seq::empty())
    } else {
        match linked_guids(links.drop_last(), container, objects, files) {
            Ok(before) => match resolved(Some(links.last()), container, objects, files) {
                Some(target) => match shortened(delivery_point_guid_of(target)) {
                    Some(guid) => Ok(before.push(guid)),
                    None => Ok(before),
                },
                None => Err(ResolveError::ReferenceError),
            },
            Err(e) => Err(e),
        }
    }
}

/// Resolves the links of an entity to the short identifiers of the entities
/// they name.
pub fn resolve_links<F>(links: &Vec<ObjectPath>, around: &Surroundings<'_, F>) -> (r: Result<
    Vec<String>,
    ResolveError,
>)
    ensures
        match linked_guids(links@, around.container@, around.objects@, around.store.files@) {
            Ok(guids) => r matches Ok(list) && list.deep_view() == guids,
            Err(e) => r == Err::<Vec<String>, ResolveError>(e),
        },
{
    let mut out: Vec<String> = Vec::new();
    let mut i: usize = 0;
    proof {
        assert(links@.take(0).len() == 0);
        assert(out.deep_view() =~= Seq::<Seq<char>>::empty());
    }
    while i < links.len()
        invariant
            i <= links.len(),
            linked_guids(
                links@.take(i as int),
                around.container@,
                around.objects@,
                around.store.files@,
            ) == Ok::<Seq<Seq<char>>, ResolveError>(out.deep_view()),
        decreases links.len() - i,
    {
        proof {
            assert(links@.take(i + 1).drop_last() == links@.take(i as int));
            assert(links@.take(i + 1).last() == links@[i as int]);
        }
        let target = match resolve(Some(&links[i]), around.container, around.objects, around.store) {
            Ok(target) => target,
            Err(e) => {
                proof {
                    lemma_linked_guids_error(
                        links@,
                        around.container@,
                        around.objects@,
                        around.store.files@,
                        i + 1,
                    );
                }
                return Err(e);
            },
        };
        let (_, short) = extract_delivery_point_guid(target);
        if let Some(guid) = short {
            let ghost before = out.deep_view();
            out.push(guid);
            proof {
                assert(out.deep_view() =~= before.push(guid@));
            }
        }
        i += 1;
    }
    proof {
        assert(links@.take(links@.len() as int) == links@);
    }
    Ok(out)
}

/// An error among the first links is the error of all links.
pub proof fn lemma_linked_guids_error<F>(
    links: Seq<ObjectPath>,
    container: Seq<char>,
    objects: Seq<UObject<F>>,
    files: Seq<SourceFile<F>>,
    n: int,
)
    requires
        0 <= n <= links.len(),
        linked_guids(links.take(n), container, objects, files) is Err,
    ensures
        linked_guids(links, container, objects, files) == linked_guids(
            links.take(n),
            container,
            objects,
            files,
        ),
    decreases links.len(),
{
    if n == links.len() {
        assert(links.take(n) == links);
    } else {
        assert(links.drop_last().take(n) == links.take(n));
        lemma_linked_guids_error(links.drop_last(), container, objects, files, n);
    }
}

/// The first of two optional values that is set.
pub open spec fn either<T>(first: Option<T>, second: Option<T>) -> Option<T> {
    if first is Some {
        first
    } else {
        second
    }
}

/// How far an entity delivers: its own limit, else that of its type.
pub open spec fn delivery_distance_of<F>(world_obj: UObject<F>, main_obj: UObject<F>) -> Option<F> {
    either(
        match world_obj.properties {
            Some(p) => p.max_delivery_distance,
            None => None,
        },
        match main_obj.properties {
            Some(p) => p.max_delivery_distance,
            None => None,
        },
    )
}

/// From how far an entity receives: its own limit, else that of its type.
pub open spec fn receive_distance_of<F>(world_obj: UObject<F>, main_obj: UObject<F>) -> Option<F> {
    either(
        match world_obj.properties {
            Some(p) => p.max_delivery_receive_distance,
            None => None,
        },
        match main_obj.properties {
            Some(p) => p.max_delivery_receive_distance,
            None => None,
        },
    )
}

/// The resolved delivery point of a world object, before the pass over the
/// drop points. It fails with a schema gap where the world object, or a
/// level of the cascade that is asked for its rules, has no attribute bag,
/// and with a reference error where the scene component or a drop point
/// cannot be resolved.
pub open spec fn delivery_point_of<F>(
    world_obj: UObject<F>,
    container: Seq<char>,
    objects: Seq<UObject<F>>,
    files: Seq<SourceFile<F>>,
    main_obj: UObject<F>,
    template_obj: Option<&UObject<F>>,
    taxonomy: Map<Seq<char>, Seq<Seq<char>>>,
    fallback: Option<Capacity>,
) -> Result<DeliveryPointView<F>, ResolveError> {
    match scene_of(world_obj, container, objects, files) {
        Err(e) => Err(e),
        Ok(scene) => match merged_for_entity(world_obj, main_obj, template_obj, taxonomy, fallback) {
            Err(e) => Err(e),
            Ok(merged) => match linked_guids(
                input_inventory_share_of(world_obj),
                container,
                objects,
                files,
            ) {
                Err(e) => Err(e),
                Ok(drops) => Ok(
                    DeliveryPointView {
                        type_field: world_obj.type_field@,
                        name: cascaded_name(world_obj, main_obj, template_obj),
                        relative_location: location_of(scene),
                        guid: shortened(delivery_point_guid_of(world_obj)),
                        production_configs: merged.production_configs,
                        demand_configs: demand_payments(merged.demand_configs),
                        demand_storage_configs: recorded_demands(
                            merged.storage_by_key,
                            merged.demand_configs,
                        ),
                        supply_storage_configs: Map::empty(),
                        drop_point: drops,
                        max_delivery_distance: delivery_distance_of(world_obj, main_obj),
                        max_delivery_receive_distance: receive_distance_of(world_obj, main_obj),
                    },
                ),
            },
        },
    }
}

/// The references to the entities with which an entity shares what comes
/// in: its drop points.
pub open spec fn input_inventory_share_of<F>(obj: UObject<F>) -> Seq<ObjectPath> {
    match obj.properties {
        Some(p) => p.input_inventory_share@,
        None => Seq::empty(),
    }
}

/// Builds the resolved delivery point of a world object.
pub fn build_delivery_point<F: Copy>(
    world_obj: &UObject<F>,
    around: &Surroundings<'_, F>,
    blueprint: &Blueprint<'_, F>,
    taxonomy: &Taxonomy,
    fallback: Option<Capacity>,
) -> (r: Result<DeliveryPoint<F>, ResolveError>)
    ensures
        match delivery_point_of(
            *world_obj,
            around.container@,
            around.objects@,
            around.store.files@,
            *blueprint.main_obj,
            blueprint.template_obj,
            taxonomy@,
            fallback,
        ) {
            Ok(entity) => r matches Ok(built) && built.deep_view() == entity,
            Err(e) => r == Err::<DeliveryPoint<F>, ResolveError>(e),
        },
{
    let main_obj = blueprint.main_obj;
    let template_obj = blueprint.template_obj;
    let scene_obj = match resolve_scene(world_obj, around) {
        Ok(obj) => obj,
        Err(e) => {
            return Err(e);
        },
    };
    let p = match &world_obj.properties {
        Some(p) => p,
        None => {
            return Err(ResolveError::SchemaGapError);
        },
    };
    let (_, guid_short) = extract_delivery_point_guid(world_obj);
    let name = resolve_name(world_obj, main_obj, template_obj);
    let merged = match merge_for_entity(world_obj, main_obj, template_obj, taxonomy, fallback) {
        Ok(merged) => merged,
        Err(e) => {
            return Err(e);
        },
    };
    let relative_location = extract_relative_location(scene_obj);
    let mut demand_storage_configs = merged.storage_by_key;
    record_demands(&mut demand_storage_configs, &merged.demand_configs);
    let demand_payments = map_demand_payments(&merged.demand_configs);
    let drop_point = match resolve_links(&p.input_inventory_share, around) {
        Ok(list) => list,
        Err(e) => {
            return Err(e);
        },
    };
    let max_delivery_distance = match p.max_delivery_distance {
        Some(d) => Some(d),
        None => match &main_obj.properties {
            Some(m) => m.max_delivery_distance,
            None => None,
        },
    };
    let max_delivery_receive_distance = match p.max_delivery_receive_distance {
        Some(d) => Some(d),
        None => match &main_obj.properties {
            Some(m) => m.max_delivery_receive_distance,
            None => None,
        },
    };
    Ok(
        DeliveryPoint {
            type_field: copy_text(world_obj.type_field.as_str()),
            name,
            guid: guid_short,
            relative_location,
            production_configs: merged.production_configs,
            demand_configs: demand_payments,
            demand_storage_configs,
            supply_storage_configs: CargoMap::new(),
            drop_point,
            max_delivery_distance,
            max_delivery_receive_distance,
        },
    )
}

/// The delivery points of one kind: for every one of the given world
/// objects that has the type of the blueprint, in order, its delivery point.
/// The first failure is the outcome.
pub open spec fn delivery_points_of_kind<F>(
    world_objs: Seq<UObject<F>>,
    container: Seq<char>,
    objects: Seq<UObject<F>>,
    files: Seq<SourceFile<F>>,
    main_obj: UObject<F>,
    template_obj: Option<&UObject<F>>,
    taxonomy: Map<Seq<char>, Seq<Seq<char>>>,
    fallback: Option<Capacity>,
) -> Result<Seq<DeliveryPointView<F>>, ResolveError>
    decreases world_objs.len(),
{
    if world_objs.len() == 0 {
        Ok(Seq::empty())
    } else {
        match delivery_points_of_kind(
            world_objs.drop_last(),
            container,
            objects,
            files,
            main_obj,
            template_obj,
            taxonomy,
            fallback,
        ) {
            Ok(before) => if world_objs.last().type_field@ != main_obj.type_field@ {
                Ok(before)
            } else {
                match delivery_point_of(
                    world_objs.last(),
                    container,
                    objects,
                    files,
                    main_obj,
                    template_obj,
                    taxonomy,
                    fallback,
                ) {
                    Ok(entity) => Ok(before.push(entity)),
                    Err(e) => Err(e),
                }
            },
            Err(e) => Err(e),
        }
    }
}

/// A failure among the first world objects is the failure of all.
pub proof fn lemma_kind_error<F>(
    world_objs: Seq<UObject<F>>,
    container: Seq<char>,
    objects: Seq<UObject<F>>,
    files: Seq<SourceFile<F>>,
    main_obj: UObject<F>,
    template_obj: Option<&UObject<F>>,
    taxonomy: Map<Seq<char>, Seq<Seq<char>>>,
    fallback: Option<Capacity>,
    n: int,
)
    requires
        0 <= n <= world_objs.len(),
        delivery_points_of_kind(
            world_objs.take(n),
            container,
            objects,
            files,
            main_obj,
            template_obj,
            taxonomy,
            fallback,
        ) is Err,
    ensures
        delivery_points_of_kind(
            world_objs,
            container,
            objects,
            files,
            main_obj,
            template_obj,
            taxonomy,
            fallback,
        ) == delivery_points_of_kind(
            world_objs.take(n),
            container,
            objects,
            files,
            main_obj,
            template_obj,
            taxonomy,
            fallback,
        ),
    decreases world_objs.len(),
{
    if n == world_objs.len() {
        assert(world_objs.take(n) == world_objs);
    } else {
        assert(world_objs.drop_last().take(n) == world_objs.take(n));
        lemma_kind_error(
            world_objs.drop_last(),
            container,
            objects,
            files,
            main_obj,
            template_obj,
            taxonomy,
            fallback,
            n,
        );
    }
}

/// Builds the delivery points of one kind and appends them to `output`.
pub fn build_delivery_points_of_kind<F: Copy>(
    output: &mut Vec<DeliveryPoint<F>>,
    around: &Surroundings<'_, F>,
    blueprint: &Blueprint<'_, F>,
    taxonomy: &Taxonomy,
    fallback: Option<Capacity>,
) -> (r: Result<(), ResolveError>)
    ensures
        match delivery_points_of_kind(
            around.objects@,
            around.container@,
            around.objects@,
            around.store.files@,
            *blueprint.main_obj,
            blueprint.template_obj,
            taxonomy@,
            fallback,
        ) {
            Ok(more) => r is Ok && final(output).deep_view() == old(output).deep_view() + more,
            Err(e) => r == Err::<(), ResolveError>(e),
        },
{
    let ghost given = output.deep_view();
    let world = around.objects;
    let mut i: usize = 0;
    proof {
        assert(world@.take(0).len() == 0);
        assert(given =~= given + Seq::<DeliveryPointView<F>>::empty());
    }
    while i < world.len()
        invariant
            i <= world.len(),
            world == around.objects,
            delivery_points_of_kind(
                world@.take(i as int),
                around.container@,
                around.objects@,
                around.store.files@,
                *blueprint.main_obj,
                blueprint.template_obj,
                taxonomy@,
                fallback,
            ) matches Ok(more) && output.deep_view() == given + more,
        decreases world.len() - i,
    {
        let world_obj = &world[i];
        proof {
            assert(world@.take(i + 1).drop_last() == world@.take(i as int));
            assert(world@.take(i + 1).last() == *world_obj);
        }
        if *world_obj.type_field.as_str() == *blueprint.main_obj.type_field.as_str() {
            match build_delivery_point(world_obj, around, blueprint, taxonomy, fallback) {
                Ok(entity) => {
                    let ghost before = output.deep_view();
                    output.push(entity);
                    proof {
                        assert(output.deep_view() =~= before.push(entity.deep_view()));
                        let more = delivery_points_of_kind(
                            world@.take(i as int),
                            around.container@,
                            around.objects@,
                            around.store.files@,
                            *blueprint.main_obj,
                            blueprint.template_obj,
                            taxonomy@,
                            fallback,
                        )->Ok_0;
                        assert(before.push(entity.deep_view()) =~= given + more.push(
                            entity.deep_view(),
                        ));
                    }
                },
                Err(e) => {
                    proof {
                        lemma_kind_error(
                            world@,
                            around.container@,
                            around.objects@,
                            around.store.files@,
                            *blueprint.main_obj,
                            blueprint.template_obj,
                            taxonomy@,
                            fallback,
                            i + 1,
                        );
                    }
                    return Err(e);
                },
            }
        }
        i += 1;
    }
    proof {
        assert(world@.take(world@.len() as int) == world@);
    }
    Ok(())
}

/// The delivery points of all kinds, kind after kind, before the pass over
/// the drop points.
pub open spec fn delivery_points_of<F>(
    blueprints: Seq<Blueprint<'_, F>>,
    container: Seq<char>,
    objects: Seq<UObject<F>>,
    files: Seq<SourceFile<F>>,
    taxonomy: Map<Seq<char>, Seq<Seq<char>>>,
    fallback: Option<Capacity>,
) -> Result<Seq<DeliveryPointView<F>>, ResolveError>
    decreases blueprints.len(),
{
    if blueprints.len() == 0 {
        Ok(Seq::empty())
    } else {
        match delivery_points_of(
            blueprints.drop_last(),
            container,
            objects,
            files,
            taxonomy,
            fallback,
        ) {
            Ok(before) => match delivery_points_of_kind(
                objects,
                container,
                objects,
                files,
                *blueprints.last().main_obj,
                blueprints.last().template_obj,
                taxonomy,
                fallback,
            ) {
                Ok(more) => Ok(before + more),
                Err(e) => Err(e),
            },
            Err(e) => Err(e),
        }
    }
}

/// A failure among the first kinds is the failure of all.
pub proof fn lemma_kinds_error<F>(
    blueprints: Seq<Blueprint<'_, F>>,
    container: Seq<char>,
    objects: Seq<UObject<F>>,
    files: Seq<SourceFile<F>>,
    taxonomy: Map<Seq<char>, Seq<Seq<char>>>,
    fallback: Option<Capacity>,
    n: int,
)
    requires
        0 <= n <= blueprints.len(),
        delivery_points_of(blueprints.take(n), container, objects, files, taxonomy, fallback) is Err,
    ensures
        delivery_points_of(blueprints, container, objects, files, taxonomy, fallback)
            == delivery_points_of(
            blueprints.take(n),
            container,
            objects,
            files,
            taxonomy,
            fallback,
        ),
    decreases blueprints.len(),
{
    if n == blueprints.len() {
        assert(blueprints.take(n) == blueprints);
    } else {
        assert(blueprints.drop_last().take(n) == blueprints.take(n));
        lemma_kinds_error(blueprints.drop_last(), container, objects, files, taxonomy, fallback, n);
    }
}

/// The delivery points of the world: those of all kinds, after the pass
/// over the drop points.
pub open spec fn delivery_point_output<F>(
    blueprints: Seq<Blueprint<'_, F>>,
    container: Seq<char>,
    objects: Seq<UObject<F>>,
    files: Seq<SourceFile<F>>,
    taxonomy: Map<Seq<char>, Seq<Seq<char>>>,
    fallback: Option<Capacity>,
) -> Result<Seq<DeliveryPointView<F>>, ResolveError> {
    match delivery_points_of(blueprints, container, objects, files, taxonomy, fallback) {
        Ok(built) => Ok(propagated(built)),
        Err(e) => Err(e),
    }
}

/// Resolves every delivery point of the world and runs the pass over the
/// drop points.
pub fn extract_delivery_point<F: Copy>(
    around: &Surroundings<'_, F>,
    blueprints: &Vec<Blueprint<'_, F>>,
    taxonomy: &Taxonomy,
    fallback: Option<Capacity>,
) -> (r: Result<Vec<DeliveryPoint<F>>, ResolveError>)
    ensures
        match delivery_point_output(
            blueprints@,
            around.container@,
            around.objects@,
            around.store.files@,
            taxonomy@,
            fallback,
        ) {
            Ok(entities) => r matches Ok(list) && list.deep_view() == entities,
            Err(e) => r == Err::<Vec<DeliveryPoint<F>>, ResolveError>(e),
        },
{
    let mut output: Vec<DeliveryPoint<F>> = Vec::new();
    let mut i: usize = 0;
    proof {
        assert(blueprints@.take(0).len() == 0);
        assert(output.deep_view() =~= Seq::<DeliveryPointView<F>>::empty());
    }
    while i < blueprints.len()
        invariant
            i <= blueprints.len(),
            delivery_points_of(
                blueprints@.take(i as int),
                around.container@,
                around.objects@,
                around.store.files@,
                taxonomy@,
                fallback,
            ) == Ok::<Seq<DeliveryPointView<F>>, ResolveError>(output.deep_view()),
        decreases blueprints.len() - i,
    {
        proof {
            assert(blueprints@.take(i + 1).drop_last() == blueprints@.take(i as int));
            assert(blueprints@.take(i + 1).last() == blueprints@[i as int]);
        }
        match build_delivery_points_of_kind(
            &mut output,
            around,
            &blueprints[i],
            taxonomy,
            fallback,
        ) {
            Ok(()) => {},
            Err(e) => {
                proof {
                    lemma_kinds_error(
                        blueprints@,
                        around.container@,
                        around.objects@,
                        around.store.files@,
                        taxonomy@,
                        fallback,
                        i + 1,
                    );
                }
                return Err(e);
            },
        }
        i += 1;
    }
    proof {
        assert(blueprints@.take(blueprints@.len() as int) == blueprints@);
    }
    propagate_drop_point_storage(&mut output);
    Ok(output)
}

} // verus!
