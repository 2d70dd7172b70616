//! Building chargers, houses and area volumes.

use crate::cargo_map::CargoMap;
use crate::entity::{Surroundings, resolve_scene, scene_of};
use crate::error::ResolveError;
use crate::extract::{
    area_flag_of,
    area_name_of,
    extract_area_flag,
    extract_area_name,
    extract_housereg_key,
    extract_relative_location,
    extract_top_view_lines,
    housereg_key_of,
    location_of,
    top_view_of,
};
use crate::output_type::{
    AreaVolume,
    AreaVolumeView,
    EvChargerPoint,
    HousePoint,
    HousePointView,
    Vector2,
    Vector3,
};
use crate::resolve::SourceFile;
use crate::ue_type::UObject;
use vstd::prelude::*;

verus! {

/// Whether a type tag is that of a charger.
pub open spec fn is_charger_type(type_field: Seq<char>) -> bool {
    type_field == "EVCharger_C"@
}

/// Whether a type tag is that of a charger.
pub fn charger_type(type_field: &str) -> (r: bool)
    ensures
        r == is_charger_type(type_field@),
{
    *type_field == *"EVCharger_C"
}

/// The resolved charger of an object: the location of its scene component.
pub open spec fn charger_of<F>(
    world_obj: UObject<F>,
    container: Seq<char>,
    objects: Seq<UObject<F>>,
    files: Seq<SourceFile<F>>,
) -> Result<Option<Vector3<F>>, ResolveError> {
    match scene_of(world_obj, container, objects, files) {
        Err(e) => Err(e),
        Ok(scene) => Ok(location_of(scene)),
    }
}

/// Builds the resolved charger of an object.
pub fn build_ev_charger<F: Copy>(world_obj: &UObject<F>, around: &Surroundings<'_, F>) -> (r:
    Result<EvChargerPoint<F>, ResolveError>)
    ensures
        match charger_of(*world_obj, around.container@, around.objects@, around.store.files@) {
            Ok(entity) => r matches Ok(built) && built.deep_view() == entity,
            Err(e) => r == Err::<EvChargerPoint<F>, ResolveError>(e),
        },
{
    match resolve_scene(world_obj, around) {
        Ok(scene_obj) => Ok(
            EvChargerPoint { relative_location: extract_relative_location(scene_obj) },
        ),
        Err(e) => Err(e),
    }
}

/// The chargers among the given objects, in order. The first failure is the
/// outcome.
pub open spec fn chargers_of<F>(
    world_objs: Seq<UObject<F>>,
    container: Seq<char>,
    objects: Seq<UObject<F>>,
    files: Seq<SourceFile<F>>,
) -> Result<Seq<Option<Vector3<F>>>, ResolveError>
    decreases world_objs.len(),
{
    if world_objs.len() == 0 {
        Ok(Seq::empty())
    } else {
        match chargers_of(world_objs.drop_last(), container, objects, files) {
            Ok(before) => if !is_charger_type(world_objs.last().type_field@) {
                Ok(before)
            } else {
                match charger_of(world_objs.last(), container, objects, files) {
                    Ok(entity) => Ok(before.push(entity)),
                    Err(e) => Err(e),
                }
            },
            Err(e) => Err(e),
        }
    }
}

/// A failure among the first objects is the failure of all.
pub proof fn lemma_chargers_of_error<F>(
    world_objs: Seq<UObject<F>>,
    container: Seq<char>,
    objects: Seq<UObject<F>>,
    files: Seq<SourceFile<F>>,
    n: int,
)
    requires
        0 <= n <= world_objs.len(),
        chargers_of(world_objs.take(n), container, objects, files) is Err,
    ensures
        chargers_of(world_objs, container, objects, files) == chargers_of(
            world_objs.take(n),
            container,
            objects,
            files,
        ),
    decreases world_objs.len(),
{
    if n == world_objs.len() {
        assert(world_objs.take(n) == world_objs);
    } else {
        assert(world_objs.drop_last().take(n) == world_objs.take(n));
        lemma_chargers_of_error(world_objs.drop_last(), container, objects, files, n);
    }
}

/// Resolves every charger of a file.
pub fn extract_ev_charger<F: Copy>(around: &Surroundings<'_, F>) -> (r: Result<
    Vec<EvChargerPoint<F>>,
    ResolveError,
>)
    ensures
        match chargers_of(
            around.objects@,
            around.container@,
            around.objects@,
            around.store.files@,
        ) {
            Ok(entities) => r matches Ok(list) && list.deep_view() == entities,
            Err(e) => r == Err::<Vec<EvChargerPoint<F>>, ResolveError>(e),
        },
{
    let world = around.objects;
    let mut output: Vec<EvChargerPoint<F>> = Vec::new();
    let mut i: usize = 0;
    proof {
        assert(world@.take(0).len() == 0);
        assert(output.deep_view() =~= Seq::<Option<Vector3<F>>>::empty());
    }
    while i < world.len()
        invariant
            i <= world.len(),
            world == around.objects,
            chargers_of(
                world@.take(i as int),
                around.container@,
                around.objects@,
                around.store.files@,
            ) == Ok::<Seq<Option<Vector3<F>>>, ResolveError>(output.deep_view()),
        decreases world.len() - i,
    {
        let world_obj = &world[i];
        proof {
            assert(world@.take(i + 1).drop_last() == world@.take(i as int));
            assert(world@.take(i + 1).last() == *world_obj);
        }
        if charger_type(world_obj.type_field.as_str()) {
            match build_ev_charger(world_obj, around) {
                Ok(entity) => {
                    let ghost before = output.deep_view();
                    output.push(entity);
                    proof {
                        assert(output.deep_view() =~= before.push(entity.deep_view()));
                    }
                },
                Err(e) => {
                    proof {
                        lemma_chargers_of_error(
                            world@,
                            around.container@,
                            around.objects@,
                            around.store.files@,
                            i + 1,
                        );
                    }
                    return Err(e);
                },
            }
        }
        i += 1;
    }
    proof {
        assert(world@.take(world@.len() as int) == world@);
    }
    Ok(output)
}

/// Whether a type tag is that of a house.
pub open spec fn is_house_type(type_field: Seq<char>) -> bool {
    type_field == "House_C"@
}

/// Whether a type tag is that of a house.
pub fn house_type(type_field: &str) -> (r: bool)
    ensures
        r == is_house_type(type_field@),
{
    *type_field == *"House_C"
}

/// The cost of the house registered under `key`; nothing where the table
/// does not have the key.
pub open spec fn house_cost(costs: Map<Seq<char>, i64>, key: Seq<char>) -> i64 {
    if costs.contains_key(key) {
        costs[key]
    } else {
        0
    }
}

/// The resolved house of a world object, on ground of the given size.
pub open spec fn house_of<F>(
    world_obj: UObject<F>,
    container: Seq<char>,
    objects: Seq<UObject<F>>,
    files: Seq<SourceFile<F>>,
    size: Vector2<F>,
    costs: Map<Seq<char>, i64>,
) -> Result<HousePointView<F>, ResolveError> {
    match scene_of(world_obj, container, objects, files) {
        Err(e) => Err(e),
        Ok(scene) => Ok(
            HousePointView {
                name: housereg_key_of(world_obj),
                relative_location: location_of(scene),
                size,
                cost: house_cost(costs, housereg_key_of(world_obj)),
            },
        ),
    }
}

/// Builds the resolved house of a world object. The size of its ground is
/// decided by the caller.
pub fn build_house<F: Copy>(
    world_obj: &UObject<F>,
    around: &Surroundings<'_, F>,
    size: Vector2<F>,
    costs: &CargoMap<i64>,
) -> (r: Result<HousePoint<F>, ResolveError>)
    ensures
        match house_of(
            *world_obj,
            around.container@,
            around.objects@,
            around.store.files@,
            size,
            costs@,
        ) {
            Ok(entity) => r matches Ok(built) && built.deep_view() == entity,
            Err(e) => r == Err::<HousePoint<F>, ResolveError>(e),
        },
{
    let scene_obj = match resolve_scene(world_obj, around) {
        Ok(obj) => obj,
        Err(e) => {
            return Err(e);
        },
    };
    let name = extract_housereg_key(world_obj);
    let cost = match costs.get(name.as_str()) {
        Some(c) => *c,
        None => 0,
    };
    Ok(HousePoint { name, relative_location: extract_relative_location(scene_obj), size, cost })
}

/// Whether a type tag is that of an area volume.
pub open spec fn is_area_type(type_field: Seq<char>) -> bool {
    type_field == "MTAreaVolume"@
}

/// Whether a type tag is that of an area volume.
pub fn area_type(type_field: &str) -> (r: bool)
    ensures
        r == is_area_type(type_field@),
{
    *type_field == *"MTAreaVolume"
}

/// The region that a world object describes.
pub open spec fn area_volume_of<F>(world_obj: UObject<F>) -> AreaVolumeView<F> {
    AreaVolumeView {
        name: area_name_of(world_obj),
        flag: area_flag_of(world_obj),
        vertex: top_view_of(world_obj),
    }
}

/// Builds the region that a world object describes.
pub fn build_area_volume<F: Copy>(world_obj: &UObject<F>) -> (r: AreaVolume<F>)
    ensures
        r.deep_view() == area_volume_of(*world_obj),
{
    AreaVolume {
        name: extract_area_name(world_obj),
        flag: extract_area_flag(world_obj),
        vertex: extract_top_view_lines(world_obj),
    }
}

/// The regions among the given world objects, in order.
pub open spec fn area_volumes_of<F>(world_objs: Seq<UObject<F>>) -> Seq<AreaVolumeView<F>>
    decreases world_objs.len(),
{
    if world_objs.len() == 0 {
        Seq::empty()
    } else {
        let before = area_volumes_of(world_objs.drop_last());
        if is_area_type(world_objs.last().type_field@) {
            before.push(area_volume_of(world_objs.last()))
        } else {
            before
        }
    }
}

/// Collects every region of the world.
pub fn extract_area_volume<F: Copy>(world: &Vec<UObject<F>>) -> (r: Vec<AreaVolume<F>>)
    ensures
        r.deep_view() == area_volumes_of(world@),
{
    let mut output: Vec<AreaVolume<F>> = Vec::new();
    let mut i: usize = 0;
    proof {
        assert(world@.take(0).len() == 0);
        assert(output.deep_view() =~= Seq::<AreaVolumeView<F>>::empty());
    }
    while i < world.len()
        invariant
            i <= world.len(),
            output.deep_view() == area_volumes_of(world@.take(i as int)),
        decreases world.len() - i,
    {
        let world_obj = &world[i];
        proof {
            assert(world@.take(i + 1).drop_last() == world@.take(i as int));
            assert(world@.take(i + 1).last() == *world_obj);
        }
        if area_type(world_obj.type_field.as_str()) {
            let area = build_area_volume(world_obj);
            let ghost before = output.deep_view();
            output.push(area);
            proof {
                assert(output.deep_view() =~= before.push(area.deep_view()));
            }
        }
        i += 1;
    }
    proof {
        assert(world@.take(world@.len() as int) == world@);
    }
    output
}

} // verus!
