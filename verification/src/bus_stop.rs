//! Building bus stops.

use crate::entity::{Surroundings, resolve_scene, scene_of};
use crate::error::ResolveError;
use crate::extract::{
    bus_stop_guid_of,
    check_is_terminal,
    extract_bus_stop_guid,
    extract_relative_location,
    fragments_of,
    is_terminal,
    localized_fragments,
    location_of,
    shortened,
};
use crate::output_type::{BusStopPoint, BusStopPointView, Guid};
use crate::resolve::{SourceFile, resolve, resolved};
use crate::text::{copy_text, join, joined};
use crate::ue_type::{ObjectPath, UObject};
use vstd::prelude::*;

verus! {

/// Whether a type tag is that of a bus stop.
pub open spec fn is_bus_stop_type(type_field: Seq<char>) -> bool {
    ||| type_field == "BusStop_01_C"@
    ||| type_field == "BusStop_02_C"@
    ||| type_field == "BusStop_03_C"@
    ||| type_field == "BusTerminal_01_C"@
}

/// Whether a type tag is that of a bus stop.
pub fn bus_stop_type(type_field: &str) -> (r: bool)
    ensures
        r == is_bus_stop_type(type_field@),
{
    *type_field == *"BusStop_01_C" || *type_field == *"BusStop_02_C" || *type_field
        == *"BusStop_03_C" || *type_field == *"BusTerminal_01_C"
}

/// The name of a bus stop: the localized fragments of its name joined with
/// single spaces, else its localized display name.
pub open spec fn bus_stop_name_of<F>(obj: UObject<F>) -> Option<Seq<char>> {
    match obj.properties {
        Some(p) => match p.bus_stop_name {
            Some(name) => Some(joined(localized_fragments(name.texts@), " "@)),
            None => match p.bus_stop_display_name {
                Some(shown) => shown.localized_string.deep_view(),
                None => None,
            },
        },
        None => None,
    }
}

/// The name of a bus stop.
pub fn extract_bus_stop_name<F>(obj: &UObject<F>) -> (r: Option<String>)
    ensures
        r.deep_view() == bus_stop_name_of(*obj),
{
    match &obj.properties {
        Some(p) => match &p.bus_stop_name {
            Some(name) => {
                let fragments = fragments_of(&name.texts);
                Some(join(&fragments, " "))
            },
            None => match &p.bus_stop_display_name {
                Some(shown) => match &shown.localized_string {
                    Some(text) => Some(copy_text(text.as_str())),
                    None => None,
                },
                None => None,
            },
        },
        None => None,
    }
}

/// The short identifiers of the bus stops that the references name, one
/// for each reference, in order; `None` for a stop without GUID. A reference
/// that cannot be resolved is an error.
pub open spec fn destination_guids<F>(
    links: Seq<ObjectPath>,
    container: Seq<char>,
    objects: Seq<UObject<F>>,
    files: Seq<SourceFile<F>>,
) -> Result<Seq<Option<Seq<char>>>, ResolveError>
    decreases links.len(),
{
    if links.len() == 0 {
        Ok(Seq::empty())
    } else {
        match destination_guids(links.drop_last(), container, objects, files) {
            Ok(before) => match resolved(Some(links.last()), container, objects, files) {
                Some(target) => Ok(before.push(shortened(bus_stop_guid_of(target)))),
                None => Err(ResolveError::ReferenceError),
            },
            Err(e) => Err(e),
        }
    }
}

/// An error among the first destinations is the error of all.
pub proof fn lemma_destination_guids_error<F>(
    links: Seq<ObjectPath>,
    container: Seq<char>,
    objects: Seq<UObject<F>>,
    files: Seq<SourceFile<F>>,
    n: int,
)
    requires
        0 <= n <= links.len(),
        destination_guids(links.take(n), container, objects, files) is Err,
    ensures
        destination_guids(links, container, objects, files) == destination_guids(
            links.take(n),
            container,
            objects,
            files,
        ),
    decreases links.len(),
{
    if n == links.len() {
        assert(links.take(n) == links);
    } else {
        assert(links.drop_last().take(n) == links.take(n));
        lemma_destination_guids_error(links.drop_last(), container, objects, files, n);
    }
}

/// Resolves the further destinations of a bus stop to short identifiers.
pub fn resolve_destinations<F>(links: &[ObjectPath], around: &Surroundings<'_, F>) -> (r: Result<
    Vec<Guid>,
    ResolveError,
>)
    ensures
        match destination_guids(links@, around.container@, around.objects@, around.store.files@) {
            Ok(guids) => r matches Ok(list) && list.deep_view() == guids,
            Err(e) => r == Err::<Vec<Guid>, ResolveError>(e),
        },
{
    let mut out: Vec<Guid> = Vec::new();
    let mut i: usize = 0;
    proof {
        assert(links@.take(0).len() == 0);
        assert(out.deep_view() =~= Seq::<Option<Seq<char>>>::empty());
    }
    while i < links.len()
        invariant
            i <= links.len(),
            destination_guids(
                links@.take(i as int),
                around.container@,
                around.objects@,
                around.store.files@,
            ) == Ok::<Seq<Option<Seq<char>>>, ResolveError>(out.deep_view()),
        decreases links.len() - i,
    {
        proof {
            assert(links@.take(i + 1).drop_last() == links@.take(i as int));
            assert(links@.take(i + 1).last() == links@[i as int]);
        }
        let target = match resolve(Some(&links[i]), around.container, around.objects, around.store) {
            Ok(target) => target,
            Err(e) => {
                proof {
                    lemma_destination_guids_error(
                        links@,
                        around.container@,
                        around.objects@,
                        around.store.files@,
                        i + 1,
                    );
                }
                return Err(e);
            },
        };
        let (_, short) = extract_bus_stop_guid(target);
        let ghost before = out.deep_view();
        let guid = Guid { guid: short };
        out.push(guid);
        proof {
            assert(out.deep_view() =~= before.push(guid.deep_view()));
        }
        i += 1;
    }
    proof {
        assert(links@.take(links@.len() as int) == links@);
    }
    Ok(out)
}

/// The resolved bus stop of a world object.
pub open spec fn bus_stop_of<F>(
    world_obj: UObject<F>,
    container: Seq<char>,
    objects: Seq<UObject<F>>,
    files: Seq<SourceFile<F>>,
) -> Result<BusStopPointView<F>, ResolveError> {
    match scene_of(world_obj, container, objects, files) {
        Err(e) => Err(e),
        Ok(scene) => match destination_guids(
            crate::extract::additional_destinations_of(world_obj),
            container,
            objects,
            files,
        ) {
            Err(e) => Err(e),
            Ok(destinations) => Ok(
                BusStopPointView {
                    type_field: world_obj.type_field@,
                    name: bus_stop_name_of(world_obj),
                    relative_location: location_of(scene),
                    guid: shortened(bus_stop_guid_of(world_obj)),
                    additional_destinations_guid: destinations,
                    terminal: is_terminal(world_obj),
                },
            ),
        },
    }
}

/// Builds the resolved bus stop of a world object.
pub fn build_bus_stop<F: Copy>(world_obj: &UObject<F>, around: &Surroundings<'_, F>) -> (r: Result<
    BusStopPoint<F>,
    ResolveError,
>)
    ensures
        match bus_stop_of(*world_obj, around.container@, around.objects@, around.store.files@) {
            Ok(entity) => r matches Ok(built) && built.deep_view() == entity,
            Err(e) => r == Err::<BusStopPoint<F>, ResolveError>(e),
        },
{
    let scene_obj = match resolve_scene(world_obj, around) {
        Ok(obj) => obj,
        Err(e) => {
            return Err(e);
        },
    };
    let (_, guid_short) = extract_bus_stop_guid(world_obj);
    let name = extract_bus_stop_name(world_obj);
    let relative_location = extract_relative_location(scene_obj);
    let terminal = check_is_terminal(world_obj);
    let links = crate::extract::extract_additional_destinations(world_obj);
    let additional_destinations_guid = match resolve_destinations(links, around) {
        Ok(list) => list,
        Err(e) => {
            return Err(e);
        },
    };
    Ok(
        BusStopPoint {
            type_field: copy_text(world_obj.type_field.as_str()),
            name,
            relative_location,
            guid: guid_short,
            additional_destinations_guid,
            terminal,
        },
    )
}

/// The bus stops among the given world objects, in order. The first failure
/// is the outcome.
pub open spec fn bus_stops_of<F>(
    world_objs: Seq<UObject<F>>,
    container: Seq<char>,
    objects: Seq<UObject<F>>,
    files: Seq<SourceFile<F>>,
) -> Result<Seq<BusStopPointView<F>>, ResolveError>
    decreases world_objs.len(),
{
    if world_objs.len() == 0 {
        Ok(Seq::empty())
    } else {
        match bus_stops_of(world_objs.drop_last(), container, objects, files) {
            Ok(before) => if !is_bus_stop_type(world_objs.last().type_field@) {
                Ok(before)
            } else {
                match bus_stop_of(world_objs.last(), container, objects, files) {
                    Ok(entity) => Ok(before.push(entity)),
                    Err(e) => Err(e),
                }
            },
            Err(e) => Err(e),
        }
    }
}

/// A failure among the first world objects is the failure of all.
pub proof fn lemma_bus_stops_of_error<F>(
    world_objs: Seq<UObject<F>>,
    container: Seq<char>,
    objects: Seq<UObject<F>>,
    files: Seq<SourceFile<F>>,
    n: int,
)
    requires
        0 <= n <= world_objs.len(),
        bus_stops_of(world_objs.take(n), container, objects, files) is Err,
    ensures
        bus_stops_of(world_objs, container, objects, files) == bus_stops_of(
            world_objs.take(n),
            container,
            objects,
            files,
        ),
    decreases world_objs.len(),
{
    if n == world_objs.len() {
        assert(world_objs.take(n) == world_objs);
    } else {
        assert(world_objs.drop_last().take(n) == world_objs.take(n));
        lemma_bus_stops_of_error(world_objs.drop_last(), container, objects, files, n);
    }
}

/// Resolves every bus stop of the world.
pub fn extract_bus_stop<F: Copy>(around: &Surroundings<'_, F>) -> (r: Result<
    Vec<BusStopPoint<F>>,
    ResolveError,
>)
    ensures
        match bus_stops_of(
            around.objects@,
            around.container@,
            around.objects@,
            around.store.files@,
        ) {
            Ok(entities) => r matches Ok(list) && list.deep_view() == entities,
            Err(e) => r == Err::<Vec<BusStopPoint<F>>, ResolveError>(e),
        },
{
    let world = around.objects;
    let mut output: Vec<BusStopPoint<F>> = Vec::new();
    let mut i: usize = 0;
    proof {
        assert(world@.take(0).len() == 0);
        assert(output.deep_view() =~= Seq::<BusStopPointView<F>>::empty());
    }
    while i < world.len()
        invariant
            i <= world.len(),
            world == around.objects,
            bus_stops_of(
                world@.take(i as int),
                around.container@,
                around.objects@,
                around.store.files@,
            ) == Ok::<Seq<BusStopPointView<F>>, ResolveError>(output.deep_view()),
        decreases world.len() - i,
    {
        let world_obj = &world[i];
        proof {
            assert(world@.take(i + 1).drop_last() == world@.take(i as int));
            assert(world@.take(i + 1).last() == *world_obj);
        }
        if bus_stop_type(world_obj.type_field.as_str()) {
            match build_bus_stop(world_obj, around) {
                Ok(entity) => {
                    let ghost before = output.deep_view();
                    output.push(entity);
                    proof {
                        assert(output.deep_view() =~= before.push(entity.deep_view()));
                    }
                },
                Err(e) => {
                    proof {
                        lemma_bus_stops_of_error(
                            world@,
                            around.container@,
                            around.objects@,
                            around.store.files@,
                            i + 1,
                        );
                    }
                    return Err(e);
                },
            }
        }
        i += 1;
    }
    proof {
        assert(world@.take(world@.len() as int) == world@);
    }
    Ok(output)
}

} // verus!
