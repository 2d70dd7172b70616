//! What the builders of resolved records share: the surroundings in which
//! references are resolved, the blueprint of a kind of entity, and the
//! cascades for single attributes.

use crate::capacity::Capacity;
use crate::cascade::first_defined;
use crate::error::ResolveError;
use crate::extract::{extract_max_storage, extract_name, max_storage_of, name_of};
use crate::resolve::{resolve, resolved, ObjectStore, SourceFile};
use crate::ue_type::UObject;
use vstd::prelude::*;

verus! {

/// The objects among which the references of an entity are resolved: the
/// file at hand under its container path, and the other files loaded.
pub struct Surroundings<'a, F> {
    pub container: &'a str,
    pub objects: &'a Vec<UObject<F>>,
    pub store: &'a ObjectStore<F>,
}

/// The type default and the inherited template of a kind of entity.
pub struct Blueprint<'a, F> {
    pub main_obj: &'a UObject<F>,
    pub template_obj: Option<&'a UObject<F>>,
}

/// The attribute of the template, where there is a template.
pub open spec fn of_template<F, T>(
    template_obj: Option<&UObject<F>>,
    attribute: spec_fn(UObject<F>) -> Option<T>,
) -> Option<T> {
    match template_obj {
        Some(t) => attribute(*t),
        None => None,
    }
}

/// The name of an entity by the three-level cascade.
pub open spec fn cascaded_name<F>(
    world_obj: UObject<F>,
    main_obj: UObject<F>,
    template_obj: Option<&UObject<F>>,
) -> Option<Seq<char>> {
    first_defined(
        seq![
            name_of(world_obj),
            name_of(main_obj),
            of_template(template_obj, |t: UObject<F>| name_of(t)),
        ],
        None,
    )
}

/// The default capacity of an entity by the three-level cascade, with the
/// fallback where no level declares one.
pub open spec fn cascaded_max_storage<F>(
    world_obj: UObject<F>,
    main_obj: UObject<F>,
    template_obj: Option<&UObject<F>>,
    fallback: Option<Capacity>,
) -> Option<Capacity> {
    first_defined(
        seq![
            max_storage_of(world_obj),
            max_storage_of(main_obj),
            of_template(template_obj, |t: UObject<F>| max_storage_of(t)),
        ],
        fallback,
    )
}

/// Resolves the name of an entity by the cascade.
pub fn resolve_name<F>(
    world_obj: &UObject<F>,
    main_obj: &UObject<F>,
    template_obj: Option<&UObject<F>>,
) -> (r: Option<String>)
    ensures
        r.deep_view() == cascaded_name(*world_obj, *main_obj, template_obj),
{
    let ghost c = seq![
        name_of(*world_obj),
        name_of(*main_obj),
        of_template(template_obj, |t: UObject<F>| name_of(t)),
    ];
    let first = extract_name(world_obj);
    if first.is_some() {
        return first;
    }
    let second = extract_name(main_obj);
    if second.is_some() {
        proof {
            crate::cascade::lemma_first_defined_skip(c, None, 1);
            assert(c.skip(1)[0] == c[1]);
        }
        return second;
    }
    let third = match template_obj {
        Some(t) => extract_name(t),
        None => None,
    };
    proof {
        crate::cascade::lemma_first_defined_skip(c, None, 2);
        let last = c.skip(2);
        assert(last[0] == c[2]);
        assert(last.drop_first().len() == 0);
        assert(first_defined(last.drop_first(), None::<Seq<char>>) == None::<Seq<char>>);
        assert(first_defined(last, None::<Seq<char>>) == c[2]);
    }
    third
}

/// Resolves the default capacity of an entity by the cascade.
pub fn resolve_max_storage<F>(
    world_obj: &UObject<F>,
    main_obj: &UObject<F>,
    template_obj: Option<&UObject<F>>,
    fallback: Option<Capacity>,
) -> (r: Option<Capacity>)
    ensures
        r == cascaded_max_storage(*world_obj, *main_obj, template_obj, fallback),
{
    let ghost c = seq![
        max_storage_of(*world_obj),
        max_storage_of(*main_obj),
        of_template(template_obj, |t: UObject<F>| max_storage_of(t)),
    ];
    let first = extract_max_storage(world_obj);
    if first.is_some() {
        return first;
    }
    let second = extract_max_storage(main_obj);
    if second.is_some() {
        proof {
            crate::cascade::lemma_first_defined_skip(c, fallback, 1);
            assert(c.skip(1)[0] == c[1]);
        }
        return second;
    }
    let third = match template_obj {
        Some(t) => extract_max_storage(t),
        None => None,
    };
    proof {
        crate::cascade::lemma_first_defined_skip(c, fallback, 2);
        let last = c.skip(2);
        assert(last[0] == c[2]);
        assert(last.drop_first().len() == 0);
        assert(first_defined(last.drop_first(), fallback) == fallback);
    }
    if third.is_some() {
        third
    } else {
        fallback
    }
}

/// Override precedence for names and default capacities: what the instance
/// declares is the outcome of the cascade.
pub proof fn lemma_instance_attributes_override<F>(
    world_obj: UObject<F>,
    main_obj: UObject<F>,
    template_obj: Option<&UObject<F>>,
    fallback: Option<Capacity>,
)
    ensures
        name_of(world_obj) is Some ==> cascaded_name(world_obj, main_obj, template_obj) == name_of(
            world_obj,
        ),
        max_storage_of(world_obj) is Some ==> cascaded_max_storage(
            world_obj,
            main_obj,
            template_obj,
            fallback,
        ) == max_storage_of(world_obj),
{
}

/// Where the instance and the type default declare no name or no default
/// capacity, the template's is the outcome of the cascade.
pub proof fn lemma_template_attributes_are_last_resort<F>(
    world_obj: UObject<F>,
    main_obj: UObject<F>,
    template_obj: UObject<F>,
    fallback: Option<Capacity>,
)
    ensures
        name_of(world_obj) is None && name_of(main_obj) is None ==> cascaded_name(
            world_obj,
            main_obj,
            Some(&template_obj),
        ) == name_of(template_obj),
        max_storage_of(world_obj) is None && max_storage_of(main_obj) is None && max_storage_of(
            template_obj,
        ) is Some ==> cascaded_max_storage(world_obj, main_obj, Some(&template_obj), fallback)
            == max_storage_of(template_obj),
{
    let names = seq![name_of(world_obj), name_of(main_obj), name_of(template_obj)];
    if name_of(world_obj) is None && name_of(main_obj) is None {
        crate::cascade::lemma_first_defined_skip(names, None, 2);
        let last = names.skip(2);
        assert(last[0] == name_of(template_obj));
        assert(last.drop_first().len() == 0);
        assert(first_defined(last.drop_first(), None::<Seq<char>>) == None::<Seq<char>>);
        assert(first_defined(last, None::<Seq<char>>) == name_of(template_obj));
        assert(names =~= seq![
            name_of(world_obj),
            name_of(main_obj),
            of_template(Some(&template_obj), |t: UObject<F>| name_of(t)),
        ]);
    }
    let caps = seq![max_storage_of(world_obj), max_storage_of(main_obj), max_storage_of(template_obj)];
    if max_storage_of(world_obj) is None && max_storage_of(main_obj) is None {
        crate::cascade::lemma_first_defined_skip(caps, fallback, 2);
        assert(caps.skip(2)[0] == max_storage_of(template_obj));
        assert(caps =~= seq![
            max_storage_of(world_obj),
            max_storage_of(main_obj),
            of_template(Some(&template_obj), |t: UObject<F>| max_storage_of(t)),
        ]);
    }
}

/// The capacity that stands in where no level of the cascade declares one.
pub fn default_capacity() -> (r: Option<Capacity>)
    ensures
        r matches Some(c) && c.value() == 100,
{
    Capacity::new(100)
}

/// The type default and the template that the objects of a blueprint file
/// declare: the first object names the type default, and the type default
/// names its template, if it has one. There is none where a reference on the
/// way cannot be resolved.
pub open spec fn blueprint_of<F>(
    container: Seq<char>,
    objects: Seq<UObject<F>>,
    files: Seq<SourceFile<F>>,
) -> Option<(UObject<F>, Option<UObject<F>>)> {
    if objects.len() == 0 {
        None
    } else {
        match resolved(objects[0].class_default_object, container, objects, files) {
            Some(main_obj) => match main_obj.template {
                Some(reference) => match resolved(Some(reference), container, objects, files) {
                    Some(template_obj) => Some((main_obj, Some(template_obj))),
                    None => None,
                },
                None => Some((main_obj, None)),
            },
            None => None,
        }
    }
}

/// The template of a blueprint as a value, if it has one.
pub open spec fn template_of<F>(blueprint: Blueprint<'_, F>) -> Option<UObject<F>> {
    match blueprint.template_obj {
        Some(t) => Some(*t),
        None => None,
    }
}

/// Finds the type default and the template of a blueprint file.
pub fn resolve_blueprint<'a, F>(around: &Surroundings<'a, F>) -> (r: Result<
    Blueprint<'a, F>,
    ResolveError,
>)
    ensures
        match blueprint_of(around.container@, around.objects@, around.store.files@) {
            Some(pair) => r matches Ok(b) && *b.main_obj == pair.0 && template_of(b) == pair.1,
            None => r == Err::<Blueprint<'a, F>, ResolveError>(ResolveError::ReferenceError),
        },
{
    if around.objects.len() == 0 {
        return Err(ResolveError::ReferenceError);
    }
    let generated = &around.objects[0];
    let default_object = match &generated.class_default_object {
        Some(r) => Some(r),
        None => None,
    };
    let main_obj = match resolve(default_object, around.container, around.objects, around.store) {
        Ok(obj) => obj,
        Err(e) => {
            return Err(e);
        },
    };
    match &main_obj.template {
        Some(reference) => {
            match resolve(Some(reference), around.container, around.objects, around.store) {
                Ok(template_obj) => Ok(Blueprint { main_obj, template_obj: Some(template_obj) }),
                Err(e) => Err(e),
            }
        },
        None => Ok(Blueprint { main_obj, template_obj: None }),
    }
}

/// The scene component of a world object: the object that its root
/// component names. A world object without attribute bag is a schema gap; a
/// root component that is absent or cannot be resolved is a reference error.
pub open spec fn scene_of<F>(
    world_obj: UObject<F>,
    container: Seq<char>,
    objects: Seq<UObject<F>>,
    files: Seq<SourceFile<F>>,
) -> Result<UObject<F>, ResolveError> {
    match world_obj.properties {
        None => Err(ResolveError::SchemaGapError),
        Some(p) => match resolved(p.root_component, container, objects, files) {
            None => Err(ResolveError::ReferenceError),
            Some(scene) => Ok(scene),
        },
    }
}

/// Finds the scene component of a world object.
pub fn resolve_scene<'a, F>(world_obj: &UObject<F>, around: &Surroundings<'a, F>) -> (r: Result<
    &'a UObject<F>,
    ResolveError,
>)
    ensures
        match scene_of(*world_obj, around.container@, around.objects@, around.store.files@) {
            Ok(scene) => r matches Ok(found) && *found == scene,
            Err(e) => r == Err::<&UObject<F>, ResolveError>(e),
        },
{
    let p = match &world_obj.properties {
        Some(p) => p,
        None => {
            return Err(ResolveError::SchemaGapError);
        },
    };
    let root = match &p.root_component {
        Some(r) => Some(r),
        None => None,
    };
    resolve(root, around.container, around.objects, around.store)
}

} // verus!
