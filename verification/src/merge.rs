//! The merge of the rules of one entity: the storage rules in force are
//! selected and expanded, and the demand and production rules in force are
//! resolved against them.

use crate::capacity::Capacity;
use crate::cargo_map::CargoMap;
use crate::entity::{cascaded_max_storage, resolve_max_storage};
use crate::error::ResolveError;
use crate::helper::{
    map_demand_configs,
    map_production_configs,
    resolved_demands,
    resolved_productions,
    selected_demand_rules,
    selected_production_rules,
    storage_by_key,
};
use crate::output_type::DemandConfigView;
use crate::output_type;
use crate::taxonomy::{Taxonomy, expand_storage_configs, expanded};
use crate::ue_type::{StorageConfig, StorageConfigView, UObject};
use vstd::prelude::*;

verus! {

/// The storage rules that an object declares.
pub open spec fn storage_rules<F>(obj: UObject<F>) -> Seq<StorageConfigView> {
    match obj.properties {
        Some(p) => match p.storage_configs {
            Some(list) => list.deep_view(),
            None => Seq::empty(),
        },
        None => Seq::empty(),
    }
}

/// The storage rules in force for an entity: the first non-empty list of
/// the instance, the type default and the template. An object that is asked
/// and has no attribute bag is a schema gap.
pub open spec fn selected_storage_rules<F>(
    world_obj: UObject<F>,
    main_obj: UObject<F>,
    template_obj: Option<&UObject<F>>,
) -> Result<Seq<StorageConfigView>, ResolveError> {
    if world_obj.properties is None {
        Err(ResolveError::SchemaGapError)
    } else if storage_rules(world_obj).len() > 0 {
        Ok(storage_rules(world_obj))
    } else if main_obj.properties is None {
        Err(ResolveError::SchemaGapError)
    } else if storage_rules(main_obj).len() > 0 {
        Ok(storage_rules(main_obj))
    } else {
        match template_obj {
            Some(t) => if t.properties is None {
                Err(ResolveError::SchemaGapError)
            } else {
                Ok(storage_rules(*t))
            },
            None => Ok(Seq::empty()),
        }
    }
}

/// Override precedence for storage rules: where the instance declares
/// rules, they are in force, whatever the type default and the template hold.
pub proof fn lemma_instance_storage_overrides<F>(
    world_obj: UObject<F>,
    main_obj: UObject<F>,
    template_obj: Option<&UObject<F>>,
)
    requires
        storage_rules(world_obj).len() > 0,
    ensures
        selected_storage_rules(world_obj, main_obj, template_obj) == Ok::<
            Seq<StorageConfigView>,
            ResolveError,
        >(storage_rules(world_obj)),
{
}

/// Where the instance and the type default declare no storage rules, those
/// of the template are in force.
pub proof fn lemma_template_storage_is_last_resort<F>(
    world_obj: UObject<F>,
    main_obj: UObject<F>,
    template_obj: UObject<F>,
)
    requires
        world_obj.properties is Some,
        main_obj.properties is Some,
        template_obj.properties is Some,
        storage_rules(world_obj).len() == 0,
        storage_rules(main_obj).len() == 0,
    ensures
        selected_storage_rules(world_obj, main_obj, Some(&template_obj)) == Ok::<
            Seq<StorageConfigView>,
            ResolveError,
        >(storage_rules(template_obj)),
{
}

/// Where no object lacks its attribute bag, the selection is the three-level
/// cascade over the lists of storage rules.
pub proof fn lemma_selected_storage_is_cascade<F>(
    world_obj: UObject<F>,
    main_obj: UObject<F>,
    template_obj: UObject<F>,
)
    requires
        world_obj.properties is Some,
        main_obj.properties is Some,
        template_obj.properties is Some,
    ensures
        selected_storage_rules(world_obj, main_obj, Some(&template_obj)) == Ok::<
            Seq<StorageConfigView>,
            ResolveError,
        >(
            crate::cascade::first_non_empty(
                seq![storage_rules(world_obj), storage_rules(main_obj), storage_rules(template_obj)],
            ),
        ),
{
    crate::cascade::lemma_three_lists(
        storage_rules(world_obj),
        storage_rules(main_obj),
        storage_rules(template_obj),
    );
}

/// The storage rules that an object declares, where it declares a list; a
/// schema gap where it has no attribute bag.
pub fn extract_storage_configs<F>(obj: &UObject<F>) -> (r: Result<
    Option<&Vec<StorageConfig>>,
    ResolveError,
>)
    ensures
        match r {
            Ok(Some(list)) => obj.properties is Some && list.deep_view() == storage_rules(*obj),
            Ok(None) => obj.properties is Some && storage_rules(*obj).len() == 0,
            Err(e) => obj.properties is None && e == ResolveError::SchemaGapError,
        },
{
    match &obj.properties {
        Some(p) => match &p.storage_configs {
            Some(list) => Ok(Some(list)),
            None => Ok(None),
        },
        None => Err(ResolveError::SchemaGapError),
    }
}

/// Selects the storage rules in force for an entity and expands them over
/// the taxonomy.
pub fn select_storage_configs<F>(
    world_obj: &UObject<F>,
    main_obj: &UObject<F>,
    template_obj: Option<&UObject<F>>,
    taxonomy: &Taxonomy,
) -> (r: Result<Vec<StorageConfig>, ResolveError>)
    ensures
        match selected_storage_rules(*world_obj, *main_obj, template_obj) {
            Ok(rules) => r matches Ok(list) && list.deep_view() == expanded(rules, taxonomy@),
            Err(e) => r == Err::<Vec<StorageConfig>, ResolveError>(e),
        },
{
    let empty: Vec<StorageConfig> = Vec::new();
    proof {
        assert(empty.deep_view() =~= Seq::<StorageConfigView>::empty());
    }
    let of_world = match extract_storage_configs(world_obj) {
        Ok(Some(list)) => list,
        Ok(None) => &empty,
        Err(e) => {
            return Err(e);
        },
    };
    let rules = if of_world.len() > 0 {
        of_world
    } else {
        let of_main = match extract_storage_configs(main_obj) {
            Ok(Some(list)) => list,
            Ok(None) => &empty,
            Err(e) => {
                return Err(e);
            },
        };
        if of_main.len() > 0 {
            of_main
        } else {
            match template_obj {
                Some(obj) => match extract_storage_configs(obj) {
                    Ok(Some(list)) => list,
                    Ok(None) => &empty,
                    Err(e) => {
                        return Err(e);
                    },
                },
                None => &empty,
            }
        }
    };
    proof {
        assert(selected_storage_rules(*world_obj, *main_obj, template_obj) matches Ok(s) && s
            =~= rules.deep_view());
    }
    Ok(expand_storage_configs(rules, taxonomy))
}

/// The merged rules of one entity.
#[derive(Debug, Clone, PartialEq)]
pub struct EntityConfigs<F> {
    pub production_configs: Vec<output_type::ProductionConfig<F>>,
    pub demand_configs: Vec<output_type::DemandConfig<F>>,
    pub storage_by_key: CargoMap<Option<Capacity>>,
}

/// The model of `EntityConfigs`.
pub struct EntityConfigsView<F> {
    pub production_configs: Seq<output_type::ProductionConfigView<F>>,
    pub demand_configs: Seq<DemandConfigView<F>>,
    pub storage_by_key: Map<Seq<char>, Option<Capacity>>,
}

impl<F> DeepView for EntityConfigs<F> {
    type V = EntityConfigsView<F>;

    open spec fn deep_view(&self) -> EntityConfigsView<F> {
        EntityConfigsView {
            production_configs: self.production_configs.deep_view(),
            demand_configs: self.demand_configs.deep_view(),
            storage_by_key: self.storage_by_key@,
        }
    }
}

/// The merge for one entity: the storage rules in force are expanded over
/// the taxonomy; every demand rule in force gets its capacity from itself,
/// else from its storage rule, else from the default; every cargo of the
/// production rules in force gets its capacity from its demand rule, else
/// from its storage rule, else from the default, and the first capacity seen
/// for a cargo is recorded. The default is the cascaded default capacity.
pub open spec fn merged_for_entity<F>(
    world_obj: UObject<F>,
    main_obj: UObject<F>,
    template_obj: Option<&UObject<F>>,
    taxonomy: Map<Seq<char>, Seq<Seq<char>>>,
    fallback: Option<Capacity>,
) -> Result<EntityConfigsView<F>, ResolveError> {
    match selected_storage_rules(world_obj, main_obj, template_obj) {
        Err(e) => Err(e),
        Ok(rules) => {
            let storage = expanded(rules, taxonomy);
            let capacity = cascaded_max_storage(world_obj, main_obj, template_obj, fallback);
            let demands = resolved_demands(
                selected_demand_rules(world_obj, main_obj, template_obj),
                storage,
                capacity,
            );
            match selected_production_rules(world_obj, main_obj, template_obj) {
                Err(e) => Err(e),
                Ok(productions) => Ok(
                    EntityConfigsView {
                        production_configs: resolved_productions(
                            productions,
                            demands,
                            storage,
                            capacity,
                        ),
                        demand_configs: demands,
                        storage_by_key: storage_by_key(productions, demands, storage, capacity),
                    },
                ),
            }
        },
    }
}

/// Merges the demand, production and storage rules of one entity.
pub fn merge_for_entity<F: Copy>(
    world_obj: &UObject<F>,
    main_obj: &UObject<F>,
    template_obj: Option<&UObject<F>>,
    taxonomy: &Taxonomy,
    fallback: Option<Capacity>,
) -> (r: Result<EntityConfigs<F>, ResolveError>)
    ensures
        match merged_for_entity(*world_obj, *main_obj, template_obj, taxonomy@, fallback) {
            Ok(configs) => r matches Ok(merged) && merged.deep_view() == configs,
            Err(e) => r == Err::<EntityConfigs<F>, ResolveError>(e),
        },
{
    let max_storage = resolve_max_storage(world_obj, main_obj, template_obj, fallback);
    let storage_configs = match select_storage_configs(world_obj, main_obj, template_obj, taxonomy) {
        Ok(list) => list,
        Err(e) => {
            return Err(e);
        },
    };
    let demand_configs = map_demand_configs(
        world_obj,
        main_obj,
        template_obj,
        &storage_configs,
        max_storage,
    );
    match map_production_configs(
        world_obj,
        main_obj,
        template_obj,
        &storage_configs,
        &demand_configs,
        max_storage,
    ) {
        Ok(pair) => Ok(
            EntityConfigs {
                production_configs: pair.0,
                demand_configs,
                storage_by_key: pair.1,
            },
        ),
        Err(e) => Err(e),
    }
}

} // verus!
