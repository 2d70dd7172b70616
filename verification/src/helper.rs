//! Extraction of attributes from reflected objects and the merge of demand,
//! production and storage rules into the maps of one entity.
//!
//! Capacity precedence: a demand rule's own capacity, else the capacity of
//! the matching storage rule, else the default capacity.

use crate::capacity::{capacity_or, Capacity};
use crate::cascade::{first_non_empty, resolve_list};
use crate::cargo_map::CargoMap;
use crate::error::ResolveError;
use crate::output_type;
use crate::output_type::{DemandConfigView, ProductionCargo, ProductionCargoView, ProductionConfigView};
use crate::text::copy_text;
use crate::ue_type::{
    CargoKeyAndAmountValue, DemandConfig, ProductionConfig, StorageConfig, StorageConfigView,
    UObject,
};
use vstd::prelude::*;

verus! {

/// The model of an optional text.
pub open spec fn text_view(text: Option<&str>) -> Option<Seq<char>> {
    match text {
        Some(t) => Some(t@),
        None => None,
    }
}

/// The model of an optional storage rule.
pub open spec fn storage_view(rule: Option<&StorageConfig>) -> Option<StorageConfigView> {
    match rule {
        Some(s) => Some(s.deep_view()),
        None => None,
    }
}

/// The model of an optional resolved demand rule.
pub open spec fn demand_view<F>(rule: Option<&output_type::DemandConfig<F>>) -> Option<
    DemandConfigView<F>,
> {
    match rule {
        Some(d) => Some(d.deep_view()),
        None => None,
    }
}

/// The capacity that a storage rule gives: its own, else the default.
pub open spec fn storage_capacity(
    rule: Option<StorageConfigView>,
    default_max_storage: Option<Capacity>,
) -> Option<Capacity> {
    match rule {
        Some(s) => capacity_or(s.max_storage, default_max_storage),
        None => default_max_storage,
    }
}

/// The capacity of a cargo: the demand rule's own, else the storage rule's,
/// else the default.
pub open spec fn demand_capacity<F>(
    demand: Option<DemandConfigView<F>>,
    rule: Option<StorageConfigView>,
    default_max_storage: Option<Capacity>,
) -> Option<Capacity> {
    match demand {
        Some(d) => capacity_or(d.max_storage, storage_capacity(rule, default_max_storage)),
        None => storage_capacity(rule, default_max_storage),
    }
}

/// Capacity precedence, for one cargo with a demand rule and a storage
/// rule: the demand rule's capacity wins over the storage rule's, which wins
/// over the default.
pub proof fn lemma_capacity_precedence<F>(
    demand: DemandConfigView<F>,
    rule: StorageConfigView,
    default_max_storage: Option<Capacity>,
)
    ensures
        demand.max_storage is Some ==> demand_capacity(
            Some(demand),
            Some(rule),
            default_max_storage,
        ) == demand.max_storage,
        demand.max_storage is None && rule.max_storage is Some ==> demand_capacity(
            Some(demand),
            Some(rule),
            default_max_storage,
        ) == rule.max_storage,
        demand.max_storage is None && rule.max_storage is None ==> demand_capacity(
            Some(demand),
            Some(rule),
            default_max_storage,
        ) == default_max_storage,
{
}

/// The capacity of a storage rule, else the default.
pub fn map_max_storage(
    storage_config: Option<&StorageConfig>,
    default_max_storage: Option<Capacity>,
) -> (r: Option<Capacity>)
    ensures
        r == storage_capacity(storage_view(storage_config), default_max_storage),
{
    match storage_config {
        Some(config) => match config.max_storage {
            Some(max_storage) => Some(max_storage),
            None => default_max_storage,
        },
        None => default_max_storage,
    }
}

/// The capacity of a cargo by precedence: demand rule, storage rule, default.
pub fn map_max_storage_demand_config<F>(
    demand_config: Option<&output_type::DemandConfig<F>>,
    storage_config: Option<&StorageConfig>,
    default_max_storage: Option<Capacity>,
) -> (r: Option<Capacity>)
    ensures
        r == demand_capacity(
            demand_view(demand_config),
            storage_view(storage_config),
            default_max_storage,
        ),
{
    let others_max_storage = map_max_storage(storage_config, default_max_storage);
    match demand_config {
        Some(config) => match config.max_storage {
            Some(max_storage) => Some(max_storage),
            None => others_max_storage,
        },
        None => others_max_storage,
    }
}

/// Whether a storage rule has the key and the type that are asked for; what
/// is not asked for matches anything.
pub open spec fn storage_matches(
    rule: StorageConfigView,
    cargo_key: Option<Seq<char>>,
    cargo_type: Option<Seq<char>>,
) -> bool {
    &&& cargo_key matches Some(k) ==> rule.cargo_key == k
    &&& cargo_type matches Some(t) ==> rule.cargo_type == t
}

/// The first storage rule that matches.
pub open spec fn first_storage(
    rules: Seq<StorageConfigView>,
    cargo_key: Option<Seq<char>>,
    cargo_type: Option<Seq<char>>,
) -> Option<StorageConfigView>
    decreases rules.len(),
{
    if rules.len() == 0 {
        None
    } else if storage_matches(rules[0], cargo_key, cargo_type) {
        Some(rules[0])
    } else {
        first_storage(rules.drop_first(), cargo_key, cargo_type)
    }
}

/// Rules that do not match can be skipped.
pub proof fn lemma_first_storage_skip(
    rules: Seq<StorageConfigView>,
    cargo_key: Option<Seq<char>>,
    cargo_type: Option<Seq<char>>,
    n: int,
)
    requires
        0 <= n <= rules.len(),
        forall|j: int| 0 <= j < n ==> !storage_matches(#[trigger] rules[j], cargo_key, cargo_type),
    ensures
        first_storage(rules, cargo_key, cargo_type) == first_storage(
            rules.skip(n),
            cargo_key,
            cargo_type,
        ),
    decreases n,
{
    if n == 0 {
        assert(rules.skip(0) == rules);
    } else {
        let rest = rules.drop_first();
        assert(!storage_matches(rules[0], cargo_key, cargo_type));
        assert forall|j: int| 0 <= j < n - 1 implies !storage_matches(
            #[trigger] rest[j],
            cargo_key,
            cargo_type,
        ) by {
            assert(rest[j] == rules[j + 1]);
        }
        lemma_first_storage_skip(rest, cargo_key, cargo_type, n - 1);
        assert(rest.skip(n - 1) == rules.skip(n));
    }
}

/// Finds the first storage rule with the given key and type; `None` for
/// either asks for nothing.
pub fn find_storage<'a>(
    storage_configs: &'a Vec<StorageConfig>,
    cargo_key: Option<&str>,
    cargo_type: Option<&str>,
) -> (r: Option<&'a StorageConfig>)
    ensures
        storage_view(r) == first_storage(
            storage_configs.deep_view(),
            text_view(cargo_key),
            text_view(cargo_type),
        ),
{
    let ghost rules = storage_configs.deep_view();
    let mut i: usize = 0;
    while i < storage_configs.len()
        invariant
            i <= storage_configs.len(),
            rules == storage_configs.deep_view(),
            forall|j: int|
                0 <= j < i ==> !storage_matches(
                    #[trigger] rules[j],
                    text_view(cargo_key),
                    text_view(cargo_type),
                ),
        decreases storage_configs.len() - i,
    {
        let rule = &storage_configs[i];
        let key_ok = match cargo_key {
            Some(k) => *rule.cargo_key.as_str() == *k,
            None => true,
        };
        let type_ok = match cargo_type {
            Some(t) => *rule.cargo_type.as_str() == *t,
            None => true,
        };
        proof {
            assert(rules[i as int] == rule.deep_view());
        }
        if key_ok && type_ok {
            proof {
                lemma_first_storage_skip(
                    rules,
                    text_view(cargo_key),
                    text_view(cargo_type),
                    i as int,
                );
                assert(rules.skip(i as int)[0] == rules[i as int]);
            }
            return Some(rule);
        }
        i += 1;
    }
    proof {
        lemma_first_storage_skip(
            rules,
            text_view(cargo_key),
            text_view(cargo_type),
            rules.len() as int,
        );
    }
    None
}

/// The key that stands for "no key" in a rule.
pub open spec fn no_key() -> Seq<char> {
    "None"@
}

/// The type that stands for "no type" in a rule.
pub open spec fn no_type() -> Seq<char> {
    "EDeliveryCargoType::None"@
}

/// A key or type of a rule, with the sentinel turned into `None`.
pub open spec fn normalized(text: Seq<char>, sentinel: Seq<char>) -> Option<Seq<char>> {
    if text == sentinel {
        None
    } else {
        Some(text)
    }
}

/// The demand rules that an object declares; none where it has no
/// attributes or no such list.
pub open spec fn demand_rules<F>(obj: UObject<F>) -> Seq<DemandConfig<F>> {
    match obj.properties {
        Some(p) => match p.demand_configs {
            Some(list) => list@,
            None => Seq::empty(),
        },
        None => Seq::empty(),
    }
}

/// The rules of an optional object; none where there is no object.
pub open spec fn template_demand_rules<F>(obj: Option<&UObject<F>>) -> Seq<DemandConfig<F>> {
    match obj {
        Some(o) => demand_rules(*o),
        None => Seq::empty(),
    }
}

/// The demand rules in force for an entity: the first non-empty list of the
/// instance, the type default and the template.
pub open spec fn selected_demand_rules<F>(
    world_obj: UObject<F>,
    main_obj: UObject<F>,
    template_obj: Option<&UObject<F>>,
) -> Seq<DemandConfig<F>> {
    first_non_empty(
        seq![demand_rules(world_obj), demand_rules(main_obj), template_demand_rules(template_obj)],
    )
}

/// One demand rule, resolved: sentinels normalised, and the capacity its
/// own or else that of the storage rule with the same key and type, or else
/// the default.
pub open spec fn resolved_demand<F>(
    rule: DemandConfig<F>,
    storage: Seq<StorageConfigView>,
    default_max_storage: Option<Capacity>,
) -> DemandConfigView<F> {
    DemandConfigView {
        cargo_type: normalized(rule.cargo_type@, no_type()),
        cargo_key: normalized(rule.cargo_key@, no_key()),
        max_storage: capacity_or(
            rule.max_storage,
            storage_capacity(
                first_storage(storage, Some(rule.cargo_key@), Some(rule.cargo_type@)),
                default_max_storage,
            ),
        ),
        payment_multiplier: rule.payment_multiplier,
    }
}

/// Every demand rule of a list, resolved, in the order of the list.
pub open spec fn resolved_demands<F>(
    rules: Seq<DemandConfig<F>>,
    storage: Seq<StorageConfigView>,
    default_max_storage: Option<Capacity>,
) -> Seq<DemandConfigView<F>> {
    Seq::new(rules.len(), |i: int| resolved_demand(rules[i], storage, default_max_storage))
}

/// The demand rules that an object declares, where it declares any list.
pub fn extract_demand_configs<F>(obj: &UObject<F>) -> (r: Option<&Vec<DemandConfig<F>>>)
    ensures
        match r {
            Some(list) => list@ == demand_rules(*obj),
            None => demand_rules(*obj) == Seq::<DemandConfig<F>>::empty(),
        },
{
    match &obj.properties {
        Some(p) => match &p.demand_configs {
            Some(list) => Some(list),
            None => None,
        },
        None => None,
    }
}

fn normalize(text: &String, sentinel: &str) -> (r: Option<String>)
    ensures
        r.deep_view() == normalized(text@, sentinel@),
{
    if *text.as_str() == *sentinel {
        None
    } else {
        Some(copy_text(text.as_str()))
    }
}

/// Resolves the demand rules of an entity against its storage rules.
pub fn map_demand_configs<F: Copy>(
    world_obj: &UObject<F>,
    main_obj: &UObject<F>,
    template_obj: Option<&UObject<F>>,
    storage_configs: &Vec<StorageConfig>,
    default_max_storage: Option<Capacity>,
) -> (r: Vec<output_type::DemandConfig<F>>)
    ensures
        r.deep_view() == resolved_demands(
            selected_demand_rules(*world_obj, *main_obj, template_obj),
            storage_configs.deep_view(),
            default_max_storage,
        ),
{
    let empty: Vec<DemandConfig<F>> = Vec::new();
    let of_world = match extract_demand_configs(world_obj) {
        Some(list) => list,
        None => &empty,
    };
    let of_main = match extract_demand_configs(main_obj) {
        Some(list) => list,
        None => &empty,
    };
    let of_template = match template_obj {
        Some(obj) => match extract_demand_configs(obj) {
            Some(list) => list,
            None => &empty,
        },
        None => &empty,
    };
    let rules = match resolve_list(of_world, of_main, of_template) {
        Some(list) => list,
        None => &empty,
    };
    let ghost selected = selected_demand_rules(*world_obj, *main_obj, template_obj);
    let ghost storage = storage_configs.deep_view();
    assert(rules@ == selected);
    let mut out: Vec<output_type::DemandConfig<F>> = Vec::new();
    let mut i: usize = 0;
    while i < rules.len()
        invariant
            i <= rules.len(),
            rules@ == selected,
            storage == storage_configs.deep_view(),
            out@.len() == i,
            forall|j: int|
                0 <= j < i ==> (#[trigger] out@[j]).deep_view() == resolved_demand(
                    selected[j],
                    storage,
                    default_max_storage,
                ),
        decreases rules.len() - i,
    {
        let config = &rules[i];
        let matching = find_storage(
            storage_configs,
            Some(config.cargo_key.as_str()),
            Some(config.cargo_type.as_str()),
        );
        let max_storage = map_max_storage(matching, default_max_storage);
        let resolved = output_type::DemandConfig {
            cargo_key: normalize(&config.cargo_key, "None"),
            cargo_type: normalize(&config.cargo_type, "EDeliveryCargoType::None"),
            max_storage: match config.max_storage {
                Some(own) => Some(own),
                None => max_storage,
            },
            payment_multiplier: config.payment_multiplier,
        };
        out.push(resolved);
        i += 1;
    }
    proof {
        assert(out.deep_view() =~= resolved_demands(selected, storage, default_max_storage));
    }
    out
}

/// Whether a resolved demand rule is about the cargo named `name`, by type
/// or by key.
pub open spec fn demand_matches<F>(rule: DemandConfigView<F>, by_type: bool, name: Seq<char>) -> bool {
    if by_type {
        rule.cargo_type == Some(name)
    } else {
        rule.cargo_key == Some(name)
    }
}

/// The first resolved demand rule about the cargo named `name`.
pub open spec fn first_demand<F>(
    rules: Seq<DemandConfigView<F>>,
    by_type: bool,
    name: Seq<char>,
) -> Option<DemandConfigView<F>>
    decreases rules.len(),
{
    if rules.len() == 0 {
        None
    } else if demand_matches(rules[0], by_type, name) {
        Some(rules[0])
    } else {
        first_demand(rules.drop_first(), by_type, name)
    }
}

/// Demand rules that do not match can be skipped.
pub proof fn lemma_first_demand_skip<F>(
    rules: Seq<DemandConfigView<F>>,
    by_type: bool,
    name: Seq<char>,
    n: int,
)
    requires
        0 <= n <= rules.len(),
        forall|j: int| 0 <= j < n ==> !demand_matches(#[trigger] rules[j], by_type, name),
    ensures
        first_demand(rules, by_type, name) == first_demand(rules.skip(n), by_type, name),
    decreases n,
{
    if n == 0 {
        assert(rules.skip(0) == rules);
    } else {
        let rest = rules.drop_first();
        assert(!demand_matches(rules[0], by_type, name));
        assert forall|j: int| 0 <= j < n - 1 implies !demand_matches(
            #[trigger] rest[j],
            by_type,
            name,
        ) by {
            assert(rest[j] == rules[j + 1]);
        }
        lemma_first_demand_skip(rest, by_type, name, n - 1);
        assert(rest.skip(n - 1) == rules.skip(n));
    }
}

/// Finds the first resolved demand rule about the cargo named `name`.
pub fn find_demand<'a, F>(
    demand_configs: &'a Vec<output_type::DemandConfig<F>>,
    by_type: bool,
    name: &str,
) -> (r: Option<&'a output_type::DemandConfig<F>>)
    ensures
        demand_view(r) == first_demand(demand_configs.deep_view(), by_type, name@),
{
    let ghost rules = demand_configs.deep_view();
    let mut i: usize = 0;
    while i < demand_configs.len()
        invariant
            i <= demand_configs.len(),
            rules == demand_configs.deep_view(),
            forall|j: int| 0 <= j < i ==> !demand_matches(#[trigger] rules[j], by_type, name@),
        decreases demand_configs.len() - i,
    {
        let rule = &demand_configs[i];
        let field = if by_type {
            &rule.cargo_type
        } else {
            &rule.cargo_key
        };
        let hit = match field {
            Some(text) => *text.as_str() == *name,
            None => false,
        };
        proof {
            assert(rules[i as int] == rule.deep_view());
        }
        if hit {
            proof {
                lemma_first_demand_skip(rules, by_type, name@, i as int);
                assert(rules.skip(i as int)[0] == rules[i as int]);
            }
            return Some(rule);
        }
        i += 1;
    }
    proof {
        lemma_first_demand_skip(rules, by_type, name@, rules.len() as int);
    }
    None
}

/// The capacity of the cargo named `name`: that of the first demand rule
/// about it, else that of the first storage rule about it, else the default.
pub open spec fn cargo_capacity<F>(
    name: Seq<char>,
    by_type: bool,
    demands: Seq<DemandConfigView<F>>,
    storage: Seq<StorageConfigView>,
    default_max_storage: Option<Capacity>,
) -> Option<Capacity> {
    demand_capacity(
        first_demand(demands, by_type, name),
        if by_type {
            first_storage(storage, None, Some(name))
        } else {
            first_storage(storage, Some(name), None)
        },
        default_max_storage,
    )
}

/// One cargo of a production rule with its capacity.
pub open spec fn resolved_cargo<F>(
    cargo: CargoKeyAndAmountValue,
    by_type: bool,
    demands: Seq<DemandConfigView<F>>,
    storage: Seq<StorageConfigView>,
    default_max_storage: Option<Capacity>,
) -> ProductionCargoView {
    ProductionCargoView {
        cargo_type: if by_type {
            Some(cargo.key@)
        } else {
            None
        },
        cargo_key: if by_type {
            None
        } else {
            Some(cargo.key@)
        },
        value: cargo.value,
        max_storage: cargo_capacity(cargo.key@, by_type, demands, storage, default_max_storage),
    }
}

/// The cargos of one side of a production rule: those named by key, then
/// those named by type.
pub open spec fn resolved_cargos<F>(
    by_key: Seq<CargoKeyAndAmountValue>,
    by_type: Seq<CargoKeyAndAmountValue>,
    demands: Seq<DemandConfigView<F>>,
    storage: Seq<StorageConfigView>,
    default_max_storage: Option<Capacity>,
) -> Seq<ProductionCargoView> {
    Seq::new(
        by_key.len(),
        |i: int| resolved_cargo(by_key[i], false, demands, storage, default_max_storage),
    ) + Seq::new(
        by_type.len(),
        |i: int| resolved_cargo(by_type[i], true, demands, storage, default_max_storage),
    )
}

/// The name under which a cargo is recorded: its key, else its type.
pub open spec fn cargo_name(cargo_key: Option<Seq<char>>, cargo_type: Option<Seq<char>>) -> Option<
    Seq<char>,
> {
    if cargo_key is Some {
        cargo_key
    } else {
        cargo_type
    }
}

/// First writer wins: a capacity is recorded under a name only where the
/// name has none yet and the capacity is set.
pub open spec fn record_first(
    recorded: Map<Seq<char>, Option<Capacity>>,
    name: Option<Seq<char>>,
    capacity: Option<Capacity>,
) -> Map<Seq<char>, Option<Capacity>> {
    match name {
        Some(n) => if !recorded.contains_key(n) && capacity is Some {
            recorded.insert(n, capacity)
        } else {
            recorded
        },
        None => recorded,
    }
}

/// The record after the cargos have been offered to it, in order.
pub open spec fn recorded_cargos(
    recorded: Map<Seq<char>, Option<Capacity>>,
    cargos: Seq<ProductionCargoView>,
) -> Map<Seq<char>, Option<Capacity>>
    decreases cargos.len(),
{
    if cargos.len() == 0 {
        recorded
    } else {
        let c = cargos.last();
        record_first(
            recorded_cargos(recorded, cargos.drop_last()),
            cargo_name(c.cargo_key, c.cargo_type),
            c.max_storage,
        )
    }
}

/// The record after the resolved demand rules have been offered to it, in
/// order.
pub open spec fn recorded_demands<F>(
    recorded: Map<Seq<char>, Option<Capacity>>,
    demands: Seq<DemandConfigView<F>>,
) -> Map<Seq<char>, Option<Capacity>>
    decreases demands.len(),
{
    if demands.len() == 0 {
        recorded
    } else {
        let d = demands.last();
        record_first(
            recorded_demands(recorded, demands.drop_last()),
            cargo_name(d.cargo_key, d.cargo_type),
            d.max_storage,
        )
    }
}

/// The amounts by cargo name; for a name that occurs twice the later amount
/// stays. A cargo without key and type is dropped.
pub open spec fn amounts(cargos: Seq<ProductionCargoView>) -> Map<Seq<char>, i64>
    decreases cargos.len(),
{
    if cargos.len() == 0 {
        Map::empty()
    } else {
        let c = cargos.last();
        let rest = amounts(cargos.drop_last());
        match cargo_name(c.cargo_key, c.cargo_type) {
            Some(n) => rest.insert(n, c.value),
            None => rest,
        }
    }
}

/// The cargos that go into a production rule, with their capacities.
pub open spec fn input_cargos_of<F>(
    rule: ProductionConfig<F>,
    demands: Seq<DemandConfigView<F>>,
    storage: Seq<StorageConfigView>,
    default_max_storage: Option<Capacity>,
) -> Seq<ProductionCargoView> {
    resolved_cargos(
        rule.input_cargos@,
        rule.input_cargo_types@,
        demands,
        storage,
        default_max_storage,
    )
}

/// The cargos that come out of a production rule, with their capacities.
pub open spec fn output_cargos_of<F>(
    rule: ProductionConfig<F>,
    demands: Seq<DemandConfigView<F>>,
    storage: Seq<StorageConfigView>,
    default_max_storage: Option<Capacity>,
) -> Seq<ProductionCargoView> {
    resolved_cargos(
        rule.output_cargos@,
        rule.output_cargo_types@,
        demands,
        storage,
        default_max_storage,
    )
}

/// One production rule, resolved to amounts by cargo name.
pub open spec fn resolved_production<F>(
    rule: ProductionConfig<F>,
    demands: Seq<DemandConfigView<F>>,
    storage: Seq<StorageConfigView>,
    default_max_storage: Option<Capacity>,
) -> ProductionConfigView<F> {
    ProductionConfigView {
        input_cargos: amounts(input_cargos_of(rule, demands, storage, default_max_storage)),
        output_cargos: amounts(output_cargos_of(rule, demands, storage, default_max_storage)),
        production_time_seconds: rule.production_time_seconds,
        production_speed_multiplier: rule.production_speed_multiplier,
        local_food_supply: rule.local_food_supply,
    }
}

/// Every production rule of a list, resolved, in the order of the list.
pub open spec fn resolved_productions<F>(
    rules: Seq<ProductionConfig<F>>,
    demands: Seq<DemandConfigView<F>>,
    storage: Seq<StorageConfigView>,
    default_max_storage: Option<Capacity>,
) -> Seq<ProductionConfigView<F>> {
    Seq::new(
        rules.len(),
        |i: int| resolved_production(rules[i], demands, storage, default_max_storage),
    )
}

/// The capacities by cargo name after every production rule has offered its
/// cargos: rule by rule, what goes in before what comes out.
pub open spec fn storage_by_key<F>(
    rules: Seq<ProductionConfig<F>>,
    demands: Seq<DemandConfigView<F>>,
    storage: Seq<StorageConfigView>,
    default_max_storage: Option<Capacity>,
) -> Map<Seq<char>, Option<Capacity>>
    decreases rules.len(),
{
    if rules.len() == 0 {
        Map::empty()
    } else {
        let before = storage_by_key(rules.drop_last(), demands, storage, default_max_storage);
        recorded_cargos(
            recorded_cargos(
                before,
                input_cargos_of(rules.last(), demands, storage, default_max_storage),
            ),
            output_cargos_of(rules.last(), demands, storage, default_max_storage),
        )
    }
}

/// The production rules that an object declares.
pub open spec fn production_rules<F>(obj: UObject<F>) -> Seq<ProductionConfig<F>> {
    match obj.properties {
        Some(p) => p.production_configs@,
        None => Seq::empty(),
    }
}

/// The production rules in force for an entity: the first non-empty list of
/// the instance, the type default and the template. An object that is asked
/// and has no attribute bag is a schema gap.
pub open spec fn selected_production_rules<F>(
    world_obj: UObject<F>,
    main_obj: UObject<F>,
    template_obj: Option<&UObject<F>>,
) -> Result<Seq<ProductionConfig<F>>, ResolveError> {
    if world_obj.properties is None {
        Err(ResolveError::SchemaGapError)
    } else if production_rules(world_obj).len() > 0 {
        Ok(production_rules(world_obj))
    } else if main_obj.properties is None {
        Err(ResolveError::SchemaGapError)
    } else if production_rules(main_obj).len() > 0 {
        Ok(production_rules(main_obj))
    } else {
        match template_obj {
            Some(t) => if t.properties is None {
                Err(ResolveError::SchemaGapError)
            } else {
                Ok(production_rules(*t))
            },
            None => Ok(Seq::empty()),
        }
    }
}

/// Override precedence for production rules: where the instance declares
/// rules, they are in force, whatever the type default and the template hold.
pub proof fn lemma_instance_production_overrides<F>(
    world_obj: UObject<F>,
    main_obj: UObject<F>,
    template_obj: Option<&UObject<F>>,
)
    requires
        production_rules(world_obj).len() > 0,
    ensures
        selected_production_rules(world_obj, main_obj, template_obj) == Ok::<
            Seq<ProductionConfig<F>>,
            ResolveError,
        >(production_rules(world_obj)),
{
}

/// Where the instance and the type default declare no production rules,
/// those of the template are in force.
pub proof fn lemma_template_production_is_last_resort<F>(
    world_obj: UObject<F>,
    main_obj: UObject<F>,
    template_obj: UObject<F>,
)
    requires
        world_obj.properties is Some,
        main_obj.properties is Some,
        template_obj.properties is Some,
        production_rules(world_obj).len() == 0,
        production_rules(main_obj).len() == 0,
    ensures
        selected_production_rules(world_obj, main_obj, Some(&template_obj)) == Ok::<
            Seq<ProductionConfig<F>>,
            ResolveError,
        >(production_rules(template_obj)),
{
}

/// Where no object lacks its attribute bag, the selection is the three-level
/// cascade over the lists of production rules.
pub proof fn lemma_selected_production_is_cascade<F>(
    world_obj: UObject<F>,
    main_obj: UObject<F>,
    template_obj: UObject<F>,
)
    requires
        world_obj.properties is Some,
        main_obj.properties is Some,
        template_obj.properties is Some,
    ensures
        selected_production_rules(world_obj, main_obj, Some(&template_obj)) == Ok::<
            Seq<ProductionConfig<F>>,
            ResolveError,
        >(
            first_non_empty(
                seq![
                    production_rules(world_obj),
                    production_rules(main_obj),
                    production_rules(template_obj),
                ],
            ),
        ),
{
    crate::cascade::lemma_three_lists(
        production_rules(world_obj),
        production_rules(main_obj),
        production_rules(template_obj),
    );
}

/// The production rules that an object declares; a schema gap where it has
/// no attribute bag.
pub fn extract_production_configs<F>(obj: &UObject<F>) -> (r: Result<
    &Vec<ProductionConfig<F>>,
    ResolveError,
>)
    ensures
        match r {
            Ok(list) => obj.properties is Some && list@ == production_rules(*obj),
            Err(e) => obj.properties is None && e == ResolveError::SchemaGapError,
        },
{
    match &obj.properties {
        Some(p) => Ok(&p.production_configs),
        None => Err(ResolveError::SchemaGapError),
    }
}

/// Resolves one cargo of a production rule.
pub fn map_production_cargo<F>(
    cargo: &CargoKeyAndAmountValue,
    by_type: bool,
    storage_configs: &Vec<StorageConfig>,
    demand_configs: &Vec<output_type::DemandConfig<F>>,
    default_max_storage: Option<Capacity>,
) -> (r: ProductionCargo)
    ensures
        r.deep_view() == resolved_cargo(
            *cargo,
            by_type,
            demand_configs.deep_view(),
            storage_configs.deep_view(),
            default_max_storage,
        ),
{
    let name = cargo.key.as_str();
    let demand = find_demand(demand_configs, by_type, name);
    let rule = if by_type {
        find_storage(storage_configs, None, Some(name))
    } else {
        find_storage(storage_configs, Some(name), None)
    };
    let max_storage = map_max_storage_demand_config(demand, rule, default_max_storage);
    if by_type {
        ProductionCargo {
            cargo_type: Some(copy_text(name)),
            cargo_key: None,
            value: cargo.value,
            max_storage,
        }
    } else {
        ProductionCargo {
            cargo_type: None,
            cargo_key: Some(copy_text(name)),
            value: cargo.value,
            max_storage,
        }
    }
}

/// Resolves the cargos of one side of a production rule: those named by
/// key, then those named by type.
pub fn map_production_cargos<F>(
    by_key: &Vec<CargoKeyAndAmountValue>,
    by_type: &Vec<CargoKeyAndAmountValue>,
    storage_configs: &Vec<StorageConfig>,
    demand_configs: &Vec<output_type::DemandConfig<F>>,
    default_max_storage: Option<Capacity>,
) -> (r: Vec<ProductionCargo>)
    ensures
        r.deep_view() == resolved_cargos(
            by_key@,
            by_type@,
            demand_configs.deep_view(),
            storage_configs.deep_view(),
            default_max_storage,
        ),
{
    let ghost demands = demand_configs.deep_view();
    let ghost storage = storage_configs.deep_view();
    let mut out: Vec<ProductionCargo> = Vec::new();
    let mut i: usize = 0;
    while i < by_key.len()
        invariant
            i <= by_key.len(),
            demands == demand_configs.deep_view(),
            storage == storage_configs.deep_view(),
            out@.len() == i,
            forall|j: int|
                0 <= j < i ==> (#[trigger] out@[j]).deep_view() == resolved_cargo(
                    by_key@[j],
                    false,
                    demands,
                    storage,
                    default_max_storage,
                ),
        decreases by_key.len() - i,
    {
        let cargo = map_production_cargo(
            &by_key[i],
            false,
            storage_configs,
            demand_configs,
            default_max_storage,
        );
        out.push(cargo);
        i += 1;
    }
    let mut k: usize = 0;
    while k < by_type.len()
        invariant
            k <= by_type.len(),
            demands == demand_configs.deep_view(),
            storage == storage_configs.deep_view(),
            out@.len() == by_key.len() + k,
            forall|j: int|
                0 <= j < by_key.len() ==> (#[trigger] out@[j]).deep_view() == resolved_cargo(
                    by_key@[j],
                    false,
                    demands,
                    storage,
                    default_max_storage,
                ),
            forall|j: int|
                0 <= j < k ==> (#[trigger] out@[by_key.len() + j]).deep_view() == resolved_cargo(
                    by_type@[j],
                    true,
                    demands,
                    storage,
                    default_max_storage,
                ),
        decreases by_type.len() - k,
    {
        let cargo = map_production_cargo(
            &by_type[k],
            true,
            storage_configs,
            demand_configs,
            default_max_storage,
        );
        out.push(cargo);
        k += 1;
    }
    proof {
        let want = resolved_cargos(by_key@, by_type@, demands, storage, default_max_storage);
        assert(out.deep_view().len() == want.len());
        assert forall|j: int| 0 <= j < want.len() implies out.deep_view()[j] == want[j] by {
            if j >= by_key.len() {
                assert(out@[by_key.len() + (j - by_key.len())].deep_view() == want[j]);
            }
        }
        assert(out.deep_view() =~= want);
    }
    out
}

/// Offers the cargos to the record, in order; the first capacity recorded
/// for a name stays.
pub fn record_cargos(storage: &mut CargoMap<Option<Capacity>>, cargos: &Vec<ProductionCargo>)
    ensures
        final(storage)@ == recorded_cargos(old(storage)@, cargos.deep_view()),
{
    let ghost all = cargos.deep_view();
    let mut i: usize = 0;
    proof {
        assert(all.take(0).len() == 0);
    }
    while i < cargos.len()
        invariant
            i <= cargos.len(),
            all == cargos.deep_view(),
            storage@ == recorded_cargos(old(storage)@, all.take(i as int)),
        decreases cargos.len() - i,
    {
        let cargo = &cargos[i];
        proof {
            assert(all.take(i + 1).drop_last() == all.take(i as int));
            assert(all.take(i + 1).last() == cargo.deep_view());
        }
        let name = match &cargo.cargo_key {
            Some(key) => Some(key),
            None => match &cargo.cargo_type {
                Some(ty) => Some(ty),
                None => None,
            },
        };
        if let Some(n) = name {
            if !storage.contains_key(n.as_str()) && cargo.max_storage.is_some() {
                storage.insert(copy_text(n.as_str()), cargo.max_storage);
            }
        }
        i += 1;
    }
    proof {
        assert(all.take(all.len() as int) == all);
    }
}

/// The amounts of the cargos by name.
pub fn cargo_amounts(cargos: &Vec<ProductionCargo>) -> (r: CargoMap<i64>)
    ensures
        r@ == amounts(cargos.deep_view()),
{
    let ghost all = cargos.deep_view();
    let mut out: CargoMap<i64> = CargoMap::new();
    let mut i: usize = 0;
    proof {
        assert(all.take(0).len() == 0);
    }
    while i < cargos.len()
        invariant
            i <= cargos.len(),
            all == cargos.deep_view(),
            out@ == amounts(all.take(i as int)),
        decreases cargos.len() - i,
    {
        let cargo = &cargos[i];
        proof {
            assert(all.take(i + 1).drop_last() == all.take(i as int));
            assert(all.take(i + 1).last() == cargo.deep_view());
        }
        let name = match &cargo.cargo_key {
            Some(key) => Some(key),
            None => match &cargo.cargo_type {
                Some(ty) => Some(ty),
                None => None,
            },
        };
        if let Some(n) = name {
            out.insert(copy_text(n.as_str()), cargo.value);
        }
        i += 1;
    }
    proof {
        assert(all.take(all.len() as int) == all);
    }
    out
}

/// Resolves the production rules of an entity: the amounts by cargo name of
/// every rule, and the capacities by cargo name over all rules.
pub fn map_production_configs<F: Copy>(
    world_obj: &UObject<F>,
    main_obj: &UObject<F>,
    template_obj: Option<&UObject<F>>,
    storage_configs: &Vec<StorageConfig>,
    demand_configs: &Vec<output_type::DemandConfig<F>>,
    default_max_storage: Option<Capacity>,
) -> (r: Result<
    (Vec<output_type::ProductionConfig<F>>, CargoMap<Option<Capacity>>),
    ResolveError,
>)
    ensures
        match selected_production_rules(*world_obj, *main_obj, template_obj) {
            Ok(rules) => r matches Ok(pair) && pair.0.deep_view() == resolved_productions(
                rules,
                demand_configs.deep_view(),
                storage_configs.deep_view(),
                default_max_storage,
            ) && pair.1@ == storage_by_key(
                rules,
                demand_configs.deep_view(),
                storage_configs.deep_view(),
                default_max_storage,
            ),
            Err(e) => r == Err::<
                (Vec<output_type::ProductionConfig<F>>, CargoMap<Option<Capacity>>),
                ResolveError,
            >(e),
        },
{
    let empty: Vec<ProductionConfig<F>> = Vec::new();
    let of_world = match extract_production_configs(world_obj) {
        Ok(list) => list,
        Err(e) => {
            return Err(e);
        },
    };
    let rules = if of_world.len() > 0 {
        of_world
    } else {
        let of_main = match extract_production_configs(main_obj) {
            Ok(list) => list,
            Err(e) => {
                return Err(e);
            },
        };
        if of_main.len() > 0 {
            of_main
        } else {
            match template_obj {
                Some(obj) => match extract_production_configs(obj) {
                    Ok(list) => list,
                    Err(e) => {
                        return Err(e);
                    },
                },
                None => &empty,
            }
        }
    };
    let ghost demands = demand_configs.deep_view();
    let ghost rule_views = storage_configs.deep_view();
    assert(selected_production_rules(*world_obj, *main_obj, template_obj) == Ok::<
        Seq<ProductionConfig<F>>,
        ResolveError,
    >(rules@));
    let mut storage: CargoMap<Option<Capacity>> = CargoMap::new();
    let mut out: Vec<output_type::ProductionConfig<F>> = Vec::new();
    let mut i: usize = 0;
    proof {
        assert(rules@.take(0).len() == 0);
    }
    while i < rules.len()
        invariant
            i <= rules.len(),
            demands == demand_configs.deep_view(),
            rule_views == storage_configs.deep_view(),
            out@.len() == i,
            forall|j: int|
                0 <= j < i ==> (#[trigger] out@[j]).deep_view() == resolved_production(
                    rules@[j],
                    demands,
                    rule_views,
                    default_max_storage,
                ),
            storage@ == storage_by_key(
                rules@.take(i as int),
                demands,
                rule_views,
                default_max_storage,
            ),
        decreases rules.len() - i,
    {
        let config = &rules[i];
        proof {
            assert(rules@.take(i + 1).drop_last() == rules@.take(i as int));
            assert(rules@.take(i + 1).last() == *config);
        }
        let input_cargos = map_production_cargos(
            &config.input_cargos,
            &config.input_cargo_types,
            storage_configs,
            demand_configs,
            default_max_storage,
        );
        let output_cargos = map_production_cargos(
            &config.output_cargos,
            &config.output_cargo_types,
            storage_configs,
            demand_configs,
            default_max_storage,
        );
        record_cargos(&mut storage, &input_cargos);
        record_cargos(&mut storage, &output_cargos);
        let resolved = output_type::ProductionConfig {
            input_cargos: cargo_amounts(&input_cargos),
            output_cargos: cargo_amounts(&output_cargos),
            production_time_seconds: config.production_time_seconds,
            production_speed_multiplier: config.production_speed_multiplier,
            local_food_supply: config.local_food_supply,
        };
        out.push(resolved);
        i += 1;
    }
    proof {
        assert(rules@.take(rules@.len() as int) == rules@);
        assert(out.deep_view() =~= resolved_productions(
            rules@,
            demands,
            rule_views,
            default_max_storage,
        ));
    }
    Ok((out, storage))
}

} // verus!
