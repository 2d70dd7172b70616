use motortown_extract::capacity::Capacity;
use motortown_extract::cargo_map::CargoMap;
use motortown_extract::error::ResolveError;
use motortown_extract::helper::{
    cargo_amounts, extract_demand_configs, extract_production_configs, find_demand, find_storage,
    map_demand_configs, map_max_storage, map_max_storage_demand_config, map_production_cargo,
    map_production_configs, record_cargos,
};
use motortown_extract::output_type;
use motortown_extract::ue_type::{
    CargoKeyAndAmountValue, DemandConfig, ProductionConfig, Properties, StorageConfig, UObject,
};

fn merge_cap(n: i64) -> Option<Capacity> {
    Capacity::new(n)
}

fn merge_storage(cargo_type: &str, cargo_key: &str, capacity: i64) -> StorageConfig {
    StorageConfig {
        cargo_type: cargo_type.to_string(),
        cargo_key: cargo_key.to_string(),
        max_storage: merge_cap(capacity),
    }
}

fn merge_demand(cargo_type: &str, cargo_key: &str, capacity: i64, pay: f64) -> DemandConfig<f64> {
    DemandConfig {
        cargo_type: cargo_type.to_string(),
        cargo_key: cargo_key.to_string(),
        payment_multiplier: pay,
        max_storage: merge_cap(capacity),
    }
}

fn merge_resolved(
    cargo_type: Option<&str>,
    cargo_key: Option<&str>,
    capacity: i64,
    pay: f64,
) -> output_type::DemandConfig<f64> {
    output_type::DemandConfig {
        cargo_type: cargo_type.map(|s| s.to_string()),
        cargo_key: cargo_key.map(|s| s.to_string()),
        max_storage: merge_cap(capacity),
        payment_multiplier: pay,
    }
}

fn merge_amount(key: &str, value: i64) -> CargoKeyAndAmountValue {
    CargoKeyAndAmountValue { key: key.to_string(), value }
}

fn merge_object(
    demands: Option<Vec<DemandConfig<f64>>>,
    productions: Vec<ProductionConfig<f64>>,
) -> UObject<f64> {
    UObject {
        properties: Some(Properties {
            demand_configs: demands,
            production_configs: productions,
            ..Default::default()
        }),
        ..Default::default()
    }
}

fn merge_bare_object() -> UObject<f64> {
    UObject { properties: None, ..Default::default() }
}

#[test]
fn storage_capacity_falls_back_to_the_default() {
    let with = merge_storage("T", "k", 30);
    let without = merge_storage("T", "k", 0);
    assert_eq!(map_max_storage(Some(&with), merge_cap(100)), merge_cap(30));
    assert_eq!(map_max_storage(Some(&without), merge_cap(100)), merge_cap(100));
    assert_eq!(map_max_storage(None, merge_cap(100)), merge_cap(100));
    assert_eq!(map_max_storage(Some(&without), None), None);
}

#[test]
fn demand_capacity_wins_over_storage_wins_over_default() {
    let storage = merge_storage("T", "wood", 20);
    let storage_unset = merge_storage("T", "wood", 0);
    let demand = merge_resolved(None, Some("wood"), 10, 1.0);
    let demand_unset = merge_resolved(None, Some("wood"), 0, 1.0);
    let default = merge_cap(30);
    assert_eq!(
        map_max_storage_demand_config(Some(&demand), Some(&storage), default),
        merge_cap(10)
    );
    assert_eq!(
        map_max_storage_demand_config(Some(&demand_unset), Some(&storage), default),
        merge_cap(20)
    );
    assert_eq!(
        map_max_storage_demand_config(Some(&demand_unset), Some(&storage_unset), default),
        merge_cap(30)
    );
    assert_eq!(
        map_max_storage_demand_config::<f64>(None, Some(&storage), default),
        merge_cap(20)
    );
    assert_eq!(map_max_storage_demand_config::<f64>(None, None, default), merge_cap(30));
    assert_eq!(map_max_storage_demand_config(Some(&demand), None, None), merge_cap(10));
}

#[test]
fn find_storage_returns_the_first_match() {
    let rules = vec![
        merge_storage("A", "x", 1),
        merge_storage("B", "x", 2),
        merge_storage("B", "y", 3),
    ];
    assert_eq!(find_storage(&rules, Some("x"), None), Some(&rules[0]));
    assert_eq!(find_storage(&rules, None, Some("B")), Some(&rules[1]));
    assert_eq!(find_storage(&rules, Some("y"), Some("B")), Some(&rules[2]));
    assert_eq!(find_storage(&rules, Some("y"), Some("A")), None);
    assert_eq!(find_storage(&rules, None, None), Some(&rules[0]));
    assert_eq!(find_storage(&Vec::new(), None, None), None);
}

#[test]
fn find_demand_matches_by_key_or_by_type() {
    let demands = vec![
        merge_resolved(Some("T"), None, 1, 1.0),
        merge_resolved(Some("T"), Some("k"), 2, 1.0),
        merge_resolved(None, Some("k"), 3, 1.0),
    ];
    assert_eq!(find_demand(&demands, false, "k"), Some(&demands[1]));
    assert_eq!(find_demand(&demands, true, "T"), Some(&demands[0]));
    assert_eq!(find_demand(&demands, true, "k"), None);
    assert_eq!(find_demand(&demands, false, "T"), None);
}

#[test]
fn demand_rules_are_normalised_and_given_capacities() {
    let world = merge_object(
        Some(vec![
            merge_demand("EDeliveryCargoType::None", "wood", 0, 1.5),
            merge_demand("EDeliveryCargoType::Food", "None", 7, 2.0),
            merge_demand("EDeliveryCargoType::Coal", "coal", 0, 0.5),
            merge_demand("EDeliveryCargoType::None", "None", 0, 3.0),
        ]),
        Vec::new(),
    );
    let main = merge_object(None, Vec::new());
    let storage = vec![
        merge_storage("EDeliveryCargoType::None", "coal", 11),
        merge_storage("EDeliveryCargoType::None", "wood", 40),
        merge_storage("EDeliveryCargoType::Food", "None", 99),
    ];
    let out = map_demand_configs(&world, &main, None, &storage, merge_cap(100));
    assert_eq!(
        out,
        vec![
            // Key and type match a storage rule.
            merge_resolved(None, Some("wood"), 40, 1.5),
            // The rule's own capacity wins over the storage rule.
            merge_resolved(Some("EDeliveryCargoType::Food"), None, 7, 2.0),
            // The storage rule for "coal" has another type: default.
            merge_resolved(Some("EDeliveryCargoType::Coal"), Some("coal"), 100, 0.5),
            merge_resolved(None, None, 100, 3.0),
        ]
    );
}

#[test]
fn demand_rules_cascade_over_three_levels() {
    let with = |key: &str| merge_object(Some(vec![merge_demand("T", key, 1, 1.0)]), Vec::new());
    let empty = merge_object(Some(Vec::new()), Vec::new());
    let none = merge_object(None, Vec::new());
    let storage: Vec<StorageConfig> = Vec::new();
    let key_of = |out: Vec<output_type::DemandConfig<f64>>| {
        out.first().and_then(|d| d.cargo_key.clone())
    };
    let w = with("world");
    let m = with("main");
    let t = with("template");
    assert_eq!(
        key_of(map_demand_configs(&w, &m, Some(&t), &storage, None)),
        Some("world".to_string())
    );
    assert_eq!(
        key_of(map_demand_configs(&empty, &m, Some(&t), &storage, None)),
        Some("main".to_string())
    );
    assert_eq!(
        key_of(map_demand_configs(&none, &empty, Some(&t), &storage, None)),
        Some("template".to_string())
    );
    assert_eq!(key_of(map_demand_configs(&none, &merge_bare_object(), None, &storage, None)), None);
    assert!(map_demand_configs(&empty, &none, Some(&empty), &storage, None).is_empty());
}

#[test]
fn demand_config_lists_are_read_as_declared() {
    let obj = merge_object(Some(vec![merge_demand("T", "k", 1, 1.0)]), Vec::new());
    assert_eq!(extract_demand_configs(&obj).map(|l| l.len()), Some(1));
    assert_eq!(extract_demand_configs(&merge_object(None, Vec::new())), None);
    assert_eq!(extract_demand_configs(&merge_bare_object()), None);
}

#[test]
fn production_cargo_takes_its_capacity_by_precedence() {
    let storage = vec![merge_storage("Wood", "plank", 20), merge_storage("Wood", "None", 25)];
    let demands = vec![
        merge_resolved(None, Some("plank"), 10, 1.0),
        merge_resolved(Some("Wood"), None, 0, 1.0),
    ];
    let by_key = map_production_cargo(&merge_amount("plank", 3), false, &storage, &demands, None);
    assert_eq!(
        by_key,
        output_type::ProductionCargo {
            cargo_type: None,
            cargo_key: Some("plank".to_string()),
            value: 3,
            max_storage: merge_cap(10),
        }
    );
    let by_type = map_production_cargo(&merge_amount("Wood", 4), true, &storage, &demands, None);
    assert_eq!(
        by_type,
        output_type::ProductionCargo {
            cargo_type: Some("Wood".to_string()),
            cargo_key: None,
            value: 4,
            // The demand rule has no capacity; the first storage rule of the type has.
            max_storage: merge_cap(20),
        }
    );
    let unknown =
        map_production_cargo(&merge_amount("nail", 1), false, &storage, &demands, merge_cap(5));
    assert_eq!(unknown.max_storage, merge_cap(5));
}

#[test]
fn first_recorded_capacity_stays() {
    let cargo = |key: &str, capacity: i64| output_type::ProductionCargo {
        cargo_type: None,
        cargo_key: Some(key.to_string()),
        value: 1,
        max_storage: merge_cap(capacity),
    };
    let mut storage: CargoMap<Option<Capacity>> = CargoMap::new();
    record_cargos(&mut storage, &vec![cargo("a", 1), cargo("b", 0), cargo("a", 2), cargo("b", 3)]);
    assert_eq!(storage.len(), 2);
    assert_eq!(storage.get("a"), Some(&merge_cap(1)));
    assert_eq!(storage.get("b"), Some(&merge_cap(3)));
}

#[test]
fn later_amount_for_the_same_cargo_stays() {
    let cargo = |key: Option<&str>, ty: Option<&str>, value: i64| output_type::ProductionCargo {
        cargo_type: ty.map(|s| s.to_string()),
        cargo_key: key.map(|s| s.to_string()),
        value,
        max_storage: None,
    };
    let amounts = cargo_amounts(&vec![
        cargo(Some("a"), None, 1),
        cargo(None, Some("T"), 2),
        cargo(Some("a"), Some("T"), 3),
        cargo(None, None, 4),
    ]);
    assert_eq!(amounts.len(), 2);
    assert_eq!(amounts.get("a"), Some(&3));
    assert_eq!(amounts.get("T"), Some(&2));
}

#[test]
fn production_rules_are_merged_per_entity() {
    let rule_one = ProductionConfig {
        input_cargos: vec![merge_amount("wood", 2)],
        input_cargo_types: vec![merge_amount("Food", 1)],
        output_cargos: vec![merge_amount("plank", 4)],
        output_cargo_types: Vec::new(),
        production_time_seconds: 12.5,
        production_speed_multiplier: 1.0,
        local_food_supply: 0.0,
        ..Default::default()
    };
    let rule_two = ProductionConfig {
        input_cargos: vec![merge_amount("plank", 1), merge_amount("nail", 9)],
        output_cargos: vec![merge_amount("chair", 1), merge_amount("wood", 5)],
        production_time_seconds: 3.0,
        production_speed_multiplier: 2.0,
        local_food_supply: 0.25,
        ..Default::default()
    };
    let world = merge_object(None, vec![rule_one, rule_two]);
    let main = merge_object(None, Vec::new());
    let storage = vec![merge_storage("T", "wood", 20), merge_storage("T", "plank", 0)];
    let demands = vec![
        merge_resolved(None, Some("plank"), 10, 1.0),
        merge_resolved(Some("Food"), None, 6, 1.0),
    ];
    let (configs, by_key) =
        map_production_configs(&world, &main, None, &storage, &demands, merge_cap(100)).unwrap();
    assert_eq!(configs.len(), 2);
    assert_eq!(configs[0].input_cargos.len(), 2);
    assert_eq!(configs[0].input_cargos.get("wood"), Some(&2));
    assert_eq!(configs[0].input_cargos.get("Food"), Some(&1));
    assert_eq!(configs[0].output_cargos.get("plank"), Some(&4));
    assert_eq!(configs[0].production_time_seconds, 12.5);
    assert_eq!(configs[1].input_cargos.get("nail"), Some(&9));
    assert_eq!(configs[1].output_cargos.get("wood"), Some(&5));
    assert_eq!(configs[1].production_speed_multiplier, 2.0);
    assert_eq!(configs[1].local_food_supply, 0.25);
    assert_eq!(by_key.len(), 5);
    assert_eq!(by_key.get("wood"), Some(&merge_cap(20)));
    assert_eq!(by_key.get("Food"), Some(&merge_cap(6)));
    assert_eq!(by_key.get("plank"), Some(&merge_cap(10)));
    assert_eq!(by_key.get("nail"), Some(&merge_cap(100)));
    assert_eq!(by_key.get("chair"), Some(&merge_cap(100)));
}

#[test]
fn cargo_without_any_capacity_is_not_recorded() {
    let rule = ProductionConfig {
        input_cargos: vec![merge_amount("wood", 2)],
        production_time_seconds: 1.0,
        production_speed_multiplier: 1.0,
        local_food_supply: 0.0,
        ..Default::default()
    };
    let world = merge_object(None, vec![rule]);
    let main = merge_object(None, Vec::new());
    let (configs, by_key) =
        map_production_configs(&world, &main, None, &Vec::new(), &Vec::new(), None).unwrap();
    assert_eq!(configs[0].input_cargos.get("wood"), Some(&2));
    assert!(by_key.is_empty());
}

#[test]
fn production_rules_cascade_over_three_levels() {
    let with = |key: &str| {
        merge_object(
            None,
            vec![ProductionConfig {
                input_cargos: vec![merge_amount(key, 1)],
                production_time_seconds: 1.0,
                production_speed_multiplier: 1.0,
                local_food_supply: 0.0,
                ..Default::default()
            }],
        )
    };
    let empty = merge_object(None, Vec::new());
    let run = |w: &UObject<f64>, m: &UObject<f64>, t: Option<&UObject<f64>>| {
        let (configs, _) =
            map_production_configs(w, m, t, &Vec::new(), &Vec::new(), None).unwrap();
        configs.first().map(|c| c.input_cargos.entry(0).0.clone())
    };
    assert_eq!(run(&with("w"), &with("m"), Some(&with("t"))), Some("w".to_string()));
    assert_eq!(run(&empty, &with("m"), Some(&with("t"))), Some("m".to_string()));
    assert_eq!(run(&empty, &empty, Some(&with("t"))), Some("t".to_string()));
    assert_eq!(run(&empty, &empty, None), None);
    // The type default is not asked where the instance has rules.
    assert_eq!(run(&with("w"), &merge_bare_object(), None), Some("w".to_string()));
}

#[test]
fn object_without_attribute_bag_is_a_schema_gap() {
    let bare = merge_bare_object();
    let empty = merge_object(None, Vec::new());
    assert_eq!(extract_production_configs(&bare), Err(ResolveError::SchemaGapError));
    assert_eq!(extract_production_configs(&empty).map(|l| l.len()), Ok(0));
    let run = |w: &UObject<f64>, m: &UObject<f64>, t: Option<&UObject<f64>>| {
        map_production_configs(w, m, t, &Vec::new(), &Vec::new(), None).map(|_| ())
    };
    assert_eq!(run(&bare, &empty, None), Err(ResolveError::SchemaGapError));
    assert_eq!(run(&empty, &bare, None), Err(ResolveError::SchemaGapError));
    assert_eq!(run(&empty, &empty, Some(&bare)), Err(ResolveError::SchemaGapError));
    assert_eq!(run(&empty, &empty, Some(&empty)), Ok(()));
}
