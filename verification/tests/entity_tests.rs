use motortown_extract::capacity::Capacity;
use motortown_extract::cargo_map::CargoMap;
use motortown_extract::bus_stop::{build_bus_stop, extract_bus_stop};
use motortown_extract::delivery_point::{
    build_delivery_point,
    extract_delivery_point,
    map_demand_payments,
    record_demands,
    resolve_links,
};
use motortown_extract::entity::{
    Blueprint,
    Surroundings,
    default_capacity,
    resolve_blueprint,
    resolve_max_storage,
    resolve_name,
    resolve_scene,
};
use motortown_extract::merge::{extract_storage_configs, merge_for_entity, select_storage_configs};
use motortown_extract::places::{
    build_area_volume,
    build_ev_charger,
    build_house,
    extract_area_volume,
    extract_ev_charger,
};
use motortown_extract::error::ResolveError;
use motortown_extract::output_type;
use motortown_extract::resolve::ObjectStore;
use motortown_extract::taxonomy::{text_list, Taxonomy};
use motortown_extract::ue_type::{
    BusStopDisplayName, CargoKeyAndAmountValue, DemandConfig, MissionPointName, ObjectPath,
    PointName, ProductionConfig, Properties, StorageConfig, Text, UObject, Vector3,
};

fn entity_path(path: &str) -> ObjectPath {
    ObjectPath { object_name: "o".to_string(), object_path: path.to_string() }
}

fn entity_object(type_field: &str, properties: Option<Properties<f64>>) -> UObject<f64> {
    UObject { type_field: type_field.to_string(), properties, ..Default::default() }
}

fn entity_scene(x: f64) -> UObject<f64> {
    entity_object(
        "SceneComponent",
        Some(Properties {
            relative_location: Some(Vector3 { x, y: 2.0, z: 3.0 }),
            ..Default::default()
        }),
    )
}

fn entity_named(name: &str) -> Option<MissionPointName> {
    Some(MissionPointName { localized_string: Some(name.to_string()), ..Default::default() })
}

fn entity_storage(cargo_type: &str, cargo_key: &str, capacity: i64) -> StorageConfig {
    StorageConfig {
        cargo_type: cargo_type.to_string(),
        cargo_key: cargo_key.to_string(),
        max_storage: Capacity::new(capacity),
    }
}

fn entity_demand(cargo_type: &str, cargo_key: &str, capacity: i64, pay: f64) -> DemandConfig<f64> {
    DemandConfig {
        cargo_type: cargo_type.to_string(),
        cargo_key: cargo_key.to_string(),
        payment_multiplier: pay,
        max_storage: Capacity::new(capacity),
    }
}

fn entity_food() -> Taxonomy {
    let mut t = Taxonomy::new();
    t.insert("Food".to_string(), text_list(&["Pizza_01", "Burger_01"]));
    t
}

fn entity_sorted(map: &CargoMap<Option<Capacity>>) -> Vec<(String, i64)> {
    let mut out: Vec<(String, i64)> = (0..map.len())
        .map(|i| {
            let (k, v) = map.entry(i);
            (k.clone(), v.unwrap().get())
        })
        .collect();
    out.sort();
    out
}

fn entity_pairs(pairs: &[(&str, i64)]) -> Vec<(String, i64)> {
    let mut out: Vec<(String, i64)> = pairs.iter().map(|(k, v)| (k.to_string(), *v)).collect();
    out.sort();
    out
}

// World: 0 scene of farm, 1 farm, 2 scene of depot, 3 depot, 4 other.
fn entity_world() -> Vec<UObject<f64>> {
    let farm = entity_object(
        "Farm_C",
        Some(Properties {
            root_component: Some(entity_path("World.0")),
            delivery_point_guid: Some("AA-01".to_string()),
            demand_configs: Some(vec![
                entity_demand("EDeliveryCargoType::None", "wood", 0, 1.5),
                entity_demand("Food", "None", 0, 2.0),
            ]),
            production_configs: vec![ProductionConfig {
                input_cargos: vec![CargoKeyAndAmountValue { key: "wood".to_string(), value: 2 }],
                input_cargo_types: vec![CargoKeyAndAmountValue { key: "Food".to_string(), value: 1 }],
                output_cargos: vec![CargoKeyAndAmountValue { key: "plank".to_string(), value: 4 }],
                output_cargo_types: Vec::new(),
                production_time_seconds: 10.0,
                production_speed_multiplier: 1.0,
                local_food_supply: 0.0,
                ..Default::default()
            }],
            input_inventory_share: vec![entity_path("World.3"), entity_path("World.4")],
            max_delivery_distance: Some(500.0),
            ..Default::default()
        }),
    );
    let depot = entity_object(
        "Depot_C",
        Some(Properties {
            root_component: Some(entity_path("World.2")),
            delivery_point_guid: Some("BB-02".to_string()),
            mission_point_name: entity_named("Depot North"),
            demand_configs: Some(vec![entity_demand("EDeliveryCargoType::None", "wood", 80, 1.0)]),
            storage_configs: Some(vec![entity_storage("EDeliveryCargoType::None", "coal", 20)]),
            ..Default::default()
        }),
    );
    vec![
        entity_scene(1.0),
        farm,
        entity_scene(7.0),
        depot,
        entity_object("Rock_C", Some(Properties::default())),
    ]
}

fn entity_farm_type() -> UObject<f64> {
    entity_object(
        "Farm_C",
        Some(Properties {
            mission_point_name: entity_named("Farm"),
            storage_configs: Some(vec![
                entity_storage("EDeliveryCargoType::None", "wood", 50),
                entity_storage("Food", "None", 30),
            ]),
            max_delivery_receive_distance: Some(40.0),
            max_delivery_distance: Some(1.0),
            ..Default::default()
        }),
    )
}

fn entity_depot_type() -> UObject<f64> {
    entity_object("Depot_C", Some(Properties::default()))
}

#[test]
fn default_capacity_is_one_hundred() {
    assert_eq!(default_capacity(), Capacity::new(100));
}

#[test]
fn name_cascades_from_instance_to_template() {
    let named = |n: &str| {
        entity_object("T", Some(Properties { mission_point_name: entity_named(n), ..Default::default() }))
    };
    let blank = entity_object("T", Some(Properties::default()));
    let bare = entity_object("T", None);
    assert_eq!(resolve_name(&named("w"), &named("m"), Some(&named("t"))), Some("w".to_string()));
    assert_eq!(resolve_name(&blank, &named("m"), Some(&named("t"))), Some("m".to_string()));
    assert_eq!(resolve_name(&bare, &blank, Some(&named("t"))), Some("t".to_string()));
    assert_eq!(resolve_name(&blank, &blank, Some(&blank)), None);
    assert_eq!(resolve_name(&blank, &blank, None), None);
}

#[test]
fn default_capacity_cascades_with_fallback() {
    let with = |n: i64| {
        entity_object("T", Some(Properties { max_storage: Capacity::new(n), ..Default::default() }))
    };
    let blank = entity_object("T", Some(Properties::default()));
    let fallback = Capacity::new(100);
    assert_eq!(resolve_max_storage(&with(1), &with(2), Some(&with(3)), fallback), Capacity::new(1));
    assert_eq!(resolve_max_storage(&blank, &with(2), Some(&with(3)), fallback), Capacity::new(2));
    assert_eq!(resolve_max_storage(&blank, &blank, Some(&with(3)), fallback), Capacity::new(3));
    assert_eq!(resolve_max_storage(&blank, &blank, Some(&blank), fallback), Capacity::new(100));
    assert_eq!(resolve_max_storage(&blank, &blank, None, fallback), Capacity::new(100));
    assert_eq!(resolve_max_storage(&blank, &blank, None, None), None);
    // A declared zero is "not set".
    assert_eq!(resolve_max_storage(&with(0), &with(2), None, fallback), Capacity::new(2));
}

#[test]
fn storage_rules_are_selected_and_expanded() {
    let with = |rules: Vec<StorageConfig>| {
        entity_object("T", Some(Properties { storage_configs: Some(rules), ..Default::default() }))
    };
    let blank = entity_object("T", Some(Properties::default()));
    let bare = entity_object("T", None);
    let food = entity_food();
    let out = select_storage_configs(&blank, &with(vec![entity_storage("Food", "None", 30)]), None, &food);
    assert_eq!(
        out,
        Ok(vec![
            entity_storage("Food", "None", 30),
            entity_storage("Food", "Pizza_01", 30),
            entity_storage("Food", "Burger_01", 30),
        ])
    );
    let own = select_storage_configs(
        &with(vec![entity_storage("T", "k", 1)]),
        &bare,
        Some(&bare),
        &food,
    );
    assert_eq!(own, Ok(vec![entity_storage("T", "k", 1)]));
    assert_eq!(select_storage_configs(&with(Vec::new()), &blank, None, &food), Ok(Vec::new()));
    assert_eq!(
        select_storage_configs(&bare, &blank, None, &food),
        Err(ResolveError::SchemaGapError)
    );
    assert_eq!(
        select_storage_configs(&blank, &bare, None, &food),
        Err(ResolveError::SchemaGapError)
    );
    assert_eq!(
        select_storage_configs(&blank, &blank, Some(&bare), &food),
        Err(ResolveError::SchemaGapError)
    );
    assert_eq!(extract_storage_configs(&bare), Err(ResolveError::SchemaGapError));
    assert_eq!(extract_storage_configs(&blank), Ok(None));
}

#[test]
fn payments_and_demand_capacities_are_keyed_by_cargo_name() {
    let demand = |ty: Option<&str>, key: Option<&str>, capacity: i64, pay: f64| {
        output_type::DemandConfig {
            cargo_type: ty.map(|s| s.to_string()),
            cargo_key: key.map(|s| s.to_string()),
            max_storage: Capacity::new(capacity),
            payment_multiplier: pay,
        }
    };
    let demands = vec![
        demand(Some("T"), Some("wood"), 5, 1.0),
        demand(Some("Food"), None, 6, 2.0),
        demand(None, None, 7, 3.0),
        demand(None, Some("wood"), 8, 4.0),
        demand(None, Some("coal"), 0, 5.0),
    ];
    let payments = map_demand_payments(&demands);
    assert_eq!(payments.len(), 3);
    assert_eq!(payments.get("wood"), Some(&4.0));
    assert_eq!(payments.get("Food"), Some(&2.0));
    assert_eq!(payments.get("coal"), Some(&5.0));
    let mut storage: CargoMap<Option<Capacity>> = CargoMap::new();
    storage.insert("Food".to_string(), Capacity::new(1));
    record_demands(&mut storage, &demands);
    assert_eq!(entity_sorted(&storage), entity_pairs(&[("Food", 1), ("wood", 5)]));
}

#[test]
fn delivery_point_is_resolved_end_to_end() {
    let world = entity_world();
    let store = ObjectStore::new();
    let around = Surroundings { container: "World", objects: &world, store: &store };
    let main = entity_farm_type();
    let blueprint = Blueprint { main_obj: &main, template_obj: None };
    let built =
        build_delivery_point(&world[1], &around, &blueprint, &entity_food(), default_capacity())
            .unwrap();
    assert_eq!(built.type_field, "Farm_C");
    assert_eq!(built.name, Some("Farm".to_string()));
    assert_eq!(built.guid, Some("aa01".to_string()));
    assert_eq!(built.relative_location, Some(output_type::Vector3 { x: 1.0, y: 2.0, z: 3.0 }));
    assert_eq!(built.drop_point, vec!["bb02".to_string()]);
    assert_eq!(built.max_delivery_distance, Some(500.0));
    assert_eq!(built.max_delivery_receive_distance, Some(40.0));
    assert_eq!(built.demand_configs.len(), 2);
    assert_eq!(built.demand_configs.get("wood"), Some(&1.5));
    assert_eq!(built.demand_configs.get("Food"), Some(&2.0));
    assert_eq!(built.production_configs.len(), 1);
    assert_eq!(built.production_configs[0].input_cargos.get("wood"), Some(&2));
    assert_eq!(built.production_configs[0].input_cargos.get("Food"), Some(&1));
    assert_eq!(built.production_configs[0].output_cargos.get("plank"), Some(&4));
    assert_eq!(built.production_configs[0].production_time_seconds, 10.0);
    // wood: storage rule of the type default; Food: type-level storage rule;
    // plank: nothing but the default.
    assert_eq!(
        entity_sorted(&built.demand_storage_configs),
        entity_pairs(&[("wood", 50), ("Food", 30), ("plank", 100)])
    );
    assert!(built.supply_storage_configs.is_empty());
}

#[test]
fn delivery_points_are_built_kind_by_kind_and_propagated() {
    let world = entity_world();
    let store = ObjectStore::new();
    let around = Surroundings { container: "World", objects: &world, store: &store };
    let farm = entity_farm_type();
    let depot = entity_depot_type();
    let blueprints = vec![
        Blueprint { main_obj: &farm, template_obj: None },
        Blueprint { main_obj: &depot, template_obj: Some(&farm) },
    ];
    let out =
        extract_delivery_point(&around, &blueprints, &entity_food(), default_capacity()).unwrap();
    assert_eq!(out.len(), 2);
    assert_eq!(out[0].type_field, "Farm_C");
    assert_eq!(out[1].type_field, "Depot_C");
    assert_eq!(out[1].name, Some("Depot North".to_string()));
    assert_eq!(out[1].guid, Some("bb02".to_string()));
    assert_eq!(out[1].relative_location, Some(output_type::Vector3 { x: 7.0, y: 2.0, z: 3.0 }));
    assert_eq!(entity_sorted(&out[1].demand_storage_configs), entity_pairs(&[("wood", 80)]));
    // The farm names the depot as drop point: the depot's capacity for wood
    // replaces the farm's own.
    assert_eq!(
        entity_sorted(&out[0].demand_storage_configs),
        entity_pairs(&[("wood", 80), ("Food", 30), ("plank", 100)])
    );
    let none = extract_delivery_point(&around, &Vec::new(), &entity_food(), None).unwrap();
    assert!(none.is_empty());
}

#[test]
fn delivery_point_failures_are_reported() {
    let store = ObjectStore::new();
    let main = entity_farm_type();
    let blueprint = Blueprint { main_obj: &main, template_obj: None };
    let food = entity_food();
    let build = |world: &Vec<UObject<f64>>, index: usize| {
        let around = Surroundings { container: "World", objects: world, store: &store };
        build_delivery_point(&world[index], &around, &blueprint, &food, None).map(|_| ())
    };
    let mut no_bag = entity_world();
    no_bag[1].properties = None;
    assert_eq!(build(&no_bag, 1), Err(ResolveError::SchemaGapError));
    let mut no_root = entity_world();
    no_root[1].properties.as_mut().unwrap().root_component = None;
    assert_eq!(build(&no_root, 1), Err(ResolveError::ReferenceError));
    let mut far_root = entity_world();
    far_root[1].properties.as_mut().unwrap().root_component = Some(entity_path("World.99"));
    assert_eq!(build(&far_root, 1), Err(ResolveError::ReferenceError));
    let mut bad_link = entity_world();
    bad_link[1].properties.as_mut().unwrap().input_inventory_share = vec![entity_path("World")];
    assert_eq!(build(&bad_link, 1), Err(ResolveError::ReferenceError));
    let around_world = entity_world();
    let around = Surroundings { container: "World", objects: &around_world, store: &store };
    let bare_main = entity_object("Farm_C", None);
    let bare_blueprint = Blueprint { main_obj: &bare_main, template_obj: None };
    assert_eq!(
        build_delivery_point(&around_world[1], &around, &bare_blueprint, &food, None).map(|_| ()),
        Err(ResolveError::SchemaGapError)
    );
    let blueprints = vec![bare_blueprint];
    assert_eq!(
        extract_delivery_point(&around, &blueprints, &food, None).map(|_| ()),
        Err(ResolveError::SchemaGapError)
    );
}

#[test]
fn links_without_guid_are_passed_over() {
    let world = entity_world();
    let store = ObjectStore::new();
    let around = Surroundings { container: "World", objects: &world, store: &store };
    let links = vec![entity_path("World.4"), entity_path("World.3"), entity_path("World.1")];
    assert_eq!(resolve_links(&links, &around), Ok(vec!["bb02".to_string(), "aa01".to_string()]));
    assert_eq!(resolve_links(&Vec::new(), &around), Ok(Vec::new()));
    let broken = vec![entity_path("World.3"), entity_path("World.5")];
    assert_eq!(resolve_links(&broken, &around), Err(ResolveError::ReferenceError));
}

#[test]
fn blueprint_is_found_through_the_first_object() {
    let mut store = ObjectStore::new();
    store.insert(
        "Base/Point.json".to_string(),
        vec![entity_object("Unused", None), entity_object("Base_C", None)],
    );
    let mut generated = entity_object("BlueprintGeneratedClass", None);
    generated.class_default_object = Some(entity_path("Farm.2"));
    let mut main = entity_object("Farm_C", None);
    main.template = Some(entity_path("Base/Point.1"));
    let objects = vec![generated.clone(), entity_object("Filler", None), main.clone()];
    let around = Surroundings { container: "Farm", objects: &objects, store: &store };
    let blueprint = resolve_blueprint(&around).unwrap();
    assert_eq!(blueprint.main_obj.type_field, "Farm_C");
    assert_eq!(blueprint.template_obj.map(|t| t.type_field.clone()), Some("Base_C".to_string()));

    let mut plain_main = main.clone();
    plain_main.template = None;
    let plain = vec![generated.clone(), entity_object("Filler", None), plain_main];
    let plain_around = Surroundings { container: "Farm", objects: &plain, store: &store };
    assert!(resolve_blueprint(&plain_around).unwrap().template_obj.is_none());

    let empty: Vec<UObject<f64>> = Vec::new();
    let empty_around = Surroundings { container: "Farm", objects: &empty, store: &store };
    assert_eq!(resolve_blueprint(&empty_around).map(|_| ()), Err(ResolveError::ReferenceError));
    let unloaded = ObjectStore::new();
    let unloaded_around = Surroundings { container: "Farm", objects: &objects, store: &unloaded };
    assert_eq!(resolve_blueprint(&unloaded_around).map(|_| ()), Err(ResolveError::ReferenceError));
    let headless = vec![entity_object("BlueprintGeneratedClass", None)];
    let headless_around = Surroundings { container: "Farm", objects: &headless, store: &store };
    assert_eq!(resolve_blueprint(&headless_around).map(|_| ()), Err(ResolveError::ReferenceError));
}

// World: 0 scene, 1 stop, 2 scene, 3 terminal, 4 stop without guid.
fn entity_bus_world() -> Vec<UObject<f64>> {
    let stop = entity_object(
        "BusStop_01_C",
        Some(Properties {
            root_component: Some(entity_path("World.0")),
            bus_stop_guid: Some("S-01".to_string()),
            bus_stop_name: Some(PointName {
                texts: vec![
                    Text { localized_string: Some("Main".to_string()), ..Default::default() },
                    Text { localized_string: Some("Street".to_string()), ..Default::default() },
                ],
            }),
            bus_stop_display_name: Some(BusStopDisplayName {
                localized_string: Some("Shown".to_string()),
                ..Default::default()
            }),
            additional_destinations: Some(vec![entity_path("World.3"), entity_path("World.4")]),
            ..Default::default()
        }),
    );
    let terminal = entity_object(
        "BusTerminal_01_C",
        Some(Properties {
            root_component: Some(entity_path("World.2")),
            bus_stop_guid: Some("T-09".to_string()),
            bus_stop_display_name: Some(BusStopDisplayName {
                localized_string: Some("Central".to_string()),
                ..Default::default()
            }),
            tags: vec!["BusTerminal".to_string()],
            ..Default::default()
        }),
    );
    let anonymous = entity_object(
        "BusStop_02_C",
        Some(Properties { root_component: Some(entity_path("World.0")), ..Default::default() }),
    );
    vec![entity_scene(1.0), stop, entity_scene(9.0), terminal, anonymous]
}

#[test]
fn bus_stops_are_resolved() {
    let world = entity_bus_world();
    let store = ObjectStore::new();
    let around = Surroundings { container: "World", objects: &world, store: &store };
    let stops = extract_bus_stop(&around).unwrap();
    assert_eq!(stops.len(), 3);
    assert_eq!(
        stops[0],
        output_type::BusStopPoint {
            type_field: "BusStop_01_C".to_string(),
            name: Some("Main Street".to_string()),
            relative_location: Some(output_type::Vector3 { x: 1.0, y: 2.0, z: 3.0 }),
            guid: Some("s01".to_string()),
            additional_destinations_guid: vec![
                output_type::Guid { guid: Some("t09".to_string()) },
                output_type::Guid { guid: None },
            ],
            terminal: false,
        }
    );
    assert_eq!(stops[1].name, Some("Central".to_string()));
    assert!(stops[1].terminal);
    assert_eq!(stops[1].relative_location, Some(output_type::Vector3 { x: 9.0, y: 2.0, z: 3.0 }));
    assert_eq!(stops[2].name, None);
    assert_eq!(stops[2].guid, None);
    assert_eq!(build_bus_stop(&world[3], &around).map(|s| s.guid), Ok(Some("t09".to_string())));
}

#[test]
fn bus_stop_failures_are_reported() {
    let store = ObjectStore::new();
    let mut world = entity_bus_world();
    world[1].properties.as_mut().unwrap().additional_destinations =
        Some(vec![entity_path("World.77")]);
    let around = Surroundings { container: "World", objects: &world, store: &store };
    assert_eq!(extract_bus_stop(&around).map(|_| ()), Err(ResolveError::ReferenceError));
    let mut bare = entity_bus_world();
    bare[3].properties = None;
    let bare_around = Surroundings { container: "World", objects: &bare, store: &store };
    assert_eq!(extract_bus_stop(&bare_around).map(|_| ()), Err(ResolveError::SchemaGapError));
    assert_eq!(
        resolve_scene(&bare[3], &bare_around).map(|_| ()),
        Err(ResolveError::SchemaGapError)
    );
}

#[test]
fn chargers_are_resolved() {
    let charger = |root: &str| {
        entity_object(
            "EVCharger_C",
            Some(Properties { root_component: Some(entity_path(root)), ..Default::default() }),
        )
    };
    let objects = vec![entity_scene(4.0), charger("Cell.0"), entity_object("Tree_C", None), charger("Cell.2")];
    let store = ObjectStore::new();
    let around = Surroundings { container: "Cell", objects: &objects, store: &store };
    let out = extract_ev_charger(&around).unwrap();
    assert_eq!(
        out,
        vec![
            output_type::EvChargerPoint {
                relative_location: Some(output_type::Vector3 { x: 4.0, y: 2.0, z: 3.0 }),
            },
            output_type::EvChargerPoint { relative_location: None },
        ]
    );
    assert_eq!(build_ev_charger(&objects[1], &around), Ok(out[0].clone()));
    let broken = vec![charger("Cell.9")];
    let broken_around = Surroundings { container: "Cell", objects: &broken, store: &store };
    assert_eq!(extract_ev_charger(&broken_around), Err(ResolveError::ReferenceError));
}

#[test]
fn house_takes_its_cost_from_the_table() {
    let house = |key: Option<&str>| {
        entity_object(
            "House_C",
            Some(Properties {
                root_component: Some(entity_path("World.0")),
                houseg_key: key.map(|k| k.to_string()),
                ..Default::default()
            }),
        )
    };
    let world = vec![entity_scene(5.0), house(Some("H_1")), house(Some("H_2")), house(None)];
    let store = ObjectStore::new();
    let around = Surroundings { container: "World", objects: &world, store: &store };
    let mut costs: CargoMap<i64> = CargoMap::new();
    costs.insert("H_1".to_string(), 25_000);
    let size = output_type::Vector2 { x: 2000.0, y: 2000.0 };
    assert_eq!(
        build_house(&world[1], &around, size, &costs),
        Ok(output_type::HousePoint {
            name: "H_1".to_string(),
            relative_location: Some(output_type::Vector3 { x: 5.0, y: 2.0, z: 3.0 }),
            size,
            cost: 25_000,
        })
    );
    assert_eq!(build_house(&world[2], &around, size, &costs).map(|h| h.cost), Ok(0));
    assert_eq!(build_house(&world[3], &around, size, &costs).map(|h| h.name), Ok(String::new()));
    let bare = entity_object("House_C", None);
    assert_eq!(
        build_house(&bare, &around, size, &costs).map(|_| ()),
        Err(ResolveError::SchemaGapError)
    );
}

#[test]
fn area_volumes_are_collected() {
    let area = entity_object(
        "MTAreaVolume",
        Some(Properties {
            area_volume_flags: vec!["EMTAreaVolumeFlags::Zone".to_string()],
            top_view_lines: vec![Vector3 { x: 1.0, y: 2.0, z: 3.0 }],
            ..Default::default()
        }),
    );
    let world = vec![entity_scene(0.0), area.clone(), entity_object("MTAreaVolume", None)];
    let out = extract_area_volume(&world);
    assert_eq!(out.len(), 2);
    assert_eq!(
        out[0],
        output_type::AreaVolume {
            name: String::new(),
            flag: "EMTAreaVolumeFlags::Zone".to_string(),
            vertex: vec![output_type::Vector2 { x: 1.0, y: 2.0 }],
        }
    );
    assert_eq!(out[1], output_type::AreaVolume { name: String::new(), flag: String::new(), vertex: Vec::new() });
    assert_eq!(build_area_volume(&area), out[0]);
}

#[test]
fn rules_of_an_entity_are_merged() {
    let world = entity_world();
    let main = entity_farm_type();
    let merged =
        merge_for_entity(&world[1], &main, None, &entity_food(), default_capacity()).unwrap();
    assert_eq!(merged.demand_configs.len(), 2);
    assert_eq!(merged.demand_configs[0].cargo_key, Some("wood".to_string()));
    assert_eq!(merged.demand_configs[0].cargo_type, None);
    assert_eq!(merged.demand_configs[0].max_storage, Capacity::new(50));
    assert_eq!(merged.demand_configs[1].cargo_key, None);
    assert_eq!(merged.demand_configs[1].cargo_type, Some("Food".to_string()));
    assert_eq!(merged.demand_configs[1].max_storage, Capacity::new(30));
    assert_eq!(merged.production_configs.len(), 1);
    assert_eq!(
        entity_sorted(&merged.storage_by_key),
        entity_pairs(&[("wood", 50), ("Food", 30), ("plank", 100)])
    );
    let bare = entity_object("Farm_C", None);
    assert_eq!(
        merge_for_entity(&bare, &main, None, &entity_food(), None).map(|_| ()),
        Err(ResolveError::SchemaGapError)
    );
}
