//! The resolved records that the engine hands out, and their models.
//!
//! The parameter `F` stands for a measured quantity that is carried through
//! unchanged. The spatial functions work on whole-unit coordinates, that is on
//! `Vector2<i32>`.

use crate::capacity::Capacity;
use crate::cargo_map::CargoMap;
use crate::ue_type;
use vstd::prelude::*;
use vstd::std_specs::convert::FromSpecImpl;

verus! {

/// A point in the world.
#[derive(Default, Debug, Clone, Copy, PartialEq)]
pub struct Vector3<F> {
    pub x: F,
    pub y: F,
    pub z: F,
}

/// A point on the map, seen from above.
#[derive(Default, Debug, Clone, Copy, PartialEq)]
pub struct Vector2<F> {
    pub x: F,
    pub y: F,
}

impl<F> From<ue_type::Vector3<F>> for Vector3<F> {
    fn from(value: ue_type::Vector3<F>) -> (r: Self) {
        Vector3 { x: value.x, y: value.y, z: value.z }
    }
}

impl<F> FromSpecImpl<ue_type::Vector3<F>> for Vector3<F> {
    open spec fn obeys_from_spec() -> bool {
        true
    }

    open spec fn from_spec(value: ue_type::Vector3<F>) -> Self {
        Vector3 { x: value.x, y: value.y, z: value.z }
    }
}

impl<F> From<Vector3<F>> for Vector2<F> {
    fn from(value: Vector3<F>) -> (r: Self) {
        Vector2 { x: value.x, y: value.y }
    }
}

impl<F> FromSpecImpl<Vector3<F>> for Vector2<F> {
    open spec fn obeys_from_spec() -> bool {
        true
    }

    open spec fn from_spec(value: Vector3<F>) -> Self {
        Vector2 { x: value.x, y: value.y }
    }
}

impl<F> From<ue_type::Vector3<F>> for Vector2<F> {
    fn from(value: ue_type::Vector3<F>) -> (r: Self) {
        Vector2 { x: value.x, y: value.y }
    }
}

impl<F> FromSpecImpl<ue_type::Vector3<F>> for Vector2<F> {
    open spec fn obeys_from_spec() -> bool {
        true
    }

    open spec fn from_spec(value: ue_type::Vector3<F>) -> Self {
        Vector2 { x: value.x, y: value.y }
    }
}

/// One cargo of a production rule with its resolved capacity. Exactly one of
/// `cargo_type` and `cargo_key` is set by the engine.
#[derive(Default, Debug, Clone, PartialEq)]
pub struct ProductionCargo {
    pub cargo_type: Option<String>,
    pub cargo_key: Option<String>,
    pub value: i64,
    pub max_storage: Option<Capacity>,
}

/// The model of a `ProductionCargo`.
pub struct ProductionCargoView {
    pub cargo_type: Option<Seq<char>>,
    pub cargo_key: Option<Seq<char>>,
    pub value: i64,
    pub max_storage: Option<Capacity>,
}

impl DeepView for ProductionCargo {
    type V = ProductionCargoView;

    open spec fn deep_view(&self) -> ProductionCargoView {
        ProductionCargoView {
            cargo_type: self.cargo_type.deep_view(),
            cargo_key: self.cargo_key.deep_view(),
            value: self.value,
            max_storage: self.max_storage,
        }
    }
}

/// A resolved production rule: amounts by cargo key, for what goes in and for
/// what comes out.
#[derive(Default, Debug, Clone, PartialEq)]
pub struct ProductionConfig<F> {
    pub input_cargos: CargoMap<i64>,
    pub output_cargos: CargoMap<i64>,
    pub production_time_seconds: F,
    pub production_speed_multiplier: F,
    pub local_food_supply: F,
}

/// The model of a `ProductionConfig`.
pub struct ProductionConfigView<F> {
    pub input_cargos: Map<Seq<char>, i64>,
    pub output_cargos: Map<Seq<char>, i64>,
    pub production_time_seconds: F,
    pub production_speed_multiplier: F,
    pub local_food_supply: F,
}

impl<F> DeepView for ProductionConfig<F> {
    type V = ProductionConfigView<F>;

    open spec fn deep_view(&self) -> ProductionConfigView<F> {
        ProductionConfigView {
            input_cargos: self.input_cargos@,
            output_cargos: self.output_cargos@,
            production_time_seconds: self.production_time_seconds,
            production_speed_multiplier: self.production_speed_multiplier,
            local_food_supply: self.local_food_supply,
        }
    }
}

/// A resolved demand rule. The sentinels for "no key" and "no type" have
/// become `None`.
#[derive(Default, Debug, Clone, PartialEq)]
pub struct DemandConfig<F> {
    pub cargo_type: Option<String>,
    pub cargo_key: Option<String>,
    pub max_storage: Option<Capacity>,
    pub payment_multiplier: F,
}

/// The model of a `DemandConfig`.
pub struct DemandConfigView<F> {
    pub cargo_type: Option<Seq<char>>,
    pub cargo_key: Option<Seq<char>>,
    pub max_storage: Option<Capacity>,
    pub payment_multiplier: F,
}

impl<F> DeepView for DemandConfig<F> {
    type V = DemandConfigView<F>;

    open spec fn deep_view(&self) -> DemandConfigView<F> {
        DemandConfigView {
            cargo_type: self.cargo_type.deep_view(),
            cargo_key: self.cargo_key.deep_view(),
            max_storage: self.max_storage,
            payment_multiplier: self.payment_multiplier,
        }
    }
}

/// A resolved delivery point.
#[derive(Default, Debug, Clone, PartialEq)]
pub struct DeliveryPoint<F> {
    pub type_field: String,
    pub name: Option<String>,
    pub relative_location: Option<Vector3<F>>,
    pub guid: Option<String>,
    pub production_configs: Vec<ProductionConfig<F>>,
    pub demand_configs: CargoMap<F>,
    pub demand_storage_configs: CargoMap<Option<Capacity>>,
    pub supply_storage_configs: CargoMap<Option<Capacity>>,
    pub drop_point: Vec<String>,
    pub max_delivery_distance: Option<F>,
    pub max_delivery_receive_distance: Option<F>,
}

/// The model of a `DeliveryPoint`.
pub struct DeliveryPointView<F> {
    pub type_field: Seq<char>,
    pub name: Option<Seq<char>>,
    pub relative_location: Option<Vector3<F>>,
    pub guid: Option<Seq<char>>,
    pub production_configs: Seq<ProductionConfigView<F>>,
    pub demand_configs: Map<Seq<char>, F>,
    pub demand_storage_configs: Map<Seq<char>, Option<Capacity>>,
    pub supply_storage_configs: Map<Seq<char>, Option<Capacity>>,
    pub drop_point: Seq<Seq<char>>,
    pub max_delivery_distance: Option<F>,
    pub max_delivery_receive_distance: Option<F>,
}

impl<F> DeepView for DeliveryPoint<F> {
    type V = DeliveryPointView<F>;

    open spec fn deep_view(&self) -> DeliveryPointView<F> {
        DeliveryPointView {
            type_field: self.type_field@,
            name: self.name.deep_view(),
            relative_location: self.relative_location,
            guid: self.guid.deep_view(),
            production_configs: self.production_configs.deep_view(),
            demand_configs: self.demand_configs@,
            demand_storage_configs: self.demand_storage_configs@,
            supply_storage_configs: self.supply_storage_configs@,
            drop_point: self.drop_point.deep_view(),
            max_delivery_distance: self.max_delivery_distance,
            max_delivery_receive_distance: self.max_delivery_receive_distance,
        }
    }
}

/// A resolved bus stop.
#[derive(Default, Debug, Clone, PartialEq)]
pub struct BusStopPoint<F> {
    pub type_field: String,
    pub name: Option<String>,
    pub relative_location: Option<Vector3<F>>,
    pub guid: Option<String>,
    pub additional_destinations_guid: Vec<Guid>,
    pub terminal: bool,
}

/// The model of a `BusStopPoint`.
pub struct BusStopPointView<F> {
    pub type_field: Seq<char>,
    pub name: Option<Seq<char>>,
    pub relative_location: Option<Vector3<F>>,
    pub guid: Option<Seq<char>>,
    pub additional_destinations_guid: Seq<Option<Seq<char>>>,
    pub terminal: bool,
}

impl<F> DeepView for BusStopPoint<F> {
    type V = BusStopPointView<F>;

    open spec fn deep_view(&self) -> BusStopPointView<F> {
        BusStopPointView {
            type_field: self.type_field@,
            name: self.name.deep_view(),
            relative_location: self.relative_location,
            guid: self.guid.deep_view(),
            additional_destinations_guid: self.additional_destinations_guid.deep_view(),
            terminal: self.terminal,
        }
    }
}

/// The short identifier of a linked entity, where it has one.
#[derive(Default, Debug, Clone, PartialEq)]
pub struct Guid {
    pub guid: Option<String>,
}

impl DeepView for Guid {
    type V = Option<Seq<char>>;

    open spec fn deep_view(&self) -> Option<Seq<char>> {
        self.guid.deep_view()
    }
}

/// A resolved charger.
#[derive(Default, Debug, Clone, PartialEq)]
pub struct EvChargerPoint<F> {
    pub relative_location: Option<Vector3<F>>,
}

impl<F> DeepView for EvChargerPoint<F> {
    type V = Option<Vector3<F>>;

    open spec fn deep_view(&self) -> Option<Vector3<F>> {
        self.relative_location
    }
}

/// A resolved house.
#[derive(Default, Debug, Clone, PartialEq)]
pub struct HousePoint<F> {
    pub name: String,
    pub relative_location: Option<Vector3<F>>,
    pub size: Vector2<F>,
    pub cost: i64,
}

/// The model of a `HousePoint`.
pub struct HousePointView<F> {
    pub name: Seq<char>,
    pub relative_location: Option<Vector3<F>>,
    pub size: Vector2<F>,
    pub cost: i64,
}

impl<F> DeepView for HousePoint<F> {
    type V = HousePointView<F>;

    open spec fn deep_view(&self) -> HousePointView<F> {
        HousePointView {
            name: self.name@,
            relative_location: self.relative_location,
            size: self.size,
            cost: self.cost,
        }
    }
}

/// A named region of the map: a ring of vertices and the flag that says what
/// kind of region it is.
#[derive(Default, Debug, Clone, PartialEq)]
pub struct AreaVolume<F> {
    pub name: String,
    pub flag: String,
    pub vertex: Vec<Vector2<F>>,
}

/// The model of an `AreaVolume`.
pub struct AreaVolumeView<F> {
    pub name: Seq<char>,
    pub flag: Seq<char>,
    pub vertex: Seq<Vector2<F>>,
}

impl<F> DeepView for AreaVolume<F> {
    type V = AreaVolumeView<F>;

    open spec fn deep_view(&self) -> AreaVolumeView<F> {
        AreaVolumeView { name: self.name@, flag: self.flag@, vertex: self.vertex@ }
    }
}

} // verus!
