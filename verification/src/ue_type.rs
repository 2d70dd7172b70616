//! The reflected source records that the engine reads.
//!
//! A record keeps the attribute names of the asset dump. The parameter `F`
//! stands for a measured quantity (a coordinate, a multiplier, a duration):
//! the engine carries such values through and never computes with them.

use crate::capacity::Capacity;
use vstd::prelude::*;

verus! {

/// One reflected object: its type tag, its name, the references to the
/// objects it derives from, and its bag of attributes.
#[derive(Default, Debug, Clone, PartialEq)]
pub struct UObject<F> {
    pub type_field: String,
    pub name: String,
    pub outer: Option<String>,
    pub class: String,
    pub template: Option<ObjectPath>,
    pub properties: Option<Properties<F>>,
    pub class_default_object: Option<ObjectPath>,
}

/// A reference to another object, written `<container-path>.<index>`.
#[derive(Default, Debug, Clone, PartialEq)]
pub struct ObjectPath {
    pub object_name: String,
    pub object_path: String,
}

/// The attributes of an object that the engine reads.
#[derive(Default, Debug, Clone, PartialEq)]
pub struct Properties<F> {
    pub root_component: Option<ObjectPath>,
    pub relative_location: Option<Vector3<F>>,
    pub delivery_point_guid: Option<String>,
    pub mission_point_name: Option<MissionPointName>,
    pub demand_configs: Option<Vec<DemandConfig<F>>>,
    pub tags: Vec<String>,
    pub point_name: Option<PointName>,
    pub input_inventory_share: Vec<ObjectPath>,
    pub delivery_point_name: Option<DeliveryPointName>,
    pub area_name: Option<MapIconName>,
    pub area_volume_flags: Vec<String>,
    pub top_view_lines: Vec<Vector3<F>>,
    pub area_name_texts: Option<AreaNameTexts>,
    pub max_storage: Option<Capacity>,
    pub production_configs: Vec<ProductionConfig<F>>,
    pub max_delivery_distance: Option<F>,
    pub area_size: Option<Vector3<F>>,
    pub houseg_key: Option<String>,
    pub max_delivery_receive_distance: Option<F>,
    pub storage_configs: Option<Vec<StorageConfig>>,
    pub bus_stop_guid: Option<String>,
    pub bus_stop_display_name: Option<BusStopDisplayName>,
    pub bus_stop_name: Option<PointName>,
    pub additional_destinations: Option<Vec<ObjectPath>>,
}

/// A point in the world.
#[derive(Default, Debug, Clone, Copy, PartialEq)]
pub struct Vector3<F> {
    pub x: F,
    pub y: F,
    pub z: F,
}

/// A cargo, by key or by type, and an amount of it.
#[derive(Default, Debug, Clone, PartialEq)]
pub struct CargoKeyAndAmountValue {
    pub key: String,
    pub value: i64,
}

#[derive(Default, Debug, Clone, PartialEq)]
pub struct MissionPointName {
    pub table_id: Option<String>,
    pub key: Option<String>,
    pub source_string: Option<String>,
    pub localized_string: Option<String>,
    pub culture_invariant_string: Option<String>,
}

/// A rule that says how much an entity pays for a cargo and how much of it
/// the entity stores. A key of `"None"` or a type of
/// `"EDeliveryCargoType::None"` stands for "no key" and "no type".
#[derive(Default, Debug, Clone, PartialEq)]
pub struct DemandConfig<F> {
    pub cargo_type: String,
    pub cargo_key: String,
    pub payment_multiplier: F,
    pub max_storage: Option<Capacity>,
}

#[derive(Default, Debug, Clone, PartialEq)]
pub struct MapIconName {
    pub table_id: String,
    pub key: String,
    pub source_string: String,
    pub localized_string: String,
}

#[derive(Default, Debug, Clone, PartialEq)]
pub struct PointName {
    pub texts: Vec<Text>,
}

#[derive(Default, Debug, Clone, PartialEq)]
pub struct Text {
    pub table_id: Option<String>,
    pub key: Option<String>,
    pub source_string: Option<String>,
    pub localized_string: Option<String>,
    pub culture_invariant_string: Option<String>,
}

#[derive(Default, Debug, Clone, PartialEq)]
pub struct DeliveryPointName {
    pub name: Name,
    pub number: Option<i64>,
}

#[derive(Default, Debug, Clone, PartialEq)]
pub struct Name {
    pub culture_invariant_string: Option<String>,
    pub table_id: Option<String>,
    pub key: Option<String>,
    pub source_string: Option<String>,
    pub localized_string: Option<String>,
}

#[derive(Default, Debug, Clone, PartialEq)]
pub struct AreaNameTexts {
    pub texts: Vec<MapIconName>,
}

/// What an entity makes: the cargos it takes, by key and by type, and the
/// cargos it gives.
#[derive(Default, Debug, Clone, PartialEq)]
pub struct ProductionConfig<F> {
    pub input_cargos: Vec<CargoKeyAndAmountValue>,
    pub input_cargo_types: Vec<CargoKeyAndAmountValue>,
    pub output_cargos: Vec<CargoKeyAndAmountValue>,
    pub output_cargo_types: Vec<CargoKeyAndAmountValue>,
    pub b_store_input_cargo: bool,
    pub production_time_seconds: F,
    pub production_speed_multiplier: F,
    pub local_food_supply: F,
    pub b_hidden: bool,
}

/// A rule that limits how much of a cargo an entity stores. A key of
/// `"None"` marks a rule that speaks of a whole cargo type.
#[derive(Default, Debug, Clone, PartialEq)]
pub struct StorageConfig {
    pub cargo_type: String,
    pub cargo_key: String,
    pub max_storage: Option<Capacity>,
}

/// The mathematical model of a `StorageConfig`.
pub struct StorageConfigView {
    pub cargo_type: Seq<char>,
    pub cargo_key: Seq<char>,
    pub max_storage: Option<Capacity>,
}

impl DeepView for StorageConfig {
    type V = StorageConfigView;

    open spec fn deep_view(&self) -> StorageConfigView {
        StorageConfigView {
            cargo_type: self.cargo_type@,
            cargo_key: self.cargo_key@,
            max_storage: self.max_storage,
        }
    }
}

#[derive(Default, Debug, Clone, PartialEq)]
pub struct BusStopDisplayName {
    pub table_id: String,
    pub key: String,
    pub source_string: Option<String>,
    pub localized_string: Option<String>,
}

// Further records of the asset dump. The engine does not read them; they are
// here for callers that decode them.

#[derive(Default, Debug, Clone, PartialEq)]
pub struct ActiveGameplayCues {
    pub owner: ObjectPath,
}

#[derive(Default, Debug, Clone, PartialEq)]
pub struct OnDestroyed {
    pub invocation_list: Vec<InvocationList>,
}

#[derive(Default, Debug, Clone, PartialEq)]
pub struct InvocationList {
    pub object: ObjectPath,
    pub function_name: String,
}

#[derive(Default, Debug, Clone, PartialEq)]
pub struct GridLevel {
    pub layer_cells: Vec<LayerCell>,
    pub layer_cells_mapping: Vec<CargoKeyAndAmountValue>,
}

#[derive(Default, Debug, Clone, PartialEq)]
pub struct LayerCell {
    pub grid_cells: Vec<ObjectPath>,
}

#[derive(Default, Debug, Clone, PartialEq)]
pub struct SourceWorldAssetPath {
    pub package_name: String,
    pub asset_name: String,
}

#[derive(Default, Debug, Clone, PartialEq)]
pub struct SubObjectsToCellRemapping {
    pub key: String,
    pub value: String,
}

#[derive(Default, Debug, Clone, PartialEq)]
pub struct WorldAsset {
    pub asset_path_name: String,
    pub sub_path_string: String,
}

#[derive(Default, Debug, Clone, PartialEq)]
pub struct CollisionResponses {
    pub response_array: Vec<ResponseArray>,
}

#[derive(Default, Debug, Clone, PartialEq)]
pub struct ResponseArray {
    pub channel: String,
    pub response: String,
}

#[derive(Default, Debug, Clone, PartialEq)]
pub struct VehicleDeliveryVehicleQuery {
    pub tag_dictionary: Vec<TagDictionary>,
    pub query_token_stream: Vec<i64>,
    pub auto_description: String,
}

#[derive(Default, Debug, Clone, PartialEq)]
pub struct TagDictionary {
    pub tag_name: String,
}

#[derive(Default, Debug, Clone, PartialEq)]
pub struct VehicleParam {
    pub vehicle_key: String,
    pub customizations: Vec<Customization>,
    pub parts: Vec<Part>,
}

#[derive(Default, Debug, Clone, PartialEq)]
pub struct Customization {
    pub body_material_index: i64,
    pub body_colors: Vec<BodyColor>,
}

#[derive(Default, Debug, Clone, PartialEq)]
pub struct BodyColor {
    pub material_slot_name: String,
    pub color: Color,
}

#[derive(Default, Debug, Clone, PartialEq)]
pub struct Color {
    pub b: i64,
    pub g: i64,
    pub r: i64,
    pub a: i64,
    pub hex: String,
}

#[derive(Default, Debug, Clone, PartialEq)]
pub struct Part {
    pub slot: String,
    pub part_key: String,
}

#[derive(Default, Debug, Clone, PartialEq)]
pub struct PrimaryComponentTick {
    pub end_tick_group: Option<String>,
}

#[derive(Default, Debug, Clone, PartialEq)]
pub struct SupportedAreas {
    pub area_class_name: String,
    pub area_id: i64,
}

#[derive(Default, Debug, Clone, PartialEq)]
pub struct SavedSelection {
    pub type_field: i64,
    pub index: i64,
    pub selection_index: i64,
}

#[derive(Default, Debug, Clone, PartialEq)]
pub struct Descriptor {
    pub static_mesh: ObjectPath,
    pub mobility: String,
    pub instance_start_cull_distance: i64,
    pub instance_end_cull_distance: i64,
    pub b_affect_distance_field_lighting: Option<bool>,
    pub override_materials: Vec<ObjectPath>,
    pub body_instance: Option<BodyInstance2>,
    pub b_cast_shadow: Option<bool>,
    pub b_cast_dynamic_shadow: Option<bool>,
    pub b_cast_static_shadow: Option<bool>,
    pub b_generate_overlap_events: Option<bool>,
}

#[derive(Default, Debug, Clone, PartialEq)]
pub struct BodyInstance2 {
    pub object_type: String,
    pub collision_enabled: Option<String>,
    pub collision_profile_name: String,
    pub collision_responses: Option<CollisionResponses>,
}

#[derive(Default, Debug, Clone, PartialEq)]
pub struct Crc {
    pub value: i64,
    pub b_valid: bool,
}

#[derive(Default, Debug, Clone, PartialEq)]
pub struct OverrideParameters {}

#[derive(Default, Debug, Clone, PartialEq)]
pub struct DisplayName {
    pub culture_invariant_string: Option<String>,
    pub table_id: Option<String>,
    pub key: Option<String>,
    pub source_string: Option<String>,
    pub localized_string: Option<String>,
    pub namespace: Option<String>,
}

#[derive(Default, Debug, Clone, PartialEq)]
pub struct GameplayTagQuery {
    pub token_stream_version: i64,
    pub tag_dictionary: Vec<TagDictionary>,
    pub query_token_stream: Vec<i64>,
    pub user_description: String,
    pub auto_description: String,
}

#[derive(Default, Debug, Clone, PartialEq)]
pub struct ParameterInfo {
    pub name: String,
    pub association: String,
    pub index: i64,
}

#[derive(Default, Debug, Clone, PartialEq)]
pub struct ConnectedSegment {
    pub segment: ObjectPath,
    pub end: bool,
}

#[derive(Default, Debug, Clone, PartialEq)]
pub struct PrimaryActorTick {
    pub b_can_ever_tick: Option<bool>,
}

#[derive(Default, Debug, Clone, PartialEq)]
pub struct DefaultInstance {
    pub object_type: String,
    pub collision_profile_name: String,
}

#[derive(Default, Debug, Clone, PartialEq)]
pub struct ChildProperty {
    pub type_field: String,
    pub name: String,
    pub flags: String,
    pub element_size: i64,
    pub property_flags: Option<String>,
    pub struct_field: Option<ObjectPath>,
}

#[derive(Default, Debug, Clone, PartialEq)]
pub struct CookedFormatData {
    pub phys_xpc: PhysXpc,
}

#[derive(Default, Debug, Clone, PartialEq)]
pub struct PhysXpc {
    pub bulk_data_flags: String,
    pub element_count: i64,
    pub size_on_disk: i64,
    pub offset_in_file: String,
}

#[derive(Default, Debug, Clone, PartialEq)]
pub struct FuncMap {
    pub execute_ubergraph_jeju_world: Option<ObjectPath>,
    pub receive_tick: Option<ObjectPath>,
}

#[derive(Default, Debug, Clone, PartialEq)]
pub struct EditorTags {
    pub blueprint_type: String,
}

} // verus!
