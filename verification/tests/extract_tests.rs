use motortown_extract::capacity::Capacity;
use motortown_extract::extract::{
    check_is_terminal, extract_additional_destinations, extract_area_flag, extract_area_name,
    extract_area_size, extract_bus_stop_guid, extract_delivery_point_guid, extract_housereg_key,
    extract_max_storage, extract_name, extract_relative_location, extract_top_view_lines,
};
use motortown_extract::output_type;
use motortown_extract::ue_type::{
    AreaNameTexts, DeliveryPointName, MapIconName, MissionPointName, Name, ObjectPath, PointName,
    Properties, Text, UObject, Vector3,
};

fn extract_object(properties: Properties<f64>) -> UObject<f64> {
    UObject { properties: Some(properties), ..Default::default() }
}

fn extract_bare() -> UObject<f64> {
    UObject { properties: None, ..Default::default() }
}

fn extract_text(localized: Option<&str>) -> Text {
    Text { localized_string: localized.map(|s| s.to_string()), ..Default::default() }
}

fn extract_point_name(fragments: &[Option<&str>]) -> Option<PointName> {
    Some(PointName { texts: fragments.iter().map(|f| extract_text(*f)).collect() })
}

fn extract_mission(localized: Option<&str>, neutral: Option<&str>) -> Option<MissionPointName> {
    Some(MissionPointName {
        localized_string: localized.map(|s| s.to_string()),
        culture_invariant_string: neutral.map(|s| s.to_string()),
        ..Default::default()
    })
}

fn extract_delivery(
    localized: Option<&str>,
    neutral: Option<&str>,
    number: Option<i64>,
) -> Option<DeliveryPointName> {
    Some(DeliveryPointName {
        name: Name {
            localized_string: localized.map(|s| s.to_string()),
            culture_invariant_string: neutral.map(|s| s.to_string()),
            ..Default::default()
        },
        number,
    })
}

fn extract_icon(localized: &str) -> MapIconName {
    MapIconName { localized_string: localized.to_string(), ..Default::default() }
}

#[test]
fn point_name_fragments_are_joined_with_spaces() {
    let obj = extract_object(Properties {
        point_name: extract_point_name(&[Some("Old"), None, Some("Mill")]),
        mission_point_name: extract_mission(Some("Mission"), None),
        ..Default::default()
    });
    assert_eq!(extract_name(&obj), Some("Old  Mill".to_string()));
}

#[test]
fn empty_point_name_lets_the_next_strategy_win() {
    let obj = extract_object(Properties {
        point_name: extract_point_name(&[]),
        mission_point_name: extract_mission(Some("Mission"), Some("Neutral")),
        delivery_point_name: extract_delivery(Some("Depot"), None, Some(3)),
        ..Default::default()
    });
    assert_eq!(extract_name(&obj), Some("Mission".to_string()));
    let blank = extract_object(Properties {
        point_name: extract_point_name(&[None]),
        delivery_point_name: extract_delivery(Some("Depot"), None, Some(3)),
        ..Default::default()
    });
    assert_eq!(extract_name(&blank), Some("Depot 3".to_string()));
}

#[test]
fn mission_name_falls_back_to_the_neutral_text() {
    let obj = extract_object(Properties {
        mission_point_name: extract_mission(None, Some("Neutral")),
        ..Default::default()
    });
    assert_eq!(extract_name(&obj), Some("Neutral".to_string()));
    let empty = extract_object(Properties {
        mission_point_name: extract_mission(Some(""), Some("Neutral")),
        delivery_point_name: extract_delivery(None, Some("Yard"), None),
        ..Default::default()
    });
    // A localized text that is present but empty is the outcome of the
    // strategy; being empty, it does not win.
    assert_eq!(extract_name(&empty), Some("Yard".to_string()));
}

#[test]
fn delivery_name_gets_its_number_as_suffix() {
    let numbered = extract_object(Properties {
        delivery_point_name: extract_delivery(Some("Depot"), Some("X"), Some(12)),
        ..Default::default()
    });
    assert_eq!(extract_name(&numbered), Some("Depot 12".to_string()));
    let negative = extract_object(Properties {
        delivery_point_name: extract_delivery(None, Some("Depot"), Some(-4)),
        ..Default::default()
    });
    assert_eq!(extract_name(&negative), Some("Depot -4".to_string()));
    let plain = extract_object(Properties {
        delivery_point_name: extract_delivery(Some("Depot"), None, None),
        ..Default::default()
    });
    assert_eq!(extract_name(&plain), Some("Depot".to_string()));
    let nameless = extract_object(Properties {
        delivery_point_name: extract_delivery(None, None, Some(5)),
        ..Default::default()
    });
    assert_eq!(extract_name(&nameless), None);
}

#[test]
fn object_without_name_attributes_has_no_name() {
    assert_eq!(extract_name(&extract_object(Properties::default())), None);
    assert_eq!(extract_name(&extract_bare()), None);
}

#[test]
fn guid_is_given_as_written_and_in_short_form() {
    let obj = extract_object(Properties {
        delivery_point_guid: Some("AB12-CD34-EF".to_string()),
        bus_stop_guid: Some("F0-0D".to_string()),
        ..Default::default()
    });
    assert_eq!(
        extract_delivery_point_guid(&obj),
        (Some("AB12-CD34-EF".to_string()), Some("ab12cd34ef".to_string()))
    );
    assert_eq!(extract_bus_stop_guid(&obj), (Some("F0-0D".to_string()), Some("f00d".to_string())));
    assert_eq!(extract_delivery_point_guid(&extract_bare()), (None, None));
    assert_eq!(extract_bus_stop_guid(&extract_object(Properties::default())), (None, None));
}

#[test]
fn plain_attributes_are_read_or_absent() {
    let obj = extract_object(Properties {
        relative_location: Some(Vector3 { x: 1.5, y: -2.0, z: 3.25 }),
        max_storage: Capacity::new(40),
        houseg_key: Some("H_12".to_string()),
        tags: vec!["Shop".to_string(), "BusTerminal".to_string()],
        additional_destinations: Some(vec![ObjectPath {
            object_name: "n".to_string(),
            object_path: "World.2".to_string(),
        }]),
        area_size: Some(Vector3 { x: 10.0, y: 20.0, z: 0.0 }),
        ..Default::default()
    });
    let fallback = Vector3 { x: 0.0, y: 0.0, z: 0.0 };
    assert_eq!(
        extract_relative_location(&obj),
        Some(output_type::Vector3 { x: 1.5, y: -2.0, z: 3.25 })
    );
    assert_eq!(extract_max_storage(&obj), Capacity::new(40));
    assert_eq!(extract_housereg_key(&obj), "H_12");
    assert!(check_is_terminal(&obj));
    assert_eq!(extract_additional_destinations(&obj).len(), 1);
    assert_eq!(extract_area_size(&obj, fallback), Vector3 { x: 10.0, y: 20.0, z: 0.0 });

    let bare = extract_bare();
    assert_eq!(extract_relative_location(&bare), None);
    assert_eq!(extract_max_storage(&bare), None);
    assert_eq!(extract_housereg_key(&bare), "");
    assert!(!check_is_terminal(&bare));
    assert!(extract_additional_destinations(&bare).is_empty());
    assert_eq!(extract_area_size(&bare, fallback), fallback);
    let untagged = extract_object(Properties {
        tags: vec!["busterminal".to_string()],
        ..Default::default()
    });
    assert!(!check_is_terminal(&untagged));
}

#[test]
fn area_name_prefers_the_direct_name() {
    let direct = extract_object(Properties {
        area_name: Some(extract_icon("Harbour")),
        area_name_texts: Some(AreaNameTexts { texts: vec![extract_icon("Other")] }),
        ..Default::default()
    });
    assert_eq!(extract_area_name(&direct), "Harbour");
    let fragments = extract_object(Properties {
        area_name: Some(extract_icon("")),
        area_name_texts: Some(AreaNameTexts {
            texts: vec![extract_icon("North"), extract_icon("Gate")],
        }),
        ..Default::default()
    });
    assert_eq!(extract_area_name(&fragments), "North Gate");
    assert_eq!(extract_area_name(&extract_object(Properties::default())), "");
    assert_eq!(extract_area_name(&extract_bare()), "");
}

#[test]
fn area_flag_and_outline_are_read() {
    let obj = extract_object(Properties {
        area_volume_flags: vec![
            "EMTAreaVolumeFlags::Zone".to_string(),
            "EMTAreaVolumeFlags::SmallArea".to_string(),
        ],
        top_view_lines: vec![
            Vector3 { x: 1.0, y: 2.0, z: 9.0 },
            Vector3 { x: 3.0, y: 4.0, z: 9.0 },
        ],
        ..Default::default()
    });
    assert_eq!(extract_area_flag(&obj), "EMTAreaVolumeFlags::Zone");
    assert_eq!(
        extract_top_view_lines(&obj),
        vec![output_type::Vector2 { x: 1.0, y: 2.0 }, output_type::Vector2 { x: 3.0, y: 4.0 }]
    );
    assert_eq!(extract_area_flag(&extract_bare()), "");
    assert!(extract_top_view_lines(&extract_bare()).is_empty());
}

#[test]
fn vectors_convert_between_source_and_output() {
    let source = Vector3 { x: 1.0, y: 2.0, z: 3.0 };
    let out: output_type::Vector3<f64> = source.into();
    assert_eq!(out, output_type::Vector3 { x: 1.0, y: 2.0, z: 3.0 });
    let flat: output_type::Vector2<f64> = out.into();
    assert_eq!(flat, output_type::Vector2 { x: 1.0, y: 2.0 });
    let direct: output_type::Vector2<f64> = source.into();
    assert_eq!(direct, flat);
}
