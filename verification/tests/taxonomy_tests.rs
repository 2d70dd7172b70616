use motortown_extract::capacity::Capacity;
use motortown_extract::taxonomy::{expand_storage_configs, text_list, Taxonomy};
use motortown_extract::ue_type::StorageConfig;

fn taxonomy_rule(cargo_type: &str, cargo_key: &str, capacity: i64) -> StorageConfig {
    StorageConfig {
        cargo_type: cargo_type.to_string(),
        cargo_key: cargo_key.to_string(),
        max_storage: Capacity::new(capacity),
    }
}

fn taxonomy_food() -> Taxonomy {
    let mut t = Taxonomy::new();
    t.insert("Food".to_string(), text_list(&["Pizza_01", "Burger_01"]));
    t
}

#[test]
fn type_rule_expands_to_every_item_of_its_type() {
    let rules = vec![taxonomy_rule("Food", "None", 30)];
    let out = expand_storage_configs(&rules, &taxonomy_food());
    assert_eq!(
        out,
        vec![
            taxonomy_rule("Food", "None", 30),
            taxonomy_rule("Food", "Pizza_01", 30),
            taxonomy_rule("Food", "Burger_01", 30),
        ]
    );
}

#[test]
fn expansion_is_additive() {
    let rules = vec![
        taxonomy_rule("Food", "Pizza_01", 5),
        taxonomy_rule("Food", "None", 30),
        taxonomy_rule("Wood", "None", 7),
        taxonomy_rule("Food", "None", 0),
    ];
    let out = expand_storage_configs(&rules, &taxonomy_food());
    assert!(out.len() >= rules.len());
    assert_eq!(&out[..rules.len()], &rules[..]);
    assert_eq!(
        &out[rules.len()..],
        &[
            taxonomy_rule("Food", "Pizza_01", 30),
            taxonomy_rule("Food", "Burger_01", 30),
            taxonomy_rule("Food", "Pizza_01", 0),
            taxonomy_rule("Food", "Burger_01", 0),
        ][..]
    );
}

#[test]
fn rules_with_a_key_or_an_unknown_type_are_not_expanded() {
    let rules = vec![taxonomy_rule("Food", "Pizza_01", 5), taxonomy_rule("Stone", "None", 9)];
    let out = expand_storage_configs(&rules, &taxonomy_food());
    assert_eq!(out, rules);
    assert!(expand_storage_configs(&Vec::new(), &taxonomy_food()).is_empty());
}

#[test]
fn taxonomy_insert_replaces_a_type() {
    let mut t = taxonomy_food();
    assert_eq!(t.len(), 1);
    t.insert("Food".to_string(), text_list(&["Soup"]));
    assert_eq!(t.len(), 1);
    assert_eq!(t.get("Food"), Some(&vec!["Soup".to_string()]));
    assert_eq!(t.get("food"), None);
}

#[test]
fn standard_taxonomy_lists_the_types_of_the_game() {
    let t = Taxonomy::standard();
    assert_eq!(t.len(), 15);
    assert_eq!(t.get("EDeliveryCargoType::Coal"), Some(&vec!["Coal".to_string()]));
    assert_eq!(
        t.get("EDeliveryCargoType::Sand"),
        Some(&vec!["Sand".to_string(), "FineSand".to_string()])
    );
    assert_eq!(t.get("EDeliveryCargoType::SmallPackage").unwrap().len(), 13);
    assert_eq!(t.get("EDeliveryCargoType::LargePackage").unwrap().len(), 15);
    assert_eq!(t.get("EDeliveryCargoType::None").unwrap().len(), 16);
    assert_eq!(t.get("EDeliveryCargoType::Food").unwrap()[6], "Burger_01");
    assert_eq!(t.get("EDeliveryCargoType::Container").unwrap().len(), 5);
    assert_eq!(t.get("EDeliveryCargoType::Unknown"), None);
}

#[test]
fn standard_taxonomy_expands_a_catch_all_rule() {
    let rules = vec![taxonomy_rule("EDeliveryCargoType::Garbage", "None", 12)];
    let out = expand_storage_configs(&rules, &Taxonomy::standard());
    assert_eq!(
        out,
        vec![
            taxonomy_rule("EDeliveryCargoType::Garbage", "None", 12),
            taxonomy_rule("EDeliveryCargoType::Garbage", "TrashBag", 12),
            taxonomy_rule("EDeliveryCargoType::Garbage", "Trash_Big", 12),
        ]
    );
}
