use motortown_extract::cascade::{resolve_attribute, resolve_list, resolve_with};

#[test]
fn instance_value_overrides_the_other_levels() {
    assert_eq!(resolve_attribute(vec![Some(1), Some(2), Some(3)], Some(9)), Some(1));
    assert_eq!(resolve_attribute(vec![Some(1), None, None], None), Some(1));
    assert_eq!(resolve_attribute(vec![Some("a"), None, Some("c")], Some("z")), Some("a"));
}

#[test]
fn type_default_is_asked_before_the_template() {
    assert_eq!(resolve_attribute(vec![None, Some(2), Some(3)], Some(9)), Some(2));
}

#[test]
fn template_value_is_the_last_resort() {
    assert_eq!(resolve_attribute(vec![None, None, Some(3)], Some(9)), Some(3));
    assert_eq!(resolve_attribute(vec![None, None, Some(3)], None), Some(3));
}

#[test]
fn fallback_applies_when_no_level_has_a_value() {
    assert_eq!(resolve_attribute(vec![None, None, None], Some(9)), Some(9));
    assert_eq!(resolve_attribute::<i32>(vec![None, None, None], None), None);
    assert_eq!(resolve_attribute(Vec::new(), Some(4)), Some(4));
}

#[test]
fn first_non_empty_list_wins() {
    let a = vec![1, 2];
    let b = vec![3];
    let c = vec![4, 5, 6];
    let none: Vec<i32> = Vec::new();
    assert_eq!(resolve_list(&a, &b, &c), Some(&a));
    assert_eq!(resolve_list(&none, &b, &c), Some(&b));
    assert_eq!(resolve_list(&none, &none, &c), Some(&c));
    assert_eq!(resolve_list(&a, &none, &none), Some(&a));
}

#[test]
fn empty_lists_count_as_absent() {
    let none: Vec<i32> = Vec::new();
    assert_eq!(resolve_list(&none, &none, &none), None);
}

#[test]
fn extractor_is_asked_in_order_until_it_yields() {
    let instance = ("", 0);
    let type_default = ("Mill", 3);
    let template = ("Base", 5);
    let name = |record: &(&str, i32)| {
        if record.0.is_empty() {
            None
        } else {
            Some(record.0.to_string())
        }
    };
    let all = vec![Some(&instance), Some(&type_default), Some(&template)];
    assert_eq!(resolve_with(&all, name, None), Some("Mill".to_string()));
    let gap = vec![Some(&instance), None, Some(&template)];
    assert_eq!(resolve_with(&gap, name, None), Some("Base".to_string()));
    let none = vec![Some(&instance), None, None];
    assert_eq!(resolve_with(&none, name, Some("fallback".to_string())), Some("fallback".to_string()));
    assert_eq!(resolve_with(&none, name, None), None);
    let number = |record: &(&str, i32)| if record.1 > 0 { Some(record.1) } else { None };
    assert_eq!(resolve_with(&all, number, Some(100)), Some(3));
    assert_eq!(resolve_with(&none, number, Some(100)), Some(100));
}

#[test]
fn extractor_is_not_asked_after_it_has_yielded() {
    let records = [1, 2, 3];
    let candidates: Vec<Option<&i32>> = records.iter().map(Some).collect();
    let asked = std::cell::Cell::new(0);
    let first_even = |record: &i32| {
        asked.set(asked.get() + 1);
        if record % 2 == 0 {
            Some(*record)
        } else {
            None
        }
    };
    assert_eq!(resolve_with(&candidates, first_even, None), Some(2));
    assert_eq!(asked.get(), 2);
}
