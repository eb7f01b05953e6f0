use getters::attrs::{getter_kind_of, parse_field_attributes, GetterKind};
use getters::model::{attr_supported_check, attrs_supported_check, skip_new_requested};
use getters::model::{AttrMeta, AttrValue};

fn path(name: &str) -> AttrMeta {
    AttrMeta::Path { name: name.to_string() }
}

fn list(name: &str) -> AttrMeta {
    AttrMeta::List { name: name.to_string() }
}

fn name_value(name: &str, value: &str) -> AttrMeta {
    AttrMeta::NameValue { name: name.to_string(), value: AttrValue::Str(value.to_string()) }
}

#[test]
fn no_attributes_give_defaults() {
    let attrs: Vec<AttrMeta> = Vec::new();
    let a = parse_field_attributes(&attrs);
    assert!(!a.use_deref);
    assert!(!a.use_as_ref);
    assert!(!a.generate_mut);
    assert!(!a.skip_getter);
    assert!(!a.copy);
    assert_eq!(a.custom_logic, None);
    assert_eq!(a.custom_return_type, None);
    assert_eq!(getter_kind_of(&a), GetterKind::Borrow);
}

#[test]
fn bare_switches_are_collected() {
    let attrs = vec![path("use_deref"), path("get_mut")];
    let a = parse_field_attributes(&attrs);
    assert!(a.use_deref);
    assert!(a.generate_mut);
    assert!(!a.use_as_ref);
    assert!(!a.copy);
    assert!(!a.skip_getter);
}

#[test]
fn unknown_attributes_are_ignored() {
    let attrs = vec![path("serde"), list("allow"), name_value("doc", "hidden")];
    let a = parse_field_attributes(&attrs);
    assert!(!a.use_deref && !a.use_as_ref && !a.generate_mut && !a.skip_getter && !a.copy);
    assert_eq!(a.custom_logic, None);
    assert_eq!(a.custom_return_type, None);
}

#[test]
fn return_type_is_kept_when_it_parses() {
    let attrs = vec![name_value("return_type", "String")];
    let a = parse_field_attributes(&attrs);
    assert_eq!(a.custom_return_type, Some("String".to_string()));
}

#[test]
fn return_type_is_dropped_when_it_does_not_parse() {
    let attrs = vec![name_value("return_type", "not a type")];
    let a = parse_field_attributes(&attrs);
    assert_eq!(a.custom_return_type, None);
}

#[test]
fn later_return_type_overwrites_earlier() {
    let attrs = vec![name_value("return_type", "u32"), name_value("return_type", "not a type")];
    let a = parse_field_attributes(&attrs);
    assert_eq!(a.custom_return_type, None);

    let attrs = vec![name_value("return_type", "not a type"), name_value("return_type", "u32")];
    let a = parse_field_attributes(&attrs);
    assert_eq!(a.custom_return_type, Some("u32".to_string()));
}

#[test]
fn getter_logic_is_kept_verbatim() {
    let attrs = vec![name_value("getter_logic", "u32::from")];
    let a = parse_field_attributes(&attrs);
    assert_eq!(a.custom_logic, Some("u32::from".to_string()));
}

#[test]
fn custom_logic_wins_over_every_switch() {
    let attrs = vec![
        path("copy"),
        path("use_deref"),
        path("use_as_ref"),
        name_value("getter_logic", "f"),
    ];
    let a = parse_field_attributes(&attrs);
    assert_eq!(getter_kind_of(&a), GetterKind::CustomLogic);
}

#[test]
fn copy_wins_over_deref_and_as_ref() {
    let attrs = vec![path("use_deref"), path("use_as_ref"), path("copy")];
    let a = parse_field_attributes(&attrs);
    assert_eq!(getter_kind_of(&a), GetterKind::Copied);
}

#[test]
fn deref_wins_over_as_ref() {
    let attrs = vec![path("use_as_ref"), path("use_deref")];
    let a = parse_field_attributes(&attrs);
    assert_eq!(getter_kind_of(&a), GetterKind::Deref);
}

#[test]
fn as_ref_is_chosen_alone() {
    let attrs = vec![path("use_as_ref")];
    let a = parse_field_attributes(&attrs);
    assert_eq!(getter_kind_of(&a), GetterKind::AsRef);
}

#[test]
fn non_literal_values_are_ignored() {
    let attrs = vec![AttrMeta::NameValue {
        name: "return_type".to_string(),
        value: AttrValue::OtherExpr,
    }];
    let a = parse_field_attributes(&attrs);
    assert_eq!(a.custom_return_type, None);
}

#[test]
fn support_check_refuses_non_string_literals() {
    let bad = AttrMeta::NameValue { name: "return_type".to_string(), value: AttrValue::NonStrLit };
    assert!(!attr_supported_check(&bad));
    let bad_logic =
        AttrMeta::NameValue { name: "getter_logic".to_string(), value: AttrValue::NonStrLit };
    assert!(!attr_supported_check(&bad_logic));
    let other_name = AttrMeta::NameValue { name: "doc".to_string(), value: AttrValue::NonStrLit };
    assert!(attr_supported_check(&other_name));
    let other_value =
        AttrMeta::NameValue { name: "return_type".to_string(), value: AttrValue::OtherExpr };
    assert!(attr_supported_check(&other_value));
    assert!(attrs_supported_check(&vec![other_name, other_value, path("use_deref")]));
    assert!(!attrs_supported_check(&vec![path("use_deref"), bad]));
}

#[test]
fn skip_new_is_seen_in_any_attribute_form() {
    assert!(skip_new_requested(&vec![path("skip_new")]));
    assert!(skip_new_requested(&vec![list("skip_new")]));
    assert!(skip_new_requested(&vec![name_value("skip_new", "yes")]));
    assert!(skip_new_requested(&vec![path("serde"), path("skip_new")]));
    assert!(!skip_new_requested(&vec![path("serde")]));
    assert!(!skip_new_requested(&Vec::new()));
}
