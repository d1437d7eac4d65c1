use build_script::Value;

#[test]
fn test_is_singular() {
    assert!(Value::Singular("".into()).is_singular())
}

#[test]
fn test_singular_display() {
    let value = Value::Singular("singular".into());
    assert_eq!(value.to_string(), "singular")
}

#[test]
fn test_is_mapping() {
    assert!(Value::Mapping("".into(), "".into()).is_mapping())
}

#[test]
fn test_mapping_display() {
    let value = Value::Mapping("key".into(), "value".into());
    assert_eq!(value.to_string(), "key=\"value\"")
}

#[test]
fn test_is_optional_key() {
    assert!(Value::OptionalKey(None, "".into()).is_optional_key())
}

#[test]
fn test_optional_key_display() {
    let value = Value::OptionalKey(Some("key".into()), "value".into());
    assert_eq!(value.to_string(), "key=\"value\"")
}

#[test]
fn test_optional_key_display_none() {
    let value = Value::OptionalKey(None, "value".into());
    assert_eq!(value.to_string(), "value")
}

#[test]
fn test_is_unquoted_optional_key() {
    assert!(Value::UnquotedOptionalKey(None, "".into()).is_unquoted_optional_key())
}

#[test]
fn test_unquoted_optional_key_display() {
    let value = Value::UnquotedOptionalKey(Some("key".into()), "value".into());
    assert_eq!(value.to_string(), "key=value")
}

#[test]
fn test_unquoted_optional_key_display_none() {
    let value = Value::UnquotedOptionalKey(None, "value".into());
    assert_eq!(value.to_string(), "value")
}

#[test]
fn test_is_optional_value() {
    assert!(Value::OptionalValue("".into(), None).is_optional_value())
}

#[test]
fn test_optional_value_display() {
    let value = Value::OptionalValue("key".into(), Some("value".into()));
    assert_eq!(value.to_string(), "key=\"value\"")
}

#[test]
fn test_optional_value_display_none() {
    let value = Value::OptionalValue("key".into(), None);
    assert_eq!(value.to_string(), "key")
}

#[test]
fn test_is_unquoted_optional_value() {
    assert!(Value::UnquotedOptionalValue("".into(), None).is_unquoted_optional_value())
}

#[test]
fn test_unquoted_optional_value_display() {
    let value = Value::UnquotedOptionalValue("key".into(), Some("value".into()));
    assert_eq!(value.to_string(), "key=value")
}

#[test]
fn test_unquoted_optional_value_display_none() {
    let value = Value::UnquotedOptionalValue("key".into(), None);
    assert_eq!(value.to_string(), "key")
}

#[test]
fn test_is_unquoted_mapping() {
    assert!(Value::UnquotedMapping("".into(), "".into()).is_unquoted_mapping())
}

#[test]
fn test_unquoted_mapping_display() {
    let value = Value::UnquotedMapping("key".into(), "value".into());
    assert_eq!(value.to_string(), "key=value")
}

#[test]
fn predicates_tell_shapes_apart() {
    let value = Value::Mapping("k".into(), "v".into());
    assert!(!value.is_singular());
    assert!(!value.is_unquoted_mapping());
    assert!(!value.is_optional_key());
    let value = Value::UnquotedOptionalValue("k".into(), None);
    assert!(!value.is_optional_value());
    assert!(!value.is_unquoted_optional_key());
}

#[test]
fn rendering_repeats_exactly() {
    let values = vec![
        Value::Singular("s".into()),
        Value::Mapping("k".into(), "v".into()),
        Value::OptionalKey(Some("k".into()), "v".into()),
        Value::UnquotedOptionalKey(None, "v".into()),
        Value::OptionalValue("k".into(), None),
        Value::UnquotedOptionalValue("k".into(), Some("v".into())),
        Value::UnquotedMapping("k".into(), "v".into()),
    ];
    let first: Vec<String> = values.iter().map(|v| v.to_string()).collect();
    let second: Vec<String> = values.iter().rev().map(|v| v.to_string()).collect();
    let second: Vec<String> = second.into_iter().rev().collect();
    assert_eq!(first, second);
    assert_eq!(
        first,
        vec!["s", "k=\"v\"", "k=\"v\"", "v", "k", "k=v", "k=v"]
    );
}

#[test]
fn empty_parts_are_kept() {
    assert_eq!(Value::Mapping("".into(), "".into()).to_string(), "=\"\"");
    assert_eq!(Value::UnquotedMapping("".into(), "".into()).to_string(), "=");
    assert_eq!(Value::Singular("".into()).to_string(), "");
}
