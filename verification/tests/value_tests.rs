//! Tests of the value tree and the extraction protocol.

use prefer::ConfigValue;
use prefer::Dict;
use prefer::Error;
use prefer::FromValue;

fn obj(items: Vec<(&str, ConfigValue)>) -> ConfigValue {
    ConfigValue::Object(items.into_iter().map(|(k, v)| (k.to_string(), v)).collect())
}

fn num(n: i64) -> ConfigValue {
    ConfigValue::Integer(n)
}

fn string(s: &str) -> ConfigValue {
    ConfigValue::String(s.to_string())
}

fn array(items: Vec<ConfigValue>) -> ConfigValue {
    ConfigValue::Array(items)
}

#[test]
fn test_from_value_bool() {
    assert!(bool::from_value(&ConfigValue::Bool(true)).unwrap());
    assert!(!bool::from_value(&ConfigValue::Bool(false)).unwrap());
    assert!(bool::from_value(&string("true")).is_err());
}

#[test]
fn test_from_value_integers() {
    assert_eq!(i32::from_value(&num(42)).unwrap(), 42);
    assert_eq!(i64::from_value(&num(-100)).unwrap(), -100);
    assert_eq!(u16::from_value(&num(8080)).unwrap(), 8080);
    assert!(i8::from_value(&num(1000)).is_err()); // overflow
}

#[test]
fn test_from_value_string() {
    assert_eq!(String::from_value(&string("hello")).unwrap(), "hello");
    assert!(String::from_value(&num(123)).is_err());
}

#[test]
fn test_from_value_vec() {
    let result: Vec<i32> = Vec::from_value(&array(vec![num(1), num(2), num(3)])).unwrap();
    assert_eq!(result, vec![1, 2, 3]);
}

#[test]
fn test_from_value_option() {
    assert_eq!(Option::<i32>::from_value(&ConfigValue::Null).unwrap(), None);
    assert_eq!(Option::<i32>::from_value(&num(42)).unwrap(), Some(42));
}

#[test]
fn test_from_value_dict() {
    let result: Dict<i32> = Dict::from_value(&obj(vec![("a", num(1)), ("b", num(2))])).unwrap();
    assert_eq!(result.get("a"), Some(&1));
    assert_eq!(result.get("b"), Some(&2));
}

#[test]
fn test_from_value_config_value() {
    let value = obj(vec![("nested", ConfigValue::Bool(true))]);
    let result = ConfigValue::from_value(&value).unwrap();
    assert_eq!(result, value);
}

#[test]
fn test_config_value_accessors() {
    let obj = obj(vec![
        ("name", string("test")),
        ("count", num(42)),
        ("enabled", ConfigValue::Bool(true)),
    ]);

    assert!(obj.get("name").unwrap().as_str() == Some("test"));
    assert!(obj.get("count").unwrap().as_i64() == Some(42));
    assert!(obj.get("enabled").unwrap().as_bool() == Some(true));
    assert!(obj.get("missing").is_none());
}

#[test]
fn test_is_null() {
    assert!(ConfigValue::Null.is_null());
    assert!(!ConfigValue::Bool(false).is_null());
    assert!(!num(0).is_null());
    assert!(!string("").is_null());
}

#[test]
fn test_as_u64() {
    assert_eq!(num(42).as_u64(), Some(42));
    assert_eq!(num(0).as_u64(), Some(0));
    assert_eq!(num(-1).as_u64(), None);
    assert_eq!(string("42").as_u64(), None);
}

#[test]
fn test_as_array() {
    let arr = array(vec![num(1), num(2)]);
    assert!(arr.as_array().is_some());
    assert_eq!(arr.as_array().unwrap().len(), 2);

    assert!(num(42).as_array().is_none());
}

#[test]
fn test_kind_name() {
    assert_eq!(ConfigValue::Null.kind_name(), "null");
    assert_eq!(ConfigValue::Bool(true).kind_name(), "boolean");
    assert_eq!(num(1).kind_name(), "integer");
    assert_eq!(ConfigValue::Float((1.0f64).to_bits()).kind_name(), "float");
    assert_eq!(string("").kind_name(), "string");
    assert_eq!(array(vec![]).kind_name(), "array");
    assert_eq!(obj(vec![]).kind_name(), "object");
}

#[test]
fn test_default() {
    let value: ConfigValue = Default::default();
    assert!(value.is_null());
}

#[test]
fn test_as_bool_non_bool() {
    assert!(num(1).as_bool().is_none());
    assert!(string("true").as_bool().is_none());
}

#[test]
fn test_as_i64_non_integer() {
    assert!(string("42").as_i64().is_none());
    assert!(ConfigValue::Float((42.0f64).to_bits()).as_i64().is_none());
}

#[test]
fn test_as_str_non_string() {
    assert!(num(42).as_str().is_none());
    assert!(ConfigValue::Null.as_str().is_none());
}

#[test]
fn test_as_object_non_obj() {
    assert!(num(42).as_object().is_none());
    assert!(array(vec![]).as_object().is_none());
}

#[test]
fn test_get_on_non_obj() {
    assert!(num(42).get("key").is_none());
}

#[test]
fn test_as_float_bits() {
    assert_eq!(
        ConfigValue::Float((1.5f64).to_bits()).as_float_bits(),
        Some((1.5f64).to_bits())
    );
    assert!(num(1).as_float_bits().is_none());
}

#[test]
fn test_from_value_usize() {
    assert_eq!(usize::from_value(&num(42)).unwrap(), 42);
    assert_eq!(usize::from_value(&num(0)).unwrap(), 0);
    assert!(usize::from_value(&num(-1)).is_err());
    assert!(usize::from_value(&string("42")).is_err());
}

#[test]
fn test_from_value_isize() {
    assert_eq!(isize::from_value(&num(42)).unwrap(), 42);
    assert_eq!(isize::from_value(&num(-42)).unwrap(), -42);
    assert_eq!(isize::from_value(&num(0)).unwrap(), 0);
    assert!(isize::from_value(&string("42")).is_err());
}

#[test]
fn test_from_value_i8_overflow() {
    assert!(i8::from_value(&num(1000)).is_err());
}

#[test]
fn test_from_value_i16_overflow() {
    assert!(i16::from_value(&num(100000)).is_err());
}

#[test]
fn test_from_value_i32_overflow() {
    assert!(i32::from_value(&num(i64::MAX)).is_err());
}

#[test]
fn test_from_value_u8_overflow() {
    assert!(u8::from_value(&num(1000)).is_err());
}

#[test]
fn test_from_value_u16_overflow() {
    assert!(u16::from_value(&num(100000)).is_err());
}

#[test]
fn test_from_value_u32_overflow() {
    assert!(u32::from_value(&num(i64::MAX)).is_err());
}

#[test]
fn test_from_value_negative_unsigned() {
    assert!(u8::from_value(&num(-1)).is_err());
    assert!(u16::from_value(&num(-1)).is_err());
    assert!(u32::from_value(&num(-1)).is_err());
    assert!(u64::from_value(&num(-1)).is_err());
}

#[test]
fn test_from_value_u8_out_of_range_is_conversion_error() {
    match u8::from_value(&num(300)).unwrap_err() {
        Error::ConversionError { .. } => {}
        other => panic!("expected ConversionError, got {:?}", other),
    }
    match u8::from_value(&num(-1)).unwrap_err() {
        Error::ConversionError { .. } => {}
        other => panic!("expected ConversionError, got {:?}", other),
    }
}

#[test]
fn test_from_value_wrong_types() {
    assert!(bool::from_value(&num(123)).is_err());
    assert!(i64::from_value(&string("string")).is_err());
    assert!(u64::from_value(&string("string")).is_err());
    assert!(String::from_value(&num(123)).is_err());
}

#[test]
fn test_from_value_vec_wrong_type() {
    let result: Result<Vec<i32>, _> = Vec::from_value(&string("not array"));
    assert!(result.is_err());
}

#[test]
fn test_from_value_vec_invalid_element() {
    let result: Result<Vec<i32>, _> =
        Vec::from_value(&array(vec![num(1), string("two"), num(3)]));
    assert!(result.is_err());
}

#[test]
fn test_vec_error_names_failing_index() {
    let result: Result<Vec<i32>, _> =
        Vec::from_value(&array(vec![num(1), string("x"), num(3)]));
    match result.unwrap_err() {
        Error::ConversionError { key, .. } => assert!(key.contains("[1]")),
        other => panic!("expected ConversionError, got {:?}", other),
    }
}

#[test]
fn test_from_value_dict_wrong_type() {
    let result: Result<Dict<i32>, _> = Dict::from_value(&array(vec![num(1), num(2)]));
    assert!(result.is_err());
}

#[test]
fn test_from_value_dict_invalid_value() {
    let result: Result<Dict<i32>, _> = Dict::from_value(&obj(vec![("a", string("not number"))]));
    assert!(result.is_err());
}

#[test]
fn test_dict_error_names_failing_key() {
    let result: Result<Dict<i32>, _> =
        Dict::from_value(&obj(vec![("a", num(1)), ("bad", string("x"))]));
    match result.unwrap_err() {
        Error::ConversionError { key, .. } => assert!(key.contains("bad")),
        other => panic!("expected ConversionError, got {:?}", other),
    }
}

#[test]
fn test_from_value_option_some() {
    let result: Option<String> = Option::from_value(&string("hello")).unwrap();
    assert_eq!(result, Some("hello".to_string()));
}

#[test]
fn test_error_message_names_found_kind() {
    match bool::from_value(&string("true")).unwrap_err() {
        Error::ConversionError { target_type, source, .. } => {
            assert_eq!(target_type, "bool");
            assert_eq!(source, "expected boolean, found string");
        }
        other => panic!("expected ConversionError, got {:?}", other),
    }
}

#[test]
fn test_usize_out_of_range_message() {
    match usize::from_value(&num(-7)).unwrap_err() {
        Error::ConversionError { target_type, source, .. } => {
            assert_eq!(target_type, "usize");
            assert_eq!(source, "value -7 out of range for usize");
        }
        other => panic!("expected ConversionError, got {:?}", other),
    }
}

#[test]
fn test_with_key_conversion_error() {
    let err = Error::ConversionError {
        key: String::new(),
        target_type: "i32".into(),
        source: "test".into(),
    };
    let result = err.with_key("my.key");
    match result {
        Error::ConversionError { key, .. } => assert_eq!(key, "my.key"),
        _ => panic!("expected ConversionError"),
    }
}

#[test]
fn test_with_key_other_error() {
    let err = Error::FileNotFound("test.json".into());
    let result = err.with_key("ignored");
    assert!(matches!(result, Error::FileNotFound(s) if s == "test.json"));
}

#[test]
fn test_deep_clone_is_deep_copy() {
    let original = obj(vec![
        ("arr", array(vec![num(1), string("two")])),
        ("nested", obj(vec![("x", ConfigValue::Bool(true))])),
    ]);
    let copy = original.clone();
    assert_eq!(copy, original);
}

#[test]
fn test_extract_free_function() {
    let n: u16 = prefer::extract(&num(8080)).unwrap();
    assert_eq!(n, 8080);
    let err: Result<u16, _> = prefer::extract(&string("x"));
    assert!(err.is_err());
}

#[test]
fn test_render_scalars() {
    assert_eq!(ConfigValue::Null.render(), "null");
    assert_eq!(ConfigValue::Bool(true).render(), "true");
    assert_eq!(ConfigValue::Bool(false).render(), "false");
    assert_eq!(num(42).render(), "42");
    assert_eq!(num(-7).render(), "-7");
    assert_eq!(string("hello").render(), "\"hello\"");
    assert_eq!(
        ConfigValue::Float((1.5f64).to_bits()).render(),
        format!("float({})", (1.5f64).to_bits())
    );
}

#[test]
fn test_render_array() {
    let arr = array(vec![num(1), num(2), num(3)]);
    assert_eq!(arr.render(), "[1, 2, 3]");
    assert_eq!(array(vec![]).render(), "[]");
    assert_eq!(array(vec![num(42)]).render(), "[42]");
}

#[test]
fn test_render_object() {
    let o = obj(vec![("key", num(42))]);
    assert_eq!(o.render(), "{\"key\": 42}");
    assert_eq!(obj(vec![]).render(), "{}");
    let two = obj(vec![("a", num(1)), ("b", string("x"))]);
    assert_eq!(two.render(), "{\"a\": 1, \"b\": \"x\"}");
}

#[test]
fn test_structural_equality() {
    let a = obj(vec![("x", array(vec![num(1), string("s")]))]);
    let b = obj(vec![("x", array(vec![num(1), string("s")]))]);
    let c = obj(vec![("x", array(vec![num(2), string("s")]))]);
    assert_eq!(a, b);
    assert_ne!(a, c);
    assert_ne!(a, num(1));
    assert!(a.deep_eq(&b));
    assert!(!a.deep_eq(&c));
}
