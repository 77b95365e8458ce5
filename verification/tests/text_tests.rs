//! Tests of the text utilities and the source descriptions.

use prefer::ConfigValue;
use prefer::source::EnvSource;
use prefer::source::FileSource;
use prefer::source::MemorySource;
use prefer::text::contains_substr;
use prefer::text::i64_to_string;
use prefer::text::parse_i64;
use prefer::text::starts_with;
use prefer::text::str_eq;
use prefer::text::u64_to_string;

#[test]
fn test_parse_i64_plain() {
    assert_eq!(parse_i64("0"), Some(0));
    assert_eq!(parse_i64("8080"), Some(8080));
    assert_eq!(parse_i64("007"), Some(7));
    assert_eq!(parse_i64("+5"), Some(5));
    assert_eq!(parse_i64("-42"), Some(-42));
}

#[test]
fn test_parse_i64_bounds() {
    assert_eq!(parse_i64("9223372036854775807"), Some(i64::MAX));
    assert_eq!(parse_i64("-9223372036854775808"), Some(i64::MIN));
    assert_eq!(parse_i64("9223372036854775808"), None);
    assert_eq!(parse_i64("-9223372036854775809"), None);
    assert_eq!(parse_i64("999999999999999999999999999999"), None);
}

#[test]
fn test_parse_i64_malformed() {
    assert_eq!(parse_i64(""), None);
    assert_eq!(parse_i64("-"), None);
    assert_eq!(parse_i64("+"), None);
    assert_eq!(parse_i64("12a"), None);
    assert_eq!(parse_i64("1.5"), None);
    assert_eq!(parse_i64(" 3"), None);
}

#[test]
fn test_integer_rendering() {
    assert_eq!(u64_to_string(0), "0");
    assert_eq!(u64_to_string(90210), "90210");
    assert_eq!(i64_to_string(-1), "-1");
    assert_eq!(i64_to_string(i64::MIN), "-9223372036854775808");
    assert_eq!(i64_to_string(i64::MAX), "9223372036854775807");
}

#[test]
fn test_str_helpers() {
    assert!(str_eq("abc", "abc"));
    assert!(!str_eq("abc", "abd"));
    assert!(!str_eq("abc", "ab"));
    assert!(starts_with("file://x", "file://"));
    assert!(!starts_with("fil", "file://"));
    assert!(contains_substr("postgres://h", "://"));
    assert!(!contains_substr("plain-name", "://"));
}

#[test]
fn test_file_source_path() {
    let source = FileSource::new("/etc/app.toml");
    assert_eq!(source.path(), "/etc/app.toml");
}

#[test]
fn test_env_source_separators() {
    let source = EnvSource::new("APP");
    assert_eq!(source.prefix(), "APP");
    assert_eq!(source.separator(), "__");

    let custom = EnvSource::with_separator("APP", "_");
    assert_eq!(custom.separator(), "_");
}

#[test]
fn test_memory_source() {
    let data = ConfigValue::Object(vec![
        ("host".to_string(), ConfigValue::String("localhost".to_string())),
        ("port".to_string(), ConfigValue::Integer(8080)),
    ]);
    let source = MemorySource::new(data.clone());

    let loaded = source.load();
    assert_eq!(loaded, data);
    assert_eq!(source.name(), "memory");
}

#[test]
fn test_memory_source_with_name() {
    let source = MemorySource::with_name(ConfigValue::Null, "defaults");
    assert_eq!(source.name(), "defaults");
    assert!(source.load().is_null());
}

fn obj(items: Vec<(&str, ConfigValue)>) -> ConfigValue {
    ConfigValue::Object(items.into_iter().map(|(k, v)| (k.to_string(), v)).collect())
}

#[test]
fn test_merge_values() {
    let base = obj(vec![
        ("a", ConfigValue::Integer(1)),
        (
            "b",
            obj(vec![
                ("c", ConfigValue::Integer(2)),
                ("d", ConfigValue::Integer(3)),
            ]),
        ),
    ]);

    let overlay = obj(vec![
        ("a", ConfigValue::Integer(10)),
        ("b", obj(vec![("c", ConfigValue::Integer(20))])),
        ("e", ConfigValue::Integer(5)),
    ]);

    let merged = prefer::source::merge_values(base, &overlay);

    assert_eq!(merged.get("a").unwrap().as_i64(), Some(10));
    assert_eq!(merged.get("b").unwrap().get("c").unwrap().as_i64(), Some(20));
    assert_eq!(merged.get("b").unwrap().get("d").unwrap().as_i64(), Some(3));
    assert_eq!(merged.get("e").unwrap().as_i64(), Some(5));
}

#[test]
fn test_merge_values_overlay_replaces_non_objects() {
    let base = ConfigValue::Integer(1);
    let overlay = ConfigValue::String("two".to_string());
    let merged = prefer::source::merge_values(base, &overlay);
    assert_eq!(merged.as_str(), Some("two"));

    let base = ConfigValue::Object(vec![("x".to_string(), ConfigValue::Integer(1))]);
    let overlay = ConfigValue::Null;
    let merged = prefer::source::merge_values(base, &overlay);
    assert!(merged.is_null());
}
