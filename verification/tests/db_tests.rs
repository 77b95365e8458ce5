//! Tests of the database loader's pure decision logic.

use prefer::ConfigValue;
use prefer::db::ColumnValue;
use prefer::db::IdentifierParams;
use prefer::db::SchemaStrategy;
use prefer::db::StrategyChoice;
use prefer::db::column_to_config_value;
use prefer::db::detect_strategy;
use prefer::db::expand_dotted_paths;
use prefer::db::set_nested_value;
use prefer::db::parse_identifier_params;
use prefer::db::strip_prefer_params;
use prefer::db::validate_identifier_name;
use prefer::text::split_on;

fn default_params() -> IdentifierParams {
    IdentifierParams {
        table: "configuration".to_string(),
        strategy: StrategyChoice::Auto,
        name_column: "name".to_string(),
        value_column: "value".to_string(),
        separator: ".".to_string(),
        filter_column: None,
        filter_value: None,
    }
}

#[test]
fn test_validate_identifier_name_valid() {
    assert!(validate_identifier_name("prefer_config", "table").is_ok());
    assert!(validate_identifier_name("Config123", "table").is_ok());
    assert!(validate_identifier_name("a", "table").is_ok());
}

#[test]
fn test_validate_identifier_name_invalid() {
    assert!(validate_identifier_name("", "table").is_err());
    assert!(validate_identifier_name("table; DROP TABLE users", "table").is_err());
    assert!(validate_identifier_name("my-table", "table").is_err());
    assert!(validate_identifier_name("schema.table", "table").is_err());
}

#[test]
fn test_validate_identifier_name_unicode_alphanumerics() {
    // A non-ASCII letter counts as alphanumeric, as the character class
    // check defines it.
    assert!(validate_identifier_name("tabelle_größe", "table").is_ok());
    assert!(validate_identifier_name("tabelle größe", "table").is_err());
}

#[test]
fn test_validate_identifier_name_error_names_label() {
    match validate_identifier_name("my-table", "table").unwrap_err() {
        prefer::Error::SourceError { source_name, source } => {
            assert_eq!(source_name, "db");
            assert_eq!(source, "invalid table: 'my-table'");
        }
        other => panic!("expected SourceError, got {:?}", other),
    }
}

#[test]
fn test_detect_strategy_auto_kv() {
    let columns: Vec<String> = vec!["id".into(), "name".into(), "value".into()];
    let params = default_params();
    assert_eq!(detect_strategy(&columns, &params).unwrap(), SchemaStrategy::Kv);
}

#[test]
fn test_detect_strategy_auto_raw_with_format() {
    let columns: Vec<String> = vec!["id".into(), "data".into(), "format".into()];
    let params = default_params();
    assert_eq!(
        detect_strategy(&columns, &params).unwrap(),
        SchemaStrategy::Raw { has_format_column: true }
    );
}

#[test]
fn test_detect_strategy_auto_raw_without_format() {
    let columns: Vec<String> = vec!["id".into(), "data".into()];
    let params = default_params();
    assert_eq!(
        detect_strategy(&columns, &params).unwrap(),
        SchemaStrategy::Raw { has_format_column: false }
    );
}

#[test]
fn test_detect_strategy_auto_wide() {
    let columns: Vec<String> = vec!["host".into(), "port".into(), "debug".into()];
    let params = default_params();
    assert_eq!(detect_strategy(&columns, &params).unwrap(), SchemaStrategy::Wide);
}

#[test]
fn test_detect_strategy_kv_wins_over_data() {
    let columns: Vec<String> = vec!["name".into(), "value".into(), "data".into()];
    let params = default_params();
    assert_eq!(detect_strategy(&columns, &params).unwrap(), SchemaStrategy::Kv);
}

#[test]
fn test_detect_strategy_explicit_overrides() {
    let columns: Vec<String> = vec!["name".into(), "value".into()];

    let mut params = default_params();
    params.strategy = StrategyChoice::Raw;
    assert_eq!(
        detect_strategy(&columns, &params).unwrap(),
        SchemaStrategy::Raw { has_format_column: false }
    );

    params.strategy = StrategyChoice::Wide;
    assert_eq!(detect_strategy(&columns, &params).unwrap(), SchemaStrategy::Wide);
}

#[test]
fn test_detect_strategy_custom_column_names() {
    let columns: Vec<String> = vec!["setting".into(), "val".into()];
    let mut params = default_params();
    params.name_column = "setting".to_string();
    params.value_column = "val".to_string();
    assert_eq!(detect_strategy(&columns, &params).unwrap(), SchemaStrategy::Kv);
}

#[test]
fn test_parse_identifier_params_defaults() {
    let params = parse_identifier_params("testdb://localhost/db").unwrap();
    assert_eq!(params.table, "configuration");
    assert_eq!(params.strategy, StrategyChoice::Auto);
    assert_eq!(params.name_column, "name");
    assert_eq!(params.value_column, "value");
    assert_eq!(params.separator, ".");
    assert!(params.filter_column.is_none());
    assert!(params.filter_value.is_none());
}

#[test]
fn test_parse_identifier_params_custom() {
    let params = parse_identifier_params(
        "postgres://host/db?table=settings&strategy=kv&name_column=k&value_column=v&separator=__",
    )
    .unwrap();
    assert_eq!(params.table, "settings");
    assert_eq!(params.strategy, StrategyChoice::Kv);
    assert_eq!(params.name_column, "k");
    assert_eq!(params.value_column, "v");
    assert_eq!(params.separator, "__");
}

#[test]
fn test_parse_identifier_params_filter() {
    let params =
        parse_identifier_params("postgres://host/db?filter_column=env&filter_value=prod").unwrap();
    assert_eq!(params.filter_column, Some("env".to_string()));
    assert_eq!(params.filter_value, Some("prod".to_string()));
}

#[test]
fn test_parse_identifier_params_invalid_strategy() {
    let result = parse_identifier_params("testdb://host/db?strategy=unknown");
    assert!(result.is_err());
}

#[test]
fn test_parse_identifier_params_invalid_url() {
    let result = parse_identifier_params("not a url");
    assert!(result.is_err());
}

#[test]
fn test_parse_identifier_params_invalid_table_name() {
    let result = parse_identifier_params("testdb://host/db?table=bad;name");
    assert!(result.is_err());
}

#[test]
fn test_strip_prefer_params() {
    let cleaned = strip_prefer_params("postgres://host/db?table=cfg&sslmode=require").unwrap();
    assert!(!cleaned.contains("table="));
    assert!(cleaned.contains("sslmode=require"));
}

#[test]
fn test_strip_prefer_params_all_removed() {
    let cleaned = strip_prefer_params("postgres://host/db?table=cfg&strategy=kv").unwrap();
    assert!(!cleaned.contains('?'));
}

#[test]
fn test_strip_prefer_params_preserves_non_prefer() {
    let cleaned =
        strip_prefer_params("postgres://host/db?table=cfg&sslmode=require&connect_timeout=10")
            .unwrap();
    assert!(cleaned.contains("sslmode=require"));
    assert!(cleaned.contains("connect_timeout=10"));
    assert!(!cleaned.contains("table="));
}

#[test]
fn test_column_to_config_value() {
    assert_eq!(column_to_config_value(ColumnValue::Null), ConfigValue::Null);
    assert_eq!(
        column_to_config_value(ColumnValue::Bool(true)),
        ConfigValue::Bool(true)
    );
    assert_eq!(
        column_to_config_value(ColumnValue::Integer(42)),
        ConfigValue::Integer(42)
    );
    assert_eq!(
        column_to_config_value(ColumnValue::Float((1.5f64).to_bits())),
        ConfigValue::Float((1.5f64).to_bits())
    );
    assert_eq!(
        column_to_config_value(ColumnValue::String("hello".into())),
        ConfigValue::String("hello".into())
    );
}

#[test]
fn test_expand_dotted_paths_flat() {
    let values = vec![
        ("host".to_string(), ColumnValue::String("localhost".into())),
        ("port".to_string(), ColumnValue::Integer(8080)),
    ];
    let result = expand_dotted_paths(values, ".");
    assert_eq!(result.get("host").unwrap().as_str(), Some("localhost"));
    assert_eq!(result.get("port").unwrap().as_i64(), Some(8080));
}

#[test]
fn test_expand_dotted_paths_nested() {
    let values = vec![
        ("database.host".to_string(), ColumnValue::String("localhost".into())),
        ("database.port".to_string(), ColumnValue::Integer(5432)),
        ("server.bind".to_string(), ColumnValue::String("0.0.0.0".into())),
    ];
    let result = expand_dotted_paths(values, ".");
    let db = result.get("database").unwrap();
    assert_eq!(db.get("host").unwrap().as_str(), Some("localhost"));
    assert_eq!(db.get("port").unwrap().as_i64(), Some(5432));
    assert_eq!(
        result.get("server").unwrap().get("bind").unwrap().as_str(),
        Some("0.0.0.0")
    );
}

#[test]
fn test_expand_dotted_paths_deep() {
    let values = vec![("a.b.c.d".to_string(), ColumnValue::Integer(42))];
    let result = expand_dotted_paths(values, ".");
    assert_eq!(
        result
            .get("a")
            .unwrap()
            .get("b")
            .unwrap()
            .get("c")
            .unwrap()
            .get("d")
            .unwrap()
            .as_i64(),
        Some(42)
    );
}

#[test]
fn test_expand_dotted_paths_custom_separator() {
    let values = vec![("database__host".to_string(), ColumnValue::String("localhost".into()))];
    let result = expand_dotted_paths(values, "__");
    assert_eq!(
        result.get("database").unwrap().get("host").unwrap().as_str(),
        Some("localhost")
    );
}

#[test]
fn test_expand_dotted_paths_empty() {
    let values: Vec<(String, ColumnValue)> = Vec::new();
    let result = expand_dotted_paths(values, ".");
    assert!(result.as_object().unwrap().is_empty());
}

#[test]
fn test_expand_dotted_paths_all_types() {
    let values = vec![
        ("null_val".to_string(), ColumnValue::Null),
        ("bool_val".to_string(), ColumnValue::Bool(true)),
        ("int_val".to_string(), ColumnValue::Integer(42)),
        ("float_val".to_string(), ColumnValue::Float((1.5f64).to_bits())),
        ("str_val".to_string(), ColumnValue::String("hello".into())),
    ];
    let result = expand_dotted_paths(values, ".");
    assert!(matches!(result.get("null_val").unwrap(), ConfigValue::Null));
    assert_eq!(result.get("bool_val").unwrap().as_bool(), Some(true));
    assert_eq!(result.get("int_val").unwrap().as_i64(), Some(42));
    assert_eq!(
        result.get("float_val").unwrap().as_float_bits(),
        Some((1.5f64).to_bits())
    );
    assert_eq!(result.get("str_val").unwrap().as_str(), Some("hello"));
}

#[test]
fn test_set_nested_value_empty_path() {
    let root = ConfigValue::Object(Vec::new());
    let root = set_nested_value(root, &[], ConfigValue::Integer(1));
    assert!(root.as_object().unwrap().is_empty());
}

#[test]
fn test_set_nested_value_replaces_non_object() {
    let root = ConfigValue::Object(Vec::new());
    let root = set_nested_value(root, &["a"], ConfigValue::String("initial".to_string()));
    let root = set_nested_value(root, &["a", "b"], ConfigValue::Integer(42));
    assert_eq!(root.get("a").unwrap().get("b").unwrap().as_i64(), Some(42));
}

#[test]
fn test_split_on() {
    assert_eq!(split_on("a.b.c", "."), vec!["a", "b", "c"]);
    assert_eq!(split_on("plain", "."), vec!["plain"]);
    assert_eq!(split_on("a..b", "."), vec!["a", "", "b"]);
    assert_eq!(split_on("x__y", "__"), vec!["x", "y"]);
    assert_eq!(split_on("", "."), vec![""]);
}
