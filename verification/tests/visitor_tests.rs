//! Tests of visitor dispatch and the extraction-backed visitor.

use prefer::ConfigValue;
use prefer::Dict;
use prefer::Error;
use prefer::FromValueVisitor;
use prefer::MapAccess;
use prefer::SeqAccess;
use prefer::ValueVisitor;
use prefer::visit;

fn obj(items: Vec<(&str, ConfigValue)>) -> ConfigValue {
    ConfigValue::Object(items.into_iter().map(|(k, v)| (k.to_string(), v)).collect())
}

fn num(n: i64) -> ConfigValue {
    ConfigValue::Integer(n)
}

fn str_val(s: &str) -> ConfigValue {
    ConfigValue::String(s.to_string())
}

fn arr(items: Vec<ConfigValue>) -> ConfigValue {
    ConfigValue::Array(items)
}

fn float(f: f64) -> ConfigValue {
    ConfigValue::Float(f.to_bits())
}

fn null() -> ConfigValue {
    ConfigValue::Null
}

fn bool_val(b: bool) -> ConfigValue {
    ConfigValue::Bool(b)
}

struct SumVisitor {
    sum: i64,
}

impl ValueVisitor for SumVisitor {
    type Output = i64;

    fn expecting(&self) -> &'static str {
        "a number or array of numbers"
    }

    fn visit_i64(&mut self, v: i64) -> Result<i64, Error> {
        self.sum += v;
        Ok(self.sum)
    }

    fn visit_array(&mut self, arr: &[ConfigValue]) -> Result<i64, Error> {
        for item in arr {
            if let Some(n) = item.as_i64() {
                self.sum += n;
            }
        }
        Ok(self.sum)
    }
}

#[test]
fn test_visit_integer() {
    let mut visitor = SumVisitor { sum: 0 };
    let result = visit(&ConfigValue::Integer(42), &mut visitor).unwrap();
    assert_eq!(result, 42);
}

#[test]
fn test_visit_array() {
    let mut visitor = SumVisitor { sum: 0 };
    let a = arr(vec![num(1), num(2), num(3), num(4), num(5)]);
    let result = visit(&a, &mut visitor).unwrap();
    assert_eq!(result, 15);
}

#[test]
fn test_visit_string_error() {
    let mut visitor = SumVisitor { sum: 0 };
    let result = visit(&str_val("hello"), &mut visitor);
    assert!(result.is_err());
}

struct KeyCollector {
    keys: Vec<String>,
}

impl ValueVisitor for KeyCollector {
    type Output = Vec<String>;

    fn expecting(&self) -> &'static str {
        "an object"
    }

    fn visit_map(&mut self, map: MapAccess<'_>) -> Result<Vec<String>, Error> {
        self.keys = map.keys();
        Ok(self.keys.clone())
    }
}

#[test]
fn test_visit_map() {
    let mut visitor = KeyCollector { keys: vec![] };
    let value = obj(vec![("a", num(1)), ("b", num(2)), ("c", num(3))]);

    let result = visit(&value, &mut visitor).unwrap();
    assert_eq!(result.len(), 3);
    assert!(result.contains(&"a".to_string()));
    assert!(result.contains(&"b".to_string()));
    assert!(result.contains(&"c".to_string()));
}

#[test]
fn test_map_access_methods() {
    struct Checker;
    impl ValueVisitor for Checker {
        type Output = (bool, bool, Option<String>, usize);

        fn expecting(&self) -> &'static str {
            "a map"
        }

        fn visit_map(&mut self, map: MapAccess<'_>) -> Result<Self::Output, Error> {
            let contains = map.contains_key("host");
            let missing = map.contains_key("nonexistent");
            let host = map.get("host").and_then(|v| v.as_str()).map(String::from);
            Ok((contains, missing, host, map.len()))
        }
    }

    let value = obj(vec![("host", str_val("localhost")), ("port", num(8080))]);
    let mut v = Checker;
    let (contains, missing, host, len) = visit(&value, &mut v).unwrap();
    assert!(contains);
    assert!(!missing);
    assert_eq!(host, Some("localhost".to_string()));
    assert_eq!(len, 2);
}

struct SeqSumVisitor {
    sum: i64,
}

impl ValueVisitor for SeqSumVisitor {
    type Output = i64;

    fn expecting(&self) -> &'static str {
        "an array of numbers"
    }

    fn visit_seq(&mut self, mut seq: SeqAccess<'_>) -> Result<i64, Error> {
        while let Some(value) = seq.next_element::<i64>()? {
            self.sum += value;
        }
        Ok(self.sum)
    }
}

#[test]
fn test_visit_seq() {
    let mut visitor = SeqSumVisitor { sum: 0 };
    let items = vec![num(10), num(20), num(30)];
    let seq = SeqAccess::new(&items);
    let result = visitor.visit_seq(seq).unwrap();
    assert_eq!(result, 60);
}

#[test]
fn test_seq_access_position() {
    let items = vec![num(1), num(2)];
    let mut seq = SeqAccess::new(&items);
    assert_eq!(seq.len(), 2);
    assert!(!seq.is_empty());
    assert_eq!(seq.position(), 0);
    let first: Option<i64> = seq.next_element().unwrap();
    assert_eq!(first, Some(1));
    assert_eq!(seq.position(), 1);
}

struct EnumVisitor;

impl ValueVisitor for EnumVisitor {
    type Output = String;

    fn expecting(&self) -> &'static str {
        "an enum variant"
    }

    fn visit_enum(&mut self, variant: &str, value: &ConfigValue) -> Result<String, Error> {
        Ok(format!("{}:{}", variant, value.as_i64().unwrap_or(0)))
    }
}

#[test]
fn test_visit_enum() {
    let mut visitor = EnumVisitor;
    let value = ConfigValue::Integer(42);
    let result = visitor.visit_enum("Answer", &value).unwrap();
    assert_eq!(result, "Answer:42");
}

struct StrictMapVisitor {
    allowed_keys: Vec<String>,
}

impl ValueVisitor for StrictMapVisitor {
    type Output = usize;

    fn expecting(&self) -> &'static str {
        "a map with only allowed keys"
    }

    fn visit_map(&mut self, map: MapAccess<'_>) -> Result<usize, Error> {
        for key in map.keys() {
            if !self.allowed_keys.contains(&key) {
                self.visit_unknown(&key, map.get(&key).unwrap())?;
            }
        }
        Ok(map.len())
    }

    fn visit_unknown(&mut self, key: &str, _value: &ConfigValue) -> Result<(), Error> {
        Err(Error::ConversionError {
            key: key.to_string(),
            target_type: "strict map".into(),
            source: format!("unknown field: {}", key),
        })
    }
}

#[test]
fn test_visit_unknown() {
    let value = obj(vec![("allowed", num(1)), ("forbidden", num(2))]);

    let mut visitor = StrictMapVisitor {
        allowed_keys: vec!["allowed".to_string()],
    };

    let result = visit(&value, &mut visitor);
    assert!(result.is_err());
    match result.unwrap_err() {
        Error::ConversionError { key, .. } => assert_eq!(key, "forbidden"),
        _ => panic!("Expected ConversionError"),
    }
}

struct AllTypesVisitor;

impl ValueVisitor for AllTypesVisitor {
    type Output = String;

    fn expecting(&self) -> &'static str {
        "any"
    }

    fn visit_null(&mut self) -> Result<String, Error> {
        Ok("null".into())
    }
    fn visit_bool(&mut self, v: bool) -> Result<String, Error> {
        Ok(format!("bool:{}", v))
    }
    fn visit_i64(&mut self, v: i64) -> Result<String, Error> {
        Ok(format!("i64:{}", v))
    }
    fn visit_float(&mut self, bits: u64) -> Result<String, Error> {
        Ok(format!("f64:{}", f64::from_bits(bits)))
    }
    fn visit_str(&mut self, v: &str) -> Result<String, Error> {
        Ok(format!("str:{}", v))
    }
    fn visit_array(&mut self, arr: &[ConfigValue]) -> Result<String, Error> {
        Ok(format!("arr:{}", arr.len()))
    }
    fn visit_map(&mut self, map: MapAccess<'_>) -> Result<String, Error> {
        Ok(format!("map:{}", map.len()))
    }
}

#[test]
fn test_visitor_all_types() {
    let v = AllTypesVisitor;
    assert_eq!(v.expecting(), "any");

    let mut v = AllTypesVisitor;
    assert_eq!(visit(&null(), &mut v).unwrap(), "null");
    assert_eq!(visit(&bool_val(true), &mut v).unwrap(), "bool:true");
    assert_eq!(visit(&bool_val(false), &mut v).unwrap(), "bool:false");
    assert_eq!(visit(&num(42), &mut v).unwrap(), "i64:42");
    assert_eq!(visit(&num(-42), &mut v).unwrap(), "i64:-42");
    assert_eq!(visit(&float(1.5), &mut v).unwrap(), "f64:1.5");
    assert_eq!(visit(&str_val("hi"), &mut v).unwrap(), "str:hi");
    assert_eq!(visit(&arr(vec![num(1), num(2)]), &mut v).unwrap(), "arr:2");
    assert_eq!(visit(&obj(vec![("a", num(1))]), &mut v).unwrap(), "map:1");
}

struct StrictVisitor;
impl ValueVisitor for StrictVisitor {
    type Output = ();
    fn expecting(&self) -> &'static str {
        "nothing"
    }
}

#[test]
fn test_visitor_default_errors() {
    let mut v = StrictVisitor;
    assert!(visit(&null(), &mut v).is_err());
    assert!(visit(&bool_val(true), &mut v).is_err());
    assert!(visit(&num(42), &mut v).is_err());
    assert!(visit(&float(1.5), &mut v).is_err());
    assert!(visit(&str_val("str"), &mut v).is_err());
    assert!(visit(&arr(vec![]), &mut v).is_err());
    assert!(visit(&obj(vec![]), &mut v).is_err());
}

#[test]
fn test_visitor_default_error_names_expecting() {
    struct OnlyIntegers;
    impl ValueVisitor for OnlyIntegers {
        type Output = i64;
        fn expecting(&self) -> &'static str {
            "an integer setting"
        }
        fn visit_i64(&mut self, v: i64) -> Result<i64, Error> {
            Ok(v)
        }
    }
    let mut v = OnlyIntegers;
    assert_eq!(visit(&num(7), &mut v).unwrap(), 7);
    match visit(&str_val("seven"), &mut v).unwrap_err() {
        Error::ConversionError { target_type, source, .. } => {
            assert!(target_type.contains("an integer setting"));
            assert_eq!(source, "unexpected string");
        }
        other => panic!("expected ConversionError, got {:?}", other),
    }
}

#[test]
fn test_from_value_visitor_null() {
    let mut visitor: FromValueVisitor<Option<i32>> = FromValueVisitor::new();
    let result = visit(&null(), &mut visitor).unwrap();
    assert_eq!(result, None);
}

#[test]
fn test_from_value_visitor_bool() {
    let mut visitor: FromValueVisitor<bool> = FromValueVisitor::new();
    let result = visit(&bool_val(true), &mut visitor).unwrap();
    assert!(result);
}

#[test]
fn test_from_value_visitor_i64() {
    let mut visitor: FromValueVisitor<i64> = FromValueVisitor::new();
    let result = visit(&num(42), &mut visitor).unwrap();
    assert_eq!(result, 42);
}

#[test]
fn test_from_value_visitor_u64() {
    let mut visitor: FromValueVisitor<u64> = FromValueVisitor::default();
    let result = visit(&num(100), &mut visitor).unwrap();
    assert_eq!(result, 100);
}

#[test]
fn test_from_value_visitor_string() {
    let mut visitor: FromValueVisitor<String> = FromValueVisitor::new();
    let result = visit(&str_val("hello"), &mut visitor).unwrap();
    assert_eq!(result, "hello");
}

#[test]
fn test_from_value_visitor_array() {
    let mut visitor: FromValueVisitor<Vec<i32>> = FromValueVisitor::new();
    let result = visit(&arr(vec![num(1), num(2), num(3)]), &mut visitor).unwrap();
    assert_eq!(result, vec![1, 2, 3]);
}

#[test]
fn test_from_value_visitor_map() {
    let mut visitor: FromValueVisitor<Dict<i32>> = FromValueVisitor::new();
    let result = visit(&obj(vec![("a", num(1)), ("b", num(2))]), &mut visitor).unwrap();
    assert_eq!(result.get("a"), Some(&1));
    assert_eq!(result.get("b"), Some(&2));
}

#[test]
fn test_from_value_visitor_expecting() {
    let visitor: FromValueVisitor<String> = FromValueVisitor::new();
    assert!(visitor.expecting().contains("String"));
}

#[test]
fn test_from_value_visitor_string_node_fails_with_expecting() {
    let mut visitor: FromValueVisitor<i64> = FromValueVisitor::new();
    match visit(&str_val("oops"), &mut visitor).unwrap_err() {
        Error::ConversionError { target_type, .. } => {
            assert!(target_type.contains("i64"));
        }
        other => panic!("expected ConversionError, got {:?}", other),
    }
}
