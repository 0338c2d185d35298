use indexmap::IndexMap;
use json_list::failure::Failure;
use json_list::record::{columns_of, parse_records, record_text, stringify_value, JsonValue};
use serde_json::{Number, Value};

fn text(s: &str) -> Value {
    Value::String(s.to_string())
}

#[test]
fn stringify_shows_a_string_as_it_is() {
    assert_eq!(stringify_value(&JsonValue::Text("Alice \"A\"".to_string())), "Alice \"A\"");
    assert_eq!(stringify_value(&JsonValue::Text(String::new())), "");
}

#[test]
fn stringify_names_null_and_the_booleans() {
    assert_eq!(stringify_value(&JsonValue::Null), "null");
    assert_eq!(stringify_value(&JsonValue::Bool(true)), "true");
    assert_eq!(stringify_value(&JsonValue::Bool(false)), "false");
}

#[test]
fn stringify_keeps_number_and_composite_text() {
    assert_eq!(stringify_value(&JsonValue::Number("-12.5".to_string())), "-12.5");
    assert_eq!(stringify_value(&JsonValue::Composite("[1,2]".to_string())), "[1,2]");
}

#[test]
fn columns_follow_insertion_order() {
    let mut record: IndexMap<String, Value> = IndexMap::new();
    record.insert("zeta".to_string(), text("1"));
    record.insert("alpha".to_string(), text("2"));
    record.insert("mid".to_string(), text("3"));
    let columns = columns_of(&record);
    let keys: Vec<&str> = columns.iter().map(|c| c.key.as_str()).collect();
    let values: Vec<&str> = columns.iter().map(|c| c.value.as_str()).collect();
    assert_eq!(keys, vec!["zeta", "alpha", "mid"]);
    assert_eq!(values, vec!["1", "2", "3"]);
}

#[test]
fn columns_of_an_empty_record() {
    let record: IndexMap<String, Value> = IndexMap::new();
    assert!(columns_of(&record).is_empty());
}

#[test]
fn every_kind_of_value_becomes_its_display_text() {
    let mut inner = serde_json::Map::new();
    inner.insert("b".to_string(), Value::Bool(true));
    inner.insert("a".to_string(), Value::Null);
    let mut record: IndexMap<String, Value> = IndexMap::new();
    record.insert("s".to_string(), text("plain \"quoted\""));
    record.insert("i".to_string(), Value::Number(Number::from(42)));
    record.insert("n".to_string(), Value::Number(Number::from(-7)));
    record.insert("f".to_string(), Value::Number(Number::from_f64(1.5).unwrap()));
    record.insert("t".to_string(), Value::Bool(true));
    record.insert("u".to_string(), Value::Bool(false));
    record.insert("z".to_string(), Value::Null);
    record.insert("l".to_string(), Value::Array(vec![Value::Number(Number::from(1)), text("x")]));
    record.insert("o".to_string(), Value::Object(inner));
    let values: Vec<String> = columns_of(&record).into_iter().map(|c| c.value).collect();
    assert_eq!(
        values,
        vec![
            "plain \"quoted\"",
            "42",
            "-7",
            "1.5",
            "true",
            "false",
            "null",
            "[1,\"x\"]",
            "{\"a\":null,\"b\":true}",
        ]
    );
}

#[test]
fn parse_reads_records_in_order() {
    let records = parse_records("[{\"id\":\"1\",\"name\":\"Alice\"},{\"name\":\"Bob\",\"id\":2}]")
        .unwrap();
    assert_eq!(records.len(), 2);
    let first = columns_of(&records[0]);
    assert_eq!(first[0].key, "id");
    assert_eq!(first[0].value, "1");
    assert_eq!(first[1].key, "name");
    assert_eq!(first[1].value, "Alice");
    let second = columns_of(&records[1]);
    assert_eq!(second[0].key, "name");
    assert_eq!(second[0].value, "Bob");
    assert_eq!(second[1].key, "id");
    assert_eq!(second[1].value, "2");
}

#[test]
fn parse_unescapes_strings() {
    let records = parse_records("[{\"k\":\"a\\tb\\u00e9\"}]").unwrap();
    assert_eq!(columns_of(&records[0])[0].value, "a\tbé");
}

#[test]
fn parse_accepts_an_empty_list() {
    assert!(parse_records("[]").unwrap().is_empty());
    assert!(parse_records(" [ ] ").unwrap().is_empty());
}

#[test]
fn parse_rejects_malformed_json() {
    assert!(parse_records("[{\"a\":1}").is_err());
    assert!(parse_records("").is_err());
    assert!(parse_records("not json").is_err());
}

#[test]
fn parse_rejects_a_top_level_that_is_no_list() {
    assert!(parse_records("{\"a\":1}").is_err());
    assert!(parse_records("\"text\"").is_err());
    assert!(parse_records("3").is_err());
}

#[test]
fn parse_rejects_an_element_that_is_no_object() {
    assert!(parse_records("[{\"a\":1},2]").is_err());
    assert!(parse_records("[[1]]").is_err());
}

#[test]
fn record_text_is_compact_json() {
    let mut record: IndexMap<String, Value> = IndexMap::new();
    record.insert("b".to_string(), text("foo"));
    record.insert("a".to_string(), Value::Number(Number::from(1)));
    assert_eq!(record_text(&record), "{\"b\":\"foo\",\"a\":1}");
    let parsed = parse_records("[ { \"a\" : \"foo\" } ]").unwrap();
    assert_eq!(record_text(&parsed[0]), "{\"a\":\"foo\"}");
}

#[test]
fn invalid_json_gives_its_reason() {
    match parse_records("[{\"a\":1}") {
        Err(Failure::InvalidJson(reason)) => {
            assert!(!reason.is_empty());
            let expected = format!("Error parsing JSON: {}", reason);
            assert_eq!(Failure::InvalidJson(reason).message(), expected);
        }
        _ => panic!("an unfinished list is no valid input"),
    }
    assert_eq!(
        Failure::InvalidJson("EOF while parsing".to_string()).message(),
        "Error parsing JSON: EOF while parsing"
    );
}
