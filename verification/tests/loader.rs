use jendeley_search::error::LoadError;
use jendeley_search::error::SchemaError;
use jendeley_search::json::Json;
use jendeley_search::loader::{load_registry, parse_json, Registry};

fn text(s: &str) -> Json {
    Json::Text(s.to_string())
}

#[test]
fn parses_scalars_and_containers() {
    let tree = parse_json("{\"a\": [1, \"x\", null, true, 2.5, -7]}").unwrap();
    let expected = Json::Object(vec![(
        "a".to_string(),
        Json::Array(vec![
            Json::Number("1".to_string()),
            text("x"),
            Json::Null,
            Json::Bool(true),
            Json::Number("2.5".to_string()),
            Json::Number("-7".to_string()),
        ]),
    )]);
    assert_eq!(tree, expected);
}

#[test]
fn parses_a_bare_scalar_document() {
    assert_eq!(parse_json("\"arxiv\"").unwrap(), text("arxiv"));
    assert_eq!(parse_json(" null ").unwrap(), Json::Null);
}

#[test]
fn string_escapes_are_decoded() {
    assert_eq!(parse_json("\"a\\/b\\u00e9\\n\"").unwrap(), text("a/b\u{e9}\n"));
}

#[test]
fn malformed_text_is_a_parse_error() {
    assert!(parse_json("{\"a\": ").is_err());
    assert!(parse_json("").is_err());
    assert!(parse_json("{} {}").is_err());
    assert!(matches!(load_registry("not json"), Err(LoadError::Parse(_))));
}

#[test]
fn parse_error_carries_the_parsers_account() {
    let error = parse_json("{\"a\": ").unwrap_err();
    assert!(!error.message.is_empty());
    assert!(error.message.contains("line 1"));
}

#[test]
fn root_that_is_no_object_is_a_schema_error() {
    assert_eq!(
        load_registry("[1, 2]"),
        Err(LoadError::Schema(SchemaError::RootNotObject))
    );
    assert_eq!(
        load_registry("\"e1\""),
        Err(LoadError::Schema(SchemaError::RootNotObject))
    );
    assert_eq!(
        Registry::from_json(Json::Null),
        Err(SchemaError::RootNotObject)
    );
}

#[test]
fn registry_holds_the_members_of_the_root() {
    let registry =
        load_registry("{\"e1\": {\"idType\": \"arxiv\"}, \"e2\": 3}").unwrap();
    assert_eq!(registry.len(), 2);
    assert_eq!(
        registry,
        Registry {
            entries: vec![
                (
                    "e1".to_string(),
                    Json::Object(vec![("idType".to_string(), text("arxiv"))])
                ),
                ("e2".to_string(), Json::Number("3".to_string())),
            ]
        }
    );
}

#[test]
fn empty_registry_has_no_entries() {
    let registry = load_registry("{}").unwrap();
    assert_eq!(registry.len(), 0);
}

#[test]
fn entries_keep_document_order() {
    let registry = load_registry("{\"b\": {}, \"a\": {}, \"c\": {}}").unwrap();
    let keys: Vec<&str> = registry.entries.iter().map(|e| e.0.as_str()).collect();
    assert_eq!(keys, vec!["b", "a", "c"]);
}

#[test]
fn reserialized_text_loads_to_the_same_value() {
    let source = "{\"e1\": {\"idType\": \"arxiv\", \"path\": [\"sub/\", \"doc.pdf\"]}, \
                    \"e2\": {\"idType\": \"other\", \"n\": [1, 2.5, -3, true, null, {\"k\": \"v\\n\"}]}}";
    let first = parse_json(source).unwrap();
    let value: serde_json::Value = serde_json::from_str(source).unwrap();
    let again = serde_json::to_string(&value).unwrap();
    assert_ne!(again, source);
    let second = parse_json(&again).unwrap();
    assert_eq!(first, second);
    let pretty = serde_json::to_string_pretty(&value).unwrap();
    assert_eq!(parse_json(&pretty).unwrap(), first);
    assert_eq!(
        load_registry(source).unwrap(),
        load_registry(&again).unwrap()
    );
}

#[test]
fn loading_the_same_text_twice_gives_the_same_registry() {
    let source = "{\"z\": {\"idType\": \"arxiv\"}, \"a\": [1]}";
    assert_eq!(load_registry(source), load_registry(source));
}

#[test]
fn no_key_occurs_twice_in_a_loaded_registry() {
    let registry = load_registry("{\"a\": 1, \"b\": {\"x\": 1, \"x\": 2}, \"a\": 2}").unwrap();
    let keys: Vec<&str> = registry.entries.iter().map(|e| e.0.as_str()).collect();
    assert_eq!(keys, vec!["a", "b"]);
    assert_eq!(registry.entries[0].1, Json::Number("2".to_string()));
    assert_eq!(
        registry.entries[1].1,
        Json::Object(vec![("x".to_string(), Json::Number("2".to_string()))])
    );
}
