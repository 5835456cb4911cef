use jendeley_search::filter::{id_type, matches_target, target_entries, ID_TYPE_FIELD, TARGET_ID_TYPE};
use jendeley_search::json::Json;
use jendeley_search::loader::load_registry;

fn object(members: Vec<(&str, Json)>) -> Json {
    Json::Object(
        members
            .into_iter()
            .map(|(k, v)| (k.to_string(), v))
            .collect(),
    )
}

fn text(s: &str) -> Json {
    Json::Text(s.to_string())
}

#[test]
fn the_target_is_arxiv() {
    assert_eq!(TARGET_ID_TYPE, "arxiv");
    assert_eq!(ID_TYPE_FIELD, "idType");
}

#[test]
fn entry_with_the_target_type_matches() {
    let entry = object(vec![("idType", text("arxiv"))]);
    assert_eq!(id_type(&entry), Some(&"arxiv".to_string()));
    assert!(matches_target(&entry));
}

#[test]
fn entry_with_another_type_is_skipped() {
    let entry = object(vec![("idType", text("other"))]);
    assert_eq!(id_type(&entry), Some(&"other".to_string()));
    assert!(!matches_target(&entry));
}

#[test]
fn near_misses_of_the_target_do_not_match() {
    for tag in ["Arxiv", "arxiv ", " arxiv", "arxi", "arxivx", ""] {
        let entry = object(vec![("idType", text(tag))]);
        assert!(!matches_target(&entry), "{:?}", tag);
    }
}

#[test]
fn missing_id_type_never_matches() {
    let entry = object(vec![("path", Json::Array(vec![text("a.pdf")]))]);
    assert_eq!(id_type(&entry), None);
    assert!(!matches_target(&entry));
    assert!(!matches_target(&object(vec![])));
}

#[test]
fn id_type_that_is_no_string_never_matches() {
    for value in [
        Json::Null,
        Json::Bool(true),
        Json::Number("1".to_string()),
        Json::Array(vec![text("arxiv")]),
        object(vec![("arxiv", text("arxiv"))]),
    ] {
        let entry = object(vec![("idType", value)]);
        assert_eq!(id_type(&entry), None);
        assert!(!matches_target(&entry));
    }
}

#[test]
fn entry_that_is_no_object_never_matches() {
    for entry in [
        Json::Null,
        text("arxiv"),
        Json::Array(vec![text("idType"), text("arxiv")]),
    ] {
        assert_eq!(id_type(&entry), None);
        assert!(!matches_target(&entry));
    }
}

#[test]
fn field_name_is_matched_exactly() {
    let entry = object(vec![("idtype", text("arxiv")), ("IDTYPE", text("arxiv"))]);
    assert!(!matches_target(&entry));
}

#[test]
fn first_member_of_a_name_is_the_one_found() {
    let entry = object(vec![("idType", text("other")), ("idType", text("arxiv"))]);
    assert_eq!(id_type(&entry), Some(&"other".to_string()));
    assert!(!matches_target(&entry));
}

#[test]
fn target_entries_lists_the_matching_places_in_order() {
    let registry = load_registry(
        "{\"a\": {\"idType\": \"other\"}, \"b\": {\"idType\": \"arxiv\"}, \"c\": {}, \
          \"d\": {\"idType\": \"arxiv\", \"path\": 1}, \"e\": 5}",
    )
    .unwrap();
    assert_eq!(target_entries(&registry.entries), vec![1, 3]);
}

#[test]
fn target_entries_is_restartable() {
    let registry = load_registry(
        "{\"a\": {\"idType\": \"arxiv\"}, \"b\": {\"idType\": \"arxiv\"}}",
    )
    .unwrap();
    let first = target_entries(&registry.entries);
    let second = target_entries(&registry.entries);
    assert_eq!(first, vec![0, 1]);
    assert_eq!(first, second);
}

#[test]
fn target_entries_of_an_empty_registry_is_empty() {
    assert_eq!(target_entries(&Vec::new()), Vec::<usize>::new());
}
