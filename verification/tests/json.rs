use jendeley_search::json::Json;
use jendeley_search::text::text_eq;

fn text(s: &str) -> Json {
    Json::Text(s.to_string())
}

#[test]
fn member_finds_a_value_by_name() {
    let object = Json::Object(vec![
        ("a".to_string(), Json::Null),
        ("b".to_string(), text("x")),
    ]);
    assert_eq!(object.member("b"), Some(&text("x")));
    assert_eq!(object.member("a"), Some(&Json::Null));
    assert_eq!(object.member("c"), None);
    assert_eq!(object.member(""), None);
}

#[test]
fn member_of_a_value_that_is_no_object_is_nothing() {
    assert_eq!(text("a").member("a"), None);
    assert_eq!(Json::Array(vec![text("a")]).member("a"), None);
    assert_eq!(Json::Null.member("a"), None);
}

#[test]
fn accessors_tell_the_variants_apart() {
    assert_eq!(text("a").as_text(), Some(&"a".to_string()));
    assert_eq!(Json::Number("1".to_string()).as_text(), None);
    assert_eq!(text("a").as_array(), None);
    assert_eq!(
        Json::Array(vec![Json::Bool(false)]).as_array(),
        Some(&vec![Json::Bool(false)])
    );
    assert_eq!(Json::Object(vec![]).as_array(), None);
}

#[test]
fn text_eq_compares_characters() {
    assert!(text_eq("", ""));
    assert!(text_eq("arxiv", "arxiv"));
    assert!(!text_eq("arxiv", "arxiw"));
    assert!(!text_eq("arxiv", "arxi"));
    assert!(!text_eq("", "a"));
    assert!(text_eq("\u{e9}\u{1f600}", "\u{e9}\u{1f600}"));
    assert!(!text_eq("\u{e9}", "e"));
}
