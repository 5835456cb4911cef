use jendeley_search::error::SchemaError;
use jendeley_search::json::Json;
use jendeley_search::resolver::{join_segments, resolve_path, segments_of, PATH_FIELD};

fn object(members: Vec<(&str, Json)>) -> Json {
    Json::Object(
        members
            .into_iter()
            .map(|(k, v)| (k.to_string(), v))
            .collect(),
    )
}

fn text(s: &str) -> Json {
    Json::Text(s.to_string())
}

fn strings(items: &[&str]) -> Vec<String> {
    items.iter().map(|s| s.to_string()).collect()
}

fn entry_with_path(segments: &[&str]) -> Json {
    object(vec![
        ("idType", text("arxiv")),
        ("path", Json::Array(segments.iter().map(|s| text(s)).collect())),
    ])
}

#[test]
fn the_path_field_is_path() {
    assert_eq!(PATH_FIELD, "path");
}

#[test]
fn concatenation_is_exact() {
    assert_eq!(
        join_segments("/data/", &strings(&["a/", "b.pdf"])),
        "/data/a/b.pdf"
    );
}

#[test]
fn concatenation_at_the_level_of_bytes() {
    let base = "/d\u{e9}/";
    let segments = strings(&["\u{3042}/", "\u{1f600}.pdf"]);
    let joined = join_segments(base, &segments);
    let mut bytes = base.as_bytes().to_vec();
    for s in &segments {
        bytes.extend_from_slice(s.as_bytes());
    }
    assert_eq!(joined.as_bytes(), &bytes[..]);
}

#[test]
fn no_separator_is_inserted() {
    assert_eq!(join_segments("/data", &strings(&["a", "b.pdf"])), "/dataab.pdf");
    assert_eq!(join_segments("", &strings(&["a", "b"])), "ab");
}

#[test]
fn nothing_is_normalised() {
    assert_eq!(
        join_segments("/data/", &strings(&["/a//", "../", "./b.pdf"])),
        "/data//a//.././b.pdf"
    );
    assert_eq!(join_segments("C:\\x\\", &strings(&["y\\z"])), "C:\\x\\y\\z");
}

#[test]
fn no_segments_gives_the_base() {
    assert_eq!(join_segments("/data/", &Vec::new()), "/data/");
    assert_eq!(join_segments("", &Vec::new()), "");
}

#[test]
fn empty_segments_add_nothing() {
    assert_eq!(join_segments("/data/", &strings(&["", "a", "", ""])), "/data/a");
}

#[test]
fn joining_in_two_runs_is_joining_at_once() {
    let first = strings(&["a/", "b/"]);
    let second = strings(&["c/", "d.pdf"]);
    let mut both = strings(&["a/", "b/"]);
    both.extend(strings(&["c/", "d.pdf"]));
    let once = join_segments("/r/", &both);
    let twice = join_segments(&join_segments("/r/", &first), &second);
    assert_eq!(once, twice);
    assert_eq!(once, "/r/a/b/c/d.pdf");
}

#[test]
fn segments_are_read_in_order() {
    let entry = entry_with_path(&["sub/", "doc.pdf"]);
    assert_eq!(segments_of(&entry), Ok(strings(&["sub/", "doc.pdf"])));
    assert_eq!(segments_of(&entry_with_path(&[])), Ok(Vec::new()));
}

#[test]
fn resolves_below_the_base() {
    let entry = entry_with_path(&["sub/", "doc.pdf"]);
    assert_eq!(
        resolve_path("/root/", &entry),
        Ok("/root/sub/doc.pdf".to_string())
    );
    assert_eq!(
        resolve_path("/home/akira/jendeley/jendeley-backend/test_pdfs/", &entry),
        Ok("/home/akira/jendeley/jendeley-backend/test_pdfs/sub/doc.pdf".to_string())
    );
}

#[test]
fn path_is_resolved_whatever_the_id_type() {
    let entry = object(vec![("path", Json::Array(vec![text("x.pdf")]))]);
    assert_eq!(resolve_path("/b/", &entry), Ok("/b/x.pdf".to_string()));
}

#[test]
fn missing_path_is_a_schema_error() {
    let entry = object(vec![("idType", text("arxiv"))]);
    assert_eq!(segments_of(&entry), Err(SchemaError::PathMissing));
    assert_eq!(resolve_path("/root/", &entry), Err(SchemaError::PathMissing));
    assert_eq!(resolve_path("/root/", &Json::Null), Err(SchemaError::PathMissing));
}

#[test]
fn path_that_is_no_array_is_a_schema_error() {
    for value in [
        text("sub/doc.pdf"),
        Json::Null,
        Json::Number("1".to_string()),
        object(vec![("0", text("a"))]),
    ] {
        let entry = object(vec![("idType", text("arxiv")), ("path", value)]);
        assert_eq!(resolve_path("/root/", &entry), Err(SchemaError::PathNotArray));
    }
}

#[test]
fn segment_that_is_no_string_is_a_schema_error() {
    let entry = object(vec![(
        "path",
        Json::Array(vec![text("a/"), Json::Number("1".to_string()), Json::Null]),
    )]);
    assert_eq!(
        resolve_path("/root/", &entry),
        Err(SchemaError::SegmentNotText { index: 1 })
    );
    let first = object(vec![("path", Json::Array(vec![Json::Array(vec![])]))]);
    assert_eq!(
        segments_of(&first),
        Err(SchemaError::SegmentNotText { index: 0 })
    );
}

#[test]
fn each_schema_error_has_its_message() {
    assert_eq!(
        SchemaError::RootNotObject.message(),
        "the registry is not an object of entries"
    );
    assert_eq!(SchemaError::PathMissing.message(), "the entry has no `path`");
    assert_eq!(
        SchemaError::PathNotArray.message(),
        "the entry's `path` is not an array"
    );
    assert_eq!(
        SchemaError::SegmentNotText { index: 3 }.message(),
        "an item of the entry's `path` is not a string"
    );
}
