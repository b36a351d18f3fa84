use repodb::repo_document::delete_json_key;
use repodb::repo_document::update_json_value;
use repodb::repo_document::JsonDocument;
use repodb::repo_document::RepoDocumentErr;

use serde_json::Value;

fn parse(text: &str) -> Value {
    serde_json::from_str(text).unwrap()
}

#[test]
fn test_update_json_value() {
    let data = r#"
        {
            "name": "John",
            "age": 43,
            "phones": [
                "+44 1234567",
                "+44 2345678"
            ]
        }"#;

    let v: Value = serde_json::from_str(data).unwrap();
    let name = "John Doe";
    let name_value = Value::from(String::from(name));
    let new_data_name = update_json_value(&v, "name", &name_value);
    assert_eq!(new_data_name["name"], String::from(name));
    let zip = 999999;
    let zip_value = Value::from(zip);
    let new_data_zip = update_json_value(&v, "address.zip", &zip_value);
    assert_eq!(new_data_zip["address"]["zip"], zip_value);
}

#[test]
fn test_delete_json_key() {
    let data = r#"
        {
            "name": "John",
            "age": 43,
            "address": {
                "zip": "999999"
            },
            "phones": [
                "+44 1234567",
                "+44 2345678"
            ]
        }"#;

    let v: Value = serde_json::from_str(data).unwrap();
    let new_data_name = delete_json_key(&v, "name");
    assert_eq!(new_data_name.get("name"), None);
    let new_data_zip = delete_json_key(&v, "address.zip");
    assert_eq!(new_data_zip.get("address").unwrap().get("zip"), None);
}

#[test]
fn update_leaves_the_rest_of_the_document() {
    let v = parse(r#"{"name": "John", "age": 43, "phones": ["a", "b"]}"#);
    let out = update_json_value(&v, "address.zip", &Value::from(999999));
    assert_eq!(
        out,
        parse(r#"{"name": "John", "age": 43, "phones": ["a", "b"], "address": {"zip": 999999}}"#)
    );
    assert_eq!(v, parse(r#"{"name": "John", "age": 43, "phones": ["a", "b"]}"#));
}

#[test]
fn update_builds_nested_objects_and_replaces_on_repeat() {
    let empty = Value::Object(serde_json::Map::new());
    let once = update_json_value(&empty, "a.b", &Value::from(5));
    assert_eq!(once, parse(r#"{"a": {"b": 5}}"#));
    let twice = update_json_value(&once, "a.b", &Value::from(7));
    assert_eq!(twice, parse(r#"{"a": {"b": 7}}"#));
    assert_eq!(twice, update_json_value(&empty, "a.b", &Value::from(7)));
}

#[test]
fn update_overwrites_an_intermediate_that_is_no_object() {
    let v = parse(r#"{"a": 1}"#);
    let out = update_json_value(&v, "a.b", &Value::from(5));
    assert_eq!(out, parse(r#"{"a": {"b": 5}}"#));
}

#[test]
fn update_keeps_siblings_along_the_path() {
    let v = parse(r#"{"a": {"x": 1, "b": {"y": 2}}, "z": [1]}"#);
    let out = update_json_value(&v, "a.b.c", &Value::from("new"));
    assert_eq!(out, parse(r#"{"a": {"x": 1, "b": {"y": 2, "c": "new"}}, "z": [1]}"#));
}

#[test]
fn update_of_a_document_that_is_no_object_changes_nothing() {
    let v = parse(r#"[1, 2, 3]"#);
    assert_eq!(update_json_value(&v, "a", &Value::from(1)), v);
    let s = Value::from("text");
    assert_eq!(update_json_value(&s, "a.b", &Value::from(1)), s);
}

#[test]
fn update_with_empty_segments() {
    let empty = Value::Object(serde_json::Map::new());
    assert_eq!(update_json_value(&empty, "", &Value::from(1)), parse(r#"{"": 1}"#));
    assert_eq!(update_json_value(&empty, "a.", &Value::from(1)), parse(r#"{"a": {"": 1}}"#));
}

#[test]
fn delete_removes_the_leaf() {
    let v = parse(r#"{"a": {"b": 1}}"#);
    assert_eq!(delete_json_key(&v, "a.b"), parse(r#"{"a": {}}"#));
}

#[test]
fn delete_through_a_non_object_changes_nothing() {
    let v = parse(r#"{"a": 1}"#);
    assert_eq!(delete_json_key(&v, "a.b"), v);
}

#[test]
fn delete_of_a_missing_key_changes_nothing() {
    let v = parse(r#"{"a": {"b": 1}, "c": 2}"#);
    assert_eq!(delete_json_key(&v, "x"), v);
    assert_eq!(delete_json_key(&v, "a.x"), v);
    assert_eq!(delete_json_key(&v, "x.b"), v);
    assert_eq!(delete_json_key(&v, "a.b.c"), v);
}

#[test]
fn delete_keeps_siblings() {
    let v = parse(r#"{"a": {"b": 1, "k": [true]}, "c": 2}"#);
    assert_eq!(delete_json_key(&v, "a.b"), parse(r#"{"a": {"k": [true]}, "c": 2}"#));
    assert_eq!(delete_json_key(&v, "a"), parse(r#"{"c": 2}"#));
}

#[test]
fn delete_of_a_document_that_is_no_object_changes_nothing() {
    let v = parse(r#"[{"a": 1}]"#);
    assert_eq!(delete_json_key(&v, "a"), v);
}

#[test]
fn update_then_delete_leaves_the_parent() {
    let empty = Value::Object(serde_json::Map::new());
    let set = update_json_value(&empty, "a.b", &Value::from(5));
    assert_eq!(delete_json_key(&set, "a.b"), parse(r#"{"a": {}}"#));
}

#[test]
fn document_remembers_its_paths() {
    let d = JsonDocument::new("/tmp/store", "people/john.json");
    assert_eq!(d.base_path(), "/tmp/store");
    assert_eq!(d.path(), "people/john.json");
}

#[test]
fn parse_reads_json_and_reports_bad_text() {
    let v = JsonDocument::parse(r#"{"a": [1, 2.5, null, "x"]}"#);
    assert!(matches!(&v, Ok(_)));
    if let Ok(value) = v {
        assert_eq!(value["a"][3], Value::from("x"));
    }
    let bad = JsonDocument::parse("{not json");
    assert!(matches!(bad, Err(RepoDocumentErr::ReadError(_))));
}

#[test]
fn render_prints_compact_json() {
    let v = parse(r#"{ "b": 1, "a": { "c": [1, 2] } }"#);
    assert_eq!(JsonDocument::render(&v), r#"{"a":{"c":[1,2]},"b":1}"#);
}

#[test]
fn updated_text_of_a_file() {
    let out = JsonDocument::updated(r#"{"a": 1}"#, "a.b", &Value::from(5));
    assert!(matches!(&out, Ok(_)));
    if let Ok(text) = out {
        assert_eq!(text, r#"{"a":{"b":5}}"#);
    }
}

#[test]
fn updated_text_of_a_bad_file_is_an_update_error() {
    let out = JsonDocument::updated("nonsense", "a", &Value::from(5));
    match out {
        Err(RepoDocumentErr::UpdateError(cause)) => {
            assert!(cause.starts_with("Repo document read error: "));
        }
        _ => panic!("expected an update error"),
    }
}

#[test]
fn deleted_text_of_a_file() {
    let out = JsonDocument::deleted(r#"{"a": {"b": 1}, "c": 2}"#, "a.b");
    assert!(matches!(&out, Ok(_)));
    if let Ok(text) = out {
        assert_eq!(text, r#"{"a":{},"c":2}"#);
    }
    let same = JsonDocument::deleted(r#"{"a": 1}"#, "a.b");
    if let Ok(text) = same {
        assert_eq!(text, r#"{"a":1}"#);
    } else {
        panic!("expected the document back");
    }
}

#[test]
fn deleted_text_of_a_bad_file_is_a_delete_error() {
    let parser_says = match serde_json::from_str::<Value>("[") {
        Err(e) => e.to_string(),
        Ok(_) => panic!("expected the parser to fail"),
    };
    match JsonDocument::deleted("[", "a") {
        Err(RepoDocumentErr::DeleteError(cause)) => {
            assert_eq!(cause, format!("Repo document read error: {}", parser_says));
        }
        _ => panic!("expected a delete error"),
    }
    assert!(matches!(
        JsonDocument::deleted("", "a.b"),
        Err(RepoDocumentErr::DeleteError(_))
    ));
}

#[test]
fn an_error_inside_a_delete_keeps_its_message() {
    let missing = RepoDocumentErr::ReadError(String::from("No such file or directory"));
    let outer = missing.in_delete();
    assert!(matches!(&outer, RepoDocumentErr::DeleteError(_)));
    assert_eq!(
        outer.format(),
        "Repo document delete error: Repo document read error: No such file or directory"
    );
    let unwritten = RepoDocumentErr::WriteError(String::from("disk full")).in_delete();
    assert_eq!(
        unwritten.format(),
        "Repo document delete error: Repo document write error: disk full"
    );
}

#[test]
fn a_read_error_carries_the_message_of_the_parser() {
    for text in ["{not json", "", "[1, 2", "{\"a\": }", "nul"] {
        let parser_says = match serde_json::from_str::<Value>(text) {
            Err(e) => e.to_string(),
            Ok(_) => panic!("expected the parser to fail"),
        };
        match JsonDocument::parse(text) {
            Err(RepoDocumentErr::ReadError(cause)) => assert_eq!(cause, parser_says),
            _ => panic!("expected a read error"),
        }
        match JsonDocument::updated(text, "a", &Value::from(1)) {
            Err(RepoDocumentErr::UpdateError(cause)) => {
                assert_eq!(cause, format!("Repo document read error: {}", parser_says));
            }
            _ => panic!("expected an update error"),
        }
    }
}

#[test]
fn document_errors_have_messages() {
    let c = || String::from("cause");
    assert_eq!(RepoDocumentErr::NotFound(c()).format(), "Repo document not found: cause");
    assert_eq!(RepoDocumentErr::ReadError(c()).format(), "Repo document read error: cause");
    assert_eq!(RepoDocumentErr::WriteError(c()).format(), "Repo document write error: cause");
    assert_eq!(RepoDocumentErr::UpdateError(c()).format(), "Repo document update error: cause");
    assert_eq!(RepoDocumentErr::DeleteError(c()).format(), "Repo document delete error: cause");
    assert_eq!(RepoDocumentErr::CreateError(c()).format(), "Repo document create error: cause");
    assert_eq!(RepoDocumentErr::CopyError(c()).format(), "Repo document copy error: cause");
    assert_eq!(RepoDocumentErr::RemoveError(c()).format(), "Repo document remove error: cause");
}

#[test]
fn an_error_inside_an_update_keeps_its_message() {
    let inner = RepoDocumentErr::WriteError(String::from("disk full"));
    let outer = inner.in_update();
    assert_eq!(
        outer.format(),
        "Repo document update error: Repo document write error: disk full"
    );
}
