use capsula::error::{CoreError, IoKind};
use capsula::json::JsonValue;
use capsula::path::{file_name, join, path_is_absolute};
use capsula::text::{clone_words, same_text};

fn text(s: &str) -> JsonValue {
    JsonValue::String(s.to_string())
}

fn sample() -> JsonValue {
    JsonValue::Object(vec![
        ("name".to_string(), text("first")),
        ("flag".to_string(), JsonValue::Bool(true)),
        ("name".to_string(), text("second")),
        ("list".to_string(), JsonValue::Array(vec![JsonValue::UInt(1), JsonValue::Null])),
    ])
}

fn invalid(message: &str) -> CoreError {
    CoreError::Io { path: None, kind: IoKind::InvalidData, message: message.to_string() }
}

#[test]
fn get_finds_the_first_field_of_that_name() {
    let doc = sample();
    assert_eq!(doc.get("name"), Some(&text("first")));
    assert_eq!(doc.get("flag"), Some(&JsonValue::Bool(true)));
    assert_eq!(doc.get("missing"), None);
    assert_eq!(text("x").get("name"), None);
    assert_eq!(JsonValue::Array(vec![sample()]).get("name"), None);
}

#[test]
fn as_str_and_as_bool_read_only_their_own_kind() {
    assert_eq!(text("x").as_str(), Some("x"));
    assert_eq!(JsonValue::Bool(true).as_str(), None);
    assert_eq!(JsonValue::Bool(false).as_bool(), Some(false));
    assert_eq!(text("true").as_bool(), None);
    assert_eq!(JsonValue::Null.as_bool(), None);
}

#[test]
fn settings_are_read_by_name() {
    let doc = sample();
    assert_eq!(doc.required_text("name"), Ok("first".to_string()));
    assert_eq!(doc.required_text("other"), Err(invalid("missing field `other`")));
    assert_eq!(doc.required_text("flag"), Err(invalid("invalid type for field `flag`")));
    assert_eq!(doc.optional_text("other", "fallback"), Ok("fallback".to_string()));
    assert_eq!(doc.optional_text("name", "fallback"), Ok("first".to_string()));
    assert_eq!(doc.optional_text("list", "fallback"), Err(invalid("invalid type for field `list`")));
    assert_eq!(doc.optional_bool("flag", false), Ok(true));
    assert_eq!(doc.optional_bool("other", true), Ok(true));
    assert_eq!(doc.optional_bool("name", true), Err(invalid("invalid type for field `name`")));
}

#[test]
fn documents_are_built_and_copied() {
    assert_eq!(JsonValue::string("a"), text("a"));
    assert_eq!(JsonValue::integer(5), JsonValue::UInt(5));
    assert_eq!(JsonValue::integer(0), JsonValue::UInt(0));
    assert_eq!(JsonValue::integer(-5), JsonValue::Int(-5));
    assert_eq!(JsonValue::integer(i64::MIN), JsonValue::Int(i64::MIN));
    assert_eq!(JsonValue::array(vec![text("a")]), JsonValue::Array(vec![text("a")]));
    assert_eq!(
        JsonValue::object(vec![("k".to_string(), JsonValue::Null)]),
        JsonValue::Object(vec![("k".to_string(), JsonValue::Null)])
    );
    let nested = JsonValue::Array(vec![sample(), JsonValue::Real(0x4000_0000_0000_0000), sample()]);
    assert_eq!(nested.duplicate(), nested);
    assert_eq!(nested.clone(), nested);
}

#[test]
fn join_places_a_part_under_a_base() {
    assert_eq!(join("/a", "b"), "/a/b");
    assert_eq!(join("/a/", "b"), "/a/b");
    assert_eq!(join("", "b"), "b");
    assert_eq!(join("a", ""), "a/");
    assert_eq!(join("/a", "/b"), "/b");
    assert_eq!(join("/", "b"), "/b");
    assert_eq!(join("a/b", "c/d"), "a/b/c/d");
    assert_eq!(join("/päth", "ü"), "/päth/ü");
}

#[test]
fn absolute_paths_start_at_the_root() {
    assert!(path_is_absolute("/"));
    assert!(path_is_absolute("/a"));
    assert!(!path_is_absolute(""));
    assert!(!path_is_absolute("a/"));
}

#[test]
fn file_name_is_the_last_component() {
    assert_eq!(file_name("/usr/bin/tool"), Some("tool".to_string()));
    assert_eq!(file_name("tool.txt"), Some("tool.txt".to_string()));
    assert_eq!(file_name("/usr/bin/"), Some("bin".to_string()));
    assert_eq!(file_name("/usr/bin///"), Some("bin".to_string()));
    assert_eq!(file_name("a/.hidden"), Some(".hidden".to_string()));
    assert_eq!(file_name("a/..."), Some("...".to_string()));
    assert_eq!(file_name("/"), None);
    assert_eq!(file_name(""), None);
    assert_eq!(file_name("a/.."), None);
    assert_eq!(file_name(".."), None);
    assert_eq!(file_name("."), None);
    assert_eq!(file_name("/dir/ünïcode"), Some("ünïcode".to_string()));
}

#[test]
fn texts_are_compared_and_copied() {
    assert!(same_text("abc", "abc"));
    assert!(!same_text("abc", "abd"));
    assert!(!same_text("abc", "ab"));
    let words = vec!["a".to_string(), String::new(), "c d".to_string()];
    assert_eq!(clone_words(&words), words);
}

#[test]
fn errors_are_made_with_their_kind() {
    assert_eq!(
        CoreError::io(IoKind::PermissionDenied, "no"),
        CoreError::Io {
            path: None,
            kind: IoKind::PermissionDenied,
            message: "no".to_string(),
        }
    );
}
