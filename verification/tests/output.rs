use relay_gitcode_cli::json::Json;
use relay_gitcode_cli::output::{
    row_summary, rows_text, simple_value, text_summary, Row, Summary,
};

fn s(v: &str) -> Json {
    Json::Str(v.to_string())
}

fn n(v: &str) -> Json {
    Json::Number(v.to_string())
}

fn obj(entries: Vec<(&str, Json)>) -> Json {
    Json::Object(entries.into_iter().map(|(k, v)| (k.to_string(), v)).collect())
}

fn summary_text(summary: Summary, compact: &[&str]) -> String {
    match summary {
        Summary::Rows(rows) => {
            let compact = compact.iter().map(|c| c.to_string()).collect::<Vec<_>>();
            rows_text(&rows, &compact)
        }
        other => panic!("{other:?}"),
    }
}

#[test]
fn summarizes_arrays_as_rows() {
    let value = Json::Array(vec![
        obj(vec![("number", n("1")), ("title", s("first")), ("state", s("open"))]),
        obj(vec![("number", n("2")), ("title", s("second")), ("state", s("closed"))]),
    ]);
    assert_eq!(
        summary_text(text_summary(&value), &["", ""]),
        "1\tfirst\topen\n2\tsecond\tclosed"
    );
}

#[test]
fn summarizes_url_objects_by_url() {
    let value = obj(vec![("html_url", s("https://gitcode.com/a/b")), ("name", s("b"))]);
    assert_eq!(
        text_summary(&value),
        Summary::Text("https://gitcode.com/a/b".to_string())
    );
}

#[test]
fn objects_without_url_use_their_name_or_pretty_json() {
    assert_eq!(
        text_summary(&obj(vec![("name", s("b")), ("full_name", s("a/b"))])),
        Summary::Text("a/b".to_string())
    );
    assert_eq!(text_summary(&obj(vec![("id", n("1"))])), Summary::Pretty);
    assert_eq!(text_summary(&s("x")), Summary::Compact);
}

#[test]
fn rows_without_known_fields_are_compact() {
    assert_eq!(row_summary(&obj(vec![("other", s("x"))])), Row::Compact);
    assert_eq!(row_summary(&n("3")), Row::Compact);
    assert_eq!(
        row_summary(&obj(vec![("state", Json::Bool(true)), ("id", n("9"))])),
        Row::Fields("9\ttrue".to_string())
    );
}

#[test]
fn simple_values_are_strings_numbers_and_booleans() {
    assert_eq!(simple_value(Some(&Json::Bool(false))).as_deref(), Some("false"));
    assert_eq!(simple_value(Some(&Json::Null)), None);
    assert_eq!(simple_value(None), None);
}

#[test]
fn rows_without_fields_use_their_compact_text() {
    let value = Json::Array(vec![
        obj(vec![("number", n("7"))]),
        obj(vec![("other", s("x"))]),
        s("plain"),
    ]);
    assert_eq!(
        summary_text(text_summary(&value), &["-", "{\"other\":\"x\"}", "\"plain\""]),
        "7\n{\"other\":\"x\"}\n\"plain\""
    );
    assert_eq!(rows_text(&Vec::new(), &Vec::new()), "");
}
