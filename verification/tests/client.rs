use relay_gitcode_cli::client::{api_reply_step, next_page};
use relay_gitcode_cli::client::{
    api_body, api_status_error, endpoint_url, form_body, merge_pages, next_link, parse_headers,
    parse_response_body, parse_typed_value, query, split_field, HttpMethod, Request,
};
use relay_gitcode_cli::error::GdError;
use relay_gitcode_cli::json::Json;

fn s(v: &str) -> Json {
    Json::Str(v.to_string())
}

#[test]
fn typed_values_parse_basic_scalars() {
    assert_eq!(parse_typed_value("true", None), Json::Bool(true));
    assert_eq!(parse_typed_value("42", None), Json::Number("42".to_string()));
    assert_eq!(parse_typed_value("name", None), s("name"));
}

#[test]
fn endpoint_is_joined_under_api_base() {
    assert_eq!(
        endpoint_url("https://api.gitcode.com/api/v5/", "/repos/a/b").unwrap(),
        "https://api.gitcode.com/api/v5/repos/a/b"
    );
}

#[test]
fn typed_values_keep_integers_and_use_the_float_reading() {
    assert_eq!(parse_typed_value("-7", None), Json::Number("-7".to_string()));
    assert_eq!(parse_typed_value("+7", None), Json::Number("7".to_string()));
    assert_eq!(parse_typed_value("null", None), Json::Null);
    assert_eq!(
        parse_typed_value("1.5", Some(Json::Number("1.5".to_string()))),
        Json::Number("1.5".to_string())
    );
    assert_eq!(
        parse_typed_value("99999999999999999999", None),
        s("99999999999999999999")
    );
}

#[test]
fn absolute_endpoints_are_used_as_they_are() {
    assert_eq!(
        endpoint_url("https://api.gitcode.com/api/v5/", "https://other.example/x?y=1").unwrap(),
        "https://other.example/x?y=1"
    );
}

#[test]
fn fields_split_at_first_equals() {
    assert_eq!(
        split_field("a=b=c").unwrap(),
        ("a".to_string(), "b=c".to_string())
    );
    assert!(matches!(split_field("abc"), Err(GdError::FieldForm { .. })));
}

#[test]
fn api_body_combines_raw_and_typed_fields() {
    assert_eq!(api_body(&vec![], &vec![]).unwrap(), None);
    let body = api_body(
        &vec!["title=hi".to_string()],
        &vec![("count=3".to_string(), None)],
    )
    .unwrap()
    .unwrap();
    assert_eq!(
        body,
        Json::Object(vec![
            ("title".to_string(), s("hi")),
            ("count".to_string(), Json::Number("3".to_string())),
        ])
    );
    assert!(api_body(&vec!["bad".to_string()], &vec![]).is_err());
}

#[test]
fn single_page_is_returned_and_pages_are_flattened() {
    assert_eq!(merge_pages(vec![s("x")]), s("x"));
    let merged = merge_pages(vec![Json::Array(vec![s("a"), s("b")]), s("c")]);
    assert_eq!(merged, Json::Array(vec![s("a"), s("b"), s("c")]));
    assert_eq!(merge_pages(vec![]), Json::Array(vec![]));
}

#[test]
fn headers_parse_as_name_value_pairs() {
    assert_eq!(
        parse_headers(&vec!["Accept: text/plain".to_string()]).unwrap(),
        vec![("Accept".to_string(), "text/plain".to_string())]
    );
    assert!(matches!(
        parse_headers(&vec!["no colon".to_string()]),
        Err(GdError::HeaderForm { .. })
    ));
    assert_eq!(
        parse_headers(&vec!["bad name: v".to_string()]),
        Err(GdError::InvalidHeaderName)
    );
}

#[test]
fn next_link_finds_the_next_relation() {
    let link = "<https://x/a?page=1>; rel=\"prev\", <https://x/a?page=3>; rel=\"next\"";
    assert_eq!(next_link(Some(link)).as_deref(), Some("https://x/a?page=3"));
    assert_eq!(next_link(Some("<https://x/a>; rel=\"prev\"")), None);
    assert_eq!(next_link(None), None);
}

#[test]
fn empty_response_bodies_are_null() {
    assert_eq!(parse_response_body("  ", None), Json::Null);
    assert_eq!(parse_response_body("oops", None), s("oops"));
    assert_eq!(parse_response_body("1", Some(Json::Number("1".to_string()))), Json::Number("1".to_string()));
}

#[test]
fn status_error_prefers_message_then_error() {
    let body = Json::Object(vec![("error".to_string(), s("denied"))]);
    assert_eq!(
        api_status_error("403 Forbidden", &body, "{}"),
        "GitCode API returned 403 Forbidden: denied"
    );
    assert_eq!(
        api_status_error("500", &Json::Null, "null"),
        "GitCode API returned 500: null"
    );
}

#[test]
fn query_and_form_keep_present_values() {
    let q = query(vec![("a", Some("1".to_string())), ("b", None)]);
    assert_eq!(q, vec![("a".to_string(), "1".to_string())]);
    let f = form_body(vec![("title", Some("t".to_string())), ("body", None)]);
    assert_eq!(f, Json::Object(vec![("title".to_string(), s("t"))]));
}

#[test]
fn requests_drop_empty_query_values() {
    let r = Request::new(
        HttpMethod::Get,
        "user".to_string(),
        vec![
            ("page".to_string(), "1".to_string()),
            ("state".to_string(), String::new()),
        ],
        None,
    );
    assert_eq!(r.query, vec![("page".to_string(), "1".to_string())]);
}

#[test]
fn pages_follow_links_only_when_paginating() {
    let link = "<https://x/a?page=2>; rel=\"next\"";
    assert_eq!(next_page(true, Some(link)).as_deref(), Some("https://x/a?page=2"));
    assert_eq!(next_page(false, Some(link)), None);
}

#[test]
fn header_names_follow_the_token_rules() {
    for name in ["X-Custom", "x_y", "a.b", "A1!#$%&'*+-^`|~"] {
        let line = format!("{name}: v");
        assert_eq!(
            parse_headers(&vec![line]).unwrap(),
            vec![(name.to_string(), "v".to_string())]
        );
    }
    for name in ["a b", "a/b", "(x)", "é"] {
        let line = format!("{name}: v");
        assert_eq!(parse_headers(&vec![line]), Err(GdError::InvalidHeaderName));
    }
    assert!(matches!(parse_headers(&vec![": v".to_string()]), Err(_)));
}

#[test]
fn api_reply_step_fails_or_follows_the_next_link() {
    let link = "<https://x.example/a?page=2>; rel=\"next\", <https://x.example/a?page=9>; rel=\"last\"";
    assert_eq!(
        api_reply_step(true, "200 OK", &Json::Null, "null", true, Some(link)),
        Ok(Some("https://x.example/a?page=2".to_string()))
    );
    assert_eq!(api_reply_step(true, "200 OK", &Json::Null, "null", false, Some(link)), Ok(None));
    assert_eq!(api_reply_step(true, "200 OK", &Json::Null, "null", true, None), Ok(None));
    assert_eq!(
        api_reply_step(false, "500", &Json::Null, "null", true, Some(link)),
        Err("GitCode API returned 500: null".to_string())
    );
}
