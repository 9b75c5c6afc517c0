use madome_sdk::cookie::{parse_set_cookie, take_set_cookie, Cookie};
use madome_sdk::json::json_body;
use madome_sdk::library::payload::{BookKind, BookSortBy};
use madome_sdk::path::{find_field, substitute_path};
use std::collections::BTreeMap;

use madome_sdk::path::scalar_string;
use madome_sdk::query::{field_query, kebab_name, query_string, Field, ParamValue, Scalar};
use madome_sdk::text::same_text;

fn field(name: &str, value: ParamValue) -> Field {
    Field { name: name.to_string(), value }
}

fn text(s: &str) -> Scalar {
    Scalar::Text(s.to_string())
}

#[test]
fn query_keys_are_kebab_case_in_declared_order() {
    let fields = vec![
        field("kind", BookKind::GameCg.to_param()),
        field("per_page", ParamValue::One(Scalar::UInt(25))),
        field("page", ParamValue::One(Scalar::UInt(1))),
        field("sort_by", BookSortBy::IdDesc.to_param()),
    ];
    assert_eq!(query_string(&fields).unwrap(), "kind=game-cg&per-page=25&page=1&sort-by=id-desc");
}

#[test]
fn query_lists_are_indexed_and_absent_values_skipped() {
    let fields = vec![
        field("kind", ParamValue::Absent),
        field("ids", ParamValue::Many(vec![Scalar::UInt(1), Scalar::UInt(2), Scalar::UInt(3)])),
        field("sort_by", ParamValue::Absent),
    ];
    assert_eq!(query_string(&fields).unwrap(), "ids[0]=1&ids[1]=2&ids[2]=3");
    assert_eq!(query_string(&vec![]).unwrap(), "");
    assert_eq!(query_string(&vec![field("ids", ParamValue::Many(vec![]))]).unwrap(), "");
}

#[test]
fn query_values_are_percent_encoded() {
    let fields = vec![
        field("metadata_value", ParamValue::One(text("a b&c=d"))),
        field("flag", ParamValue::One(Scalar::Bool(true))),
        field("name", ParamValue::One(text("한"))),
        field("safe", ParamValue::One(text("A-z_0.9*~"))),
    ];
    assert_eq!(
        query_string(&fields).unwrap(),
        "metadata-value=a+b%26c%3Dd&flag=true&name=%ED%95%9C&safe=A-z_0.9*%7E"
    );
}

#[test]
fn query_round_trips_through_serde_qs() {
    let fields = vec![
        field("user_name", ParamValue::One(text("x&y = z%[]"))),
        field("skipped", ParamValue::Absent),
        field("name", ParamValue::One(text("한글"))),
    ];
    let qs = query_string(&fields).unwrap();
    let parsed: BTreeMap<String, String> = serde_qs::from_str(&qs).unwrap();
    assert_eq!(
        parsed,
        BTreeMap::from([
            ("user-name".to_string(), "x&y = z%[]".to_string()),
            ("name".to_string(), "한글".to_string()),
        ])
    );
    let lists = vec![field("book_ids", ParamValue::Many(vec![Scalar::UInt(10), Scalar::UInt(0)]))];
    let parsed: BTreeMap<String, Vec<String>> = serde_qs::from_str(&query_string(&lists).unwrap()).unwrap();
    assert_eq!(parsed, BTreeMap::from([("book-ids".to_string(), vec!["10".to_string(), "0".to_string()])]));
}

#[test]
fn query_lists_of_pairs() {
    let fields = vec![
        field("tags", ParamValue::Pairs(vec![(text("female"), text("loli")), (text("male"), text("a b"))])),
        field("per_page", ParamValue::One(Scalar::UInt(3))),
    ];
    assert_eq!(
        query_string(&fields).unwrap(),
        "tags[0][0]=female&tags[0][1]=loli&tags[1][0]=male&tags[1][1]=a+b&per-page=3"
    );
}

#[test]
fn encoding_helpers() {
    assert_eq!(kebab_name("sort_by_x"), "sort-by-x");
    assert_eq!(scalar_string(&Scalar::UInt(1207)), "1207");
    assert_eq!(scalar_string(&Scalar::Bool(false)), "false");
    assert_eq!(field_query(&field("kind", ParamValue::Absent)).unwrap(), "");
    assert_eq!(field_query(&field("sort_by", ParamValue::One(text("id-desc")))).unwrap(), "sort-by=id-desc");
    assert!(same_text("abc", "abc"));
    assert!(!same_text("abc", "abd"));
}

#[test]
fn path_placeholders_are_substituted() {
    let fields = vec![
        field("book_id", ParamValue::One(Scalar::UInt(123456))),
        field("file_name", ParamValue::One(text("01.png"))),
    ];
    assert_eq!(
        substitute_path("/books/:book_id/images/:file_name", &fields),
        "/books/123456/images/01.png"
    );
    assert_eq!(substitute_path("/books/:missing", &fields), "/books/:missing");
    assert_eq!(substitute_path("/users/@me", &fields), "/users/@me");
    assert_eq!(find_field(&fields, "file_name"), Some(1));
    assert_eq!(find_field(&fields, "file"), None);
}

#[test]
fn json_body_uses_field_names_in_order() {
    let fields = vec![
        field("name", ParamValue::One(text("madome"))),
        field("email", ParamValue::One(text("user@madome.app"))),
        field("role", ParamValue::Absent),
    ];
    assert_eq!(json_body(&fields).unwrap(), r#"{"name":"madome","email":"user@madome.app","role":null}"#);
}

#[test]
fn json_body_escapes_strings_and_writes_lists() {
    let fields = vec![
        field("tag_name", ParamValue::One(text("a\"b\\c\nd\u{1}"))),
        field("ids", ParamValue::Many(vec![Scalar::UInt(1), Scalar::UInt(22)])),
        field("on", ParamValue::One(Scalar::Bool(true))),
    ];
    let body = json_body(&fields).unwrap();
    assert_eq!(body, "{\"tag_name\":\"a\\\"b\\\\c\\nd\\u0001\",\"ids\":[1,22],\"on\":true}");
    let v: serde_json::Value = serde_json::from_str(&body).unwrap();
    assert_eq!(v["tag_name"], "a\"b\\c\nd\u{1}");
    assert_eq!(json_body(&vec![]).unwrap(), "{}");
    let pairs = vec![field("tags", ParamValue::Pairs(vec![(text("a"), text("b"))]))];
    assert_eq!(json_body(&pairs).unwrap(), r#"{"tags":[["a","b"]]}"#);
}

#[test]
fn cookie_header_value() {
    let c = Cookie::from_pair("ACCESS", "REFRESH");
    assert_eq!(c.header_value(), "madome_access_token=ACCESS; madome_refresh_token=REFRESH");
    assert_eq!(Cookie { pairs: vec![] }.header_value(), "");
}

#[test]
fn set_cookie_headers_are_read() {
    assert_eq!(
        parse_set_cookie("madome_access_token=abc; Path=/; HttpOnly"),
        Some(("madome_access_token".to_string(), "abc".to_string()))
    );
    assert_eq!(parse_set_cookie("novalue"), None);
    let headers = vec![
        "madome_access_token=old; Path=/".to_string(),
        "other=1".to_string(),
        "madome_refresh_token=r1".to_string(),
        "madome_access_token=new; HttpOnly".to_string(),
    ];
    assert_eq!(take_set_cookie(&headers, "madome_access_token"), Some("new".to_string()));
    assert_eq!(take_set_cookie(&headers, "madome_refresh_token"), Some("r1".to_string()));
    assert_eq!(take_set_cookie(&headers, "missing"), None);
}

#[test]
fn query_matches_serde_qs_on_the_same_values() {
    let mut m = serde_json::Map::new();
    m.insert(
        "ids".to_string(),
        serde_json::Value::Array(vec![1u32.into(), 2u32.into(), 3u32.into()]),
    );
    m.insert("metadata-value".to_string(), serde_json::Value::String("a b&c=d*".to_string()));
    let expected = serde_qs::to_string(&serde_json::Value::Object(m)).unwrap();
    let fields = vec![
        field("ids", ParamValue::Many(vec![Scalar::UInt(1), Scalar::UInt(2), Scalar::UInt(3)])),
        field("metadata_value", ParamValue::One(text("a b&c=d*"))),
    ];
    assert_eq!(query_string(&fields).unwrap(), expected);
}
