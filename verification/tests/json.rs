use xivapi_rust::json::{get, no_fields, parse_json, put, Json};

#[test]
fn parses_the_kinds_of_values() {
    assert_eq!(parse_json("null"), Some(Json::Null));
    assert_eq!(parse_json("true"), Some(Json::Bool(true)));
    assert_eq!(parse_json("false"), Some(Json::Bool(false)));
    assert_eq!(parse_json("0"), Some(Json::number(0)));
    assert_eq!(parse_json("18446744073709551615"), Some(Json::number(u64::MAX)));
    assert_eq!(parse_json("\"Omega\""), Some(Json::Text("Omega".to_string())));
    assert_eq!(parse_json("[]"), Some(Json::List(vec![])));
    assert_eq!(parse_json("{}"), Some(Json::Object(vec![])));
}

#[test]
fn parses_nested_documents() {
    let doc = parse_json(" {\"ID\": 7, \"Materia\": [1, 2], \"Name\": \"x\\n\\u00e9\"} ");
    assert_eq!(
        doc,
        Some(Json::Object(vec![
            ("ID".to_string(), Json::number(7)),
            ("Materia".to_string(), Json::List(vec![Json::number(1), Json::number(2)])),
            ("Name".to_string(), Json::Text("x\n\u{e9}".to_string())),
        ]))
    );
}

#[test]
fn numbers_are_kept_as_numerals() {
    assert_eq!(parse_json("7"), Some(Json::Number("7".to_string())));
    assert_eq!(parse_json("-1"), Some(Json::Number("-1".to_string())));
    assert_eq!(parse_json("1.5"), Some(Json::Number("1.5".to_string())));
    assert_eq!(parse_json("3.0"), Some(Json::Number("3.0".to_string())));
    assert_eq!(Json::number(0), Json::Number("0".to_string()));
    assert_eq!(Json::number(4294967296), Json::Number("4294967296".to_string()));
}

#[test]
fn what_is_no_json_is_refused() {
    assert_eq!(parse_json(""), None);
    assert_eq!(parse_json("{"), None);
    assert_eq!(parse_json("{\"a\": }"), None);
    assert_eq!(parse_json("[1, 2,]"), None);
    assert_eq!(parse_json("nul"), None);
    assert_eq!(parse_json("{} {}"), None);
    assert_eq!(parse_json("<html></html>"), None);
    assert_eq!(parse_json("01"), None);
}

#[test]
fn members_are_found_by_name() {
    let doc = parse_json("{\"b\": 2, \"a\": 1}").unwrap();
    let fields = doc.as_object().unwrap();
    assert_eq!(get(fields, "a"), Some(&Json::number(1)));
    assert_eq!(get(fields, "b"), Some(&Json::number(2)));
    assert_eq!(get(fields, "c"), None);
    assert_eq!(get(fields, "A"), None);
    assert_eq!(get(fields, ""), None);
}

#[test]
fn the_first_member_of_a_name_is_taken() {
    let mut fields = no_fields();
    put(&mut fields, "a", Json::number(1));
    put(&mut fields, "b", Json::number(2));
    put(&mut fields, "a", Json::number(3));
    assert_eq!(fields.len(), 3);
    assert_eq!(get(&fields, "a"), Some(&Json::number(1)));
    assert_eq!(get(&fields, "b"), Some(&Json::number(2)));
}

#[test]
fn constructors_and_accessors() {
    assert_eq!(Json::list(vec![Json::Null]), Json::List(vec![Json::Null]));
    assert_eq!(Json::object(vec![]), Json::Object(vec![]));
    assert_eq!(Json::Null.as_object(), None);
    assert_eq!(Json::List(vec![]).as_object(), None);
    assert_eq!(Json::Object(vec![]).as_list(), None);
    assert_eq!(Json::List(vec![Json::Bool(true)]).as_list(), Some(&vec![Json::Bool(true)]));
    assert_eq!(no_fields(), vec![]);
}
