use xivapi_rust::json::{parse_json, Json};
use xivapi_rust::wire::{nest, read_optional, read_required, write_optional, Wire};

fn fields_of(text: &str) -> Vec<(String, Json)> {
    match parse_json(text) {
        Some(Json::Object(fields)) => fields,
        other => panic!("no object: {:?}", other),
    }
}

#[test]
fn paths_are_joined_by_dots() {
    assert_eq!(nest("character", "id"), "character.id");
    assert_eq!(nest("character", ""), "character");
    assert_eq!(nest("results", "3.id"), "results.3.id");
    assert_eq!(nest("", "id"), ".id");
}

#[test]
fn numbers_are_held_to_their_width() {
    assert_eq!(u8::from_json(&Json::number(0)), Ok(0));
    assert_eq!(u8::from_json(&Json::number(255)), Ok(255));
    assert_eq!(u8::from_json(&Json::number(256)), Err(String::new()));
    assert_eq!(u16::from_json(&Json::number(65535)), Ok(65535));
    assert_eq!(u16::from_json(&Json::number(65536)), Err(String::new()));
    assert_eq!(u32::from_json(&Json::number(4294967295)), Ok(4294967295));
    assert_eq!(u32::from_json(&Json::number(4294967296)), Err(String::new()));
    assert_eq!(u32::from_json(&Json::number(u64::MAX)), Err(String::new()));
}

#[test]
fn values_of_the_wrong_kind_are_refused() {
    assert_eq!(u8::from_json(&Json::Text("1".to_string())), Err(String::new()));
    assert_eq!(u32::from_json(&Json::Number("-1".to_string())), Err(String::new()));
    assert_eq!(u32::from_json(&Json::Number("1.0".to_string())), Err(String::new()));
    assert_eq!(u32::from_json(&Json::Number("01".to_string())), Err(String::new()));
    assert_eq!(u32::from_json(&Json::Number(String::new())), Err(String::new()));
    assert_eq!(u8::from_json(&Json::Number("1e2".to_string())), Err(String::new()));
    assert_eq!(u32::from_json(&Json::Null), Err(String::new()));
    assert_eq!(bool::from_json(&Json::number(1)), Err(String::new()));
    assert_eq!(String::from_json(&Json::number(1)), Err(String::new()));
    assert_eq!(String::from_json(&Json::Null), Err(String::new()));
    assert_eq!(Vec::<u32>::from_json(&Json::Object(vec![])), Err(String::new()));
}

#[test]
fn plain_values_decode() {
    assert_eq!(bool::from_json(&Json::Bool(true)), Ok(true));
    assert_eq!(String::from_json(&Json::Text("Omega".to_string())), Ok("Omega".to_string()));
    assert_eq!(
        Vec::<u32>::from_json(&Json::List(vec![Json::number(3), Json::number(1)])),
        Ok(vec![3, 1])
    );
    assert_eq!(Vec::<String>::from_json(&Json::List(vec![])), Ok(vec![]));
}

#[test]
fn plain_values_encode() {
    assert_eq!(7u8.to_json(), Json::number(7));
    assert_eq!(65535u16.to_json(), Json::number(65535));
    assert_eq!(u32::MAX.to_json(), Json::number(4294967295));
    assert_eq!(false.to_json(), Json::Bool(false));
    assert_eq!("x".to_string().to_json(), Json::Text("x".to_string()));
    assert_eq!(vec![1u32, 2].to_json(), Json::List(vec![Json::number(1), Json::number(2)]));
    assert_eq!(Vec::<u32>::new().to_json(), Json::List(vec![]));
}

#[test]
fn the_first_element_that_does_not_fit_is_named_by_its_position() {
    let list = Json::List(vec![
        Json::number(1),
        Json::number(2),
        Json::Text("three".to_string()),
        Json::Null,
    ]);
    assert_eq!(Vec::<u32>::from_json(&list), Err("2".to_string()));
    let nested = Json::List(vec![Json::List(vec![]), Json::List(vec![Json::number(1), Json::Null])]);
    assert_eq!(Vec::<Vec<u32>>::from_json(&nested), Err("1.1".to_string()));
}

#[test]
fn required_members() {
    let fields = fields_of("{\"ID\": 7, \"Name\": null, \"Tag\": 300}");
    assert_eq!(read_required::<u32>(&fields, "ID", "id"), Ok(7));
    assert_eq!(read_required::<u32>(&fields, "Id", "id"), Err("id".to_string()));
    assert_eq!(read_required::<String>(&fields, "Name", "name"), Err("name".to_string()));
    assert_eq!(read_required::<u8>(&fields, "Tag", "tag"), Err("tag".to_string()));
    assert_eq!(read_required::<u16>(&fields, "Tag", "tag"), Ok(300));
}

#[test]
fn optional_members_are_absent_or_present() {
    let fields = fields_of("{\"Dye\": 7, \"Mirage\": null, \"Friends\": [], \"Creator\": 1}");
    assert_eq!(read_optional::<u32>(&fields, "Dye", "dye"), Ok(Some(7)));
    assert_eq!(read_optional::<u32>(&fields, "Mirage", "mirage"), Ok(None));
    assert_eq!(read_optional::<u32>(&fields, "Other", "other"), Ok(None));
    assert_eq!(read_optional::<Vec<u32>>(&fields, "Friends", "friends"), Ok(Some(vec![])));
    assert_eq!(read_optional::<Vec<u32>>(&fields, "Minions", "minions"), Ok(None));
    assert_eq!(read_optional::<String>(&fields, "Creator", "creator"), Err("creator".to_string()));
}

#[test]
fn optional_members_are_written() {
    assert_eq!(write_optional::<u32>(&None), Json::Null);
    assert_eq!(write_optional::<u32>(&Some(0)), Json::number(0));
    assert_eq!(write_optional::<Vec<u32>>(&Some(vec![])), Json::List(vec![]));
    assert_eq!(write_optional::<String>(&Some(String::new())), Json::Text(String::new()));
}
