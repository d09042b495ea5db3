use flypad::json::{Json, Member};
use flypad::utils::{
    deserialize_flight_plan_string, deserialize_optional_string, read_flight_plan_field,
    read_number_field, read_object_field, read_optional_string_field, read_string_field,
    read_text_field, PLACEHOLDER,
};

fn object(document: &str) -> Vec<Member> {
    match Json::parse(document) {
        Some(Json::Object(members)) => members,
        _ => panic!("an object was expected"),
    }
}

#[test]
fn placeholder_is_no_value() {
    assert_eq!(PLACEHOLDER, "No Value");
}

#[test]
fn flight_plan_string_keeps_a_string() {
    assert_eq!(deserialize_flight_plan_string(&Json::Text("DLH".to_string())), "DLH");
    assert_eq!(deserialize_flight_plan_string(&Json::Text(String::new())), "");
    assert_eq!(deserialize_flight_plan_string(&Json::Text("No Value".to_string())), "No Value");
}

#[test]
fn flight_plan_string_replaces_an_empty_object() {
    assert_eq!(deserialize_flight_plan_string(&Json::Object(Vec::new())), "No Value");
    assert_eq!(deserialize_flight_plan_string(&Json::parse("{}").unwrap()), "No Value");
}

#[test]
fn flight_plan_string_replaces_every_other_shape() {
    assert_eq!(deserialize_flight_plan_string(&Json::Null), "No Value");
    assert_eq!(deserialize_flight_plan_string(&Json::Bool(true)), "No Value");
    assert_eq!(deserialize_flight_plan_string(&Json::Number("35".to_string())), "No Value");
    assert_eq!(deserialize_flight_plan_string(&Json::Array(Vec::new())), "No Value");
    assert_eq!(deserialize_flight_plan_string(&Json::parse("{\"a\": \"b\"}").unwrap()), "No Value");
}

#[test]
fn optional_string_keeps_a_string() {
    assert_eq!(deserialize_optional_string(&Json::Text("10+".to_string())), Some("10+".to_string()));
    assert_eq!(deserialize_optional_string(&Json::Text(String::new())), Some(String::new()));
}

#[test]
fn optional_string_writes_a_number_out() {
    assert_eq!(deserialize_optional_string(&Json::parse("6").unwrap()), Some("6".to_string()));
    assert_eq!(deserialize_optional_string(&Json::parse("6.5").unwrap()), Some("6.5".to_string()));
    assert_eq!(deserialize_optional_string(&Json::parse("-1").unwrap()), Some("-1".to_string()));
    assert_eq!(deserialize_optional_string(&Json::parse("10.0").unwrap()), Some("10.0".to_string()));
}

#[test]
fn optional_string_has_nothing_for_every_other_shape() {
    assert_eq!(deserialize_optional_string(&Json::Null), None);
    assert_eq!(deserialize_optional_string(&Json::Bool(false)), None);
    assert_eq!(deserialize_optional_string(&Json::Array(Vec::new())), None);
    assert_eq!(deserialize_optional_string(&Json::Object(Vec::new())), None);
}

#[test]
fn fields_are_read_by_their_name() {
    let members = object("{\"s\": \"text\", \"n\": 2.5, \"o\": {\"s\": \"inner\"}, \"z\": null}");
    assert_eq!(read_flight_plan_field(&members, "s"), "text");
    assert_eq!(read_optional_string_field(&members, "s"), Some("text".to_string()));
    assert_eq!(read_optional_string_field(&members, "n"), Some("2.5".to_string()));
    assert_eq!(read_text_field(&members, "s"), Some("text".to_string()));
    assert_eq!(read_string_field(&members, "s"), "text");
    assert_eq!(read_number_field(&members, "n").unwrap().as_str(), "2.5");
    let inner = read_object_field(&members, "o").unwrap();
    assert_eq!(read_string_field(inner, "s"), "inner");
}

#[test]
fn fields_of_another_shape_take_their_default() {
    let members = object("{\"s\": \"text\", \"n\": 2.5, \"o\": {}, \"z\": null}");
    assert_eq!(read_flight_plan_field(&members, "n"), "No Value");
    assert_eq!(read_flight_plan_field(&members, "o"), "No Value");
    assert_eq!(read_flight_plan_field(&members, "z"), "No Value");
    assert_eq!(read_optional_string_field(&members, "o"), None);
    assert_eq!(read_optional_string_field(&members, "z"), None);
    assert_eq!(read_text_field(&members, "n"), None);
    assert_eq!(read_string_field(&members, "n"), "");
    assert_eq!(read_string_field(&members, "o"), "");
    assert!(read_number_field(&members, "s").is_none());
    assert!(read_number_field(&members, "z").is_none());
    assert!(read_object_field(&members, "s").is_none());
    assert!(read_object_field(&members, "z").is_none());
}

#[test]
fn fields_that_are_missing_take_their_default() {
    let members = object("{\"s\": \"text\"}");
    assert_eq!(read_flight_plan_field(&members, "t"), "No Value");
    assert_eq!(read_optional_string_field(&members, "t"), None);
    assert_eq!(read_text_field(&members, "t"), None);
    assert_eq!(read_string_field(&members, "t"), "");
    assert!(read_number_field(&members, "t").is_none());
    assert!(read_object_field(&members, "t").is_none());
}
