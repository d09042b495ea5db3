use flypad::error::FetchError;
use flypad::flightplan::{Airport, FlightOverview, FlightPlan, Fuel, User};
use flypad::json::{Json, Member};

const PLAN: &str = "{
    \"fetch\": {\"userid\": \"123456\", \"status\": \"Success\"},
    \"origin\": {
        \"icao_code\": \"EDDF\", \"iata_code\": \"FRA\", \"name\": \"FRANKFURT MAIN\",
        \"plan_rwy\": \"25C\", \"trans_alt\": \"5000\", \"trans_level\": \"7000\",
        \"elevation\": \"364\"
    },
    \"destination\": {
        \"icao_code\": \"KJFK\", \"iata_code\": \"JFK\", \"name\": \"JOHN F KENNEDY INTL\",
        \"plan_rwy\": \"22L\", \"trans_alt\": \"18000\", \"trans_level\": \"18000\"
    },
    \"general\": {
        \"icao_airline\": \"DLH\", \"flight_number\": \"400\", \"costindex\": {},
        \"route_distance\": \"3398\", \"air_distance\": \"3611\",
        \"stepclimb_string\": \"EDDF/0340/N0485F360\", \"initial_altitude\": \"34000\",
        \"route_ifps\": \"N0487F340 MARUN7F MARUN Y152 ARPEG\",
        \"route_navigraph\": \"MARUN7F MARUN Y152 ARPEG PARCH3\",
        \"sid_ident\": \"MARUN7F\", \"sid_trans\": \"MARUN\",
        \"star_ident\": \"PARCH3\", \"star_trans\": \"CCC\"
    },
    \"fuel\": {
        \"taxi\": \"500\", \"enroute_burn\": \"52000\", \"contingency\": \"2600\",
        \"alternate_burn\": \"3100\", \"reserve\": \"2900\", \"etops\": \"0\", \"extra\": \"0\",
        \"extra_required\": \"0\", \"extra_optional\": \"0\", \"min_takeoff\": \"60600\",
        \"plan_takeoff\": \"60600\", \"plan_ramp\": \"61100\", \"plan_landing\": \"8600\",
        \"avg_fuel_flow\": \"6900\", \"max_tanks\": \"110000\"
    }
}";

fn object(document: &str) -> Vec<Member> {
    match Json::parse(document) {
        Some(Json::Object(members)) => members,
        _ => panic!("an object was expected"),
    }
}

#[test]
fn empty_object_in_place_of_the_cost_index_reads_as_the_placeholder() {
    let plan = FlightPlan::fetch(Some(PLAN)).unwrap();
    assert_eq!(plan.flight_information.cost_index, "No Value");
}

#[test]
fn every_other_field_of_the_plan_is_its_string() {
    let plan = FlightPlan::fetch(Some(PLAN)).unwrap();
    assert_eq!(plan.origin.icao_code, "EDDF");
    assert_eq!(plan.origin.iata_code, "FRA");
    assert_eq!(plan.origin.name, "FRANKFURT MAIN");
    assert_eq!(plan.origin.plan_rwy, "25C");
    assert_eq!(plan.origin.trans_alt, "5000");
    assert_eq!(plan.origin.trans_level, "7000");
    assert_eq!(plan.destination.icao_code, "KJFK");
    assert_eq!(plan.destination.iata_code, "JFK");
    assert_eq!(plan.destination.name, "JOHN F KENNEDY INTL");
    assert_eq!(plan.destination.plan_rwy, "22L");
    assert_eq!(plan.destination.trans_alt, "18000");
    assert_eq!(plan.destination.trans_level, "18000");
    let general = &plan.flight_information;
    assert_eq!(general.icao_airline, "DLH");
    assert_eq!(general.flight_number, "400");
    assert_eq!(general.route_distance, "3398");
    assert_eq!(general.air_distance, "3611");
    assert_eq!(general.step_climb_string, "EDDF/0340/N0485F360");
    assert_eq!(general.initial_altitude, "34000");
    assert_eq!(general.route_ifps, "N0487F340 MARUN7F MARUN Y152 ARPEG");
    assert_eq!(general.route_navigraph, "MARUN7F MARUN Y152 ARPEG PARCH3");
    assert_eq!(general.sid_ident, "MARUN7F");
    assert_eq!(general.sid_trans, "MARUN");
    assert_eq!(general.star_ident, "PARCH3");
    assert_eq!(general.star_trans, "CCC");
    let fuel = &plan.fuel;
    assert_eq!(fuel.taxi, "500");
    assert_eq!(fuel.enroute_burn, "52000");
    assert_eq!(fuel.contingency, "2600");
    assert_eq!(fuel.alternate_burn, "3100");
    assert_eq!(fuel.reserve, "2900");
    assert_eq!(fuel.etops, "0");
    assert_eq!(fuel.extra, "0");
    assert_eq!(fuel.extra_required, "0");
    assert_eq!(fuel.extra_optional, "0");
    assert_eq!(fuel.min_takeoff, "60600");
    assert_eq!(fuel.plan_takeoff, "60600");
    assert_eq!(fuel.plan_ramp, "61100");
    assert_eq!(fuel.plan_landing, "8600");
    assert_eq!(fuel.avg_fuel_flow, "6900");
    assert_eq!(fuel.max_tanks, "110000");
}

#[test]
fn one_malformed_field_leaves_the_rest_of_its_object() {
    let fuel = Fuel::from_object(&object("{\"taxi\": {}, \"reserve\": \"2900\", \"etops\": 12}"));
    assert_eq!(fuel.taxi, "No Value");
    assert_eq!(fuel.reserve, "2900");
    assert_eq!(fuel.etops, "No Value");
}

#[test]
fn overview_and_fuel_fields_that_are_missing_read_as_the_placeholder() {
    let overview = FlightOverview::from_object(&object("{\"flight_number\": \"400\"}"));
    assert_eq!(overview.flight_number, "400");
    assert_eq!(overview.icao_airline, "No Value");
    assert_eq!(overview.cost_index, "No Value");
    assert_eq!(overview.route_navigraph, "No Value");
    assert_eq!(overview.star_trans, "No Value");
    let fuel = Fuel::from_object(&Vec::new());
    assert_eq!(fuel.taxi, "No Value");
    assert_eq!(fuel.max_tanks, "No Value");
}

#[test]
fn overview_is_read_by_the_names_of_the_service() {
    let overview = FlightOverview::from_object(
        &object("{\"cost_index\": \"1\", \"costindex\": \"35\", \"step_climb_string\": \"a\", \"stepclimb_string\": \"b\"}"),
    );
    assert_eq!(overview.cost_index, "35");
    assert_eq!(overview.step_climb_string, "b");
}

#[test]
fn airport_fields_default_to_the_empty_text() {
    let airport = Airport::from_object(&object("{\"icao_code\": \"EDDF\", \"name\": {}, \"plan_rwy\": null}"));
    assert_eq!(airport.icao_code, "EDDF");
    assert_eq!(airport.iata_code, "");
    assert_eq!(airport.name, "");
    assert_eq!(airport.plan_rwy, "");
    assert_eq!(airport.trans_alt, "");
    assert_eq!(airport.trans_level, "");
}

#[test]
fn plan_with_empty_parts_is_a_plan_of_defaults() {
    let plan = FlightPlan::decode("{\"origin\":{},\"destination\":{},\"general\":{},\"fuel\":{}}").unwrap();
    assert_eq!(plan.origin.icao_code, "");
    assert_eq!(plan.destination.name, "");
    assert_eq!(plan.flight_information.route_navigraph, "No Value");
    assert_eq!(plan.fuel.plan_ramp, "No Value");
}

#[test]
fn plan_that_lacks_a_part_is_the_decode_error() {
    for body in [
        "{\"destination\":{},\"general\":{},\"fuel\":{}}",
        "{\"origin\":{},\"general\":{},\"fuel\":{}}",
        "{\"origin\":{},\"destination\":{},\"fuel\":{}}",
        "{\"origin\":{},\"destination\":{},\"general\":{}}",
        "{}",
    ] {
        assert_eq!(FlightPlan::fetch(Some(body)).err(), Some(FetchError::Decode));
    }
}

#[test]
fn plan_whose_part_is_no_object_is_the_decode_error() {
    for body in [
        "{\"origin\":\"EDDF\",\"destination\":{},\"general\":{},\"fuel\":{}}",
        "{\"origin\":{},\"destination\":null,\"general\":{},\"fuel\":{}}",
        "{\"origin\":{},\"destination\":{},\"general\":[],\"fuel\":{}}",
        "{\"origin\":{},\"destination\":{},\"general\":{},\"fuel\":0}",
    ] {
        assert_eq!(FlightPlan::decode(body).err(), Some(FetchError::Decode));
    }
}

#[test]
fn plan_body_of_another_shape_is_the_decode_error() {
    for body in ["", "<?xml version=\"1.0\"?>", "[]", "null", "\"plan\"", "{\"origin\":{}"] {
        assert_eq!(FlightPlan::fetch(Some(body)).err(), Some(FetchError::Decode));
    }
    assert_eq!(FlightPlan::from_document(&Json::Array(Vec::new())).err(), Some(FetchError::Decode));
}

#[test]
fn plan_request_that_failed_is_the_network_error() {
    assert_eq!(FlightPlan::fetch(None).err(), Some(FetchError::Network));
}

#[test]
fn plan_url_names_the_user() {
    assert_eq!(
        FlightPlan::url("123456"),
        "https://www.simbrief.com/api/xml.fetcher.php?userid=123456&json=1"
    );
}

#[test]
fn plan_url_is_keyed_by_the_empty_user_too() {
    assert_eq!(
        FlightPlan::url(""),
        "https://www.simbrief.com/api/xml.fetcher.php?userid=&json=1"
    );
}

#[test]
fn plan_url_takes_the_user_as_given() {
    assert_eq!(
        FlightPlan::url(" 12 34&x"),
        "https://www.simbrief.com/api/xml.fetcher.php?userid= 12 34&x&json=1"
    );
}

#[test]
fn plan_clone_keeps_every_part() {
    let plan = FlightPlan::decode(PLAN).unwrap();
    let copy = plan.clone();
    assert_eq!(copy.origin.icao_code, "EDDF");
    assert_eq!(copy.destination.icao_code, "KJFK");
    assert_eq!(copy.flight_information.cost_index, "No Value");
    assert_eq!(copy.flight_information.star_trans, "CCC");
    assert_eq!(copy.fuel.max_tanks, "110000");
}

#[test]
fn user_is_read_from_a_json_string() {
    assert_eq!(User::decode("\"123456\"").map(|user| user.0), Some("123456".to_string()));
    assert_eq!(User::decode(" \"a b\"\n").map(|user| user.0), Some("a b".to_string()));
    assert_eq!(User::decode("\"\"").map(|user| user.0), Some(String::new()));
}

#[test]
fn user_is_not_read_from_another_document() {
    for contents in ["", "123456", "null", "{\"user\":\"123456\"}", "[\"123456\"]", "\"123456", "\"a\" \"b\""] {
        assert!(User::decode(contents).is_none());
    }
}

#[test]
fn user_is_written_as_a_json_string() {
    assert_eq!(User("123456".to_string()).encode(), Some("\"123456\"".to_string()));
    assert_eq!(User("a\"b".to_string()).encode(), Some("\"a\\\"b\"".to_string()));
}

#[test]
fn user_that_was_written_is_read_back() {
    for user_id in [
        "", "123456", "pilot \\ \"one\"", " a b ", "\n\t\r", "\u{0}\u{1f}", "\u{e9}\u{4e2d}\u{1f6e9}",
        "null", "{}", "\\u0041", "/",
    ] {
        let written = User(user_id.to_string()).encode().unwrap();
        assert_eq!(User::decode(&written).map(|user| user.0), Some(user_id.to_string()));
    }
}
