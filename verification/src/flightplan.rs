use crate::error::FetchError;
use crate::json::{json_document, json_string, pretty_string, Json, Member};
use crate::utils::{
    flight_plan_field, object_field, option_text, read_flight_plan_field, read_object_field,
    read_string_field, string_field,
};
use vstd::prelude::*;

verus! {

/// Where the flight-planning service answers.
pub const PLAN_ENDPOINT: &'static str = "https://www.simbrief.com/api/xml.fetcher.php?userid=";

/// The user identifier as it is stored between sessions: a JSON document that
/// holds one string.
#[derive(Debug)]
pub struct User(pub String);

/// What a flight plan says of one of its two airports.
#[derive(Debug)]
pub struct Airport {
    pub icao_code: String,
    pub iata_code: String,
    pub name: String,
    pub plan_rwy: String,
    pub trans_alt: String,
    pub trans_level: String,
}

/// An airport of a plan as the contracts speak of it.
pub struct AirportView {
    pub icao_code: Seq<char>,
    pub iata_code: Seq<char>,
    pub name: Seq<char>,
    pub plan_rwy: Seq<char>,
    pub trans_alt: Seq<char>,
    pub trans_level: Seq<char>,
}

impl View for Airport {
    type V = AirportView;

    open spec fn view(&self) -> AirportView {
        AirportView {
            icao_code: self.icao_code@,
            iata_code: self.iata_code@,
            name: self.name@,
            plan_rwy: self.plan_rwy@,
            trans_alt: self.trans_alt@,
            trans_level: self.trans_level@,
        }
    }
}

impl Clone for Airport {
    fn clone(&self) -> (out: Airport)
        ensures
            out == *self,
    {
        Airport {
            icao_code: self.icao_code.clone(),
            iata_code: self.iata_code.clone(),
            name: self.name.clone(),
            plan_rwy: self.plan_rwy.clone(),
            trans_alt: self.trans_alt.clone(),
            trans_level: self.trans_level.clone(),
        }
    }
}

/// The route and the flight of a plan.
#[derive(Debug)]
pub struct FlightOverview {
    pub icao_airline: String,
    pub flight_number: String,
    pub cost_index: String,
    pub route_distance: String,
    pub air_distance: String,
    pub step_climb_string: String,
    pub initial_altitude: String,
    pub route_ifps: String,
    pub route_navigraph: String,
    pub sid_ident: String,
    pub sid_trans: String,
    pub star_ident: String,
    pub star_trans: String,
}

/// An overview as the contracts speak of it.
pub struct FlightOverviewView {
    pub icao_airline: Seq<char>,
    pub flight_number: Seq<char>,
    pub cost_index: Seq<char>,
    pub route_distance: Seq<char>,
    pub air_distance: Seq<char>,
    pub step_climb_string: Seq<char>,
    pub initial_altitude: Seq<char>,
    pub route_ifps: Seq<char>,
    pub route_navigraph: Seq<char>,
    pub sid_ident: Seq<char>,
    pub sid_trans: Seq<char>,
    pub star_ident: Seq<char>,
    pub star_trans: Seq<char>,
}

impl View for FlightOverview {
    type V = FlightOverviewView;

    open spec fn view(&self) -> FlightOverviewView {
        FlightOverviewView {
            icao_airline: self.icao_airline@,
            flight_number: self.flight_number@,
            cost_index: self.cost_index@,
            route_distance: self.route_distance@,
            air_distance: self.air_distance@,
            step_climb_string: self.step_climb_string@,
            initial_altitude: self.initial_altitude@,
            route_ifps: self.route_ifps@,
            route_navigraph: self.route_navigraph@,
            sid_ident: self.sid_ident@,
            sid_trans: self.sid_trans@,
            star_ident: self.star_ident@,
            star_trans: self.star_trans@,
        }
    }
}

impl Clone for FlightOverview {
    fn clone(&self) -> (out: FlightOverview)
        ensures
            out == *self,
    {
        FlightOverview {
            icao_airline: self.icao_airline.clone(),
            flight_number: self.flight_number.clone(),
            cost_index: self.cost_index.clone(),
            route_distance: self.route_distance.clone(),
            air_distance: self.air_distance.clone(),
            step_climb_string: self.step_climb_string.clone(),
            initial_altitude: self.initial_altitude.clone(),
            route_ifps: self.route_ifps.clone(),
            route_navigraph: self.route_navigraph.clone(),
            sid_ident: self.sid_ident.clone(),
            sid_trans: self.sid_trans.clone(),
            star_ident: self.star_ident.clone(),
            star_trans: self.star_trans.clone(),
        }
    }
}

/// The fuel figures of a plan.
#[derive(Debug)]
pub struct Fuel {
    pub taxi: String,
    pub enroute_burn: String,
    pub contingency: String,
    pub alternate_burn: String,
    pub reserve: String,
    pub etops: String,
    pub extra: String,
    pub extra_required: String,
    pub extra_optional: String,
    pub min_takeoff: String,
    pub plan_takeoff: String,
    pub plan_ramp: String,
    pub plan_landing: String,
    pub avg_fuel_flow: String,
    pub max_tanks: String,
}

/// Fuel figures as the contracts speak of them.
pub struct FuelView {
    pub taxi: Seq<char>,
    pub enroute_burn: Seq<char>,
    pub contingency: Seq<char>,
    pub alternate_burn: Seq<char>,
    pub reserve: Seq<char>,
    pub etops: Seq<char>,
    pub extra: Seq<char>,
    pub extra_required: Seq<char>,
    pub extra_optional: Seq<char>,
    pub min_takeoff: Seq<char>,
    pub plan_takeoff: Seq<char>,
    pub plan_ramp: Seq<char>,
    pub plan_landing: Seq<char>,
    pub avg_fuel_flow: Seq<char>,
    pub max_tanks: Seq<char>,
}

impl View for Fuel {
    type V = FuelView;

    open spec fn view(&self) -> FuelView {
        FuelView {
            taxi: self.taxi@,
            enroute_burn: self.enroute_burn@,
            contingency: self.contingency@,
            alternate_burn: self.alternate_burn@,
            reserve: self.reserve@,
            etops: self.etops@,
            extra: self.extra@,
            extra_required: self.extra_required@,
            extra_optional: self.extra_optional@,
            min_takeoff: self.min_takeoff@,
            plan_takeoff: self.plan_takeoff@,
            plan_ramp: self.plan_ramp@,
            plan_landing: self.plan_landing@,
            avg_fuel_flow: self.avg_fuel_flow@,
            max_tanks: self.max_tanks@,
        }
    }
}

impl Clone for Fuel {
    fn clone(&self) -> (out: Fuel)
        ensures
            out == *self,
    {
        Fuel {
            taxi: self.taxi.clone(),
            enroute_burn: self.enroute_burn.clone(),
            contingency: self.contingency.clone(),
            alternate_burn: self.alternate_burn.clone(),
            reserve: self.reserve.clone(),
            etops: self.etops.clone(),
            extra: self.extra.clone(),
            extra_required: self.extra_required.clone(),
            extra_optional: self.extra_optional.clone(),
            min_takeoff: self.min_takeoff.clone(),
            plan_takeoff: self.plan_takeoff.clone(),
            plan_ramp: self.plan_ramp.clone(),
            plan_landing: self.plan_landing.clone(),
            avg_fuel_flow: self.avg_fuel_flow.clone(),
            max_tanks: self.max_tanks.clone(),
        }
    }
}

/// One fetched plan.
#[derive(Debug)]
pub struct FlightPlan {
    pub origin: Airport,
    pub destination: Airport,
    pub flight_information: FlightOverview,
    pub fuel: Fuel,
}

/// A plan as the contracts speak of it.
pub struct FlightPlanView {
    pub origin: AirportView,
    pub destination: AirportView,
    pub flight_information: FlightOverviewView,
    pub fuel: FuelView,
}

impl View for FlightPlan {
    type V = FlightPlanView;

    open spec fn view(&self) -> FlightPlanView {
        FlightPlanView {
            origin: self.origin@,
            destination: self.destination@,
            flight_information: self.flight_information@,
            fuel: self.fuel@,
        }
    }
}

impl Clone for FlightPlan {
    fn clone(&self) -> (out: FlightPlan)
        ensures
            out == *self,
    {
        FlightPlan {
            origin: self.origin.clone(),
            destination: self.destination.clone(),
            flight_information: self.flight_information.clone(),
            fuel: self.fuel.clone(),
        }
    }
}

/// The airport that an object of the service stands for: a member that is
/// missing or no string leaves its field empty.
pub open spec fn airport_of(members: Seq<Member>) -> AirportView {
    AirportView {
        icao_code: string_field(members, "icao_code"@),
        iata_code: string_field(members, "iata_code"@),
        name: string_field(members, "name"@),
        plan_rwy: string_field(members, "plan_rwy"@),
        trans_alt: string_field(members, "trans_alt"@),
        trans_level: string_field(members, "trans_level"@),
    }
}

/// The overview that an object of the service stands for: a member that is
/// missing or no string gives the placeholder.
pub open spec fn overview_of(members: Seq<Member>) -> FlightOverviewView {
    FlightOverviewView {
        icao_airline: flight_plan_field(members, "icao_airline"@),
        flight_number: flight_plan_field(members, "flight_number"@),
        cost_index: flight_plan_field(members, "costindex"@),
        route_distance: flight_plan_field(members, "route_distance"@),
        air_distance: flight_plan_field(members, "air_distance"@),
        step_climb_string: flight_plan_field(members, "stepclimb_string"@),
        initial_altitude: flight_plan_field(members, "initial_altitude"@),
        route_ifps: flight_plan_field(members, "route_ifps"@),
        route_navigraph: flight_plan_field(members, "route_navigraph"@),
        sid_ident: flight_plan_field(members, "sid_ident"@),
        sid_trans: flight_plan_field(members, "sid_trans"@),
        star_ident: flight_plan_field(members, "star_ident"@),
        star_trans: flight_plan_field(members, "star_trans"@),
    }
}

/// The fuel figures that an object of the service stands for: a member that
/// is missing or no string gives the placeholder.
pub open spec fn fuel_of(members: Seq<Member>) -> FuelView {
    FuelView {
        taxi: flight_plan_field(members, "taxi"@),
        enroute_burn: flight_plan_field(members, "enroute_burn"@),
        contingency: flight_plan_field(members, "contingency"@),
        alternate_burn: flight_plan_field(members, "alternate_burn"@),
        reserve: flight_plan_field(members, "reserve"@),
        etops: flight_plan_field(members, "etops"@),
        extra: flight_plan_field(members, "extra"@),
        extra_required: flight_plan_field(members, "extra_required"@),
        extra_optional: flight_plan_field(members, "extra_optional"@),
        min_takeoff: flight_plan_field(members, "min_takeoff"@),
        plan_takeoff: flight_plan_field(members, "plan_takeoff"@),
        plan_ramp: flight_plan_field(members, "plan_ramp"@),
        plan_landing: flight_plan_field(members, "plan_landing"@),
        avg_fuel_flow: flight_plan_field(members, "avg_fuel_flow"@),
        max_tanks: flight_plan_field(members, "max_tanks"@),
    }
}

/// The plan that the members of a document stand for: each of the four parts
/// has to be there as an object.
pub open spec fn plan_of(members: Seq<Member>) -> Result<FlightPlanView, FetchError> {
    match (
        object_field(members, "origin"@),
        object_field(members, "destination"@),
        object_field(members, "general"@),
        object_field(members, "fuel"@),
    ) {
        (Some(origin), Some(destination), Some(general), Some(fuel)) => Ok(
            FlightPlanView {
                origin: airport_of(origin),
                destination: airport_of(destination),
                flight_information: overview_of(general),
                fuel: fuel_of(fuel),
            },
        ),
        _ => Err(FetchError::Decode),
    }
}

/// What a document of the flight-planning service gives.
pub open spec fn plan_document(document: Json) -> Result<FlightPlanView, FetchError> {
    match document {
        Json::Object(members) => plan_of(members@),
        _ => Err(FetchError::Decode),
    }
}

/// What a response body of the flight-planning service gives.
pub open spec fn plan_body(body: Seq<char>) -> Result<FlightPlanView, FetchError> {
    match json_document(body) {
        Some(document) => plan_document(document),
        None => Err(FetchError::Decode),
    }
}

/// What a request to the flight-planning service gives: `None` is a request
/// that brought no body back.
pub open spec fn plan_response(response: Option<Seq<char>>) -> Result<FlightPlanView, FetchError> {
    match response {
        Some(body) => plan_body(body),
        None => Err(FetchError::Network),
    }
}

/// The address that answers with the latest plan of `user_id`. The request
/// is keyed by the identifier as it is given, the empty one too: no other
/// user's plan is ever asked for.
pub open spec fn plan_url(user_id: Seq<char>) -> Seq<char> {
    PLAN_ENDPOINT@ + user_id + "&json=1"@
}

/// The request names the identifier that was given and no other: for the
/// empty identifier the address holds an empty `userid`.
pub proof fn lemma_plan_url_is_keyed_by_the_user(user_id: Seq<char>)
    ensures
        plan_url(user_id) == PLAN_ENDPOINT@ + user_id + "&json=1"@,
        plan_url(Seq::empty()) == PLAN_ENDPOINT@ + "&json=1"@,
{
    assert(PLAN_ENDPOINT@ + Seq::<char>::empty() =~= PLAN_ENDPOINT@);
}

/// The view of the outcome of a fetch.
pub open spec fn fetched(outcome: Result<FlightPlan, FetchError>) -> Result<
    FlightPlanView,
    FetchError,
> {
    match outcome {
        Ok(plan) => Ok(plan@),
        Err(error) => Err(error),
    }
}

/// The identifier that a stored document holds: the document has to be one
/// string.
pub open spec fn user_document(document: Json) -> Option<Seq<char>> {
    match document {
        Json::Text(user_id) => Some(user_id@),
        _ => None,
    }
}

/// The identifier that a stored text holds.
pub open spec fn user_text(contents: Seq<char>) -> Option<Seq<char>> {
    match json_document(contents) {
        Some(document) => user_document(document),
        None => None,
    }
}

/// The view of a user that may be missing.
pub open spec fn option_user(user: Option<User>) -> Option<Seq<char>> {
    match user {
        Some(user) => Some(user.0@),
        None => None,
    }
}

impl User {
    /// Reads the stored document.
    pub fn from_document(document: &Json) -> (out: Option<User>)
        ensures
            option_user(out) == user_document(*document),
    {
        match document {
            Json::Text(user_id) => Some(User(user_id.clone())),
            _ => None,
        }
    }

    /// Reads the stored text.
    pub fn decode(contents: &str) -> (out: Option<User>)
        ensures
            option_user(out) == user_text(contents@),
    {
        match Json::parse(contents) {
            Some(document) => User::from_document(&document),
            None => None,
        }
    }

    /// The text to store: the identifier as a JSON string.
    pub fn encode(&self) -> (out: Option<String>)
        ensures
            option_text(out) == json_string(self.0@),
    {
        pretty_string(self.0.as_str())
    }
}

impl Airport {
    /// Reads the object of one airport.
    pub fn from_object(members: &Vec<Member>) -> (out: Airport)
        ensures
            out@ == airport_of(members@),
    {
        Airport {
            icao_code: read_string_field(members, "icao_code"),
            iata_code: read_string_field(members, "iata_code"),
            name: read_string_field(members, "name"),
            plan_rwy: read_string_field(members, "plan_rwy"),
            trans_alt: read_string_field(members, "trans_alt"),
            trans_level: read_string_field(members, "trans_level"),
        }
    }
}

impl FlightOverview {
    /// Reads the object of the overview.
    pub fn from_object(members: &Vec<Member>) -> (out: FlightOverview)
        ensures
            out@ == overview_of(members@),
    {
        FlightOverview {
            icao_airline: read_flight_plan_field(members, "icao_airline"),
            flight_number: read_flight_plan_field(members, "flight_number"),
            cost_index: read_flight_plan_field(members, "costindex"),
            route_distance: read_flight_plan_field(members, "route_distance"),
            air_distance: read_flight_plan_field(members, "air_distance"),
            step_climb_string: read_flight_plan_field(members, "stepclimb_string"),
            initial_altitude: read_flight_plan_field(members, "initial_altitude"),
            route_ifps: read_flight_plan_field(members, "route_ifps"),
            route_navigraph: read_flight_plan_field(members, "route_navigraph"),
            sid_ident: read_flight_plan_field(members, "sid_ident"),
            sid_trans: read_flight_plan_field(members, "sid_trans"),
            star_ident: read_flight_plan_field(members, "star_ident"),
            star_trans: read_flight_plan_field(members, "star_trans"),
        }
    }
}

impl Fuel {
    /// Reads the object of the fuel figures.
    pub fn from_object(members: &Vec<Member>) -> (out: Fuel)
        ensures
            out@ == fuel_of(members@),
    {
        Fuel {
            taxi: read_flight_plan_field(members, "taxi"),
            enroute_burn: read_flight_plan_field(members, "enroute_burn"),
            contingency: read_flight_plan_field(members, "contingency"),
            alternate_burn: read_flight_plan_field(members, "alternate_burn"),
            reserve: read_flight_plan_field(members, "reserve"),
            etops: read_flight_plan_field(members, "etops"),
            extra: read_flight_plan_field(members, "extra"),
            extra_required: read_flight_plan_field(members, "extra_required"),
            extra_optional: read_flight_plan_field(members, "extra_optional"),
            min_takeoff: read_flight_plan_field(members, "min_takeoff"),
            plan_takeoff: read_flight_plan_field(members, "plan_takeoff"),
            plan_ramp: read_flight_plan_field(members, "plan_ramp"),
            plan_landing: read_flight_plan_field(members, "plan_landing"),
            avg_fuel_flow: read_flight_plan_field(members, "avg_fuel_flow"),
            max_tanks: read_flight_plan_field(members, "max_tanks"),
        }
    }
}

impl FlightPlan {
    /// The address to ask for the latest plan of `user_id`, whatever the
    /// identifier is.
    pub fn url(user_id: &str) -> (out: String)
        ensures
            out@ == plan_url(user_id@),
    {
        let mut url = String::from_str(PLAN_ENDPOINT);
        url.append(user_id);
        url.append("&json=1");
        url
    }

    /// Reads the members of a document of the flight-planning service.
    pub fn from_object(members: &Vec<Member>) -> (out: Result<FlightPlan, FetchError>)
        ensures
            fetched(out) == plan_of(members@),
    {
        let origin = match read_object_field(members, "origin") {
            Some(origin) => origin,
            None => {
                return Err(FetchError::Decode);
            },
        };
        let destination = match read_object_field(members, "destination") {
            Some(destination) => destination,
            None => {
                return Err(FetchError::Decode);
            },
        };
        let general = match read_object_field(members, "general") {
            Some(general) => general,
            None => {
                return Err(FetchError::Decode);
            },
        };
        let fuel = match read_object_field(members, "fuel") {
            Some(fuel) => fuel,
            None => {
                return Err(FetchError::Decode);
            },
        };
        Ok(
            FlightPlan {
                origin: Airport::from_object(origin),
                destination: Airport::from_object(destination),
                flight_information: FlightOverview::from_object(general),
                fuel: Fuel::from_object(fuel),
            },
        )
    }

    /// Reads a document of the flight-planning service: `Decode` where it is
    /// no object or lacks one of its four parts.
    pub fn from_document(document: &Json) -> (out: Result<FlightPlan, FetchError>)
        ensures
            fetched(out) == plan_document(*document),
    {
        match document {
            Json::Object(members) => FlightPlan::from_object(members),
            _ => Err(FetchError::Decode),
        }
    }

    /// Reads a response body of the flight-planning service.
    pub fn decode(body: &str) -> (out: Result<FlightPlan, FetchError>)
        ensures
            fetched(out) == plan_body(body@),
    {
        match Json::parse(body) {
            Some(document) => FlightPlan::from_document(&document),
            None => Err(FetchError::Decode),
        }
    }

    /// Judges the outcome of a request to the flight-planning service:
    /// `response` is the body that came back, `None` where the request failed
    /// on the way.
    pub fn fetch(response: Option<&str>) -> (out: Result<FlightPlan, FetchError>)
        ensures
            fetched(out) == plan_response(
                match response {
                    Some(body) => Some(body@),
                    None => None,
                },
            ),
    {
        match response {
            Some(body) => FlightPlan::decode(body),
            None => Err(FetchError::Network),
        }
    }
}

} // verus!
