use crate::airport::{no_airport, Airport, AirportView};
use crate::error::FetchError;
use crate::flightplan::{plan_response, plan_url, user_text, FlightPlan, FlightPlanView, User};
use crate::json::json_string;
use crate::utils::{clone_text, option_text};
use crate::weather::{valid, weather_response, weather_url, Weather, WeatherView};
use vstd::prelude::*;

verus! {

/// What the log says where a flight-plan fetch brought nothing.
pub const NO_FLIGHT_PLAN: &'static str = "No flight plan fetched";

/// What a save answers with where the identifier cannot be written as JSON.
pub const SERIALIZE_FAILED: &'static str = "failed to serialize user";

/// The events around the stored user identifier.
#[derive(Debug)]
pub enum UserEvent {
    LoadUserId,
    UserIdLoaded(Option<String>),
    SetUserId(String),
    SaveUserId,
    UserIdSaved(Result<(), String>),
}

/// An event around the user identifier as the contracts speak of it.
pub enum UserEventView {
    LoadUserId,
    UserIdLoaded(Option<Seq<char>>),
    SetUserId(Seq<char>),
    SaveUserId,
    UserIdSaved(Result<(), Seq<char>>),
}

impl View for UserEvent {
    type V = UserEventView;

    open spec fn view(&self) -> UserEventView {
        match self {
            UserEvent::LoadUserId => UserEventView::LoadUserId,
            UserEvent::UserIdLoaded(user_id) => UserEventView::UserIdLoaded(option_text(*user_id)),
            UserEvent::SetUserId(user_id) => UserEventView::SetUserId(user_id@),
            UserEvent::SaveUserId => UserEventView::SaveUserId,
            UserEvent::UserIdSaved(Ok(_)) => UserEventView::UserIdSaved(Ok(())),
            UserEvent::UserIdSaved(Err(reason)) => UserEventView::UserIdSaved(Err(reason@)),
        }
    }
}

impl Clone for UserEvent {
    fn clone(&self) -> (out: UserEvent)
        ensures
            out == *self,
    {
        match self {
            UserEvent::LoadUserId => UserEvent::LoadUserId,
            UserEvent::UserIdLoaded(user_id) => UserEvent::UserIdLoaded(clone_text(user_id)),
            UserEvent::SetUserId(user_id) => UserEvent::SetUserId(user_id.clone()),
            UserEvent::SaveUserId => UserEvent::SaveUserId,
            UserEvent::UserIdSaved(Ok(done)) => UserEvent::UserIdSaved(Ok(*done)),
            UserEvent::UserIdSaved(Err(reason)) => UserEvent::UserIdSaved(Err(reason.clone())),
        }
    }
}

/// What a text editor of the pad was asked to do, as far as the pad decides
/// on it: an edit would change the text, nothing else would.
#[derive(Clone, Copy, Debug, PartialEq, Eq, Structural)]
pub enum EditorAction {
    Edit,
    Other,
}

/// The text editors of the pad.
#[derive(Clone, Copy, Debug, PartialEq, Eq, Structural)]
pub enum Editor {
    DepartureNotes,
    ArrivalNotes,
    DepartureMetar,
    ArrivalMetar,
    Route,
}

/// Everything that can happen to the pad: what the user does, and what a
/// fetch brought.
#[derive(Debug)]
pub enum Event {
    UserEvent(UserEvent),
    FetchSimbrief,
    FlightPlanFetched(Box<Option<FlightPlan>>),
    RefreshWeather,
    EditDepartureIcao(String),
    EditDepartureWeather(Option<Weather>),
    EditArrivalIcao(String),
    EditArrivalWeather(Option<Weather>),
    EditDepartureNotes(EditorAction),
    EditArrivalNotes(EditorAction),
    DepartureMetarAction(EditorAction),
    ArrivalMetarAction(EditorAction),
    RouteAction(EditorAction),
}

/// An event as the contracts speak of it.
pub enum EventView {
    UserEvent(UserEventView),
    FetchSimbrief,
    FlightPlanFetched(Option<FlightPlanView>),
    RefreshWeather,
    EditDepartureIcao(Seq<char>),
    EditDepartureWeather(Option<WeatherView>),
    EditArrivalIcao(Seq<char>),
    EditArrivalWeather(Option<WeatherView>),
    EditDepartureNotes(EditorAction),
    EditArrivalNotes(EditorAction),
    DepartureMetarAction(EditorAction),
    ArrivalMetarAction(EditorAction),
    RouteAction(EditorAction),
}

/// The view of an observation that may be missing.
pub open spec fn option_weather(weather: Option<Weather>) -> Option<WeatherView> {
    match weather {
        Some(weather) => Some(weather@),
        None => None,
    }
}

/// The view of a plan that may be missing.
pub open spec fn option_plan(plan: Option<FlightPlan>) -> Option<FlightPlanView> {
    match plan {
        Some(plan) => Some(plan@),
        None => None,
    }
}

impl View for Event {
    type V = EventView;

    open spec fn view(&self) -> EventView {
        match self {
            Event::UserEvent(event) => EventView::UserEvent(event@),
            Event::FetchSimbrief => EventView::FetchSimbrief,
            Event::FlightPlanFetched(plan) => EventView::FlightPlanFetched(option_plan(**plan)),
            Event::RefreshWeather => EventView::RefreshWeather,
            Event::EditDepartureIcao(icao) => EventView::EditDepartureIcao(icao@),
            Event::EditDepartureWeather(weather) => EventView::EditDepartureWeather(
                option_weather(*weather),
            ),
            Event::EditArrivalIcao(icao) => EventView::EditArrivalIcao(icao@),
            Event::EditArrivalWeather(weather) => EventView::EditArrivalWeather(
                option_weather(*weather),
            ),
            Event::EditDepartureNotes(action) => EventView::EditDepartureNotes(*action),
            Event::EditArrivalNotes(action) => EventView::EditArrivalNotes(*action),
            Event::DepartureMetarAction(action) => EventView::DepartureMetarAction(*action),
            Event::ArrivalMetarAction(action) => EventView::ArrivalMetarAction(*action),
            Event::RouteAction(action) => EventView::RouteAction(*action),
        }
    }
}

impl Clone for Event {
    fn clone(&self) -> (out: Event)
        ensures
            out == *self,
    {
        match self {
            Event::UserEvent(event) => Event::UserEvent(event.clone()),
            Event::FetchSimbrief => Event::FetchSimbrief,
            Event::FlightPlanFetched(plan) => Event::FlightPlanFetched(
                Box::new(
                    match &**plan {
                        Some(plan) => Some(plan.clone()),
                        None => None,
                    },
                ),
            ),
            Event::RefreshWeather => Event::RefreshWeather,
            Event::EditDepartureIcao(icao) => Event::EditDepartureIcao(icao.clone()),
            Event::EditDepartureWeather(weather) => Event::EditDepartureWeather(
                match weather {
                    Some(weather) => Some(weather.clone()),
                    None => None,
                },
            ),
            Event::EditArrivalIcao(icao) => Event::EditArrivalIcao(icao.clone()),
            Event::EditArrivalWeather(weather) => Event::EditArrivalWeather(
                match weather {
                    Some(weather) => Some(weather.clone()),
                    None => None,
                },
            ),
            Event::EditDepartureNotes(action) => Event::EditDepartureNotes(*action),
            Event::EditArrivalNotes(action) => Event::EditArrivalNotes(*action),
            Event::DepartureMetarAction(action) => Event::DepartureMetarAction(*action),
            Event::ArrivalMetarAction(action) => Event::ArrivalMetarAction(*action),
            Event::RouteAction(action) => Event::RouteAction(*action),
        }
    }
}

/// What the pad asks of its surroundings after an event. The surroundings
/// carry each command out and hand what came of it back as an event.
#[derive(Debug)]
pub enum Command {
    /// Read the stored identifier; `UserIdLoaded` answers.
    LoadUserId,
    /// Store this identifier; `UserIdSaved` answers.
    SaveUserId(String),
    /// Ask this address for the flight plan; `FlightPlanFetched` answers.
    FetchFlightPlan(String),
    /// Ask this address for the weather at the departure airport;
    /// `EditDepartureWeather` answers.
    FetchDepartureWeather(String),
    /// Ask this address for the weather at the arrival airport;
    /// `EditArrivalWeather` answers.
    FetchArrivalWeather(String),
    /// Deliver this event.
    Dispatch(Event),
    /// Let this editor do what the event asked of it.
    Perform(Editor),
    /// Show in this editor the text that the state now holds for it.
    Show(Editor),
    /// Write this line to the log.
    Log(String),
    /// Write this line to the error log.
    Report(String),
}

/// A command as the contracts speak of it.
pub enum CommandView {
    LoadUserId,
    SaveUserId(Seq<char>),
    FetchFlightPlan(Seq<char>),
    FetchDepartureWeather(Seq<char>),
    FetchArrivalWeather(Seq<char>),
    Dispatch(EventView),
    Perform(Editor),
    Show(Editor),
    Log(Seq<char>),
    Report(Seq<char>),
}

impl View for Command {
    type V = CommandView;

    open spec fn view(&self) -> CommandView {
        match self {
            Command::LoadUserId => CommandView::LoadUserId,
            Command::SaveUserId(user_id) => CommandView::SaveUserId(user_id@),
            Command::FetchFlightPlan(url) => CommandView::FetchFlightPlan(url@),
            Command::FetchDepartureWeather(url) => CommandView::FetchDepartureWeather(url@),
            Command::FetchArrivalWeather(url) => CommandView::FetchArrivalWeather(url@),
            Command::Dispatch(event) => CommandView::Dispatch(event@),
            Command::Perform(editor) => CommandView::Perform(*editor),
            Command::Show(editor) => CommandView::Show(*editor),
            Command::Log(line) => CommandView::Log(line@),
            Command::Report(line) => CommandView::Report(line@),
        }
    }
}

impl Clone for Command {
    fn clone(&self) -> (out: Command)
        ensures
            out == *self,
    {
        match self {
            Command::LoadUserId => Command::LoadUserId,
            Command::SaveUserId(user_id) => Command::SaveUserId(user_id.clone()),
            Command::FetchFlightPlan(url) => Command::FetchFlightPlan(url.clone()),
            Command::FetchDepartureWeather(url) => Command::FetchDepartureWeather(url.clone()),
            Command::FetchArrivalWeather(url) => Command::FetchArrivalWeather(url.clone()),
            Command::Dispatch(event) => Command::Dispatch(event.clone()),
            Command::Perform(editor) => Command::Perform(*editor),
            Command::Show(editor) => Command::Show(*editor),
            Command::Log(line) => Command::Log(line.clone()),
            Command::Report(line) => Command::Report(line.clone()),
        }
    }
}

/// The views of a list of commands, in order.
pub open spec fn command_views(commands: Seq<Command>) -> Seq<CommandView> {
    Seq::new(commands.len(), |i: int| commands[i]@)
}

/// The state of the pad. Only `update` changes it, one event at a time.
#[derive(Debug)]
pub struct App {
    pub user_id: String,
    pub departure_airport: Airport,
    pub arrival_airport: Airport,
    pub departure_metar: String,
    pub arrival_metar: String,
    pub flightplan: Option<FlightPlan>,
    pub route: String,
}

/// The state of the pad as the contracts speak of it.
pub struct AppView {
    pub user_id: Seq<char>,
    pub departure_airport: AirportView,
    pub arrival_airport: AirportView,
    pub departure_metar: Seq<char>,
    pub arrival_metar: Seq<char>,
    pub flightplan: Option<FlightPlanView>,
    pub route: Seq<char>,
}

impl View for App {
    type V = AppView;

    open spec fn view(&self) -> AppView {
        AppView {
            user_id: self.user_id@,
            departure_airport: self.departure_airport@,
            arrival_airport: self.arrival_airport@,
            departure_metar: self.departure_metar@,
            arrival_metar: self.arrival_metar@,
            flightplan: option_plan(self.flightplan),
            route: self.route@,
        }
    }
}

/// The pad as it starts: nothing entered, nothing fetched.
pub open spec fn initial_state() -> AppView {
    AppView {
        user_id: Seq::empty(),
        departure_airport: no_airport(),
        arrival_airport: no_airport(),
        departure_metar: Seq::empty(),
        arrival_metar: Seq::empty(),
        flightplan: None,
        route: Seq::empty(),
    }
}

/// What the pad asks for as it starts: the stored identifier.
pub open spec fn initial_commands() -> Seq<CommandView> {
    seq![CommandView::Dispatch(EventView::UserEvent(UserEventView::LoadUserId))]
}

/// A slot after its identifier was edited: nothing else of it changes.
pub open spec fn with_icao(airport: AirportView, icao: Seq<char>) -> AirportView {
    AirportView { icao, ..airport }
}

/// A slot after an observation landed in it.
pub open spec fn with_weather(airport: AirportView, weather: WeatherView) -> AirportView {
    AirportView { weather, ..airport }
}

/// The state after an event around the user identifier.
pub open spec fn user_state(state: AppView, event: UserEventView) -> AppView {
    match event {
        UserEventView::SetUserId(user_id) => AppView { user_id, ..state },
        _ => state,
    }
}

/// What the pad asks for after an event around the user identifier.
pub open spec fn user_commands(state: AppView, event: UserEventView) -> Seq<CommandView> {
    match event {
        UserEventView::LoadUserId => seq![CommandView::LoadUserId],
        UserEventView::UserIdLoaded(Some(user_id)) => seq![
            CommandView::Dispatch(EventView::UserEvent(UserEventView::SetUserId(user_id))),
        ],
        UserEventView::UserIdLoaded(None) => seq![],
        UserEventView::SetUserId(_) => seq![],
        UserEventView::SaveUserId => seq![CommandView::SaveUserId(state.user_id)],
        UserEventView::UserIdSaved(Ok(_)) => seq![],
        UserEventView::UserIdSaved(Err(reason)) => seq![CommandView::Report(reason)],
    }
}

/// The state after an event. Every event has one rule, and every rule gives a
/// state: a fetch that brought nothing leaves the state as it was.
pub open spec fn next_state(state: AppView, event: EventView) -> AppView {
    match event {
        EventView::UserEvent(event) => user_state(state, event),
        EventView::FlightPlanFetched(Some(plan)) => AppView {
            flightplan: Some(plan),
            route: plan.flight_information.route_navigraph,
            ..state
        },
        EventView::EditDepartureIcao(icao) => AppView {
            departure_airport: with_icao(state.departure_airport, icao),
            ..state
        },
        EventView::EditDepartureWeather(Some(weather)) => AppView {
            departure_airport: with_weather(state.departure_airport, weather),
            departure_metar: weather.metar,
            ..state
        },
        EventView::EditArrivalIcao(icao) => AppView {
            arrival_airport: with_icao(state.arrival_airport, icao),
            ..state
        },
        EventView::EditArrivalWeather(Some(weather)) => AppView {
            arrival_airport: with_weather(state.arrival_airport, weather),
            arrival_metar: weather.metar,
            ..state
        },
        _ => state,
    }
}

/// What an editor that only shows a text is asked to do after an action: an
/// edit is dropped, anything else is passed on.
pub open spec fn read_only(editor: Editor, action: EditorAction) -> Seq<CommandView> {
    if action == EditorAction::Edit {
        seq![]
    } else {
        seq![CommandView::Perform(editor)]
    }
}

/// What the pad asks for after an event, in the state in which the event
/// found it.
pub open spec fn commands(state: AppView, event: EventView) -> Seq<CommandView> {
    match event {
        EventView::UserEvent(event) => user_commands(state, event),
        EventView::FetchSimbrief => seq![CommandView::FetchFlightPlan(plan_url(state.user_id))],
        EventView::FlightPlanFetched(Some(plan)) => seq![
            CommandView::Show(Editor::Route),
            CommandView::Dispatch(EventView::EditDepartureIcao(plan.origin.icao_code)),
            CommandView::Dispatch(EventView::EditArrivalIcao(plan.destination.icao_code)),
        ],
        EventView::FlightPlanFetched(None) => seq![CommandView::Log(NO_FLIGHT_PLAN@)],
        EventView::RefreshWeather => seq![
            CommandView::FetchDepartureWeather(weather_url(state.departure_airport.icao, true)),
            CommandView::FetchArrivalWeather(weather_url(state.arrival_airport.icao, true)),
        ],
        EventView::EditDepartureIcao(_) => seq![],
        EventView::EditDepartureWeather(Some(_)) => seq![CommandView::Show(Editor::DepartureMetar)],
        EventView::EditDepartureWeather(None) => seq![],
        EventView::EditArrivalIcao(_) => seq![],
        EventView::EditArrivalWeather(Some(_)) => seq![CommandView::Show(Editor::ArrivalMetar)],
        EventView::EditArrivalWeather(None) => seq![],
        EventView::EditDepartureNotes(_) => seq![CommandView::Perform(Editor::DepartureNotes)],
        EventView::EditArrivalNotes(_) => seq![CommandView::Perform(Editor::ArrivalNotes)],
        EventView::DepartureMetarAction(action) => read_only(Editor::DepartureMetar, action),
        EventView::ArrivalMetarAction(action) => read_only(Editor::ArrivalMetar, action),
        EventView::RouteAction(action) => read_only(Editor::Route, action),
    }
}

/// What a fetch hands to the pad: the record, or nothing where it failed.
pub open spec fn delivered<T>(outcome: Result<T, FetchError>) -> Option<T> {
    match outcome {
        Ok(record) => Some(record),
        Err(_) => None,
    }
}

/// What a save hands to the file: the identifier as a JSON string.
pub open spec fn saved_text(user_id: Seq<char>) -> Result<Seq<char>, Seq<char>> {
    match json_string(user_id) {
        Some(text) => Ok(text),
        None => Err(SERIALIZE_FAILED@),
    }
}

/// Applying the same event twice in a row gives the state that applying it
/// once gives: every rule overwrites with what the event carries.
pub proof fn lemma_update_is_idempotent(state: AppView, event: EventView)
    ensures
        next_state(next_state(state, event), event) == next_state(state, event),
{
}

/// Applying the same successful weather fetch twice in a row gives the state
/// that applying it once gives.
pub proof fn lemma_weather_fetch_is_idempotent(state: AppView, weather: WeatherView)
    ensures
        next_state(
            next_state(state, EventView::EditDepartureWeather(Some(weather))),
            EventView::EditDepartureWeather(Some(weather)),
        ) == next_state(state, EventView::EditDepartureWeather(Some(weather))),
        next_state(
            next_state(state, EventView::EditArrivalWeather(Some(weather))),
            EventView::EditArrivalWeather(Some(weather)),
        ) == next_state(state, EventView::EditArrivalWeather(Some(weather))),
{
    lemma_update_is_idempotent(state, EventView::EditDepartureWeather(Some(weather)));
    lemma_update_is_idempotent(state, EventView::EditArrivalWeather(Some(weather)));
}

/// The readings of both slots are numbers.
pub open spec fn state_valid(state: AppView) -> bool {
    valid(state.departure_airport.weather) && valid(state.arrival_airport.weather)
}

/// The readings of the observation that the event carries, if it carries
/// one, are numbers.
pub open spec fn event_valid(event: EventView) -> bool {
    match event {
        EventView::EditDepartureWeather(Some(weather)) => valid(weather),
        EventView::EditArrivalWeather(Some(weather)) => valid(weather),
        _ => true,
    }
}

/// The pad starts with readings that are numbers, and no event takes that
/// away: whatever is read from the state after any run of events is valid.
pub proof fn lemma_update_keeps_the_state_valid(state: AppView, event: EventView)
    requires
        state_valid(state),
        event_valid(event),
    ensures
        state_valid(initial_state()),
        state_valid(next_state(state, event)),
{
}

/// A fetch of the plan asks one address, the one of the identifier that the
/// state holds, and changes nothing.
pub proof fn lemma_plan_is_asked_for_the_user_of_the_state(state: AppView)
    ensures
        commands(state, EventView::FetchSimbrief) == seq![
            CommandView::FetchFlightPlan(plan_url(state.user_id)),
        ],
        next_state(state, EventView::FetchSimbrief) == state,
{
}

/// A fetch that brought nothing changes nothing: the slot keeps the
/// observation it had, the pad the plan it had.
pub proof fn lemma_failed_fetch_changes_nothing(state: AppView)
    ensures
        next_state(state, EventView::EditDepartureWeather(None)) == state,
        next_state(state, EventView::EditArrivalWeather(None)) == state,
        next_state(state, EventView::FlightPlanFetched(None)) == state,
{
}

/// A weather response that is an empty array, a body that is no JSON and a
/// request that failed all deliver nothing to the pad.
pub proof fn lemma_fetch_error_delivers_nothing(error: FetchError)
    ensures
        delivered(Err::<WeatherView, FetchError>(error)) is None,
        delivered(Err::<FlightPlanView, FetchError>(error)) is None,
{
}

/// An edit of an identifier touches that identifier alone: the observation
/// of the slot, the other slot and the rest of the state stay.
pub proof fn lemma_identifier_edit_keeps_the_rest(state: AppView, icao: Seq<char>)
    ensures
        next_state(state, EventView::EditDepartureIcao(icao)) == (AppView {
            departure_airport: AirportView { icao, ..state.departure_airport },
            ..state
        }),
        next_state(state, EventView::EditArrivalIcao(icao)) == (AppView {
            arrival_airport: AirportView { icao, ..state.arrival_airport },
            ..state
        }),
{
}

/// A fetched plan is stored, its route is shown, and the two events that the
/// pad asks to be delivered set the two identifiers to the plan's origin and
/// destination.
pub proof fn lemma_flight_plan_sets_both_identifiers(state: AppView, plan: FlightPlanView)
    ensures
        ({
            let fetched = EventView::FlightPlanFetched(Some(plan));
            let asked = commands(state, fetched);
            let stored = next_state(state, fetched);
            &&& stored.flightplan == Some(plan)
            &&& stored.route == plan.flight_information.route_navigraph
            &&& asked.len() == 3
            &&& asked[1] matches CommandView::Dispatch(departure)
            &&& asked[2] matches CommandView::Dispatch(arrival)
            &&& next_state(next_state(stored, departure), arrival) == (AppView {
                departure_airport: with_icao(state.departure_airport, plan.origin.icao_code),
                arrival_airport: with_icao(state.arrival_airport, plan.destination.icao_code),
                ..stored
            })
        }),
{
}

/// The commands for an editor that only shows a text.
fn pass_on(editor: Editor, action: EditorAction) -> (out: Vec<Command>)
    ensures
        command_views(out@) == read_only(editor, action),
{
    let mut out: Vec<Command> = Vec::new();
    match action {
        EditorAction::Edit => {},
        EditorAction::Other => {
            out.push(Command::Perform(editor));
        },
    }
    assert(command_views(out@) =~= read_only(editor, action));
    out
}

impl App {
    /// The pad as it starts, and the request for the stored identifier.
    pub fn new() -> (out: (App, Vec<Command>))
        ensures
            out.0@ == initial_state(),
            command_views(out.1@) == initial_commands(),
    {
        let app = App {
            user_id: String::new(),
            departure_airport: Airport::default(),
            arrival_airport: Airport::default(),
            departure_metar: String::new(),
            arrival_metar: String::new(),
            flightplan: None,
            route: String::new(),
        };
        let mut commands: Vec<Command> = Vec::new();
        commands.push(Command::Dispatch(Event::UserEvent(UserEvent::LoadUserId)));
        assert(command_views(commands@) =~= initial_commands());
        (app, commands)
    }

    /// Applies one event to the state and says what to do next. No event is
    /// refused, and the state after it is the one `next_state` gives.
    pub fn update(&mut self, event: Event) -> (out: Vec<Command>)
        ensures
            final(self)@ == next_state(old(self)@, event@),
            command_views(out@) == commands(old(self)@, event@),
    {
        let mut out: Vec<Command> = Vec::new();
        match event {
            Event::UserEvent(event) => {
                out = self.perform_user_event(event);
            },
            Event::FetchSimbrief => {
                out.push(Command::FetchFlightPlan(FlightPlan::url(self.user_id.as_str())));
            },
            Event::FlightPlanFetched(option) => {
                match *option {
                    Some(flightplan) => {
                        let departure_icao = flightplan.origin.icao_code.clone();
                        let arrival_icao = flightplan.destination.icao_code.clone();
                        self.route = flightplan.flight_information.route_navigraph.clone();
                        self.flightplan = Some(flightplan);
                        out.push(Command::Show(Editor::Route));
                        out.push(Command::Dispatch(Event::EditDepartureIcao(departure_icao)));
                        out.push(Command::Dispatch(Event::EditArrivalIcao(arrival_icao)));
                    },
                    None => {
                        out.push(Command::Log(String::from_str(NO_FLIGHT_PLAN)));
                    },
                }
            },
            Event::RefreshWeather => {
                out.push(
                    Command::FetchDepartureWeather(
                        Weather::url(self.departure_airport.icao.as_str(), true),
                    ),
                );
                out.push(
                    Command::FetchArrivalWeather(
                        Weather::url(self.arrival_airport.icao.as_str(), true),
                    ),
                );
            },
            Event::EditDepartureIcao(icao) => {
                Self::set_icao(&mut self.departure_airport, icao);
            },
            Event::EditDepartureWeather(weather) => {
                if let Some(weather) = weather {
                    Self::set_current_weather(
                        &mut self.departure_airport,
                        &mut self.departure_metar,
                        weather,
                    );
                    out.push(Command::Show(Editor::DepartureMetar));
                }
            },
            Event::EditArrivalIcao(icao) => {
                Self::set_icao(&mut self.arrival_airport, icao);
            },
            Event::EditArrivalWeather(weather) => {
                if let Some(weather) = weather {
                    Self::set_current_weather(
                        &mut self.arrival_airport,
                        &mut self.arrival_metar,
                        weather,
                    );
                    out.push(Command::Show(Editor::ArrivalMetar));
                }
            },
            Event::EditDepartureNotes(_) => {
                out.push(Command::Perform(Editor::DepartureNotes));
            },
            Event::EditArrivalNotes(_) => {
                out.push(Command::Perform(Editor::ArrivalNotes));
            },
            Event::DepartureMetarAction(action) => {
                out = pass_on(Editor::DepartureMetar, action);
            },
            Event::ArrivalMetarAction(action) => {
                out = pass_on(Editor::ArrivalMetar, action);
            },
            Event::RouteAction(action) => {
                out = pass_on(Editor::Route, action);
            },
        }
        assert(command_views(out@) =~= commands(old(self)@, event@));
        out
    }

    /// Overwrites the identifier of a slot and nothing else of it.
    pub fn set_icao(airport: &mut Airport, icao: String)
        ensures
            final(airport)@ == with_icao(old(airport)@, icao@),
    {
        airport.icao = icao;
    }

    /// Puts an observation into a slot, and its raw text into the slot's
    /// display.
    pub fn set_current_weather(airport: &mut Airport, metar: &mut String, weather: Weather)
        ensures
            final(airport)@ == with_weather(old(airport)@, weather@),
            final(metar)@ == weather@.metar,
    {
        *metar = weather.metar.clone();
        airport.weather = weather;
    }

    /// Applies one event around the user identifier.
    pub fn perform_user_event(&mut self, event: UserEvent) -> (out: Vec<Command>)
        ensures
            final(self)@ == user_state(old(self)@, event@),
            command_views(out@) == user_commands(old(self)@, event@),
    {
        let mut out: Vec<Command> = Vec::new();
        match event {
            UserEvent::LoadUserId => {
                out.push(Command::LoadUserId);
            },
            UserEvent::UserIdLoaded(user_id) => match user_id {
                Some(user_id) => {
                    out.push(Command::Dispatch(Event::UserEvent(UserEvent::SetUserId(user_id))));
                },
                None => {},
            },
            UserEvent::SetUserId(user_id) => {
                self.user_id = user_id;
            },
            UserEvent::SaveUserId => {
                out.push(Command::SaveUserId(self.user_id.clone()));
            },
            UserEvent::UserIdSaved(result) => {
                match result {
                    Ok(_) => (),
                    Err(e) => {
                        out.push(Command::Report(e));
                    },
                }
            },
        }
        assert(command_views(out@) =~= user_commands(old(self)@, event@));
        out
    }

    /// What reading the stored identifier comes to: `contents` is the text of
    /// the file, `None` where it could not be read.
    pub fn load_user_id(contents: Option<&str>) -> (out: Option<String>)
        ensures
            option_text(out) == match contents {
                Some(contents) => user_text(contents@),
                None => None,
            },
    {
        match contents {
            Some(contents) => match User::decode(contents) {
                Some(User(user_id)) => Some(user_id),
                None => None,
            },
            None => None,
        }
    }

    /// The text to write to the file for `user_id`, or why there is none.
    pub fn save_user_id(user_id: String) -> (out: Result<String, String>)
        ensures
            saved_text(user_id@) == match out {
                Ok(text) => Ok(text@),
                Err(reason) => Err(reason@),
            },
    {
        let user = User(user_id);
        match user.encode() {
            Some(json) => Ok(json),
            None => Err(String::from_str(SERIALIZE_FAILED)),
        }
    }

    /// What a flight-plan fetch delivers to the pad: the plan, or nothing
    /// where the request or the decoding failed.
    pub fn refresh_simbrief_flightplan(response: Option<&str>) -> (out: Box<Option<FlightPlan>>)
        ensures
            option_plan(*out) == delivered(
                plan_response(
                    match response {
                        Some(body) => Some(body@),
                        None => None,
                    },
                ),
            ),
    {
        match FlightPlan::fetch(response) {
            Ok(plan) => Box::new(Some(plan)),
            Err(_) => Box::new(None),
        }
    }

    /// What a weather fetch delivers to the pad: the observation, or nothing
    /// where the request failed, the body could not be decoded or the service
    /// had no observation.
    pub fn refresh_airport_weather(response: Option<&str>) -> (out: Option<Weather>)
        ensures
            option_weather(out) == delivered(
                weather_response(
                    match response {
                        Some(body) => Some(body@),
                        None => None,
                    },
                ),
            ),
    {
        match Weather::fetch(response) {
            Ok(weather) => Some(weather),
            Err(_) => None,
        }
    }
}

} // verus!
