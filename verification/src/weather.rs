use crate::error::FetchError;
use crate::json::{json_document, member, Json, Member};
use crate::decimal::{after_sign, digits_from, is_decimal, Decimal};
use crate::utils::{
    clone_text, number_field, option_decimal, option_text, optional_string_field,
    read_number_field, read_optional_string_field, read_string_field, read_text_field,
    string_field, text_field,
};
use vstd::prelude::*;

verus! {

/// Where the weather service answers.
pub const METAR_ENDPOINT: &'static str = "https://aviationweather.gov/api/data/metar?ids=";

/// What a numeric reading shows where the service sent none.
pub const ZERO: &'static str = "0";

/// One station's observation. The service may leave any field out, so the
/// numeric fields are read through accessors that answer zero for a missing
/// one. A number is held as the decimal text that the service sent.
#[derive(Debug)]
pub struct Weather {
    pub(crate) temperature: Option<Decimal>,
    pub(crate) dew_point: Option<Decimal>,
    pub(crate) wind_direction: Option<Decimal>,
    pub(crate) wind_speed: Option<Decimal>,
    pub(crate) wind_gust: Option<Decimal>,
    pub(crate) visibility: Option<String>,
    pub(crate) altimeter: Option<Decimal>,
    pub metar: String,
    pub taf: Option<String>,
}

/// An observation as the contracts speak of it: each text as its characters.
pub struct WeatherView {
    pub temperature: Option<Seq<char>>,
    pub dew_point: Option<Seq<char>>,
    pub wind_direction: Option<Seq<char>>,
    pub wind_speed: Option<Seq<char>>,
    pub wind_gust: Option<Seq<char>>,
    pub visibility: Option<Seq<char>>,
    pub altimeter: Option<Seq<char>>,
    pub metar: Seq<char>,
    pub taf: Option<Seq<char>>,
}

impl View for Weather {
    type V = WeatherView;

    open(crate) spec fn view(&self) -> WeatherView {
        WeatherView {
            temperature: option_decimal(self.temperature),
            dew_point: option_decimal(self.dew_point),
            wind_direction: option_decimal(self.wind_direction),
            wind_speed: option_decimal(self.wind_speed),
            wind_gust: option_decimal(self.wind_gust),
            visibility: option_text(self.visibility),
            altimeter: option_decimal(self.altimeter),
            metar: self.metar@,
            taf: option_text(self.taf),
        }
    }
}

/// The observation before any fetch: no reading, no text.
pub open spec fn no_weather() -> WeatherView {
    WeatherView {
        temperature: None,
        dew_point: None,
        wind_direction: None,
        wind_speed: None,
        wind_gust: None,
        visibility: None,
        altimeter: None,
        metar: Seq::empty(),
        taf: None,
    }
}

/// A numeric reading: the decimal text that was sent, zero where none was.
pub open spec fn reading(field: Option<Seq<char>>) -> Seq<char> {
    match field {
        Some(text) => text,
        None => ZERO@,
    }
}

/// A reading that is there is a number.
pub open spec fn is_reading(field: Option<Seq<char>>) -> bool {
    field matches Some(text) ==> is_decimal(text)
}

/// Every reading of the observation that is there is a number.
pub open spec fn valid(weather: WeatherView) -> bool {
    &&& is_reading(weather.temperature)
    &&& is_reading(weather.dew_point)
    &&& is_reading(weather.wind_direction)
    &&& is_reading(weather.wind_speed)
    &&& is_reading(weather.wind_gust)
    &&& is_reading(weather.altimeter)
}

/// Zero is a number.
pub proof fn lemma_zero_is_decimal()
    ensures
        is_decimal(ZERO@),
{
    reveal_strlit("0");
    reveal_with_fuel(digits_from, 2);
    assert(after_sign(ZERO@) == 0);
    assert(digits_from(ZERO@, 0) == 1);
}

/// The observation that an object of the weather service stands for.
pub open spec fn weather_of(members: Seq<Member>) -> WeatherView {
    WeatherView {
        temperature: number_field(members, "temp"@),
        dew_point: number_field(members, "dewp"@),
        wind_direction: number_field(members, "wdir"@),
        wind_speed: number_field(members, "wspd"@),
        wind_gust: number_field(members, "wgst"@),
        visibility: optional_string_field(members, "visib"@),
        altimeter: number_field(members, "altim"@),
        metar: string_field(members, "rawOb"@),
        taf: text_field(members, "rawTaf"@),
    }
}

/// Every item is an object.
pub open spec fn all_objects(items: Seq<Json>) -> bool {
    forall|i: int| 0 <= i < items.len() ==> #[trigger] items[i] is Object
}

/// What a document of the weather service gives: the service answers with an
/// array of observations, of which the first is the station's.
pub open spec fn weather_document(document: Json) -> Result<WeatherView, FetchError> {
    match document {
        Json::Array(items) => if items@.len() == 0 {
            Err(FetchError::Empty)
        } else if !all_objects(items@) {
            Err(FetchError::Decode)
        } else {
            Ok(weather_of(items@[0]->Object_0@))
        },
        _ => Err(FetchError::Decode),
    }
}

/// What a response body of the weather service gives.
pub open spec fn weather_body(body: Seq<char>) -> Result<WeatherView, FetchError> {
    match json_document(body) {
        Some(document) => weather_document(document),
        None => Err(FetchError::Decode),
    }
}

/// What a request to the weather service gives: `None` is a request that
/// brought no body back.
pub open spec fn weather_response(response: Option<Seq<char>>) -> Result<
    WeatherView,
    FetchError,
> {
    match response {
        Some(body) => weather_body(body),
        None => Err(FetchError::Network),
    }
}

/// The address that answers with the observation of `icao`.
pub open spec fn weather_url(icao: Seq<char>, should_fetch_taf: bool) -> Seq<char> {
    METAR_ENDPOINT@ + icao + "&format=json&taf="@ + if should_fetch_taf {
        "true"@
    } else {
        "false"@
    }
}

/// The view of the outcome of a fetch.
pub open spec fn fetched(outcome: Result<Weather, FetchError>) -> Result<WeatherView, FetchError> {
    match outcome {
        Ok(weather) => Ok(weather@),
        Err(error) => Err(error),
    }
}

/// A visibility that the service sends as a string is decoded to that string,
/// letter for letter.
pub proof fn lemma_string_visibility_is_kept(document: Json, visibility: String)
    requires
        document is Array,
        document->Array_0@.len() > 0,
        all_objects(document->Array_0@),
        member(document->Array_0@[0]->Object_0@, "visib"@) == Some(Json::Text(visibility)),
    ensures
        weather_document(document) is Ok,
        weather_document(document)->Ok_0.visibility == Some(visibility@),
{
}

/// A visibility that the service sends as a number is decoded to the decimal
/// text of that number.
pub proof fn lemma_numeric_visibility_is_its_text(document: Json, visibility: String)
    requires
        document is Array,
        document->Array_0@.len() > 0,
        all_objects(document->Array_0@),
        member(document->Array_0@[0]->Object_0@, "visib"@) == Some(Json::Number(visibility)),
    ensures
        weather_document(document) is Ok,
        weather_document(document)->Ok_0.visibility == Some(visibility@),
{
}

/// An empty array is no observation and no default record either: it is the
/// `Empty` error, whatever way the response came.
pub proof fn lemma_empty_array_is_empty(document: Json)
    requires
        document is Array,
        document->Array_0@.len() == 0,
    ensures
        weather_document(document) == Err::<WeatherView, FetchError>(FetchError::Empty),
{
}

/// A reading that the service left out, or sent in another shape than a
/// number, reads as zero.
pub proof fn lemma_missing_reading_is_zero(members: Seq<Member>, key: Seq<char>)
    requires
        !(member(members, key) matches Some(Json::Number(text)) && is_decimal(text@)),
    ensures
        reading(number_field(members, key)) == ZERO@,
{
}

/// Whatever an object of the service holds, every numeric reading of the
/// observation it stands for is a number: the decimal text that was sent,
/// or zero.
pub proof fn lemma_every_reading_is_a_number(members: Seq<Member>)
    ensures
        valid(weather_of(members)),
        is_decimal(reading(weather_of(members).temperature)),
        is_decimal(reading(weather_of(members).dew_point)),
        is_decimal(reading(weather_of(members).wind_direction)),
        is_decimal(reading(weather_of(members).wind_speed)),
        is_decimal(reading(weather_of(members).wind_gust)),
        is_decimal(reading(weather_of(members).altimeter)),
{
    lemma_zero_is_decimal();
}

/// Whether every item is an object.
fn only_objects(items: &Vec<Json>) -> (out: bool)
    ensures
        out == all_objects(items@),
{
    let mut i: usize = 0;
    while i < items.len()
        invariant
            i <= items.len(),
            forall|j: int| 0 <= j < i ==> #[trigger] items@[j] is Object,
        decreases items.len() - i,
    {
        match &items[i] {
            Json::Object(_) => {},
            _ => {
                return false;
            },
        }
        i += 1;
    }
    true
}

/// A copy of a number that may be missing.
fn clone_number(number: &Option<Decimal>) -> (out: Option<Decimal>)
    ensures
        out == *number,
{
    match number {
        Some(number) => Some(number.clone()),
        None => None,
    }
}

/// What a reading shows.
fn shown(field: &Option<Decimal>) -> (out: &str)
    ensures
        out@ == reading(option_decimal(*field)),
        is_decimal(out@),
{
    proof {
        lemma_zero_is_decimal();
    }
    match field {
        Some(number) => number.as_str(),
        None => ZERO,
    }
}

impl Clone for Weather {
    fn clone(&self) -> (out: Weather)
        ensures
            out == *self,
    {
        Weather {
            temperature: clone_number(&self.temperature),
            dew_point: clone_number(&self.dew_point),
            wind_direction: clone_number(&self.wind_direction),
            wind_speed: clone_number(&self.wind_speed),
            wind_gust: clone_number(&self.wind_gust),
            visibility: clone_text(&self.visibility),
            altimeter: clone_number(&self.altimeter),
            metar: self.metar.clone(),
            taf: clone_text(&self.taf),
        }
    }
}

impl Default for Weather {
    fn default() -> (out: Weather)
        ensures
            out@ == no_weather(),
    {
        Weather {
            temperature: None,
            dew_point: None,
            wind_direction: None,
            wind_speed: None,
            wind_gust: None,
            visibility: None,
            altimeter: None,
            metar: String::new(),
            taf: None,
        }
    }
}

impl Weather {
    pub fn temperature(&self) -> (out: &str)
        ensures
            out@ == reading(self@.temperature),
            is_decimal(out@),
    {
        shown(&self.temperature)
    }

    pub fn dew_point(&self) -> (out: &str)
        ensures
            out@ == reading(self@.dew_point),
            is_decimal(out@),
    {
        shown(&self.dew_point)
    }

    pub fn wind_direction(&self) -> (out: &str)
        ensures
            out@ == reading(self@.wind_direction),
            is_decimal(out@),
    {
        shown(&self.wind_direction)
    }

    pub fn wind_speed(&self) -> (out: &str)
        ensures
            out@ == reading(self@.wind_speed),
            is_decimal(out@),
    {
        shown(&self.wind_speed)
    }

    pub fn wind_gust(&self) -> (out: &str)
        ensures
            out@ == reading(self@.wind_gust),
            is_decimal(out@),
    {
        shown(&self.wind_gust)
    }

    /// The visibility as the service sent it, the empty text where it sent
    /// none.
    pub fn visibility(&self) -> (out: &str)
        ensures
            out@ == match self@.visibility {
                Some(text) => text,
                None => Seq::empty(),
            },
    {
        proof {
            reveal_strlit("");
            assert(""@ =~= Seq::<char>::empty());
        }
        match &self.visibility {
            Some(val) => val.as_str(),
            None => "",
        }
    }

    pub fn altimeter(&self) -> (out: &str)
        ensures
            out@ == reading(self@.altimeter),
            is_decimal(out@),
    {
        shown(&self.altimeter)
    }

    /// The address to ask for the observation of `icao`, with the forecast
    /// where `should_fetch_taf` is set.
    pub fn url(icao: &str, should_fetch_taf: bool) -> (out: String)
        ensures
            out@ == weather_url(icao@, should_fetch_taf),
    {
        let mut url = String::from_str(METAR_ENDPOINT);
        url.append(icao);
        url.append("&format=json&taf=");
        if should_fetch_taf {
            url.append("true");
        } else {
            url.append("false");
        }
        url
    }

    /// Reads one object of the weather service. No member is required and
    /// none can fail the reading: one that is missing or of another shape
    /// leaves its field without a value.
    pub fn from_object(members: &Vec<Member>) -> (out: Weather)
        ensures
            out@ == weather_of(members@),
    {
        Weather {
            temperature: read_number_field(members, "temp"),
            dew_point: read_number_field(members, "dewp"),
            wind_direction: read_number_field(members, "wdir"),
            wind_speed: read_number_field(members, "wspd"),
            wind_gust: read_number_field(members, "wgst"),
            visibility: read_optional_string_field(members, "visib"),
            altimeter: read_number_field(members, "altim"),
            metar: read_string_field(members, "rawOb"),
            taf: read_text_field(members, "rawTaf"),
        }
    }

    /// Reads a document of the weather service: the first observation of the
    /// array, `Empty` where the array holds none, `Decode` where the document
    /// is no array of objects.
    pub fn from_document(document: &Json) -> (out: Result<Weather, FetchError>)
        ensures
            fetched(out) == weather_document(*document),
    {
        match document {
            Json::Array(items) => {
                if items.len() == 0 {
                    Err(FetchError::Empty)
                } else if !only_objects(items) {
                    Err(FetchError::Decode)
                } else {
                    match &items[0] {
                        Json::Object(members) => Ok(Weather::from_object(members)),
                        _ => Err(FetchError::Decode),
                    }
                }
            },
            _ => Err(FetchError::Decode),
        }
    }

    /// Reads a response body of the weather service.
    pub fn decode(body: &str) -> (out: Result<Weather, FetchError>)
        ensures
            fetched(out) == weather_body(body@),
    {
        match Json::parse(body) {
            Some(document) => Weather::from_document(&document),
            None => Err(FetchError::Decode),
        }
    }

    /// Judges the outcome of a request to the weather service: `response` is
    /// the body that came back, `None` where the request failed on the way.
    pub fn fetch(response: Option<&str>) -> (out: Result<Weather, FetchError>)
        ensures
            fetched(out) == weather_response(
                match response {
                    Some(body) => Some(body@),
                    None => None,
                },
            ),
    {
        match response {
            Some(body) => Weather::decode(body),
            None => Err(FetchError::Network),
        }
    }
}

} // verus!
