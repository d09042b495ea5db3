use crate::weather::{no_weather, Weather, WeatherView};
use vstd::prelude::*;

verus! {

/// One of the two slots of the pad: an airport identifier and the latest
/// observation that was fetched for it.
#[derive(Debug)]
pub struct Airport {
    pub icao: String,
    pub transition_level: String,
    pub runway: String,
    pub weather: Weather,
}

/// A slot as the contracts speak of it.
pub struct AirportView {
    pub icao: Seq<char>,
    pub transition_level: Seq<char>,
    pub runway: Seq<char>,
    pub weather: WeatherView,
}

impl View for Airport {
    type V = AirportView;

    open spec fn view(&self) -> AirportView {
        AirportView {
            icao: self.icao@,
            transition_level: self.transition_level@,
            runway: self.runway@,
            weather: self.weather@,
        }
    }
}

/// The slot before anything was entered or fetched.
pub open spec fn no_airport() -> AirportView {
    AirportView {
        icao: Seq::empty(),
        transition_level: Seq::empty(),
        runway: Seq::empty(),
        weather: no_weather(),
    }
}

impl Default for Airport {
    fn default() -> (out: Airport)
        ensures
            out@ == no_airport(),
    {
        Airport {
            icao: String::new(),
            transition_level: String::new(),
            runway: String::new(),
            weather: Weather::default(),
        }
    }
}

impl Clone for Airport {
    fn clone(&self) -> (out: Airport)
        ensures
            out == *self,
    {
        Airport {
            icao: self.icao.clone(),
            transition_level: self.transition_level.clone(),
            runway: self.runway.clone(),
            weather: self.weather.clone(),
        }
    }
}

} // verus!
