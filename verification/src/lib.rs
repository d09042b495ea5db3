//! Normalises the responses of an aviation weather service and of a
//! flight-planning service into records that are always valid, and applies
//! them to the state of a flight pad one event at a time.

pub mod airport;
pub mod app;
pub mod decimal;
pub mod error;
pub mod json;
pub mod utils;
pub mod weather;
pub mod flightplan;
