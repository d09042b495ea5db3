use crate::decimal::{is_decimal, Decimal};
use crate::json::{lookup, member, Json, Member};
use vstd::prelude::*;

verus! {

/// The text that stands in for a flight-plan field whose wire value is not a
/// string.
pub const PLACEHOLDER: &'static str = "No Value";

/// The string-or-placeholder rule: a string is kept, any other shape gives
/// the placeholder.
pub open spec fn flight_plan_string(value: Json) -> Seq<char> {
    match value {
        Json::Text(text) => text@,
        _ => PLACEHOLDER@,
    }
}

/// The string-or-number rule: a string is kept, a number gives its decimal
/// text, any other shape gives nothing.
pub open spec fn optional_string(value: Json) -> Option<Seq<char>> {
    match value {
        Json::Text(text) => Some(text@),
        Json::Number(text) => Some(text@),
        _ => None,
    }
}

/// Decodes a field of the flight-planning service, which sends an empty
/// object where it has no string to send.
pub fn deserialize_flight_plan_string(value: &Json) -> (out: String)
    ensures
        out@ == flight_plan_string(*value),
{
    match value {
        Json::Text(text) => text.clone(),
        _ => String::from_str(PLACEHOLDER),
    }
}

/// Decodes a field of the weather service that comes as a string on some
/// days and as a number on others.
pub fn deserialize_optional_string(value: &Json) -> (out: Option<String>)
    ensures
        option_text(out) == optional_string(*value),
{
    match value {
        Json::Text(text) => Some(text.clone()),
        Json::Number(text) => Some(text.clone()),
        _ => None,
    }
}

/// The view of a text that may be missing.
pub open spec fn option_text(text: Option<String>) -> Option<Seq<char>> {
    match text {
        Some(text) => Some(text@),
        None => None,
    }
}

/// A flight-plan field of an object: the string-or-placeholder rule on the
/// member called `key`, the placeholder where there is no such member.
pub open spec fn flight_plan_field(members: Seq<Member>, key: Seq<char>) -> Seq<char> {
    match member(members, key) {
        Some(value) => flight_plan_string(value),
        None => PLACEHOLDER@,
    }
}

/// A string-or-number field of an object: nothing where there is no member
/// called `key`.
pub open spec fn optional_string_field(members: Seq<Member>, key: Seq<char>) -> Option<Seq<char>> {
    match member(members, key) {
        Some(value) => optional_string(value),
        None => None,
    }
}

/// The member called `key` where it is a string, nothing otherwise.
pub open spec fn text_field(members: Seq<Member>, key: Seq<char>) -> Option<Seq<char>> {
    match member(members, key) {
        Some(Json::Text(text)) => Some(text@),
        _ => None,
    }
}

/// The member called `key` where it is a string, the empty text otherwise.
pub open spec fn string_field(members: Seq<Member>, key: Seq<char>) -> Seq<char> {
    match text_field(members, key) {
        Some(text) => text,
        None => Seq::empty(),
    }
}

/// The decimal text of the member called `key` where it is a number, nothing
/// otherwise.
pub open spec fn number_field(members: Seq<Member>, key: Seq<char>) -> Option<Seq<char>> {
    match member(members, key) {
        Some(Json::Number(text)) => if is_decimal(text@) {
            Some(text@)
        } else {
            None
        },
        _ => None,
    }
}

/// The view of a number that may be missing.
pub open spec fn option_decimal(number: Option<Decimal>) -> Option<Seq<char>> {
    match number {
        Some(number) => Some(number@),
        None => None,
    }
}

/// The members of the member called `key` where it is an object.
pub open spec fn object_field(members: Seq<Member>, key: Seq<char>) -> Option<Seq<Member>> {
    match member(members, key) {
        Some(Json::Object(inner)) => Some(inner@),
        _ => None,
    }
}

/// A flight-plan field that comes as a string is handed on unchanged; one
/// that comes in any other shape, the empty object among them, or does not
/// come at all, reads as the placeholder.
pub proof fn lemma_flight_plan_field_rule(members: Seq<Member>, key: Seq<char>)
    ensures
        member(members, key) matches Some(Json::Text(text)) ==> flight_plan_field(members, key)
            == text@,
        member(members, key) matches Some(Json::Object(inner)) ==> flight_plan_field(members, key)
            == PLACEHOLDER@,
        !(member(members, key) matches Some(Json::Text(_))) ==> flight_plan_field(members, key)
            == PLACEHOLDER@,
{
}

/// A copy of a text that may be missing.
pub fn clone_text(text: &Option<String>) -> (out: Option<String>)
    ensures
        out == *text,
{
    match text {
        Some(text) => Some(text.clone()),
        None => None,
    }
}

/// Reads a flight-plan field of an object.
pub fn read_flight_plan_field(members: &Vec<Member>, key: &str) -> (out: String)
    ensures
        out@ == flight_plan_field(members@, key@),
{
    match lookup(members, key) {
        Some(value) => deserialize_flight_plan_string(value),
        None => String::from_str(PLACEHOLDER),
    }
}

/// Reads a string-or-number field of an object.
pub fn read_optional_string_field(members: &Vec<Member>, key: &str) -> (out: Option<String>)
    ensures
        option_text(out) == optional_string_field(members@, key@),
{
    match lookup(members, key) {
        Some(value) => deserialize_optional_string(value),
        None => None,
    }
}

/// Reads a field of an object that is a string or nothing.
pub fn read_text_field(members: &Vec<Member>, key: &str) -> (out: Option<String>)
    ensures
        option_text(out) == text_field(members@, key@),
{
    match lookup(members, key) {
        Some(Json::Text(text)) => Some(text.clone()),
        _ => None,
    }
}

/// Reads a field of an object that is a string, or empty.
pub fn read_string_field(members: &Vec<Member>, key: &str) -> (out: String)
    ensures
        out@ == string_field(members@, key@),
{
    match read_text_field(members, key) {
        Some(text) => text,
        None => String::new(),
    }
}

/// Reads a field of an object that is a number or nothing.
pub fn read_number_field(members: &Vec<Member>, key: &str) -> (out: Option<Decimal>)
    ensures
        option_decimal(out) == number_field(members@, key@),
{
    match lookup(members, key) {
        Some(Json::Number(text)) => Decimal::parse(text.as_str()),
        _ => None,
    }
}

/// Reads a field of an object that is itself an object.
pub fn read_object_field<'a>(members: &'a Vec<Member>, key: &str) -> (out: Option<&'a Vec<Member>>)
    ensures
        object_field(members@, key@) == match out {
            Some(inner) => Some(inner@),
            None => None,
        },
{
    match lookup(members, key) {
        Some(Json::Object(inner)) => Some(inner),
        _ => None,
    }
}

} // verus!
