use vstd::prelude::*;

verus! {

/// One member of a JSON object.
#[derive(Debug)]
pub struct Member {
    pub name: String,
    pub value: Json,
}

/// A JSON value as the decoders read it. A number is held as its decimal
/// text, the members of an object in the order in which they are stored.
#[derive(Debug)]
pub enum Json {
    Null,
    Bool(bool),
    Number(String),
    Text(String),
    Array(Vec<Json>),
    Object(Vec<Member>),
}

/// `serde_json::Value`, handed from the parser to `carry` as it is.
#[verifier::external_type_specification]
#[verifier::external_body]
pub struct ExValue(serde_json::Value);

/// `serde_json::Error`, of which nothing is read but that there is one.
#[verifier::external_type_specification]
#[verifier::external_body]
pub struct ExError(serde_json::Error);

/// What a `serde_json::Value` holds, written as a `Json`.
pub uninterp spec fn json_of(value: serde_json::Value) -> Json;

/// The value that `serde_json::from_str` reads from a text, `None` where it
/// reports an error.
pub uninterp spec fn json_document(text: Seq<char>) -> Option<Json>;

/// `serde_json::from_str`, asked for a `serde_json::Value`: it succeeds on
/// exactly the texts that `json_document` knows, and the value it hands back
/// stands for the document.
#[verifier::external_body]
fn read_value(text: &str) -> (out: Result<serde_json::Value, serde_json::Error>)
    ensures
        out is Ok <==> json_document(text@) is Some,
        out is Ok ==> json_document(text@) == Some(json_of(out->Ok_0)),
{
    serde_json::from_str::<serde_json::Value>(text)
}

/// Carries a `serde_json::Value` over into `Json`, variant by variant; a
/// number becomes the text that `serde_json::Number` displays as.
#[verifier::external_body]
fn carry(value: serde_json::Value) -> (out: Json)
    ensures
        out == json_of(value),
{
    match value {
        serde_json::Value::Null => Json::Null,
        serde_json::Value::Bool(b) => Json::Bool(b),
        serde_json::Value::Number(n) => Json::Number(n.to_string()),
        serde_json::Value::String(s) => Json::Text(s),
        serde_json::Value::Array(items) => Json::Array(items.into_iter().map(carry).collect()),
        serde_json::Value::Object(map) => Json::Object(
            map.into_iter().map(|(name, value)| Member { name, value: carry(value) }).collect(),
        ),
    }
}

/// The text that `serde_json::to_string_pretty` writes for a string, `None`
/// where it reports an error.
pub uninterp spec fn json_string(text: Seq<char>) -> Option<Seq<char>>;

/// `serde_json::to_string_pretty` on a string: it succeeds exactly where
/// `json_string` knows a text, and hands that text back.
#[verifier::external_body]
fn write_string(text: &str) -> (out: Result<String, serde_json::Error>)
    ensures
        out is Ok <==> json_string(text@) is Some,
        out is Ok ==> json_string(text@) == Some(out->Ok_0@),
{
    serde_json::to_string_pretty(text)
}

/// Writes `text` as a JSON string.
pub fn pretty_string(text: &str) -> (out: Option<String>)
    ensures
        json_string(text@) == match out {
            Some(written) => Some(written@),
            None => None,
        },
{
    match write_string(text) {
        Ok(written) => Some(written),
        Err(_) => None,
    }
}

/// The value of the first of `members` that is called `key`.
pub open spec fn member(members: Seq<Member>, key: Seq<char>) -> Option<Json>
    decreases members.len(),
{
    if members.len() == 0 {
        None
    } else if members[0].name@ == key {
        Some(members[0].value)
    } else {
        member(members.drop_first(), key)
    }
}

/// No member before `upto` is called `key`.
pub open spec fn absent_before(members: Seq<Member>, key: Seq<char>, upto: int) -> bool {
    forall|i: int| 0 <= i < upto ==> (#[trigger] members[i]).name@ != key
}

/// `member` finds the member at the first index whose name is `key`.
pub proof fn lemma_member_at(members: Seq<Member>, key: Seq<char>, at: int)
    requires
        0 <= at < members.len(),
        members[at].name@ == key,
        absent_before(members, key, at),
    ensures
        member(members, key) == Some(members[at].value),
    decreases members.len(),
{
    if at > 0 {
        let rest = members.drop_first();
        assert(members[0].name@ != key);
        assert forall|i: int| 0 <= i < at - 1 implies (#[trigger] rest[i]).name@ != key by {
            assert(rest[i] == members[i + 1]);
        }
        lemma_member_at(rest, key, at - 1);
    }
}

/// `member` finds nothing where no name is `key`.
pub proof fn lemma_member_absent(members: Seq<Member>, key: Seq<char>)
    requires
        absent_before(members, key, members.len() as int),
    ensures
        member(members, key) is None,
    decreases members.len(),
{
    if members.len() > 0 {
        let rest = members.drop_first();
        assert(members[0].name@ != key);
        assert forall|i: int| 0 <= i < rest.len() implies (#[trigger] rest[i]).name@ != key by {
            assert(rest[i] == members[i + 1]);
        }
        lemma_member_absent(rest, key);
    }
}

/// Looks a member up by its name.
pub fn lookup<'a>(members: &'a Vec<Member>, key: &str) -> (out: Option<&'a Json>)
    ensures
        member(members@, key@) == match out {
            Some(value) => Some(*value),
            None => None,
        },
{
    let wanted = String::from_str(key);
    let mut i: usize = 0;
    while i < members.len()
        invariant
            i <= members.len(),
            wanted@ == key@,
            absent_before(members@, key@, i as int),
        decreases members.len() - i,
    {
        if members[i].name == wanted {
            proof {
                lemma_member_at(members@, key@, i as int);
            }
            return Some(&members[i].value);
        }
        i += 1;
    }
    proof {
        lemma_member_absent(members@, key@);
    }
    None
}

impl Json {
    /// Reads a JSON text.
    pub fn parse(text: &str) -> (out: Option<Json>)
        ensures
            out == json_document(text@),
    {
        match read_value(text) {
            Ok(value) => Some(carry(value)),
            Err(_) => None,
        }
    }
}

} // verus!
