//! JSON values, as `serde_json` reads them, for the few places where the
//! library looks inside a JSON text it did not write itself.

use vstd::prelude::*;
use crate::text::{chars_of, same};

verus! {

#[verifier::external_type_specification]
#[verifier::external_body]
pub struct ExJsonValue(serde_json::Value);

/// A JSON value.
#[derive(Debug)]
pub enum Json {
    Null,
    Bool(bool),
    /// A number, written out as `serde_json` prints it
    Number(String),
    Text(String),
    Array(Vec<Json>),
    /// The members of an object, in the order the reader keeps them
    Object(Vec<(String, Json)>),
}

/// What `serde_json` reads a text as: `None` when the text is not one JSON
/// value.
pub uninterp spec fn json_reading(text: Seq<char>) -> Option<Json>;

impl Json {
    /// A `serde_json::Value` as a `Json`, variant for variant; a number
    /// becomes its printed form. Nothing is claimed of the result: the value
    /// handed in is opaque here.
    #[verifier::external_body]
    fn from_value(value: serde_json::Value) -> Json {
        match value {
            serde_json::Value::Null => Json::Null,
            serde_json::Value::Bool(b) => Json::Bool(b),
            serde_json::Value::Number(n) => Json::Number(n.to_string()),
            serde_json::Value::String(s) => Json::Text(s),
            serde_json::Value::Array(items) => Json::Array(items.into_iter().map(Json::from_value).collect()),
            serde_json::Value::Object(members) => {
                Json::Object(members.into_iter().map(|(k, v)| (k, Json::from_value(v))).collect())
            },
        }
    }
}

/// `serde_json::from_str::<serde_json::Value>`: the text read as one JSON
/// value, or `None` when `serde_json` refuses it. What it reads is named by
/// `json_reading`, a function of the text alone; the grammar of JSON is not
/// restated here.
#[verifier::external_body]
pub(crate) fn read_json(text: &str) -> (r: Option<Json>)
    ensures
        r == json_reading(text@),
{
    serde_json::from_str::<serde_json::Value>(text).ok().map(Json::from_value)
}

/// The value of the first member named `key`, if there is one.
pub open spec fn member(members: Seq<(String, Json)>, key: Seq<char>) -> Option<Json>
    decreases members.len(),
{
    if members.len() == 0 {
        None
    } else if members[0].0@ == key {
        Some(members[0].1)
    } else {
        member(members.drop_first(), key)
    }
}

/// Look a member of an object up by its name.
pub fn get_member<'a>(members: &'a Vec<(String, Json)>, key: &str) -> (r: Option<&'a Json>)
    ensures
        match r {
            Some(j) => member(members@, key@) == Some(*j),
            None => member(members@, key@) is None,
        },
{
    let k = chars_of(key);
    let mut i: usize = 0;
    assert(members@.skip(0) =~= members@);
    while i < members.len()
        invariant
            i <= members.len(),
            k@ == key@,
            member(members@, key@) == member(members@.skip(i as int), key@),
        decreases members.len() - i,
    {
        proof {
            let rest = members@.skip(i as int);
            assert(rest[0] == members@[i as int]);
            assert(rest.drop_first() =~= members@.skip(i + 1));
        }
        let name = chars_of(members[i].0.as_str());
        if same(&name, &k) {
            return Some(&members[i].1);
        }
        i += 1;
    }
    assert(members@.skip(i as int) =~= Seq::<(String, Json)>::empty());
    None
}

} // verus!
