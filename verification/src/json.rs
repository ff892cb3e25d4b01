//! The JSON bodies that requests carry: objects whose members are
//! booleans, integers, strings, lists of strings, or a JSON document given
//! by its (already checked) text.
use vstd::prelude::*;

use crate::text::string_views;

verus! {

/// A member value of a request body.
#[derive(Debug, Clone, PartialEq, Eq)]
pub enum JsonValue {
    Bool(bool),
    Int(i64),
    Text(String),
    TextList(Vec<String>),
    /// A JSON document given by its text, known to be well-formed.
    Document(String),
}

/// The mathematical model of a member value.
pub enum JsonModel {
    Bool(bool),
    Int(int),
    Text(Seq<char>),
    TextList(Seq<Seq<char>>),
    Document(Seq<char>),
}

impl View for JsonValue {
    type V = JsonModel;

    open spec fn view(&self) -> JsonModel {
        match self {
            JsonValue::Bool(b) => JsonModel::Bool(*b),
            JsonValue::Int(n) => JsonModel::Int(*n as int),
            JsonValue::Text(s) => JsonModel::Text(s@),
            JsonValue::TextList(v) => JsonModel::TextList(string_views(v@)),
            JsonValue::Document(s) => JsonModel::Document(s@),
        }
    }
}

/// The model of a request body: a JSON object, from member names to values.
pub type BodyModel = Map<Seq<char>, JsonModel>;

/// The object that a sequence of member assignments builds, a later
/// assignment to a name replacing an earlier one.
pub open spec fn assignments_map(entries: Seq<(String, JsonValue)>) -> BodyModel
    decreases entries.len(),
{
    if entries.len() == 0 {
        Map::empty()
    } else {
        assignments_map(entries.drop_last()).insert(entries.last().0@, entries.last().1@)
    }
}

/// A JSON object, held as the member assignments that built it, in order.
#[derive(Debug, Clone, PartialEq, Eq)]
pub struct RequestBody {
    pub entries: Vec<(String, JsonValue)>,
}

impl View for RequestBody {
    type V = BodyModel;

    open spec fn view(&self) -> BodyModel {
        assignments_map(self.entries@)
    }
}

/// `Some` of the characters of `o`, or `None`.
pub open spec fn opt_chars(o: Option<&str>) -> Option<Seq<char>> {
    match o {
        Some(s) => Some(s@),
        None => None,
    }
}

/// `m` with member `key` set to the text `v` when `v` is given.
pub open spec fn with_opt_text(m: BodyModel, key: Seq<char>, v: Option<Seq<char>>) -> BodyModel {
    match v {
        Some(t) => m.insert(key, JsonModel::Text(t)),
        None => m,
    }
}

/// `m` with member `key` set to the integer `v` when `v` is given.
pub open spec fn with_opt_int(m: BodyModel, key: Seq<char>, v: Option<i64>) -> BodyModel {
    match v {
        Some(n) => m.insert(key, JsonModel::Int(n as int)),
        None => m,
    }
}

/// `m` with member `key` set to the list `v` when `v` is not empty.
pub open spec fn with_nonempty_list(m: BodyModel, key: Seq<char>, v: Seq<Seq<char>>) -> BodyModel {
    if v.len() > 0 {
        m.insert(key, JsonModel::TextList(v))
    } else {
        m
    }
}

/// Copies of the strings in `v`.
pub fn clone_strings(v: &[String]) -> (r: Vec<String>)
    ensures
        r@ == v@,
{
    let mut r: Vec<String> = Vec::new();
    let mut i: usize = 0;
    while i < v.len()
        invariant
            i <= v.len(),
            r@ == v@.take(i as int),
        decreases v.len() - i,
    {
        r.push(v[i].clone());
        assert(v@.take(i + 1) == v@.take(i as int).push(v@[i as int]));
        i = i + 1;
    }
    assert(v@.take(v.len() as int) == v@);
    r
}

impl RequestBody {
    /// The empty object `{}`.
    pub fn new() -> (r: Self)
        ensures
            r@ == Map::<Seq<char>, JsonModel>::empty(),
    {
        RequestBody { entries: Vec::new() }
    }

    /// Sets member `key` to `value` (as `body[key] = value` does).
    pub fn insert(&mut self, key: &str, value: JsonValue)
        ensures
            final(self)@ == old(self)@.insert(key@, value@),
    {
        let k = String::from_str(key);
        self.entries.push((k, value));
        assert(self.entries@.drop_last() == old(self).entries@);
    }

    /// Sets member `key` to the string `value`.
    pub fn set_text(&mut self, key: &str, value: &str)
        ensures
            final(self)@ == old(self)@.insert(key@, JsonModel::Text(value@)),
    {
        self.insert(key, JsonValue::Text(String::from_str(value)));
    }

    /// Sets member `key` to `value`.
    pub fn set_bool(&mut self, key: &str, value: bool)
        ensures
            final(self)@ == old(self)@.insert(key@, JsonModel::Bool(value)),
    {
        self.insert(key, JsonValue::Bool(value));
    }

    /// Sets member `key` to the list of strings `values`.
    pub fn set_text_list(&mut self, key: &str, values: &[String])
        ensures
            final(self)@ == old(self)@.insert(key@, JsonModel::TextList(string_views(values@))),
    {
        let copy = clone_strings(values);
        self.insert(key, JsonValue::TextList(copy));
    }

    /// Sets member `key` to the string `value` when one is given.
    pub fn set_opt_text(&mut self, key: &str, value: Option<&str>)
        ensures
            final(self)@ == with_opt_text(old(self)@, key@, opt_chars(value)),
    {
        if let Some(v) = value {
            self.set_text(key, v);
        }
    }

    /// Sets member `key` to the integer `value` when one is given.
    pub fn set_opt_int(&mut self, key: &str, value: Option<i64>)
        ensures
            final(self)@ == with_opt_int(old(self)@, key@, value),
    {
        if let Some(n) = value {
            self.insert(key, JsonValue::Int(n));
        }
    }

    /// Sets member `key` to the list `values` unless it is empty.
    pub fn set_nonempty_list(&mut self, key: &str, values: &[String])
        ensures
            final(self)@ == with_nonempty_list(old(self)@, key@, string_views(values@)),
    {
        if values.len() > 0 {
            self.set_text_list(key, values);
        }
    }
}

/// What parsing a text as JSON gives: `Ok(true)` for an array, `Ok(false)`
/// for any other JSON value, `Err(message)` when the text is not JSON.
pub uninterp spec fn json_array_check(text: Seq<char>) -> Result<bool, Seq<char>>;

/// Parses `text` as JSON and tells whether it is an array.
///
/// Trusted: calls `serde_json::from_str::<serde_json::Value>`. The contract
/// names the outcome (`json_array_check` of the text): on success whether
/// the value is an array, on failure the parser's error message.
#[verifier::external_body]
pub(crate) fn check_json_array(text: &str) -> (r: Result<bool, String>)
    ensures
        match r {
            Ok(b) => json_array_check(text@) == Ok::<bool, Seq<char>>(b),
            Err(m) => json_array_check(text@) == Err::<bool, Seq<char>>(m@),
        },
{
    match serde_json::from_str::<serde_json::Value>(text) {
        Ok(serde_json::Value::Array(_)) => Ok(true),
        Ok(_) => Ok(false),
        Err(e) => Err(e.to_string()),
    }
}

/// `b` holds member `key` exactly when `v` is given, and then with the
/// text `v`.
pub open spec fn carries_opt_text(b: BodyModel, key: Seq<char>, v: Option<&str>) -> bool {
    &&& b.dom().contains(key) == v is Some
    &&& v matches Some(t) ==> b[key] == JsonModel::Text(t@)
}

/// No two of `keys` are equal.
pub open spec fn keys_distinct(keys: Seq<Seq<char>>) -> bool {
    forall|x: int, y: int| 0 <= x < keys.len() && 0 <= y < keys.len() && x != y ==> keys[x] != keys[y]
}

} // verus!
