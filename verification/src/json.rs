//! A JSON value as the harness holds it, and the reading of one from text.

use vstd::prelude::*;
use vstd::string::*;

verus! {

/// A JSON value. Numbers keep their decimal text; an object keeps its members
/// in the order in which they were handed over, and may hold a name twice.
///
/// Two values are equal when they are built alike. For objects that is finer
/// than equality of the documents they stand for: the same members in
/// another order make another value, and so does a repeated name. `parse`
/// hands the members over as the parser holds them; an object written by
/// hand equals a parsed one only if its members stand in that order. The
/// library never compares whole objects: it looks members up by name, with
/// `get`, and compares what it finds.
#[derive(Debug, PartialEq, Eq)]
pub enum Json {
    Null,
    Bool(bool),
    Number(String),
    Text(String),
    Array(Vec<Json>),
    Object(Vec<(String, Json)>),
}

/// The index of the first of `entries` from `from` on whose name is `key`,
/// or the number of entries where there is none.
pub open spec fn first_member(entries: Seq<(String, Json)>, key: Seq<char>, from: int) -> int
    decreases entries.len() - from,
{
    if from < 0 || from >= entries.len() {
        entries.len() as int
    } else if entries[from].0@ == key {
        from
    } else {
        first_member(entries, key, from + 1)
    }
}

/// The JSON document that a text holds, as `serde_json` reads it; `None` where
/// the text is no JSON document.
pub uninterp spec fn parsed_json(text: Seq<char>) -> Option<Json>;

impl Json {
    /// Whether this value is the JSON `null`.
    pub open spec fn null(self) -> bool {
        self is Null
    }

    /// The member of an object under `key`: the first one of that name.
    /// A value that is no object has no members.
    pub open spec fn member(self, key: Seq<char>) -> Option<Json> {
        match self {
            Json::Object(entries) => {
                let i = first_member(entries@, key, 0);
                if i < entries@.len() {
                    Some(entries@[i].1)
                } else {
                    None
                }
            },
            _ => None,
        }
    }

    /// The characters of a JSON string; `None` for any other value.
    pub open spec fn text(self) -> Option<Seq<char>> {
        match self {
            Json::Text(s) => Some(s@),
            _ => None,
        }
    }

    /// The text of the string member `key`, where this value is an object
    /// that has one.
    pub open spec fn text_member(self, key: Seq<char>) -> Option<Seq<char>> {
        match self.member(key) {
            Some(v) => v.text(),
            None => None,
        }
    }

    /// Tells whether this value is the JSON `null`.
    pub fn is_null(&self) -> (r: bool)
        ensures
            r == self.null(),
    {
        match self {
            Json::Null => true,
            _ => false,
        }
    }

    /// Looks up the member of an object under `key`.
    pub fn get(&self, key: &str) -> (r: Option<&Json>)
        ensures
            match r {
                Some(v) => self.member(key@) == Some(*v),
                None => self.member(key@) is None,
            },
    {
        match self {
            Json::Object(entries) => {
                let wanted = String::from_str(key);
                let mut i: usize = 0;
                while i < entries.len()
                    invariant
                        i <= entries.len(),
                        wanted@ == key@,
                        *self == Json::Object(*entries),
                        first_member(entries@, key@, 0) == first_member(entries@, key@, i as int),
                    decreases entries.len() - i,
                {
                    if entries[i].0 == wanted {
                        assert(first_member(entries@, key@, i as int) == i);
                        return Some(&entries[i].1);
                    }
                    assert(first_member(entries@, key@, i as int) == first_member(
                        entries@,
                        key@,
                        i + 1,
                    ));
                    i += 1;
                }
                None
            },
            _ => None,
        }
    }

    /// The characters of a JSON string.
    pub fn as_str(&self) -> (r: Option<&str>)
        ensures
            match r {
                Some(s) => self.text() == Some(s@),
                None => self.text() is None,
            },
    {
        match self {
            Json::Text(s) => Some(s.as_str()),
            _ => None,
        }
    }

    /// Tells whether this value is an object whose member `key` is the
    /// string `expected`.
    pub fn has_text_member(&self, key: &str, expected: &str) -> (r: bool)
        ensures
            r == (self.text_member(key@) == Some(expected@)),
    {
        match self.get(key) {
            Some(v) => match v.as_str() {
                Some(s) => {
                    let have = String::from_str(s);
                    let want = String::from_str(expected);
                    have == want
                },
                None => false,
            },
            None => false,
        }
    }

    /// The object with the single member `user`, a string: the payload that
    /// the scenarios send.
    pub fn user_payload(user: &str) -> (r: Json)
        ensures
            r.text_member("user"@) == Some(user@),
            r is Object,
            r->Object_0@.len() == 1,
    {
        let mut entries: Vec<(String, Json)> = Vec::new();
        entries.push((String::from_str("user"), Json::Text(String::from_str(user))));
        Json::Object(entries)
    }

    /// Reads a JSON document from `text`.
    pub fn parse(text: &str) -> (r: Option<Json>)
        ensures
            r == parsed_json(text@),
    {
        read_document(text)
    }
}

/// A parsed document of `serde_json`, carried from the parser to `lift_value`.
#[verifier::external_type_specification]
#[verifier::external_body]
pub struct ExValue(serde_json::Value);

/// `serde_json::from_str`, read into a `serde_json::Value` and handed over as
/// a `Json`. The contract names the result: the same text gives the same
/// document, and nothing is said of which document that is.
#[verifier::external_body]
fn read_document(text: &str) -> (r: Option<Json>)
    ensures
        r == parsed_json(text@),
{
    match serde_json::from_str::<serde_json::Value>(text) {
        Ok(value) => Some(lift_value(value)),
        Err(_) => None,
    }
}

/// Moves the parts of a `serde_json::Value` into a `Json`, variant by variant.
#[verifier::external_body]
fn lift_value(value: serde_json::Value) -> Json {
    match value {
        serde_json::Value::Null => Json::Null,
        serde_json::Value::Bool(b) => Json::Bool(b),
        serde_json::Value::Number(n) => Json::Number(n.to_string()),
        serde_json::Value::String(s) => Json::Text(s),
        serde_json::Value::Array(items) => Json::Array(items.into_iter().map(lift_value).collect()),
        serde_json::Value::Object(map) => {
            Json::Object(map.into_iter().map(|(k, v)| (k, lift_value(v))).collect())
        },
    }
}

} // verus!
