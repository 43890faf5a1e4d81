//! The session entity and its decoding from a JSON document.

use vstd::prelude::*;
use vstd::string::*;
use crate::json::{first_member, Json};

verus! {

/// A session as the service reports it.
#[derive(Debug, PartialEq, Eq)]
pub struct Session {
    /// The identifier that the service assigned.
    pub id: String,
    /// The creation time, in whatever form the service gives it.
    pub created_at: Json,
    /// The payload that was supplied at creation.
    pub data: Json,
}

/// Why a document is no session.
#[derive(Clone, Copy, Debug, PartialEq, Eq)]
pub enum DecodeFault {
    /// The body is no JSON document.
    NotJson,
    /// The document is no JSON object.
    NotAnObject,
    /// The object has no member `id`.
    MissingId,
    /// The member `id` is no string.
    IdNotText,
    /// The object has no member `created_at`.
    MissingCreatedAt,
    /// The object has no member `data`.
    MissingData,
}

/// The value among `entries[from..]` that is first under `key`.
pub open spec fn member_from(entries: Seq<(String, Json)>, key: Seq<char>, from: int) -> Option<
    Json,
> {
    let i = first_member(entries, key, from);
    if i < entries.len() {
        Some(entries[i].1)
    } else {
        None
    }
}

/// The session that a document describes: an object with a string `id` and
/// with members `created_at` and `data` of any kind. Other members are
/// ignored; of several members with one name the first counts.
pub open spec fn decoded(doc: Json) -> Result<Session, DecodeFault> {
    if !(doc is Object) {
        Err(DecodeFault::NotAnObject)
    } else {
        match (doc.member("id"@), doc.member("created_at"@), doc.member("data"@)) {
            (None, _, _) => Err(DecodeFault::MissingId),
            (Some(Json::Text(id)), Some(created_at), Some(data)) => Ok(
                Session { id, created_at, data },
            ),
            (Some(Json::Text(_)), None, _) => Err(DecodeFault::MissingCreatedAt),
            (Some(Json::Text(_)), Some(_), None) => Err(DecodeFault::MissingData),
            (Some(_), _, _) => Err(DecodeFault::IdNotText),
        }
    }
}

proof fn lemma_member_step(entries: Seq<(String, Json)>, key: Seq<char>, n: int)
    requires
        0 <= n < entries.len(),
    ensures
        entries[n].0@ == key ==> member_from(entries, key, n) == Some(entries[n].1),
        entries[n].0@ != key ==> member_from(entries, key, n) == member_from(entries, key, n + 1),
{
}

proof fn lemma_names_differ()
    ensures
        "id"@ != "created_at"@,
        "id"@ != "data"@,
        "created_at"@ != "data"@,
{
    reveal_strlit("id");
    reveal_strlit("created_at");
    reveal_strlit("data");
    assert("id"@.len() == 2);
    assert("created_at"@.len() == 10);
    assert("data"@.len() == 4);
}

impl Session {
    /// Decodes a session from a JSON document, taking its parts over.
    pub fn from_json(doc: Json) -> (r: Result<Session, DecodeFault>)
        ensures
            r == decoded(doc),
    {
        let mut entries = match doc {
            Json::Object(entries) => entries,
            _ => {
                return Err(DecodeFault::NotAnObject);
            },
        };
        let ghost all = entries@;
        let id_key = String::from_str("id");
        let created_key = String::from_str("created_at");
        let data_key = String::from_str("data");
        let mut id: Option<Json> = None;
        let mut created_at: Option<Json> = None;
        let mut data: Option<Json> = None;
        while entries.len() > 0
            invariant
                entries@ =~= all.subrange(0, entries@.len() as int),
                entries@.len() <= all.len(),
                id_key@ == "id"@,
                created_key@ == "created_at"@,
                data_key@ == "data"@,
                id == member_from(all, "id"@, entries@.len() as int),
                created_at == member_from(all, "created_at"@, entries@.len() as int),
                data == member_from(all, "data"@, entries@.len() as int),
            decreases entries@.len(),
        {
            let ghost n = entries@.len() - 1;
            proof {
                lemma_names_differ();
                lemma_member_step(all, "id"@, n);
                lemma_member_step(all, "created_at"@, n);
                lemma_member_step(all, "data"@, n);
            }
            match entries.pop() {
                Some((name, value)) => {
                    assert(name == all[n].0 && value == all[n].1);
                    if name == id_key {
                        id = Some(value);
                    } else if name == created_key {
                        created_at = Some(value);
                    } else if name == data_key {
                        data = Some(value);
                    }
                },
                None => {},
            }
        }
        assert(doc.member("id"@) == id);
        assert(doc.member("created_at"@) == created_at);
        assert(doc.member("data"@) == data);
        match id {
            None => Err(DecodeFault::MissingId),
            Some(Json::Text(id)) => match created_at {
                None => Err(DecodeFault::MissingCreatedAt),
                Some(created_at) => match data {
                    None => Err(DecodeFault::MissingData),
                    Some(data) => Ok(Session { id, created_at, data }),
                },
            },
            Some(_) => Err(DecodeFault::IdNotText),
        }
    }

    /// Decodes a session from the text of a response body: the text is
    /// parsed, and the document is read as `from_json` reads it. Where the
    /// text repeats a member's name, `from_json` sees what the parser kept
    /// of it.
    pub fn decode(body: &str) -> (r: Result<Session, DecodeFault>)
        ensures
            r == decoded_text(body@),
    {
        match Json::parse(body) {
            Some(doc) => Session::from_json(doc),
            None => Err(DecodeFault::NotJson),
        }
    }
}

/// The session that a body text describes.
pub open spec fn decoded_text(body: Seq<char>) -> Result<Session, DecodeFault> {
    match crate::json::parsed_json(body) {
        Some(doc) => decoded(doc),
        None => Err(DecodeFault::NotJson),
    }
}

impl DecodeFault {
    /// The fault in words.
    pub open spec fn text(self) -> Seq<char> {
        match self {
            DecodeFault::NotJson => "body is not JSON"@,
            DecodeFault::NotAnObject => "body is not a JSON object"@,
            DecodeFault::MissingId => "missing field `id`"@,
            DecodeFault::IdNotText => "field `id` is not a string"@,
            DecodeFault::MissingCreatedAt => "missing field `created_at`"@,
            DecodeFault::MissingData => "missing field `data`"@,
        }
    }

    /// The fault in words.
    pub fn message(&self) -> (r: &'static str)
        ensures
            r@ == self.text(),
    {
        match self {
            DecodeFault::NotJson => "body is not JSON",
            DecodeFault::NotAnObject => "body is not a JSON object",
            DecodeFault::MissingId => "missing field `id`",
            DecodeFault::IdNotText => "field `id` is not a string",
            DecodeFault::MissingCreatedAt => "missing field `created_at`",
            DecodeFault::MissingData => "missing field `data`",
        }
    }
}

} // verus!
