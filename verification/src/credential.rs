//! What a worker says to a credential service, and what it is answered.

use crate::json::{
    field, object_of_one, object_of_two, read_text, text_field, Json, JsonView, Member, MemberView,
};
use vstd::prelude::*;

verus! {

/// Who opens a session with the credential service.
#[derive(Clone, Debug, PartialEq, Eq)]
pub struct Session {
    pub email: String,
    pub password: String,
}

/// The request that opens a session.
#[derive(Clone, Debug, PartialEq, Eq)]
pub struct SessionBody {
    pub session: Session,
}

/// The answer to the opening of a session.
#[derive(Clone, Debug, PartialEq, Eq)]
pub struct SessionResponseBody {
    pub access_token: String,
}

/// A credential as the service holds it.
#[derive(Clone, Debug, PartialEq, Eq)]
pub struct DataResponseBody {
    pub id: u32,
    pub key: String,
    pub value: String,
    pub inserted_at: String,
}

/// The answer to the request for a credential.
#[derive(Clone, Debug, PartialEq, Eq)]
pub struct ValueResponseBody {
    pub data: DataResponseBody,
}

/// The document that opens a session for `email` with `password`.
pub open spec fn session_request(email: Seq<char>, password: Seq<char>) -> JsonView {
    object_of_one(
        "session"@,
        object_of_two("email"@, JsonView::Text(email), "password"@, JsonView::Text(password)),
    )
}

/// The number that a document holds under `key`, where it fits `u32`.
pub open spec fn small_number_field(document: JsonView, key: Seq<char>) -> Option<u32> {
    match field(document, key) {
        Some(JsonView::Number(crate::json::NumberView::Unsigned(number))) if number
            <= u32::MAX => Some(number as u32),
        _ => None,
    }
}

impl SessionBody {
    /// Writes the request.
    pub fn to_json(&self) -> (document: Json)
        ensures
            document@ == session_request(self.session.email@, self.session.password@),
    {
        let mut inner: Vec<Member> = Vec::new();
        inner.push(Member::new("email", Json::Text(self.session.email.clone())));
        inner.push(Member::new("password", Json::Text(self.session.password.clone())));
        let session = Json::object(inner);
        assert(session@->Object_0 =~= object_of_two(
            "email"@,
            JsonView::Text(self.session.email@),
            "password"@,
            JsonView::Text(self.session.password@),
        )->Object_0);
        let mut outer: Vec<Member> = Vec::new();
        outer.push(Member::new("session", session));
        let document = Json::object(outer);
        assert(document@->Object_0 =~= session_request(
            self.session.email@,
            self.session.password@,
        )->Object_0);
        document
    }
}

impl SessionResponseBody {
    /// Reads the answer: a document with a text under `access_token`.
    pub fn from_json(document: &Json) -> (body: Option<SessionResponseBody>)
        ensures
            match body {
                Some(body) => text_field(document@, "access_token"@) == Some(body.access_token@),
                None => text_field(document@, "access_token"@) is None,
            },
    {
        match read_text(document, "access_token") {
            Some(access_token) => Some(SessionResponseBody { access_token }),
            None => None,
        }
    }
}

impl DataResponseBody {
    /// Whether the credential is what `document` holds.
    pub open spec fn is_read_from(&self, document: JsonView) -> bool {
        &&& small_number_field(document, "id"@) == Some(self.id)
        &&& text_field(document, "key"@) == Some(self.key@)
        &&& text_field(document, "value"@) == Some(self.value@)
        &&& text_field(document, "inserted_at"@) == Some(self.inserted_at@)
    }

    /// Whether `document` holds a credential.
    pub open spec fn readable(document: JsonView) -> bool {
        &&& small_number_field(document, "id"@) is Some
        &&& text_field(document, "key"@) is Some
        &&& text_field(document, "value"@) is Some
        &&& text_field(document, "inserted_at"@) is Some
    }

    /// Reads a credential: a number under `id`, and texts under `key`,
    /// `value` and `inserted_at`.
    pub fn from_json(document: &Json) -> (body: Option<DataResponseBody>)
        ensures
            match body {
                Some(body) => body.is_read_from(document@),
                None => !DataResponseBody::readable(document@),
            },
    {
        let id = match document.get("id") {
            Some(held) => match held.as_unsigned() {
                Some(number) => if number <= u32::MAX as u64 {
                    Some(number as u32)
                } else {
                    None
                },
                None => None,
            },
            None => None,
        };
        match (
            id,
            read_text(document, "key"),
            read_text(document, "value"),
            read_text(document, "inserted_at"),
        ) {
            (Some(id), Some(key), Some(value), Some(inserted_at)) => Some(
                DataResponseBody { id, key, value, inserted_at },
            ),
            _ => None,
        }
    }
}

impl ValueResponseBody {
    /// Reads the answer: a document with a credential under `data`.
    pub fn from_json(document: &Json) -> (body: Option<ValueResponseBody>)
        ensures
            match body {
                Some(body) => field(document@, "data"@) matches Some(held)
                    && body.data.is_read_from(held),
                None => field(document@, "data"@) matches Some(held)
                    ==> !DataResponseBody::readable(held),
            },
    {
        match document.get("data") {
            Some(held) => match DataResponseBody::from_json(held) {
                Some(data) => Some(ValueResponseBody { data }),
                None => None,
            },
            None => None,
        }
    }
}

} // verus!
