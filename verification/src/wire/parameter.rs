//! The form of parameters on the wire.

use crate::json::{
    field, lemma_json_view, lemma_member_push, member, object_of_one, object_of_two, read_text,
    text_is, Json, JsonView, Member, MemberView, NumberView,
};
use crate::parameter::{
    Content, Credential, CredentialView, MediaSegment, Parameter, ParameterView, Requirement,
    RequirementView,
};
use crate::wire::{
    array_from_json, array_to_json, decoded_array, encoded_array, lemma_array_round_trip,
    read_slot, write_slot, Wire,
};
use vstd::prelude::*;

verus! {

/// The names of the members of the wire format differ from one another.
pub proof fn lemma_member_names_differ()
    ensures
        "start"@ != "end"@,
        "id"@ != "type"@,
        "id"@ != "default"@,
        "id"@ != "value"@,
        "type"@ != "default"@,
        "type"@ != "value"@,
        "default"@ != "value"@,
        "job_id"@ != "parameters"@,
        "job_id"@ != "status"@,
        "job_id"@ != "destination_paths"@,
        "job_id"@ != "execution_duration"@,
        "status"@ != "destination_paths"@,
        "status"@ != "execution_duration"@,
        "status"@ != "parameters"@,
        "destination_paths"@ != "execution_duration"@,
        "destination_paths"@ != "parameters"@,
        "execution_duration"@ != "parameters"@,
{
    reveal_strlit("start");
    reveal_strlit("end");
    reveal_strlit("id");
    reveal_strlit("type");
    reveal_strlit("default");
    reveal_strlit("value");
    reveal_strlit("job_id");
    reveal_strlit("parameters");
    reveal_strlit("status");
    reveal_strlit("destination_paths");
    reveal_strlit("execution_duration");
    assert("start"@.len() == 5 && "end"@.len() == 3 && "id"@.len() == 2 && "type"@.len() == 4);
    assert("default"@.len() == 7 && "value"@.len() == 5 && "job_id"@.len() == 6);
    assert("parameters"@.len() == 10 && "status"@.len() == 6);
    assert("destination_paths"@.len() == 17 && "execution_duration"@.len() == 18);
    assert("job_id"@[0] != "status"@[0]);
}

impl Wire for MediaSegment {
    open spec fn sound(segment: MediaSegment) -> bool {
        segment.is_valid()
    }

    open spec fn encoded(segment: MediaSegment) -> JsonView {
        object_of_two(
            "start"@,
            JsonView::Number(NumberView::Unsigned(segment.start)),
            "end"@,
            JsonView::Number(NumberView::Unsigned(segment.end)),
        )
    }

    open spec fn decoded(document: JsonView) -> Option<MediaSegment> {
        match (field(document, "start"@), field(document, "end"@)) {
            (
                Some(JsonView::Number(NumberView::Unsigned(start))),
                Some(JsonView::Number(NumberView::Unsigned(end))),
            ) if start <= end => Some(MediaSegment { start, end }),
            _ => None,
        }
    }

    fn to_json(&self) -> (document: Json) {
        let mut members: Vec<Member> = Vec::new();
        members.push(Member::new("start", Json::unsigned(self.start)));
        members.push(Member::new("end", Json::unsigned(self.end)));
        let document = Json::object(members);
        assert(document@->Object_0 =~= Self::encoded(*self)->Object_0);
        document
    }

    fn from_json(document: &Json) -> (segment: Option<MediaSegment>) {
        let start = match document.get("start") {
            Some(number) => number.as_unsigned(),
            None => None,
        };
        let end = match document.get("end") {
            Some(number) => number.as_unsigned(),
            None => None,
        };
        match (start, end) {
            (Some(start), Some(end)) => if start <= end {
                Some(MediaSegment { start, end })
            } else {
                None
            },
            _ => None,
        }
    }

    proof fn lemma_round_trip(segment: MediaSegment) {
        lemma_member_names_differ();
        let start = MemberView {
            key: "start"@,
            value: JsonView::Number(NumberView::Unsigned(segment.start)),
        };
        let end = MemberView {
            key: "end"@,
            value: JsonView::Number(NumberView::Unsigned(segment.end)),
        };
        lemma_member_push(Seq::empty().push(start), end, "start"@);
        lemma_member_push(Seq::empty().push(start), end, "end"@);
        lemma_member_push(Seq::empty(), start, "start"@);
    }

    proof fn lemma_decoded_is_sound(document: JsonView) {
    }
}

impl Wire for Credential {
    open spec fn sound(credential: CredentialView) -> bool {
        true
    }

    open spec fn encoded(credential: CredentialView) -> JsonView {
        JsonView::Text(credential.key)
    }

    open spec fn decoded(document: JsonView) -> Option<CredentialView> {
        match document {
            JsonView::Text(key) => Some(CredentialView { key }),
            _ => None,
        }
    }

    fn to_json(&self) -> (document: Json) {
        Json::Text(self.key.clone())
    }

    fn from_json(document: &Json) -> (credential: Option<Credential>) {
        match document.as_text() {
            Some(key) => Some(Credential { key: key.clone() }),
            None => None,
        }
    }

    proof fn lemma_round_trip(credential: CredentialView) {
    }

    proof fn lemma_decoded_is_sound(document: JsonView) {
    }
}

impl Wire for Requirement {
    open spec fn sound(requirement: RequirementView) -> bool {
        true
    }

    open spec fn encoded(requirement: RequirementView) -> JsonView {
        match requirement.paths {
            Some(paths) => object_of_one("paths"@, encoded_array::<String>(paths)),
            None => JsonView::Object(Seq::empty()),
        }
    }

    open spec fn decoded(document: JsonView) -> Option<RequirementView> {
        match document {
            JsonView::Object(_) => match field(document, "paths"@) {
                Some(listed) => match decoded_array::<String>(listed) {
                    Some(paths) => Some(RequirementView { paths: Some(paths) }),
                    None => None,
                },
                None => Some(RequirementView { paths: None }),
            },
            _ => None,
        }
    }

    fn to_json(&self) -> (document: Json) {
        let mut members: Vec<Member> = Vec::new();
        match &self.paths {
            Some(paths) => {
                members.push(Member::new("paths", array_to_json::<String>(paths)));
            },
            None => {},
        }
        let document = Json::object(members);
        assert(document@->Object_0 =~= Self::encoded(self@)->Object_0);
        document
    }

    fn from_json(document: &Json) -> (requirement: Option<Requirement>) {
        proof {
            lemma_json_view(*document);
        }
        match document {
            Json::Object(_) => match document.get("paths") {
                Some(listed) => match array_from_json::<String>(listed) {
                    Some(paths) => Some(Requirement { paths: Some(paths) }),
                    None => None,
                },
                None => Some(Requirement { paths: None }),
            },
            _ => None,
        }
    }

    proof fn lemma_round_trip(requirement: RequirementView) {
        match requirement.paths {
            Some(paths) => {
                let listed = MemberView { key: "paths"@, value: encoded_array::<String>(paths) };
                lemma_member_push(Seq::empty(), listed, "paths"@);
                lemma_array_round_trip::<String>(paths);
            },
            None => {},
        }
    }

    proof fn lemma_decoded_is_sound(document: JsonView) {
    }
}

/// The names of the parameter types that have a form of their own.
pub open spec fn is_known_kind(kind: Seq<char>) -> bool {
    ||| kind == "array_of_media_segments"@
    ||| kind == "array_of_strings"@
    ||| kind == "boolean"@
    ||| kind == "credential"@
    ||| kind == "integer"@
    ||| kind == "requirements"@
    ||| kind == "string"@
}

/// The names of the parameter types differ from one another.
pub proof fn lemma_kind_names_differ()
    ensures
        "array_of_media_segments"@ != "array_of_strings"@,
        "array_of_media_segments"@ != "boolean"@,
        "array_of_media_segments"@ != "credential"@,
        "array_of_media_segments"@ != "integer"@,
        "array_of_media_segments"@ != "requirements"@,
        "array_of_media_segments"@ != "string"@,
        "array_of_strings"@ != "boolean"@,
        "array_of_strings"@ != "credential"@,
        "array_of_strings"@ != "integer"@,
        "array_of_strings"@ != "requirements"@,
        "array_of_strings"@ != "string"@,
        "boolean"@ != "credential"@,
        "boolean"@ != "integer"@,
        "boolean"@ != "requirements"@,
        "boolean"@ != "string"@,
        "credential"@ != "integer"@,
        "credential"@ != "requirements"@,
        "credential"@ != "string"@,
        "integer"@ != "requirements"@,
        "integer"@ != "string"@,
        "requirements"@ != "string"@,
{
    reveal_strlit("array_of_media_segments");
    reveal_strlit("array_of_strings");
    reveal_strlit("boolean");
    reveal_strlit("credential");
    reveal_strlit("integer");
    reveal_strlit("requirements");
    reveal_strlit("string");
    assert("array_of_media_segments"@.len() == 23 && "array_of_strings"@.len() == 16);
    assert("boolean"@.len() == 7 && "credential"@.len() == 10 && "integer"@.len() == 7);
    assert("requirements"@.len() == 12 && "string"@.len() == 6);
    assert("boolean"@[0] != "integer"@[0]);
}

/// Whether a content is one that a parameter of the type `kind` holds.
pub open spec fn content_fits(kind: Seq<char>, content: Content) -> bool {
    match content {
        Content::Segments(segments) => kind == "array_of_media_segments"@ && <Vec<
            MediaSegment,
        > as Wire>::sound(segments),
        Content::Strings(_) => kind == "array_of_strings"@,
        Content::Boolean(_) => kind == "boolean"@,
        Content::Credential(_) => kind == "credential"@,
        Content::Integer(_) => kind == "integer"@,
        Content::Requirement(_) => kind == "requirements"@,
        Content::Text(_) => kind == "string"@,
        Content::Raw(document) => !is_known_kind(kind) && !(document is Null),
    }
}

impl ParameterView {
    /// What holds of the model of every parameter whose segments are valid
    /// and whose type, if the library does not know it, is named otherwise
    /// than those it knows, with raw documents that are not `null`.
    pub open spec fn is_valid(self) -> bool {
        &&& self.default matches Some(content) ==> content_fits(self.kind, content)
        &&& self.value matches Some(content) ==> content_fits(self.kind, content)
    }
}

/// The document that stands for a content.
pub open spec fn encoded_content(content: Content) -> JsonView {
    match content {
        Content::Segments(segments) => <Vec<MediaSegment> as Wire>::encoded(segments),
        Content::Strings(strings) => <Vec<String> as Wire>::encoded(strings),
        Content::Boolean(flag) => <bool as Wire>::encoded(flag),
        Content::Credential(key) => <String as Wire>::encoded(key),
        Content::Integer(number) => <i64 as Wire>::encoded(number),
        Content::Requirement(requirement) => <Requirement as Wire>::encoded(requirement),
        Content::Text(text) => <String as Wire>::encoded(text),
        Content::Raw(document) => document,
    }
}

/// The content that a document stands for in a parameter of the type `kind`.
pub open spec fn decoded_content(kind: Seq<char>, document: JsonView) -> Option<Content> {
    if kind == "array_of_media_segments"@ {
        match <Vec<MediaSegment> as Wire>::decoded(document) {
            Some(segments) => Some(Content::Segments(segments)),
            None => None,
        }
    } else if kind == "array_of_strings"@ {
        match <Vec<String> as Wire>::decoded(document) {
            Some(strings) => Some(Content::Strings(strings)),
            None => None,
        }
    } else if kind == "boolean"@ {
        match <bool as Wire>::decoded(document) {
            Some(flag) => Some(Content::Boolean(flag)),
            None => None,
        }
    } else if kind == "credential"@ {
        match <String as Wire>::decoded(document) {
            Some(key) => Some(Content::Credential(key)),
            None => None,
        }
    } else if kind == "integer"@ {
        match <i64 as Wire>::decoded(document) {
            Some(number) => Some(Content::Integer(number)),
            None => None,
        }
    } else if kind == "requirements"@ {
        match <Requirement as Wire>::decoded(document) {
            Some(requirement) => Some(Content::Requirement(requirement)),
            None => None,
        }
    } else if kind == "string"@ {
        match <String as Wire>::decoded(document) {
            Some(text) => Some(Content::Text(text)),
            None => None,
        }
    } else {
        match <Json as Wire>::decoded(document) {
            Some(raw) => Some(Content::Raw(raw)),
            None => None,
        }
    }
}

/// The content that a document holds under `key` for a parameter of the
/// type `kind`: nothing where it holds nothing there; no reading at all
/// where what it holds is not of that type.
pub open spec fn content_slot(kind: Seq<char>, document: JsonView, key: Seq<char>) -> Option<
    Option<Content>,
> {
    match field(document, key) {
        Some(held) => match decoded_content(kind, held) {
            Some(content) => Some(Some(content)),
            None => None,
        },
        None => Some(None),
    }
}

/// `members` with one more for `content` under `key`, if there is one.
pub open spec fn with_content(
    members: Seq<MemberView>,
    key: Seq<char>,
    content: Option<Content>,
) -> Seq<MemberView> {
    match content {
        Some(content) => members.push(MemberView { key, value: encoded_content(content) }),
        None => members,
    }
}

/// The members that a parameter has on the wire before its two slots.
pub open spec fn parameter_head(parameter: ParameterView) -> Seq<MemberView> {
    Seq::empty().push(MemberView { key: "id"@, value: JsonView::Text(parameter.id) }).push(
        MemberView { key: "type"@, value: JsonView::Text(parameter.kind) },
    )
}

/// The document that stands for a parameter.
pub open spec fn encoded_parameter(parameter: ParameterView) -> JsonView {
    JsonView::Object(
        with_content(
            with_content(parameter_head(parameter), "default"@, parameter.default),
            "value"@,
            parameter.value,
        ),
    )
}

/// The parameter that a document stands for, if it stands for one.
pub open spec fn decoded_parameter(document: JsonView) -> Option<ParameterView> {
    match (field(document, "id"@), field(document, "type"@)) {
        (Some(JsonView::Text(id)), Some(JsonView::Text(kind))) => match (
            content_slot(kind, document, "default"@),
            content_slot(kind, document, "value"@),
        ) {
            (Some(default), Some(value)) => Some(ParameterView { id, kind, default, value }),
            _ => None,
        },
        _ => None,
    }
}

/// A content that was written is read back as it was, and is never `null`.
pub proof fn lemma_content_round_trip(kind: Seq<char>, content: Content)
    requires
        content_fits(kind, content),
    ensures
        decoded_content(kind, encoded_content(content)) == Some(content),
        !(encoded_content(content) is Null),
{
    lemma_kind_names_differ();
    match content {
        Content::Segments(segments) => {
            <Vec<MediaSegment> as Wire>::lemma_round_trip(segments);
        },
        Content::Strings(strings) => {
            <Vec<String> as Wire>::lemma_round_trip(strings);
        },
        Content::Requirement(requirement) => {
            <Requirement as Wire>::lemma_round_trip(requirement);
        },
        _ => {},
    }
}

/// A content that is read fits the type it was read for.
pub proof fn lemma_decoded_content_fits(kind: Seq<char>, document: JsonView)
    ensures
        decoded_content(kind, document) matches Some(content) ==> content_fits(kind, content),
{
    lemma_kind_names_differ();
    <Vec<MediaSegment> as Wire>::lemma_decoded_is_sound(document);
}

/// A content slot that was written is read back as it was, and a slot
/// written under another key is not in the way.
pub proof fn lemma_content_slot_round_trip(
    kind: Seq<char>,
    members: Seq<MemberView>,
    key: Seq<char>,
    content: Option<Content>,
    other: Seq<char>,
)
    requires
        content matches Some(held) ==> content_fits(kind, held),
        member(members, key) is None,
        other != key,
    ensures
        content_slot(kind, JsonView::Object(with_content(members, key, content)), key) == Some(
            content,
        ),
        member(with_content(members, key, content), other) == member(members, other),
{
    match content {
        Some(held) => {
            lemma_content_round_trip(kind, held);
            lemma_member_push(members, MemberView { key, value: encoded_content(held) }, key);
            lemma_member_push(members, MemberView { key, value: encoded_content(held) }, other);
        },
        None => {},
    }
}

/// A parameter that was written is read back as it was.
pub proof fn lemma_parameter_round_trip(parameter: ParameterView)
    requires
        parameter.is_valid(),
    ensures
        decoded_parameter(encoded_parameter(parameter)) == Some(parameter),
        !(encoded_parameter(parameter) is Null),
{
    lemma_member_names_differ();
    let id = MemberView { key: "id"@, value: JsonView::Text(parameter.id) };
    let kind = MemberView { key: "type"@, value: JsonView::Text(parameter.kind) };
    let head = parameter_head(parameter);
    let middle = with_content(head, "default"@, parameter.default);
    let all = with_content(middle, "value"@, parameter.value);
    lemma_member_push(Seq::empty(), id, "id"@);
    lemma_member_push(Seq::empty(), id, "type"@);
    lemma_member_push(Seq::empty(), id, "default"@);
    lemma_member_push(Seq::empty(), id, "value"@);
    lemma_member_push(Seq::empty().push(id), kind, "id"@);
    lemma_member_push(Seq::empty().push(id), kind, "type"@);
    lemma_member_push(Seq::empty().push(id), kind, "default"@);
    lemma_member_push(Seq::empty().push(id), kind, "value"@);
    lemma_content_slot_round_trip(parameter.kind, head, "default"@, parameter.default, "id"@);
    lemma_content_slot_round_trip(parameter.kind, head, "default"@, parameter.default, "type"@);
    lemma_content_slot_round_trip(parameter.kind, head, "default"@, parameter.default, "value"@);
    lemma_content_slot_round_trip(parameter.kind, middle, "value"@, parameter.value, "id"@);
    lemma_content_slot_round_trip(parameter.kind, middle, "value"@, parameter.value, "type"@);
    lemma_content_slot_round_trip(parameter.kind, middle, "value"@, parameter.value, "default"@);
    assert(field(JsonView::Object(all), "default"@) == field(JsonView::Object(middle), "default"@));
}

/// A parameter that is read is valid.
pub proof fn lemma_decoded_parameter_is_valid(document: JsonView)
    ensures
        decoded_parameter(document) matches Some(parameter) ==> parameter.is_valid(),
{
    if let Some(parameter) = decoded_parameter(document) {
        if let Some(held) = field(document, "default"@) {
            lemma_decoded_content_fits(parameter.kind, held);
        }
        if let Some(held) = field(document, "value"@) {
            lemma_decoded_content_fits(parameter.kind, held);
        }
    }
}

impl Wire for Parameter {
    open spec fn sound(parameter: ParameterView) -> bool {
        parameter.is_valid()
    }

    open spec fn encoded(parameter: ParameterView) -> JsonView {
        encoded_parameter(parameter)
    }

    open spec fn decoded(document: JsonView) -> Option<ParameterView> {
        decoded_parameter(document)
    }

    fn to_json(&self) -> (document: Json) {
        let mut members: Vec<Member> = Vec::new();
        members.push(Member::new("id", Json::Text(self.get_id().clone())));
        members.push(Member::new("type", Json::Text(self.get_kind())));
        assert(members.deep_view() =~= parameter_head(self@));
        match self {
            Parameter::ArrayOfMediaSegmentsParam { default, value, .. } => {
                write_slot::<Vec<MediaSegment>>(&mut members, "default", default);
                write_slot::<Vec<MediaSegment>>(&mut members, "value", value);
            },
            Parameter::ArrayOfStringsParam { default, value, .. } => {
                write_slot::<Vec<String>>(&mut members, "default", default);
                write_slot::<Vec<String>>(&mut members, "value", value);
            },
            Parameter::BooleanParam { default, value, .. } => {
                write_slot::<bool>(&mut members, "default", default);
                write_slot::<bool>(&mut members, "value", value);
            },
            Parameter::CredentialParam { default, value, .. } => {
                write_slot::<String>(&mut members, "default", default);
                write_slot::<String>(&mut members, "value", value);
            },
            Parameter::IntegerParam { default, value, .. } => {
                write_slot::<i64>(&mut members, "default", default);
                write_slot::<i64>(&mut members, "value", value);
            },
            Parameter::RequirementParam { default, value, .. } => {
                write_slot::<Requirement>(&mut members, "default", default);
                write_slot::<Requirement>(&mut members, "value", value);
            },
            Parameter::StringParam { default, value, .. } => {
                write_slot::<String>(&mut members, "default", default);
                write_slot::<String>(&mut members, "value", value);
            },
            Parameter::OtherParam { default, value, .. } => {
                write_slot::<Json>(&mut members, "default", default);
                write_slot::<Json>(&mut members, "value", value);
            },
        }
        Json::object(members)
    }

    fn from_json(document: &Json) -> (parameter: Option<Parameter>) {
        let id = match read_text(document, "id") {
            Some(id) => id,
            None => {
                return None;
            },
        };
        let kind = match read_text(document, "type") {
            Some(kind) => kind,
            None => {
                return None;
            },
        };
        proof {
            lemma_kind_names_differ();
        }
        if text_is(&kind, "array_of_media_segments") {
            match (
                read_slot::<Vec<MediaSegment>>(document, "default"),
                read_slot::<Vec<MediaSegment>>(document, "value"),
            ) {
                (Some(default), Some(value)) => Some(
                    Parameter::ArrayOfMediaSegmentsParam { id, default, value },
                ),
                _ => None,
            }
        } else if text_is(&kind, "array_of_strings") {
            match (
                read_slot::<Vec<String>>(document, "default"),
                read_slot::<Vec<String>>(document, "value"),
            ) {
                (Some(default), Some(value)) => Some(
                    Parameter::ArrayOfStringsParam { id, default, value },
                ),
                _ => None,
            }
        } else if text_is(&kind, "boolean") {
            match (read_slot::<bool>(document, "default"), read_slot::<bool>(document, "value")) {
                (Some(default), Some(value)) => Some(
                    Parameter::BooleanParam { id, default, value },
                ),
                _ => None,
            }
        } else if text_is(&kind, "credential") {
            match (
                read_slot::<String>(document, "default"),
                read_slot::<String>(document, "value"),
            ) {
                (Some(default), Some(value)) => Some(
                    Parameter::CredentialParam { id, default, value },
                ),
                _ => None,
            }
        } else if text_is(&kind, "integer") {
            match (read_slot::<i64>(document, "default"), read_slot::<i64>(document, "value")) {
                (Some(default), Some(value)) => Some(
                    Parameter::IntegerParam { id, default, value },
                ),
                _ => None,
            }
        } else if text_is(&kind, "requirements") {
            match (
                read_slot::<Requirement>(document, "default"),
                read_slot::<Requirement>(document, "value"),
            ) {
                (Some(default), Some(value)) => Some(
                    Parameter::RequirementParam { id, default, value },
                ),
                _ => None,
            }
        } else if text_is(&kind, "string") {
            match (
                read_slot::<String>(document, "default"),
                read_slot::<String>(document, "value"),
            ) {
                (Some(default), Some(value)) => Some(Parameter::StringParam { id, default, value }),
                _ => None,
            }
        } else {
            match (read_slot::<Json>(document, "default"), read_slot::<Json>(document, "value")) {
                (Some(default), Some(value)) => Some(
                    Parameter::OtherParam { id, kind, default, value },
                ),
                _ => None,
            }
        }
    }

    proof fn lemma_round_trip(parameter: ParameterView) {
        lemma_parameter_round_trip(parameter);
    }

    proof fn lemma_decoded_is_sound(document: JsonView) {
        lemma_decoded_parameter_is_valid(document);
    }
}

} // verus!
