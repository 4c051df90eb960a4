//! The parameters of jobs, and how they are read as typed values.

use crate::error::ParameterError;
use crate::json::{Json, JsonView};
use crate::wire::Wire;
use vstd::prelude::*;

verus! {

/// A span of media, in time units counted from the start of the source.
#[derive(Clone, Copy, Debug, PartialEq, Eq, Structural)]
pub struct MediaSegment {
    pub start: u64,
    pub end: u64,
}

impl MediaSegment {
    /// A segment does not end before it starts.
    pub open spec fn is_valid(self) -> bool {
        self.start <= self.end
    }

    /// The segment from `start` to `end`.
    pub fn new(start: u64, end: u64) -> (segment: MediaSegment)
        requires
            start <= end,
        ensures
            segment == (MediaSegment { start, end }),
            segment.is_valid(),
    {
        MediaSegment { start, end }
    }
}

impl View for MediaSegment {
    type V = MediaSegment;

    open spec fn view(&self) -> MediaSegment {
        *self
    }
}

impl DeepView for MediaSegment {
    type V = MediaSegment;

    open spec fn deep_view(&self) -> MediaSegment {
        *self
    }
}

/// Files that must exist before a job may start.
#[derive(Debug, PartialEq, Eq)]
pub struct Requirement {
    pub paths: Option<Vec<String>>,
}

/// Mathematical model of [`Requirement`].
pub struct RequirementView {
    pub paths: Option<Seq<Seq<char>>>,
}

impl View for Requirement {
    type V = RequirementView;

    open spec fn view(&self) -> RequirementView {
        RequirementView { paths: self.paths.deep_view() }
    }
}

impl DeepView for Requirement {
    type V = RequirementView;

    open spec fn deep_view(&self) -> RequirementView {
        self@
    }
}

/// The key under which a credential service holds a secret.
#[derive(Clone, Debug, PartialEq, Eq)]
pub struct Credential {
    pub key: String,
}

/// Mathematical model of [`Credential`].
pub struct CredentialView {
    pub key: Seq<char>,
}

impl View for Credential {
    type V = CredentialView;

    open spec fn view(&self) -> CredentialView {
        CredentialView { key: self.key@ }
    }
}

impl DeepView for Credential {
    type V = CredentialView;

    open spec fn deep_view(&self) -> CredentialView {
        self@
    }
}

/// A named, typed job parameter with an optional default and an optional
/// value. `OtherParam` keeps a parameter of a type this library does not
/// know, with its type name and its raw documents.
#[derive(Debug, PartialEq, Eq)]
#[allow(inconsistent_fields)]
pub enum Parameter {
    ArrayOfMediaSegmentsParam {
        id: String,
        default: Option<Vec<MediaSegment>>,
        value: Option<Vec<MediaSegment>>,
    },
    ArrayOfStringsParam { id: String, default: Option<Vec<String>>, value: Option<Vec<String>> },
    BooleanParam { id: String, default: Option<bool>, value: Option<bool> },
    CredentialParam { id: String, default: Option<String>, value: Option<String> },
    IntegerParam { id: String, default: Option<i64>, value: Option<i64> },
    RequirementParam { id: String, default: Option<Requirement>, value: Option<Requirement> },
    StringParam { id: String, default: Option<String>, value: Option<String> },
    OtherParam { id: String, kind: String, default: Option<Json>, value: Option<Json> },
}

/// What a parameter can hold, as a mathematical value.
pub enum Content {
    Segments(Seq<MediaSegment>),
    Strings(Seq<Seq<char>>),
    Boolean(bool),
    Credential(Seq<char>),
    Integer(i64),
    Requirement(RequirementView),
    Text(Seq<char>),
    Raw(JsonView),
}

/// Mathematical model of a [`Parameter`]: its identifier, the name of its
/// type on the wire, and its two slots.
pub struct ParameterView {
    pub id: Seq<char>,
    pub kind: Seq<char>,
    pub default: Option<Content>,
    pub value: Option<Content>,
}

impl ParameterView {
    /// The value if there is one, else the default.
    pub open spec fn effective(self) -> Option<Content> {
        if self.value is Some {
            self.value
        } else {
            self.default
        }
    }
}

/// The content of a slot, for each type of slot.
pub open spec fn segments_content(slot: Option<Vec<MediaSegment>>) -> Option<Content> {
    match slot {
        Some(v) => Some(Content::Segments(v.deep_view())),
        None => None,
    }
}

pub open spec fn strings_content(slot: Option<Vec<String>>) -> Option<Content> {
    match slot {
        Some(v) => Some(Content::Strings(v.deep_view())),
        None => None,
    }
}

pub open spec fn boolean_content(slot: Option<bool>) -> Option<Content> {
    match slot {
        Some(b) => Some(Content::Boolean(b)),
        None => None,
    }
}

pub open spec fn credential_content(slot: Option<String>) -> Option<Content> {
    match slot {
        Some(s) => Some(Content::Credential(s@)),
        None => None,
    }
}

pub open spec fn integer_content(slot: Option<i64>) -> Option<Content> {
    match slot {
        Some(i) => Some(Content::Integer(i)),
        None => None,
    }
}

pub open spec fn requirement_content(slot: Option<Requirement>) -> Option<Content> {
    match slot {
        Some(r) => Some(Content::Requirement(r@)),
        None => None,
    }
}

pub open spec fn text_content(slot: Option<String>) -> Option<Content> {
    match slot {
        Some(s) => Some(Content::Text(s@)),
        None => None,
    }
}

pub open spec fn raw_content(slot: Option<Json>) -> Option<Content> {
    match slot {
        Some(j) => Some(Content::Raw(j@)),
        None => None,
    }
}

impl View for Parameter {
    type V = ParameterView;

    open spec fn view(&self) -> ParameterView {
        match self {
            Parameter::ArrayOfMediaSegmentsParam { id, default, value } => ParameterView {
                id: id@,
                kind: "array_of_media_segments"@,
                default: segments_content(*default),
                value: segments_content(*value),
            },
            Parameter::ArrayOfStringsParam { id, default, value } => ParameterView {
                id: id@,
                kind: "array_of_strings"@,
                default: strings_content(*default),
                value: strings_content(*value),
            },
            Parameter::BooleanParam { id, default, value } => ParameterView {
                id: id@,
                kind: "boolean"@,
                default: boolean_content(*default),
                value: boolean_content(*value),
            },
            Parameter::CredentialParam { id, default, value } => ParameterView {
                id: id@,
                kind: "credential"@,
                default: credential_content(*default),
                value: credential_content(*value),
            },
            Parameter::IntegerParam { id, default, value } => ParameterView {
                id: id@,
                kind: "integer"@,
                default: integer_content(*default),
                value: integer_content(*value),
            },
            Parameter::RequirementParam { id, default, value } => ParameterView {
                id: id@,
                kind: "requirements"@,
                default: requirement_content(*default),
                value: requirement_content(*value),
            },
            Parameter::StringParam { id, default, value } => ParameterView {
                id: id@,
                kind: "string"@,
                default: text_content(*default),
                value: text_content(*value),
            },
            Parameter::OtherParam { id, kind, default, value } => ParameterView {
                id: id@,
                kind: kind@,
                default: raw_content(*default),
                value: raw_content(*value),
            },
        }
    }
}

impl DeepView for Parameter {
    type V = ParameterView;

    open spec fn deep_view(&self) -> ParameterView {
        self@
    }
}

/// A copy of `strings`.
pub fn copy_strings(strings: &Vec<String>) -> (copy: Vec<String>)
    ensures
        copy.deep_view() == strings.deep_view(),
{
    let mut copy: Vec<String> = Vec::new();
    let mut i: usize = 0;
    while i < strings.len()
        invariant
            i <= strings.len(),
            copy.len() == i,
            forall|k: int| 0 <= k < i ==> #[trigger] copy[k]@ == strings[k]@,
        decreases strings.len() - i,
    {
        copy.push(strings[i].clone());
        i = i + 1;
    }
    assert(copy.deep_view() =~= strings.deep_view());
    copy
}

/// A copy of `segments`.
pub fn copy_segments(segments: &Vec<MediaSegment>) -> (copy: Vec<MediaSegment>)
    ensures
        copy.deep_view() == segments.deep_view(),
{
    let mut copy: Vec<MediaSegment> = Vec::new();
    let mut i: usize = 0;
    while i < segments.len()
        invariant
            i <= segments.len(),
            copy.len() == i,
            forall|k: int| 0 <= k < i ==> #[trigger] copy[k] == segments[k],
        decreases segments.len() - i,
    {
        copy.push(segments[i]);
        i = i + 1;
    }
    assert(copy.deep_view() =~= segments.deep_view());
    copy
}

/// A copy of what a slot of texts holds.
fn copy_text_slot(slot: &Option<String>) -> (copy: Option<String>)
    ensures
        copy.deep_view() == slot.deep_view(),
{
    match slot {
        Some(text) => Some(text.clone()),
        None => None,
    }
}

impl Clone for Requirement {
    fn clone(&self) -> (copy: Requirement)
        ensures
            copy@ == self@,
    {
        Requirement {
            paths: match &self.paths {
                Some(paths) => Some(copy_strings(paths)),
                None => None,
            },
        }
    }
}

impl Clone for Parameter {
    fn clone(&self) -> (copy: Parameter)
        ensures
            copy@ == self@,
    {
        match self {
            Parameter::ArrayOfMediaSegmentsParam { id, default, value } => {
                Parameter::ArrayOfMediaSegmentsParam {
                    id: id.clone(),
                    default: match default {
                        Some(segments) => Some(copy_segments(segments)),
                        None => None,
                    },
                    value: match value {
                        Some(segments) => Some(copy_segments(segments)),
                        None => None,
                    },
                }
            },
            Parameter::ArrayOfStringsParam { id, default, value } => {
                Parameter::ArrayOfStringsParam {
                    id: id.clone(),
                    default: match default {
                        Some(strings) => Some(copy_strings(strings)),
                        None => None,
                    },
                    value: match value {
                        Some(strings) => Some(copy_strings(strings)),
                        None => None,
                    },
                }
            },
            Parameter::BooleanParam { id, default, value } => Parameter::BooleanParam {
                id: id.clone(),
                default: *default,
                value: *value,
            },
            Parameter::CredentialParam { id, default, value } => Parameter::CredentialParam {
                id: id.clone(),
                default: copy_text_slot(default),
                value: copy_text_slot(value),
            },
            Parameter::IntegerParam { id, default, value } => Parameter::IntegerParam {
                id: id.clone(),
                default: *default,
                value: *value,
            },
            Parameter::RequirementParam { id, default, value } => Parameter::RequirementParam {
                id: id.clone(),
                default: match default {
                    Some(requirement) => Some(requirement.clone()),
                    None => None,
                },
                value: match value {
                    Some(requirement) => Some(requirement.clone()),
                    None => None,
                },
            },
            Parameter::StringParam { id, default, value } => Parameter::StringParam {
                id: id.clone(),
                default: copy_text_slot(default),
                value: copy_text_slot(value),
            },
            Parameter::OtherParam { id, kind, default, value } => Parameter::OtherParam {
                id: id.clone(),
                kind: kind.clone(),
                default: match default {
                    Some(document) => Some(document.clone()),
                    None => None,
                },
                value: match value {
                    Some(document) => Some(document.clone()),
                    None => None,
                },
            },
        }
    }
}

/// A copy of `parameters`.
pub fn copy_parameters(parameters: &Vec<Parameter>) -> (copy: Vec<Parameter>)
    ensures
        copy.deep_view() == parameters.deep_view(),
{
    let mut copy: Vec<Parameter> = Vec::new();
    let mut i: usize = 0;
    while i < parameters.len()
        invariant
            i <= parameters.len(),
            copy.len() == i,
            forall|k: int| 0 <= k < i ==> #[trigger] copy[k]@ == parameters[k]@,
        decreases parameters.len() - i,
    {
        copy.push(parameters[i].clone());
        i = i + 1;
    }
    assert(copy.deep_view() =~= parameters.deep_view());
    copy
}

impl Parameter {
    /// The identifier of the parameter.
    pub fn get_id(&self) -> (id: &String)
        ensures
            id@ == self@.id,
    {
        match self {
            Parameter::ArrayOfMediaSegmentsParam { id, .. } => id,
            Parameter::ArrayOfStringsParam { id, .. } => id,
            Parameter::BooleanParam { id, .. } => id,
            Parameter::CredentialParam { id, .. } => id,
            Parameter::IntegerParam { id, .. } => id,
            Parameter::RequirementParam { id, .. } => id,
            Parameter::StringParam { id, .. } => id,
            Parameter::OtherParam { id, .. } => id,
        }
    }

    /// The name of the parameter's type on the wire.
    pub fn get_kind(&self) -> (kind: String)
        ensures
            kind@ == self@.kind,
    {
        match self {
            Parameter::ArrayOfMediaSegmentsParam { .. } => String::from_str(
                "array_of_media_segments",
            ),
            Parameter::ArrayOfStringsParam { .. } => String::from_str("array_of_strings"),
            Parameter::BooleanParam { .. } => String::from_str("boolean"),
            Parameter::CredentialParam { .. } => String::from_str("credential"),
            Parameter::IntegerParam { .. } => String::from_str("integer"),
            Parameter::RequirementParam { .. } => String::from_str("requirements"),
            Parameter::StringParam { .. } => String::from_str("string"),
            Parameter::OtherParam { kind, .. } => kind.clone(),
        }
    }

    /// Whether the parameter has a value or a default.
    pub fn has_value_or_default(&self) -> (has: bool)
        ensures
            has == self@.effective() is Some,
    {
        match self {
            Parameter::ArrayOfMediaSegmentsParam { default, value, .. } => value.is_some()
                || default.is_some(),
            Parameter::ArrayOfStringsParam { default, value, .. } => value.is_some()
                || default.is_some(),
            Parameter::BooleanParam { default, value, .. } => value.is_some() || default.is_some(),
            Parameter::CredentialParam { default, value, .. } => value.is_some()
                || default.is_some(),
            Parameter::IntegerParam { default, value, .. } => value.is_some() || default.is_some(),
            Parameter::RequirementParam { default, value, .. } => value.is_some()
                || default.is_some(),
            Parameter::StringParam { default, value, .. } => value.is_some() || default.is_some(),
            Parameter::OtherParam { default, value, .. } => value.is_some() || default.is_some(),
        }
    }
}

/// The first of `parameters` that is named `id`.
pub open spec fn find(parameters: Seq<ParameterView>, id: Seq<char>) -> Option<ParameterView>
    decreases parameters.len(),
{
    if parameters.len() == 0 {
        None
    } else if parameters[0].id == id {
        Some(parameters[0])
    } else {
        find(parameters.drop_first(), id)
    }
}

/// The model of what a typed read returns.
pub open spec fn outcome_view<T: DeepView>(outcome: Result<T, ParameterError>) -> Result<
    T::V,
    ParameterError,
> {
    match outcome {
        Ok(value) => Ok(value.deep_view()),
        Err(error) => Err(error),
    }
}

/// A type as which a parameter can be read.
pub trait ParameterValue: Wire {
    /// The value that a content of the type's own kind holds.
    spec fn held(content: Content) -> Option<<Self as DeepView>::V>;

    /// Reads the effective value of `parameter` as a value of this type.
    fn extract(parameter: &Parameter) -> (outcome: Result<Self, ParameterError>)
        ensures
            outcome_view(outcome) == match parameter@.effective() {
                Some(content) => read_with::<Self>(content, Self::held(content)),
                None => Err(ParameterError::Missing),
            },
    ;
}

/// How a content reads as a `T`, where `held` is what it holds as a
/// content of the kind of `T`: a raw document reads as the `T` it stands
/// for, where it stands for one; any other content as what it holds, and
/// not at all where it is of another kind.
pub open spec fn read_with<T: Wire>(content: Content, held: Option<<T as DeepView>::V>) -> Result<
    <T as DeepView>::V,
    ParameterError,
> {
    match content {
        Content::Raw(document) => match T::decoded(document) {
            Some(value) => Ok(value),
            None => Err(ParameterError::DecodeFailed),
        },
        _ => match held {
            Some(value) => Ok(value),
            None => Err(ParameterError::WrongType),
        },
    }
}

/// How a content reads as a `T`.
pub open spec fn read_as<T: ParameterValue>(content: Content) -> Result<
    <T as DeepView>::V,
    ParameterError,
> {
    read_with::<T>(content, T::held(content))
}

/// What a parameter is as a `T`: its value where it has one, else its
/// default, read as a `T`; `Missing` where it has neither.
pub open spec fn typed<T: ParameterValue>(parameter: ParameterView) -> Result<
    <T as DeepView>::V,
    ParameterError,
> {
    match parameter.effective() {
        Some(content) => read_as::<T>(content),
        None => Err(ParameterError::Missing),
    }
}

/// What the parameter named `id` is as a `T`; `Missing` where none has the name.
pub open spec fn lookup<T: ParameterValue>(parameters: Seq<ParameterView>, id: Seq<char>) -> Result<
    <T as DeepView>::V,
    ParameterError,
> {
    match find(parameters, id) {
        Some(parameter) => typed::<T>(parameter),
        None => Err(ParameterError::Missing),
    }
}

/// A parameter is read from its value where it has one, else from its
/// default, and is missing where it has neither.
pub proof fn lemma_typed_accessor<T: ParameterValue>(parameter: ParameterView)
    ensures
        parameter.value matches Some(content) ==> typed::<T>(parameter) == read_as::<T>(content),
        parameter.value is None ==> (parameter.default matches Some(content) ==> typed::<T>(
            parameter,
        ) == read_as::<T>(content)),
        parameter.value is None && parameter.default is None ==> typed::<T>(parameter) == Err::<
            <T as DeepView>::V,
            ParameterError,
        >(ParameterError::Missing),
{
}

/// Reads the parameter named `id` as a `T`.
pub fn get_parameter<T: ParameterValue>(parameters: &Vec<Parameter>, id: &str) -> (outcome: Result<
    T,
    ParameterError,
>)
    ensures
        outcome_view(outcome) == lookup::<T>(parameters.deep_view(), id@),
{
    let ghost all = parameters.deep_view();
    let key = String::from_str(id);
    let mut i: usize = 0;
    assert(all.skip(0) == all);
    while i < parameters.len()
        invariant
            i <= parameters.len(),
            all == parameters.deep_view(),
            key@ == id@,
            find(all, id@) == find(all.skip(i as int), id@),
        decreases parameters.len() - i,
    {
        assert(all.skip(i as int)[0] == parameters[i as int]@);
        assert(all.skip(i as int).drop_first() == all.skip(i + 1));
        if *parameters[i].get_id() == key {
            return T::extract(&parameters[i]);
        }
        i = i + 1;
    }
    Err(ParameterError::Missing)
}

/// Reads the raw document of a parameter of a kind of its own as a `T`.
fn extract_raw<T: Wire>(default: &Option<Json>, value: &Option<Json>) -> (outcome: Result<
    T,
    ParameterError,
>)
    ensures
        outcome_view(outcome) == match (if raw_content(*value) is Some {
            raw_content(*value)
        } else {
            raw_content(*default)
        }) {
            Some(content) => read_with::<T>(content, None),
            None => Err(ParameterError::Missing),
        },
{
    let effective = match value {
        Some(document) => Some(document),
        None => match default {
            Some(document) => Some(document),
            None => None,
        },
    };
    match effective {
        Some(document) => match T::from_json(document) {
            Some(read) => Ok(read),
            None => Err(ParameterError::DecodeFailed),
        },
        None => Err(ParameterError::Missing),
    }
}

/// Why a parameter of another kind than the one asked for cannot be read.
fn refusal(parameter: &Parameter) -> (error: ParameterError)
    ensures
        error == (if parameter@.effective() is Some {
            ParameterError::WrongType
        } else {
            ParameterError::Missing
        }),
{
    if parameter.has_value_or_default() {
        ParameterError::WrongType
    } else {
        ParameterError::Missing
    }
}

impl ParameterValue for String {
    open spec fn held(content: Content) -> Option<Seq<char>> {
        match content {
            Content::Text(text) => Some(text),
            _ => None,
        }
    }

    fn extract(parameter: &Parameter) -> (outcome: Result<String, ParameterError>) {
        match parameter {
            Parameter::StringParam { default, value, .. } => match (value, default) {
                (Some(text), _) => Ok(text.clone()),
                (None, Some(text)) => Ok(text.clone()),
                (None, None) => Err(ParameterError::Missing),
            },
            Parameter::OtherParam { default, value, .. } => extract_raw::<String>(default, value),
            _ => Err(refusal(parameter)),
        }
    }
}

impl ParameterValue for bool {
    open spec fn held(content: Content) -> Option<bool> {
        match content {
            Content::Boolean(flag) => Some(flag),
            _ => None,
        }
    }

    fn extract(parameter: &Parameter) -> (outcome: Result<bool, ParameterError>) {
        match parameter {
            Parameter::BooleanParam { default, value, .. } => match (value, default) {
                (Some(flag), _) => Ok(*flag),
                (None, Some(flag)) => Ok(*flag),
                (None, None) => Err(ParameterError::Missing),
            },
            Parameter::OtherParam { default, value, .. } => extract_raw::<bool>(default, value),
            _ => Err(refusal(parameter)),
        }
    }
}

impl ParameterValue for i64 {
    open spec fn held(content: Content) -> Option<i64> {
        match content {
            Content::Integer(number) => Some(number),
            _ => None,
        }
    }

    fn extract(parameter: &Parameter) -> (outcome: Result<i64, ParameterError>) {
        match parameter {
            Parameter::IntegerParam { default, value, .. } => match (value, default) {
                (Some(number), _) => Ok(*number),
                (None, Some(number)) => Ok(*number),
                (None, None) => Err(ParameterError::Missing),
            },
            Parameter::OtherParam { default, value, .. } => extract_raw::<i64>(default, value),
            _ => Err(refusal(parameter)),
        }
    }
}

impl ParameterValue for Credential {
    open spec fn held(content: Content) -> Option<CredentialView> {
        match content {
            Content::Credential(key) => Some(CredentialView { key }),
            _ => None,
        }
    }

    fn extract(parameter: &Parameter) -> (outcome: Result<Credential, ParameterError>) {
        match parameter {
            Parameter::CredentialParam { default, value, .. } => match (value, default) {
                (Some(key), _) => Ok(Credential { key: key.clone() }),
                (None, Some(key)) => Ok(Credential { key: key.clone() }),
                (None, None) => Err(ParameterError::Missing),
            },
            Parameter::OtherParam { default, value, .. } => extract_raw::<Credential>(
                default,
                value,
            ),
            _ => Err(refusal(parameter)),
        }
    }
}

impl ParameterValue for Requirement {
    open spec fn held(content: Content) -> Option<RequirementView> {
        match content {
            Content::Requirement(requirement) => Some(requirement),
            _ => None,
        }
    }

    fn extract(parameter: &Parameter) -> (outcome: Result<Requirement, ParameterError>) {
        match parameter {
            Parameter::RequirementParam { default, value, .. } => match (value, default) {
                (Some(requirement), _) => Ok(requirement.clone()),
                (None, Some(requirement)) => Ok(requirement.clone()),
                (None, None) => Err(ParameterError::Missing),
            },
            Parameter::OtherParam { default, value, .. } => extract_raw::<Requirement>(
                default,
                value,
            ),
            _ => Err(refusal(parameter)),
        }
    }
}

impl ParameterValue for Vec<String> {
    open spec fn held(content: Content) -> Option<Seq<Seq<char>>> {
        match content {
            Content::Strings(strings) => Some(strings),
            _ => None,
        }
    }

    fn extract(parameter: &Parameter) -> (outcome: Result<Vec<String>, ParameterError>) {
        match parameter {
            Parameter::ArrayOfStringsParam { default, value, .. } => match (value, default) {
                (Some(strings), _) => Ok(copy_strings(strings)),
                (None, Some(strings)) => Ok(copy_strings(strings)),
                (None, None) => Err(ParameterError::Missing),
            },
            Parameter::OtherParam { default, value, .. } => extract_raw::<Vec<String>>(
                default,
                value,
            ),
            _ => Err(refusal(parameter)),
        }
    }
}

impl ParameterValue for Vec<MediaSegment> {
    open spec fn held(content: Content) -> Option<Seq<MediaSegment>> {
        match content {
            Content::Segments(segments) => Some(segments),
            _ => None,
        }
    }

    fn extract(parameter: &Parameter) -> (outcome: Result<Vec<MediaSegment>, ParameterError>) {
        match parameter {
            Parameter::ArrayOfMediaSegmentsParam { default, value, .. } => match (value, default) {
                (Some(segments), _) => Ok(copy_segments(segments)),
                (None, Some(segments)) => Ok(copy_segments(segments)),
                (None, None) => Err(ParameterError::Missing),
            },
            Parameter::OtherParam { default, value, .. } => extract_raw::<Vec<MediaSegment>>(
                default,
                value,
            ),
            _ => Err(refusal(parameter)),
        }
    }
}

} // verus!
