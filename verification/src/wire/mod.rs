//! The wire format: how values are written as JSON documents, and how
//! they are read back from them.

pub mod job;
pub mod parameter;

use crate::error::{MessageError, MessageErrorView};
use crate::json::{
    field, lemma_json_view, lemma_member_push, member, parsed, rendered, Json, JsonView, Member,
    MemberView, Number, NumberView,
};
use vstd::prelude::*;

verus! {

/// A type of values with a form on the wire.
pub trait Wire: Sized + DeepView {
    /// The values that the type is meant to hold.
    spec fn sound(value: <Self as DeepView>::V) -> bool;

    /// The document that stands for a value.
    spec fn encoded(value: <Self as DeepView>::V) -> JsonView;

    /// The value that a document stands for, if it stands for one.
    spec fn decoded(document: JsonView) -> Option<<Self as DeepView>::V>;

    /// Writes the value as a document.
    fn to_json(&self) -> (document: Json)
        ensures
            document@ == Self::encoded(self.deep_view()),
    ;

    /// Reads a value from a document; none where the document stands for
    /// none.
    fn from_json(document: &Json) -> (value: Option<Self>)
        ensures
            value.deep_view() == Self::decoded(document@),
    ;

    /// What was written is read back as it was, and is never `null`.
    proof fn lemma_round_trip(value: <Self as DeepView>::V)
        requires
            Self::sound(value),
        ensures
            Self::decoded(Self::encoded(value)) == Some(value),
            !(Self::encoded(value) is Null),
    ;

    /// What is read is sound.
    proof fn lemma_decoded_is_sound(document: JsonView)
        ensures
            Self::decoded(document) matches Some(value) ==> Self::sound(value),
    ;
}

impl Wire for String {
    open spec fn sound(value: Seq<char>) -> bool {
        true
    }

    open spec fn encoded(value: Seq<char>) -> JsonView {
        JsonView::Text(value)
    }

    open spec fn decoded(document: JsonView) -> Option<Seq<char>> {
        match document {
            JsonView::Text(text) => Some(text),
            _ => None,
        }
    }

    fn to_json(&self) -> (document: Json) {
        Json::Text(self.clone())
    }

    fn from_json(document: &Json) -> (value: Option<String>) {
        match document.as_text() {
            Some(text) => Some(text.clone()),
            None => None,
        }
    }

    proof fn lemma_round_trip(value: Seq<char>) {
    }

    proof fn lemma_decoded_is_sound(document: JsonView) {
    }
}

impl Wire for bool {
    open spec fn sound(value: bool) -> bool {
        true
    }

    open spec fn encoded(value: bool) -> JsonView {
        JsonView::Bool(value)
    }

    open spec fn decoded(document: JsonView) -> Option<bool> {
        match document {
            JsonView::Bool(b) => Some(b),
            _ => None,
        }
    }

    fn to_json(&self) -> (document: Json) {
        Json::Bool(*self)
    }

    fn from_json(document: &Json) -> (value: Option<bool>) {
        proof {
            lemma_json_view(*document);
        }
        match document {
            Json::Bool(b) => Some(*b),
            _ => None,
        }
    }

    proof fn lemma_round_trip(value: bool) {
    }

    proof fn lemma_decoded_is_sound(document: JsonView) {
    }
}

impl Wire for u64 {
    open spec fn sound(value: u64) -> bool {
        true
    }

    open spec fn encoded(value: u64) -> JsonView {
        JsonView::Number(NumberView::Unsigned(value))
    }

    open spec fn decoded(document: JsonView) -> Option<u64> {
        match document {
            JsonView::Number(NumberView::Unsigned(n)) => Some(n),
            _ => None,
        }
    }

    fn to_json(&self) -> (document: Json) {
        Json::Number(Number::Unsigned(*self))
    }

    fn from_json(document: &Json) -> (value: Option<u64>) {
        document.as_unsigned()
    }

    proof fn lemma_round_trip(value: u64) {
    }

    proof fn lemma_decoded_is_sound(document: JsonView) {
    }
}

impl Wire for i64 {
    open spec fn sound(value: i64) -> bool {
        true
    }

    /// An integer is written as a signed number only where it is negative.
    open spec fn encoded(value: i64) -> JsonView {
        if value >= 0 {
            JsonView::Number(NumberView::Unsigned(value as u64))
        } else {
            JsonView::Number(NumberView::Signed(value))
        }
    }

    open spec fn decoded(document: JsonView) -> Option<i64> {
        match document {
            JsonView::Number(NumberView::Unsigned(n)) if n <= i64::MAX => Some(n as i64),
            JsonView::Number(NumberView::Signed(n)) => Some(n),
            _ => None,
        }
    }

    fn to_json(&self) -> (document: Json) {
        if *self >= 0 {
            Json::Number(Number::Unsigned(*self as u64))
        } else {
            Json::Number(Number::Signed(*self))
        }
    }

    fn from_json(document: &Json) -> (value: Option<i64>) {
        proof {
            lemma_json_view(*document);
        }
        match document {
            Json::Number(Number::Unsigned(n)) => if *n <= i64::MAX as u64 {
                Some(*n as i64)
            } else {
                None
            },
            Json::Number(Number::Signed(n)) => Some(*n),
            _ => None,
        }
    }

    proof fn lemma_round_trip(value: i64) {
    }

    proof fn lemma_decoded_is_sound(document: JsonView) {
    }
}

/// Whether every one of `items` stands for a `T`.
pub open spec fn all_decoded<T: Wire>(items: Seq<JsonView>) -> bool {
    forall|i: int| 0 <= i < items.len() ==> (#[trigger] T::decoded(items[i])) is Some
}

/// The array for `values`, element by element.
pub open spec fn encoded_array<T: Wire>(values: Seq<<T as DeepView>::V>) -> JsonView {
    JsonView::Array(Seq::new(values.len(), |i: int| T::encoded(values[i])))
}

/// The values that an array stands for, if each element stands for one.
pub open spec fn decoded_array<T: Wire>(document: JsonView) -> Option<Seq<<T as DeepView>::V>> {
    match document {
        JsonView::Array(items) if all_decoded::<T>(items) => Some(
            Seq::new(items.len(), |i: int| T::decoded(items[i])->0),
        ),
        _ => None,
    }
}

/// Writes `values` as an array.
pub fn array_to_json<T: Wire>(values: &Vec<T>) -> (document: Json)
    ensures
        document@ == encoded_array::<T>(values.deep_view()),
{
    let mut items: Vec<Json> = Vec::new();
    let mut i: usize = 0;
    while i < values.len()
        invariant
            i <= values.len(),
            items.len() == i,
            forall|k: int| 0 <= k < i ==> #[trigger] items[k]@ == T::encoded(values[k].deep_view()),
        decreases values.len() - i,
    {
        items.push(values[i].to_json());
        i = i + 1;
    }
    let document = Json::array(items);
    assert(document@->Array_0 =~= encoded_array::<T>(values.deep_view())->Array_0);
    document
}

/// Reads an array of values.
pub fn array_from_json<T: Wire>(document: &Json) -> (values: Option<Vec<T>>)
    ensures
        values.deep_view() == decoded_array::<T>(document@),
{
    match document.as_array() {
        None => None,
        Some(items) => {
            let ghost elements = items.deep_view();
            let mut values: Vec<T> = Vec::new();
            let mut i: usize = 0;
            while i < items.len()
                invariant
                    i <= items.len(),
                    elements == items.deep_view(),
                    document@ == JsonView::Array(elements),
                    values.len() == i,
                    forall|k: int|
                        0 <= k < i ==> (#[trigger] T::decoded(elements[k])) == Some(
                            values[k].deep_view(),
                        ),
                decreases items.len() - i,
            {
                match T::from_json(&items[i]) {
                    Some(value) => {
                        values.push(value);
                    },
                    None => {
                        assert(T::decoded(elements[i as int]) is None);
                        return None;
                    },
                }
                i = i + 1;
            }
            assert(all_decoded::<T>(elements));
            assert(values.deep_view() =~= decoded_array::<T>(document@)->0);
            Some(values)
        },
    }
}

/// An array that was written is read back as it was.
pub proof fn lemma_array_round_trip<T: Wire>(values: Seq<<T as DeepView>::V>)
    requires
        forall|i: int| 0 <= i < values.len() ==> T::sound(#[trigger] values[i]),
    ensures
        decoded_array::<T>(encoded_array::<T>(values)) == Some(values),
{
    let items = encoded_array::<T>(values)->Array_0;
    assert forall|i: int| 0 <= i < items.len() implies (#[trigger] T::decoded(items[i])) == Some(
        values[i],
    ) by {
        T::lemma_round_trip(values[i]);
    }
    assert(decoded_array::<T>(encoded_array::<T>(values))->0 =~= values);
}

/// The elements of an array that is read are sound.
pub proof fn lemma_decoded_array_is_sound<T: Wire>(document: JsonView)
    ensures
        decoded_array::<T>(document) matches Some(values) ==> forall|i: int|
            0 <= i < values.len() ==> T::sound(#[trigger] values[i]),
{
    if let Some(values) = decoded_array::<T>(document) {
        let items = document->Array_0;
        assert forall|i: int| 0 <= i < values.len() implies T::sound(#[trigger] values[i]) by {
            T::lemma_decoded_is_sound(items[i]);
        }
    }
}

impl<T: Wire> Wire for Vec<T> {
    open spec fn sound(values: Seq<<T as DeepView>::V>) -> bool {
        forall|i: int| 0 <= i < values.len() ==> T::sound(#[trigger] values[i])
    }

    open spec fn encoded(values: Seq<<T as DeepView>::V>) -> JsonView {
        encoded_array::<T>(values)
    }

    open spec fn decoded(document: JsonView) -> Option<Seq<<T as DeepView>::V>> {
        decoded_array::<T>(document)
    }

    fn to_json(&self) -> (document: Json) {
        array_to_json::<T>(self)
    }

    fn from_json(document: &Json) -> (values: Option<Vec<T>>) {
        array_from_json::<T>(document)
    }

    proof fn lemma_round_trip(values: Seq<<T as DeepView>::V>) {
        lemma_array_round_trip::<T>(values);
    }

    proof fn lemma_decoded_is_sound(document: JsonView) {
        lemma_decoded_array_is_sound::<T>(document);
    }
}

impl Wire for Json {
    /// A document that stands for itself must not be `null`, which on the
    /// wire stands for nothing.
    open spec fn sound(document: JsonView) -> bool {
        !(document is Null)
    }

    open spec fn encoded(document: JsonView) -> JsonView {
        document
    }

    open spec fn decoded(document: JsonView) -> Option<JsonView> {
        if document is Null {
            None
        } else {
            Some(document)
        }
    }

    fn to_json(&self) -> (document: Json) {
        self.clone()
    }

    fn from_json(document: &Json) -> (value: Option<Json>) {
        proof {
            lemma_json_view(*document);
        }
        match document {
            Json::Null => None,
            _ => Some(document.clone()),
        }
    }

    proof fn lemma_round_trip(document: JsonView) {
    }

    proof fn lemma_decoded_is_sound(document: JsonView) {
    }
}

impl DeepView for Number {
    type V = NumberView;

    open spec fn deep_view(&self) -> NumberView {
        self@
    }
}

impl Wire for Number {
    open spec fn sound(number: NumberView) -> bool {
        true
    }

    open spec fn encoded(number: NumberView) -> JsonView {
        JsonView::Number(number)
    }

    open spec fn decoded(document: JsonView) -> Option<NumberView> {
        match document {
            JsonView::Number(number) => Some(number),
            _ => None,
        }
    }

    fn to_json(&self) -> (document: Json) {
        Json::Number(self.clone())
    }

    fn from_json(document: &Json) -> (number: Option<Number>) {
        proof {
            lemma_json_view(*document);
        }
        match document {
            Json::Number(number) => Some(number.clone()),
            _ => None,
        }
    }

    proof fn lemma_round_trip(number: NumberView) {
    }

    proof fn lemma_decoded_is_sound(document: JsonView) {
    }
}

/// What a document holds under `key` as a `T`: nothing where it holds
/// nothing there; no reading at all where what it holds is no `T`.
pub open spec fn slot<T: Wire>(document: JsonView, key: Seq<char>) -> Option<
    Option<<T as DeepView>::V>,
> {
    match field(document, key) {
        Some(held) => match T::decoded(held) {
            Some(value) => Some(Some(value)),
            None => None,
        },
        None => Some(None),
    }
}

/// Reads what `document` holds under `key` as a `T`.
pub fn read_slot<T: Wire>(document: &Json, key: &str) -> (read: Option<Option<T>>)
    ensures
        read.deep_view() == slot::<T>(document@, key@),
{
    match document.get(key) {
        Some(held) => match T::from_json(held) {
            Some(value) => Some(Some(value)),
            None => None,
        },
        None => Some(None),
    }
}

/// `members` with one more for `value` under `key`, if there is a value.
pub open spec fn with_slot<T: Wire>(
    members: Seq<MemberView>,
    key: Seq<char>,
    value: Option<<T as DeepView>::V>,
) -> Seq<MemberView> {
    match value {
        Some(value) => members.push(MemberView { key, value: T::encoded(value) }),
        None => members,
    }
}

/// Adds a member for `value` under `key` to `members`, if there is a value.
pub fn write_slot<T: Wire>(members: &mut Vec<Member>, key: &str, value: &Option<T>)
    ensures
        final(members).deep_view() == with_slot::<T>(
            old(members).deep_view(),
            key@,
            value.deep_view(),
        ),
{
    let ghost before = members.deep_view();
    match value {
        Some(value) => {
            members.push(Member::new(key, value.to_json()));
            assert(members.deep_view() =~= before.push(
                MemberView { key: key@, value: T::encoded(value.deep_view()) },
            ));
        },
        None => {},
    }
}

/// A slot that was written is read back as it was, and a slot written
/// under another key is not in the way.
pub proof fn lemma_slot_round_trip<T: Wire>(
    members: Seq<MemberView>,
    key: Seq<char>,
    value: Option<<T as DeepView>::V>,
    other: Seq<char>,
)
    requires
        value matches Some(held) ==> T::sound(held),
        value is None ==> member(members, key) is None,
        other != key,
    ensures
        slot::<T>(JsonView::Object(with_slot::<T>(members, key, value)), key) == Some(value),
        member(with_slot::<T>(members, key, value), other) == member(members, other),
{
    match value {
        Some(held) => {
            T::lemma_round_trip(held);
            lemma_member_push(members, MemberView { key, value: T::encoded(held) }, key);
            lemma_member_push(members, MemberView { key, value: T::encoded(held) }, other);
        },
        None => {},
    }
}

/// The error with which a text that cannot be read is refused.
pub open spec fn unreadable(account: Seq<char>) -> MessageErrorView {
    MessageErrorView::RuntimeError("unable to parse input message: "@ + account)
}

/// What the text of a payload is read as: the value that the document in
/// the text stands for; an error with the account of the JSON reader where
/// the text is no document; an error where the document is no `T`.
pub open spec fn value_of_text<T: Wire>(text: Seq<char>) -> Result<
    <T as DeepView>::V,
    MessageErrorView,
> {
    match parsed(text) {
        Ok(document) => match T::decoded(document) {
            Some(value) => Ok(value),
            None => Err(unreadable("the document does not have the expected form"@)),
        },
        Err(account) => Err(unreadable(account)),
    }
}

/// The model of what reading a payload returns.
pub open spec fn read_view<T: DeepView>(outcome: Result<T, MessageError>) -> Result<
    T::V,
    MessageErrorView,
> {
    match outcome {
        Ok(value) => Ok(value.deep_view()),
        Err(error) => Err(error@),
    }
}

/// What a document read from a text is as a `T`.
pub fn value_of_document<T: Wire>(read: Result<Json, String>) -> (outcome: Result<T, MessageError>)
    ensures
        read_view(outcome) == match read {
            Ok(document) => match T::decoded(document@) {
                Some(value) => Ok(value),
                None => Err(unreadable("the document does not have the expected form"@)),
            },
            Err(account) => Err(unreadable(account@)),
        },
{
    match read {
        Ok(document) => match T::from_json(&document) {
            Some(value) => Ok(value),
            None => Err(
                MessageError::RuntimeError(
                    String::from_str("unable to parse input message: ").concat(
                        "the document does not have the expected form",
                    ),
                ),
            ),
        },
        Err(account) => Err(
            MessageError::RuntimeError(
                String::from_str("unable to parse input message: ").concat(account.as_str()),
            ),
        ),
    }
}

/// Reads a value from the text of a payload.
pub fn from_text<T: Wire>(text: &str) -> (outcome: Result<T, MessageError>)
    ensures
        read_view(outcome) == value_of_text::<T>(text@),
{
    value_of_document::<T>(Json::parse(text))
}

/// Writes a value as the text of a payload.
pub fn to_text<T: Wire>(value: &T) -> (text: String)
    ensures
        text@ == rendered(T::encoded(value.deep_view())),
{
    value.to_json().to_text()
}

} // verus!
