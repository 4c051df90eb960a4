//! JSON documents: the form of every payload of a worker.
//!
//! Texts are read and written by `serde_json`; what is read is held as a
//! [`Json`] document, which the rest of the library takes apart and builds.

use serde_json::Value;
use vstd::prelude::*;

verus! {

/// One `key: value` entry of a JSON object.
#[derive(Debug, PartialEq, Eq)]
pub struct Member {
    pub key: String,
    pub value: Json,
}

/// A JSON number, in the three shapes that a JSON reader tells apart.
#[derive(Debug, PartialEq, Eq)]
pub enum Number {
    /// An integer that is not negative.
    Unsigned(u64),
    /// An integer, on the wire a negative one.
    Signed(i64),
    /// A number with a fraction or an exponent, kept as it is written.
    Float(String),
}

/// Mathematical model of a [`Number`].
pub enum NumberView {
    Unsigned(u64),
    Signed(i64),
    Float(Seq<char>),
}

impl View for Number {
    type V = NumberView;

    open spec fn view(&self) -> NumberView {
        match self {
            Number::Unsigned(n) => NumberView::Unsigned(*n),
            Number::Signed(n) => NumberView::Signed(*n),
            Number::Float(written) => NumberView::Float(written@),
        }
    }
}

impl Clone for Number {
    fn clone(&self) -> (copy: Number)
        ensures
            copy@ == self@,
    {
        match self {
            Number::Unsigned(n) => Number::Unsigned(*n),
            Number::Signed(n) => Number::Signed(*n),
            Number::Float(written) => Number::Float(written.clone()),
        }
    }
}

/// A JSON document.
#[derive(Debug, PartialEq, Eq)]
pub enum Json {
    Null,
    Bool(bool),
    Number(Number),
    Text(String),
    Array(Vec<Json>),
    Object(Vec<Member>),
}

/// Mathematical model of a [`Member`].
pub struct MemberView {
    pub key: Seq<char>,
    pub value: JsonView,
}

/// Mathematical model of a [`Json`] document.
pub enum JsonView {
    Null,
    Bool(bool),
    Number(NumberView),
    Text(Seq<char>),
    Array(Seq<JsonView>),
    Object(Seq<MemberView>),
}

impl View for Member {
    type V = MemberView;

    open spec fn view(&self) -> MemberView
        decreases self,
    {
        MemberView { key: self.key@, value: self.value@ }
    }
}

/// The models of the first `count` of `items`.
pub open spec fn array_view(items: Vec<Json>, count: nat) -> Seq<JsonView>
    decreases items, count,
{
    if count == 0 || count > items.len() {
        Seq::empty()
    } else {
        array_view(items, (count - 1) as nat).push(items[count - 1]@)
    }
}

/// The models of the first `count` of `members`.
pub open spec fn object_view(members: Vec<Member>, count: nat) -> Seq<MemberView>
    decreases members, count,
{
    if count == 0 || count > members.len() {
        Seq::empty()
    } else {
        object_view(members, (count - 1) as nat).push(members[count - 1]@)
    }
}

impl View for Json {
    type V = JsonView;

    open spec fn view(&self) -> JsonView
        decreases self,
    {
        match self {
            Json::Null => JsonView::Null,
            Json::Bool(b) => JsonView::Bool(*b),
            Json::Number(n) => JsonView::Number(n@),
            Json::Text(s) => JsonView::Text(s@),
            Json::Array(items) => JsonView::Array(array_view(*items, items.len() as nat)),
            Json::Object(members) => JsonView::Object(object_view(*members, members.len() as nat)),
        }
    }
}

/// The model of an array holds the models of its elements, in their order.
pub proof fn lemma_array_view(items: Vec<Json>, count: nat)
    requires
        count <= items.len(),
    ensures
        array_view(items, count).len() == count,
        forall|i: int| 0 <= i < count ==> #[trigger] array_view(items, count)[i] == items[i]@,
    decreases count,
{
    if count > 0 {
        lemma_array_view(items, (count - 1) as nat);
        assert(array_view(items, count) == array_view(items, (count - 1) as nat).push(
            items[count - 1]@,
        ));
    } else {
        assert(array_view(items, count) == Seq::<JsonView>::empty());
    }
}

/// The model of an object holds the models of its members, in their order.
pub proof fn lemma_object_view(members: Vec<Member>, count: nat)
    requires
        count <= members.len(),
    ensures
        object_view(members, count).len() == count,
        forall|i: int| 0 <= i < count ==> #[trigger] object_view(members, count)[i] == members[i]@,
    decreases count,
{
    if count > 0 {
        lemma_object_view(members, (count - 1) as nat);
        assert(object_view(members, count) == object_view(members, (count - 1) as nat).push(
            members[count - 1]@,
        ));
    } else {
        assert(object_view(members, count) == Seq::<MemberView>::empty());
    }
}

/// The model of a document has the shape of the document.
pub proof fn lemma_json_view(document: Json)
    ensures
        document is Null <==> document@ is Null,
        document matches Json::Bool(b) ==> document@ == JsonView::Bool(b),
        document matches Json::Number(n) ==> document@ == JsonView::Number(n@),
        document matches Json::Text(s) ==> document@ == JsonView::Text(s@),
        document matches Json::Array(items) ==> document@ is Array && document@->Array_0.len()
            == items.len() && forall|i: int|
            0 <= i < items.len() ==> #[trigger] document@->Array_0[i] == items[i]@,
        document matches Json::Object(members) ==> document@ is Object
            && document@->Object_0.len() == members.len() && forall|i: int|
            0 <= i < members.len() ==> #[trigger] document@->Object_0[i] == members[i]@,
{
    match document {
        Json::Array(items) => {
            lemma_array_view(items, items.len() as nat);
        },
        Json::Object(members) => {
            lemma_object_view(members, members.len() as nat);
        },
        _ => {},
    }
}

/// The model of a member holds the key and the model of the value.
pub proof fn lemma_member_view(member: Member)
    ensures
        member@ == (MemberView { key: member.key@, value: member.value@ }),
{
}

impl Clone for Member {
    fn clone(&self) -> (copy: Member)
        ensures
            copy@ == self@,
        decreases self,
    {
        let copy = Member { key: self.key.clone(), value: self.value.clone() };
        proof {
            lemma_member_view(*self);
            lemma_member_view(copy);
        }
        copy
    }
}

impl Clone for Json {
    fn clone(&self) -> (copy: Json)
        ensures
            copy@ == self@,
        decreases self,
    {
        proof {
            lemma_json_view(*self);
        }
        match self {
            Json::Null => Json::Null,
            Json::Bool(b) => Json::Bool(*b),
            Json::Number(n) => Json::Number(n.clone()),
            Json::Text(s) => Json::Text(s.clone()),
            Json::Array(items) => {
                let mut copies: Vec<Json> = Vec::new();
                let mut i: usize = 0;
                while i < items.len()
                    invariant
                        *self == Json::Array(*items),
                        i <= items.len(),
                        copies.len() == i,
                        forall|k: int| 0 <= k < i ==> #[trigger] copies[k]@ == items[k]@,
                    decreases items.len() - i,
                {
                    assert(decreases_to!(*self => self->Array_0[i as int]));
                    copies.push(items[i].clone());
                    i = i + 1;
                }
                let copy = Json::Array(copies);
                proof {
                    lemma_json_view(copy);
                    assert(copy@->Array_0 =~= self@->Array_0);
                }
                copy
            },
            Json::Object(members) => {
                let mut copies: Vec<Member> = Vec::new();
                let mut i: usize = 0;
                while i < members.len()
                    invariant
                        *self == Json::Object(*members),
                        i <= members.len(),
                        copies.len() == i,
                        forall|k: int| 0 <= k < i ==> #[trigger] copies[k]@ == members[k]@,
                    decreases members.len() - i,
                {
                    assert(decreases_to!(*self => self->Object_0[i as int]));
                    copies.push(members[i].clone());
                    i = i + 1;
                }
                let copy = Json::Object(copies);
                proof {
                    lemma_json_view(copy);
                    assert(copy@->Object_0 =~= self@->Object_0);
                }
                copy
            },
        }
    }
}

impl DeepView for Member {
    type V = MemberView;

    open spec fn deep_view(&self) -> MemberView {
        self@
    }
}

impl DeepView for Json {
    type V = JsonView;

    open spec fn deep_view(&self) -> JsonView {
        self@
    }
}

/// Makes `serde_json::Value` known to the verifier, as a type of which it
/// sees nothing.
#[verifier::external_type_specification]
#[verifier::external_body]
pub struct ExValue(Value);

/// Names what `serde_json::from_str` makes of a text: the document it
/// reads, or, where it rejects the text, its error in `Debug` form.
pub uninterp spec fn parsed(text: Seq<char>) -> Result<JsonView, Seq<char>>;

/// Names the text that `serde_json::to_string` writes for a document.
pub uninterp spec fn rendered(document: JsonView) -> Seq<char>;

/// Copies a `serde_json::Value` into a document, variant by variant. A
/// number comes as a `u64` where it is one, else as an `i64` where it is
/// one, else as the text that `serde_json` writes for it.
#[verifier::external_body]
fn from_value(value: &Value) -> (document: Json) {
    match value {
        Value::Null => Json::Null,
        Value::Bool(b) => Json::Bool(*b),
        Value::Number(n) => Json::Number(match (n.as_u64(), n.as_i64()) {
            (Some(u), _) => Number::Unsigned(u),
            (_, Some(i)) => Number::Signed(i),
            _ => Number::Float(n.to_string()),
        }),
        Value::String(s) => Json::Text(s.clone()),
        Value::Array(items) => Json::Array(items.iter().map(from_value).collect()),
        Value::Object(map) => Json::Object(
            map.iter().map(|(k, v)| Member { key: k.clone(), value: from_value(v) }).collect(),
        ),
    }
}

/// Copies a document into a `serde_json::Value`, variant by variant. A
/// number kept as text is read back by `serde_json::from_str`, and is
/// `null` where that fails.
#[verifier::external_body]
fn to_value(document: &Json) -> (value: Value) {
    match document {
        Json::Null => Value::Null,
        Json::Bool(b) => Value::from(*b),
        Json::Number(Number::Unsigned(n)) => Value::from(*n),
        Json::Number(Number::Signed(n)) => Value::from(*n),
        Json::Number(Number::Float(written)) => serde_json::from_str(written).unwrap_or_default(),
        Json::Text(s) => Value::from(s.as_str()),
        Json::Array(items) => Value::Array(items.iter().map(to_value).collect()),
        Json::Object(members) => Value::Object(
            members.iter().map(|m| (m.key.clone(), to_value(&m.value))).collect(),
        ),
    }
}

/// Calls `serde_json::from_str` for a `serde_json::Value`. The contract
/// gives the outcome a name and says no more of it.
#[verifier::external_body]
fn parse_text(text: &str) -> (outcome: Result<Json, String>)
    ensures
        outcome_view(outcome) == parsed(text@),
{
    match serde_json::from_str::<Value>(text) {
        Ok(value) => Ok(from_value(&value)),
        Err(error) => Err(format!("{:?}", error)),
    }
}

/// Calls `serde_json::to_string` on the document as a `serde_json::Value`.
/// The contract gives the text a name and says no more of it.
#[verifier::external_body]
fn render_text(document: &Json) -> (text: String)
    ensures
        text@ == rendered(document@),
{
    serde_json::to_string(&to_value(document)).unwrap_or_default()
}

/// The model of what reading a text returns.
pub open spec fn outcome_view(outcome: Result<Json, String>) -> Result<JsonView, Seq<char>> {
    match outcome {
        Ok(document) => Ok(document@),
        Err(account) => Err(account@),
    }
}

impl Json {
    /// Reads a document from a text.
    pub fn parse(text: &str) -> (outcome: Result<Json, String>)
        ensures
            outcome_view(outcome) == parsed(text@),
    {
        parse_text(text)
    }

    /// Writes the document as a text.
    pub fn to_text(&self) -> (text: String)
        ensures
            text@ == rendered(self@),
    {
        render_text(self)
    }
}

/// The value of the last member of `members` that has the key `key`.
pub open spec fn member(members: Seq<MemberView>, key: Seq<char>) -> Option<JsonView>
    decreases members.len(),
{
    if members.len() == 0 {
        None
    } else if members.last().key == key {
        Some(members.last().value)
    } else {
        member(members.drop_last(), key)
    }
}

/// What a document holds under `key`: nothing unless it is an object with
/// that key and with something else than `null` under it.
pub open spec fn field(document: JsonView, key: Seq<char>) -> Option<JsonView> {
    match document {
        JsonView::Object(members) => match member(members, key) {
            Some(JsonView::Null) => None,
            found => found,
        },
        _ => None,
    }
}

/// Among members of which one was added last, a key is that of the last
/// one or is looked for among the others.
pub proof fn lemma_member_push(members: Seq<MemberView>, last: MemberView, key: Seq<char>)
    ensures
        member(members.push(last), key) == if last.key == key {
            Some(last.value)
        } else {
            member(members, key)
        },
{
    assert(members.push(last).drop_last() =~= members);
}

/// Whether `text` is the text `literal`.
pub fn text_is(text: &String, literal: &str) -> (same: bool)
    ensures
        same == (text@ == literal@),
{
    *text == String::from_str(literal)
}

impl Json {
    /// What the document holds under `key`: the value of the last member
    /// with that key, unless it is `null`.
    pub fn get(&self, key: &str) -> (found: Option<&Json>)
        ensures
            found.deep_view() == field(self@, key@),
    {
        match self {
            Json::Object(members) => {
                proof {
                    lemma_json_view(*self);
                }
                let ghost listed = self@->Object_0;
                let mut i: usize = members.len();
                assert(listed.take(i as int) == listed);
                while i > 0
                    invariant
                        i <= members.len(),
                        self@ == JsonView::Object(listed),
                        listed.len() == members.len(),
                        forall|k: int|
                            0 <= k < members.len() ==> #[trigger] listed[k] == members[k]@,
                        member(listed, key@) == member(listed.take(i as int), key@),
                    decreases i,
                {
                    i = i - 1;
                    assert(listed.take(i + 1).drop_last() == listed.take(i as int));
                    assert(listed.take(i + 1).last() == members[i as int]@);
                    proof {
                        lemma_member_view(members[i as int]);
                        lemma_json_view(members[i as int].value);
                    }
                    if text_is(&members[i].key, key) {
                        return match &members[i].value {
                            Json::Null => None,
                            value => Some(value),
                        };
                    }
                }
                None
            },
            _ => None,
        }
    }

    /// The number, where the document is an integer that is not negative.
    pub fn as_unsigned(&self) -> (number: Option<u64>)
        ensures
            number == match self@ {
                JsonView::Number(NumberView::Unsigned(n)) => Some(n),
                _ => None,
            },
    {
        proof {
            lemma_json_view(*self);
        }
        match self {
            Json::Number(Number::Unsigned(n)) => Some(*n),
            _ => None,
        }
    }

    /// The text, where the document is one.
    pub fn as_text(&self) -> (text: Option<&String>)
        ensures
            text.deep_view() == match self@ {
                JsonView::Text(t) => Some(t),
                _ => None,
            },
    {
        proof {
            lemma_json_view(*self);
        }
        match self {
            Json::Text(t) => Some(t),
            _ => None,
        }
    }

    /// The elements, where the document is an array.
    pub fn as_array(&self) -> (items: Option<&Vec<Json>>)
        ensures
            match items {
                Some(items) => self@ == JsonView::Array(items.deep_view()),
                None => !(self@ is Array),
            },
    {
        proof {
            lemma_json_view(*self);
        }
        match self {
            Json::Array(items) => {
                assert(self@->Array_0 =~= items.deep_view());
                Some(items)
            },
            _ => None,
        }
    }

    /// The array of `items`.
    pub fn array(items: Vec<Json>) -> (document: Json)
        ensures
            document@ == JsonView::Array(items.deep_view()),
    {
        let document = Json::Array(items);
        proof {
            lemma_json_view(document);
            assert(document@->Array_0 =~= items.deep_view());
        }
        document
    }

    /// The object of `members`.
    pub fn object(members: Vec<Member>) -> (document: Json)
        ensures
            document@ == JsonView::Object(members.deep_view()),
    {
        let document = Json::Object(members);
        proof {
            lemma_json_view(document);
            assert(document@->Object_0 =~= members.deep_view());
        }
        document
    }

    /// The text `text`.
    pub fn text(text: &str) -> (document: Json)
        ensures
            document@ == JsonView::Text(text@),
    {
        Json::Text(String::from_str(text))
    }

    /// The integer `number`.
    pub fn unsigned(number: u64) -> (document: Json)
        ensures
            document@ == JsonView::Number(NumberView::Unsigned(number)),
    {
        Json::Number(Number::Unsigned(number))
    }
}

impl Member {
    /// The member with `value` under `key`.
    pub fn new(key: &str, value: Json) -> (member: Member)
        ensures
            member@ == (MemberView { key: key@, value: value@ }),
    {
        Member { key: String::from_str(key), value }
    }
}

/// An object of one member.
pub open spec fn object_of_one(key: Seq<char>, value: JsonView) -> JsonView {
    JsonView::Object(Seq::empty().push(MemberView { key, value }))
}

/// An object of two members.
pub open spec fn object_of_two(
    first: Seq<char>,
    first_value: JsonView,
    second: Seq<char>,
    second_value: JsonView,
) -> JsonView {
    JsonView::Object(
        Seq::empty().push(MemberView { key: first, value: first_value }).push(
            MemberView { key: second, value: second_value },
        ),
    )
}

/// The text that a document holds under `key`.
pub open spec fn text_field(document: JsonView, key: Seq<char>) -> Option<Seq<char>> {
    match field(document, key) {
        Some(JsonView::Text(held)) => Some(held),
        _ => None,
    }
}

/// Reads the text that `document` holds under `key`.
pub fn read_text(document: &Json, key: &str) -> (text: Option<String>)
    ensures
        text.deep_view() == text_field(document@, key@),
{
    match document.get(key) {
        Some(held) => match held.as_text() {
            Some(text) => Some(text.clone()),
            None => None,
        },
        None => None,
    }
}

} // verus!
