//! Parameters as texts: the map from the names of parameters to their
//! effective values, each written as a text.

use crate::job::{Job, JobResult};
use crate::json::{rendered, Json, JsonView, Member, MemberView};
use crate::parameter::{Content, Parameter, ParameterView};
use crate::wire::parameter::encoded_content;
use crate::wire::Wire;
use vstd::prelude::*;

verus! {

/// The character for a digit.
pub open spec fn digit(value: int) -> char {
    if value == 0 {
        '0'
    } else if value == 1 {
        '1'
    } else if value == 2 {
        '2'
    } else if value == 3 {
        '3'
    } else if value == 4 {
        '4'
    } else if value == 5 {
        '5'
    } else if value == 6 {
        '6'
    } else if value == 7 {
        '7'
    } else if value == 8 {
        '8'
    } else {
        '9'
    }
}

/// The decimal digits of a natural number, without leading zeros.
pub open spec fn digits(number: nat) -> Seq<char>
    decreases number,
{
    if number < 10 {
        seq![digit(number as int)]
    } else {
        digits(number / 10).push(digit((number % 10) as int))
    }
}

/// The decimal form of an integer: its digits, after a minus sign where
/// it is negative.
pub open spec fn decimal(number: int) -> Seq<char> {
    if number < 0 {
        seq!['-'] + digits((-number) as nat)
    } else {
        digits(number as nat)
    }
}

/// The text of one digit.
fn digit_text(value: u64) -> (text: &'static str)
    requires
        value < 10,
    ensures
        text@ == seq![digit(value as int)],
{
    proof {
        reveal_strlit("0");
        reveal_strlit("1");
        reveal_strlit("2");
        reveal_strlit("3");
        reveal_strlit("4");
        reveal_strlit("5");
        reveal_strlit("6");
        reveal_strlit("7");
        reveal_strlit("8");
        reveal_strlit("9");
    }
    let text = if value == 0 {
        "0"
    } else if value == 1 {
        "1"
    } else if value == 2 {
        "2"
    } else if value == 3 {
        "3"
    } else if value == 4 {
        "4"
    } else if value == 5 {
        "5"
    } else if value == 6 {
        "6"
    } else if value == 7 {
        "7"
    } else if value == 8 {
        "8"
    } else {
        "9"
    };
    assert(text@ =~= seq![digit(value as int)]);
    text
}

/// Writes a natural number in decimal digits.
pub fn digits_text(number: u64) -> (text: String)
    ensures
        text@ == digits(number as nat),
    decreases number,
{
    if number < 10 {
        String::from_str(digit_text(number))
    } else {
        let text = digits_text(number / 10).concat(digit_text(number % 10));
        assert(text@ =~= digits(number as nat));
        text
    }
}

/// Writes an integer in decimal form.
pub fn decimal_text(number: i64) -> (text: String)
    ensures
        text@ == decimal(number as int),
{
    if number < 0 {
        let magnitude: u64 = ((-(number + 1)) as u64) + 1;
        proof {
            reveal_strlit("-");
        }
        let text = String::from_str("-").concat(digits_text(magnitude).as_str());
        assert(text@ =~= decimal(number as int));
        text
    } else {
        digits_text(number as u64)
    }
}

/// The text that stands for a content in the map of parameters: a text
/// or a credential key as it is, also where it is the raw document of a
/// parameter of a kind of its own; a boolean as `true` or `false`; an
/// integer in decimal form; any other content as the text of the document
/// that stands for it on the wire.
pub open spec fn content_text(content: Content) -> Seq<char> {
    match content {
        Content::Text(text) => text,
        Content::Credential(key) => key,
        Content::Boolean(flag) => if flag {
            "true"@
        } else {
            "false"@
        },
        Content::Integer(number) => decimal(number as int),
        Content::Raw(JsonView::Text(text)) => text,
        _ => rendered(encoded_content(content)),
    }
}

/// The entry that a parameter has in the map: its effective value as a
/// text, under its name; none where it has neither value nor default.
pub open spec fn entry_of(parameter: ParameterView) -> Option<(Seq<char>, Seq<char>)> {
    match parameter.effective() {
        Some(content) => Some((parameter.id, content_text(content))),
        None => None,
    }
}

/// The map of `parameters`: where two have a name, the later one counts.
pub open spec fn parameters_map(parameters: Seq<ParameterView>) -> Map<Seq<char>, Seq<char>>
    decreases parameters.len(),
{
    if parameters.len() == 0 {
        Map::empty()
    } else {
        match entry_of(parameters.last()) {
            Some((key, text)) => parameters_map(parameters.drop_last()).insert(key, text),
            None => parameters_map(parameters.drop_last()),
        }
    }
}

/// The map that a list of entries stands for: where two have a key, the
/// later one counts.
pub open spec fn entries_map(entries: Seq<(Seq<char>, Seq<char>)>) -> Map<Seq<char>, Seq<char>>
    decreases entries.len(),
{
    if entries.len() == 0 {
        Map::empty()
    } else {
        entries_map(entries.drop_last()).insert(entries.last().0, entries.last().1)
    }
}

/// A map from names to texts.
#[derive(Clone, Debug, PartialEq, Eq)]
pub struct ParameterMap {
    pub entries: Vec<(String, String)>,
}

impl View for ParameterMap {
    type V = Map<Seq<char>, Seq<char>>;

    open spec fn view(&self) -> Map<Seq<char>, Seq<char>> {
        entries_map(self.entries.deep_view())
    }
}

/// The text under `key` in a map.
pub open spec fn text_under(map: Map<Seq<char>, Seq<char>>, key: Seq<char>) -> Option<Seq<char>> {
    if map.contains_key(key) {
        Some(map[key])
    } else {
        None
    }
}

impl ParameterMap {
    /// A map without entries.
    pub fn new() -> (map: ParameterMap)
        ensures
            map@ == Map::<Seq<char>, Seq<char>>::empty(),
    {
        let map = ParameterMap { entries: Vec::new() };
        assert(map.entries.deep_view() =~= Seq::empty());
        map
    }

    /// Puts `text` under `key`, in the place of what was there.
    pub fn insert(&mut self, key: String, text: String)
        ensures
            final(self)@ == old(self)@.insert(key@, text@),
    {
        let ghost before = self.entries.deep_view();
        self.entries.push((key, text));
        assert(self.entries.deep_view().drop_last() =~= before);
        assert(self.entries.deep_view().last() == (key@, text@));
    }

    /// The text under `key`.
    pub fn get(&self, key: &str) -> (text: Option<&String>)
        ensures
            text.deep_view() == text_under(self@, key@),
    {
        let ghost entries = self.entries.deep_view();
        let wanted = String::from_str(key);
        let mut i: usize = self.entries.len();
        assert(entries.take(i as int) == entries);
        while i > 0
            invariant
                i <= self.entries.len(),
                entries == self.entries.deep_view(),
                wanted@ == key@,
                text_under(entries_map(entries), key@) == text_under(
                    entries_map(entries.take(i as int)),
                    key@,
                ),
            decreases i,
        {
            i = i - 1;
            assert(entries.take(i + 1).drop_last() == entries.take(i as int));
            assert(entries.take(i + 1).last() == entries[i as int]);
            if self.entries[i].0 == wanted {
                return Some(&self.entries[i].1);
            }
        }
        None
    }

    /// How many keys the map has entries for, counting each entry.
    pub fn len(&self) -> (count: usize)
        ensures
            count == self.entries.len(),
    {
        self.entries.len()
    }
}

/// The text that stands for the effective value of a parameter.
fn effective_text(parameter: &Parameter) -> (text: Option<String>)
    ensures
        text.deep_view() == match parameter@.effective() {
            Some(content) => Some(content_text(content)),
            None => None,
        },
{
    match parameter {
        Parameter::ArrayOfMediaSegmentsParam { default, value, .. } => match (value, default) {
            (Some(segments), _) => Some(segments.to_json().to_text()),
            (None, Some(segments)) => Some(segments.to_json().to_text()),
            (None, None) => None,
        },
        Parameter::ArrayOfStringsParam { default, value, .. } => match (value, default) {
            (Some(strings), _) => Some(strings.to_json().to_text()),
            (None, Some(strings)) => Some(strings.to_json().to_text()),
            (None, None) => None,
        },
        Parameter::BooleanParam { default, value, .. } => match (value, default) {
            (Some(flag), _) => Some(boolean_text(*flag)),
            (None, Some(flag)) => Some(boolean_text(*flag)),
            (None, None) => None,
        },
        Parameter::CredentialParam { default, value, .. } => match (value, default) {
            (Some(key), _) => Some(key.clone()),
            (None, Some(key)) => Some(key.clone()),
            (None, None) => None,
        },
        Parameter::IntegerParam { default, value, .. } => match (value, default) {
            (Some(number), _) => Some(decimal_text(*number)),
            (None, Some(number)) => Some(decimal_text(*number)),
            (None, None) => None,
        },
        Parameter::RequirementParam { default, value, .. } => match (value, default) {
            (Some(requirement), _) => Some(requirement.to_json().to_text()),
            (None, Some(requirement)) => Some(requirement.to_json().to_text()),
            (None, None) => None,
        },
        Parameter::StringParam { default, value, .. } => match (value, default) {
            (Some(text), _) => Some(text.clone()),
            (None, Some(text)) => Some(text.clone()),
            (None, None) => None,
        },
        Parameter::OtherParam { default, value, .. } => match (value, default) {
            (Some(document), _) => Some(raw_text(document)),
            (None, Some(document)) => Some(raw_text(document)),
            (None, None) => None,
        },
    }
}

fn boolean_text(flag: bool) -> (text: String)
    ensures
        text@ == content_text(Content::Boolean(flag)),
{
    if flag {
        String::from_str("true")
    } else {
        String::from_str("false")
    }
}

fn raw_text(document: &Json) -> (text: String)
    ensures
        text@ == content_text(Content::Raw(document@)),
{
    match document.as_text() {
        Some(text) => text.clone(),
        None => document.to_text(),
    }
}

/// The document that stands for the effective value of a parameter.
pub fn effective_document(parameter: &Parameter) -> (document: Option<Json>)
    ensures
        document.deep_view() == match parameter@.effective() {
            Some(content) => Some(encoded_content(content)),
            None => None,
        },
{
    match parameter {
        Parameter::ArrayOfMediaSegmentsParam { default, value, .. } => match (value, default) {
            (Some(segments), _) => Some(segments.to_json()),
            (None, Some(segments)) => Some(segments.to_json()),
            (None, None) => None,
        },
        Parameter::ArrayOfStringsParam { default, value, .. } => match (value, default) {
            (Some(strings), _) => Some(strings.to_json()),
            (None, Some(strings)) => Some(strings.to_json()),
            (None, None) => None,
        },
        Parameter::BooleanParam { default, value, .. } => match (value, default) {
            (Some(flag), _) => Some(flag.to_json()),
            (None, Some(flag)) => Some(flag.to_json()),
            (None, None) => None,
        },
        Parameter::CredentialParam { default, value, .. } => match (value, default) {
            (Some(key), _) => Some(key.to_json()),
            (None, Some(key)) => Some(key.to_json()),
            (None, None) => None,
        },
        Parameter::IntegerParam { default, value, .. } => match (value, default) {
            (Some(number), _) => Some(number.to_json()),
            (None, Some(number)) => Some(number.to_json()),
            (None, None) => None,
        },
        Parameter::RequirementParam { default, value, .. } => match (value, default) {
            (Some(requirement), _) => Some(requirement.to_json()),
            (None, Some(requirement)) => Some(requirement.to_json()),
            (None, None) => None,
        },
        Parameter::StringParam { default, value, .. } => match (value, default) {
            (Some(text), _) => Some(text.to_json()),
            (None, Some(text)) => Some(text.to_json()),
            (None, None) => None,
        },
        Parameter::OtherParam { default, value, .. } => match (value, default) {
            (Some(document), _) => Some(document.clone()),
            (None, Some(document)) => Some(document.clone()),
            (None, None) => None,
        },
    }
}

/// The members that stand for `parameters`: for each one that has an
/// effective value, the document of that value under the name of the
/// parameter, in the order of the parameters.
pub open spec fn parameters_members(parameters: Seq<ParameterView>) -> Seq<MemberView>
    decreases parameters.len(),
{
    if parameters.len() == 0 {
        Seq::empty()
    } else {
        match parameters.last().effective() {
            Some(content) => parameters_members(parameters.drop_last()).push(
                MemberView { key: parameters.last().id, value: encoded_content(content) },
            ),
            None => parameters_members(parameters.drop_last()),
        }
    }
}

/// The effective values of `parameters` as one document: an object with
/// a member for each parameter that has an effective value.
pub fn parameters_document(parameters: &Vec<Parameter>) -> (document: Json)
    ensures
        document@ == JsonView::Object(parameters_members(parameters.deep_view())),
{
    let ghost all = parameters.deep_view();
    let mut members: Vec<Member> = Vec::new();
    let mut i: usize = 0;
    assert(members.deep_view() =~= parameters_members(all.take(0)));
    while i < parameters.len()
        invariant
            i <= parameters.len(),
            all == parameters.deep_view(),
            members.deep_view() == parameters_members(all.take(i as int)),
        decreases parameters.len() - i,
    {
        let ghost before = members.deep_view();
        assert(all.take(i + 1).drop_last() == all.take(i as int));
        assert(all.take(i + 1).last() == parameters[i as int]@);
        match effective_document(&parameters[i]) {
            Some(document) => {
                members.push(Member { key: parameters[i].get_id().clone(), value: document });
                assert(members.deep_view() =~= before.push(
                    MemberView { key: parameters[i as int]@.id, value: document@ },
                ));
            },
            None => {},
        }
        i = i + 1;
    }
    assert(all.take(all.len() as int) == all);
    Json::object(members)
}

/// The effective values of `parameters` as texts, under their names.
pub fn get_parameters_as_map(parameters: &Vec<Parameter>) -> (map: ParameterMap)
    ensures
        map@ == parameters_map(parameters.deep_view()),
{
    let ghost all = parameters.deep_view();
    let mut map = ParameterMap::new();
    let mut i: usize = 0;
    assert(all.take(0) =~= Seq::empty());
    while i < parameters.len()
        invariant
            i <= parameters.len(),
            all == parameters.deep_view(),
            map@ == parameters_map(all.take(i as int)),
        decreases parameters.len() - i,
    {
        assert(all.take(i + 1).drop_last() == all.take(i as int));
        assert(all.take(i + 1).last() == parameters[i as int]@);
        match effective_text(&parameters[i]) {
            Some(text) => {
                map.insert(parameters[i].get_id().clone(), text);
            },
            None => {},
        }
        i = i + 1;
    }
    assert(all.take(all.len() as int) == all);
    map
}

impl Job {
    /// The effective values of the parameters as texts, under their names.
    pub fn get_parameters_as_map(&self) -> (map: ParameterMap)
        ensures
            map@ == parameters_map(self@.parameters),
    {
        get_parameters_as_map(&self.parameters)
    }
}

impl JobResult {
    /// The effective values of the parameters as texts, under their names.
    pub fn get_parameters_as_map(&self) -> (map: ParameterMap)
        ensures
            map@ == parameters_map(self@.parameters),
    {
        get_parameters_as_map(&self.parameters)
    }
}

} // verus!
