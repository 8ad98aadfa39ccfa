//! The instruction that a trigger carries, and how it is read from JSON.

use serde_json::Value;
use vstd::prelude::*;
use vstd::string::StringExecFns;
use crate::command::{push_all, texts};
use crate::text::text_eq;

verus! {

/// One dispatch request: what to do, where, and to which selected items.
#[derive(Debug, PartialEq, Eq)]
pub struct Payload {
    /// Directory that the action works in.
    pub target: String,
    /// How `target` is to be read.
    pub target_type: String,
    /// The selected paths, in the order in which they become arguments.
    pub items: Vec<String>,
    /// What the action is given; its meaning depends on `action_type`.
    pub action: String,
    /// Tag that selects the handler.
    pub action_type: String,
}

/// A `Payload` as plain text.
pub struct PayloadView {
    pub target: Seq<char>,
    pub target_type: Seq<char>,
    pub items: Seq<Seq<char>>,
    pub action: Seq<char>,
    pub action_type: Seq<char>,
}

impl View for Payload {
    type V = PayloadView;

    open spec fn view(&self) -> PayloadView {
        PayloadView {
            target: self.target@,
            target_type: self.target_type@,
            items: texts(self.items@),
            action: self.action@,
            action_type: self.action_type@,
        }
    }
}

impl Clone for Payload {
    /// A copy that holds the same texts.
    fn clone(&self) -> (copy: Self)
        ensures
            copy@ == self@,
    {
        let mut items: Vec<String> = Vec::new();
        push_all(&mut items, &self.items);
        assert(texts(items@) == texts(self.items@));
        Payload {
            target: self.target.clone(),
            target_type: self.target_type.clone(),
            items,
            action: self.action.clone(),
            action_type: self.action_type.clone(),
        }
    }
}

/// A field of the instruction.
#[derive(Clone, Copy, Debug, PartialEq, Eq, Structural)]
pub enum Field {
    Target,
    TargetType,
    Items,
    Action,
    ActionType,
}

/// The name of a field in the JSON object.
pub open spec fn field_key(field: Field) -> Seq<char> {
    match field {
        Field::Target => "target"@,
        Field::TargetType => "targetType"@,
        Field::Items => "items"@,
        Field::Action => "action"@,
        Field::ActionType => "actionType"@,
    }
}

/// Why a payload yields no instruction.
#[derive(Clone, Debug, PartialEq, Eq)]
pub enum DecodeError {
    /// A `%` that two hexadecimal digits do not follow.
    MalformedEscape,
    /// The text is not JSON.
    MalformedJson { reason: String },
    /// The text is JSON, but not an object.
    NotAnObject,
    /// The object has no member of the field's name.
    MissingField(Field),
    /// The member is not of the field's type: a string, or for the items an
    /// array of strings.
    InvalidField(Field),
}

/// A `DecodeError` as plain text.
pub enum DecodeErrorView {
    MalformedEscape,
    MalformedJson { reason: Seq<char> },
    NotAnObject,
    MissingField(Field),
    InvalidField(Field),
}

impl View for DecodeError {
    type V = DecodeErrorView;

    open spec fn view(&self) -> DecodeErrorView {
        match self {
            DecodeError::MalformedEscape => DecodeErrorView::MalformedEscape,
            DecodeError::MalformedJson { reason } => DecodeErrorView::MalformedJson {
                reason: reason@,
            },
            DecodeError::NotAnObject => DecodeErrorView::NotAnObject,
            DecodeError::MissingField(field) => DecodeErrorView::MissingField(*field),
            DecodeError::InvalidField(field) => DecodeErrorView::InvalidField(*field),
        }
    }
}

/// What an error says, for the log.
pub open spec fn decode_error_message(error: DecodeErrorView) -> Seq<char> {
    match error {
        DecodeErrorView::MalformedEscape => "malformed percent-encoding"@,
        DecodeErrorView::MalformedJson { reason } => "malformed JSON: "@ + reason,
        DecodeErrorView::NotAnObject => "not a JSON object"@,
        DecodeErrorView::MissingField(field) => "missing field `"@ + field_key(field) + "`"@,
        DecodeErrorView::InvalidField(field) => "invalid type of field `"@ + field_key(field)
            + "`"@,
    }
}

impl DecodeError {
    /// What the error says, for the log.
    pub fn message(&self) -> (text: String)
        ensures
            text@ == decode_error_message(self@),
    {
        match self {
            DecodeError::MalformedEscape => "malformed percent-encoding".to_owned(),
            DecodeError::MalformedJson { reason } => {
                let mut text = "malformed JSON: ".to_owned();
                text.append(reason.as_str());
                text
            },
            DecodeError::NotAnObject => "not a JSON object".to_owned(),
            DecodeError::MissingField(field) => {
                let mut text = "missing field `".to_owned();
                text.append(key_of(*field));
                text.append("`");
                text
            },
            DecodeError::InvalidField(field) => {
                let mut text = "invalid type of field `".to_owned();
                text.append(key_of(*field));
                text.append("`");
                text
            },
        }
    }
}

/// The value of a member of a JSON object, as far as an instruction is read
/// from it.
#[derive(Clone, Debug, PartialEq, Eq)]
pub enum JsonField {
    /// A string.
    Text(String),
    /// An array; each element that is a string, and `None` for any other.
    List(Vec<Option<String>>),
    /// Any other value.
    Other,
}

/// A `JsonField` as plain text.
pub enum JsonFieldView {
    Text(Seq<char>),
    List(Seq<Option<Seq<char>>>),
    Other,
}

/// The elements of an array as plain text.
pub open spec fn element_views(elements: Seq<Option<String>>) -> Seq<Option<Seq<char>>> {
    Seq::new(
        elements.len(),
        |i: int|
            match elements[i] {
                Some(s) => Some(s@),
                None => None,
            },
    )
}

impl View for JsonField {
    type V = JsonFieldView;

    open spec fn view(&self) -> JsonFieldView {
        match self {
            JsonField::Text(s) => JsonFieldView::Text(s@),
            JsonField::List(elements) => JsonFieldView::List(element_views(elements@)),
            JsonField::Other => JsonFieldView::Other,
        }
    }
}

/// The members of an object as plain text.
pub open spec fn member_views(members: Seq<(String, JsonField)>) -> Seq<(Seq<char>, JsonFieldView)> {
    Seq::new(members.len(), |i: int| (members[i].0@, members[i].1@))
}

/// What a text is when read as JSON.
#[derive(Clone, Debug, PartialEq, Eq)]
pub enum JsonDocument {
    /// Not JSON; `reason` says why.
    Malformed { reason: String },
    /// A JSON value other than an object.
    NotAnObject,
    /// A JSON object with these members.
    Object(Vec<(String, JsonField)>),
}

/// A `JsonDocument` as plain text.
pub enum JsonDocumentView {
    Malformed { reason: Seq<char> },
    NotAnObject,
    Object(Seq<(Seq<char>, JsonFieldView)>),
}

impl View for JsonDocument {
    type V = JsonDocumentView;

    open spec fn view(&self) -> JsonDocumentView {
        match self {
            JsonDocument::Malformed { reason } => JsonDocumentView::Malformed { reason: reason@ },
            JsonDocument::NotAnObject => JsonDocumentView::NotAnObject,
            JsonDocument::Object(members) => JsonDocumentView::Object(member_views(members@)),
        }
    }
}

/// What `serde_json::from_str` makes of a text.
pub uninterp spec fn json_document(text: Seq<char>) -> JsonDocumentView;

/// `serde_json::from_str`, reading `text` as a `serde_json::Value`, which is
/// brought into a `JsonDocument`: the error's message where `text` is not
/// JSON; where it is an object, its members as serde_json's map hands them
/// out, a name that occurs twice being there once. The contract claims no
/// more than that the same text always gives the same document.
#[verifier::external_body]
fn parse_json(text: &str) -> (document: JsonDocument)
    ensures
        document@ == json_document(text@),
{
    match serde_json::from_str::<Value>(text) {
        Ok(Value::Object(map)) => JsonDocument::Object(
            map.into_iter().map(|(name, value)| (name, match value {
                Value::String(s) => JsonField::Text(s),
                Value::Array(a) => JsonField::List(a.into_iter().map(|element| match element {
                    Value::String(s) => Some(s),
                    _ => None,
                }).collect()),
                _ => JsonField::Other,
            })).collect(),
        ),
        Ok(_) => JsonDocument::NotAnObject,
        Err(error) => JsonDocument::Malformed { reason: error.to_string() },
    }
}

/// The value of the first member named `name`.
pub open spec fn member(members: Seq<(Seq<char>, JsonFieldView)>, name: Seq<char>) -> Option<
    JsonFieldView,
>
    decreases members.len(),
{
    if members.len() == 0 {
        None
    } else if members[0].0 == name {
        Some(members[0].1)
    } else {
        member(members.skip(1), name)
    }
}

/// The text of a field: the member of its name, which must be a string.
pub open spec fn text_field(members: Seq<(Seq<char>, JsonFieldView)>, field: Field) -> Result<
    Seq<char>,
    DecodeErrorView,
> {
    match member(members, field_key(field)) {
        None => Err(DecodeErrorView::MissingField(field)),
        Some(JsonFieldView::Text(text)) => Ok(text),
        Some(_) => Err(DecodeErrorView::InvalidField(field)),
    }
}

/// Whether every element of an array is a string.
pub open spec fn all_text(elements: Seq<Option<Seq<char>>>) -> bool {
    forall|i: int| 0 <= i < elements.len() ==> (#[trigger] elements[i]) is Some
}

/// The texts of a field: the member of its name, which must be an array of
/// strings.
pub open spec fn list_field(members: Seq<(Seq<char>, JsonFieldView)>, field: Field) -> Result<
    Seq<Seq<char>>,
    DecodeErrorView,
> {
    match member(members, field_key(field)) {
        None => Err(DecodeErrorView::MissingField(field)),
        Some(JsonFieldView::List(elements)) => if all_text(elements) {
            Ok(Seq::new(elements.len(), |i: int| elements[i]->0))
        } else {
            Err(DecodeErrorView::InvalidField(field))
        },
        Some(_) => Err(DecodeErrorView::InvalidField(field)),
    }
}

/// The instruction in the members of an object: its five fields, each read
/// from the member of its name; the first field, in the order target,
/// targetType, items, action, actionType, that is missing or of another type
/// decides the error. Members of other names are passed over.
pub open spec fn payload_of_members(members: Seq<(Seq<char>, JsonFieldView)>) -> Result<
    PayloadView,
    DecodeErrorView,
> {
    match text_field(members, Field::Target) {
        Err(e) => Err(e),
        Ok(target) => match text_field(members, Field::TargetType) {
            Err(e) => Err(e),
            Ok(target_type) => match list_field(members, Field::Items) {
                Err(e) => Err(e),
                Ok(items) => match text_field(members, Field::Action) {
                    Err(e) => Err(e),
                    Ok(action) => match text_field(members, Field::ActionType) {
                        Err(e) => Err(e),
                        Ok(action_type) => Ok(
                            PayloadView { target, target_type, items, action, action_type },
                        ),
                    },
                },
            },
        },
    }
}

/// The instruction in a document.
pub open spec fn payload_of_document(document: JsonDocumentView) -> Result<
    PayloadView,
    DecodeErrorView,
> {
    match document {
        JsonDocumentView::Malformed { reason } => Err(DecodeErrorView::MalformedJson { reason }),
        JsonDocumentView::NotAnObject => Err(DecodeErrorView::NotAnObject),
        JsonDocumentView::Object(members) => payload_of_members(members),
    }
}

/// An instruction or an error as plain text.
pub open spec fn loaded_view(loaded: Result<Payload, DecodeError>) -> Result<
    PayloadView,
    DecodeErrorView,
> {
    match loaded {
        Ok(payload) => Ok(payload@),
        Err(error) => Err(error@),
    }
}

/// The name of `field` in the JSON object.
fn key_of(field: Field) -> (key: &'static str)
    ensures
        key@ == field_key(field),
{
    match field {
        Field::Target => "target",
        Field::TargetType => "targetType",
        Field::Items => "items",
        Field::Action => "action",
        Field::ActionType => "actionType",
    }
}

/// The place of the first member named `name`.
fn find_member(members: &Vec<(String, JsonField)>, name: &str) -> (at: Option<usize>)
    ensures
        match at {
            Some(i) => i < members.len() && member(member_views(members@), name@) == Some(
                members@[i as int].1@,
            ),
            None => member(member_views(members@), name@) is None,
        },
{
    let ghost all = member_views(members@);
    let mut i: usize = 0;
    assert(all.skip(0) == all);
    while i < members.len()
        invariant
            i <= members.len(),
            all == member_views(members@),
            member(all, name@) == member(all.skip(i as int), name@),
        decreases members.len() - i,
    {
        assert(all.skip(i as int)[0] == all[i as int]);
        if text_eq(members[i].0.as_str(), name) {
            return Some(i);
        }
        assert(all.skip(i as int).skip(1) == all.skip(i + 1));
        i += 1;
    }
    None
}

/// Reads the text of `field` from the members.
fn read_text(members: &Vec<(String, JsonField)>, field: Field) -> (read: Result<String, DecodeError>)
    ensures
        match read {
            Ok(text) => text_field(member_views(members@), field) == Ok::<
                Seq<char>,
                DecodeErrorView,
            >(text@),
            Err(error) => text_field(member_views(members@), field) == Err::<
                Seq<char>,
                DecodeErrorView,
            >(error@),
        },
{
    match find_member(members, key_of(field)) {
        None => Err(DecodeError::MissingField(field)),
        Some(i) => match &members[i].1 {
            JsonField::Text(text) => Ok(text.clone()),
            _ => Err(DecodeError::InvalidField(field)),
        },
    }
}

/// Reads the texts of `field` from the members.
fn read_list(members: &Vec<(String, JsonField)>, field: Field) -> (read: Result<
    Vec<String>,
    DecodeError,
>)
    ensures
        match read {
            Ok(list) => list_field(member_views(members@), field) == Ok::<
                Seq<Seq<char>>,
                DecodeErrorView,
            >(texts(list@)),
            Err(error) => list_field(member_views(members@), field) == Err::<
                Seq<Seq<char>>,
                DecodeErrorView,
            >(error@),
        },
{
    match find_member(members, key_of(field)) {
        None => Err(DecodeError::MissingField(field)),
        Some(i) => match &members[i].1 {
            JsonField::List(elements) => {
                let ghost views = element_views(elements@);
                let mut list: Vec<String> = Vec::new();
                let mut k: usize = 0;
                while k < elements.len()
                    invariant
                        k <= elements.len(),
                        views == element_views(elements@),
                        member(member_views(members@), field_key(field)) == Some(
                            JsonFieldView::List(views),
                        ),
                        list.len() == k,
                        forall|j: int| 0 <= j < k ==> (#[trigger] views[j]) == Some(list@[j]@),
                    decreases elements.len() - k,
                {
                    match &elements[k] {
                        Some(text) => {
                            list.push(text.clone());
                        },
                        None => {
                            assert(views[k as int] is None);
                            return Err(DecodeError::InvalidField(field));
                        },
                    }
                    k += 1;
                }
                assert(all_text(views));
                assert(texts(list@) == Seq::new(views.len(), |i: int| views[i]->0));
                Ok(list)
            },
            _ => Err(DecodeError::InvalidField(field)),
        },
    }
}

/// Reads an instruction from a document.
pub fn payload_from_document(document: &JsonDocument) -> (loaded: Result<Payload, DecodeError>)
    ensures
        loaded_view(loaded) == payload_of_document(document@),
{
    match document {
        JsonDocument::Malformed { reason } => Err(
            DecodeError::MalformedJson { reason: reason.clone() },
        ),
        JsonDocument::NotAnObject => Err(DecodeError::NotAnObject),
        JsonDocument::Object(members) => {
            let target = match read_text(members, Field::Target) {
                Ok(text) => text,
                Err(error) => { return Err(error); },
            };
            let target_type = match read_text(members, Field::TargetType) {
                Ok(text) => text,
                Err(error) => { return Err(error); },
            };
            let items = match read_list(members, Field::Items) {
                Ok(list) => list,
                Err(error) => { return Err(error); },
            };
            let action = match read_text(members, Field::Action) {
                Ok(text) => text,
                Err(error) => { return Err(error); },
            };
            let action_type = match read_text(members, Field::ActionType) {
                Ok(text) => text,
                Err(error) => { return Err(error); },
            };
            Ok(Payload { target, target_type, items, action, action_type })
        },
    }
}

/// Reads an instruction from the JSON text of a payload.
pub fn load_payload(payload: &str) -> (loaded: Result<Payload, DecodeError>)
    ensures
        loaded_view(loaded) == payload_of_document(json_document(payload@)),
{
    let document = parse_json(payload);
    payload_from_document(&document)
}

} // verus!
