//! The shape in which events and answers leave the supervisor: a list of
//! named fields with plain values, in a fixed order. Turning such a list
//! into the bytes of some format is the caller's.

use vstd::prelude::*;
use crate::event::{Event, EventView, Payload, PayloadView};
use crate::probe::{DetectResult, DetectView};
use crate::session::SessionStatus;
use crate::supervisor::{CancelResult, SpawnResult};
use crate::text::string_view;

verus! {

/// The value of a field.
#[derive(Debug, PartialEq)]
pub enum FieldValue {
    /// A text.
    Text(String),
    /// A whole number.
    Number(i64),
    /// A truth value.
    Flag(bool),
    /// A structured value, as it was parsed.
    Json(serde_json::Value),
    /// No value.
    Null,
}

/// A named field.
#[derive(Debug, PartialEq)]
pub struct Field {
    pub name: &'static str,
    pub value: FieldValue,
}

/// The value of a field with its text as a sequence of characters.
pub enum FieldValueView {
    Text(Seq<char>),
    Number(int),
    Flag(bool),
    Json(serde_json::Value),
    Null,
}

/// A field with its texts as sequences of characters.
pub struct FieldView {
    pub name: Seq<char>,
    pub value: FieldValueView,
}

impl View for FieldValue {
    type V = FieldValueView;

    open spec fn view(&self) -> FieldValueView {
        match *self {
            FieldValue::Text(text) => FieldValueView::Text(text@),
            FieldValue::Number(number) => FieldValueView::Number(number as int),
            FieldValue::Flag(flag) => FieldValueView::Flag(flag),
            FieldValue::Json(value) => FieldValueView::Json(value),
            FieldValue::Null => FieldValueView::Null,
        }
    }
}

impl View for Field {
    type V = FieldView;

    open spec fn view(&self) -> FieldView {
        FieldView { name: self.name@, value: self.value@ }
    }
}

/// The views of a list of fields.
pub open spec fn field_views(fields: Seq<Field>) -> Seq<FieldView> {
    fields.map_values(|field: Field| field@)
}

/// A field that holds a text.
pub open spec fn text_field(name: Seq<char>, text: Seq<char>) -> FieldView {
    FieldView { name, value: FieldValueView::Text(text) }
}

/// A field that holds a whole number.
pub open spec fn number_field(name: Seq<char>, number: int) -> FieldView {
    FieldView { name, value: FieldValueView::Number(number) }
}

/// A field that holds a truth value.
pub open spec fn flag_field(name: Seq<char>, flag: bool) -> FieldView {
    FieldView { name, value: FieldValueView::Flag(flag) }
}

/// The field that holds the payload of a progress event: the parsed value,
/// or the line as a text.
pub open spec fn data_field(payload: PayloadView) -> FieldView {
    FieldView {
        name: "data"@,
        value: match payload {
            PayloadView::Structured(value) => FieldValueView::Json(value),
            PayloadView::Raw(line) => FieldValueView::Text(line),
        },
    }
}

/// The fields of an event.
pub open spec fn event_fields_of(event: EventView) -> Seq<FieldView> {
    match event {
        EventView::Started { session_id, pid } => seq![
            text_field("sessionId"@, session_id),
            number_field("pid"@, pid as int),
        ],
        EventView::Progress { session_id, kind, payload } => seq![
            text_field("sessionId"@, session_id),
            text_field("type"@, kind.label_spec()),
            data_field(payload),
        ],
        EventView::Error { session_id, message } => seq![
            text_field("sessionId"@, session_id),
            text_field("message"@, message),
        ],
        EventView::Complete { session_id, exit_code, success } => seq![
            text_field("sessionId"@, session_id),
            number_field("exitCode"@, exit_code as int),
            flag_field("success"@, success),
        ],
    }
}

/// The fields of the answer to a launch.
pub open spec fn spawn_fields_of(session_id: Seq<char>, pid: u32, status: SessionStatus) -> Seq<
    FieldView,
> {
    seq![
        text_field("sessionId"@, session_id),
        number_field("pid"@, pid as int),
        text_field("status"@, status.label_spec()),
    ]
}

/// The fields of the answer to a cancellation: the process where one was
/// cancelled, the reason where none was.
pub open spec fn cancel_fields_of(cancelled: bool, pid: Option<u32>, reason: Option<Seq<char>>) -> Seq<
    FieldView,
> {
    seq![flag_field("cancelled"@, cancelled)] + (match pid {
        Some(pid) => seq![number_field("pid"@, pid as int)],
        None => Seq::empty(),
    }) + (match reason {
        Some(reason) => seq![text_field("reason"@, reason)],
        None => Seq::empty(),
    })
}

/// The fields of the answer to a detection: each text that is there.
pub open spec fn detect_fields_of(result: DetectView) -> Seq<FieldView> {
    seq![flag_field("installed"@, result.installed)] + (match result.version {
        Some(version) => seq![text_field("version"@, version)],
        None => Seq::empty(),
    }) + (match result.path {
        Some(path) => seq![text_field("path"@, path)],
        None => Seq::empty(),
    }) + (match result.error {
        Some(error) => seq![text_field("error"@, error)],
        None => Seq::empty(),
    })
}

/// The fields of the answer to reading a key: what the store holds under
/// the name, or no value, and the name.
pub open spec fn stored_key_fields_of(name: Seq<char>, value: Option<serde_json::Value>) -> Seq<
    FieldView,
> {
    seq![
        FieldView {
            name: "key"@,
            value: match value {
                Some(value) => FieldValueView::Json(value),
                None => FieldValueView::Null,
            },
        },
        text_field("provider"@, name),
    ]
}

/// The fields of the answer to writing a key.
pub open spec fn saved_key_fields_of(name: Seq<char>) -> Seq<FieldView> {
    seq![flag_field("saved"@, true), text_field("provider"@, name)]
}

fn text(name: &'static str, value: String) -> (field: Field)
    ensures
        field@ == text_field(name@, value@),
{
    Field { name, value: FieldValue::Text(value) }
}

fn number(name: &'static str, value: i64) -> (field: Field)
    ensures
        field@ == number_field(name@, value as int),
{
    Field { name, value: FieldValue::Number(value) }
}

fn flag(name: &'static str, value: bool) -> (field: Field)
    ensures
        field@ == flag_field(name@, value),
{
    Field { name, value: FieldValue::Flag(value) }
}

/// Lays an event out as fields.
pub fn event_fields(event: Event) -> (fields: Vec<Field>)
    ensures
        field_views(fields@) == event_fields_of(event@),
{
    let mut fields: Vec<Field> = Vec::new();
    match event {
        Event::Started { session_id, pid } => {
            fields.push(text("sessionId", session_id));
            fields.push(number("pid", pid as i64));
        },
        Event::Progress { session_id, payload } => {
            fields.push(text("sessionId", session_id));
            fields.push(text("type", String::from_str(payload.kind().label())));
            let value = match payload {
                Payload::Structured(value) => FieldValue::Json(value),
                Payload::Raw(line) => FieldValue::Text(line),
            };
            fields.push(Field { name: "data", value });
        },
        Event::Error { session_id, message } => {
            fields.push(text("sessionId", session_id));
            fields.push(text("message", message));
        },
        Event::Complete { session_id, exit_code } => {
            fields.push(text("sessionId", session_id));
            fields.push(number("exitCode", exit_code as i64));
            fields.push(flag("success", exit_code == 0));
        },
    }
    assert(field_views(fields@) =~= event_fields_of(event@));
    fields
}

/// Lays the answer to a launch out as fields.
pub fn spawn_fields(result: SpawnResult) -> (fields: Vec<Field>)
    ensures
        field_views(fields@) == spawn_fields_of(result.session_id@, result.pid, result.status),
{
    let mut fields: Vec<Field> = Vec::new();
    let status = String::from_str(result.status.label());
    fields.push(text("sessionId", result.session_id));
    fields.push(number("pid", result.pid as i64));
    fields.push(text("status", status));
    assert(field_views(fields@) =~= spawn_fields_of(
        result.session_id@,
        result.pid,
        result.status,
    ));
    fields
}

/// Lays the answer to a cancellation out as fields.
pub fn cancel_fields(result: CancelResult) -> (fields: Vec<Field>)
    ensures
        field_views(fields@) == cancel_fields_of(
            result.cancelled,
            result.pid,
            string_view(result.reason),
        ),
{
    let mut fields: Vec<Field> = Vec::new();
    fields.push(flag("cancelled", result.cancelled));
    match result.pid {
        Some(pid) => {
            fields.push(number("pid", pid as i64));
        },
        None => {},
    }
    match result.reason {
        Some(reason) => {
            fields.push(text("reason", reason));
        },
        None => {},
    }
    assert(field_views(fields@) =~= cancel_fields_of(
        result.cancelled,
        result.pid,
        string_view(result.reason),
    ));
    fields
}

/// Lays the answer to a detection out as fields.
pub fn detect_fields(result: DetectResult) -> (fields: Vec<Field>)
    ensures
        field_views(fields@) == detect_fields_of(result@),
{
    let mut fields: Vec<Field> = Vec::new();
    fields.push(flag("installed", result.installed));
    match result.version {
        Some(version) => {
            fields.push(text("version", version));
        },
        None => {},
    }
    match result.path {
        Some(path) => {
            fields.push(text("path", path));
        },
        None => {},
    }
    match result.error {
        Some(error) => {
            fields.push(text("error", error));
        },
        None => {},
    }
    assert(field_views(fields@) =~= detect_fields_of(result@));
    fields
}

/// Lays the answer to reading the key `name` out as fields, where `value`
/// is what the store holds under that name.
pub fn stored_key_fields(name: String, value: Option<serde_json::Value>) -> (fields: Vec<Field>)
    ensures
        field_views(fields@) == stored_key_fields_of(name@, value),
{
    let mut fields: Vec<Field> = Vec::new();
    let held = match value {
        Some(value) => FieldValue::Json(value),
        None => FieldValue::Null,
    };
    fields.push(Field { name: "key", value: held });
    fields.push(text("provider", name));
    assert(field_views(fields@) =~= stored_key_fields_of(name@, value));
    fields
}

/// Lays the answer to writing the key `name` out as fields.
pub fn saved_key_fields(name: String) -> (fields: Vec<Field>)
    ensures
        field_views(fields@) == saved_key_fields_of(name@),
{
    let mut fields: Vec<Field> = Vec::new();
    fields.push(flag("saved", true));
    fields.push(text("provider", name));
    assert(field_views(fields@) =~= saved_key_fields_of(name@));
    fields
}

} // verus!
