//! Normalized events and the conversion that produces them.
//!
//! The payload types keep their fields private and offer read-only accessors: an
//! event is a snapshot of one occurrence and cannot be altered once it exists.
use crate::life_cycle::{InputValue, MessageFromSocketData};
use crate::model::{
    normalize, EventModel, FormModel, InputChangeModel, InputModel, KeyModel, MouseModel,
    ScrollModel,
};
use vstd::prelude::*;
use vstd::std_specs::convert::FromSpecImpl;

verus! {

/// An event that an application can react to.
#[derive(Debug, Clone)]
#[non_exhaustive]
pub enum EventData {
    FormSubmit(FormSubmit),
    FormChange(FormChange),
    InputChange(InputChange),
    InputFocus(InputFocus),
    InputBlur(InputBlur),
    Key(Key),
    Mouse(Mouse),
    Scroll(Scroll),
}

impl View for EventData {
    type V = EventModel;

    open spec fn view(&self) -> EventModel {
        match self {
            EventData::FormSubmit(form) => EventModel::FormSubmit(form@),
            EventData::FormChange(form) => EventModel::FormChange(form@),
            EventData::InputChange(change) => EventModel::InputChange(change@),
            EventData::InputFocus(input) => EventModel::InputFocus(input@),
            EventData::InputBlur(input) => EventModel::InputBlur(input@),
            EventData::Key(key) => EventModel::Key(key@),
            EventData::Mouse(mouse) => EventModel::Mouse(mouse@),
            EventData::Scroll(scroll) => EventModel::Scroll(scroll@),
        }
    }
}

/// The model of an optional event.
pub open spec fn event_view(event: Option<EventData>) -> Option<EventModel> {
    match event {
        Some(e) => Some(e@),
        None => None,
    }
}

/// The event that holds the very fields of `data`, or no event for a message that
/// carries no data.
pub closed spec fn event_of(data: MessageFromSocketData) -> Option<EventData> {
    match data {
        MessageFromSocketData::Click => None,
        MessageFromSocketData::WindowFocus => None,
        MessageFromSocketData::WindowBlur => None,
        MessageFromSocketData::NoData => None,
        MessageFromSocketData::FormSubmit { query } => Some(
            EventData::FormSubmit(FormSubmit { query }),
        ),
        MessageFromSocketData::FormChange { query } => Some(
            EventData::FormChange(FormChange { query }),
        ),
        MessageFromSocketData::InputFocus { value } => Some(
            EventData::InputFocus(InputFocus { value }),
        ),
        MessageFromSocketData::InputBlur { value } => Some(
            EventData::InputBlur(InputBlur { value }),
        ),
        MessageFromSocketData::InputChange { value } => Some(
            EventData::InputChange(
                match value {
                    InputValue::Bool(x) => InputChange::Bool(x),
                    InputValue::String(x) => InputChange::String(x),
                    InputValue::Strings(x) => InputChange::Strings(x),
                },
            ),
        ),
        MessageFromSocketData::Key { key, code, alt, ctrl, shift, meta } => Some(
            EventData::Key(Key { key, code, alt, ctrl, shift, meta }),
        ),
        MessageFromSocketData::Mouse {
            client_x,
            client_y,
            page_x,
            page_y,
            offset_x,
            offset_y,
            movement_x,
            movement_y,
            screen_x,
            screen_y,
        } => Some(
            EventData::Mouse(
                Mouse {
                    client_x,
                    client_y,
                    page_x,
                    page_y,
                    offset_x,
                    offset_y,
                    movement_x,
                    movement_y,
                    screen_x,
                    screen_y,
                },
            ),
        ),
        MessageFromSocketData::Scroll { scroll_x, scroll_y } => Some(
            EventData::Scroll(Scroll { scroll_x, scroll_y }),
        ),
    }
}

/// `event_of` is `normalize` on the models: the event it gives has the model that
/// `normalize` gives for the message's model.
pub proof fn lemma_event_of_models_normalize(data: MessageFromSocketData)
    ensures
        event_view(event_of(data)) == normalize(data@),
{
}

/// Classifies one message.
///
/// A click, a window focus, a window blur and an empty message give no event. Every
/// other message gives the event of the same kind, with every field as it was in
/// the message: no string is parsed, no number is changed, and the shape of a
/// changed input's value is kept.
pub fn convert(data: MessageFromSocketData) -> (result: Option<EventData>)
    ensures
        event_view(result) == normalize(data@),
        result.is_none() <==> data@.carries_no_data(),
        result == event_of(data),
{
    match data {
        MessageFromSocketData::Click
        | MessageFromSocketData::WindowFocus
        | MessageFromSocketData::WindowBlur
        | MessageFromSocketData::NoData => None,
        MessageFromSocketData::FormSubmit { query } => {
            Some(EventData::FormSubmit(FormSubmit { query }))
        },
        MessageFromSocketData::FormChange { query } => {
            Some(EventData::FormChange(FormChange { query }))
        },
        MessageFromSocketData::InputFocus { value } => {
            Some(EventData::InputFocus(InputFocus { value }))
        },
        MessageFromSocketData::InputBlur { value } => {
            Some(EventData::InputBlur(InputBlur { value }))
        },
        MessageFromSocketData::InputChange { value } => {
            let value = match value {
                InputValue::Bool(x) => InputChange::Bool(x),
                InputValue::String(x) => InputChange::String(x),
                InputValue::Strings(x) => InputChange::Strings(x),
            };
            Some(EventData::InputChange(value))
        },
        MessageFromSocketData::Key { key, code, alt, ctrl, shift, meta } => Some(
            EventData::Key(Key { key, code, alt, ctrl, shift, meta }),
        ),
        MessageFromSocketData::Mouse {
            client_x,
            client_y,
            page_x,
            page_y,
            offset_x,
            offset_y,
            movement_x,
            movement_y,
            screen_x,
            screen_y,
        } => Some(
            EventData::Mouse(
                Mouse {
                    client_x,
                    client_y,
                    page_x,
                    page_y,
                    offset_x,
                    offset_y,
                    movement_x,
                    movement_y,
                    screen_x,
                    screen_y,
                },
            ),
        ),
        MessageFromSocketData::Scroll { scroll_x, scroll_y } => {
            Some(EventData::Scroll(Scroll { scroll_x, scroll_y }))
        },
    }
}

impl From<MessageFromSocketData> for Option<EventData> {
    /// The same classification as [`convert`].
    fn from(data: MessageFromSocketData) -> (result: Self)
        ensures
            event_view(result) == normalize(data@),
    {
        convert(data)
    }
}

impl FromSpecImpl<MessageFromSocketData> for Option<EventData> {
    open spec fn obeys_from_spec() -> bool {
        true
    }

    open spec fn from_spec(data: MessageFromSocketData) -> Self {
        event_of(data)
    }
}

/// A form was submitted.
#[derive(Debug, Clone)]
pub struct FormSubmit {
    query: String,
}

impl View for FormSubmit {
    type V = FormModel;

    closed spec fn view(&self) -> FormModel {
        FormModel { query: self.query@ }
    }
}

impl FormSubmit {
    /// The form's fields, serialized as a query string.
    pub fn query(&self) -> (result: &str)
        ensures
            result@ == self@.query,
    {
        self.query.as_str()
    }
}

/// A field of a form changed.
#[derive(Debug, Clone)]
pub struct FormChange {
    query: String,
}

impl View for FormChange {
    type V = FormModel;

    closed spec fn view(&self) -> FormModel {
        FormModel { query: self.query@ }
    }
}

impl FormChange {
    /// The form's fields, serialized as a query string.
    pub fn query(&self) -> (result: &str)
        ensures
            result@ == self@.query,
    {
        self.query.as_str()
    }
}

/// An input element gained the focus.
#[derive(Debug, Clone)]
pub struct InputFocus {
    value: String,
}

impl View for InputFocus {
    type V = InputModel;

    closed spec fn view(&self) -> InputModel {
        InputModel { value: self.value@ }
    }
}

impl InputFocus {
    /// The element's value at that moment.
    pub fn value(&self) -> (result: &str)
        ensures
            result@ == self@.value,
    {
        self.value.as_str()
    }
}

/// An input element lost the focus.
#[derive(Debug, Clone)]
pub struct InputBlur {
    value: String,
}

impl View for InputBlur {
    type V = InputModel;

    closed spec fn view(&self) -> InputModel {
        InputModel { value: self.value@ }
    }
}

impl InputBlur {
    /// The element's value at that moment.
    pub fn value(&self) -> (result: &str)
        ensures
            result@ == self@.value,
    {
        self.value.as_str()
    }
}

/// The value of an input element changed.
#[derive(Clone, Debug)]
pub enum InputChange {
    Bool(bool),
    String(String),
    Strings(Vec<String>),
}

impl View for InputChange {
    type V = InputChangeModel;

    open spec fn view(&self) -> InputChangeModel {
        match self {
            InputChange::Bool(x) => InputChangeModel::Bool(*x),
            InputChange::String(x) => InputChangeModel::String(x@),
            InputChange::Strings(x) => InputChangeModel::Strings(x.deep_view()),
        }
    }
}

/// A key was pressed or released.
#[derive(Debug, Clone)]
pub struct Key {
    key: String,
    code: String,
    alt: bool,
    ctrl: bool,
    shift: bool,
    meta: bool,
}

impl View for Key {
    type V = KeyModel;

    closed spec fn view(&self) -> KeyModel {
        KeyModel {
            key: self.key@,
            code: self.code@,
            alt: self.alt,
            ctrl: self.ctrl,
            shift: self.shift,
            meta: self.meta,
        }
    }
}

impl Key {
    /// The key's value, such as `a` or `Enter`.
    pub fn key(&self) -> (result: &str)
        ensures
            result@ == self@.key,
    {
        self.key.as_str()
    }

    /// The physical key's code, such as `KeyA`.
    pub fn code(&self) -> (result: &str)
        ensures
            result@ == self@.code,
    {
        self.code.as_str()
    }

    /// Whether Alt was held.
    pub fn alt(&self) -> (result: bool)
        ensures
            result == self@.alt,
    {
        self.alt
    }

    /// Whether Control was held.
    pub fn ctrl(&self) -> (result: bool)
        ensures
            result == self@.ctrl,
    {
        self.ctrl
    }

    /// Whether Shift was held.
    pub fn shift(&self) -> (result: bool)
        ensures
            result == self@.shift,
    {
        self.shift
    }

    /// Whether Meta was held.
    pub fn meta(&self) -> (result: bool)
        ensures
            result == self@.meta,
    {
        self.meta
    }
}

/// The mouse moved or a button changed. Each coordinate is the bit pattern of the
/// binary64 number that the client sent.
#[derive(Debug, Clone)]
pub struct Mouse {
    client_x: u64,
    client_y: u64,
    page_x: u64,
    page_y: u64,
    offset_x: u64,
    offset_y: u64,
    movement_x: u64,
    movement_y: u64,
    screen_x: u64,
    screen_y: u64,
}

impl View for Mouse {
    type V = MouseModel;

    closed spec fn view(&self) -> MouseModel {
        MouseModel {
            client_x: self.client_x,
            client_y: self.client_y,
            page_x: self.page_x,
            page_y: self.page_y,
            offset_x: self.offset_x,
            offset_y: self.offset_y,
            movement_x: self.movement_x,
            movement_y: self.movement_y,
            screen_x: self.screen_x,
            screen_y: self.screen_y,
        }
    }
}

impl Mouse {
    /// Horizontal position in the viewport.
    pub fn client_x(&self) -> (result: u64)
        ensures
            result == self@.client_x,
    {
        self.client_x
    }

    /// Vertical position in the viewport.
    pub fn client_y(&self) -> (result: u64)
        ensures
            result == self@.client_y,
    {
        self.client_y
    }

    /// Horizontal position in the document.
    pub fn page_x(&self) -> (result: u64)
        ensures
            result == self@.page_x,
    {
        self.page_x
    }

    /// Vertical position in the document.
    pub fn page_y(&self) -> (result: u64)
        ensures
            result == self@.page_y,
    {
        self.page_y
    }

    /// Horizontal position in the target element.
    pub fn offset_x(&self) -> (result: u64)
        ensures
            result == self@.offset_x,
    {
        self.offset_x
    }

    /// Vertical position in the target element.
    pub fn offset_y(&self) -> (result: u64)
        ensures
            result == self@.offset_y,
    {
        self.offset_y
    }

    /// Horizontal distance from the previous mouse event.
    pub fn movement_x(&self) -> (result: u64)
        ensures
            result == self@.movement_x,
    {
        self.movement_x
    }

    /// Vertical distance from the previous mouse event.
    pub fn movement_y(&self) -> (result: u64)
        ensures
            result == self@.movement_y,
    {
        self.movement_y
    }

    /// Horizontal position on the screen.
    pub fn screen_x(&self) -> (result: u64)
        ensures
            result == self@.screen_x,
    {
        self.screen_x
    }

    /// Vertical position on the screen.
    pub fn screen_y(&self) -> (result: u64)
        ensures
            result == self@.screen_y,
    {
        self.screen_y
    }
}

/// The window was scrolled. Each offset is the bit pattern of the binary64 number
/// that the client sent.
#[derive(Debug, Clone)]
pub struct Scroll {
    scroll_x: u64,
    scroll_y: u64,
}

impl View for Scroll {
    type V = ScrollModel;

    closed spec fn view(&self) -> ScrollModel {
        ScrollModel { scroll_x: self.scroll_x, scroll_y: self.scroll_y }
    }
}

impl Scroll {
    /// Horizontal scroll offset.
    pub fn scroll_x(&self) -> (result: u64)
        ensures
            result == self@.scroll_x,
    {
        self.scroll_x
    }

    /// Vertical scroll offset.
    pub fn scroll_y(&self) -> (result: u64)
        ensures
            result == self@.scroll_y,
    {
        self.scroll_y
    }
}

} // verus!
