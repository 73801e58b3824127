//! The mathematical model of messages and events: what a value is, apart from how it
//! is stored. All contracts of this crate are stated over these types.
use vstd::prelude::*;

verus! {

/// A form, serialized as one query string.
pub struct FormModel {
    pub query: Seq<char>,
}

/// The current value of an input element.
pub struct InputModel {
    pub value: Seq<char>,
}

/// The new value of an input element, in one of three shapes.
pub enum InputChangeModel {
    /// A checkbox or a radio button.
    Bool(bool),
    /// A text field or a single select.
    String(Seq<char>),
    /// A multi-select or a group of checkboxes, in document order.
    Strings(Seq<Seq<char>>),
}

/// A key event: the key, its code and the four modifier flags.
pub struct KeyModel {
    pub key: Seq<char>,
    pub code: Seq<char>,
    pub alt: bool,
    pub ctrl: bool,
    pub shift: bool,
    pub meta: bool,
}

/// A mouse event: ten coordinates, each the bit pattern of a binary64 number.
pub struct MouseModel {
    pub client_x: u64,
    pub client_y: u64,
    pub page_x: u64,
    pub page_y: u64,
    pub offset_x: u64,
    pub offset_y: u64,
    pub movement_x: u64,
    pub movement_y: u64,
    pub screen_x: u64,
    pub screen_y: u64,
}

/// A scroll event: two offsets, each the bit pattern of a binary64 number.
pub struct ScrollModel {
    pub scroll_x: u64,
    pub scroll_y: u64,
}

/// A message as it arrives from the client.
pub enum MessageModel {
    Click,
    WindowFocus,
    WindowBlur,
    NoData,
    FormSubmit(FormModel),
    FormChange(FormModel),
    InputFocus(InputModel),
    InputBlur(InputModel),
    InputChange(InputChangeModel),
    Key(KeyModel),
    Mouse(MouseModel),
    Scroll(ScrollModel),
}

/// An event as it is handed to the application.
pub enum EventModel {
    FormSubmit(FormModel),
    FormChange(FormModel),
    InputChange(InputChangeModel),
    InputFocus(InputModel),
    InputBlur(InputModel),
    Key(KeyModel),
    Mouse(MouseModel),
    Scroll(ScrollModel),
}

impl MessageModel {
    /// Whether the message carries nothing that an application would read.
    pub open spec fn carries_no_data(self) -> bool {
        self is Click || self is WindowFocus || self is WindowBlur || self is NoData
    }
}

/// The classification of a message: the event with the same payload, or no event
/// for a message that carries no data.
pub open spec fn normalize(message: MessageModel) -> Option<EventModel> {
    match message {
        MessageModel::Click => None,
        MessageModel::WindowFocus => None,
        MessageModel::WindowBlur => None,
        MessageModel::NoData => None,
        MessageModel::FormSubmit(form) => Some(EventModel::FormSubmit(form)),
        MessageModel::FormChange(form) => Some(EventModel::FormChange(form)),
        MessageModel::InputFocus(input) => Some(EventModel::InputFocus(input)),
        MessageModel::InputBlur(input) => Some(EventModel::InputBlur(input)),
        MessageModel::InputChange(change) => Some(EventModel::InputChange(change)),
        MessageModel::Key(key) => Some(EventModel::Key(key)),
        MessageModel::Mouse(mouse) => Some(EventModel::Mouse(mouse)),
        MessageModel::Scroll(scroll) => Some(EventModel::Scroll(scroll)),
    }
}

} // verus!
