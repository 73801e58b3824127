//! Messages as they arrive from a client connection, already decoded.
use crate::model::{
    FormModel, InputChangeModel, InputModel, KeyModel, MessageModel, MouseModel, ScrollModel,
};
use vstd::prelude::*;

verus! {

/// The value that an input element reports when it changes.
#[derive(Debug, Clone)]
pub enum InputValue {
    Bool(bool),
    String(String),
    Strings(Vec<String>),
}

impl View for InputValue {
    type V = InputChangeModel;

    open spec fn view(&self) -> InputChangeModel {
        match self {
            InputValue::Bool(x) => InputChangeModel::Bool(*x),
            InputValue::String(x) => InputChangeModel::String(x@),
            InputValue::Strings(x) => InputChangeModel::Strings(x.deep_view()),
        }
    }
}

/// The data of one message from the client. Coordinates and scroll offsets are the
/// bit patterns of the binary64 numbers that the client sent.
#[derive(Debug, Clone)]
pub enum MessageFromSocketData {
    Click,
    WindowFocus,
    WindowBlur,
    NoData,
    FormSubmit { query: String },
    FormChange { query: String },
    InputFocus { value: String },
    InputBlur { value: String },
    InputChange { value: InputValue },
    Key { key: String, code: String, alt: bool, ctrl: bool, shift: bool, meta: bool },
    Mouse {
        client_x: u64,
        client_y: u64,
        page_x: u64,
        page_y: u64,
        offset_x: u64,
        offset_y: u64,
        movement_x: u64,
        movement_y: u64,
        screen_x: u64,
        screen_y: u64,
    },
    Scroll { scroll_x: u64, scroll_y: u64 },
}

impl View for MessageFromSocketData {
    type V = MessageModel;

    open spec fn view(&self) -> MessageModel {
        match self {
            MessageFromSocketData::Click => MessageModel::Click,
            MessageFromSocketData::WindowFocus => MessageModel::WindowFocus,
            MessageFromSocketData::WindowBlur => MessageModel::WindowBlur,
            MessageFromSocketData::NoData => MessageModel::NoData,
            MessageFromSocketData::FormSubmit { query } => MessageModel::FormSubmit(
                FormModel { query: query@ },
            ),
            MessageFromSocketData::FormChange { query } => MessageModel::FormChange(
                FormModel { query: query@ },
            ),
            MessageFromSocketData::InputFocus { value } => MessageModel::InputFocus(
                InputModel { value: value@ },
            ),
            MessageFromSocketData::InputBlur { value } => MessageModel::InputBlur(
                InputModel { value: value@ },
            ),
            MessageFromSocketData::InputChange { value } => MessageModel::InputChange(value@),
            MessageFromSocketData::Key { key, code, alt, ctrl, shift, meta } => MessageModel::Key(
                KeyModel {
                    key: key@,
                    code: code@,
                    alt: *alt,
                    ctrl: *ctrl,
                    shift: *shift,
                    meta: *meta,
                },
            ),
            MessageFromSocketData::Mouse {
                client_x,
                client_y,
                page_x,
                page_y,
                offset_x,
                offset_y,
                movement_x,
                movement_y,
                screen_x,
                screen_y,
            } => MessageModel::Mouse(
                MouseModel {
                    client_x: *client_x,
                    client_y: *client_y,
                    page_x: *page_x,
                    page_y: *page_y,
                    offset_x: *offset_x,
                    offset_y: *offset_y,
                    movement_x: *movement_x,
                    movement_y: *movement_y,
                    screen_x: *screen_x,
                    screen_y: *screen_y,
                },
            ),
            MessageFromSocketData::Scroll { scroll_x, scroll_y } => MessageModel::Scroll(
                ScrollModel { scroll_x: *scroll_x, scroll_y: *scroll_y },
            ),
        }
    }
}

} // verus!
