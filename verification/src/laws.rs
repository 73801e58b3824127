//! What holds of the conversion for every message, stated over `event_of`, the
//! value that `convert` returns, and over the models that the accessors read.
use crate::event_data::{event_of, event_view, lemma_event_of_models_normalize, EventData};
use crate::life_cycle::MessageFromSocketData;
use crate::model::normalize;
use vstd::prelude::*;

verus! {

/// A click, a window focus, a window blur and an empty message give no event, and
/// they are the only messages that give none.
pub proof fn law_no_event_exactly_without_data(data: MessageFromSocketData)
    ensures
        event_of(data) is None <==> (data is Click || data is WindowFocus || data is WindowBlur
            || data is NoData),
{
    lemma_event_of_models_normalize(data);
}

/// A submitted form gives a `FormSubmit` event whose query is the message's query.
pub proof fn law_form_submit_keeps_query(data: MessageFromSocketData)
    requires
        data is FormSubmit,
    ensures
        event_of(data) matches Some(EventData::FormSubmit(form)) && form@.query
            == data->FormSubmit_query@,
{
    lemma_event_of_models_normalize(data);
}

/// A changed form gives a `FormChange` event whose query is the message's query.
pub proof fn law_form_change_keeps_query(data: MessageFromSocketData)
    requires
        data is FormChange,
    ensures
        event_of(data) matches Some(EventData::FormChange(form)) && form@.query
            == data->FormChange_query@,
{
    lemma_event_of_models_normalize(data);
}

/// A focused input gives an `InputFocus` event whose value is the message's value.
pub proof fn law_input_focus_keeps_value(data: MessageFromSocketData)
    requires
        data is InputFocus,
    ensures
        event_of(data) matches Some(EventData::InputFocus(input)) && input@.value
            == data->InputFocus_value@,
{
    lemma_event_of_models_normalize(data);
}

/// A blurred input gives an `InputBlur` event whose value is the message's value.
pub proof fn law_input_blur_keeps_value(data: MessageFromSocketData)
    requires
        data is InputBlur,
    ensures
        event_of(data) matches Some(EventData::InputBlur(input)) && input@.value
            == data->InputBlur_value@,
{
    lemma_event_of_models_normalize(data);
}

/// A changed input gives an `InputChange` event of the same shape as the message's
/// value: a flag stays that flag, a string stays that string, and a list of strings
/// stays that list, with the same length and order.
pub proof fn law_input_change_keeps_shape(data: MessageFromSocketData)
    requires
        data is InputChange,
    ensures
        event_of(data) matches Some(EventData::InputChange(change)) && {
            let value = data->InputChange_value;
            &&& change@ == value@
            &&& value is Bool ==> change is Bool && change->Bool_0 == value->Bool_0
            &&& value is String ==> change is String && change->String_0@ == value->String_0@
            &&& value is Strings ==> change is Strings && change->Strings_0.deep_view()
                == value->Strings_0.deep_view()
        },
{
    lemma_event_of_models_normalize(data);
}

/// A key message gives a `Key` event in which each of the six fields is the
/// message's field of that name.
pub proof fn law_key_keeps_fields(data: MessageFromSocketData)
    requires
        data is Key,
    ensures
        event_of(data) matches Some(EventData::Key(k)) && {
            &&& k@.key == data->key@
            &&& k@.code == data->code@
            &&& k@.alt == data->alt
            &&& k@.ctrl == data->ctrl
            &&& k@.shift == data->shift
            &&& k@.meta == data->meta
        },
{
    lemma_event_of_models_normalize(data);
}

/// A mouse message gives a `Mouse` event in which each of the ten coordinates is
/// the message's coordinate of that name, bit for bit.
pub proof fn law_mouse_keeps_coordinates(data: MessageFromSocketData)
    requires
        data is Mouse,
    ensures
        event_of(data) matches Some(EventData::Mouse(m)) && {
            &&& m@.client_x == data->client_x
            &&& m@.client_y == data->client_y
            &&& m@.page_x == data->page_x
            &&& m@.page_y == data->page_y
            &&& m@.offset_x == data->offset_x
            &&& m@.offset_y == data->offset_y
            &&& m@.movement_x == data->movement_x
            &&& m@.movement_y == data->movement_y
            &&& m@.screen_x == data->screen_x
            &&& m@.screen_y == data->screen_y
        },
{
    lemma_event_of_models_normalize(data);
}

/// A scroll message gives a `Scroll` event with the message's two offsets, bit for
/// bit.
pub proof fn law_scroll_keeps_offsets(data: MessageFromSocketData)
    requires
        data is Scroll,
    ensures
        event_of(data) matches Some(EventData::Scroll(s)) && s@.scroll_x == data->scroll_x
            && s@.scroll_y == data->scroll_y,
{
    lemma_event_of_models_normalize(data);
}

/// Messages that are equal by value give events that are equal by value: the
/// conversion depends on nothing but what the message holds.
pub proof fn law_equal_messages_give_equal_events(a: MessageFromSocketData, b: MessageFromSocketData)
    requires
        a@ == b@,
    ensures
        event_view(event_of(a)) == event_view(event_of(b)),
        event_view(event_of(a)) == normalize(a@),
{
    lemma_event_of_models_normalize(a);
    lemma_event_of_models_normalize(b);
}

} // verus!
