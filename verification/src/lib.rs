//! Normalization of client events.
//!
//! A message decoded from a client connection ([`life_cycle::MessageFromSocketData`])
//! is classified into one of a closed set of typed events ([`event_data::EventData`]),
//! or into no event at all. The classification only repackages fields: every string,
//! flag and coordinate of the message is found unchanged in the event.
//!
//! Coordinates and scroll offsets are double-precision numbers on the wire. They are
//! carried here as their IEEE 754 binary64 bit patterns (`u64`), so that "unchanged"
//! means bit for bit.
pub mod event_data;
pub mod laws;
pub mod life_cycle;
pub mod model;
