//! What a live stream to a browser does with what it hears: the status stream
//! and the log stream send a snapshot first and then follow a broadcast.

use crate::devices::{status_frame, status_frame_of, DeviceChange, StatusUpdate};
use crate::log::Entry;
use vstd::prelude::*;

verus! {

/// What a stream hears, from its client or from the broadcast it follows.
#[derive(Debug)]
pub enum StreamEvent<T> {
    /// The client sent a frame; `close` says whether it was a close frame.
    Frame { close: bool },
    /// The client's side of the connection has ended.
    Hangup,
    /// The broadcast delivered an item.
    Item(T),
    /// The broadcast has overtaken the stream, which missed items, or has ended.
    Lagged,
}

/// What a stream does next.
#[derive(Debug)]
pub enum StreamAction<T> {
    /// Send this to the client, as an array of one element.
    Send(T),
    /// Nothing.
    Skip,
    /// End the stream; a client that wants more connects again and starts from
    /// a new snapshot.
    End,
}

/// What the status stream does on `event`: a close frame, a connection that
/// ended and a broadcast that was missed end the stream; a status event is sent
/// as the device's number with its new status; everything else is passed over.
pub open spec fn status_stream_action(event: StreamEvent<DeviceChange>) -> StreamAction<
    StatusUpdate,
> {
    match event {
        StreamEvent::Frame { close } => if close {
            StreamAction::End
        } else {
            StreamAction::Skip
        },
        StreamEvent::Hangup => StreamAction::End,
        StreamEvent::Item(change) => match status_frame_of(change) {
            Some(frame) => StreamAction::Send(frame),
            None => StreamAction::Skip,
        },
        StreamEvent::Lagged => StreamAction::End,
    }
}

/// What the status stream does on `event`.
pub fn status_stream_step(event: StreamEvent<DeviceChange>) -> (action: StreamAction<StatusUpdate>)
    ensures
        action == status_stream_action(event),
{
    match event {
        StreamEvent::Frame { close } => if close {
            StreamAction::End
        } else {
            StreamAction::Skip
        },
        StreamEvent::Hangup => StreamAction::End,
        StreamEvent::Item(change) => match status_frame(&change) {
            Some(frame) => StreamAction::Send(frame),
            None => StreamAction::Skip,
        },
        StreamEvent::Lagged => StreamAction::End,
    }
}

/// What the log stream does on `event`: it ends as the status stream does, and
/// sends every entry that is logged.
pub open spec fn log_stream_action(event: StreamEvent<Entry>) -> StreamAction<Entry> {
    match event {
        StreamEvent::Frame { close } => if close {
            StreamAction::End
        } else {
            StreamAction::Skip
        },
        StreamEvent::Hangup => StreamAction::End,
        StreamEvent::Item(entry) => StreamAction::Send(entry),
        StreamEvent::Lagged => StreamAction::End,
    }
}

/// What the log stream does on `event`.
pub fn log_stream_step(event: StreamEvent<Entry>) -> (action: StreamAction<Entry>)
    ensures
        action == log_stream_action(event),
{
    match event {
        StreamEvent::Frame { close } => if close {
            StreamAction::End
        } else {
            StreamAction::Skip
        },
        StreamEvent::Hangup => StreamAction::End,
        StreamEvent::Item(entry) => StreamAction::Send(entry),
        StreamEvent::Lagged => StreamAction::End,
    }
}

} // verus!
