//! What the tasks of the transport hand to each other, and what the client
//! tells its driver to do.
//!
//! The driver owns the socket and runs the tasks. Each task brings what
//! happened to the client as an event, and does what the client answers.

use super::notify::NotificationEvent;
use crate::dcrjson::result_types::{append_bytes, JsonResponse, JsonValue};
use std::collections::HashMap;
use vstd::prelude::*;
use vstd::string::*;

verus! {

/// A submitted RPC invocation on its way to the socket. The reply channel
/// that belongs to it stays with the driver, which finds it by the id.
#[derive(Debug, Clone, PartialEq, Eq)]
pub struct Command {
    /// The id of the request, unique per client.
    pub id: u64,
    /// The marshalled request.
    pub rpc_message: Vec<u8>,
    /// The method that the request calls.
    pub method: String,
}

/// What becomes of a request right after it was accepted.
#[derive(Debug, Clone, PartialEq, Eq)]
pub enum Outbound {
    /// The request waits in the queue behind others.
    Queued,
    /// This frame is to be written to the websocket now.
    Write(Vec<u8>),
    /// This body is to be sent as an HTTP POST of its own.
    Post(Vec<u8>),
}

/// An accepted request: its id, under which the reply will come, and what to
/// send now.
#[derive(Debug, Clone, PartialEq, Eq)]
pub struct Submission {
    pub id: u64,
    pub outbound: Outbound,
}

/// What the send middleman is woken by.
#[derive(Debug, Clone, PartialEq, Eq)]
pub enum MiddlemanEvent {
    /// A command was submitted.
    Command(Command),
    /// The writer has written the frame it was given.
    WriteAcknowledged,
    /// The queue has changed and is to be looked at again.
    QueueUpdated,
    /// The client asks for the transport to end.
    Disconnect,
}

/// What the send middleman asks for.
#[derive(Debug, Clone, PartialEq, Eq)]
pub enum MiddlemanAction {
    /// Nothing.
    Wait,
    /// Write this frame to the socket and acknowledge it.
    Write(Vec<u8>),
    /// The command came while no transport takes commands.
    Rejected,
    /// The transport has ended: close the reply channels of these requests
    /// (id and method), then acknowledge the disconnection.
    Closed(HashMap<u64, String>),
}

/// What the reconnect supervisor is woken by.
#[derive(Debug, Clone, Copy, PartialEq, Eq)]
pub enum SupervisorEvent {
    /// The reader has reported that the socket failed or was closed.
    ConnectionLost,
    /// A dial has ended; `true` if the new socket stands.
    Redialed(bool),
}

/// What the reconnect supervisor asks for.
#[derive(Debug, PartialEq, Eq)]
pub enum SupervisorAction {
    /// Nothing: the event came while the supervisor was not waiting for it.
    /// A socket that was dialled for nothing is dropped.
    Ignore,
    /// Dial the server now.
    Dial,
    /// Dial the server again after so many seconds.
    RetryAfter(u64),
    /// The transport has ended: close the reply channels of these requests.
    GiveUp(HashMap<u64, String>),
    /// Give the new halves of the socket to the reader and the writer, write
    /// this frame if there is one, and tell the application if it asked.
    Resume { write: Option<Vec<u8>>, connected: Option<NotificationEvent> },
}

/// Where the demultiplexer sends a message of the server.
#[derive(Debug, PartialEq, Eq)]
pub enum Routed {
    /// To the reply channel of the request with this id.
    Response { id: u64, response: JsonResponse },
    /// To the notification dispatcher.
    Notification { method: String, params: Vec<JsonValue> },
    /// To the dispatcher's catch-all: the message answers no pending request
    /// and is no notification the client knows.
    Unsolicited(JsonResponse),
}

/// A frame as the reader takes it off the socket.
#[derive(Debug, Clone, PartialEq, Eq)]
pub enum Frame {
    Text(String),
    Binary(Vec<u8>),
    Ping(Vec<u8>),
    Pong(Vec<u8>),
    Close,
}

/// What the reader does with what it has read.
#[derive(Debug, Clone, PartialEq, Eq)]
pub enum ReaderAction {
    /// Hand this payload to the demultiplexer and read on.
    Forward(Vec<u8>),
    /// Read on.
    Skip,
    /// Tell the supervisor that the socket is gone, and stop reading.
    Reconnect,
}

/// The bytes of an optional frame.
pub open spec fn frame_view(frame: Option<Vec<u8>>) -> Option<Seq<u8>> {
    match frame {
        Some(frame) => Some(frame@),
        None => None,
    }
}

impl MiddlemanAction {
    /// The frame that the action sends to the writer.
    pub open spec fn written(self) -> Option<Seq<u8>> {
        match self {
            MiddlemanAction::Write(frame) => Some(frame@),
            _ => None,
        }
    }
}

/// Decides what the reader does with what it has read: the payload of a text
/// or binary frame goes to the demultiplexer, a ping or pong is passed over,
/// and a close frame, a failed read (`None`) or the end of the stream call
/// for the supervisor.
pub fn handle_websocket_in(frame: Option<Frame>) -> (action: ReaderAction)
    ensures
        match frame {
            Some(Frame::Text(text)) => action matches ReaderAction::Forward(payload)
                && payload@ == vstd::utf8::encode_utf8(text@),
            Some(Frame::Binary(bytes)) => action == ReaderAction::Forward(bytes),
            Some(Frame::Ping(_)) | Some(Frame::Pong(_)) => action == ReaderAction::Skip,
            Some(Frame::Close) | None => action == ReaderAction::Reconnect,
        },
{
    match frame {
        Some(Frame::Text(text)) => {
            let mut payload: Vec<u8> = Vec::new();
            append_bytes(&mut payload, text.as_str().as_bytes());
            ReaderAction::Forward(payload)
        },
        Some(Frame::Binary(bytes)) => ReaderAction::Forward(bytes),
        Some(Frame::Ping(_)) => ReaderAction::Skip,
        Some(Frame::Pong(_)) => ReaderAction::Skip,
        Some(Frame::Close) => ReaderAction::Reconnect,
        None => ReaderAction::Reconnect,
    }
}

} // verus!
