//! The RPC client: what it remembers, and what it decides.
//!
//! A [`Client`] owns the id counter, the table of pending requests, the queue
//! of frames that wait for the socket, the table of subscriptions and the
//! state of the transport. It opens no socket and runs no task: its driver
//! tells it what happened (a command was submitted, a frame was written, a
//! message arrived, the socket failed, a dial ended) and carries out what the
//! client answers. Each method is one step of the machine of
//! [`model`](super::model); its contract names the step.

use super::connection::ConnConfig;
use super::constants::CONNECTION_RETRY_INTERVAL_SECS;
use super::error::RpcClientError;
use super::infrastructure::{
    frame_view, Command, MiddlemanAction, MiddlemanEvent, Outbound, Routed, Submission,
    SupervisorAction, SupervisorEvent,
};
use super::model::{
    id_after, id_following, is_registration_method, replay_frames, Link, Model, Subscriptions,
};
use super::notify::{
    is_notification_method, NotificationEvent, NotificationHandlers, NotificationStateTable,
};
use crate::dcrjson::result_types::{
    all_writable, request_frame, JsonNumber, JsonRequest, JsonResponse, JsonValue,
};
use crate::dcrjson::rpc_types::{
    same_text, METHOD_GET_BLOCKCHAIN_INFO, METHOD_GET_BLOCK_COUNT, METHOD_GET_BLOCK_HASH,
    METHOD_NOTIFIY_NEW_WORK, METHOD_NOTIFY_BLOCKS, METHOD_NOTIFY_NEW_TICKETS,
    METHOD_NOTIFY_NEW_TX, METHOD_NOTIFY_SPENT_AND_MISSED_TICKETS,
    METHOD_NOTIFY_STAKE_DIFFICULTY, METHOD_NOTIFY_WINNING_TICKETS,
    NOTIFICATION_METHOD_BLOCK_CONNECTED, NOTIFICATION_METHOD_BLOCK_DISCONNECTED,
    NOTIFICATION_METHOD_NEW_TICKETS, NOTIFICATION_METHOD_WORK,
};
use std::collections::HashMap;
use std::collections::VecDeque;
use vstd::prelude::*;
use vstd::string::*;

verus! {

broadcast use vstd::std_specs::hash::group_hash_axioms;

/// Represents a Decred RPC client which allows easy access to the various RPC
/// methods available on a Decred RPC server.
///
/// Every call is asynchronous: a method that submits a request returns at
/// once with the id under which the reply will arrive, and the reply is
/// handed out by [`Client::handle_received_message`] when the server has
/// sent it.
pub struct Client {
    /// The id of the next request.
    id: u64,
    /// The connection associated with the client.
    conn: ConnConfig,
    /// Says which notification callbacks the application has set.
    notification_handler: NotificationHandlers,
    /// The successfully registered notifications, so that they can be
    /// registered again on reconnect.
    notification_state: NotificationStateTable,
    /// The requests that wait to be written to the server.
    requests_queue_container: VecDeque<Vec<u8>>,
    /// Maps the id of each request that waits for its reply to the request's
    /// method.
    receiver_channel_id_mapper: HashMap<u64, String>,
    /// Where the websocket transport stands; `Idle` while the client is
    /// disconnected.
    link: Link,
    /// Whether the writer holds a frame that it has not acknowledged.
    writer_busy: bool,
}

/// The frames of a queue.
pub open spec fn queue_view(queue: Seq<Vec<u8>>) -> Seq<Seq<u8>> {
    Seq::new(queue.len(), |i: int| queue[i]@)
}

/// The requests of a map from id to method.
pub open spec fn pending_view(pending: Map<u64, String>) -> Map<u64, Seq<char>> {
    Map::new(|id: u64| pending.contains_key(id), |id: u64| pending[id]@)
}

/// The id of a message, if it is a number that can be the id of a request.
pub open spec fn response_id(response: JsonResponse) -> Option<u64> {
    match response.id {
        JsonValue::Number(JsonNumber::Unsigned(n)) => Some(n),
        _ => None,
    }
}

/// Whether a message is a notification that the client knows: its id is
/// null and its method is the name of such a notification.
pub open spec fn announces(response: JsonResponse) -> bool {
    response.id is Null && (response.method matches JsonValue::Text(method)
        && is_notification_method(method@))
}

/// Where a message goes, given whether it answers a pending request.
pub open spec fn routing(response: JsonResponse, answers: bool) -> Routed {
    if answers {
        Routed::Response { id: response_id(response)->0, response }
    } else if announces(response) {
        Routed::Notification { method: response.method->Text_0, params: response.params }
    } else {
        Routed::Unsolicited(response)
    }
}

/// What the frame of a request leads to when it is submitted to a client
/// that takes commands.
pub open spec fn outbound_of(before: Model, method: Seq<char>, frame: Seq<u8>, outbound: Outbound) -> bool {
    match outbound {
        Outbound::Post(body) => before.http_post_mode && body@ == frame,
        Outbound::Write(written) => !before.http_post_mode && before.submit_written(method, frame)
            == Some(written@),
        Outbound::Queued => !before.http_post_mode && before.submit_written(method, frame) is None,
    }
}

/// Whether `r` and `after` are what the submission of a call of `method` with
/// `params` to the client `before` leads to.
///
/// The request gets the next id in any case. The submission fails with
/// `Marshaller` if a parameter cannot be written as JSON, else with
/// `RpcDisconnected` if the client takes no commands. Else the request is
/// accepted under that id, and posted, written or queued.
pub open spec fn submitted(
    before: Model,
    after: Model,
    method: Seq<char>,
    params: Seq<JsonValue>,
    r: Result<Submission, RpcClientError>,
) -> bool {
    let frame = request_frame(before.next_id, method, params);
    if !all_writable(params) {
        after == before.advance_id() && r == Err::<Submission, RpcClientError>(
            RpcClientError::Marshaller,
        )
    } else if !before.accepts() {
        after == before.advance_id() && r == Err::<Submission, RpcClientError>(
            RpcClientError::RpcDisconnected,
        )
    } else {
        &&& after == before.submit(method, frame)
        &&& r matches Ok(submission)
        &&& submission.id == before.next_id
        &&& outbound_of(before, method, frame, submission.outbound)
    }
}

/// Whether `r` and `after` are what a call for notifications leads to: in HTTP
/// POST mode it is refused and nothing changes, not even the id counter; else
/// the registration is submitted like any command.
pub open spec fn subscribed(
    before: Model,
    after: Model,
    method: Seq<char>,
    params: Seq<JsonValue>,
    r: Result<Submission, RpcClientError>,
) -> bool {
    if before.http_post_mode {
        after == before && r == Err::<Submission, RpcClientError>(
            RpcClientError::ClientNotConnected,
        )
    } else {
        submitted(before, after, method, params, r)
    }
}

/// An integer as a JSON value.
pub open spec fn integer_value(n: i64) -> JsonValue {
    if n < 0 {
        JsonValue::Number(JsonNumber::Negative(n))
    } else {
        JsonValue::Number(JsonNumber::Unsigned(n as u64))
    }
}

proof fn lemma_queue_push(queue: Seq<Vec<u8>>, frame: Vec<u8>)
    ensures
        queue_view(queue.push(frame)) == queue_view(queue).push(frame@),
{
    assert(queue_view(queue.push(frame)) =~= queue_view(queue).push(frame@));
}

proof fn lemma_queue_pop(queue: Seq<Vec<u8>>)
    requires
        queue.len() > 0,
    ensures
        queue_view(queue.subrange(1, queue.len() as int)) == queue_view(queue).drop_first(),
        queue_view(queue)[0] == queue[0]@,
{
    assert(queue_view(queue.subrange(1, queue.len() as int)) =~= queue_view(queue).drop_first());
}

proof fn lemma_queue_front(frame: Vec<u8>, queue: Seq<Vec<u8>>)
    ensures
        queue_view(seq![frame] + queue) == seq![frame@] + queue_view(queue),
{
    assert(queue_view(seq![frame] + queue) =~= seq![frame@] + queue_view(queue));
}

proof fn lemma_pending_insert(pending: Map<u64, String>, id: u64, method: String)
    ensures
        pending_view(pending.insert(id, method)) == pending_view(pending).insert(id, method@),
{
    assert(pending_view(pending.insert(id, method)) =~= pending_view(pending).insert(
        id,
        method@,
    ));
}

proof fn lemma_pending_remove(pending: Map<u64, String>, id: u64)
    ensures
        pending_view(pending.remove(id)) == pending_view(pending).remove(id),
{
    assert(pending_view(pending.remove(id)) =~= pending_view(pending).remove(id));
}

proof fn lemma_id_after_step(first: u64, k: nat)
    ensures
        id_after(first, 0) == first,
        id_following(id_after(first, k)) == id_after(first, k + 1),
{
}

/// Whether `method` asks the server to start sending a kind of notification.
pub fn is_registration(method: &str) -> (registration: bool)
    ensures
        registration == is_registration_method(method@),
{
    same_text(method, METHOD_NOTIFY_BLOCKS) || same_text(method, METHOD_NOTIFY_NEW_TICKETS)
        || same_text(method, METHOD_NOTIFIY_NEW_WORK) || same_text(method, METHOD_NOTIFY_NEW_TX)
        || same_text(method, METHOD_NOTIFY_WINNING_TICKETS) || same_text(
        method,
        METHOD_NOTIFY_SPENT_AND_MISSED_TICKETS,
    ) || same_text(method, METHOD_NOTIFY_STAKE_DIFFICULTY)
}

/// Whether `method` is the name of a notification that the client knows.
pub fn is_notification(method: &str) -> (known: bool)
    ensures
        known == is_notification_method(method@),
{
    same_text(method, NOTIFICATION_METHOD_BLOCK_CONNECTED) || same_text(
        method,
        NOTIFICATION_METHOD_BLOCK_DISCONNECTED,
    ) || same_text(method, NOTIFICATION_METHOD_NEW_TICKETS) || same_text(
        method,
        NOTIFICATION_METHOD_WORK,
    )
}

impl View for Client {
    type V = Model;

    closed spec fn view(&self) -> Model {
        Model {
            next_id: self.id,
            http_post_mode: self.conn.http_post_mode,
            disable_auto_reconnect: self.conn.disable_auto_reconnect,
            link: self.link,
            writer_busy: self.writer_busy,
            pending: pending_view(self.receiver_channel_id_mapper@),
            queue: queue_view(self.requests_queue_container@),
            subscriptions: self.notification_state@,
        }
    }
}

/// Creates a new RPC client for the connection that `conn` describes.
///
/// In websocket mode, unless `disable_connect_on_new` is set, the client is
/// to be connected from the start: `dialed` tells how the dial ended, and a
/// failed dial is the error of `new`. In every other case `dialed` is not
/// looked at and the client starts disconnected; in HTTP POST mode it takes
/// commands all the same.
///
/// Beside the client comes what the application is to be told: that the
/// client is connected, if it is and a handler for that is set.
pub fn new(
    conn: ConnConfig,
    notif_handler: NotificationHandlers,
    dialed: Result<(), RpcClientError>,
) -> (r: Result<(Client, Option<NotificationEvent>), RpcClientError>)
    ensures
        match r {
            Ok((client, connected)) => {
                &&& client.config() == conn
                &&& client.handlers() == notif_handler
                &&& if conn.http_post_mode || conn.disable_connect_on_new {
                    &&& client@ == Model::initial(conn.http_post_mode, conn.disable_auto_reconnect)
                    &&& connected is None
                } else {
                    &&& dialed is Ok
                    &&& client@ == Model::initial(
                        conn.http_post_mode,
                        conn.disable_auto_reconnect,
                    ).connect(true)
                    &&& connected == notif_handler.connected()
                }
            },
            Err(e) => !conn.http_post_mode && !conn.disable_connect_on_new && dialed == Err::<
                (),
                RpcClientError,
            >(e),
        },
{
    let connects = !conn.disable_connect_on_new() && !conn.is_http_mode();
    let mut client = Client {
        id: 1,
        conn,
        notification_handler: notif_handler,
        notification_state: NotificationStateTable::new(),
        requests_queue_container: VecDeque::new(),
        receiver_channel_id_mapper: HashMap::new(),
        link: Link::Idle,
        writer_busy: false,
    };
    assert(client@.pending =~= Map::<u64, Seq<char>>::empty());
    assert(client@.queue =~= Seq::<Seq<u8>>::empty());
    if connects {
        match dialed {
            Ok(()) => {
                let connected = client.ws_handler();
                Ok((client, connected))
            },
            Err(e) => Err(e),
        }
    } else {
        Ok((client, None))
    }
}

impl Client {
    /// The configuration that the client was made with.
    pub closed spec fn config(&self) -> ConnConfig {
        self.conn
    }

    /// The handlers that the client was made with.
    pub closed spec fn handlers(&self) -> NotificationHandlers {
        self.notification_handler
    }

    /// The configuration that the client was made with. The mode of the
    /// client and its way with a failed socket are the configuration's.
    pub fn conn(&self) -> (conn: &ConnConfig)
        ensures
            *conn == self.config(),
            self@.http_post_mode == conn.http_post_mode,
            self@.disable_auto_reconnect == conn.disable_auto_reconnect,
    {
        &self.conn
    }

    /// The handlers that the client was made with.
    pub fn notification_handler(&self) -> (handlers: &NotificationHandlers)
        ensures
            *handlers == self.handlers(),
    {
        &self.notification_handler
    }

    /// The successfully registered notifications.
    pub fn notification_state(&self) -> (table: &NotificationStateTable)
        ensures
            table@ == self@.subscriptions,
    {
        &self.notification_state
    }

    /// The number of requests that wait for their reply.
    pub fn pending_requests(&self) -> (n: usize)
        ensures
            n == self@.pending.dom().len(),
            self@.pending.dom().finite(),
    {
        assert(self@.pending.dom() =~= self.receiver_channel_id_mapper@.dom());
        self.receiver_channel_id_mapper.len()
    }

    /// Whether the request with this id waits for its reply.
    pub fn is_pending(&self, id: u64) -> (pending: bool)
        ensures
            pending == self@.pending.contains_key(id),
    {
        self.receiver_channel_id_mapper.contains_key(&id)
    }

    /// The number of frames that wait to be written.
    pub fn queued_requests(&self) -> (n: usize)
        ensures
            n == self@.queue.len(),
    {
        self.requests_queue_container.len()
    }

    /// Starts the websocket transport on a socket that stands: the writer is
    /// free and commands are taken from now on. Says what the application is
    /// to be told.
    fn ws_handler(&mut self) -> (connected: Option<NotificationEvent>)
        ensures
            final(self)@ == (Model { link: Link::Connected, writer_busy: false, ..old(self)@ }),
            final(self).config() == old(self).config(),
            final(self).handlers() == old(self).handlers(),
            connected == old(self).handlers().connected(),
    {
        self.link = Link::Connected;
        self.writer_busy = false;
        self.connected_event()
    }

    fn connected_event(&self) -> (connected: Option<NotificationEvent>)
        ensures
            connected == self.handlers().connected(),
    {
        if self.notification_handler.on_client_connected {
            Some(NotificationEvent::ClientConnected)
        } else {
            None
        }
    }

    /// Returns the next id to be used when sending a JSON-RPC message. The id
    /// lets a response be associated with its request. The counter starts at
    /// 1 and wraps at the end of `u64`.
    pub fn next_id(&mut self) -> (id: u64)
        ensures
            id == old(self)@.next_id,
            final(self)@ == old(self)@.advance_id(),
            final(self).config() == old(self).config(),
            final(self).handlers() == old(self).handlers(),
    {
        let id = self.id;
        self.id = if id == u64::MAX {
            0
        } else {
            id + 1
        };
        id
    }

    /// Establishes the websocket connection of a client that is disconnected;
    /// `dialed` tells how the dial ended.
    ///
    /// Fails with `WebsocketAlreadyConnected`, whatever the dial, if the
    /// client is connected or runs in HTTP POST mode, and with the dial's
    /// error if the dial failed; the client is then as it was.
    pub fn connect(&mut self, dialed: Result<(), RpcClientError>) -> (r: Result<
        Option<NotificationEvent>,
        RpcClientError,
    >)
        ensures
            final(self).config() == old(self).config(),
            final(self).handlers() == old(self).handlers(),
            final(self)@ == old(self)@.connect(dialed is Ok),
            old(self)@.refuses_connect() ==> r == Err::<Option<NotificationEvent>, RpcClientError>(
                RpcClientError::WebsocketAlreadyConnected,
            ),
            !old(self)@.refuses_connect() ==> match dialed {
                Ok(_) => r == Ok::<Option<NotificationEvent>, RpcClientError>(
                    old(self).handlers().connected(),
                ),
                Err(e) => r == Err::<Option<NotificationEvent>, RpcClientError>(e),
            },
    {
        if !self.is_disconnected() || self.conn.is_http_mode() {
            return Err(RpcClientError::WebsocketAlreadyConnected);
        }
        match dialed {
            Ok(()) => Ok(self.ws_handler()),
            Err(e) => Err(e),
        }
    }

    /// Marshals a method and its parameters into a JSON-RPC request, under
    /// the next id. The id is used up even if the parameters cannot be
    /// written, which is the one way to fail.
    pub fn marshal_command(&mut self, method: &str, params: &[JsonValue]) -> (r: (
        u64,
        Result<Vec<u8>, RpcClientError>,
    ))
        ensures
            r.0 == old(self)@.next_id,
            final(self)@ == old(self)@.advance_id(),
            final(self).config() == old(self).config(),
            final(self).handlers() == old(self).handlers(),
            match r.1 {
                Ok(frame) => all_writable(params@) && frame@ == request_frame(
                    r.0,
                    method@,
                    params@,
                ),
                Err(e) => !all_writable(params@) && e == RpcClientError::Marshaller,
            },
    {
        let id = self.next_id();
        let request = JsonRequest { jsonrpc: "1.0", id, method, params };
        (id, request.to_vec())
    }

    /// Submits a call of `method` with `params`: a custom command, or one of
    /// the commands that the client has a method for.
    ///
    /// The request gets the next id in any case. It fails with `Marshaller`
    /// if a parameter cannot be written as JSON, and with `RpcDisconnected`
    /// if no transport takes commands: the client is disconnected and does
    /// not run in HTTP POST mode. Else the reply will come under the id that
    /// is returned, and the request is posted (HTTP POST mode), written to
    /// the websocket (the writer is free and nothing waits before it) or
    /// queued.
    pub fn send_custom_command(&mut self, method: &str, params: &[JsonValue]) -> (r: Result<
        Submission,
        RpcClientError,
    >)
        ensures
            final(self).config() == old(self).config(),
            final(self).handlers() == old(self).handlers(),
            submitted(old(self)@, final(self)@, method@, params@, r),
    {
        let (id, msg) = self.marshal_command(method, params);
        let msg = match msg {
            Ok(msg) => msg,
            Err(e) => {
                return Err(e);
            },
        };
        if self.conn.is_http_mode() {
            return Ok(Submission { id, outbound: Outbound::Post(msg) });
        }
        let cmd = Command { id, rpc_message: msg, method: String::from_str(method) };
        match self.ws_write_middleman(MiddlemanEvent::Command(cmd)) {
            MiddlemanAction::Write(frame) => Ok(Submission { id, outbound: Outbound::Write(frame) }),
            MiddlemanAction::Wait => Ok(Submission { id, outbound: Outbound::Queued }),
            _ => Err(RpcClientError::RpcDisconnected),
        }
    }

    /// The writer's driver: hands the writer the head of the queue, if the
    /// socket is up, the writer is free and a frame waits.
    pub fn handle_websocket_out(&mut self) -> (frame: Option<Vec<u8>>)
        ensures
            final(self)@ == old(self)@.pump(),
            frame_view(frame) == old(self)@.pumped(),
            final(self).config() == old(self).config(),
            final(self).handlers() == old(self).handlers(),
    {
        if self.link == Link::Connected && !self.writer_busy && self.requests_queue_container.len()
            > 0 {
            proof {
                lemma_queue_pop(self.requests_queue_container@);
            }
            let frame = self.requests_queue_container.pop_front();
            self.writer_busy = true;
            frame
        } else {
            None
        }
    }

    /// The send middleman: takes new commands, feeds the writer one frame at
    /// a time, and winds the transport up when the client disconnects.
    ///
    /// - A command is registered under its id and goes to the end of the
    ///   queue; the head of the queue is written if the writer is free. While
    ///   no transport runs, or in HTTP POST mode, the command is rejected.
    /// - An acknowledgement frees the writer, which gets the next frame.
    /// - A queue update has the writer look at the queue again.
    /// - A disconnect ends the transport: no command is taken any more, the
    ///   queue is emptied, and the reply channels of all pending requests are
    ///   to be closed. On a client that is disconnected it changes nothing.
    pub fn ws_write_middleman(&mut self, event: MiddlemanEvent) -> (action: MiddlemanAction)
        ensures
            final(self).config() == old(self).config(),
            final(self).handlers() == old(self).handlers(),
            match event {
                MiddlemanEvent::Command(cmd) => if old(self)@.enqueues() {
                    let taken = old(self)@.enqueue(cmd.id, cmd.method@, cmd.rpc_message@);
                    &&& final(self)@ == taken.pump()
                    &&& action.written() == taken.pumped()
                    &&& action is Write || action is Wait
                } else {
                    &&& final(self)@ == old(self)@
                    &&& action is Rejected
                },
                MiddlemanEvent::WriteAcknowledged => {
                    &&& final(self)@ == old(self)@.acknowledge()
                    &&& action.written() == old(self)@.acknowledge_written()
                    &&& action is Write || action is Wait
                },
                MiddlemanEvent::QueueUpdated => {
                    &&& final(self)@ == old(self)@.pump()
                    &&& action.written() == old(self)@.pumped()
                    &&& action is Write || action is Wait
                },
                MiddlemanEvent::Disconnect => {
                    &&& final(self)@ == old(self)@.disconnect()
                    &&& action matches MiddlemanAction::Closed(closed) && pending_view(closed@)
                        == old(self)@.disconnect_closed()
                },
            },
    {
        match event {
            MiddlemanEvent::Command(cmd) => {
                if self.conn.is_http_mode() || self.is_disconnected() {
                    return MiddlemanAction::Rejected;
                }
                proof {
                    lemma_pending_insert(self.receiver_channel_id_mapper@, cmd.id, cmd.method);
                    lemma_queue_push(self.requests_queue_container@, cmd.rpc_message);
                }
                self.receiver_channel_id_mapper.insert(cmd.id, cmd.method);
                self.requests_queue_container.push_back(cmd.rpc_message);
                self.write_next()
            },
            MiddlemanEvent::WriteAcknowledged => {
                if self.link == Link::Connected {
                    self.writer_busy = false;
                    self.write_next()
                } else {
                    MiddlemanAction::Wait
                }
            },
            MiddlemanEvent::QueueUpdated => self.write_next(),
            MiddlemanEvent::Disconnect => MiddlemanAction::Closed(self.close_transport()),
        }
    }

    fn write_next(&mut self) -> (action: MiddlemanAction)
        ensures
            final(self)@ == old(self)@.pump(),
            action.written() == old(self)@.pumped(),
            action is Write || action is Wait,
            final(self).config() == old(self).config(),
            final(self).handlers() == old(self).handlers(),
    {
        match self.handle_websocket_out() {
            Some(frame) => MiddlemanAction::Write(frame),
            None => MiddlemanAction::Wait,
        }
    }

    /// Ends the transport of a client that is not disconnected, and returns
    /// the requests that were pending.
    fn close_transport(&mut self) -> (closed: HashMap<u64, String>)
        ensures
            final(self)@ == old(self)@.disconnect(),
            pending_view(closed@) == old(self)@.disconnect_closed(),
            final(self).config() == old(self).config(),
            final(self).handlers() == old(self).handlers(),
    {
        let mut closed: HashMap<u64, String> = HashMap::new();
        if self.is_disconnected() {
            assert(pending_view(closed@) =~= Map::<u64, Seq<char>>::empty());
            return closed;
        }
        self.link = Link::Idle;
        self.writer_busy = false;
        self.requests_queue_container.clear();
        core::mem::swap(&mut self.receiver_channel_id_mapper, &mut closed);
        assert(self@.pending =~= Map::<u64, Seq<char>>::empty());
        assert(self@.queue =~= Seq::<Seq<u8>>::empty());
        closed
    }

    /// The demultiplexer: says where a message of the server goes.
    ///
    /// A message whose id is a number under which a request is pending is the
    /// response to that request: the request is pending no more, and if it
    /// registered a notification and the server reports no error, its method
    /// enters the table of subscriptions. A message with a null id and the
    /// method of a known notification goes to the dispatcher. Every other
    /// message is unsolicited.
    pub fn handle_received_message(&mut self, response: JsonResponse) -> (routed: Routed)
        ensures
            final(self)@ == old(self)@.route(response_id(response), response.error is Null),
            routed == routing(response, old(self)@.answers(response_id(response))),
            final(self).config() == old(self).config(),
            final(self).handlers() == old(self).handlers(),
    {
        let id = match &response.id {
            JsonValue::Number(JsonNumber::Unsigned(n)) => Some(*n),
            _ => None,
        };
        if let Some(n) = id {
            proof {
                lemma_pending_remove(self.receiver_channel_id_mapper@, n);
            }
            match self.receiver_channel_id_mapper.remove(&n) {
                Some(method) => {
                    let accepted = match &response.error {
                        JsonValue::Null => true,
                        _ => false,
                    };
                    if accepted && is_registration(method.as_str()) {
                        let mut table = NotificationStateTable::new();
                        core::mem::swap(&mut self.notification_state, &mut table);
                        let mut table = table.record(method, n);
                        core::mem::swap(&mut self.notification_state, &mut table);
                    }
                    return Routed::Response { id: n, response };
                },
                None => {
                    assert(self@.pending =~= old(self)@.pending);
                },
            }
        }
        let JsonResponse { id, method, result, params, error } = response;
        let null_id = match &id {
            JsonValue::Null => true,
            _ => false,
        };
        match method {
            JsonValue::Text(name) => {
                if null_id && is_notification(name.as_str()) {
                    Routed::Notification { method: name, params }
                } else {
                    Routed::Unsolicited(
                        JsonResponse { id, method: JsonValue::Text(name), result, params, error },
                    )
                }
            },
            method => Routed::Unsolicited(JsonResponse { id, method, result, params, error }),
        }
    }

    /// The reconnect supervisor.
    ///
    /// When the socket of a connected client is lost, the supervisor dials
    /// again, unless `disable_auto_reconnect` is set: then the transport ends,
    /// no command is taken any more and the reply channels of all pending
    /// requests are to be closed. While it dials, commands are still taken
    /// and queued.
    ///
    /// When a dial has failed, the next one is due after
    /// `CONNECTION_RETRY_INTERVAL_SECS` seconds. When one has succeeded, every
    /// method of the table of subscriptions is registered again: its request,
    /// under a fresh id, goes to the head of the queue, before anything that
    /// waits there. The writer is free and gets the first frame.
    ///
    /// An event that comes at any other time changes nothing.
    pub fn ws_reconnect_handler(&mut self, event: SupervisorEvent) -> (action: SupervisorAction)
        ensures
            final(self).config() == old(self).config(),
            final(self).handlers() == old(self).handlers(),
            match event {
                SupervisorEvent::ConnectionLost => {
                    &&& final(self)@ == old(self)@.connection_lost()
                    &&& if !(old(self)@.link is Connected) {
                        action is Ignore
                    } else if old(self)@.disable_auto_reconnect {
                        action matches SupervisorAction::GiveUp(closed) && pending_view(closed@)
                            == old(self)@.pending
                    } else {
                        action is Dial
                    }
                },
                SupervisorEvent::Redialed(established) => {
                    &&& final(self)@ == old(self)@.redialed(established)
                    &&& if !(old(self)@.link is Reconnecting) {
                        action is Ignore
                    } else if established {
                        action matches SupervisorAction::Resume { write, connected }
                            && frame_view(write) == old(self)@.redialed_written(true) && connected
                            == old(self).handlers().connected()
                    } else {
                        action == SupervisorAction::RetryAfter(CONNECTION_RETRY_INTERVAL_SECS)
                    }
                },
            },
    {
        match event {
            SupervisorEvent::ConnectionLost => {
                if self.link != Link::Connected {
                    return SupervisorAction::Ignore;
                }
                self.writer_busy = false;
                if self.conn.disable_auto_reconnect() {
                    let mut closed: HashMap<u64, String> = HashMap::new();
                    self.link = Link::Idle;
                    core::mem::swap(&mut self.receiver_channel_id_mapper, &mut closed);
                    assert(self@.pending =~= Map::<u64, Seq<char>>::empty());
                    SupervisorAction::GiveUp(closed)
                } else {
                    self.link = Link::Reconnecting;
                    SupervisorAction::Dial
                }
            },
            SupervisorEvent::Redialed(established) => {
                if self.link != Link::Reconnecting {
                    return SupervisorAction::Ignore;
                }
                if !established {
                    return SupervisorAction::RetryAfter(CONNECTION_RETRY_INTERVAL_SECS);
                }
                self.replay_subscriptions();
                self.link = Link::Connected;
                self.writer_busy = false;
                let write = self.handle_websocket_out();
                SupervisorAction::Resume { write, connected: self.connected_event() }
            },
        }
    }

    /// Puts a registration of every method of the table of subscriptions at
    /// the head of the queue, each under a fresh id, in the table's order.
    fn replay_subscriptions(&mut self)
        ensures
            final(self)@ == (Model {
                next_id: id_after(old(self)@.next_id, old(self)@.subscriptions.len()),
                queue: replay_frames(old(self)@.subscriptions, old(self)@.next_id) + old(
                    self,
                )@.queue,
                ..old(self)@
            }),
            final(self).config() == old(self).config(),
            final(self).handlers() == old(self).handlers(),
    {
        let n = self.notification_state.len();
        let ghost first = self.id;
        let ghost table = self.notification_state@;
        let mut frames: Vec<Vec<u8>> = Vec::new();
        let mut i: usize = 0;
        proof {
            lemma_id_after_step(first, 0);
        }
        while i < n
            invariant
                i <= n,
                n == table.len(),
                self.notification_state@ == table,
                self@ == (Model { next_id: id_after(first, i as nat), ..old(self)@ }),
                self.config() == old(self).config(),
                self.handlers() == old(self).handlers(),
                frames@.len() == i,
                forall|j: int| 0 <= j < i ==> (#[trigger] frames@[j])@ == replay_frames(table, first)[j],
            decreases n - i,
        {
            proof {
                lemma_id_after_step(first, i as nat);
            }
            let id = self.next_id();
            let entry = self.notification_state.get(i);
            let request = JsonRequest {
                jsonrpc: "1.0",
                id,
                method: entry.method.as_str(),
                params: &[],
            };
            let ghost params = request.params@;
            assert(params =~= Seq::<JsonValue>::empty());
            match request.to_vec() {
                Ok(frame) => {
                    frames.push(frame);
                },
                Err(_) => {
                    assert(false);
                },
            }
            i = i + 1;
        }
        let ghost waiting = self.requests_queue_container@;
        while i > 0
            invariant
                i <= n,
                n == table.len(),
                frames@.len() == i,
                forall|j: int| 0 <= j < i ==> (#[trigger] frames@[j])@ == replay_frames(table, first)[j],
                self@ == (Model {
                    next_id: id_after(first, n as nat),
                    queue: replay_frames(table, first).subrange(i as int, n as int) + queue_view(
                        waiting,
                    ),
                    ..old(self)@
                }),
                self.config() == old(self).config(),
                self.handlers() == old(self).handlers(),
            decreases i,
        {
            let frame = frames.pop();
            match frame {
                Some(frame) => {
                    proof {
                        lemma_queue_front(frame, self.requests_queue_container@);
                        assert(seq![frame@] + (replay_frames(table, first).subrange(
                            i as int,
                            n as int,
                        ) + queue_view(waiting)) =~= replay_frames(table, first).subrange(
                            i as int - 1,
                            n as int,
                        ) + queue_view(waiting));
                    }
                    self.requests_queue_container.push_front(frame);
                },
                None => {},
            }
            i = i - 1;
        }
        assert(replay_frames(table, first).subrange(0, n as int) =~= replay_frames(table, first));
    }

    /// Asks for the number of blocks in the longest block chain.
    pub fn get_block_count(&mut self) -> (r: Result<Submission, RpcClientError>)
        ensures
            final(self).config() == old(self).config(),
            final(self).handlers() == old(self).handlers(),
            submitted(
                old(self)@,
                final(self)@,
                METHOD_GET_BLOCK_COUNT@,
                Seq::<JsonValue>::empty(),
                r,
            ),
    {
        let params: Vec<JsonValue> = Vec::new();
        self.send_custom_command(METHOD_GET_BLOCK_COUNT, params.as_slice())
    }

    /// Asks for information about the current state of the block chain.
    pub fn get_blockchain_info(&mut self) -> (r: Result<Submission, RpcClientError>)
        ensures
            final(self).config() == old(self).config(),
            final(self).handlers() == old(self).handlers(),
            submitted(
                old(self)@,
                final(self)@,
                METHOD_GET_BLOCKCHAIN_INFO@,
                Seq::<JsonValue>::empty(),
                r,
            ),
    {
        let params: Vec<JsonValue> = Vec::new();
        self.send_custom_command(METHOD_GET_BLOCKCHAIN_INFO, params.as_slice())
    }

    /// Asks for the hash of the block at `block_height` in the best block
    /// chain.
    pub fn get_block_hash(&mut self, block_height: i64) -> (r: Result<Submission, RpcClientError>)
        ensures
            final(self).config() == old(self).config(),
            final(self).handlers() == old(self).handlers(),
            submitted(
                old(self)@,
                final(self)@,
                METHOD_GET_BLOCK_HASH@,
                seq![integer_value(block_height)],
                r,
            ),
    {
        let mut params: Vec<JsonValue> = Vec::new();
        if block_height < 0 {
            params.push(JsonValue::Number(JsonNumber::Negative(block_height)));
        } else {
            params.push(JsonValue::Number(JsonNumber::Unsigned(block_height as u64)));
        }
        assert(params@ =~= seq![integer_value(block_height)]);
        self.send_custom_command(METHOD_GET_BLOCK_HASH, params.as_slice())
    }

    /// Submits a request for notifications, unless the client runs in HTTP
    /// POST mode, where there are none.
    fn subscribe(&mut self, method: &str, params: &[JsonValue]) -> (r: Result<
        Submission,
        RpcClientError,
    >)
        ensures
            final(self).config() == old(self).config(),
            final(self).handlers() == old(self).handlers(),
            subscribed(old(self)@, final(self)@, method@, params@, r),
    {
        if self.conn.is_http_mode() {
            return Err(RpcClientError::ClientNotConnected);
        }
        self.send_custom_command(method, params)
    }

    /// Asks the server for a notification whenever a block is connected to
    /// or disconnected from the best chain.
    pub fn notify_blocks(&mut self) -> (r: Result<Submission, RpcClientError>)
        ensures
            final(self).config() == old(self).config(),
            final(self).handlers() == old(self).handlers(),
            subscribed(
                old(self)@,
                final(self)@,
                METHOD_NOTIFY_BLOCKS@,
                Seq::<JsonValue>::empty(),
                r,
            ),
    {
        let params: Vec<JsonValue> = Vec::new();
        self.subscribe(METHOD_NOTIFY_BLOCKS, params.as_slice())
    }

    /// Asks the server for a notification whenever a new block template is
    /// generated.
    pub fn notify_work(&mut self) -> (r: Result<Submission, RpcClientError>)
        ensures
            final(self).config() == old(self).config(),
            final(self).handlers() == old(self).handlers(),
            subscribed(
                old(self)@,
                final(self)@,
                METHOD_NOTIFIY_NEW_WORK@,
                Seq::<JsonValue>::empty(),
                r,
            ),
    {
        let params: Vec<JsonValue> = Vec::new();
        self.subscribe(METHOD_NOTIFIY_NEW_WORK, params.as_slice())
    }

    /// Asks the server for a notification whenever tickets have matured.
    pub fn notify_new_tickets(&mut self) -> (r: Result<Submission, RpcClientError>)
        ensures
            final(self).config() == old(self).config(),
            final(self).handlers() == old(self).handlers(),
            subscribed(
                old(self)@,
                final(self)@,
                METHOD_NOTIFY_NEW_TICKETS@,
                Seq::<JsonValue>::empty(),
                r,
            ),
    {
        let params: Vec<JsonValue> = Vec::new();
        self.subscribe(METHOD_NOTIFY_NEW_TICKETS, params.as_slice())
    }

    /// Asks the server for a notification whenever it accepts a transaction
    /// into its memory pool; `verbose` asks for the details of each.
    pub fn notify_new_transactions(&mut self, verbose: bool) -> (r: Result<
        Submission,
        RpcClientError,
    >)
        ensures
            final(self).config() == old(self).config(),
            final(self).handlers() == old(self).handlers(),
            subscribed(
                old(self)@,
                final(self)@,
                METHOD_NOTIFY_NEW_TX@,
                seq![JsonValue::Bool(verbose)],
                r,
            ),
    {
        let mut params: Vec<JsonValue> = Vec::new();
        params.push(JsonValue::Bool(verbose));
        assert(params@ =~= seq![JsonValue::Bool(verbose)]);
        self.subscribe(METHOD_NOTIFY_NEW_TX, params.as_slice())
    }

    /// Disconnects from the server: the transport ends, the queue is emptied
    /// and every pending request is given up. Returns the requests whose
    /// reply channels are to be closed, id and method. On a client that is
    /// disconnected, which one in HTTP POST mode always is, nothing happens
    /// and nothing is returned.
    pub fn disconnect(&mut self) -> (closed: HashMap<u64, String>)
        ensures
            final(self)@ == old(self)@.disconnect(),
            pending_view(closed@) == old(self)@.disconnect_closed(),
            final(self).config() == old(self).config(),
            final(self).handlers() == old(self).handlers(),
    {
        match self.ws_write_middleman(MiddlemanEvent::Disconnect) {
            MiddlemanAction::Closed(closed) => closed,
            _ => HashMap::new(),
        }
    }

    /// Forgets every registered notification.
    pub fn unregister_notification_state(&mut self)
        ensures
            final(self)@ == (Model { subscriptions: Subscriptions::empty(), ..old(self)@ }),
            final(self).config() == old(self).config(),
            final(self).handlers() == old(self).handlers(),
    {
        self.notification_state = NotificationStateTable::new();
    }

    /// Whether the websocket is disconnected.
    pub fn is_disconnected(&self) -> (disconnected: bool)
        ensures
            disconnected == self@.is_disconnected(),
    {
        self.link == Link::Idle
    }

    /// Shuts the client down: unless it is disconnected already, its
    /// subscriptions are forgotten and it is disconnected. Returns the
    /// requests whose reply channels are to be closed.
    pub fn shutdown(self) -> (closed: HashMap<u64, String>)
        ensures
            pending_view(closed@) == self@.disconnect_closed(),
    {
        let mut client = self;
        if client.is_disconnected() {
            let closed: HashMap<u64, String> = HashMap::new();
            assert(pending_view(closed@) =~= Map::<u64, Seq<char>>::empty());
            return closed;
        }
        client.unregister_notification_state();
        client.disconnect()
    }
}

} // verus!
