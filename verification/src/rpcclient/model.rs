//! The client as a state machine over mathematical values.
//!
//! Every method of [`Client`](super::client::Client) is one step of this
//! machine: its contract says which [`Model`] the client stands for
//! afterwards. What holds of every run of the machine is proved in
//! [`guarantees`](super::guarantees).

use crate::dcrjson::result_types::{request_frame, JsonValue};
use crate::dcrjson::rpc_types::{
    METHOD_NOTIFIY_NEW_WORK, METHOD_NOTIFY_BLOCKS, METHOD_NOTIFY_NEW_TICKETS, METHOD_NOTIFY_NEW_TX,
    METHOD_NOTIFY_SPENT_AND_MISSED_TICKETS, METHOD_NOTIFY_STAKE_DIFFICULTY,
    METHOD_NOTIFY_WINNING_TICKETS,
};
use vstd::prelude::*;

verus! {

/// Where the websocket transport stands.
#[derive(Debug, Clone, Copy, PartialEq, Eq, Structural)]
pub enum Link {
    /// No transport runs: the client is disconnected.
    Idle,
    /// The socket is up.
    Connected,
    /// The socket failed and the supervisor is dialling again.
    Reconnecting,
}

/// The table of subscriptions: each method whose registration the server has
/// accepted, with the id of the request that registered it last.
pub type Subscriptions = Seq<(Seq<char>, u64)>;

/// What a client stands for.
pub struct Model {
    /// The id that the next request gets.
    pub next_id: u64,
    /// Whether requests go out as HTTP POSTs instead of over a websocket.
    pub http_post_mode: bool,
    /// Whether a failed socket ends the transport instead of being dialled again.
    pub disable_auto_reconnect: bool,
    pub link: Link,
    /// Whether a frame was handed to the writer and is not acknowledged yet.
    pub writer_busy: bool,
    /// The requests that wait for their reply: id and method.
    pub pending: Map<u64, Seq<char>>,
    /// The frames that wait to be written, the next one first.
    pub queue: Seq<Seq<u8>>,
    pub subscriptions: Subscriptions,
}

/// The id that follows `id`: the counter wraps at the end of `u64`.
pub open spec fn id_following(id: u64) -> u64 {
    if id == u64::MAX {
        0
    } else {
        (id + 1) as u64
    }
}

/// The id that a counter standing at `first` hands out after `k` others.
pub open spec fn id_after(first: u64, k: nat) -> u64 {
    ((first + k) % 0x1_0000_0000_0000_0000) as u64
}

/// Whether `method` asks the server to start sending a kind of notification.
pub open spec fn is_registration_method(method: Seq<char>) -> bool {
    ||| method == METHOD_NOTIFY_BLOCKS@
    ||| method == METHOD_NOTIFY_NEW_TICKETS@
    ||| method == METHOD_NOTIFIY_NEW_WORK@
    ||| method == METHOD_NOTIFY_NEW_TX@
    ||| method == METHOD_NOTIFY_WINNING_TICKETS@
    ||| method == METHOD_NOTIFY_SPENT_AND_MISSED_TICKETS@
    ||| method == METHOD_NOTIFY_STAKE_DIFFICULTY@
}

/// Whether the table holds `method`.
pub open spec fn registered(table: Subscriptions, method: Seq<char>) -> bool {
    exists|i: int| 0 <= i < table.len() && (#[trigger] table[i]).0 == method
}

/// A place where the table holds `method`.
pub open spec fn place_of(table: Subscriptions, method: Seq<char>) -> int {
    choose|i: int| 0 <= i < table.len() && (#[trigger] table[i]).0 == method
}

/// Whether no method stands twice in the table.
pub open spec fn distinct_methods(table: Subscriptions) -> bool {
    forall|i: int, j: int|
        0 <= i < table.len() && 0 <= j < table.len() && i != j ==> (#[trigger] table[i]).0 != (
        #[trigger] table[j]).0
}

/// The table after the server has accepted the registration of `method` that
/// was sent under `id`: a method that is new goes to the end, one that is
/// known keeps its place and gets the new id.
pub open spec fn record(table: Subscriptions, method: Seq<char>, id: u64) -> Subscriptions {
    if registered(table, method) {
        table.update(place_of(table, method), (method, id))
    } else {
        table.push((method, id))
    }
}

/// The frames that register the methods of the table again, in the table's
/// order, numbered from `first` on.
pub open spec fn replay_frames(table: Subscriptions, first: u64) -> Seq<Seq<u8>> {
    Seq::new(
        table.len(),
        |i: int| request_frame(id_after(first, i as nat), table[i].0, Seq::<JsonValue>::empty()),
    )
}

impl Model {
    /// A client that has just been made: nothing pending, nothing queued, no
    /// subscription, ids from 1 on.
    pub open spec fn initial(http_post_mode: bool, disable_auto_reconnect: bool) -> Model {
        Model {
            next_id: 1,
            http_post_mode,
            disable_auto_reconnect,
            link: Link::Idle,
            writer_busy: false,
            pending: Map::empty(),
            queue: Seq::empty(),
            subscriptions: Seq::empty(),
        }
    }

    pub open spec fn is_disconnected(self) -> bool {
        self.link is Idle
    }

    /// Whether a command that is submitted now is taken: in HTTP mode always,
    /// else while a transport runs.
    pub open spec fn accepts(self) -> bool {
        self.http_post_mode || !(self.link is Idle)
    }

    /// Whether a command that is submitted now goes to the queue of the
    /// websocket.
    pub open spec fn enqueues(self) -> bool {
        !self.http_post_mode && !(self.link is Idle)
    }

    /// The client after one id was handed out.
    pub open spec fn advance_id(self) -> Model {
        Model { next_id: id_following(self.next_id), ..self }
    }

    /// Whether the writer can take the head of the queue.
    pub open spec fn can_write(self) -> bool {
        self.link is Connected && !self.writer_busy && self.queue.len() > 0
    }

    /// The client after the writer was given the head of the queue, if it can
    /// take it.
    pub open spec fn pump(self) -> Model {
        if self.can_write() {
            Model { writer_busy: true, queue: self.queue.drop_first(), ..self }
        } else {
            self
        }
    }

    /// The frame that `pump` gives to the writer.
    pub open spec fn pumped(self) -> Option<Seq<u8>> {
        if self.can_write() {
            Some(self.queue[0])
        } else {
            None
        }
    }

    /// The client after a command was taken into the queue.
    pub open spec fn enqueue(self, id: u64, method: Seq<char>, frame: Seq<u8>) -> Model {
        Model { pending: self.pending.insert(id, method), queue: self.queue.push(frame), ..self }
    }

    /// The client after a call of `method` was submitted whose request is
    /// `frame`.
    pub open spec fn submit(self, method: Seq<char>, frame: Seq<u8>) -> Model {
        if self.enqueues() {
            self.advance_id().enqueue(self.next_id, method, frame).pump()
        } else {
            self.advance_id()
        }
    }

    /// The frame that goes to the websocket's writer when `frame` is
    /// submitted.
    pub open spec fn submit_written(self, method: Seq<char>, frame: Seq<u8>) -> Option<Seq<u8>> {
        if self.enqueues() {
            self.advance_id().enqueue(self.next_id, method, frame).pumped()
        } else {
            None
        }
    }

    /// The client after the writer has acknowledged a frame.
    pub open spec fn acknowledge(self) -> Model {
        if self.link is Connected {
            Model { writer_busy: false, ..self }.pump()
        } else {
            self
        }
    }

    pub open spec fn acknowledge_written(self) -> Option<Seq<u8>> {
        if self.link is Connected {
            Model { writer_busy: false, ..self }.pumped()
        } else {
            None
        }
    }

    /// Whether a message with this id answers a pending request.
    pub open spec fn answers(self, id: Option<u64>) -> bool {
        id matches Some(n) && self.pending.contains_key(n)
    }

    /// The client after a message of the server was routed: `id` is the
    /// message's id if that is a number, `accepted` says that its error is
    /// null.
    pub open spec fn route(self, id: Option<u64>, accepted: bool) -> Model {
        if self.answers(id) {
            let n = id->0;
            let method = self.pending[n];
            Model {
                pending: self.pending.remove(n),
                subscriptions: if is_registration_method(method) && accepted {
                    record(self.subscriptions, method, n)
                } else {
                    self.subscriptions
                },
                ..self
            }
        } else {
            self
        }
    }

    /// The client after the reader has reported that the socket failed.
    pub open spec fn connection_lost(self) -> Model {
        if self.link is Connected {
            if self.disable_auto_reconnect {
                Model { link: Link::Idle, writer_busy: false, pending: Map::empty(), ..self }
            } else {
                Model { link: Link::Reconnecting, writer_busy: false, ..self }
            }
        } else {
            self
        }
    }

    /// Whether the outcome of a dial is put to use: the supervisor waits for it
    /// and the dial succeeded.
    pub open spec fn restores(self, established: bool) -> bool {
        self.link is Reconnecting && established
    }

    /// The client the moment the new socket is in place: the registrations of
    /// the table stand at the head of the queue, each under a fresh id.
    pub open spec fn replayed(self) -> Model {
        Model {
            link: Link::Connected,
            writer_busy: false,
            next_id: id_after(self.next_id, self.subscriptions.len()),
            queue: replay_frames(self.subscriptions, self.next_id) + self.queue,
            ..self
        }
    }

    /// The client after the supervisor has heard how a dial ended.
    pub open spec fn redialed(self, established: bool) -> Model {
        if self.restores(established) {
            self.replayed().pump()
        } else {
            self
        }
    }

    pub open spec fn redialed_written(self, established: bool) -> Option<Seq<u8>> {
        if self.restores(established) {
            self.replayed().pumped()
        } else {
            None
        }
    }

    /// Whether `connect` is refused: the client is connected, or runs in HTTP
    /// mode.
    pub open spec fn refuses_connect(self) -> bool {
        !(self.link is Idle) || self.http_post_mode
    }

    /// The client after `connect`, given how the dial ended.
    pub open spec fn connect(self, established: bool) -> Model {
        if !self.refuses_connect() && established {
            Model { link: Link::Connected, writer_busy: false, ..self }
        } else {
            self
        }
    }

    /// The client after `disconnect`.
    pub open spec fn disconnect(self) -> Model {
        if self.link is Idle {
            self
        } else {
            Model {
                link: Link::Idle,
                writer_busy: false,
                pending: Map::empty(),
                queue: Seq::empty(),
                ..self
            }
        }
    }

    /// The requests whose reply channels `disconnect` closes.
    pub open spec fn disconnect_closed(self) -> Map<u64, Seq<char>> {
        if self.link is Idle {
            Map::empty()
        } else {
            self.pending
        }
    }

    /// The client after `shutdown`.
    pub open spec fn shutdown(self) -> Model {
        if self.link is Idle {
            self
        } else {
            Model { subscriptions: Seq::empty(), ..self }.disconnect()
        }
    }
}

/// One thing that happens to a client.
pub enum Event {
    /// A call of `method` is submitted; `frame` is its request, or `None` if
    /// the request could not be written.
    Submit { method: Seq<char>, frame: Option<Seq<u8>> },
    /// The writer has written a frame.
    WriteAcknowledged,
    /// The queue is to be looked at again.
    QueueUpdated,
    /// A message of the server has arrived.
    Received { id: Option<u64>, accepted: bool },
    /// The socket has failed.
    ConnectionLost,
    /// A dial of the supervisor has ended.
    Redialed { established: bool },
    /// `connect` is called, and its dial ends so.
    Connect { established: bool },
    /// `disconnect` is called.
    Disconnect,
    /// The notification state is unregistered and `disconnect` is called.
    Shutdown,
}

impl Model {
    /// The client after `event`.
    pub open spec fn step(self, event: Event) -> Model {
        match event {
            Event::Submit { method, frame } => match frame {
                Some(frame) => self.submit(method, frame),
                None => self.advance_id(),
            },
            Event::WriteAcknowledged => self.acknowledge(),
            Event::QueueUpdated => self.pump(),
            Event::Received { id, accepted } => self.route(id, accepted),
            Event::ConnectionLost => self.connection_lost(),
            Event::Redialed { established } => self.redialed(established),
            Event::Connect { established } => self.connect(established),
            Event::Disconnect => self.disconnect(),
            Event::Shutdown => self.shutdown(),
        }
    }

    /// The frame that `event` sends to the websocket's writer.
    pub open spec fn step_written(self, event: Event) -> Option<Seq<u8>> {
        match event {
            Event::Submit { method, frame } => match frame {
                Some(frame) => self.submit_written(method, frame),
                None => None,
            },
            Event::WriteAcknowledged => self.acknowledge_written(),
            Event::QueueUpdated => self.pumped(),
            Event::Redialed { established } => self.redialed_written(established),
            _ => None,
        }
    }

    /// The frame that `event` adds to the end of the queue.
    pub open spec fn step_enqueued(self, event: Event) -> Option<Seq<u8>> {
        match event {
            Event::Submit { method, frame } => if self.enqueues() {
                frame
            } else {
                None
            },
            _ => None,
        }
    }

    /// How many ids `event` hands out.
    pub open spec fn step_allocated(self, event: Event) -> nat {
        match event {
            Event::Submit { method, frame } => 1,
            Event::Redialed { established } => if self.restores(established) {
                self.subscriptions.len()
            } else {
                0
            },
            _ => 0,
        }
    }
}

impl Model {
    /// The ids that `event` hands out, in the order in which it does.
    pub open spec fn step_ids(self, event: Event) -> Seq<u64> {
        Seq::new(self.step_allocated(event), |k: int| id_after(self.next_id, k as nat))
    }
}

/// The frame of an option as a sequence of at most one frame.
pub open spec fn frames_of(frame: Option<Seq<u8>>) -> Seq<Seq<u8>> {
    match frame {
        Some(frame) => seq![frame],
        None => Seq::empty(),
    }
}

/// The client after the events of a run, one after the other.
pub open spec fn run(start: Model, events: Seq<Event>) -> Model
    decreases events.len(),
{
    if events.len() == 0 {
        start
    } else {
        run(start, events.drop_last()).step(events.last())
    }
}

/// The frames that a run sends to the websocket's writer, in the order in
/// which it sends them.
pub open spec fn wire(start: Model, events: Seq<Event>) -> Seq<Seq<u8>>
    decreases events.len(),
{
    if events.len() == 0 {
        Seq::empty()
    } else {
        wire(start, events.drop_last()) + frames_of(
            run(start, events.drop_last()).step_written(events.last()),
        )
    }
}

/// The frames of the commands that a run takes into the queue, in the order
/// in which they are submitted.
pub open spec fn enqueued(start: Model, events: Seq<Event>) -> Seq<Seq<u8>>
    decreases events.len(),
{
    if events.len() == 0 {
        Seq::empty()
    } else {
        enqueued(start, events.drop_last()) + frames_of(
            run(start, events.drop_last()).step_enqueued(events.last()),
        )
    }
}

/// How many ids a run hands out.
pub open spec fn allocated(start: Model, events: Seq<Event>) -> nat
    decreases events.len(),
{
    if events.len() == 0 {
        0
    } else {
        allocated(start, events.drop_last()) + run(start, events.drop_last()).step_allocated(
            events.last(),
        )
    }
}

/// The ids that a run hands out, in the order in which it does.
pub open spec fn ids(start: Model, events: Seq<Event>) -> Seq<u64>
    decreases events.len(),
{
    if events.len() == 0 {
        Seq::empty()
    } else {
        ids(start, events.drop_last()) + run(start, events.drop_last()).step_ids(events.last())
    }
}

} // verus!
