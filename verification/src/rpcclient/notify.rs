//! Notification handlers and the events they are invoked with.

use super::model::{distinct_methods, place_of, record, registered, Subscriptions};
use crate::chaincfg::chainhash;
use crate::dcrjson::future_types::{integer_of, to_integer};
use crate::dcrjson::result_types::{JsonResponse, JsonValue};
use crate::dcrjson::rpc_types::{
    same_text,
    NOTIFICATION_METHOD_BLOCK_CONNECTED, NOTIFICATION_METHOD_BLOCK_DISCONNECTED,
    NOTIFICATION_METHOD_NEW_TICKETS, NOTIFICATION_METHOD_WORK,
};
use crate::dcrjson::{hex_decoding, is_hex_text, marshal_to_hash, parse_hex_parameters};
use vstd::prelude::*;
use vstd::string::*;
use vstd::utf8::encode_utf8;

verus! {

/// Whether `method` is the name of a notification that the client knows.
pub open spec fn is_notification_method(method: Seq<char>) -> bool {
    ||| method == NOTIFICATION_METHOD_BLOCK_CONNECTED@
    ||| method == NOTIFICATION_METHOD_BLOCK_DISCONNECTED@
    ||| method == NOTIFICATION_METHOD_NEW_TICKETS@
    ||| method == NOTIFICATION_METHOD_WORK@
}

/// A method whose notifications the server has agreed to send, and the id of
/// the request that registered it last.
#[derive(Debug, Clone, PartialEq, Eq)]
pub struct Subscription {
    pub method: String,
    pub id: u64,
}

/// The successfully registered notifications, kept so that they can be
/// registered again after a reconnection. No method stands in it twice.
#[derive(Debug)]
pub struct NotificationStateTable {
    entries: Vec<Subscription>,
}

/// The table of a list of subscriptions.
pub open spec fn table_view(entries: Seq<Subscription>) -> Subscriptions {
    Seq::new(entries.len(), |i: int| (entries[i].method@, entries[i].id))
}

impl View for NotificationStateTable {
    type V = Subscriptions;

    closed spec fn view(&self) -> Subscriptions {
        table_view(self.entries@)
    }
}

impl NotificationStateTable {
    #[verifier::type_invariant]
    spec fn well_formed(self) -> bool {
        distinct_methods(table_view(self.entries@))
    }

    /// An empty table.
    pub fn new() -> (table: Self)
        ensures
            table@ == Subscriptions::empty(),
    {
        NotificationStateTable { entries: Vec::new() }
    }

    /// The number of methods in the table, none of which stands in it twice.
    pub fn len(&self) -> (n: usize)
        ensures
            n == self@.len(),
            distinct_methods(self@),
    {
        proof {
            use_type_invariant(self);
        }
        self.entries.len()
    }

    /// The subscription at `index`.
    pub fn get(&self, index: usize) -> (entry: &Subscription)
        requires
            index < self@.len(),
        ensures
            (entry.method@, entry.id) == self@[index as int],
    {
        &self.entries[index]
    }

    /// Where `method` stands in the table, if it does.
    pub fn position(&self, method: &String) -> (place: Option<usize>)
        ensures
            match place {
                Some(i) => i < self@.len() && self@[i as int].0 == method@ && i == place_of(
                    self@,
                    method@,
                ),
                None => !registered(self@, method@),
            },
    {
        proof {
            use_type_invariant(self);
        }
        let mut i: usize = 0;
        while i < self.entries.len()
            invariant
                i <= self.entries.len(),
                distinct_methods(table_view(self.entries@)),
                forall|j: int| 0 <= j < i ==> (#[trigger] table_view(self.entries@)[j]).0 != method@,
            decreases self.entries.len() - i,
        {
            if self.entries[i].method == *method {
                assert(table_view(self.entries@)[i as int].0 == method@);
                assert(place_of(self@, method@) == i) by {
                    let j = place_of(self@, method@);
                    assert(0 <= j < self@.len() && self@[j].0 == method@);
                }
                return Some(i);
            }
            i = i + 1;
        }
        None
    }

    /// The table after the server has accepted a registration of `method`
    /// that was sent under `id`.
    pub fn record(self, method: String, id: u64) -> (table: Self)
        ensures
            table@ == record(self@, method@, id),
            distinct_methods(table@),
    {
        proof {
            use_type_invariant(&self);
        }
        let place = self.position(&method);
        let ghost before = self@;
        let mut entries = self.entries;
        match place {
            Some(i) => {
                entries.set(i, Subscription { method, id });
                assert(table_view(entries@) == before.update(i as int, (method@, id)));
            },
            None => {
                entries.push(Subscription { method, id });
                assert(table_view(entries@) == before.push((method@, id)));
            },
        }
        NotificationStateTable { entries }
    }
}

/// Says for which notifications the application has set a callback.
///
/// The callbacks themselves stay with the driver, which invokes them; here it
/// is decided whether one is invoked and with what. Nothing is set by
/// default, so that every notification is ignored until its handler is set.
#[derive(Debug, Clone, Copy, PartialEq, Eq)]
pub struct NotificationHandlers {
    /// Invoked when the client connects or reconnects to the RPC server.
    pub on_client_connected: bool,
    /// Invoked when a block is connected to the longest `best` chain.
    pub on_block_connected: bool,
    /// Invoked when a block is disconnected from the longest `best` chain.
    pub on_block_disconnected: bool,
    /// Invoked when a new block template is generated.
    pub on_work: bool,
    /// Invoked when an unmined transaction passes the client's transaction filter.
    pub on_relevant_tx_accepted: bool,
    /// Invoked when the blockchain begins reorganizing.
    pub on_reorganization: bool,
    /// Invoked when a block is connected and eligible tickets to be voted on
    /// for this chain are given.
    pub on_winning_tickets: bool,
    /// Invoked when a block is connected and tickets are spent or missed.
    pub on_spent_and_missed_tickets: bool,
    /// Invoked when a block is connected and tickets have matured.
    pub on_new_tickets: bool,
    /// Invoked when a block is connected and a new stake difficulty is
    /// calculated.
    pub on_stake_difficulty: bool,
    /// Invoked when an unrecognized notification is received.
    pub on_unknown_notification: bool,
}

/// What the application is told: that the client is connected, or a
/// notification of the server with its parameters parsed.
#[derive(Debug, PartialEq, Eq)]
pub enum NotificationEvent {
    /// The client has connected or reconnected to the RPC server.
    ClientConnected,
    /// A block was connected to the longest `best` chain.
    BlockConnected { block_header: Vec<u8>, transactions: Vec<Vec<u8>> },
    /// A block was disconnected from the longest `best` chain.
    BlockDisconnected { block_header: Vec<u8> },
    /// A new block template was generated.
    Work { data: Vec<u8>, target: Vec<u8>, reason: String },
    /// A block was connected and tickets have matured.
    NewTickets { hash: chainhash::Hash, height: i64, stake_diff: i64, tickets: Vec<chainhash::Hash> },
    /// A notification that the client does not know.
    Unknown { method: String, params: Vec<JsonValue> },
}

impl Default for NotificationHandlers {
    fn default() -> (handlers: Self)
        ensures
            handlers == NotificationHandlers::none(),
    {
        NotificationHandlers {
            on_block_connected: false,
            on_block_disconnected: false,
            on_client_connected: false,
            on_new_tickets: false,
            on_relevant_tx_accepted: false,
            on_reorganization: false,
            on_spent_and_missed_tickets: false,
            on_stake_difficulty: false,
            on_unknown_notification: false,
            on_winning_tickets: false,
            on_work: false,
        }
    }
}

impl NotificationHandlers {
    /// What the application is told when the socket stands: that the client
    /// is connected, if it has set a handler for that.
    pub open spec fn connected(self) -> Option<NotificationEvent> {
        if self.on_client_connected {
            Some(NotificationEvent::ClientConnected)
        } else {
            None
        }
    }

    /// No handler set.
    pub open spec fn none() -> NotificationHandlers {
        NotificationHandlers {
            on_client_connected: false,
            on_block_connected: false,
            on_block_disconnected: false,
            on_work: false,
            on_relevant_tx_accepted: false,
            on_reorganization: false,
            on_winning_tickets: false,
            on_spent_and_missed_tickets: false,
            on_new_tickets: false,
            on_stake_difficulty: false,
            on_unknown_notification: false,
        }
    }
}

/// What a notification event holds.
pub enum NotificationView {
    ClientConnected,
    BlockConnected { block_header: Seq<u8>, transactions: Seq<Seq<u8>> },
    BlockDisconnected { block_header: Seq<u8> },
    Work { data: Seq<u8>, target: Seq<u8>, reason: Seq<char> },
    NewTickets { hash: Seq<u8>, height: i64, stake_diff: i64, tickets: Seq<Seq<u8>> },
    Unknown { method: Seq<char>, params: Seq<JsonValue> },
}

impl View for NotificationEvent {
    type V = NotificationView;

    open spec fn view(&self) -> NotificationView {
        match *self {
            NotificationEvent::ClientConnected => NotificationView::ClientConnected,
            NotificationEvent::BlockConnected { block_header, transactions } => {
                NotificationView::BlockConnected {
                    block_header: block_header@,
                    transactions: Seq::new(transactions@.len(), |i: int| transactions@[i]@),
                }
            },
            NotificationEvent::BlockDisconnected { block_header } => {
                NotificationView::BlockDisconnected { block_header: block_header@ }
            },
            NotificationEvent::Work { data, target, reason } => NotificationView::Work {
                data: data@,
                target: target@,
                reason: reason@,
            },
            NotificationEvent::NewTickets { hash, height, stake_diff, tickets } => {
                NotificationView::NewTickets {
                    hash: hash.bytes@,
                    height,
                    stake_diff,
                    tickets: Seq::new(tickets@.len(), |i: int| tickets@[i].bytes@),
                }
            },
            NotificationEvent::Unknown { method, params } => NotificationView::Unknown {
                method: method@,
                params: params@,
            },
        }
    }
}

/// The view of an event that may be there.
pub open spec fn event_view(event: Option<NotificationEvent>) -> Option<NotificationView> {
    match event {
        Some(event) => Some(event@),
        None => None,
    }
}

/// The bytes that a parameter holds as hexadecimal text; null holds none.
pub open spec fn hex_bytes(v: JsonValue) -> Option<Seq<u8>> {
    match v {
        JsonValue::Null => Some(Seq::empty()),
        JsonValue::Text(text) => if is_hex_text(encode_utf8(text@)) {
            Some(hex_decoding(encode_utf8(text@)))
        } else {
            None
        },
        _ => None,
    }
}

/// The hash that a parameter holds as text.
pub open spec fn hash_bytes(v: JsonValue) -> Option<Seq<u8>> {
    match v {
        JsonValue::Text(text) => chainhash::parsed_hash(encode_utf8(text@)),
        _ => None,
    }
}

/// The byte strings that a parameter holds: an array of hexadecimal texts.
pub open spec fn hex_list(v: JsonValue) -> Option<Seq<Seq<u8>>> {
    match v {
        JsonValue::Array(items) => if forall|i: int|
            0 <= i < items@.len() ==> hex_bytes(#[trigger] items@[i]) is Some {
            Some(Seq::new(items@.len(), |i: int| hex_bytes(items@[i])->0))
        } else {
            None
        },
        _ => None,
    }
}

/// The hashes that a parameter holds: an array of texts of hashes.
pub open spec fn hash_list(v: JsonValue) -> Option<Seq<Seq<u8>>> {
    match v {
        JsonValue::Array(items) => if forall|i: int|
            0 <= i < items@.len() ==> hash_bytes(#[trigger] items@[i]) is Some {
            Some(Seq::new(items@.len(), |i: int| hash_bytes(items@[i])->0))
        } else {
            None
        },
        _ => None,
    }
}

/// What `blockconnected` tells: the header of the block and its
/// transactions.
pub open spec fn block_connected(params: Seq<JsonValue>) -> Option<NotificationView> {
    if params.len() >= 2 && hex_bytes(params[0]) is Some && hex_list(params[1]) is Some {
        Some(
            NotificationView::BlockConnected {
                block_header: hex_bytes(params[0])->0,
                transactions: hex_list(params[1])->0,
            },
        )
    } else {
        None
    }
}

/// What `blockdisconnected` tells: the header of the block.
pub open spec fn block_disconnected(params: Seq<JsonValue>) -> Option<NotificationView> {
    if params.len() >= 1 && hex_bytes(params[0]) is Some {
        Some(NotificationView::BlockDisconnected { block_header: hex_bytes(params[0])->0 })
    } else {
        None
    }
}

/// What `work` tells: the data and the target of the new template, and the
/// reason why it was made.
pub open spec fn work(params: Seq<JsonValue>) -> Option<NotificationView> {
    if params.len() >= 3 && hex_bytes(params[0]) is Some && hex_bytes(params[1]) is Some
        && params[2] is Text {
        Some(
            NotificationView::Work {
                data: hex_bytes(params[0])->0,
                target: hex_bytes(params[1])->0,
                reason: params[2]->Text_0@,
            },
        )
    } else {
        None
    }
}

/// What `newtickets` tells: the hash and the height of the block, the stake
/// difficulty, and the tickets that have matured.
pub open spec fn new_tickets(params: Seq<JsonValue>) -> Option<NotificationView> {
    if params.len() >= 4 && hash_bytes(params[0]) is Some && integer_of(params[1]) is Some
        && integer_of(params[2]) is Some && hash_list(params[3]) is Some {
        Some(
            NotificationView::NewTickets {
                hash: hash_bytes(params[0])->0,
                height: integer_of(params[1])->0,
                stake_diff: integer_of(params[2])->0,
                tickets: hash_list(params[3])->0,
            },
        )
    } else {
        None
    }
}

/// What the application is told of a notification, given the handlers it has
/// set: the parsed parameters of a notification that the client knows, if
/// the handler for it is set and the parameters have the shape that it
/// expects; a notification that the client does not know as it came, if the
/// catch-all is set; else nothing.
pub open spec fn dispatched(
    handlers: NotificationHandlers,
    method: Seq<char>,
    params: Seq<JsonValue>,
) -> Option<NotificationView> {
    if method == NOTIFICATION_METHOD_BLOCK_CONNECTED@ {
        if handlers.on_block_connected {
            block_connected(params)
        } else {
            None
        }
    } else if method == NOTIFICATION_METHOD_BLOCK_DISCONNECTED@ {
        if handlers.on_block_disconnected {
            block_disconnected(params)
        } else {
            None
        }
    } else if method == NOTIFICATION_METHOD_WORK@ {
        if handlers.on_work {
            work(params)
        } else {
            None
        }
    } else if method == NOTIFICATION_METHOD_NEW_TICKETS@ {
        if handlers.on_new_tickets {
            new_tickets(params)
        } else {
            None
        }
    } else if handlers.on_unknown_notification {
        Some(NotificationView::Unknown { method, params })
    } else {
        None
    }
}

/// Reads a parameter that holds an array of hexadecimal texts.
pub fn parse_hex_list(value: &JsonValue) -> (list: Option<Vec<Vec<u8>>>)
    ensures
        match list {
            Some(list) => hex_list(*value) == Some(Seq::new(list@.len(), |i: int| list@[i]@)),
            None => hex_list(*value) is None,
        },
{
    match value {
        JsonValue::Array(items) => {
            let mut list: Vec<Vec<u8>> = Vec::new();
            let mut i: usize = 0;
            while i < items.len()
                invariant
                    i <= items.len(),
                    list@.len() == i,
                    *value == JsonValue::Array(*items),
                    forall|j: int|
                        0 <= j < i ==> hex_bytes(#[trigger] items@[j]) == Some(list@[j]@),
                decreases items.len() - i,
            {
                match parse_hex_parameters(&items[i]) {
                    Some(bytes) => list.push(bytes),
                    None => {
                        assert(hex_bytes(items@[i as int]) is None);
                        return None;
                    },
                }
                i = i + 1;
            }
            assert(hex_list(*value)->0 =~= Seq::new(list@.len(), |i: int| list@[i]@));
            Some(list)
        },
        _ => None,
    }
}

/// Reads a parameter that holds an array of texts of hashes.
pub fn parse_hash_list(value: &JsonValue) -> (list: Option<Vec<chainhash::Hash>>)
    ensures
        match list {
            Some(list) => hash_list(*value) == Some(
                Seq::new(list@.len(), |i: int| list@[i].bytes@),
            ),
            None => hash_list(*value) is None,
        },
{
    match value {
        JsonValue::Array(items) => {
            let mut list: Vec<chainhash::Hash> = Vec::new();
            let mut i: usize = 0;
            while i < items.len()
                invariant
                    i <= items.len(),
                    list@.len() == i,
                    *value == JsonValue::Array(*items),
                    forall|j: int|
                        0 <= j < i ==> hash_bytes(#[trigger] items@[j]) == Some(list@[j].bytes@),
                decreases items.len() - i,
            {
                match marshal_to_hash(&items[i]) {
                    Some(hash) => list.push(hash),
                    None => {
                        assert(hash_bytes(items@[i as int]) is None);
                        return None;
                    },
                }
                i = i + 1;
            }
            assert(hash_list(*value)->0 =~= Seq::new(list@.len(), |i: int| list@[i].bytes@));
            Some(list)
        },
        _ => None,
    }
}

fn on_block_connected(params: &Vec<JsonValue>) -> (event: Option<NotificationEvent>)
    ensures
        event_view(event) == block_connected(params@),
{
    if params.len() < 2 {
        return None;
    }
    let block_header = match parse_hex_parameters(&params[0]) {
        Some(bytes) => bytes,
        None => {
            return None;
        },
    };
    let transactions = match parse_hex_list(&params[1]) {
        Some(list) => list,
        None => {
            return None;
        },
    };
    Some(NotificationEvent::BlockConnected { block_header, transactions })
}

fn on_block_disconnected(params: &Vec<JsonValue>) -> (event: Option<NotificationEvent>)
    ensures
        event_view(event) == block_disconnected(params@),
{
    if params.len() < 1 {
        return None;
    }
    match parse_hex_parameters(&params[0]) {
        Some(block_header) => Some(NotificationEvent::BlockDisconnected { block_header }),
        None => None,
    }
}

fn on_work(params: &Vec<JsonValue>) -> (event: Option<NotificationEvent>)
    ensures
        event_view(event) == work(params@),
{
    if params.len() < 3 {
        return None;
    }
    let data = match parse_hex_parameters(&params[0]) {
        Some(bytes) => bytes,
        None => {
            return None;
        },
    };
    let target = match parse_hex_parameters(&params[1]) {
        Some(bytes) => bytes,
        None => {
            return None;
        },
    };
    match &params[2] {
        JsonValue::Text(reason) => Some(
            NotificationEvent::Work { data, target, reason: reason.clone() },
        ),
        _ => None,
    }
}

fn on_new_tickets(params: &Vec<JsonValue>) -> (event: Option<NotificationEvent>)
    ensures
        event_view(event) == new_tickets(params@),
{
    if params.len() < 4 {
        return None;
    }
    let hash = match marshal_to_hash(&params[0]) {
        Some(hash) => hash,
        None => {
            return None;
        },
    };
    let height = match to_integer(&params[1]) {
        Some(n) => n,
        None => {
            return None;
        },
    };
    let stake_diff = match to_integer(&params[2]) {
        Some(n) => n,
        None => {
            return None;
        },
    };
    match parse_hash_list(&params[3]) {
        Some(tickets) => Some(NotificationEvent::NewTickets { hash, height, stake_diff, tickets }),
        None => None,
    }
}

/// The notification dispatcher: decides what the application is told of the
/// notification `method` with `params`. A notification whose handler is not
/// set, or whose parameters do not have the shape that the handler expects,
/// is passed over.
pub fn handle_notification(
    handlers: &NotificationHandlers,
    method: String,
    params: Vec<JsonValue>,
) -> (event: Option<NotificationEvent>)
    ensures
        event_view(event) == dispatched(*handlers, method@, params@),
{
    if same_text(method.as_str(), NOTIFICATION_METHOD_BLOCK_CONNECTED) {
        if handlers.on_block_connected {
            on_block_connected(&params)
        } else {
            None
        }
    } else if same_text(method.as_str(), NOTIFICATION_METHOD_BLOCK_DISCONNECTED) {
        if handlers.on_block_disconnected {
            on_block_disconnected(&params)
        } else {
            None
        }
    } else if same_text(method.as_str(), NOTIFICATION_METHOD_WORK) {
        if handlers.on_work {
            on_work(&params)
        } else {
            None
        }
    } else if same_text(method.as_str(), NOTIFICATION_METHOD_NEW_TICKETS) {
        if handlers.on_new_tickets {
            on_new_tickets(&params)
        } else {
            None
        }
    } else if handlers.on_unknown_notification {
        Some(NotificationEvent::Unknown { method, params })
    } else {
        None
    }
}

/// The name that an unsolicited message goes by: its method if that is a
/// text, else the empty name.
pub open spec fn unsolicited_method(response: JsonResponse) -> Seq<char> {
    match response.method {
        JsonValue::Text(method) => method@,
        _ => Seq::empty(),
    }
}

/// The dispatcher's catch-all: decides what the application is told of a
/// message that answers no pending request and is no notification that the
/// client knows. It is told the method and the parameters of the message if
/// it has set the handler for unknown notifications, else nothing.
pub fn handle_unsolicited(handlers: &NotificationHandlers, response: JsonResponse) -> (event:
    Option<NotificationEvent>)
    ensures
        event_view(event) == if handlers.on_unknown_notification {
            Some(
                NotificationView::Unknown {
                    method: unsolicited_method(response),
                    params: response.params@,
                },
            )
        } else {
            None
        },
{
    if !handlers.on_unknown_notification {
        return None;
    }
    let JsonResponse { id, method, result, params, error } = response;
    let method = match method {
        JsonValue::Text(method) => method,
        _ => String::new(),
    };
    Some(NotificationEvent::Unknown { method, params })
}

/// Says for each kind of notification whether the client is registered for
/// it.
#[derive(Debug, Clone, Copy, PartialEq, Eq)]
pub struct NotificationState {
    pub notify_blocks: bool,
    pub notify_work: bool,
    pub notify_winning_tickets: bool,
    pub notify_spent_and_missed_tickets: bool,
    pub notify_new_tickets: bool,
    pub notify_stake_difficulty: bool,
    pub notify_new_tx: bool,
    pub notify_new_tx_verbose: bool,
}

impl Default for NotificationState {
    /// Registered for nothing.
    fn default() -> (state: Self)
        ensures
            !state.notify_blocks,
            !state.notify_work,
            !state.notify_winning_tickets,
            !state.notify_spent_and_missed_tickets,
            !state.notify_new_tickets,
            !state.notify_stake_difficulty,
            !state.notify_new_tx,
            !state.notify_new_tx_verbose,
    {
        NotificationState {
            notify_blocks: false,
            notify_work: false,
            notify_winning_tickets: false,
            notify_spent_and_missed_tickets: false,
            notify_new_tickets: false,
            notify_stake_difficulty: false,
            notify_new_tx: false,
            notify_new_tx_verbose: false,
        }
    }
}

} // verus!
