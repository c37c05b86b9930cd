//! What holds of every run of the client.
//!
//! The statements are about the machine of [`model`](super::model), which the
//! contracts of [`Client`](super::client::Client) tie the client to step by
//! step.

use super::client::{response_id, routing};
use super::infrastructure::Routed;
use super::model::{
    allocated, enqueued, frames_of, id_after, ids, is_registration_method, place_of, record,
    registered, replay_frames, run, wire, Event, Link, Model, Subscriptions,
};
use crate::dcrjson::result_types::{request_frame, JsonResponse, JsonValue};
use vstd::prelude::*;

verus! {

/// The number of ids there are.
pub open spec fn id_space() -> nat {
    0x1_0000_0000_0000_0000
}

proof fn lemma_id_after_sum(first: u64, a: nat, b: nat)
    ensures
        id_after(id_after(first, a), b) == id_after(first, a + b),
{
}

proof fn lemma_step_counter(s: Model, event: Event)
    ensures
        s.step(event).next_id == id_after(s.next_id, s.step_allocated(event)),
        s.step(event).http_post_mode == s.http_post_mode,
        s.step(event).disable_auto_reconnect == s.disable_auto_reconnect,
{
}

/// What a run leaves as it is: the mode of the client and its way with a
/// failed socket.
pub proof fn lemma_run_keeps_mode(start: Model, events: Seq<Event>)
    ensures
        run(start, events).http_post_mode == start.http_post_mode,
        run(start, events).disable_auto_reconnect == start.disable_auto_reconnect,
    decreases events.len(),
{
    if events.len() > 0 {
        lemma_run_keeps_mode(start, events.drop_last());
        lemma_step_counter(run(start, events.drop_last()), events.last());
    }
}

/// The ids that a run hands out are those that the counter passes through,
/// one after the other, from where it stood at the start.
pub proof fn lemma_ids_follow_the_counter(start: Model, events: Seq<Event>)
    ensures
        ids(start, events) == Seq::new(
            allocated(start, events),
            |k: int| id_after(start.next_id, k as nat),
        ),
        run(start, events).next_id == id_after(start.next_id, allocated(start, events)),
    decreases events.len(),
{
    if events.len() > 0 {
        let before = events.drop_last();
        let s = run(start, before);
        lemma_ids_follow_the_counter(start, before);
        lemma_step_counter(s, events.last());
        lemma_id_after_sum(start.next_id, allocated(start, before), s.step_allocated(events.last()));
        assert forall|k: int| 0 <= k < s.step_allocated(events.last()) implies s.step_ids(
            events.last(),
        )[k] == id_after(start.next_id, (allocated(start, before) + k) as nat) by {
            lemma_id_after_sum(start.next_id, allocated(start, before), k as nat);
        }
        assert(ids(start, events) =~= Seq::new(
            allocated(start, events),
            |k: int| id_after(start.next_id, k as nat),
        ));
    } else {
        assert(ids(start, events) =~= Seq::new(
            allocated(start, events),
            |k: int| id_after(start.next_id, k as nat),
        ));
    }
}

/// Id uniqueness: the ids that a run hands out, to the commands that are
/// submitted and to the registrations that a reconnection sends again, are
/// all different, as long as the run hands out no more ids than there are.
pub proof fn lemma_ids_are_distinct(start: Model, events: Seq<Event>, i: int, j: int)
    requires
        ids(start, events).len() <= id_space(),
        0 <= i < j < ids(start, events).len(),
    ensures
        ids(start, events)[i] != ids(start, events)[j],
{
    lemma_ids_follow_the_counter(start, events);
}

/// Correlation: a message of the server is handed to a reply channel if, and
/// only if, its id is the id of a request that waits for its reply; it is
/// then handed, whole, to the channel of that very request.
pub proof fn lemma_reply_goes_to_its_request(s: Model, response: JsonResponse)
    ensures
        match routing(response, s.answers(response_id(response))) {
            Routed::Response { id, response: body } => {
                &&& response_id(response) == Some(id)
                &&& s.pending.contains_key(id)
                &&& body == response
            },
            _ => !(response_id(response) matches Some(n) && s.pending.contains_key(n)),
        },
        s.answers(response_id(response)) ==> !s.route(
            response_id(response),
            response.error is Null,
        ).answers(response_id(response)),
{
}

/// A command that is taken into the queue waits for its reply under the id
/// that its submission returned.
pub proof fn lemma_accepted_command_is_pending(s: Model, method: Seq<char>, frame: Seq<u8>)
    requires
        s.enqueues(),
    ensures
        s.submit(method, frame).pending.contains_key(s.next_id),
        s.submit(method, frame).pending[s.next_id] == method,
        s.submit(method, frame).answers(Some(s.next_id)),
{
}

/// Whether `event` leaves the request `id` waiting: it is not the reply to
/// it, and it does not end the transport.
pub open spec fn leaves_pending(start: Model, event: Event, id: u64) -> bool {
    match event {
        Event::Received { id: reply, accepted } => reply != Some(id),
        Event::ConnectionLost => !start.disable_auto_reconnect,
        Event::Disconnect => false,
        Event::Shutdown => false,
        _ => true,
    }
}

/// A request waits for its reply until the reply arrives or the transport
/// ends: whatever else happens, a message with its id will reach it.
pub proof fn lemma_pending_until_answered(start: Model, events: Seq<Event>, id: u64)
    requires
        start.pending.contains_key(id),
        forall|i: int| 0 <= i < events.len() ==> leaves_pending(start, #[trigger] events[i], id),
    ensures
        run(start, events).answers(Some(id)),
    decreases events.len(),
{
    if events.len() > 0 {
        let before = events.drop_last();
        assert forall|i: int| 0 <= i < before.len() implies leaves_pending(
            start,
            #[trigger] before[i],
            id,
        ) by {
            assert(before[i] == events[i]);
        }
        lemma_pending_until_answered(start, before, id);
        lemma_run_keeps_mode(start, before);
        assert(leaves_pending(start, events[events.len() - 1], id));
    }
}

/// Whether `event` neither empties the queue nor puts frames at its head: it
/// is no disconnection and no dial that succeeded.
pub open spec fn keeps_queue(event: Event) -> bool {
    match event {
        Event::Disconnect => false,
        Event::Shutdown => false,
        Event::Redialed { established } => !established,
        _ => true,
    }
}

proof fn lemma_step_keeps_order(s: Model, event: Event)
    requires
        keeps_queue(event),
    ensures
        frames_of(s.step_written(event)) + s.step(event).queue == s.queue + frames_of(
            s.step_enqueued(event),
        ),
{
    assert(frames_of(s.step_written(event)) + s.step(event).queue =~= s.queue + frames_of(
        s.step_enqueued(event),
    ));
}

/// First in, first out: as long as the client is not disconnected and no
/// reconnection puts registrations first, the frames that were written,
/// followed by those that still wait, are the frames that waited at the start
/// followed by the commands that were accepted, in the order in which they
/// were accepted. So the commands reach the socket in the order of their
/// submission, none is lost and none is written twice.
pub proof fn lemma_frames_leave_in_order(start: Model, events: Seq<Event>)
    requires
        forall|i: int| 0 <= i < events.len() ==> keeps_queue(#[trigger] events[i]),
    ensures
        wire(start, events) + run(start, events).queue == start.queue + enqueued(start, events),
    decreases events.len(),
{
    if events.len() > 0 {
        let before = events.drop_last();
        let s = run(start, before);
        assert forall|i: int| 0 <= i < before.len() implies keeps_queue(#[trigger] before[i]) by {
            assert(before[i] == events[i]);
        }
        lemma_frames_leave_in_order(start, before);
        assert(keeps_queue(events[events.len() - 1]));
        lemma_step_keeps_order(s, events.last());
        let w = frames_of(s.step_written(events.last()));
        let e = frames_of(s.step_enqueued(events.last()));
        assert(wire(start, events) + run(start, events).queue =~= wire(start, before) + (w + s.step(
            events.last(),
        ).queue));
        assert(start.queue + enqueued(start, events) =~= (start.queue + enqueued(start, before))
            + e);
        assert(wire(start, before) + (s.queue + e) =~= (wire(start, before) + s.queue) + e);
    } else {
        assert(wire(start, events) + run(start, events).queue =~= start.queue + enqueued(
            start,
            events,
        ));
    }
}

/// A registration that the server accepts enters the table of subscriptions.
pub proof fn lemma_accepted_registration_is_recorded(s: Model, id: u64)
    requires
        s.pending.contains_key(id),
        is_registration_method(s.pending[id]),
    ensures
        registered(s.route(Some(id), true).subscriptions, s.pending[id]),
{
    lemma_record_registers(s.subscriptions, s.pending[id], id, s.pending[id]);
}

proof fn lemma_record_registers(table: Subscriptions, method: Seq<char>, id: u64, other: Seq<char>)
    requires
        registered(table, other) || other == method,
    ensures
        registered(record(table, method, id), other),
{
    let after = record(table, method, id);
    if registered(table, method) {
        let place = place_of(table, method);
        if other == method {
            assert(after[place].0 == other);
        } else {
            let at = place_of(table, other);
            assert(after[at].0 == other);
        }
    } else {
        if other == method {
            assert(after[table.len() as int].0 == other);
        } else {
            let at = place_of(table, other);
            assert(after[at].0 == other);
        }
    }
}

/// A method stays in the table of subscriptions until the client is shut
/// down.
pub proof fn lemma_subscriptions_last(start: Model, events: Seq<Event>, method: Seq<char>)
    requires
        registered(start.subscriptions, method),
        forall|i: int| 0 <= i < events.len() ==> !((#[trigger] events[i]) is Shutdown),
    ensures
        registered(run(start, events).subscriptions, method),
    decreases events.len(),
{
    if events.len() > 0 {
        let before = events.drop_last();
        let s = run(start, before);
        assert forall|i: int| 0 <= i < before.len() implies !((#[trigger] before[i]) is Shutdown) by {
            assert(before[i] == events[i]);
        }
        lemma_subscriptions_last(start, before, method);
        assert(!(events[events.len() - 1] is Shutdown));
        match events.last() {
            Event::Received { id, accepted } => {
                if s.answers(id) {
                    lemma_record_registers(s.subscriptions, s.pending[id->0], id->0, method);
                }
            },
            _ => {},
        }
    }
}

/// Reconnect preserves subscriptions: when the supervisor's dial has
/// succeeded, the new socket sees first, in the order of the table, one
/// registration for each method of the table of subscriptions, each under a
/// fresh id; then what waited in the queue; then the commands that are
/// submitted from then on. This is said of all that is written after the
/// reconnection together with what still waits, so it holds however far the
/// writer has got.
pub proof fn lemma_subscriptions_come_first(s: Model, events: Seq<Event>)
    requires
        s.link is Reconnecting,
        forall|i: int| 0 <= i < events.len() ==> keeps_queue(#[trigger] events[i]),
    ensures
        frames_of(s.redialed_written(true)) + wire(s.redialed(true), events) + run(
            s.redialed(true),
            events,
        ).queue == replay_frames(s.subscriptions, s.next_id) + s.queue + enqueued(
            s.redialed(true),
            events,
        ),
        forall|k: int|
            0 <= k < s.subscriptions.len() ==> (#[trigger] replay_frames(
                s.subscriptions,
                s.next_id,
            )[k]) == request_frame(
                id_after(s.next_id, k as nat),
                s.subscriptions[k].0,
                Seq::<JsonValue>::empty(),
            ),
{
    let r = s.redialed(true);
    lemma_frames_leave_in_order(r, events);
    let first = frames_of(s.redialed_written(true));
    assert(first + r.queue =~= replay_frames(s.subscriptions, s.next_id) + s.queue);
    assert(first + wire(r, events) + run(r, events).queue =~= first + (wire(r, events) + run(
        r,
        events,
    ).queue));
    assert(first + (r.queue + enqueued(r, events)) =~= (first + r.queue) + enqueued(r, events));
}

/// Idempotent disconnect: a second `disconnect` changes nothing and closes
/// nothing.
pub proof fn lemma_disconnect_is_idempotent(s: Model)
    ensures
        s.disconnect().disconnect() == s.disconnect(),
        s.disconnect().disconnect_closed() == Map::<u64, Seq<char>>::empty(),
        s.disconnect().is_disconnected(),
{
}

/// Whether no request waits for a reply that cannot come: while no transport
/// runs, nothing is pending; a client in HTTP POST mode has no transport.
pub open spec fn settled(s: Model) -> bool {
    &&& s.link is Idle ==> s.pending == Map::<u64, Seq<char>>::empty()
    &&& s.http_post_mode ==> s.link is Idle
}

/// Every client starts settled and stays so.
pub proof fn lemma_clients_are_settled(
    http_post_mode: bool,
    disable_auto_reconnect: bool,
    events: Seq<Event>,
)
    ensures
        settled(run(Model::initial(http_post_mode, disable_auto_reconnect), events)),
    decreases events.len(),
{
    let start = Model::initial(http_post_mode, disable_auto_reconnect);
    if events.len() > 0 {
        lemma_clients_are_settled(http_post_mode, disable_auto_reconnect, events.drop_last());
        let s = run(start, events.drop_last());
        match events.last() {
            Event::Received { id, accepted } => {
                if s.answers(id) {
                    assert(!(s.link is Idle));
                }
            },
            _ => {},
        }
    }
}

/// Closed reply channels on disconnect: whatever has happened to a client,
/// `disconnect` closes the reply channel of every request that waits for its
/// reply, and leaves none waiting.
pub proof fn lemma_disconnect_closes_every_reply_channel(
    http_post_mode: bool,
    disable_auto_reconnect: bool,
    events: Seq<Event>,
)
    ensures
        ({
            let s = run(Model::initial(http_post_mode, disable_auto_reconnect), events);
            &&& s.disconnect_closed() == s.pending
            &&& s.disconnect().pending == Map::<u64, Seq<char>>::empty()
        }),
{
    lemma_clients_are_settled(http_post_mode, disable_auto_reconnect, events);
}

} // verus!
