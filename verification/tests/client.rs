use rustdcr::dcrjson::future_types::{block_count, notification_registered};
use rustdcr::dcrjson::result_types::{JsonNumber, JsonResponse, JsonValue};
use rustdcr::rpcclient::client::{new, Client};
use rustdcr::rpcclient::connection::ConnConfig;
use rustdcr::rpcclient::error::RpcClientError;
use rustdcr::rpcclient::infrastructure::{
    MiddlemanAction, MiddlemanEvent, Outbound, Routed, SupervisorAction, SupervisorEvent,
};
use rustdcr::rpcclient::notify::{NotificationEvent, NotificationHandlers};

fn connected() -> Client {
    let (client, _) = new(ConnConfig::default(), NotificationHandlers::default(), Ok(())).unwrap();
    client
}

fn request_of(frame: &[u8]) -> (u64, String) {
    let request: serde_json::Value = serde_json::from_slice(frame).unwrap();
    assert_eq!(request["jsonrpc"], "1.0");
    assert!(request["params"].is_array());
    (request["id"].as_u64().unwrap(), request["method"].as_str().unwrap().to_string())
}

fn reply(id: u64, method: &str, result: JsonValue, error: JsonValue) -> JsonResponse {
    JsonResponse {
        id: JsonValue::Number(JsonNumber::Unsigned(id)),
        method: JsonValue::Text(method.to_string()),
        result,
        params: Vec::new(),
        error,
    }
}

/// A server that knows `getblockcount` and the requests for block and work
/// notifications, and answers everything else with an error.
fn mock_server(frame: &[u8]) -> JsonResponse {
    let (id, method) = request_of(frame);
    match method.as_str() {
        "getblockcount" => {
            reply(id, &method, JsonValue::Number(JsonNumber::Unsigned(100)), JsonValue::Null)
        }
        "notifyblocks" | "notifywork" => reply(id, &method, JsonValue::Null, JsonValue::Null),
        _ => reply(
            id,
            &method,
            JsonValue::Null,
            JsonValue::Object(vec![
                ("code".to_string(), JsonValue::Number(JsonNumber::Negative(-32601))),
                ("message".to_string(), JsonValue::Text("Method not found".to_string())),
            ]),
        ),
    }
}

fn written(outbound: Outbound) -> Vec<u8> {
    match outbound {
        Outbound::Write(frame) => frame,
        other => panic!("the frame was not written: {:?}", other),
    }
}

fn answer(client: &mut Client, id: u64, frame: &[u8]) -> JsonResponse {
    match client.handle_received_message(mock_server(frame)) {
        Routed::Response { id: to, response } => {
            assert_eq!(to, id);
            response
        }
        other => panic!("the reply was not routed to its request: {:?}", other),
    }
}

#[test]
fn test_conn() {
    let mut test_client = connected();

    let closed = test_client.disconnect();
    assert!(closed.is_empty());

    match test_client.get_block_count().err().unwrap() {
        RpcClientError::RpcDisconnected => println!("client disconnected"),
        e => panic!("rpcclient client not disconnected: {}", e.message()),
    }

    assert!(test_client.is_disconnected(), "websocket wasnt disconnected");

    match test_client.connect(Ok(())) {
        Ok(_) => println!("websocket reconnected"),
        Err(e) => panic!("websocket errored reconnecting: {}", e.message()),
    };

    let submission = test_client.get_block_count().unwrap();
    let frame = written(submission.outbound);
    let response = answer(&mut test_client, submission.id, &frame);
    assert_eq!(block_count(&response).unwrap(), 100);

    test_client.shutdown();
}

#[test]
fn test_invalid_notification() {
    let mut test_client = connected();

    let submission = test_client.notify_new_transactions(true).unwrap();
    let frame = written(submission.outbound);
    assert_eq!(
        frame,
        br#"{"jsonrpc":"1.0","id":1,"method":"notifynewtransactions","params":[true]}"#.to_vec()
    );
    let response = answer(&mut test_client, submission.id, &frame);
    let result = notification_registered("notifynewtransactions", &response);
    assert!(result.is_err());

    assert_eq!(
        result.err().unwrap().message(),
        RpcClientError::UnregisteredNotification("notifynewtransactions".to_string()).message()
    );
    assert_eq!(test_client.notification_state().len(), 0);

    test_client.shutdown();
}

#[test]
fn block_count_round_trip() {
    let mut client = connected();
    let submission = client.get_block_count().unwrap();
    assert_eq!(submission.id, 1);
    assert!(client.is_pending(1));
    let frame = written(submission.outbound);
    assert_eq!(
        frame,
        br#"{"jsonrpc":"1.0","id":1,"method":"getblockcount","params":[]}"#.to_vec()
    );
    let response = answer(&mut client, 1, &frame);
    assert_eq!(block_count(&response), Ok(100));
    assert!(!client.is_pending(1));
    assert_eq!(client.pending_requests(), 0);
}

#[test]
fn disconnect_then_call_is_refused() {
    let mut client = connected();
    client.disconnect();
    assert_eq!(client.get_block_count(), Err(RpcClientError::RpcDisconnected));
    assert_eq!(client.queued_requests(), 0);
    assert_eq!(client.pending_requests(), 0);
}

#[test]
fn reconnect_after_disconnect() {
    let mut client = connected();
    client.disconnect();
    assert_eq!(client.connect(Ok(())), Ok(None));
    assert!(!client.is_disconnected());
    let submission = client.get_block_count().unwrap();
    let frame = written(submission.outbound);
    let response = answer(&mut client, submission.id, &frame);
    assert_eq!(block_count(&response), Ok(100));
}

#[test]
fn subscription_is_registered_again_after_reconnect() {
    let mut client = connected();
    let submission = client.notify_blocks().unwrap();
    let frame = written(submission.outbound);
    assert_eq!(client.ws_write_middleman(MiddlemanEvent::WriteAcknowledged), MiddlemanAction::Wait);
    let response = answer(&mut client, submission.id, &frame);
    assert_eq!(notification_registered("notifyblocks", &response), Ok(()));
    assert_eq!(client.notification_state().len(), 1);
    assert_eq!(client.notification_state().get(0).method, "notifyblocks");
    assert_eq!(client.notification_state().get(0).id, submission.id);

    // The server closes the socket; the supervisor dials again.
    assert_eq!(
        client.ws_reconnect_handler(SupervisorEvent::ConnectionLost),
        SupervisorAction::Dial
    );
    assert!(!client.is_disconnected());
    // A command that is submitted meanwhile waits.
    let waiting = client.get_block_count().unwrap();
    assert_eq!(waiting.outbound, Outbound::Queued);
    assert_eq!(
        client.ws_reconnect_handler(SupervisorEvent::Redialed(false)),
        SupervisorAction::RetryAfter(10)
    );

    let first = match client.ws_reconnect_handler(SupervisorEvent::Redialed(true)) {
        SupervisorAction::Resume { write, connected } => {
            assert_eq!(connected, None);
            write.unwrap()
        }
        other => panic!("the supervisor did not resume: {:?}", other),
    };
    let (id, method) = request_of(&first);
    assert_eq!(method, "notifyblocks");
    assert_eq!(id, waiting.id + 1);

    // The command that waited follows the registration.
    let second = match client.ws_write_middleman(MiddlemanEvent::WriteAcknowledged) {
        MiddlemanAction::Write(frame) => frame,
        other => panic!("nothing was written: {:?}", other),
    };
    assert_eq!(request_of(&second), (waiting.id, "getblockcount".to_string()));
}

#[test]
fn fifty_commands_are_written_in_the_order_of_submission() {
    let mut client = connected();
    let mut wire: Vec<Vec<u8>> = Vec::new();
    let mut ids: Vec<u64> = Vec::new();
    for _ in 0..50 {
        let submission = client.get_block_count().unwrap();
        ids.push(submission.id);
        match submission.outbound {
            Outbound::Write(frame) => wire.push(frame),
            Outbound::Queued => {}
            Outbound::Post(_) => panic!("a websocket client does not post"),
        }
    }
    assert_eq!(wire.len(), 1);
    assert_eq!(client.queued_requests(), 49);
    assert_eq!(client.pending_requests(), 50);
    loop {
        match client.ws_write_middleman(MiddlemanEvent::WriteAcknowledged) {
            MiddlemanAction::Write(frame) => wire.push(frame),
            MiddlemanAction::Wait => break,
            other => panic!("unexpected action: {:?}", other),
        }
    }
    let seen: Vec<u64> = wire.iter().map(|frame| request_of(frame).0).collect();
    assert_eq!(seen, ids);
    assert_eq!(ids, (1..=50).collect::<Vec<u64>>());
    for frame in &wire {
        let id = request_of(frame).0;
        let response = answer(&mut client, id, frame);
        assert_eq!(block_count(&response), Ok(100));
    }
    assert_eq!(client.pending_requests(), 0);
}

#[test]
fn ids_are_distinct() {
    let mut client = connected();
    let mut ids = std::collections::HashSet::new();
    for _ in 0..200 {
        let id = client.get_block_count().unwrap().id;
        assert!(ids.insert(id));
    }
    // A refused submission uses up its id as well.
    client.disconnect();
    assert!(client.get_block_count().is_err());
    client.connect(Ok(())).unwrap();
    assert_eq!(client.get_block_count().unwrap().id, 202);
}

#[test]
fn next_id_counts_from_one() {
    let (mut client, _) =
        new(ConnConfig::default(), NotificationHandlers::default(), Ok(())).unwrap();
    assert_eq!(client.next_id(), 1);
    assert_eq!(client.next_id(), 2);
    let (id, frame) = client.marshal_command("getblockhash", &[JsonValue::Bool(false)]);
    assert_eq!(id, 3);
    assert_eq!(
        frame.unwrap(),
        br#"{"jsonrpc":"1.0","id":3,"method":"getblockhash","params":[false]}"#.to_vec()
    );
}

#[test]
fn reply_reaches_only_its_request() {
    let mut client = connected();
    let a = client.get_block_count().unwrap();
    let b = client.get_blockchain_info().unwrap();
    let body = reply(b.id, "getblockchaininfo", JsonValue::Text("B".to_string()), JsonValue::Null);
    match client.handle_received_message(reply(
        b.id,
        "getblockchaininfo",
        JsonValue::Text("B".to_string()),
        JsonValue::Null,
    )) {
        Routed::Response { id, response } => {
            assert_eq!(id, b.id);
            assert_eq!(response, body);
        }
        other => panic!("not routed: {:?}", other),
    }
    assert!(client.is_pending(a.id));
    // A second reply under the same id answers nothing.
    match client.handle_received_message(reply(b.id, "x", JsonValue::Null, JsonValue::Null)) {
        Routed::Unsolicited(_) => {}
        other => panic!("routed twice: {:?}", other),
    }
    // An id that is no unsigned number answers nothing either.
    let mut odd = reply(a.id, "x", JsonValue::Null, JsonValue::Null);
    odd.id = JsonValue::Text("1".to_string());
    assert!(matches!(client.handle_received_message(odd), Routed::Unsolicited(_)));
    assert!(client.is_pending(a.id));
}

#[test]
fn notifications_go_to_the_dispatcher() {
    let mut client = connected();
    let message = JsonResponse {
        id: JsonValue::Null,
        method: JsonValue::Text("blockconnected".to_string()),
        result: JsonValue::Null,
        params: vec![JsonValue::Text("00ff".to_string()), JsonValue::Array(Vec::new())],
        error: JsonValue::Null,
    };
    match client.handle_received_message(message) {
        Routed::Notification { method, params } => {
            assert_eq!(method, "blockconnected");
            assert_eq!(params.len(), 2);
        }
        other => panic!("not a notification: {:?}", other),
    }
    let unknown = JsonResponse {
        id: JsonValue::Null,
        method: JsonValue::Text("somethingelse".to_string()),
        result: JsonValue::Null,
        params: Vec::new(),
        error: JsonValue::Null,
    };
    assert!(matches!(client.handle_received_message(unknown), Routed::Unsolicited(_)));
}

#[test]
fn disconnect_is_idempotent_and_closes_every_reply_channel() {
    let mut client = connected();
    let a = client.get_block_count().unwrap();
    let b = client.get_block_hash(7).unwrap();
    let closed = client.disconnect();
    assert_eq!(closed.len(), 2);
    assert_eq!(closed[&a.id], "getblockcount");
    assert_eq!(closed[&b.id], "getblockhash");
    assert!(client.is_disconnected());
    assert_eq!(client.pending_requests(), 0);
    assert_eq!(client.queued_requests(), 0);
    let again = client.disconnect();
    assert!(again.is_empty());
    assert!(client.is_disconnected());
}

#[test]
fn http_mode_rejects_subscriptions() {
    let config = ConnConfig { http_post_mode: true, ..ConnConfig::default() };
    let (mut client, connected) =
        new(config, NotificationHandlers::default(), Err(RpcClientError::TcpStream)).unwrap();
    assert_eq!(connected, None);
    assert!(client.is_disconnected());
    assert_eq!(client.notify_blocks(), Err(RpcClientError::ClientNotConnected));
    assert_eq!(client.notify_work(), Err(RpcClientError::ClientNotConnected));
    assert_eq!(client.notify_new_tickets(), Err(RpcClientError::ClientNotConnected));
    assert_eq!(client.notify_new_transactions(false), Err(RpcClientError::ClientNotConnected));
    // Nothing was touched, not even the id counter.
    let submission = client.get_block_count().unwrap();
    assert_eq!(submission.id, 1);
    assert_eq!(
        submission.outbound,
        Outbound::Post(
            br#"{"jsonrpc":"1.0","id":1,"method":"getblockcount","params":[]}"#.to_vec()
        )
    );
    assert_eq!(client.pending_requests(), 0);
    assert_eq!(client.connect(Ok(())), Err(RpcClientError::WebsocketAlreadyConnected));
}

#[test]
fn new_reports_the_failed_dial() {
    let r = new(ConnConfig::default(), NotificationHandlers::default(), Err(RpcClientError::TcpStream));
    assert_eq!(r.err(), Some(RpcClientError::TcpStream));
    let lazy = ConnConfig { disable_connect_on_new: true, ..ConnConfig::default() };
    let (mut client, _) =
        new(lazy, NotificationHandlers::default(), Err(RpcClientError::TcpStream)).unwrap();
    assert!(client.is_disconnected());
    assert_eq!(client.get_block_count(), Err(RpcClientError::RpcDisconnected));
    assert_eq!(
        client.connect(Err(RpcClientError::RpcHandshake)),
        Err(RpcClientError::RpcHandshake)
    );
    assert!(client.is_disconnected());
    assert_eq!(client.connect(Ok(())), Ok(None));
    assert_eq!(client.connect(Ok(())), Err(RpcClientError::WebsocketAlreadyConnected));
}

#[test]
fn connected_hook_is_announced_when_set() {
    let handlers = NotificationHandlers { on_client_connected: true, ..NotificationHandlers::default() };
    let (mut client, connected) = new(ConnConfig::default(), handlers, Ok(())).unwrap();
    assert_eq!(connected, Some(NotificationEvent::ClientConnected));
    client.disconnect();
    assert_eq!(client.connect(Ok(())), Ok(Some(NotificationEvent::ClientConnected)));
    client.ws_reconnect_handler(SupervisorEvent::ConnectionLost);
    match client.ws_reconnect_handler(SupervisorEvent::Redialed(true)) {
        SupervisorAction::Resume { write, connected } => {
            assert_eq!(write, None);
            assert_eq!(connected, Some(NotificationEvent::ClientConnected));
        }
        other => panic!("the supervisor did not resume: {:?}", other),
    }
}

#[test]
fn lost_connection_without_auto_reconnect_ends_the_transport() {
    let config = ConnConfig { disable_auto_reconnect: true, ..ConnConfig::default() };
    let (mut client, _) = new(config, NotificationHandlers::default(), Ok(())).unwrap();
    let a = client.get_block_count().unwrap();
    match client.ws_reconnect_handler(SupervisorEvent::ConnectionLost) {
        SupervisorAction::GiveUp(closed) => {
            assert_eq!(closed.len(), 1);
            assert!(closed.contains_key(&a.id));
        }
        other => panic!("the supervisor did not give up: {:?}", other),
    }
    assert!(client.is_disconnected());
    assert_eq!(client.get_block_count(), Err(RpcClientError::RpcDisconnected));
    assert_eq!(
        client.ws_reconnect_handler(SupervisorEvent::Redialed(true)),
        SupervisorAction::Ignore
    );
    assert_eq!(
        client.ws_reconnect_handler(SupervisorEvent::ConnectionLost),
        SupervisorAction::Ignore
    );
}

#[test]
fn unwritable_parameter_is_a_marshaller_error() {
    let mut client = connected();
    let bad = [JsonValue::Number(JsonNumber::Real("1.".to_string()))];
    assert_eq!(client.send_custom_command("x", &bad), Err(RpcClientError::Marshaller));
    let good = [JsonValue::Number(JsonNumber::Real("-1.5e+3".to_string()))];
    let submission = client.send_custom_command("x", &good).unwrap();
    assert_eq!(submission.id, 2);
    assert_eq!(
        written(submission.outbound),
        br#"{"jsonrpc":"1.0","id":2,"method":"x","params":[-1.5e+3]}"#.to_vec()
    );
}

#[test]
fn shutdown_returns_the_pending_requests() {
    let mut client = connected();
    let a = client.get_block_count().unwrap();
    let closed = client.shutdown();
    assert_eq!(closed.len(), 1);
    assert!(closed.contains_key(&a.id));
    let mut idle = connected();
    idle.disconnect();
    assert!(idle.shutdown().is_empty());
}

#[test]
fn queue_update_and_stale_acknowledgement() {
    let mut client = connected();
    assert_eq!(client.ws_write_middleman(MiddlemanEvent::QueueUpdated), MiddlemanAction::Wait);
    assert_eq!(client.handle_websocket_out(), None);
    let a = client.get_block_count().unwrap();
    assert!(matches!(a.outbound, Outbound::Write(_)));
    let b = client.get_block_count().unwrap();
    assert_eq!(b.outbound, Outbound::Queued);
    // The writer is busy: looking at the queue again writes nothing.
    assert_eq!(client.ws_write_middleman(MiddlemanEvent::QueueUpdated), MiddlemanAction::Wait);
    client.disconnect();
    assert_eq!(client.ws_write_middleman(MiddlemanEvent::WriteAcknowledged), MiddlemanAction::Wait);
    assert!(matches!(
        client.ws_write_middleman(MiddlemanEvent::Disconnect),
        MiddlemanAction::Closed(closed) if closed.is_empty()
    ));
}
