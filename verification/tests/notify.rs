use rustdcr::chaincfg::chainhash;
use rustdcr::chaincfg::chainhash::ChainHashError;
use rustdcr::dcrjson::result_types::{JsonNumber, JsonValue};
use rustdcr::dcrjson::{marshal_to_hash, parse_hex_parameters};
use rustdcr::rpcclient::client::{is_notification, is_registration};
use rustdcr::rpcclient::infrastructure::{handle_websocket_in, Frame, ReaderAction};
use rustdcr::rpcclient::notify::{
    handle_notification, parse_hash_list, parse_hex_list, NotificationEvent, NotificationHandlers,
    NotificationState, NotificationStateTable,
};

fn all_handlers() -> NotificationHandlers {
    NotificationHandlers {
        on_client_connected: true,
        on_block_connected: true,
        on_block_disconnected: true,
        on_work: true,
        on_relevant_tx_accepted: true,
        on_reorganization: true,
        on_winning_tickets: true,
        on_spent_and_missed_tickets: true,
        on_new_tickets: true,
        on_stake_difficulty: true,
        on_unknown_notification: true,
    }
}

fn hex(s: &str) -> JsonValue {
    JsonValue::Text(s.to_string())
}

#[test]
fn handlers_are_unset_by_default() {
    let handlers = NotificationHandlers::default();
    assert!(!handlers.on_client_connected);
    assert!(!handlers.on_block_connected);
    assert!(!handlers.on_block_disconnected);
    assert!(!handlers.on_work);
    assert!(!handlers.on_relevant_tx_accepted);
    assert!(!handlers.on_reorganization);
    assert!(!handlers.on_winning_tickets);
    assert!(!handlers.on_spent_and_missed_tickets);
    assert!(!handlers.on_new_tickets);
    assert!(!handlers.on_stake_difficulty);
    assert!(!handlers.on_unknown_notification);
    let state = NotificationState::default();
    assert!(!state.notify_blocks && !state.notify_work && !state.notify_new_tx);
    assert!(!state.notify_winning_tickets && !state.notify_spent_and_missed_tickets);
    assert!(!state.notify_new_tickets && !state.notify_stake_difficulty);
    assert!(!state.notify_new_tx_verbose);
}

#[test]
fn hex_parameters_are_decoded() {
    assert_eq!(parse_hex_parameters(&JsonValue::Null), Some(Vec::new()));
    assert_eq!(parse_hex_parameters(&hex("")), Some(Vec::new()));
    assert_eq!(parse_hex_parameters(&hex("00fFa1")), Some(vec![0, 255, 161]));
    assert_eq!(parse_hex_parameters(&hex("0123456789abcdefABCDEF")).unwrap().len(), 11);
    assert_eq!(parse_hex_parameters(&hex("abc")), None);
    assert_eq!(parse_hex_parameters(&hex("zz")), None);
    assert_eq!(parse_hex_parameters(&hex("é0")), None);
    assert_eq!(parse_hex_parameters(&JsonValue::Bool(true)), None);
    assert_eq!(parse_hex_parameters(&JsonValue::Number(JsonNumber::Unsigned(10))), None);
}

#[test]
fn hashes_are_read_in_reverse() {
    let text = "000102030405060708090a0b0c0d0e0f101112131415161718191a1b1c1d1e1f";
    let hash = chainhash::Hash::new_from_str(text).unwrap();
    let expected: Vec<u8> = (0u8..32).rev().collect();
    assert_eq!(hash.bytes.to_vec(), expected);
    let short = chainhash::Hash::new_from_str("abc").unwrap();
    let mut bytes = [0u8; 32];
    bytes[0] = 0xbc;
    bytes[1] = 0x0a;
    assert_eq!(short.bytes, bytes);
    assert_eq!(chainhash::Hash::new_from_str("").unwrap().bytes, [0u8; 32]);
    assert_eq!(chainhash::Hash::new_from_str("xy"), Err(ChainHashError::InvalidHex));
    let long = "0".repeat(65);
    assert_eq!(chainhash::Hash::new_from_str(&long), Err(ChainHashError::HashStringSize));
    assert_eq!(marshal_to_hash(&hex("abc")), Some(short));
    assert_eq!(marshal_to_hash(&hex("nothex")), None);
    assert_eq!(marshal_to_hash(&JsonValue::Null), None);
}

#[test]
fn lists_are_read_whole_or_not_at_all() {
    let list = JsonValue::Array(vec![hex("01"), JsonValue::Null, hex("0203")]);
    assert_eq!(parse_hex_list(&list), Some(vec![vec![1], vec![], vec![2, 3]]));
    let broken = JsonValue::Array(vec![hex("01"), hex("x")]);
    assert_eq!(parse_hex_list(&broken), None);
    assert_eq!(parse_hex_list(&hex("01")), None);
    let hashes = JsonValue::Array(vec![hex("01"), hex("02")]);
    assert_eq!(parse_hash_list(&hashes).unwrap().len(), 2);
    assert_eq!(parse_hash_list(&list), None);
}

#[test]
fn block_connected_is_dispatched() {
    let params = vec![hex("0a0b"), JsonValue::Array(vec![hex("01"), hex("0203")])];
    let event = handle_notification(&all_handlers(), "blockconnected".to_string(), params);
    assert_eq!(
        event,
        Some(NotificationEvent::BlockConnected {
            block_header: vec![10, 11],
            transactions: vec![vec![1], vec![2, 3]],
        })
    );
}

#[test]
fn block_disconnected_and_work_are_dispatched() {
    let event =
        handle_notification(&all_handlers(), "blockdisconnected".to_string(), vec![hex("ff")]);
    assert_eq!(event, Some(NotificationEvent::BlockDisconnected { block_header: vec![255] }));
    let params = vec![hex("01"), hex("02"), JsonValue::Text("new parent".to_string())];
    let event = handle_notification(&all_handlers(), "work".to_string(), params);
    assert_eq!(
        event,
        Some(NotificationEvent::Work {
            data: vec![1],
            target: vec![2],
            reason: "new parent".to_string(),
        })
    );
}

#[test]
fn new_tickets_are_dispatched() {
    let params = vec![
        hex("01"),
        JsonValue::Number(JsonNumber::Unsigned(12)),
        JsonValue::Number(JsonNumber::Negative(-3)),
        JsonValue::Array(vec![hex("02")]),
    ];
    let event = handle_notification(&all_handlers(), "newtickets".to_string(), params);
    match event {
        Some(NotificationEvent::NewTickets { hash, height, stake_diff, tickets }) => {
            assert_eq!(hash.bytes[0], 1);
            assert_eq!(height, 12);
            assert_eq!(stake_diff, -3);
            assert_eq!(tickets.len(), 1);
            assert_eq!(tickets[0].bytes[0], 2);
        }
        other => panic!("not dispatched: {:?}", other),
    }
}

#[test]
fn notifications_without_handler_or_with_bad_parameters_are_passed_over() {
    let none = NotificationHandlers::default();
    assert_eq!(handle_notification(&none, "blockdisconnected".to_string(), vec![hex("ff")]), None);
    assert_eq!(handle_notification(&none, "whatever".to_string(), Vec::new()), None);
    let all = all_handlers();
    assert_eq!(handle_notification(&all, "blockdisconnected".to_string(), Vec::new()), None);
    assert_eq!(handle_notification(&all, "blockdisconnected".to_string(), vec![hex("f")]), None);
    assert_eq!(handle_notification(&all, "blockconnected".to_string(), vec![hex("ff")]), None);
    assert_eq!(
        handle_notification(&all, "work".to_string(), vec![hex("01"), hex("02"), JsonValue::Null]),
        None
    );
    assert_eq!(handle_notification(&all, "newtickets".to_string(), vec![hex("01")]), None);
}

#[test]
fn unknown_notifications_go_to_the_catch_all() {
    let event =
        handle_notification(&all_handlers(), "reorganization".to_string(), vec![JsonValue::Null]);
    assert_eq!(
        event,
        Some(NotificationEvent::Unknown {
            method: "reorganization".to_string(),
            params: vec![JsonValue::Null],
        })
    );
}

#[test]
fn methods_are_told_apart() {
    for m in ["notifyblocks", "notifynewtickets", "notifywork", "notifynewtransactions",
        "notifywinningtickets", "notifyspentandmissedtickets", "notifystakedifficulty"] {
        assert!(is_registration(m), "{}", m);
        assert!(!is_notification(m), "{}", m);
    }
    for m in ["blockconnected", "blockdisconnected", "newtickets", "work"] {
        assert!(is_notification(m), "{}", m);
        assert!(!is_registration(m), "{}", m);
    }
    assert!(!is_registration("getblockcount"));
    assert!(!is_notification(""));
}

#[test]
fn table_keeps_one_entry_for_each_method() {
    let table = NotificationStateTable::new();
    assert_eq!(table.len(), 0);
    let table = table.record("notifyblocks".to_string(), 1);
    let table = table.record("notifywork".to_string(), 2);
    let table = table.record("notifyblocks".to_string(), 9);
    assert_eq!(table.len(), 2);
    assert_eq!(table.get(0).method, "notifyblocks");
    assert_eq!(table.get(0).id, 9);
    assert_eq!(table.get(1).method, "notifywork");
    assert_eq!(table.get(1).id, 2);
    assert_eq!(table.position(&"notifywork".to_string()), Some(1));
    assert_eq!(table.position(&"other".to_string()), None);
}

#[test]
fn reader_forwards_payloads_and_reports_the_end() {
    assert_eq!(
        handle_websocket_in(Some(Frame::Text("{}".to_string()))),
        ReaderAction::Forward(b"{}".to_vec())
    );
    assert_eq!(
        handle_websocket_in(Some(Frame::Binary(vec![1, 2]))),
        ReaderAction::Forward(vec![1, 2])
    );
    assert_eq!(handle_websocket_in(Some(Frame::Ping(Vec::new()))), ReaderAction::Skip);
    assert_eq!(handle_websocket_in(Some(Frame::Pong(Vec::new()))), ReaderAction::Skip);
    assert_eq!(handle_websocket_in(Some(Frame::Close)), ReaderAction::Reconnect);
    assert_eq!(handle_websocket_in(None), ReaderAction::Reconnect);
}
