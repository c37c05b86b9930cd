use rustdcr::dcrjson::future_types::{
    block_count, block_hash, blockchain_info, find_member, notification_registered, server_error,
    to_integer,
};
use rustdcr::dcrjson::result_types::{
    check_number_text, write_array, write_decimal, write_integer, write_string, write_value,
    JsonNumber, JsonRequest, JsonResponse, JsonValue,
};
use rustdcr::dcrjson::rpc_types::same_text;
use rustdcr::rpcclient::error::RpcClientError;

fn text(v: &JsonValue) -> Option<String> {
    let mut out = Vec::new();
    if write_value(v, &mut out) {
        Some(String::from_utf8(out).unwrap())
    } else {
        None
    }
}

fn to_serde(v: &JsonValue) -> serde_json::Value {
    match v {
        JsonValue::Null => serde_json::Value::Null,
        JsonValue::Bool(b) => serde_json::Value::from(*b),
        JsonValue::Number(JsonNumber::Unsigned(n)) => serde_json::Value::from(*n),
        JsonValue::Number(JsonNumber::Negative(n)) => serde_json::Value::from(*n),
        JsonValue::Number(JsonNumber::Real(t)) => serde_json::from_str(t).unwrap(),
        JsonValue::Text(s) => serde_json::Value::from(s.clone()),
        JsonValue::Array(items) => serde_json::Value::Array(items.iter().map(to_serde).collect()),
        JsonValue::Object(members) => serde_json::Value::Object(
            members.iter().map(|(k, v)| (k.clone(), to_serde(v))).collect(),
        ),
    }
}

fn response(result: JsonValue, error: JsonValue) -> JsonResponse {
    JsonResponse {
        id: JsonValue::Number(JsonNumber::Unsigned(1)),
        method: JsonValue::Null,
        result,
        params: Vec::new(),
        error,
    }
}

#[test]
fn scalars_are_written_as_json() {
    assert_eq!(text(&JsonValue::Null).unwrap(), "null");
    assert_eq!(text(&JsonValue::Bool(true)).unwrap(), "true");
    assert_eq!(text(&JsonValue::Bool(false)).unwrap(), "false");
    assert_eq!(text(&JsonValue::Number(JsonNumber::Unsigned(0))).unwrap(), "0");
    assert_eq!(
        text(&JsonValue::Number(JsonNumber::Unsigned(u64::MAX))).unwrap(),
        "18446744073709551615"
    );
    assert_eq!(
        text(&JsonValue::Number(JsonNumber::Negative(i64::MIN))).unwrap(),
        "-9223372036854775808"
    );
    assert_eq!(text(&JsonValue::Number(JsonNumber::Negative(-7))).unwrap(), "-7");
    assert_eq!(text(&JsonValue::Number(JsonNumber::Real("0.25".to_string()))).unwrap(), "0.25");
    assert_eq!(text(&JsonValue::Text("abc".to_string())).unwrap(), "\"abc\"");
}

#[test]
fn decimal_and_integer_writers() {
    let mut out = b"n=".to_vec();
    write_decimal(1020, &mut out);
    write_integer(-15, &mut out);
    write_integer(9, &mut out);
    assert_eq!(out, b"n=1020-159".to_vec());
}

#[test]
fn strings_are_escaped_as_serde_json_escapes_them() {
    let samples = [
        "",
        "plain",
        "quote\" and backslash\\",
        "tab\t newline\n return\r backspace\u{8} formfeed\u{c}",
        "control \u{0}\u{1}\u{1f} del \u{7f}",
        "unicode é ✓ 😀 /slash",
    ];
    for s in samples.iter() {
        let mut out = Vec::new();
        write_string(s, &mut out);
        assert_eq!(out, serde_json::to_vec(s).unwrap(), "for {:?}", s);
    }
    let mut out = Vec::new();
    write_string("a\"\u{1}", &mut out);
    assert_eq!(out, b"\"a\\\"\\u0001\"".to_vec());
}

#[test]
fn nested_values_are_written_as_serde_json_writes_them() {
    let value = JsonValue::Array(vec![
        JsonValue::Null,
        JsonValue::Object(vec![
            ("a".to_string(), JsonValue::Array(Vec::new())),
            ("b\n".to_string(), JsonValue::Object(Vec::new())),
            ("c".to_string(), JsonValue::Number(JsonNumber::Negative(-3))),
        ]),
        JsonValue::Text("x".to_string()),
        JsonValue::Array(vec![JsonValue::Bool(false), JsonValue::Number(JsonNumber::Unsigned(5))]),
    ]);
    assert_eq!(
        text(&value).unwrap(),
        "[null,{\"a\":[],\"b\\n\":{},\"c\":-3},\"x\",[false,5]]"
    );
    assert_eq!(text(&value).unwrap().into_bytes(), serde_json::to_vec(&to_serde(&value)).unwrap());
}

#[test]
fn number_texts_are_checked() {
    for good in ["0", "-0", "10", "1.5", "-2.25e10", "3E-7", "4e+0", "0.0", "123456789012345678901234567890"] {
        assert!(check_number_text(good.as_bytes()), "{}", good);
    }
    for bad in ["", "-", "01", "1.", ".5", "1e", "1e+", "+1", "1.5.2", "1 ", "NaN", "0x10", "1e5x", "--1"] {
        assert!(!check_number_text(bad.as_bytes()), "{}", bad);
    }
}

#[test]
fn value_with_a_bad_number_cannot_be_written() {
    let bad = JsonValue::Array(vec![
        JsonValue::Bool(true),
        JsonValue::Object(vec![(
            "n".to_string(),
            JsonValue::Number(JsonNumber::Real("Infinity".to_string())),
        )]),
    ]);
    assert_eq!(text(&bad), None);
    let mut out = Vec::new();
    assert!(!write_array(&[JsonValue::Null, bad], &mut out));
    let mut out = Vec::new();
    assert!(write_array(&[], &mut out));
    assert_eq!(out, b"[]".to_vec());
}

#[test]
fn request_is_one_json_document() {
    let params = [JsonValue::Number(JsonNumber::Unsigned(42)), JsonValue::Text("a\"b".to_string())];
    let request = JsonRequest { jsonrpc: "1.0", id: 7, method: "getblockhash", params: &params };
    let bytes = request.to_vec().unwrap();
    assert_eq!(
        bytes,
        br#"{"jsonrpc":"1.0","id":7,"method":"getblockhash","params":[42,"a\"b"]}"#.to_vec()
    );
    let parsed: serde_json::Value = serde_json::from_slice(&bytes).unwrap();
    assert_eq!(parsed["id"], 7);
    assert_eq!(parsed["params"][1], "a\"b");
    let bad = [JsonValue::Number(JsonNumber::Real("x".to_string()))];
    let request = JsonRequest { jsonrpc: "1.0", id: 7, method: "m", params: &bad };
    assert_eq!(request.to_vec(), Err(RpcClientError::Marshaller));
}

#[test]
fn same_text_compares_strings() {
    assert!(same_text("", ""));
    assert!(same_text("work", "work"));
    assert!(!same_text("work", "worker"));
    assert!(!same_text("work", "worK"));
    assert!(same_text("é✓", "é✓"));
}

#[test]
fn integers_are_read_from_values() {
    assert_eq!(to_integer(&JsonValue::Number(JsonNumber::Unsigned(5))), Some(5));
    assert_eq!(to_integer(&JsonValue::Number(JsonNumber::Negative(-5))), Some(-5));
    assert_eq!(
        to_integer(&JsonValue::Number(JsonNumber::Unsigned(i64::MAX as u64))),
        Some(i64::MAX)
    );
    assert_eq!(to_integer(&JsonValue::Number(JsonNumber::Unsigned(i64::MAX as u64 + 1))), None);
    assert_eq!(to_integer(&JsonValue::Number(JsonNumber::Real("1.0".to_string()))), None);
    assert_eq!(to_integer(&JsonValue::Text("5".to_string())), None);
}

#[test]
fn first_member_of_a_name_is_found() {
    let members = vec![
        ("a".to_string(), JsonValue::Bool(true)),
        ("b".to_string(), JsonValue::Null),
        ("a".to_string(), JsonValue::Bool(false)),
    ];
    assert_eq!(find_member(&members, "a"), Some(&JsonValue::Bool(true)));
    assert_eq!(find_member(&members, "b"), Some(&JsonValue::Null));
    assert_eq!(find_member(&members, "c"), None);
}

#[test]
fn server_error_carries_code_and_message() {
    let error = JsonValue::Object(vec![
        ("message".to_string(), JsonValue::Text("no such block".to_string())),
        ("code".to_string(), JsonValue::Number(JsonNumber::Negative(-5))),
    ]);
    assert_eq!(server_error(&error), RpcClientError::ServerError(-5, "no such block".to_string()));
    assert_eq!(server_error(&JsonValue::Text("x".to_string())), RpcClientError::Unmarshaller);
    let no_code = JsonValue::Object(vec![("message".to_string(), JsonValue::Text("m".to_string()))]);
    assert_eq!(server_error(&no_code), RpcClientError::Unmarshaller);
    assert_eq!(
        block_count(&response(JsonValue::Null, error)),
        Err(RpcClientError::ServerError(-5, "no such block".to_string()))
    );
}

#[test]
fn replies_are_read() {
    let count = response(JsonValue::Number(JsonNumber::Unsigned(100)), JsonValue::Null);
    assert_eq!(block_count(&count), Ok(100));
    let wrong = response(JsonValue::Text("100".to_string()), JsonValue::Null);
    assert_eq!(block_count(&wrong), Err(RpcClientError::Unmarshaller));
    assert_eq!(block_hash(&count), Err(RpcClientError::Unmarshaller));
    let hash = response(JsonValue::Text("0a".to_string()), JsonValue::Null);
    let mut bytes = [0u8; 32];
    bytes[0] = 10;
    assert_eq!(block_hash(&hash).unwrap().bytes, bytes);
    let info = response(JsonValue::Object(Vec::new()), JsonValue::Null);
    assert_eq!(blockchain_info(info), Ok(JsonValue::Object(Vec::new())));
    let failed = response(JsonValue::Null, JsonValue::Bool(true));
    assert_eq!(blockchain_info(failed), Err(RpcClientError::Unmarshaller));
    let failed = response(JsonValue::Null, JsonValue::Bool(true));
    assert_eq!(
        notification_registered("notifywork", &failed),
        Err(RpcClientError::UnregisteredNotification("notifywork".to_string()))
    );
    assert_eq!(notification_registered("notifywork", &count), Ok(()));
}
