//! JSON-RPC values, requests and responses, and how parameters are read.

pub mod future_types;
pub mod result_types;
pub mod rpc_types;

use crate::chaincfg::chainhash;
use result_types::JsonValue;
use vstd::prelude::*;
use vstd::utf8::encode_utf8;

verus! {

/// The value of a hexadecimal digit, or -1 for a byte that is none.
pub open spec fn hex_value(b: u8) -> int {
    if 0x30 <= b <= 0x39 {
        b - 0x30
    } else if 0x61 <= b <= 0x66 {
        b - 0x61 + 10
    } else if 0x41 <= b <= 0x46 {
        b - 0x41 + 10
    } else {
        -1
    }
}

/// Whether `text` is an even number of hexadecimal digits.
pub open spec fn is_hex_text(text: Seq<u8>) -> bool {
    text.len() % 2 == 0 && forall|i: int| 0 <= i < text.len() ==> hex_value(#[trigger] text[i]) >= 0
}

/// The bytes that the digits of `text` stand for, two digits a byte.
pub open spec fn hex_decoding(text: Seq<u8>) -> Seq<u8> {
    Seq::new(
        text.len() / 2,
        |i: int| (hex_value(text[2 * i]) * 16 + hex_value(text[2 * i + 1])) as u8,
    )
}

/// Calls `ring::test::from_hex`, which decodes a text of an even number of
/// hexadecimal digits, of either case, two digits a byte, and fails on any
/// other text. Its error message is dropped.
#[verifier::external_body]
pub(crate) fn from_hex(text: &str) -> (decoded: Option<Vec<u8>>)
    ensures
        match decoded {
            Some(bytes) => is_hex_text(encode_utf8(text@)) && bytes@ == hex_decoding(
                encode_utf8(text@),
            ),
            None => !is_hex_text(encode_utf8(text@)),
        },
{
    ring::test::from_hex(text).ok()
}

/// Reads a parameter that holds bytes as hexadecimal text. Null stands for
/// no bytes. Anything that is neither null nor such a text gives `None`.
pub fn parse_hex_parameters(value: &JsonValue) -> (bytes: Option<Vec<u8>>)
    ensures
        match *value {
            JsonValue::Null => bytes matches Some(b) && b@ == Seq::<u8>::empty(),
            JsonValue::Text(text) => match bytes {
                Some(b) => is_hex_text(encode_utf8(text@)) && b@ == hex_decoding(
                    encode_utf8(text@),
                ),
                None => !is_hex_text(encode_utf8(text@)),
            },
            _ => bytes is None,
        },
{
    match value {
        JsonValue::Null => Some(Vec::new()),
        JsonValue::Text(text) => from_hex(text.as_str()),
        _ => None,
    }
}

/// Reads a parameter that holds a hash as text. Anything that is no text of
/// a hash gives `None`.
pub fn marshal_to_hash(value: &JsonValue) -> (hash: Option<chainhash::Hash>)
    ensures
        match *value {
            JsonValue::Text(text) => match hash {
                Some(h) => chainhash::parsed_hash(encode_utf8(text@)) == Some(h.bytes@),
                None => chainhash::parsed_hash(encode_utf8(text@)) is None,
            },
            _ => hash is None,
        },
{
    match value {
        JsonValue::Text(text) => match chainhash::Hash::new_from_str(text.as_str()) {
            Ok(hash) => Some(hash),
            Err(_) => None,
        },
        _ => None,
    }
}

} // verus!
