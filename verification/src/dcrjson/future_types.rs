//! What the reply to a command means to the caller that waits for it.

use super::result_types::{JsonNumber, JsonResponse, JsonValue};
use super::rpc_types::same_text;
use crate::chaincfg::chainhash;
use crate::rpcclient::error::RpcClientError;
use vstd::prelude::*;
use vstd::string::*;
use vstd::utf8::encode_utf8;

verus! {

/// The first `n` members of an object hold no member called `name`.
pub open spec fn no_member(members: Seq<(String, JsonValue)>, name: Seq<char>, n: int) -> bool {
    forall|i: int| 0 <= i < n ==> (#[trigger] members[i]).0@ != name
}

/// The place of the first member called `name`, or the number of members if
/// there is none.
pub open spec fn member_place(members: Seq<(String, JsonValue)>, name: Seq<char>) -> int
    decreases members.len(),
{
    if members.len() == 0 {
        0
    } else if members[0].0@ == name {
        0
    } else {
        1 + member_place(members.drop_first(), name)
    }
}

/// The value of the first member called `name`.
pub open spec fn member(members: Seq<(String, JsonValue)>, name: Seq<char>) -> Option<JsonValue> {
    let place = member_place(members, name);
    if place < members.len() {
        Some(members[place].1)
    } else {
        None
    }
}

/// The integer that a value holds, if it holds one that fits.
pub open spec fn integer_of(v: JsonValue) -> Option<i64> {
    match v {
        JsonValue::Number(JsonNumber::Unsigned(n)) => if n <= i64::MAX {
            Some(n as i64)
        } else {
            None
        },
        JsonValue::Number(JsonNumber::Negative(n)) => Some(n),
        _ => None,
    }
}

/// The error of the caller for the error that the server reports: its code
/// and its message, or `Unmarshaller` if it is no object with an integer
/// member `code` and a text member `message`.
pub open spec fn reply_error(error: JsonValue) -> RpcClientError {
    match error {
        JsonValue::Object(members) => match (
            member(members@, "code"@),
            member(members@, "message"@),
        ) {
            (Some(code), Some(JsonValue::Text(message))) => match integer_of(code) {
                Some(code) => RpcClientError::ServerError(code, message),
                None => RpcClientError::Unmarshaller,
            },
            _ => RpcClientError::Unmarshaller,
        },
        _ => RpcClientError::Unmarshaller,
    }
}

proof fn lemma_member_place(members: Seq<(String, JsonValue)>, name: Seq<char>, n: int)
    requires
        0 <= n <= members.len(),
        no_member(members, name, n),
        n < members.len() ==> members[n].0@ == name,
    ensures
        member_place(members, name) == n,
    decreases n,
{
    if n > 0 {
        assert(members[0].0@ != name);
        let rest = members.drop_first();
        assert forall|i: int| 0 <= i < n - 1 implies (#[trigger] rest[i]).0@ != name by {
            assert(rest[i] == members[i + 1]);
        }
        if n < members.len() {
            assert(rest[n - 1] == members[n]);
        }
        lemma_member_place(rest, name, n - 1);
    }
}

/// Finds the value of the first member called `name`.
pub fn find_member<'a>(members: &'a Vec<(String, JsonValue)>, name: &str) -> (found: Option<
    &'a JsonValue,
>)
    ensures
        match found {
            Some(value) => member(members@, name@) == Some(*value),
            None => member(members@, name@) is None,
        },
{
    let mut i: usize = 0;
    while i < members.len()
        invariant
            i <= members.len(),
            no_member(members@, name@, i as int),
        decreases members.len() - i,
    {
        if same_text(members[i].0.as_str(), name) {
            proof {
                lemma_member_place(members@, name@, i as int);
            }
            return Some(&members[i].1);
        }
        i = i + 1;
    }
    proof {
        lemma_member_place(members@, name@, i as int);
    }
    None
}

/// Reads the integer that a value holds.
pub fn to_integer(v: &JsonValue) -> (n: Option<i64>)
    ensures
        n == integer_of(*v),
{
    match v {
        JsonValue::Number(JsonNumber::Unsigned(n)) => if *n <= 0x7fff_ffff_ffff_ffff {
            Some(*n as i64)
        } else {
            None
        },
        JsonValue::Number(JsonNumber::Negative(n)) => Some(*n),
        _ => None,
    }
}

/// Turns the error that the server reports into the error of the caller.
pub fn server_error(error: &JsonValue) -> (e: RpcClientError)
    ensures
        e == reply_error(*error),
{
    match error {
        JsonValue::Object(members) => {
            let code = match find_member(members, "code") {
                Some(code) => to_integer(code),
                None => None,
            };
            match (code, find_member(members, "message")) {
                (Some(code), Some(JsonValue::Text(message))) => RpcClientError::ServerError(
                    code,
                    message.clone(),
                ),
                _ => RpcClientError::Unmarshaller,
            }
        },
        _ => RpcClientError::Unmarshaller,
    }
}

/// The reply to `getblockcount`: the number of blocks. The server's error, if
/// it reports one, is the error of the call; a result that is no integer
/// gives `Unmarshaller`.
pub fn block_count(response: &JsonResponse) -> (r: Result<i64, RpcClientError>)
    ensures
        r == if !(response.error is Null) {
            Err::<i64, RpcClientError>(reply_error(response.error))
        } else {
            match integer_of(response.result) {
                Some(n) => Ok::<i64, RpcClientError>(n),
                None => Err::<i64, RpcClientError>(RpcClientError::Unmarshaller),
            }
        },
{
    match &response.error {
        JsonValue::Null => match to_integer(&response.result) {
            Some(n) => Ok(n),
            None => Err(RpcClientError::Unmarshaller),
        },
        error => Err(server_error(error)),
    }
}

/// The reply to `getblockhash`: the hash of the block. The server's error,
/// if it reports one, is the error of the call; a result that is no text of
/// a hash gives `Unmarshaller`.
pub fn block_hash(response: &JsonResponse) -> (r: Result<chainhash::Hash, RpcClientError>)
    ensures
        match r {
            Ok(hash) => response.error is Null && (response.result matches JsonValue::Text(text)
                && chainhash::parsed_hash(encode_utf8(text@)) == Some(hash.bytes@)),
            Err(e) => if !(response.error is Null) {
                e == reply_error(response.error)
            } else {
                e == RpcClientError::Unmarshaller && !(response.result matches JsonValue::Text(
                    text,
                ) && chainhash::parsed_hash(encode_utf8(text@)) is Some)
            },
        },
{
    match &response.error {
        JsonValue::Null => match crate::dcrjson::marshal_to_hash(&response.result) {
            Some(hash) => Ok(hash),
            None => Err(RpcClientError::Unmarshaller),
        },
        error => Err(server_error(error)),
    }
}

/// The reply to `getblockchaininfo`: the server's error, if it reports one,
/// else the result as it came.
pub fn blockchain_info(response: JsonResponse) -> (r: Result<JsonValue, RpcClientError>)
    ensures
        r == if response.error is Null {
            Ok::<JsonValue, RpcClientError>(response.result)
        } else {
            Err::<JsonValue, RpcClientError>(reply_error(response.error))
        },
{
    match &response.error {
        JsonValue::Null => Ok(response.result),
        error => Err(server_error(error)),
    }
}

/// The reply to a request for notifications: if the server reports an error,
/// the notification `method` is not registered.
pub fn notification_registered(method: &str, response: &JsonResponse) -> (r: Result<
    (),
    RpcClientError,
>)
    ensures
        match r {
            Ok(_) => response.error is Null,
            Err(e) => !(response.error is Null) && (e matches RpcClientError::UnregisteredNotification(
                name,
            ) && name@ == method@),
        },
{
    match &response.error {
        JsonValue::Null => Ok(()),
        _ => Err(RpcClientError::UnregisteredNotification(String::from_str(method))),
    }
}

} // verus!
