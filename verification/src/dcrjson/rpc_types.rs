//! Names of the RPC methods and notifications the client knows.

use vstd::prelude::*;
use vstd::string::*;
use vstd::utf8::{encode_utf8, encode_utf8_decode_utf8};

verus! {

/// Notification from the chain server that a block has been connected.
pub const NOTIFICATION_METHOD_BLOCK_CONNECTED: &'static str = "blockconnected";

/// Notification from the chain server that a block has been disconnected.
pub const NOTIFICATION_METHOD_BLOCK_DISCONNECTED: &'static str = "blockdisconnected";

/// Notifies a client when new tickets have matured.
pub const NOTIFICATION_METHOD_NEW_TICKETS: &'static str = "newtickets";

/// Notification that a new block template has been generated.
pub const NOTIFICATION_METHOD_WORK: &'static str = "work";

/// Asks the server to send block connected and disconnected notifications.
pub const METHOD_NOTIFY_BLOCKS: &'static str = "notifyblocks";

/// Asks the server to send a notification when tickets mature.
pub const METHOD_NOTIFY_NEW_TICKETS: &'static str = "notifynewtickets";

/// Asks the server to send a notification when a block template is generated.
pub const METHOD_NOTIFIY_NEW_WORK: &'static str = "notifywork";

/// Asks the server to send a notification for every transaction it accepts.
pub const METHOD_NOTIFY_NEW_TX: &'static str = "notifynewtransactions";

/// Asks the server to send the winning tickets of every connected block.
pub const METHOD_NOTIFY_WINNING_TICKETS: &'static str = "notifywinningtickets";

/// Asks the server to send the tickets spent or missed by every connected block.
pub const METHOD_NOTIFY_SPENT_AND_MISSED_TICKETS: &'static str = "notifyspentandmissedtickets";

/// Asks the server to send every change of the stake difficulty.
pub const METHOD_NOTIFY_STAKE_DIFFICULTY: &'static str = "notifystakedifficulty";

/// Returns information about the current state of the block chain.
pub const METHOD_GET_BLOCKCHAIN_INFO: &'static str = "getblockchaininfo";

/// Returns the number of blocks in the longest block chain.
pub const METHOD_GET_BLOCK_COUNT: &'static str = "getblockcount";

/// Returns the hash of the block in the best block chain at the given height.
pub const METHOD_GET_BLOCK_HASH: &'static str = "getblockhash";

/// Whether two strings hold the same text.
pub fn same_text(a: &str, b: &str) -> (same: bool)
    ensures
        same == (a@ == b@),
{
    let x = a.as_bytes();
    let y = b.as_bytes();
    proof {
        encode_utf8_decode_utf8(a@);
        encode_utf8_decode_utf8(b@);
    }
    if x.len() != y.len() {
        return false;
    }
    let mut i: usize = 0;
    while i < x.len()
        invariant
            i <= x.len(),
            x.len() == y.len(),
            x@ == encode_utf8(a@),
            y@ == encode_utf8(b@),
            forall|j: int| 0 <= j < i ==> x@[j] == y@[j],
        decreases x.len() - i,
    {
        if x[i] != y[i] {
            return false;
        }
        i = i + 1;
    }
    assert(x@ =~= y@);
    true
}

} // verus!
