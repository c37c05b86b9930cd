//! Hashes of blocks, transactions and tickets.

use crate::dcrjson::{from_hex, hex_decoding, is_hex_text};
use vstd::array::*;
use vstd::prelude::*;
use vstd::string::*;
use vstd::utf8::encode_utf8;

verus! {

/// Number of bytes in a hash.
pub const HASH_SIZE: usize = 32;

/// Greatest number of characters in the text of a hash.
pub const MAX_HASH_STRING_SIZE: usize = 64;

/// Why a text is not the text of a hash.
#[derive(Debug, Clone, Copy, PartialEq, Eq)]
pub enum ChainHashError {
    /// The text has more than `MAX_HASH_STRING_SIZE` characters.
    HashStringSize,
    /// The text holds a character that is no hexadecimal digit.
    InvalidHex,
}

/// A hash. Its text shows the bytes in reverse, the last byte first, as
/// hexadecimal digits.
#[derive(Debug, Clone, Copy, PartialEq, Eq)]
pub struct Hash {
    pub bytes: [u8; 32],
}

/// The text of a hash with a zero before it where it has an odd number of
/// digits.
pub open spec fn padded(text: Seq<u8>) -> Seq<u8> {
    if text.len() % 2 == 1 {
        seq![0x30u8] + text
    } else {
        text
    }
}

/// The bytes of the hash whose text decodes to `decoded`: the decoded bytes
/// in reverse, followed by zeros.
pub open spec fn hash_bytes(decoded: Seq<u8>) -> Seq<u8> {
    Seq::new(
        32,
        |i: int|
            if i < decoded.len() {
                decoded[decoded.len() - 1 - i]
            } else {
                0u8
            },
    )
}

/// The bytes of the hash that `text` is the text of, if it is one: at most
/// `MAX_HASH_STRING_SIZE` hexadecimal digits.
pub open spec fn parsed_hash(text: Seq<u8>) -> Option<Seq<u8>> {
    if text.len() <= MAX_HASH_STRING_SIZE && is_hex_text(padded(text)) {
        Some(hash_bytes(hex_decoding(padded(text))))
    } else {
        None
    }
}

proof fn lemma_zero_prefix(s: Seq<char>)
    ensures
        encode_utf8(seq!['0'] + s) == seq![0x30u8] + encode_utf8(s),
{
    let t = seq!['0'] + s;
    assert(t.drop_first() =~= s);
    assert(t[0] == '0');
    assert((0x30u32 & 0x7F) as u8 == 0x30u8) by (bit_vector);
    assert(encode_utf8(t) =~= seq![0x30u8] + encode_utf8(s));
}

impl Hash {
    /// Reads a hash from its text: at most `MAX_HASH_STRING_SIZE`
    /// hexadecimal digits, which show the bytes of the hash in reverse. A
    /// text that is shorter stands for the hash whose remaining bytes are
    /// zero.
    pub fn new_from_str(hash: &str) -> (r: Result<Hash, ChainHashError>)
        ensures
            match r {
                Ok(h) => parsed_hash(encode_utf8(hash@)) == Some(h.bytes@),
                Err(ChainHashError::HashStringSize) => encode_utf8(hash@).len()
                    > MAX_HASH_STRING_SIZE,
                Err(ChainHashError::InvalidHex) => {
                    &&& encode_utf8(hash@).len() <= MAX_HASH_STRING_SIZE
                    &&& !is_hex_text(padded(encode_utf8(hash@)))
                },
            },
    {
        let digits = hash.as_bytes().len();
        if digits > MAX_HASH_STRING_SIZE {
            return Err(ChainHashError::HashStringSize);
        }
        let decoded = if digits % 2 == 1 {
            let mut even = String::from_str("0");
            even.append(hash);
            proof {
                reveal_strlit("0");
                assert("0"@ =~= seq!['0']);
                lemma_zero_prefix(hash@);
            }
            from_hex(even.as_str())
        } else {
            from_hex(hash)
        };
        let decoded = match decoded {
            Some(decoded) => decoded,
            None => {
                return Err(ChainHashError::InvalidHex);
            },
        };
        let mut bytes = [0u8;32];
        let n = decoded.len();
        let mut i: usize = 0;
        while i < n
            invariant
                i <= n <= 32,
                n == decoded@.len(),
                forall|j: int| 0 <= j < i ==> bytes@[j] == decoded@[n - 1 - j],
                forall|j: int| i <= j < 32 ==> bytes@[j] == 0u8,
            decreases n - i,
        {
            bytes.set(i, decoded[n - 1 - i]);
            i = i + 1;
        }
        assert(bytes@ =~= hash_bytes(decoded@));
        Ok(Hash { bytes })
    }
}

} // verus!
