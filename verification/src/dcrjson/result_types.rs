//! JSON values, and the requests and responses made of them.
//!
//! A request leaves the client as one JSON document on one line, written here
//! byte by byte. A response arrives already parsed into a [`JsonResponse`].

use crate::rpcclient::error::RpcClientError;
use vstd::prelude::*;
use vstd::string::*;

verus! {

/// A JSON number.
#[derive(Debug, Clone, PartialEq, Eq)]
pub enum JsonNumber {
    /// An integer that is not negative.
    Unsigned(u64),
    /// An integer below zero.
    Negative(i64),
    /// Any other number, as its JSON text (`1.5`, `-2e10`).
    Real(String),
}

/// A JSON value.
///
/// An object keeps its members as a list, in the order in which they are
/// written.
#[derive(Debug, PartialEq, Eq)]
pub enum JsonValue {
    Null,
    Bool(bool),
    Number(JsonNumber),
    Text(String),
    Array(Vec<JsonValue>),
    Object(Vec<(String, JsonValue)>),
}

/// A message of the server, parsed: the answer to a request, or a
/// notification. A field the server left out is `Null` (`params`: empty).
#[derive(Debug, PartialEq, Eq)]
pub struct JsonResponse {
    pub id: JsonValue,
    pub method: JsonValue,
    pub result: JsonValue,
    pub params: Vec<JsonValue>,
    pub error: JsonValue,
}

/// A request as it goes on the wire.
pub struct JsonRequest<'a> {
    pub jsonrpc: &'a str,
    pub id: u64,
    pub method: &'a str,
    pub params: &'a [JsonValue],
}

/// The ASCII digit for `d`, which is below ten.
pub open spec fn digit_byte(d: nat) -> u8 {
    (48 + d) as u8
}

/// `n` in decimal, without leading zeros.
pub open spec fn decimal_text(n: nat) -> Seq<u8>
    decreases n,
{
    if n < 10 {
        seq![digit_byte(n)]
    } else {
        decimal_text(n / 10).push(digit_byte(n % 10))
    }
}

/// `n` in decimal, with a minus sign if it is negative.
pub open spec fn integer_text(n: int) -> Seq<u8> {
    if n < 0 {
        seq![45u8] + decimal_text((-n) as nat)
    } else {
        decimal_text(n as nat)
    }
}

/// The lower-case hexadecimal digit for `d`, which is below sixteen.
pub open spec fn hex_digit_byte(d: nat) -> u8 {
    if d < 10 {
        (48 + d) as u8
    } else {
        (87 + d) as u8
    }
}

/// How one byte of a string stands between the quotes of a JSON string: the
/// quote, the backslash and the control characters are escaped, every other
/// byte stands for itself.
pub open spec fn escaped_byte(b: u8) -> Seq<u8> {
    if b == 0x22 {
        seq![0x5cu8, 0x22u8]
    } else if b == 0x5c {
        seq![0x5cu8, 0x5cu8]
    } else if b == 0x08 {
        seq![0x5cu8, 0x62u8]
    } else if b == 0x09 {
        seq![0x5cu8, 0x74u8]
    } else if b == 0x0a {
        seq![0x5cu8, 0x6eu8]
    } else if b == 0x0c {
        seq![0x5cu8, 0x66u8]
    } else if b == 0x0d {
        seq![0x5cu8, 0x72u8]
    } else if b < 0x20 {
        seq![
            0x5cu8,
            0x75u8,
            0x30u8,
            0x30u8,
            hex_digit_byte((b / 16) as nat),
            hex_digit_byte((b % 16) as nat),
        ]
    } else {
        seq![b]
    }
}

/// The bytes of a string with each of them escaped.
pub open spec fn escaped_text(bytes: Seq<u8>) -> Seq<u8>
    decreases bytes.len(),
{
    if bytes.len() == 0 {
        Seq::empty()
    } else {
        escaped_text(bytes.drop_last()) + escaped_byte(bytes.last())
    }
}

/// A string as a JSON string: its UTF-8 bytes, escaped, between two quotes.
pub open spec fn string_text(s: Seq<char>) -> Seq<u8> {
    seq![0x22u8] + escaped_text(vstd::utf8::encode_utf8(s)) + seq![0x22u8]
}

pub open spec fn is_digit(b: u8) -> bool {
    0x30 <= b <= 0x39
}

/// The first position at or after `from` that holds no digit.
pub open spec fn digits_end(text: Seq<u8>, from: int) -> int
    decreases text.len() - from,
{
    if 0 <= from < text.len() && is_digit(text[from]) {
        digits_end(text, from + 1)
    } else {
        from
    }
}

/// Where the integer part of a number that starts at `from` ends, or -1 if
/// none starts there: a single zero, or a digit other than zero followed by
/// digits.
pub open spec fn integer_part_end(text: Seq<u8>, from: int) -> int {
    if 0 <= from < text.len() && is_digit(text[from]) {
        if text[from] == 0x30 {
            from + 1
        } else {
            digits_end(text, from)
        }
    } else {
        -1
    }
}

/// Where the fraction that may start at `from` ends, or -1 if a point stands
/// there without a digit behind it.
pub open spec fn fraction_end(text: Seq<u8>, from: int) -> int {
    if 0 <= from < text.len() && text[from] == 0x2e {
        if from + 1 < text.len() && is_digit(text[from + 1]) {
            digits_end(text, from + 1)
        } else {
            -1
        }
    } else {
        from
    }
}

/// The position behind the sign that may stand at `from`.
pub open spec fn sign_end(text: Seq<u8>, from: int) -> int {
    if 0 <= from < text.len() && (text[from] == 0x2b || text[from] == 0x2d) {
        from + 1
    } else {
        from
    }
}

/// Where the exponent that may start at `from` ends, or -1 if an `e` stands
/// there without digits behind it.
pub open spec fn exponent_end(text: Seq<u8>, from: int) -> int {
    if 0 <= from < text.len() && (text[from] == 0x65 || text[from] == 0x45) {
        let digits = sign_end(text, from + 1);
        if digits < text.len() && is_digit(text[digits]) {
            digits_end(text, digits)
        } else {
            -1
        }
    } else {
        from
    }
}

/// Whether `text` is a JSON number: an optional minus sign, an integer part,
/// an optional fraction and an optional exponent, and nothing else.
pub open spec fn is_number_text(text: Seq<u8>) -> bool {
    let start = if text.len() > 0 && text[0] == 0x2d {
        1int
    } else {
        0int
    };
    let whole = integer_part_end(text, start);
    let fraction = fraction_end(text, whole);
    let exponent = exponent_end(text, fraction);
    whole >= 0 && fraction >= 0 && exponent == text.len()
}

/// Whether a number can be written.
pub open spec fn number_writable(n: JsonNumber) -> bool {
    match n {
        JsonNumber::Real(text) => is_number_text(vstd::utf8::encode_utf8(text@)),
        _ => true,
    }
}

pub open spec fn number_text(n: JsonNumber) -> Seq<u8> {
    match n {
        JsonNumber::Unsigned(n) => decimal_text(n as nat),
        JsonNumber::Negative(n) => integer_text(n as int),
        JsonNumber::Real(text) => vstd::utf8::encode_utf8(text@),
    }
}

/// Whether a value can be written as JSON: every number in it that is held as
/// text is a JSON number.
pub open spec fn writable(v: JsonValue) -> bool
    decreases v,
{
    match v {
        JsonValue::Number(n) => number_writable(n),
        JsonValue::Array(items) => forall|i: int|
            0 <= i < items@.len() ==> writable(#[trigger] items@[i]),
        JsonValue::Object(members) => forall|i: int|
            0 <= i < members@.len() ==> writable((#[trigger] members@[i]).1),
        _ => true,
    }
}

/// Whether each value of a list can be written.
pub open spec fn all_writable(items: Seq<JsonValue>) -> bool {
    forall|i: int| 0 <= i < items.len() ==> writable(#[trigger] items[i])
}

/// The JSON text of a value, without any white space.
pub open spec fn json_text(v: JsonValue) -> Seq<u8>
    decreases v, 0nat,
{
    match v {
        JsonValue::Null => "null".spec_bytes(),
        JsonValue::Bool(b) => if b {
            "true".spec_bytes()
        } else {
            "false".spec_bytes()
        },
        JsonValue::Number(n) => number_text(n),
        JsonValue::Text(s) => string_text(s@),
        JsonValue::Array(items) => seq![0x5bu8] + items_text(items@, items@.len()) + seq![0x5du8],
        JsonValue::Object(members) => seq![0x7bu8] + members_text(members@, members@.len())
            + seq![0x7du8],
    }
}

/// The texts of the first `n` values of a list, with a comma between two of
/// them.
pub open spec fn items_text(items: Seq<JsonValue>, n: nat) -> Seq<u8>
    decreases items, n,
{
    if n == 0 || n > items.len() {
        Seq::empty()
    } else if n == 1 {
        json_text(items[0])
    } else {
        items_text(items, (n - 1) as nat) + seq![0x2cu8] + json_text(items[n - 1])
    }
}

/// One member of an object: its name as a JSON string, a colon, its value.
pub open spec fn member_text(name: Seq<char>, value_text: Seq<u8>) -> Seq<u8> {
    string_text(name) + seq![0x3au8] + value_text
}

/// The texts of the first `n` members of an object, with a comma between two
/// of them.
pub open spec fn members_text(members: Seq<(String, JsonValue)>, n: nat) -> Seq<u8>
    decreases members, n,
{
    if n == 0 || n > members.len() {
        Seq::empty()
    } else if n == 1 {
        member_text(members[0].0@, json_text(members[0].1))
    } else {
        members_text(members, (n - 1) as nat) + seq![0x2cu8] + member_text(
            members[n - 1].0@,
            json_text(members[n - 1].1),
        )
    }
}

/// The list of parameters of a request: a JSON array.
pub open spec fn array_text(items: Seq<JsonValue>) -> Seq<u8> {
    seq![0x5bu8] + items_text(items, items.len()) + seq![0x5du8]
}

/// A request on the wire: an object with the members `jsonrpc`, `id`,
/// `method` and `params`, in this order.
pub open spec fn request_text(
    jsonrpc: Seq<char>,
    id: u64,
    method: Seq<char>,
    params: Seq<JsonValue>,
) -> Seq<u8> {
    "{\"jsonrpc\":".spec_bytes() + string_text(jsonrpc) + ",\"id\":".spec_bytes() + decimal_text(
        id as nat,
    ) + ",\"method\":".spec_bytes() + string_text(method) + ",\"params\":".spec_bytes()
        + array_text(params) + "}".spec_bytes()
}

/// The request that the client sends for a call of `method` under `id`: a
/// JSON-RPC 1.0 request.
pub open spec fn request_frame(id: u64, method: Seq<char>, params: Seq<JsonValue>) -> Seq<u8> {
    request_text("1.0"@, id, method, params)
}

/// Appends `bytes` to `out`.
pub fn append_bytes(out: &mut Vec<u8>, bytes: &[u8])
    ensures
        final(out)@ == old(out)@ + bytes@,
{
    out.extend_from_slice(bytes);
}

/// Appends `n` in decimal.
pub fn write_decimal(n: u64, out: &mut Vec<u8>)
    ensures
        final(out)@ == old(out)@ + decimal_text(n as nat),
    decreases n,
{
    if n >= 10 {
        write_decimal(n / 10, out);
    }
    let d: u64 = n % 10;
    out.push(48u8 + d as u8);
}

/// Appends `n` in decimal, with its sign if it is negative.
pub fn write_integer(n: i64, out: &mut Vec<u8>)
    ensures
        final(out)@ == old(out)@ + integer_text(n as int),
{
    if n < 0 {
        out.push(45u8);
        let magnitude: i128 = -(n as i128);
        write_decimal(magnitude as u64, out);
    } else {
        write_decimal(n as u64, out);
    }
}

fn hex_digit(d: u8) -> (b: u8)
    requires
        d < 16,
    ensures
        b == hex_digit_byte(d as nat),
{
    if d < 10 {
        48u8 + d
    } else {
        87u8 + d
    }
}

fn write_escaped_byte(b: u8, out: &mut Vec<u8>)
    ensures
        final(out)@ == old(out)@ + escaped_byte(b),
{
    if b == 0x22 {
        out.push(0x5c);
        out.push(0x22);
    } else if b == 0x5c {
        out.push(0x5c);
        out.push(0x5c);
    } else if b == 0x08 {
        out.push(0x5c);
        out.push(0x62);
    } else if b == 0x09 {
        out.push(0x5c);
        out.push(0x74);
    } else if b == 0x0a {
        out.push(0x5c);
        out.push(0x6e);
    } else if b == 0x0c {
        out.push(0x5c);
        out.push(0x66);
    } else if b == 0x0d {
        out.push(0x5c);
        out.push(0x72);
    } else if b < 0x20 {
        out.push(0x5c);
        out.push(0x75);
        out.push(0x30);
        out.push(0x30);
        out.push(hex_digit(b / 16));
        out.push(hex_digit(b % 16));
    } else {
        out.push(b);
    }
}

/// Appends `s` as a JSON string.
pub fn write_string(s: &str, out: &mut Vec<u8>)
    ensures
        final(out)@ == old(out)@ + string_text(s@),
{
    let bytes = s.as_bytes();
    out.push(0x22);
    let mut i: usize = 0;
    while i < bytes.len()
        invariant
            i <= bytes.len(),
            out@ == old(out)@ + seq![0x22u8] + escaped_text(bytes@.take(i as int)),
        decreases bytes.len() - i,
    {
        write_escaped_byte(bytes[i], out);
        assert(bytes@.take(i + 1).drop_last() == bytes@.take(i as int));
        i = i + 1;
    }
    assert(bytes@.take(i as int) == bytes@);
    out.push(0x22);
}

/// The first position at or after `from` that holds no digit.
fn scan_digits(text: &[u8], from: usize) -> (end: usize)
    requires
        from <= text.len(),
    ensures
        end == digits_end(text@, from as int),
        from <= end <= text.len(),
{
    let mut i: usize = from;
    while i < text.len() && 0x30 <= text[i] && text[i] <= 0x39
        invariant
            from <= i <= text.len(),
            digits_end(text@, i as int) == digits_end(text@, from as int),
        decreases text.len() - i,
    {
        i = i + 1;
    }
    i
}

/// Whether `text` is a JSON number.
pub fn check_number_text(text: &[u8]) -> (ok: bool)
    ensures
        ok == is_number_text(text@),
{
    let len = text.len();
    let start: usize = if len > 0 && text[0] == 0x2d {
        1
    } else {
        0
    };
    if !(start < len && 0x30 <= text[start] && text[start] <= 0x39) {
        return false;
    }
    let whole: usize = if text[start] == 0x30 {
        start + 1
    } else {
        scan_digits(text, start)
    };
    let fraction: usize = if whole < len && text[whole] == 0x2e {
        if whole + 1 < len && 0x30 <= text[whole + 1] && text[whole + 1] <= 0x39 {
            scan_digits(text, whole + 1)
        } else {
            return false;
        }
    } else {
        whole
    };
    if fraction < len && (text[fraction] == 0x65 || text[fraction] == 0x45) {
        let digits: usize = if fraction + 1 < len && (text[fraction + 1] == 0x2b || text[fraction
            + 1] == 0x2d) {
            fraction + 2
        } else {
            fraction + 1
        };
        if digits < len && 0x30 <= text[digits] && text[digits] <= 0x39 {
            scan_digits(text, digits) == len
        } else {
            false
        }
    } else {
        fraction == len
    }
}

/// Appends a number, unless it is held as text that is no JSON number.
pub fn write_number(n: &JsonNumber, out: &mut Vec<u8>) -> (ok: bool)
    ensures
        ok == number_writable(*n),
        ok ==> final(out)@ == old(out)@ + number_text(*n),
        !ok ==> final(out)@ == old(out)@,
{
    match n {
        JsonNumber::Unsigned(n) => {
            write_decimal(*n, out);
            true
        },
        JsonNumber::Negative(n) => {
            write_integer(*n, out);
            true
        },
        JsonNumber::Real(text) => {
            let bytes = text.as_str().as_bytes();
            if check_number_text(bytes) {
                append_bytes(out, bytes);
                true
            } else {
                false
            }
        },
    }
}

/// Appends the JSON text of `v`. Returns whether `v` can be written; if it
/// cannot, what was appended is of no use.
pub fn write_value(v: &JsonValue, out: &mut Vec<u8>) -> (ok: bool)
    ensures
        ok == writable(*v),
        ok ==> final(out)@ == old(out)@ + json_text(*v),
    decreases v,
{
    match v {
        JsonValue::Null => {
            append_bytes(out, "null".as_bytes());
            true
        },
        JsonValue::Bool(b) => {
            if *b {
                append_bytes(out, "true".as_bytes());
            } else {
                append_bytes(out, "false".as_bytes());
            }
            true
        },
        JsonValue::Number(n) => write_number(n, out),
        JsonValue::Text(s) => {
            write_string(s.as_str(), out);
            true
        },
        JsonValue::Array(items) => {
            out.push(0x5b);
            let mut i: usize = 0;
            while i < items.len()
                invariant
                    i <= items.len(),
                    *v == JsonValue::Array(*items),
                    out@ == old(out)@ + seq![0x5bu8] + items_text(items@, i as nat),
                    forall|j: int| 0 <= j < i ==> writable(#[trigger] items@[j]),
                decreases items.len() - i,
            {
                if i > 0 {
                    out.push(0x2c);
                }
                assert(v->Array_0 == *items && decreases_to!(*items => items[i as int]));
                if !write_value(&items[i], out) {
                    return false;
                }
                i = i + 1;
            }
            out.push(0x5d);
            true
        },
        JsonValue::Object(members) => {
            out.push(0x7b);
            let mut i: usize = 0;
            while i < members.len()
                invariant
                    i <= members.len(),
                    *v == JsonValue::Object(*members),
                    out@ == old(out)@ + seq![0x7bu8] + members_text(members@, i as nat),
                    forall|j: int| 0 <= j < i ==> writable((#[trigger] members@[j]).1),
                decreases members.len() - i,
            {
                if i > 0 {
                    out.push(0x2c);
                }
                write_string(members[i].0.as_str(), out);
                out.push(0x3a);
                assert(v->Object_0 == *members && decreases_to!(*members => members[i as int]));
                if !write_value(&members[i].1, out) {
                    return false;
                }
                i = i + 1;
            }
            out.push(0x7d);
            true
        },
    }
}

/// Appends a list of values as a JSON array. Returns whether each of them can
/// be written; if one cannot, what was appended is of no use.
pub fn write_array(items: &[JsonValue], out: &mut Vec<u8>) -> (ok: bool)
    ensures
        ok == all_writable(items@),
        ok ==> final(out)@ == old(out)@ + array_text(items@),
{
    out.push(0x5b);
    let mut i: usize = 0;
    while i < items.len()
        invariant
            i <= items.len(),
            out@ == old(out)@ + seq![0x5bu8] + items_text(items@, i as nat),
            forall|j: int| 0 <= j < i ==> writable(#[trigger] items@[j]),
        decreases items.len() - i,
    {
        if i > 0 {
            out.push(0x2c);
        }
        if !write_value(&items[i], out) {
            return false;
        }
        i = i + 1;
    }
    out.push(0x5d);
    true
}

impl<'a> JsonRequest<'a> {
    /// The request as one JSON document. Fails with `Marshaller` if, and only
    /// if, one of the parameters cannot be written.
    pub fn to_vec(&self) -> (r: Result<Vec<u8>, RpcClientError>)
        ensures
            all_writable(self.params@) ==> (r matches Ok(bytes) && bytes@ == request_text(
                self.jsonrpc@,
                self.id,
                self.method@,
                self.params@,
            )),
            !all_writable(self.params@) ==> r == Err::<Vec<u8>, RpcClientError>(
                RpcClientError::Marshaller,
            ),
    {
        let mut out: Vec<u8> = Vec::new();
        append_bytes(&mut out, "{\"jsonrpc\":".as_bytes());
        write_string(self.jsonrpc, &mut out);
        append_bytes(&mut out, ",\"id\":".as_bytes());
        write_decimal(self.id, &mut out);
        append_bytes(&mut out, ",\"method\":".as_bytes());
        write_string(self.method, &mut out);
        append_bytes(&mut out, ",\"params\":".as_bytes());
        if !write_array(self.params, &mut out) {
            return Err(RpcClientError::Marshaller);
        }
        append_bytes(&mut out, "}".as_bytes());
        Ok(out)
    }
}

} // verus!
