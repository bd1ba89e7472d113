//! The protobuf messages of the Doubao IME channel.
//!
//! A request has the fields 2 token, 3 service name, 5 method name, 6 payload (JSON),
//! 7 audio (Opus bytes), 8 request id and 9 frame state (varint). A response has the fields
//! 1 request id, 2 task id, 3 service name, 4 message type, 5 status code (varint),
//! 6 status message and 7 result JSON.
use vstd::prelude::*;
use vstd::string::*;
use vstd::utf8::*;

verus! {

/// How many values 64 bits tell apart.
pub open spec fn two_64() -> int {
    0x1_0000_0000_0000_0000
}

/// The weight of the `i`-th group of seven bits.
pub open spec fn weight(i: nat) -> int
    decreases i,
{
    if i == 0 {
        1
    } else {
        128 * weight((i - 1) as nat)
    }
}

/// The bytes of the varint for `v`: seven bits each, lowest first, all but the last marked.
pub open spec fn varint(v: int) -> Seq<u8>
    decreases v,
{
    if v < 0x80 {
        seq![v as u8]
    } else {
        seq![(v % 128 + 128) as u8] + varint(v / 128)
    }
}

/// The number whose varint `data` starts with, read as the `i`-th and following groups.
/// At most ten groups are read.
pub open spec fn varint_sum(data: Seq<u8>, i: nat) -> Option<int>
    decreases data.len(),
{
    if i >= 10 || data.len() == 0 {
        None
    } else if data[0] < 128 {
        Some(data[0] * weight(i))
    } else {
        match varint_sum(data.skip(1), i + 1) {
            Some(high) => Some((data[0] - 128) * weight(i) + high),
            None => None,
        }
    }
}

/// How many bytes reading a varint takes, whether or not it succeeds.
pub open spec fn varint_len(data: Seq<u8>, i: nat) -> nat
    decreases data.len(),
{
    if i >= 10 || data.len() == 0 {
        0
    } else if data[0] < 128 {
        1
    } else {
        1 + varint_len(data.skip(1), i + 1)
    }
}

/// The 64-bit number whose varint `data` starts with.
pub open spec fn read_varint(data: Seq<u8>) -> Option<u64> {
    match varint_sum(data, 0) {
        Some(sum) => Some((sum % two_64()) as u64),
        None => None,
    }
}

/// The length-prefixed bytes at the start of `data`, and how many bytes they take with the prefix.
pub open spec fn read_bytes(data: Seq<u8>) -> Option<(Seq<u8>, nat)> {
    match read_varint(data) {
        None => None,
        Some(len) => {
            let head = varint_len(data, 0);
            let n = (len as usize) as int;
            if head + n > data.len() {
                None
            } else {
                Some((data.subrange(head as int, head + n), (head + n) as nat))
            }
        },
    }
}

/// The length-prefixed UTF-8 text at the start of `data`, and how many bytes it takes.
pub open spec fn read_text(data: Seq<u8>) -> Option<(Seq<char>, nat)> {
    match read_bytes(data) {
        Some((bytes, used)) if valid_utf8(bytes) => Some((decode_utf8(bytes), used)),
        _ => None,
    }
}

/// How many bytes a field of the given wire type takes, where it is complete.
pub open spec fn field_len(data: Seq<u8>, wire_type: u64) -> Option<nat> {
    if wire_type == 0 {
        if read_varint(data) is Some {
            Some(varint_len(data, 0))
        } else {
            None
        }
    } else if wire_type == 2 {
        match read_bytes(data) {
            Some((_, used)) => Some(used),
            None => None,
        }
    } else if wire_type == 5 && data.len() >= 4 {
        Some(4)
    } else if wire_type == 1 && data.len() >= 8 {
        Some(8)
    } else {
        None
    }
}

/// A decoded response.
#[derive(Debug)]
pub struct AsrResponse {
    pub request_id: String,
    pub task_id: String,
    pub service_name: String,
    pub message_type: String,
    pub status_code: i32,
    pub status_message: String,
    pub result_json: String,
}

/// The contents of a response.
pub ghost struct ResponseFields {
    pub request_id: Seq<char>,
    pub task_id: Seq<char>,
    pub service_name: Seq<char>,
    pub message_type: Seq<char>,
    pub status_code: i32,
    pub status_message: Seq<char>,
    pub result_json: Seq<char>,
}

impl View for AsrResponse {
    type V = ResponseFields;

    open spec fn view(&self) -> ResponseFields {
        ResponseFields {
            request_id: self.request_id@,
            task_id: self.task_id@,
            service_name: self.service_name@,
            message_type: self.message_type@,
            status_code: self.status_code,
            status_message: self.status_message@,
            result_json: self.result_json@,
        }
    }
}

impl ResponseFields {
    /// A response without any field.
    pub open spec fn empty() -> ResponseFields {
        ResponseFields {
            request_id: seq![],
            task_id: seq![],
            service_name: seq![],
            message_type: seq![],
            status_code: 0,
            status_message: seq![],
            result_json: seq![],
        }
    }

    /// The response with one text field replaced.
    pub open spec fn with_text(self, field: u64, text: Seq<char>) -> ResponseFields {
        if field == 1 {
            ResponseFields { request_id: text, ..self }
        } else if field == 2 {
            ResponseFields { task_id: text, ..self }
        } else if field == 3 {
            ResponseFields { service_name: text, ..self }
        } else if field == 4 {
            ResponseFields { message_type: text, ..self }
        } else if field == 6 {
            ResponseFields { status_message: text, ..self }
        } else if field == 7 {
            ResponseFields { result_json: text, ..self }
        } else {
            self
        }
    }
}

/// Whether the field holds text.
pub open spec fn is_text_field(field: u64) -> bool {
    1 <= field <= 4 || field == 6 || field == 7
}

/// What the field at the start of `data` (behind its tag) does to a response,
/// and how many bytes it takes.
pub open spec fn read_field(
    data: Seq<u8>,
    tag: u64,
    response: ResponseFields,
) -> Option<(ResponseFields, nat)> {
    let field = tag / 8;
    let wire_type = tag % 8;
    if is_text_field(field) {
        match read_text(data) {
            Some((text, used)) => Some((response.with_text(field, text), used)),
            None => None,
        }
    } else if field == 5 {
        match read_varint(data) {
            Some(code) if wire_type == 0 => Some(
                (ResponseFields { status_code: code as i32, ..response }, varint_len(data, 0)),
            ),
            _ => None,
        }
    } else {
        match field_len(data, wire_type) {
            Some(used) => Some((response, used)),
            None => None,
        }
    }
}

/// The response that the fields in `data` make of `response`, each later field replacing an
/// earlier one.
pub open spec fn read_fields(data: Seq<u8>, response: ResponseFields) -> Option<ResponseFields>
    decreases data.len(),
{
    proof {
        lemma_varint_len(data, 0);
    }
    if data.len() == 0 {
        Some(response)
    } else {
        match read_varint(data) {
            None => None,
            Some(tag) => {
                let body = data.skip(varint_len(data, 0) as int);
                match read_field(body, tag, response) {
                    None => None,
                    Some((next, used)) => {
                        proof {
                            lemma_varint_len(body, 0);
                        }
                        read_fields(body.skip(used as int), next)
                    },
                }
            },
        }
    }
}

/// Reading a varint takes at most ten bytes, and at least one where there is one.
pub proof fn lemma_varint_len(data: Seq<u8>, i: nat)
    ensures
        varint_len(data, i) <= data.len(),
        varint_len(data, i) <= 10,
        i < 10 && data.len() > 0 ==> varint_len(data, i) >= 1,
        i <= 10 ==> varint_len(data, i) <= 10 - i,
    decreases data.len(),
{
    if i < 10 && data.len() > 0 && data[0] >= 128 {
        lemma_varint_len(data.skip(1), i + 1);
    }
}

impl Default for AsrResponse {
    fn default() -> (r: AsrResponse)
        ensures
            r@ == ResponseFields::empty(),
    {
        let r = AsrResponse {
            request_id: String::new(),
            task_id: String::new(),
            service_name: String::new(),
            message_type: String::new(),
            status_code: 0,
            status_message: String::new(),
            result_json: String::new(),
        };
        assert(r@ == ResponseFields::empty());
        r
    }
}

proof fn lemma_weights()
    ensures
        weight(0) == 1,
        weight(1) == 0x80,
        weight(2) == 0x4000,
        weight(3) == 0x20_0000,
        weight(4) == 0x1000_0000,
        weight(5) == 0x8_0000_0000,
        weight(6) == 0x400_0000_0000,
        weight(7) == 0x2_0000_0000_0000,
        weight(8) == 0x100_0000_0000_0000,
        weight(9) == 0x8000_0000_0000_0000,
{
    reveal_with_fuel(weight, 11);
}

/// Appends the varint of `v`.
pub fn encode_varint(out: &mut Vec<u8>, v: u64)
    ensures
        final(out)@ == old(out)@ + varint(v as int),
{
    let mut v: u64 = v;
    let ghost whole = old(out)@ + varint(v as int);
    while v >= 0x80
        invariant
            out@ + varint(v as int) == whole,
        decreases v,
    {
        let low: u8 = (v & 0x7f) as u8 | 0x80;
        let high: u64 = v >> 7;
        assert(low == v % 128 + 128) by (bit_vector)
            requires
                low == (v & 0x7f) as u8 | 0x80u8,
        ;
        assert(high == v / 128) by (bit_vector)
            requires
                high == v >> 7,
        ;
        out.push(low);
        proof {
            let before = out@.drop_last();
            assert(before + varint(v as int) =~= out@ + varint(high as int));
        }
        v = high;
    }
    out.push(v as u8);
    proof {
        assert(out@.drop_last() + varint(v as int) =~= out@);
    }
}

/// The tag of a field: its number above its wire type.
pub open spec fn tag_of(field: u32, wire_type: u32) -> u64 {
    ((field as u64) << 3) | wire_type as u64
}

/// Appends the tag of a field.
pub fn field_tag(out: &mut Vec<u8>, field: u32, wire_type: u32)
    ensures
        final(out)@ == old(out)@ + varint(tag_of(field, wire_type) as int),
        wire_type < 8 ==> final(out)@ == old(out)@ + varint(8 * field + wire_type),
{
    let tag: u64 = ((field as u64) << 3) | wire_type as u64;
    if wire_type < 8 {
        assert(tag == 8 * field + wire_type) by (bit_vector)
            requires
                tag == ((field as u64) << 3) | wire_type as u64,
                wire_type < 8,
        ;
    }
    encode_varint(out, tag);
}

/// A field of bytes; an empty one is left out.
pub open spec fn bytes_field(field: int, value: Seq<u8>) -> Seq<u8> {
    if value.len() == 0 {
        seq![]
    } else {
        varint(8 * field + 2) + varint(value.len() as int) + value
    }
}

/// A field of text; an empty one is left out.
pub open spec fn text_field(field: int, value: Seq<char>) -> Seq<u8> {
    bytes_field(field, encode_utf8(value))
}

/// A field of a number; zero is left out.
pub open spec fn number_field(field: int, value: u64) -> Seq<u8> {
    if value == 0 {
        seq![]
    } else {
        varint(8 * field) + varint(value as int)
    }
}

/// Appends a field of text.
pub fn encode_string(out: &mut Vec<u8>, field: u32, value: &str)
    ensures
        final(out)@ == old(out)@ + text_field(field as int, value@),
{
    encode_bytes(out, field, value.as_bytes());
}

/// Appends a field of bytes.
pub fn encode_bytes(out: &mut Vec<u8>, field: u32, value: &[u8])
    ensures
        final(out)@ == old(out)@ + bytes_field(field as int, value@),
{
    if value.len() == 0 {
        assert(old(out)@ + bytes_field(field as int, value@) =~= old(out)@);
        return;
    }
    field_tag(out, field, 2);
    encode_varint(out, value.len() as u64);
    out.extend_from_slice(value);
    assert(out@ =~= old(out)@ + bytes_field(field as int, value@));
}

/// The bytes of a request: its non-empty fields in ascending order.
pub open spec fn request_bytes(
    token: Seq<char>,
    method: Seq<char>,
    payload: Seq<char>,
    audio: Seq<u8>,
    request_id: Seq<char>,
    frame_state: u64,
) -> Seq<u8> {
    text_field(2, token) + text_field(3, "ASR"@) + text_field(5, method) + text_field(6, payload)
        + bytes_field(7, audio) + text_field(8, request_id) + number_field(9, frame_state)
}

/// Encodes a request. Empty fields are left out.
pub fn encode_request(
    token: &str,
    method: &str,
    payload: &str,
    audio: &[u8],
    request_id: &str,
    frame_state: u64,
) -> (out: Vec<u8>)
    ensures
        out@ == request_bytes(token@, method@, payload@, audio@, request_id@, frame_state),
{
    let mut out: Vec<u8> = Vec::new();
    encode_string(&mut out, 2, token);
    encode_string(&mut out, 3, "ASR");
    encode_string(&mut out, 5, method);
    encode_string(&mut out, 6, payload);
    encode_bytes(&mut out, 7, audio);
    encode_string(&mut out, 8, request_id);
    if frame_state != 0 {
        field_tag(&mut out, 9, 0);
        encode_varint(&mut out, frame_state);
    }
    assert(out@ =~= request_bytes(token@, method@, payload@, audio@, request_id@, frame_state));
    out
}

/// Adding the group `b` to a partial varint of `i` groups.
proof fn lemma_group(value: u64, b: u8, i: u32, sum: u64)
    requires
        i < 10,
        value < weight(i as nat),
        sum == value | (((b & 0x7f) as u64) << ((7 * i) as u32)),
    ensures
        sum == (value + (b % 128) * weight(i as nat)) % two_64(),
        i < 9 ==> sum == value + (b % 128) * weight(i as nat),
        i < 9 ==> sum < weight((i + 1) as nat),
        b & 0x80 == 0 <==> b < 128,
{
    lemma_weights();
    reveal_with_fuel(weight, 2);
    assert(b & 0x80 == 0 <==> b < 128) by (bit_vector);
    let x: u64 = (b & 0x7f) as u64;
    assert(x == b % 128 && x < 128) by (bit_vector)
        requires
            x == (b & 0x7f) as u64,
    ;
    let s: u32 = (7 * i) as u32;
    let w: u64 = 1u64 << s;
    assert(w == weight(i as nat)) by {
        assert(1u64 << 0u32 == 1 && 1u64 << 7u32 == 0x80 && 1u64 << 14u32 == 0x4000 && 1u64 << 21u32
            == 0x20_0000 && 1u64 << 28u32 == 0x1000_0000 && 1u64 << 35u32 == 0x8_0000_0000 && 1u64
            << 42u32 == 0x400_0000_0000 && 1u64 << 49u32 == 0x2_0000_0000_0000 && 1u64 << 56u32
            == 0x100_0000_0000_0000 && 1u64 << 63u32 == 0x8000_0000_0000_0000) by (bit_vector);
    }
    if i < 9 {
        assert(s <= 56);
        assert(sum == value + x * w && sum < w * 128) by (bit_vector)
            requires
                sum == value | (x << s),
                w == 1u64 << s,
                value < w,
                x < 128,
                s <= 56,
        ;
        assert(sum < two_64());
        assert(value + (b % 128) * weight(i as nat) == sum);
        assert(weight((i + 1) as nat) == 128 * weight(i as nat));
    } else {
        assert(sum == value + (x % 2) * 0x8000_0000_0000_0000) by (bit_vector)
            requires
                sum == value | (x << 63u32),
                value < 0x8000_0000_0000_0000,
        ;
        let whole = value + x * 0x8000_0000_0000_0000;
        assert(whole == sum + (x / 2) * two_64());
        assert(whole % two_64() == sum) by {
            vstd::arithmetic::div_mod::lemma_mod_multiples_vanish((x / 2) as int, sum as int, two_64());
            assert(sum as int % two_64() == sum as int) by {
                vstd::arithmetic::div_mod::lemma_small_mod(sum as nat, two_64() as nat);
            }
        }
    }
}

/// What stands from a place on: nothing behind the end.
pub open spec fn rest_at(data: Seq<u8>, at: int) -> Seq<u8> {
    if at <= data.len() {
        data.skip(at)
    } else {
        seq![]
    }
}

/// Reads a varint at the cursor. Behind the end there is none.
pub fn decode_varint(data: &[u8], cursor: &mut usize) -> (r: Option<u64>)
    ensures
        r == read_varint(rest_at(data@, *old(cursor) as int)),
        *final(cursor) == *old(cursor) + varint_len(rest_at(data@, *old(cursor) as int), 0),
{
    let ghost start = *old(cursor);
    let ghost all = data@.skip(start as int);
    let n: usize = data.len();
    if *cursor > n {
        return None;
    }
    let mut value: u64 = 0;
    let mut i: u32 = 0;
    proof {
        lemma_weights();
        assert(all.skip(0) =~= all);
    }
    while *cursor < n
        invariant
            n == data@.len(),
            start == *old(cursor),
            start + i == *cursor,
            *cursor <= n,
            i < 10,
            value < weight(i as nat),
            all == data@.skip(start as int),
            varint_len(all, 0) == i + varint_len(all.skip(i as int), i as nat),
            varint_sum(all, 0) == match varint_sum(all.skip(i as int), i as nat) {
                Some(high) => Some(value + high),
                None => None,
            },
        decreases n - *cursor,
    {
        let b: u8 = data[*cursor];
        *cursor += 1;
        let ghost before = value;
        value = value | (((b & 0x7f) as u64) << (7 * i));
        proof {
            lemma_group(before, b, i, value);
            let rest = all.skip(i as int);
            assert(rest[0] == b);
            assert(rest.skip(1) =~= all.skip(i + 1));
        }
        if b & 0x80 == 0 {
            return Some(value);
        }
        i += 1;
        assert(before + (b - 128) * weight((i - 1) as nat) == before + (b % 128) * weight(
            (i - 1) as nat,
        ));
        if i >= 10 {
            assert(varint_len(all.skip(10), 10) == 0);
            return None;
        }
    }
    assert(all.skip(i as int).len() == 0);
    None
}

/// The text that the bytes encode in UTF-8, where they do.
/// Claims of `std::str::from_utf8` that it accepts exactly the valid UTF-8 and decodes it.
#[verifier::external_body]
fn text_from_utf8(bytes: &[u8]) -> (r: Option<String>)
    ensures
        r is Some <==> valid_utf8(bytes@),
        r matches Some(s) ==> s@ == decode_utf8(bytes@),
{
    std::str::from_utf8(bytes).ok().map(|s| s.to_string())
}

/// The end of the length-prefixed bytes at the cursor, which moves behind the prefix.
fn decode_len(data: &[u8], cursor: &mut usize) -> (end: Option<usize>)
    ensures
        *final(cursor) == *old(cursor) + varint_len(rest_at(data@, *old(cursor) as int), 0),
        *old(cursor) <= data@.len() ==> *final(cursor) <= data@.len(),
        match read_bytes(rest_at(data@, *old(cursor) as int)) {
            None => end is None,
            Some((bytes, used)) => {
                &&& end is Some
                &&& end->0 == *old(cursor) + used
                &&& *final(cursor) <= *old(cursor) + used <= data@.len()
                &&& bytes == data@.subrange(*final(cursor) as int, *old(cursor) + used)
            },
        },
{
    let ghost start = *cursor as int;
    let ghost all = rest_at(data@, start);
    proof {
        lemma_varint_len(all, 0);
    }
    let n: usize = data.len();
    match decode_varint(data, cursor) {
        None => None,
        Some(v) => {
            let len: usize = v as usize;
            if len > n - *cursor {
                None
            } else {
                proof {
                    let head = varint_len(all, 0) as int;
                    assert(all.subrange(head, head + len) =~= data@.subrange(
                        *cursor as int,
                        *cursor + len,
                    ));
                }
                Some(*cursor + len)
            }
        },
    }
}

/// Reads length-prefixed UTF-8 text at the cursor. Where there is none, the cursor stands behind
/// the length prefix.
pub fn decode_string(data: &[u8], cursor: &mut usize) -> (r: Option<String>)
    ensures
        match read_text(rest_at(data@, *old(cursor) as int)) {
            None => {
                &&& r is None
                &&& *final(cursor) == *old(cursor) + varint_len(
                    rest_at(data@, *old(cursor) as int),
                    0,
                )
            },
            Some((text, used)) => {
                &&& r is Some
                &&& r->0@ == text
                &&& *final(cursor) == *old(cursor) + used
            },
        },
        *old(cursor) <= data@.len() ==> *final(cursor) <= data@.len(),
{
    let ghost start = *cursor as int;
    match decode_len(data, cursor) {
        None => None,
        Some(end) => {
            let bytes: &[u8] = vstd::slice::slice_subrange(data, *cursor, end);
            match text_from_utf8(bytes) {
                None => None,
                Some(s) => {
                    *cursor = end;
                    Some(s)
                },
            }
        },
    }
}

/// Steps over a field of the given wire type. A field that is cut short, or of another wire type,
/// is an error.
pub fn skip_field(data: &[u8], cursor: &mut usize, wire_type: u64) -> (r: Option<()>)
    ensures
        match field_len(rest_at(data@, *old(cursor) as int), wire_type) {
            None => {
                &&& r is None
                &&& *final(cursor) == *old(cursor) + if wire_type == 0 || wire_type == 2 {
                    varint_len(rest_at(data@, *old(cursor) as int), 0) as int
                } else {
                    0
                }
            },
            Some(used) => r is Some && *final(cursor) == *old(cursor) + used,
        },
        *old(cursor) <= *final(cursor),
        *old(cursor) <= data@.len() ==> *final(cursor) <= data@.len(),
{
    let n: usize = data.len();
    proof {
        lemma_varint_len(rest_at(data@, *cursor as int), 0);
    }
    if wire_type == 0 {
        match decode_varint(data, cursor) {
            None => None,
            Some(_) => Some(()),
        }
    } else if wire_type == 2 {
        match decode_len(data, cursor) {
            None => None,
            Some(end) => {
                *cursor = end;
                Some(())
            },
        }
    } else if wire_type == 5 {
        if *cursor > n || n - *cursor < 4 {
            return None;
        }
        *cursor += 4;
        Some(())
    } else if wire_type == 1 {
        if *cursor > n || n - *cursor < 8 {
            return None;
        }
        *cursor += 8;
        Some(())
    } else {
        None
    }
}

/// Decodes a response; `None` where the bytes are no response.
pub fn decode_response(data: &[u8]) -> (r: Option<AsrResponse>)
    ensures
        match read_fields(data@, ResponseFields::empty()) {
            None => r is None,
            Some(fields) => r is Some && r->0@ == fields,
        },
{
    let mut response = AsrResponse::default();
    let mut cursor: usize = 0;
    let n: usize = data.len();
    assert(data@.skip(0) =~= data@);
    while cursor < n
        invariant
            n == data@.len(),
            cursor <= n,
            read_fields(data@, ResponseFields::empty()) == read_fields(
                data@.skip(cursor as int),
                response@,
            ),
        decreases n - cursor,
    {
        let ghost rest = data@.skip(cursor as int);
        let ghost before = response@;
        let ghost start = cursor;
        proof {
            lemma_varint_len(rest, 0);
        }
        let tag: u64 = match decode_varint(data, &mut cursor) {
            None => {
                return None;
            },
            Some(tag) => tag,
        };
        let field: u64 = tag >> 3;
        let wire_type: u64 = tag & 0x7;
        let ghost body = data@.skip(cursor as int);
        proof {
            assert(field == tag / 8 && wire_type == tag % 8) by (bit_vector)
                requires
                    field == tag >> 3,
                    wire_type == tag & 0x7,
            ;
            assert(body =~= rest.skip(varint_len(rest, 0) as int));
            lemma_varint_len(body, 0);
        }
        if field == 5 {
            if wire_type != 0 {
                return None;
            }
            match decode_varint(data, &mut cursor) {
                None => {
                    return None;
                },
                Some(code) => {
                    response.status_code = code as i32;
                },
            }
        } else if field == 1 || field == 2 || field == 3 || field == 4 || field == 6 || field == 7 {
            match decode_string(data, &mut cursor) {
                None => {
                    return None;
                },
                Some(text) => {
                    if field == 1 {
                        response.request_id = text;
                    } else if field == 2 {
                        response.task_id = text;
                    } else if field == 3 {
                        response.service_name = text;
                    } else if field == 4 {
                        response.message_type = text;
                    } else if field == 6 {
                        response.status_message = text;
                    } else {
                        response.result_json = text;
                    }
                },
            }
        } else {
            match skip_field(data, &mut cursor, wire_type) {
                None => {
                    return None;
                },
                Some(_) => {},
            }
        }
        proof {
            let step = read_field(body, tag, before);
            assert(step is Some);
            let used = (step->0).1;
            assert((step->0).0 == response@);
            assert(data@.skip(cursor as int) =~= body.skip(used as int));
        }
    }
    assert(data@.skip(cursor as int).len() == 0);
    Some(response)
}

proof fn lemma_weight_positive(i: nat)
    ensures
        weight(i) > 0,
    decreases i,
{
    if i > 0 {
        lemma_weight_positive((i - 1) as nat);
    }
}

/// A varint has at least one byte.
proof fn lemma_varint_nonempty(v: int)
    requires
        0 <= v,
    ensures
        varint(v).len() >= 1,
{
}

/// Reading the varint of `v` as the `i`-th and following groups.
proof fn lemma_varint_read(v: int, i: nat, rest: Seq<u8>)
    requires
        0 <= v,
        v * weight(i) < two_64(),
        i < 10,
    ensures
        varint_sum(varint(v) + rest, i) == Some(v * weight(i)),
        varint_len(varint(v) + rest, i) == varint(v).len(),
    decreases v,
{
    let data = varint(v) + rest;
    lemma_weights();
    lemma_weight_positive(i);
    if v < 0x80 {
        assert(data[0] == v as u8);
    } else {
        let high = v / 128;
        assert(data[0] == (v % 128 + 128) as u8);
        assert(data.skip(1) =~= varint(high) + rest);
        assert(weight(i + 1) == 128 * weight(i));
        assert(high * (128 * weight(i)) <= v * weight(i)) by (nonlinear_arith)
            requires
                high * 128 <= v,
                weight(i) > 0,
        ;
        assert(weight(i) * 128 <= v * weight(i)) by (nonlinear_arith)
            requires
                v >= 128,
                weight(i) > 0,
        ;
        assert(i + 1 < 10) by {
            if i == 9 {
                assert(weight(9) * 128 < two_64());
            }
        }
        lemma_varint_read(high, i + 1, rest);
        assert((v % 128) * weight(i) + high * (128 * weight(i)) == v * weight(i))
            by (nonlinear_arith)
            requires
                v == 128 * high + v % 128,
        ;
    }
}

/// What a varint is read back as is what was written, whatever follows it.
pub proof fn law_varint_round_trip(v: u64, rest: Seq<u8>)
    ensures
        read_varint(varint(v as int) + rest) == Some(v),
        varint_len(varint(v as int) + rest, 0) == varint(v as int).len(),
{
    lemma_weights();
    lemma_varint_read(v as int, 0, rest);
    vstd::arithmetic::div_mod::lemma_small_mod(v as nat, two_64() as nat);
}

/// A text field that was written sets that field of the response, and what follows it is read on.
pub proof fn law_text_field_round_trip(
    field: u64,
    text: Seq<char>,
    rest: Seq<u8>,
    response: ResponseFields,
)
    requires
        is_text_field(field),
        text.len() > 0,
        encode_utf8(text).len() <= usize::MAX,
    ensures
        read_fields(text_field(field as int, text) + rest, response) == read_fields(
            rest,
            response.with_text(field, text),
        ),
{
    let value = encode_utf8(text);
    encode_utf8_valid_utf8(text);
    encode_utf8_decode_utf8(text);
    if value.len() == 0 {
        assert(decode_utf8(value) =~= seq![]);
    }
    let tag: u64 = (8 * field + 2) as u64;
    let len: u64 = value.len() as u64;
    let data = text_field(field as int, text) + rest;
    let after_tag = varint(len as int) + (value + rest);
    assert(data =~= varint(tag as int) + after_tag);
    law_varint_round_trip(tag, after_tag);
    lemma_varint_nonempty(tag as int);
    assert(data.skip(varint_len(data, 0) as int) =~= after_tag);
    law_varint_round_trip(len, value + rest);
    let head = varint_len(after_tag, 0) as int;
    assert(after_tag.subrange(head, head + value.len()) =~= value);
    assert(read_bytes(after_tag) == Some((value, (head + value.len()) as nat)));
    assert(after_tag.skip(head + value.len()) =~= rest);
    assert(tag / 8 == field && tag % 8 == 2);
}

/// A status code that was written sets the code of the response, in its low 32 bits, and what
/// follows it is read on.
pub proof fn law_status_code_round_trip(code: u64, rest: Seq<u8>, response: ResponseFields)
    requires
        code != 0,
    ensures
        read_fields(number_field(5, code) + rest, response) == read_fields(
            rest,
            ResponseFields { status_code: code as i32, ..response },
        ),
{
    let data = number_field(5, code) + rest;
    let after_tag = varint(code as int) + rest;
    assert(data =~= varint(40) + after_tag);
    law_varint_round_trip(40, after_tag);
    lemma_varint_nonempty(40);
    assert(data.skip(varint_len(data, 0) as int) =~= after_tag);
    law_varint_round_trip(code, rest);
    assert(after_tag.skip(varint_len(after_tag, 0) as int) =~= rest);
}

/// A response that is written field by field, in order, is decoded to those fields.
pub proof fn law_response_round_trip(fields: ResponseFields, code: u64)
    requires
        fields.status_code == code as i32,
        encode_utf8(fields.request_id).len() <= usize::MAX,
        encode_utf8(fields.task_id).len() <= usize::MAX,
        encode_utf8(fields.service_name).len() <= usize::MAX,
        encode_utf8(fields.message_type).len() <= usize::MAX,
        encode_utf8(fields.status_message).len() <= usize::MAX,
        encode_utf8(fields.result_json).len() <= usize::MAX,
    ensures
        read_fields(response_bytes(fields, code), ResponseFields::empty()) == Some(fields),
{
    let r0 = ResponseFields::empty();
    let s7 = text_field(7, fields.result_json);
    let s6 = text_field(6, fields.status_message) + s7;
    let s5 = number_field(5, code) + s6;
    let s4 = text_field(4, fields.message_type) + s5;
    let s3 = text_field(3, fields.service_name) + s4;
    let s2 = text_field(2, fields.task_id) + s3;
    let r1 = r0.with_text(1, fields.request_id);
    let r2 = r1.with_text(2, fields.task_id);
    let r3 = r2.with_text(3, fields.service_name);
    let r4 = r3.with_text(4, fields.message_type);
    let r5 = ResponseFields { status_code: fields.status_code, ..r4 };
    let r6 = r5.with_text(6, fields.status_message);
    let r7 = r6.with_text(7, fields.result_json);
    lemma_text_field_or_none(1, fields.request_id, s2, r0);
    lemma_text_field_or_none(2, fields.task_id, s3, r1);
    lemma_text_field_or_none(3, fields.service_name, s4, r2);
    lemma_text_field_or_none(4, fields.message_type, s5, r3);
    if code == 0 {
        assert(s5 =~= s6);
        assert(code as i32 == 0);
    } else {
        law_status_code_round_trip(code, s6, r4);
    }
    lemma_text_field_or_none(6, fields.status_message, s7, r5);
    assert(s7 =~= s7 + Seq::<u8>::empty());
    lemma_text_field_or_none(7, fields.result_json, seq![], r6);
    assert(r7 == fields);
}

/// The bytes of a response: its non-empty fields in ascending order.
pub open spec fn response_bytes(fields: ResponseFields, code: u64) -> Seq<u8> {
    let result = text_field(7, fields.result_json);
    let status = number_field(5, code) + (text_field(6, fields.status_message) + result);
    let message = text_field(4, fields.message_type) + status;
    text_field(1, fields.request_id) + (text_field(2, fields.task_id) + (text_field(
        3,
        fields.service_name,
    ) + message))
}

/// As above, for a field that may be empty and then must be empty in the response already.
proof fn lemma_text_field_or_none(
    field: u64,
    text: Seq<char>,
    rest: Seq<u8>,
    response: ResponseFields,
)
    requires
        is_text_field(field),
        encode_utf8(text).len() <= usize::MAX,
        text.len() == 0 ==> response.with_text(field, seq![]) == response,
    ensures
        read_fields(text_field(field as int, text) + rest, response) == read_fields(
            rest,
            response.with_text(field, text),
        ),
{
    if text.len() > 0 {
        law_text_field_round_trip(field, text, rest, response);
    } else {
        assert(text =~= seq![]);
        assert(encode_utf8(text) =~= seq![]);
        assert(text_field(field as int, text) + rest =~= rest);
    }
}

/// A field that is not known is stepped over: the rest reads as if it were not there.
pub proof fn law_unknown_fields_are_skipped(data: Seq<u8>, response: ResponseFields)
    requires
        data.len() > 0,
        read_varint(data) matches Some(tag) && !is_text_field(tag / 8) && tag / 8 != 5,
        field_len(data.skip(varint_len(data, 0) as int), read_varint(data)->0 % 8) is Some,
    ensures
        ({
            let body = data.skip(varint_len(data, 0) as int);
            let used = field_len(body, read_varint(data)->0 % 8)->0;
            read_fields(data, response) == read_fields(body.skip(used as int), response)
        }),
{
}

/// A request that has all its fields writes them in this order, each behind its tag and its length:
/// token, service, method, payload, audio, request id and frame state.
pub proof fn law_request_fields_have_their_numbers(
    token: Seq<char>,
    method: Seq<char>,
    payload: Seq<char>,
    audio: Seq<u8>,
    request_id: Seq<char>,
    frame_state: u64,
)
    requires
        encode_utf8(token).len() > 0,
        encode_utf8(method).len() > 0,
        encode_utf8(payload).len() > 0,
        audio.len() > 0,
        encode_utf8(request_id).len() > 0,
        encode_utf8("ASR"@).len() > 0,
        frame_state > 0,
    ensures
        request_bytes(token, method, payload, audio, request_id, frame_state) == (varint(18)
            + varint(encode_utf8(token).len() as int) + encode_utf8(token)) + (varint(26) + varint(
            encode_utf8("ASR"@).len() as int,
        ) + encode_utf8("ASR"@)) + (varint(42) + varint(encode_utf8(method).len() as int)
            + encode_utf8(method)) + (varint(50) + varint(encode_utf8(payload).len() as int)
            + encode_utf8(payload)) + (varint(58) + varint(audio.len() as int) + audio) + (varint(
            66,
        ) + varint(encode_utf8(request_id).len() as int) + encode_utf8(request_id)) + (varint(72)
            + varint(frame_state as int)),
{
}

/// A field that is empty is not written at all.
pub proof fn law_empty_fields_are_left_out(field: int, value: Seq<u8>, number: u64)
    ensures
        value.len() == 0 ==> bytes_field(field, value).len() == 0,
        value.len() > 0 ==> bytes_field(field, value) == varint(8 * field + 2) + varint(
            value.len() as int,
        ) + value,
        number == 0 ==> number_field(field, number).len() == 0,
        number > 0 ==> number_field(field, number) == varint(8 * field) + varint(number as int),
{
}

/// The fields of a response have these numbers, and setting one leaves the others as they are; a
/// number without a text field changes nothing.
pub proof fn law_response_fields_have_their_numbers(
    r: ResponseFields,
    field: u64,
    text: Seq<char>,
)
    ensures
        r.with_text(1, text) == (ResponseFields { request_id: text, ..r }),
        r.with_text(2, text) == (ResponseFields { task_id: text, ..r }),
        r.with_text(3, text) == (ResponseFields { service_name: text, ..r }),
        r.with_text(4, text) == (ResponseFields { message_type: text, ..r }),
        r.with_text(6, text) == (ResponseFields { status_message: text, ..r }),
        r.with_text(7, text) == (ResponseFields { result_json: text, ..r }),
        field == 0 || field == 5 || field > 7 ==> r.with_text(field, text) == r,
        is_text_field(field) <==> 1 <= field <= 7 && field != 5,
{
}

/// A varint has seven bits in each byte, the lowest first, and marks every byte but its last.
pub proof fn law_form_of_a_varint(v: int)
    requires
        v >= 0,
    ensures
        v < 128 ==> varint(v) == seq![v as u8],
        v >= 128 ==> varint(v)[0] == v % 128 + 128 && varint(v).skip(1) == varint(v / 128),
{
    if v >= 128 {
        assert(varint(v).skip(1) =~= varint(v / 128));
    }
}

/// How many bytes a field takes that is stepped over: a number as far as it goes, text with its
/// length, and four or eight bytes. A field of any other kind, or one that is cut short, is an
/// error.
pub proof fn law_skipped_fields_have_their_lengths(data: Seq<u8>, wire_type: u64)
    ensures
        field_len(data, 5) == if data.len() >= 4 {
            Some(4nat)
        } else {
            None
        },
        field_len(data, 1) == if data.len() >= 8 {
            Some(8nat)
        } else {
            None
        },
        read_varint(data) is None ==> field_len(data, 0) is None && field_len(data, 2) is None,
        wire_type == 3 || wire_type == 4 || wire_type > 5 ==> field_len(data, wire_type) is None,
{
}

/// Nothing is left behind the end of the bytes; before it, all that follows is left.
pub proof fn law_rest_of_the_bytes(data: Seq<u8>, at: int)
    requires
        0 <= at,
    ensures
        at >= data.len() ==> rest_at(data, at).len() == 0,
        at <= data.len() ==> data.take(at) + rest_at(data, at) == data,
{
    if at <= data.len() {
        assert(data.take(at) + rest_at(data, at) =~= data);
    }
}

} // verus!
