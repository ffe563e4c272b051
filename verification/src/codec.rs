//! The wire format of the bridge.
//!
//! A frame is an eight-byte big-endian length followed by that many bytes of
//! payload. A request is a frame followed by one tag byte that names the
//! operation. A response is a frame whose payload is the UTF-8 text of a
//! value, or one byte that no text begins with and then the message of a
//! failure.

use vstd::prelude::*;
use vstd::arithmetic::div_mod::lemma_div_denominator;
use vstd::arithmetic::div_mod::lemma_fundamental_div_mod_converse;
use vstd::slice::slice_subrange;
use vstd::slice::slice_to_vec;
use vstd::utf8::decode_utf8;
use vstd::utf8::encode_utf8;
use vstd::utf8::valid_first_scalar;
use vstd::utf8::valid_utf8;
use crate::error::Error;
use crate::error::ErrorView;

verus! {

/// Number of bytes in the length prefix of a frame.
pub const U64_SIZE: usize = 8;

/// The operation that a request asks for.
#[derive(Clone, Copy, PartialEq, Eq, Structural, Debug)]
pub enum Mode {
    /// Execute the payload as statements.
    Run,
    /// Look the payload up as a name.
    Get,
}

impl Mode {
    /// The byte that stands for this operation on the wire.
    pub open spec fn tag_of(self) -> u8 {
        match self {
            Mode::Run => 0u8,
            Mode::Get => 1u8,
        }
    }

    /// The operation that a tag byte stands for, if any.
    pub open spec fn of_tag(tag: u8) -> Option<Mode> {
        if tag == 0 {
            Some(Mode::Run)
        } else if tag == 1 {
            Some(Mode::Get)
        } else {
            None
        }
    }

    /// The tag byte of this operation.
    pub fn tag(self) -> (t: u8)
        ensures
            t == self.tag_of(),
    {
        match self {
            Mode::Run => 0,
            Mode::Get => 1,
        }
    }

    /// The operation of a tag byte; none for a byte outside the protocol.
    pub fn from_tag(tag: u8) -> (m: Option<Mode>)
        ensures
            m == Mode::of_tag(tag),
    {
        if tag == 0 {
            Some(Mode::Run)
        } else if tag == 1 {
            Some(Mode::Get)
        } else {
            None
        }
    }
}

/// The first byte of the payload of a response that tells a failure of the
/// runtime. No UTF-8 text begins with it, so no value's text is taken for a
/// failure.
pub const FAILURE_MARK: u8 = 0xff;

/// What a response tells.
#[derive(Clone, Copy, PartialEq, Eq, Structural, Debug)]
pub enum Status {
    /// The string form of a value: the payload is its text.
    Value,
    /// A failure that the runtime reported: the payload is the mark and
    /// then the text of the message.
    Raised,
}

/// The eight bytes of `n`, most significant first.
pub open spec fn be_bytes(n: u64) -> Seq<u8> {
    seq![
        (n as int / 0x100_0000_0000_0000) as u8,
        (n as int / 0x1_0000_0000_0000 % 0x100) as u8,
        (n as int / 0x100_0000_0000 % 0x100) as u8,
        (n as int / 0x1_0000_0000 % 0x100) as u8,
        (n as int / 0x100_0000 % 0x100) as u8,
        (n as int / 0x1_0000 % 0x100) as u8,
        (n as int / 0x100 % 0x100) as u8,
        (n as int % 0x100) as u8,
    ]
}

/// The number that eight bytes spell, most significant first.
pub open spec fn be_value(b: Seq<u8>) -> int
    recommends
        b.len() == 8,
{
    b[0] * 0x100_0000_0000_0000 + b[1] * 0x1_0000_0000_0000 + b[2] * 0x100_0000_0000 + b[3]
        * 0x1_0000_0000 + b[4] * 0x100_0000 + b[5] * 0x1_0000 + b[6] * 0x100 + b[7]
}

/// A payload behind its length.
pub open spec fn frame(payload: Seq<u8>) -> Seq<u8>
    recommends
        payload.len() <= u64::MAX,
{
    be_bytes(payload.len() as u64) + payload
}

/// A request on the wire: the frame of the payload, then the tag.
pub open spec fn request(payload: Seq<u8>, mode: Mode) -> Seq<u8>
    recommends
        payload.len() <= u64::MAX,
{
    frame(payload).push(mode.tag_of())
}

/// A response on the wire. The text of a value is framed as it is; the
/// message of a failure is framed behind the mark.
pub open spec fn response(status: Status, text: Seq<u8>) -> Seq<u8>
    recommends
        text.len() < u64::MAX,
{
    match status {
        Status::Value => frame(text),
        Status::Raised => frame(seq![FAILURE_MARK] + text),
    }
}

/// The payload of the frame that `stream` starts with, if all of it is there.
pub open spec fn framed(stream: Seq<u8>) -> Option<Seq<u8>> {
    if stream.len() >= 8 && be_value(stream.take(8)) <= stream.len() - 8 {
        Some(stream.subrange(8, 8 + be_value(stream.take(8))))
    } else {
        None
    }
}

/// What a stream that starts with a request holds.
pub open spec fn requested(stream: Seq<u8>) -> Result<(Seq<u8>, Mode), ErrorView> {
    match framed(stream) {
        None => Err(ErrorView::ChannelClosed),
        Some(payload) => if stream.len() < 9 + payload.len() {
            Err(ErrorView::ChannelClosed)
        } else {
            match Mode::of_tag(stream[8 + payload.len() as int]) {
                Some(mode) => Ok((payload, mode)),
                None => Err(ErrorView::ProtocolViolation),
            }
        },
    }
}

/// What the bytes behind a request's length hold: the text and the
/// operation, if the last byte is a tag and the others are UTF-8.
pub open spec fn request_body(body: Seq<u8>) -> Option<(Seq<char>, Mode)> {
    if body.len() == 0 {
        None
    } else {
        match Mode::of_tag(body.last()) {
            Some(mode) => if valid_utf8(body.drop_last()) {
                Some((decode_utf8(body.drop_last()), mode))
            } else {
                None
            },
            None => None,
        }
    }
}

/// What the payload of a response holds. Behind the mark it is the message
/// of a failure of the runtime. Otherwise the whole payload is the text of a
/// value, and the empty payload is the empty text. Bytes that are not UTF-8
/// are a violation of the protocol.
pub open spec fn response_body(payload: Seq<u8>) -> Result<Seq<char>, ErrorView> {
    if payload.len() > 0 && payload[0] == FAILURE_MARK {
        if valid_utf8(payload.drop_first()) {
            Err(ErrorView::Evaluation(decode_utf8(payload.drop_first())))
        } else {
            Err(ErrorView::ProtocolViolation)
        }
    } else if valid_utf8(payload) {
        Ok(decode_utf8(payload))
    } else {
        Err(ErrorView::ProtocolViolation)
    }
}

/// Reading back the eight bytes that spell a number gives the number.
pub proof fn lemma_be_value_of_bytes(n: u64)
    ensures
        be_bytes(n).len() == 8,
        be_value(be_bytes(n)) == n,
{
    let x = n as int;
    lemma_div_denominator(x, 0x100, 0x100);
    lemma_div_denominator(x, 0x1_0000, 0x100);
    lemma_div_denominator(x, 0x100_0000, 0x100);
    lemma_div_denominator(x, 0x1_0000_0000, 0x100);
    lemma_div_denominator(x, 0x100_0000_0000, 0x100);
    lemma_div_denominator(x, 0x1_0000_0000_0000, 0x100);
    let quot1 = x / 0x100;
    let quot2 = x / 0x1_0000;
    let quot3 = x / 0x100_0000;
    let quot4 = x / 0x1_0000_0000;
    let quot5 = x / 0x100_0000_0000;
    let quot6 = x / 0x1_0000_0000_0000;
    let quot7 = x / 0x100_0000_0000_0000;
    assert(quot2 == quot1 / 0x100);
    assert(quot3 == quot2 / 0x100);
    assert(quot4 == quot3 / 0x100);
    assert(quot5 == quot4 / 0x100);
    assert(quot6 == quot5 / 0x100);
    assert(quot7 == quot6 / 0x100);
    assert(x == quot1 * 0x100 + x % 0x100);
    assert(quot1 == quot2 * 0x100 + quot1 % 0x100);
    assert(quot2 == quot3 * 0x100 + quot2 % 0x100);
    assert(quot3 == quot4 * 0x100 + quot3 % 0x100);
    assert(quot4 == quot5 * 0x100 + quot4 % 0x100);
    assert(quot5 == quot6 * 0x100 + quot5 % 0x100);
    assert(quot6 == quot7 * 0x100 + quot6 % 0x100);
    assert(0 <= quot7 < 0x100);
}

/// Spelling the number that eight bytes were read as gives the bytes.
pub proof fn lemma_be_bytes_of_value(b: Seq<u8>)
    requires
        b.len() == 8,
    ensures
        0 <= be_value(b) <= u64::MAX,
        be_bytes(be_value(b) as u64) == b,
{
    let v = be_value(b);
    let high1 = b[0] as int;
    let high2 = high1 * 0x100 + b[1];
    let high3 = high2 * 0x100 + b[2];
    let high4 = high3 * 0x100 + b[3];
    let high5 = high4 * 0x100 + b[4];
    let high6 = high5 * 0x100 + b[5];
    let high7 = high6 * 0x100 + b[6];
    let low1 = b[7] as int;
    let low2 = b[6] * 0x100 + low1;
    let low3 = b[5] * 0x1_0000 + low2;
    let low4 = b[4] * 0x100_0000 + low3;
    let low5 = b[3] * 0x1_0000_0000 + low4;
    let low6 = b[2] * 0x100_0000_0000 + low5;
    let low7 = b[1] * 0x1_0000_0000_0000 + low6;
    lemma_fundamental_div_mod_converse(v, 0x100_0000_0000_0000, high1, low7);
    lemma_fundamental_div_mod_converse(v, 0x1_0000_0000_0000, high2, low6);
    lemma_fundamental_div_mod_converse(v, 0x100_0000_0000, high3, low5);
    lemma_fundamental_div_mod_converse(v, 0x1_0000_0000, high4, low4);
    lemma_fundamental_div_mod_converse(v, 0x100_0000, high5, low3);
    lemma_fundamental_div_mod_converse(v, 0x1_0000, high6, low2);
    lemma_fundamental_div_mod_converse(v, 0x100, high7, low1);
    assert(be_bytes(v as u64) =~= b);
}

/// Writes `n` as eight bytes, most significant first.
pub fn encode_len(n: u64) -> (b: [u8; 8])
    ensures
        b@ == be_bytes(n),
{
    let b: [u8; 8] = [
        (n / 0x100_0000_0000_0000) as u8,
        (n / 0x1_0000_0000_0000 % 0x100) as u8,
        (n / 0x100_0000_0000 % 0x100) as u8,
        (n / 0x1_0000_0000 % 0x100) as u8,
        (n / 0x100_0000 % 0x100) as u8,
        (n / 0x1_0000 % 0x100) as u8,
        (n / 0x100 % 0x100) as u8,
        (n % 0x100) as u8,
    ];
    assert(b@ =~= be_bytes(n));
    b
}

/// Reads a length from a header: `None` unless there are exactly eight bytes.
pub fn decode_len(header: &[u8]) -> (n: Option<u64>)
    ensures
        n is Some <==> header@.len() == 8,
        n matches Some(v) ==> v == be_value(header@) && be_bytes(v) == header@,
{
    if header.len() != 8 {
        return None;
    }
    proof {
        lemma_be_bytes_of_value(header@);
    }
    let v: u64 = (header[0] as u64) * 0x100_0000_0000_0000 + (header[1] as u64)
        * 0x1_0000_0000_0000 + (header[2] as u64) * 0x100_0000_0000 + (header[3] as u64)
        * 0x1_0000_0000 + (header[4] as u64) * 0x100_0000 + (header[5] as u64) * 0x1_0000 + (
    header[6] as u64) * 0x100 + (header[7] as u64);
    Some(v)
}

/// Appends the frame of `payload` to `stream`.
pub fn write_frame(stream: &mut Vec<u8>, payload: &[u8])
    ensures
        final(stream)@ == old(stream)@ + frame(payload@),
{
    let header = encode_len(payload.len() as u64);
    stream.extend_from_slice(header.as_slice());
    stream.extend_from_slice(payload);
    assert(stream@ =~= old(stream)@ + frame(payload@));
}

/// Appends the request for `mode` on `payload` to `stream`.
pub fn write_request(stream: &mut Vec<u8>, payload: &[u8], mode: Mode)
    ensures
        final(stream)@ == old(stream)@ + request(payload@, mode),
{
    write_frame(stream, payload);
    stream.push(mode.tag());
    assert(stream@ =~= old(stream)@ + request(payload@, mode));
}

/// Appends the response that tells `text` under `status` to `stream`.
pub fn write_response(stream: &mut Vec<u8>, status: Status, text: &str)
    ensures
        final(stream)@ == old(stream)@ + response(status, encode_utf8(text@)),
{
    match status {
        Status::Value => write_frame(stream, text.as_bytes()),
        Status::Raised => {
            let mut payload: Vec<u8> = Vec::new();
            payload.push(FAILURE_MARK);
            payload.extend_from_slice(text.as_bytes());
            assert(payload@ =~= seq![FAILURE_MARK] + encode_utf8(text@));
            write_frame(stream, payload.as_slice());
        },
    }
}

/// Takes the payload of the frame that `stream` starts with. A stream that
/// ends before the frame does is a closed channel.
pub fn read_frame(stream: &[u8]) -> (r: Result<Vec<u8>, Error>)
    ensures
        match r {
            Ok(payload) => framed(stream@) == Some(payload@),
            Err(e) => framed(stream@) is None && e@ is ChannelClosed,
        },
{
    if stream.len() < 8 {
        return Err(Error::ChannelClosed);
    }
    let header = slice_subrange(stream, 0, 8);
    assert(header@ =~= stream@.take(8));
    let n = match decode_len(header) {
        Some(n) => n,
        None => { return Err(Error::ChannelClosed); },
    };
    let rest: usize = stream.len() - 8;
    if n > rest as u64 {
        return Err(Error::ChannelClosed);
    }
    let payload = slice_to_vec(slice_subrange(stream, 8, 8 + n as usize));
    Ok(payload)
}

/// Takes the payload and the operation of the request that `stream` starts
/// with. A stream that ends before the request does is a closed channel; a
/// tag byte outside the protocol is a violation.
pub fn read_request(stream: &[u8]) -> (r: Result<(Vec<u8>, Mode), Error>)
    ensures
        match r {
            Ok((payload, mode)) => requested(stream@) == Ok::<(Seq<u8>, Mode), ErrorView>(
                (payload@, mode),
            ),
            Err(e) => requested(stream@) == Err::<(Seq<u8>, Mode), ErrorView>(e@),
        },
{
    let payload = match read_frame(stream) {
        Ok(payload) => payload,
        Err(_) => { return Err(Error::ChannelClosed); },
    };
    if stream.len() - 8 == payload.len() {
        return Err(Error::ChannelClosed);
    }
    match Mode::from_tag(stream[8 + payload.len()]) {
        Some(mode) => Ok((payload, mode)),
        None => Err(Error::ProtocolViolation),
    }
}

/// `String::from_utf8` of std: it gives the text exactly when the bytes are
/// valid UTF-8, and the text is then what the bytes decode to.
#[verifier::external_body]
fn text_from_utf8(bytes: Vec<u8>) -> (r: Option<String>)
    ensures
        r is Some <==> valid_utf8(bytes@),
        r matches Some(text) ==> text@ == decode_utf8(bytes@),
{
    String::from_utf8(bytes).ok()
}

/// Splits what follows a request's length into the text and the operation.
/// The last byte must be a tag and the others UTF-8.
pub fn parse_request(body: Vec<u8>) -> (r: Option<(String, Mode)>)
    ensures
        match r {
            Some((text, mode)) => request_body(body@) == Some((text@, mode)),
            None => request_body(body@) is None,
        },
{
    let mut body = body;
    let ghost whole = body@;
    let tag = match body.pop() {
        Some(tag) => tag,
        None => { return None; },
    };
    assert(body@ =~= whole.drop_last());
    let mode = match Mode::from_tag(tag) {
        Some(mode) => mode,
        None => { return None; },
    };
    match text_from_utf8(body) {
        Some(text) => Some((text, mode)),
        None => None,
    }
}

/// Reads the payload of a response: the text of a value, or the failure that
/// it tells.
pub fn parse_response(payload: Vec<u8>) -> (r: Result<String, Error>)
    ensures
        match r {
            Ok(text) => response_body(payload@) == Ok::<Seq<char>, ErrorView>(text@),
            Err(e) => response_body(payload@) == Err::<Seq<char>, ErrorView>(e@),
        },
{
    let mut payload = payload;
    let ghost whole = payload@;
    if payload.len() > 0 && payload[0] == FAILURE_MARK {
        let _ = payload.remove(0);
        assert(payload@ =~= whole.drop_first());
        match text_from_utf8(payload) {
            Some(message) => Err(Error::Evaluation(message)),
            None => Err(Error::ProtocolViolation),
        }
    } else {
        match text_from_utf8(payload) {
            Some(text) => Ok(text),
            None => Err(Error::ProtocolViolation),
        }
    }
}

/// No UTF-8 text begins with the mark of a failure.
pub proof fn lemma_text_begins_without_mark(bytes: Seq<u8>)
    requires
        valid_utf8(bytes),
        bytes.len() > 0,
    ensures
        bytes[0] != FAILURE_MARK,
{
    assert(valid_first_scalar(bytes));
}

} // verus!
