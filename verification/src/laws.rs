//! What holds of the bridge as a whole: of the codec, of the two state
//! machines, and of the two taken together.

use vstd::prelude::*;
use vstd::utf8::encode_utf8;
use vstd::utf8::encode_utf8_decode_utf8;
use vstd::utf8::encode_utf8_valid_utf8;
use vstd::utf8::is_ascii_chars;
use vstd::utf8::is_ascii_chars_encode_utf8;
use crate::codec::be_bytes;
use crate::codec::be_value;
use crate::codec::frame;
use crate::codec::framed;
use crate::codec::lemma_be_value_of_bytes;
use crate::codec::request;
use crate::codec::request_body;
use crate::codec::requested;
use crate::codec::response_body;
use crate::codec::Mode;
use crate::codec::lemma_text_begins_without_mark;
use crate::codec::FAILURE_MARK;
use crate::codec::U64_SIZE;
use crate::error::ErrorView;
use crate::host::host_begin;
use crate::host::reserved_name;
use crate::host::host_next;
use crate::host::Call;
use crate::host::HostActionView;
use crate::host::HostEvent;
use crate::host::HostPhase;
use crate::worker::failure_text;
use crate::worker::holding;
use crate::worker::phase_wf;
use crate::worker::worker_next;
use crate::worker::WorkerActionView;
use crate::worker::WorkerEvent;
use crate::worker::WorkerPhase;
use crate::worker::EXIT_FAILURE;

verus! {

/// A frame at the head of a stream is read back as its payload, whatever
/// follows it.
pub proof fn law_frame_round_trip(payload: Seq<u8>, rest: Seq<u8>)
    requires
        payload.len() <= u64::MAX,
    ensures
        framed(frame(payload) + rest) == Some(payload),
{
    lemma_be_value_of_bytes(payload.len() as u64);
    let stream = frame(payload) + rest;
    assert(stream.take(8) =~= be_bytes(payload.len() as u64));
    assert(stream.subrange(8, 8 + payload.len() as int) =~= payload);
}

/// A stream that is cut before the end of its first frame holds no frame.
pub proof fn law_short_frame_is_none(payload: Seq<u8>, cut: int)
    requires
        payload.len() <= u64::MAX,
        0 <= cut < 8 + payload.len(),
    ensures
        framed(frame(payload).take(cut)) is None,
{
    lemma_be_value_of_bytes(payload.len() as u64);
    let stream = frame(payload).take(cut);
    if cut >= 8 {
        assert(stream.take(8) =~= be_bytes(payload.len() as u64));
    }
}

/// A request at the head of a stream is read back as its payload and its
/// operation, whatever follows it.
pub proof fn law_request_round_trip(payload: Seq<u8>, mode: Mode, rest: Seq<u8>)
    requires
        payload.len() <= u64::MAX,
    ensures
        requested(request(payload, mode) + rest) == Ok::<(Seq<u8>, Mode), ErrorView>(
            (payload, mode),
        ),
{
    let tail = seq![mode.tag_of()] + rest;
    let stream = request(payload, mode) + rest;
    law_frame_round_trip(payload, tail);
    lemma_be_value_of_bytes(payload.len() as u64);
    assert(frame(payload).len() == 8 + payload.len());
    assert(stream =~= frame(payload) + tail);
    assert(stream[8 + payload.len() as int] == tail[0]);
}

/// The bytes of a request split after the eighth into the header that
/// spells the payload's length and the body that holds the payload and the
/// tag.
proof fn lemma_request_parts(payload: Seq<u8>, mode: Mode, header: Seq<u8>, body: Seq<u8>)
    requires
        payload.len() <= u64::MAX,
        header + body == request(payload, mode),
        header.len() == 8,
    ensures
        be_value(header) == payload.len(),
        body == payload.push(mode.tag_of()),
{
    lemma_be_value_of_bytes(payload.len() as u64);
    let bytes = request(payload, mode);
    assert(header =~= bytes.take(8));
    assert(bytes.take(8) =~= be_bytes(payload.len() as u64));
    assert(body =~= bytes.skip(8));
    assert(bytes.skip(8) =~= payload.push(mode.tag_of()));
}

/// The bytes of a frame split after the eighth into the header that spells
/// the payload's length and the payload.
proof fn lemma_frame_parts(inner: Seq<u8>, header: Seq<u8>, payload: Seq<u8>)
    requires
        inner.len() <= u64::MAX,
        header + payload == frame(inner),
        header.len() == 8,
    ensures
        be_value(header) == inner.len(),
        payload == inner,
{
    lemma_be_value_of_bytes(inner.len() as u64);
    let bytes = frame(inner);
    assert(header =~= bytes.take(8));
    assert(bytes.take(8) =~= be_bytes(inner.len() as u64));
    assert(payload =~= bytes.skip(8));
    assert(bytes.skip(8) =~= inner);
}

/// The payload of a response is read back as it was written. The UTF-8 bytes
/// of any text, the empty text too, are read as the text of a value; the
/// same bytes behind the mark are read as the failure with that message.
pub proof fn law_response_round_trip(text: Seq<char>)
    ensures
        response_body(encode_utf8(text)) == Ok::<Seq<char>, ErrorView>(text),
        response_body(seq![FAILURE_MARK] + encode_utf8(text)) == Err::<Seq<char>, ErrorView>(
            ErrorView::Evaluation(text),
        ),
{
    let bytes = encode_utf8(text);
    encode_utf8_valid_utf8(text);
    encode_utf8_decode_utf8(text);
    if bytes.len() > 0 {
        lemma_text_begins_without_mark(bytes);
    }
    let marked = seq![FAILURE_MARK] + bytes;
    assert(marked.drop_first() =~= bytes);
}

/// What a transaction sends is what the runtime is asked. When the worker
/// reads the bytes that an idle session writes for `text` and `mode`, the
/// header first and then the rest, it asks the runtime to execute, or to
/// look up, exactly `text`. So the statements of a run reach the runtime
/// with their newline, and the name of a lookup as it is.
pub proof fn law_call_reaches_runtime(
    text: Seq<char>,
    mode: Mode,
    call: Call,
    header: Vec<u8>,
    body: Vec<u8>,
)
    requires
        encode_utf8(text).len() < usize::MAX,
        host_begin(HostPhase::Idle, text, mode, call).1 == HostActionView::Write(
            header@ + body@,
        ),
        header@.len() == 8,
    ensures
        worker_next(WorkerPhase::AwaitingHeader, WorkerEvent::Bytes(header)) == (
            WorkerPhase::AwaitingBody { len: body@.len() as usize },
            WorkerActionView::Read(body@.len() as usize),
        ),
        worker_next(
            WorkerPhase::AwaitingBody { len: body@.len() as usize },
            WorkerEvent::Bytes(body),
        ) == (
            WorkerPhase::Calling { mode },
            match mode {
                Mode::Run => WorkerActionView::Execute(text),
                Mode::Get => WorkerActionView::Lookup(text),
            },
        ),
{
    let payload = encode_utf8(text);
    lemma_request_parts(payload, mode, header@, body@);
    assert(body@.drop_last() =~= payload);
    encode_utf8_valid_utf8(text);
    encode_utf8_decode_utf8(text);
    assert(request_body(body@) == Some((text, mode)));
}

/// What the runtime answers is what the call returns. When the session reads
/// the bytes that the worker writes for the string form `text`, the header
/// first and then the rest, a transaction returns exactly `text`, a run
/// returns no text, and an evaluation goes on to look up the reserved name.
/// In each case the session is not closed.
pub proof fn law_answer_reaches_caller(
    held: usize,
    text: String,
    call: Call,
    header: Vec<u8>,
    payload: Vec<u8>,
)
    requires
        encode_utf8(text@).len() <= usize::MAX,
        worker_next(WorkerPhase::Stringifying { held }, WorkerEvent::Text(Ok(text))).1
            == WorkerActionView::Write(header@ + payload@),
        header@.len() == 8,
    ensures
        host_next(HostPhase::AwaitingHeader { call }, HostEvent::Bytes(header)) == (
            HostPhase::AwaitingBody { call, len: payload@.len() as usize },
            HostActionView::Read(payload@.len() as usize),
        ),
        host_next(
            HostPhase::AwaitingBody { call, len: payload@.len() as usize },
            HostEvent::Bytes(payload),
        ) == match call {
            Call::Transaction => (HostPhase::Idle, HostActionView::Return(Ok(text@))),
            Call::Run => (HostPhase::Idle, HostActionView::Return(Ok(Seq::<char>::empty()))),
            Call::Eval => host_begin(
                HostPhase::Idle,
                reserved_name(),
                Mode::Get,
                Call::Transaction,
            ),
        },
{
    lemma_frame_parts(encode_utf8(text@), header@, payload@);
    law_response_round_trip(text@);
}

/// A lookup from `phase`, carried to its end: the request is written, then
/// `header` and `payload` are read. Gives the first action, the last phase
/// and the last action.
pub open spec fn lookup(phase: HostPhase, name: Seq<char>, header: Vec<u8>, payload: Vec<u8>) -> (
    HostActionView,
    HostPhase,
    HostActionView,
) {
    let begun = host_begin(phase, name, Mode::Get, Call::Transaction);
    let written = host_next(begun.0, HostEvent::Written);
    let headed = host_next(written.0, HostEvent::Bytes(header));
    let done = host_next(headed.0, HostEvent::Bytes(payload));
    (begun.1, done.0, done.1)
}

/// A lookup can be repeated. A lookup on an idle session sends the name as
/// it is. Where it returns a text or a failure of the runtime, it leaves
/// the session idle, and a second lookup of the same name that is answered
/// with the same bytes sends the same request and returns the same result.
pub proof fn law_lookup_is_repeatable(
    name: Seq<char>,
    header: Vec<u8>,
    payload: Vec<u8>,
    header_again: Vec<u8>,
    payload_again: Vec<u8>,
)
    requires
        header_again@ == header@,
        payload_again@ == payload@,
    ensures
        lookup(HostPhase::Idle, name, header, payload).0 == HostActionView::Write(
            request(encode_utf8(name), Mode::Get),
        ),
        ({
            let first = lookup(HostPhase::Idle, name, header, payload);
            ((first.2 matches HostActionView::Return(Ok(_))) || (first.2 matches HostActionView::Return(
                Err(ErrorView::Evaluation(_)),
            ))) ==> (first.1 == HostPhase::Idle && lookup(
                first.1,
                name,
                header_again,
                payload_again,
            ) == first)
        }),
{
}

/// An undefined name is a failure of the runtime, not the end of the session.
/// When the runtime gives no handle for a lookup, the worker answers and then
/// awaits the next request; when the session reads that answer, the header
/// first and then the rest, the lookup returns the evaluation error that
/// holds the worker's message, and the session is idle.
pub proof fn law_undefined_name_is_reported(header: Vec<u8>, payload: Vec<u8>)
    requires
        worker_next(WorkerPhase::Calling { mode: Mode::Get }, WorkerEvent::Handle(0)).1
            == WorkerActionView::Write(header@ + payload@),
        header@.len() == 8,
    ensures
        worker_next(WorkerPhase::Calling { mode: Mode::Get }, WorkerEvent::Handle(0)).0
            == (WorkerPhase::Replying { owned: None }),
        worker_next(WorkerPhase::Replying { owned: None }, WorkerEvent::Written) == (
            WorkerPhase::AwaitingHeader,
            WorkerActionView::Read(U64_SIZE),
        ),
        host_next(
            HostPhase::AwaitingHeader { call: Call::Transaction },
            HostEvent::Bytes(header),
        ) == (
            HostPhase::AwaitingBody { call: Call::Transaction, len: payload@.len() as usize },
            HostActionView::Read(payload@.len() as usize),
        ),
        host_next(
            HostPhase::AwaitingBody { call: Call::Transaction, len: payload@.len() as usize },
            HostEvent::Bytes(payload),
        ) == (
            HostPhase::Idle,
            HostActionView::Return(Err(ErrorView::Evaluation(failure_text(Mode::Get)))),
        ),
{
    let message = failure_text(Mode::Get);
    reveal_strlit("Name is not defined");
    assert(is_ascii_chars(message));
    is_ascii_chars_encode_utf8(message);
    assert(encode_utf8(message).len() == 19);
    lemma_frame_parts(seq![FAILURE_MARK] + encode_utf8(message), header@, payload@);
    law_response_round_trip(message);
}

/// A closed channel is reported, and never waited for. In the middle of a
/// transaction the event that the channel is closed ends the call with that
/// error and closes the session; so does a read that came short. Every call
/// on a closed session returns the same error at once: the session asks for
/// no read and no write.
pub proof fn law_closed_channel_is_reported(
    phase: HostPhase,
    short: Vec<u8>,
    text: Seq<char>,
    mode: Mode,
    call: Call,
)
    requires
        phase != HostPhase::Idle,
    ensures
        host_next(phase, HostEvent::Closed) == (
            HostPhase::Closed,
            HostActionView::Return(Err(ErrorView::ChannelClosed)),
        ),
        phase matches HostPhase::AwaitingHeader { .. } && short@.len() != 8 ==> host_next(
            phase,
            HostEvent::Bytes(short),
        ) == (HostPhase::Closed, HostActionView::Return(Err(ErrorView::ChannelClosed))),
        phase matches HostPhase::AwaitingBody { len, .. } && short@.len() != len ==> host_next(
            phase,
            HostEvent::Bytes(short),
        ) == (HostPhase::Closed, HostActionView::Return(Err(ErrorView::ChannelClosed))),
        host_begin(HostPhase::Closed, text, mode, call) == (
            HostPhase::Closed,
            HostActionView::Return(Err(ErrorView::ChannelClosed)),
        ),
{
}

/// The worker owns the null address in no phase that it can reach.
pub proof fn law_worker_never_holds_null(phase: WorkerPhase, event: WorkerEvent)
    requires
        phase_wf(phase),
    ensures
        phase_wf(worker_next(phase, event).0),
{
}

/// Every handle is released exactly once. The worker comes to own a handle
/// only when the runtime gives one for a request. Whatever happens then, it
/// keeps the handle until it asks for its release, asks for the release of
/// no other, and owns nothing when it asks for a read or asks to exit.
pub proof fn law_handle_released_once(phase: WorkerPhase, event: WorkerEvent)
    ensures
        ({
            let (next, action) = worker_next(phase, event);
            &&& (action matches WorkerActionView::Release(p) ==> holding(phase) == Some(p)
                && holding(next) is None)
            &&& (action matches WorkerActionView::Read(_) ==> holding(next) is None)
            &&& (action matches WorkerActionView::Exit(code) ==> holding(next) is None && code
                == EXIT_FAILURE && next == WorkerPhase::Stopped)
            &&& (!(action is Release) && holding(phase) is Some ==> holding(next) == holding(
                phase,
            ))
            &&& (holding(phase) is None && holding(next) is Some ==> phase is Calling && event
                == WorkerEvent::Handle(holding(next).unwrap()))
        }),
{
}

} // verus!
