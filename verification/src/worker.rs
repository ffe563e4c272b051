//! The worker's side of the bridge, as a state machine.
//!
//! The worker awaits a request, processes it, answers, and awaits the next.
//! The machine makes every decision of that loop and performs none of its
//! effects: it hands out one action at a time, and whoever owns the channel
//! and the runtime performs the action and hands back the event that came of
//! it.
//!
//! While a request is processed the worker owns at most one handle, the one
//! that the runtime gave for the request. It is released exactly once, on
//! every path, before the worker reads again or exits.

use vstd::prelude::*;
use vstd::utf8::encode_utf8;
use crate::codec::be_value;
use crate::codec::decode_len;
use crate::codec::parse_request;
use crate::codec::request_body;
use crate::codec::response;
use crate::codec::write_response;
use crate::codec::Mode;
use crate::codec::Status;
use crate::codec::U64_SIZE;
use crate::runtime::PyObj;

verus! {

/// The status with which the worker process ends.
pub const EXIT_FAILURE: i32 = 1;

/// Where the worker is in its loop.
#[derive(Clone, Copy, PartialEq, Eq, Structural, Debug)]
pub enum WorkerPhase {
    /// Nothing has been asked for yet.
    Created,
    /// Awaiting a request: its length is being read.
    AwaitingHeader,
    /// Awaiting a request: `len` bytes of payload and tag are being read.
    AwaitingBody { len: usize },
    /// Processing: the runtime is executing or looking up.
    Calling { mode: Mode },
    /// Processing: the runtime is stringifying the handle at `held`.
    Stringifying { held: usize },
    /// Processing: the answer is being written; the handle at `owned`, if
    /// any, is still to be released.
    Replying { owned: Option<usize> },
    /// The handle of the request is being released; `exit` tells whether
    /// the worker stops afterwards.
    Releasing { exit: bool },
    /// The worker has asked to exit.
    Stopped,
}

/// Why the runtime gave no string form of a value.
#[derive(Clone, Copy, PartialEq, Eq, Structural, Debug)]
pub enum Unprintable {
    /// The runtime could not make the string form.
    NoForm,
    /// The string form could not be had as UTF-8 text.
    NotUtf8,
}

/// What came of the action that the worker asked for.
#[derive(Debug, PartialEq, Eq)]
pub enum WorkerEvent {
    /// The runtime session is ready and the channel is open.
    Started,
    /// The runtime session could not be made.
    Failed,
    /// The bytes that were read.
    Bytes(Vec<u8>),
    /// The channel ended, or a read or write on it failed.
    Closed,
    /// The address that the runtime returned; null if it failed.
    Handle(usize),
    /// The string form that the runtime gave, or why it gave none.
    Text(Result<String, Unprintable>),
    /// The bytes were written.
    Written,
    /// The handle was released.
    Released,
}

/// What the worker asks for next.
#[derive(Debug, PartialEq, Eq)]
pub enum WorkerAction {
    /// Read exactly this many bytes from the channel.
    Read(usize),
    /// Execute the text as statements in the session's namespaces.
    Execute(String),
    /// Look the name up in the namespace of locals.
    Lookup(String),
    /// Give the string form of the value at this address: the form that
    /// the runtime would print in its own notation, so that the string
    /// `abc` comes back in quotes, as `'abc'`.
    Stringify(usize),
    /// Release the reference to the value at this address.
    Release(usize),
    /// Write these bytes to the channel.
    Write(Vec<u8>),
    /// Exit the process with this status.
    Exit(i32),
}

/// The mathematical value of a [`WorkerAction`].
pub enum WorkerActionView {
    Read(usize),
    Execute(Seq<char>),
    Lookup(Seq<char>),
    Stringify(usize),
    Release(usize),
    Write(Seq<u8>),
    Exit(i32),
}

impl View for WorkerAction {
    type V = WorkerActionView;

    open spec fn view(&self) -> WorkerActionView {
        match self {
            WorkerAction::Read(n) => WorkerActionView::Read(*n),
            WorkerAction::Execute(text) => WorkerActionView::Execute(text@),
            WorkerAction::Lookup(name) => WorkerActionView::Lookup(name@),
            WorkerAction::Stringify(p) => WorkerActionView::Stringify(*p),
            WorkerAction::Release(p) => WorkerActionView::Release(*p),
            WorkerAction::Write(bytes) => WorkerActionView::Write(bytes@),
            WorkerAction::Exit(code) => WorkerActionView::Exit(*code),
        }
    }
}

/// The message of the failure of an operation that gave no handle.
pub fn failure_message(mode: Mode) -> (message: &'static str)
    ensures
        message@ == failure_text(mode),
{
    match mode {
        Mode::Run => "Failed to run statements",
        Mode::Get => "Name is not defined",
    }
}

/// The message of the failure of the runtime to stringify a value.
pub fn stringify_message(failure: Unprintable) -> (message: &'static str)
    ensures
        message@ == stringify_text(failure),
{
    match failure {
        Unprintable::NoForm => "Failed to str object",
        Unprintable::NotUtf8 => "Failed to convert to UTF8 String",
    }
}

/// The text of [`failure_message`].
pub open spec fn failure_text(mode: Mode) -> Seq<char> {
    match mode {
        Mode::Run => "Failed to run statements"@,
        Mode::Get => "Name is not defined"@,
    }
}

/// The text of [`stringify_message`].
pub open spec fn stringify_text(failure: Unprintable) -> Seq<char> {
    match failure {
        Unprintable::NoForm => "Failed to str object"@,
        Unprintable::NotUtf8 => "Failed to convert to UTF8 String"@,
    }
}

/// The handle that the worker owns in a phase, if it owns one.
pub open spec fn holding(phase: WorkerPhase) -> Option<usize> {
    match phase {
        WorkerPhase::Stringifying { held } => Some(held),
        WorkerPhase::Replying { owned } => owned,
        _ => None,
    }
}

/// No phase owns the null address.
pub open spec fn phase_wf(phase: WorkerPhase) -> bool {
    holding(phase) != Some(0usize)
}

/// The way out when the channel or the protocol has failed: what is owned is
/// released first, then the worker exits.
pub open spec fn worker_fail(phase: WorkerPhase) -> (WorkerPhase, WorkerActionView) {
    match holding(phase) {
        Some(held) => (WorkerPhase::Releasing { exit: true }, WorkerActionView::Release(held)),
        None => (WorkerPhase::Stopped, WorkerActionView::Exit(EXIT_FAILURE)),
    }
}

/// The worker's loop: the phase that follows `phase` on `event`, and the
/// action that the worker asks for.
pub open spec fn worker_next(phase: WorkerPhase, event: WorkerEvent) -> (
    WorkerPhase,
    WorkerActionView,
) {
    match phase {
        WorkerPhase::Created => match event {
            WorkerEvent::Started => (
                WorkerPhase::AwaitingHeader,
                WorkerActionView::Read(U64_SIZE),
            ),
            _ => worker_fail(phase),
        },
        WorkerPhase::AwaitingHeader => match event {
            WorkerEvent::Bytes(header) => if header@.len() == 8 && be_value(header@)
                < usize::MAX {
                (
                    WorkerPhase::AwaitingBody { len: (be_value(header@) + 1) as usize },
                    WorkerActionView::Read((be_value(header@) + 1) as usize),
                )
            } else {
                worker_fail(phase)
            },
            _ => worker_fail(phase),
        },
        WorkerPhase::AwaitingBody { len } => match event {
            WorkerEvent::Bytes(body) => if body@.len() == len {
                match request_body(body@) {
                    Some((text, Mode::Run)) => (
                        WorkerPhase::Calling { mode: Mode::Run },
                        WorkerActionView::Execute(text),
                    ),
                    Some((text, Mode::Get)) => (
                        WorkerPhase::Calling { mode: Mode::Get },
                        WorkerActionView::Lookup(text),
                    ),
                    None => worker_fail(phase),
                }
            } else {
                worker_fail(phase)
            },
            _ => worker_fail(phase),
        },
        WorkerPhase::Calling { mode } => match event {
            WorkerEvent::Handle(p) => if p != 0 {
                (WorkerPhase::Stringifying { held: p }, WorkerActionView::Stringify(p))
            } else {
                (
                    WorkerPhase::Replying { owned: None },
                    WorkerActionView::Write(
                        response(Status::Raised, encode_utf8(failure_text(mode))),
                    ),
                )
            },
            _ => worker_fail(phase),
        },
        WorkerPhase::Stringifying { held } => match event {
            WorkerEvent::Text(Ok(text)) => (
                WorkerPhase::Replying { owned: Some(held) },
                WorkerActionView::Write(response(Status::Value, encode_utf8(text@))),
            ),
            WorkerEvent::Text(Err(failure)) => (
                WorkerPhase::Replying { owned: Some(held) },
                WorkerActionView::Write(
                    response(Status::Raised, encode_utf8(stringify_text(failure))),
                ),
            ),
            _ => worker_fail(phase),
        },
        WorkerPhase::Replying { owned } => match event {
            WorkerEvent::Written => match owned {
                Some(p) => (WorkerPhase::Releasing { exit: false }, WorkerActionView::Release(p)),
                None => (WorkerPhase::AwaitingHeader, WorkerActionView::Read(U64_SIZE)),
            },
            _ => worker_fail(phase),
        },
        WorkerPhase::Releasing { exit } => match event {
            WorkerEvent::Released => if exit {
                worker_fail(phase)
            } else {
                (WorkerPhase::AwaitingHeader, WorkerActionView::Read(U64_SIZE))
            },
            _ => worker_fail(phase),
        },
        WorkerPhase::Stopped => worker_fail(phase),
    }
}

/// The worker's loop, in the phase it has reached.
#[derive(Debug)]
pub struct Worker {
    phase: WorkerPhase,
}

impl View for Worker {
    type V = WorkerPhase;

    closed spec fn view(&self) -> WorkerPhase {
        self.phase
    }
}

impl Worker {
    #[verifier::type_invariant]
    spec fn inv(self) -> bool {
        phase_wf(self.phase)
    }

    /// A worker that has not been started.
    pub fn new() -> (worker: Worker)
        ensures
            worker@ == WorkerPhase::Created,
    {
        Worker { phase: WorkerPhase::Created }
    }

    /// The phase that the worker is in.
    pub fn phase(&self) -> (phase: WorkerPhase)
        ensures
            phase == self@,
            phase_wf(phase),
    {
        proof {
            use_type_invariant(self);
        }
        self.phase
    }

    /// True once the worker has asked to exit.
    pub fn is_stopped(&self) -> (r: bool)
        ensures
            r == (self@ is Stopped),
    {
        match self.phase {
            WorkerPhase::Stopped => true,
            _ => false,
        }
    }

    fn fail(&mut self) -> (action: WorkerAction)
        ensures
            (final(self)@, action@) == worker_fail(old(self)@),
    {
        proof {
            use_type_invariant(&*self);
        }
        let held = match self.phase {
            WorkerPhase::Stringifying { held } => Some(held),
            WorkerPhase::Replying { owned } => owned,
            _ => None,
        };
        match held {
            Some(p) => {
                self.phase = WorkerPhase::Releasing { exit: true };
                WorkerAction::Release(p)
            },
            None => {
                self.phase = WorkerPhase::Stopped;
                WorkerAction::Exit(EXIT_FAILURE)
            },
        }
    }

    /// Takes the event that came of the last action and gives the next
    /// action. A worker that was just made takes `Started`, or `Failed`
    /// where the runtime session could not be made.
    pub fn step(&mut self, event: WorkerEvent) -> (action: WorkerAction)
        ensures
            (final(self)@, action@) == worker_next(old(self)@, event),
            phase_wf(final(self)@),
            action@ matches WorkerActionView::Release(p) ==> p != 0,
            action@ matches WorkerActionView::Stringify(p) ==> p != 0,
    {
        proof {
            use_type_invariant(&*self);
        }
        let phase = self.phase;
        match phase {
            WorkerPhase::Created => match event {
                WorkerEvent::Started => {
                    self.phase = WorkerPhase::AwaitingHeader;
                    WorkerAction::Read(U64_SIZE)
                },
                _ => self.fail(),
            },
            WorkerPhase::AwaitingHeader => match event {
                WorkerEvent::Bytes(header) => {
                    match decode_len(header.as_slice()) {
                        Some(n) => {
                            if n < usize::MAX as u64 {
                                let len: usize = (n + 1) as usize;
                                self.phase = WorkerPhase::AwaitingBody { len };
                                WorkerAction::Read(len)
                            } else {
                                self.fail()
                            }
                        },
                        None => self.fail(),
                    }
                },
                _ => self.fail(),
            },
            WorkerPhase::AwaitingBody { len } => match event {
                WorkerEvent::Bytes(body) => {
                    if body.len() == len {
                        match parse_request(body) {
                            Some((text, Mode::Run)) => {
                                self.phase = WorkerPhase::Calling { mode: Mode::Run };
                                WorkerAction::Execute(text)
                            },
                            Some((text, Mode::Get)) => {
                                self.phase = WorkerPhase::Calling { mode: Mode::Get };
                                WorkerAction::Lookup(text)
                            },
                            None => self.fail(),
                        }
                    } else {
                        self.fail()
                    }
                },
                _ => self.fail(),
            },
            WorkerPhase::Calling { mode } => match event {
                WorkerEvent::Handle(p) => {
                    match PyObj::new(p) {
                        Some(obj) => {
                            let held = obj.addr();
                            self.phase = WorkerPhase::Stringifying { held };
                            WorkerAction::Stringify(held)
                        },
                        None => {
                            let mut bytes: Vec<u8> = Vec::new();
                            write_response(&mut bytes, Status::Raised, failure_message(mode));
                            self.phase = WorkerPhase::Replying { owned: None };
                            WorkerAction::Write(bytes)
                        },
                    }
                },
                _ => self.fail(),
            },
            WorkerPhase::Stringifying { held } => match event {
                WorkerEvent::Text(Ok(text)) => {
                    let mut bytes: Vec<u8> = Vec::new();
                    write_response(&mut bytes, Status::Value, text.as_str());
                    self.phase = WorkerPhase::Replying { owned: Some(held) };
                    WorkerAction::Write(bytes)
                },
                WorkerEvent::Text(Err(failure)) => {
                    let mut bytes: Vec<u8> = Vec::new();
                    write_response(&mut bytes, Status::Raised, stringify_message(failure));
                    self.phase = WorkerPhase::Replying { owned: Some(held) };
                    WorkerAction::Write(bytes)
                },
                _ => self.fail(),
            },
            WorkerPhase::Replying { owned } => match event {
                WorkerEvent::Written => match owned {
                    Some(p) => {
                        self.phase = WorkerPhase::Releasing { exit: false };
                        WorkerAction::Release(p)
                    },
                    None => {
                        self.phase = WorkerPhase::AwaitingHeader;
                        WorkerAction::Read(U64_SIZE)
                    },
                },
                _ => self.fail(),
            },
            WorkerPhase::Releasing { exit } => match event {
                WorkerEvent::Released => {
                    if exit {
                        self.fail()
                    } else {
                        self.phase = WorkerPhase::AwaitingHeader;
                        WorkerAction::Read(U64_SIZE)
                    }
                },
                _ => self.fail(),
            },
            WorkerPhase::Stopped => self.fail(),
        }
    }
}

} // verus!
