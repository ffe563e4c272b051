//! The host's side of the bridge, as a state machine.
//!
//! A session carries one transaction at a time: a request is written, then
//! the length of the response is read, then its payload. `run`, `get` and
//! `eval` start a call and give the first action; `step` takes what came of
//! an action and gives the next one, until the action is the call's result.
//! The session performs no reads or writes itself.
//!
//! A transaction sends the text it is given, as it is, and returns the
//! payload of the response as text. `run` is a transaction of the statements
//! and a newline, whose text is dropped. `get` is a transaction of the name.
//! `eval` is two transactions: a run that assigns the expression to the
//! reserved name `_`, and a lookup of `_`.

use vstd::prelude::*;
use vstd::string::StringExecFns;
use vstd::utf8::encode_utf8;
use crate::codec::be_value;
use crate::codec::decode_len;
use crate::codec::parse_response;
use crate::codec::request;
use crate::codec::response_body;
use crate::codec::write_request;
use crate::codec::Mode;
use crate::codec::U64_SIZE;
use crate::error::Error;
use crate::error::ErrorView;
use crate::worker::Worker;
use crate::worker::WorkerPhase;

verus! {

/// The call that a session is carrying: what becomes of the text that the
/// transaction comes back with.
#[derive(Clone, Copy, PartialEq, Eq, Structural, Debug)]
pub enum Call {
    /// A transaction by itself: the text is the call's result.
    Transaction,
    /// A run: the text is dropped.
    Run,
    /// The first half of an evaluation: the text is dropped, and the
    /// lookup of `_` follows as a transaction.
    Eval,
}

/// The text that `run` sends for the statements `s`: the statements and a
/// newline.
pub open spec fn run_text(s: Seq<char>) -> Seq<char> {
    s.push('\n')
}

/// The statement that assigns the expression `s` to the reserved name.
pub open spec fn assign_text(s: Seq<char>) -> Seq<char> {
    seq!['_', ' ', '=', ' ', '('] + s + seq![')']
}

/// The reserved name that an evaluation assigns to and looks up.
pub open spec fn reserved_name() -> Seq<char> {
    seq!['_']
}

/// Where a session is in its transaction.
#[derive(Clone, Copy, PartialEq, Eq, Structural, Debug)]
pub enum HostPhase {
    /// No transaction is outstanding.
    Idle,
    /// The request is being written.
    Writing { call: Call },
    /// The length of the response is being read.
    AwaitingHeader { call: Call },
    /// The `len` bytes of the response's payload are being read.
    AwaitingBody { call: Call, len: usize },
    /// The channel has failed; the session cannot be used any more.
    Closed,
}

/// What came of the action that the session asked for.
#[derive(Debug, PartialEq, Eq)]
pub enum HostEvent {
    /// The bytes were written.
    Written,
    /// The bytes that were read.
    Bytes(Vec<u8>),
    /// The channel ended, or a read or write on it failed.
    Closed,
}

/// What the session asks for next.
#[derive(Debug, PartialEq, Eq)]
pub enum HostAction {
    /// Write these bytes to the channel.
    Write(Vec<u8>),
    /// Read exactly this many bytes from the channel.
    Read(usize),
    /// The call is over, with this result.
    Return(Result<String, Error>),
}

/// The mathematical value of a [`HostAction`].
pub enum HostActionView {
    Write(Seq<u8>),
    Read(usize),
    Return(Result<Seq<char>, ErrorView>),
}

impl View for HostAction {
    type V = HostActionView;

    open spec fn view(&self) -> HostActionView {
        match self {
            HostAction::Write(bytes) => HostActionView::Write(bytes@),
            HostAction::Read(n) => HostActionView::Read(*n),
            HostAction::Return(Ok(text)) => HostActionView::Return(Ok(text@)),
            HostAction::Return(Err(e)) => HostActionView::Return(Err(e@)),
        }
    }
}

/// The start of a transaction. An idle session writes the request: the
/// frame of the text as it was given, and the tag of the operation. A closed
/// session answers at once that the channel is closed, and asks for no read
/// or write. A session that is in the middle of a transaction is out of step
/// with its worker for good.
pub open spec fn host_begin(phase: HostPhase, text: Seq<char>, mode: Mode, call: Call) -> (
    HostPhase,
    HostActionView,
) {
    match phase {
        HostPhase::Idle => (
            HostPhase::Writing { call },
            HostActionView::Write(request(encode_utf8(text), mode)),
        ),
        HostPhase::Closed => (
            HostPhase::Closed,
            HostActionView::Return(Err(ErrorView::ChannelClosed)),
        ),
        _ => (HostPhase::Closed, HostActionView::Return(Err(ErrorView::ProtocolViolation))),
    }
}

/// The end of a session whose channel has failed.
pub open spec fn host_closed() -> (HostPhase, HostActionView) {
    (HostPhase::Closed, HostActionView::Return(Err(ErrorView::ChannelClosed)))
}

/// The end of a session that is out of step with its worker.
pub open spec fn host_violated() -> (HostPhase, HostActionView) {
    (HostPhase::Closed, HostActionView::Return(Err(ErrorView::ProtocolViolation)))
}

/// What a session does with the payload of a response. The text of a value
/// is the result of a transaction, is dropped by a run, and is followed by
/// the lookup of the reserved name in an evaluation. A failure of the runtime
/// ends the call and leaves the session idle. A payload that is not UTF-8
/// closes the session.
pub open spec fn host_finish(call: Call, payload: Seq<u8>) -> (HostPhase, HostActionView) {
    match response_body(payload) {
        Ok(text) => match call {
            Call::Transaction => (HostPhase::Idle, HostActionView::Return(Ok(text))),
            Call::Run => (HostPhase::Idle, HostActionView::Return(Ok(Seq::<char>::empty()))),
            Call::Eval => host_begin(
                HostPhase::Idle,
                reserved_name(),
                Mode::Get,
                Call::Transaction,
            ),
        },
        Err(ErrorView::Evaluation(message)) => (
            HostPhase::Idle,
            HostActionView::Return(Err(ErrorView::Evaluation(message))),
        ),
        Err(e) => (HostPhase::Closed, HostActionView::Return(Err(e))),
    }
}

/// The transaction: the phase that follows `phase` on `event`, and the
/// action that the session asks for.
pub open spec fn host_next(phase: HostPhase, event: HostEvent) -> (HostPhase, HostActionView) {
    match phase {
        HostPhase::Idle => host_violated(),
        HostPhase::Closed => host_closed(),
        HostPhase::Writing { call } => match event {
            HostEvent::Written => (
                HostPhase::AwaitingHeader { call },
                HostActionView::Read(U64_SIZE),
            ),
            HostEvent::Closed => host_closed(),
            HostEvent::Bytes(_) => host_violated(),
        },
        HostPhase::AwaitingHeader { call } => match event {
            HostEvent::Bytes(header) => if header@.len() != 8 {
                host_closed()
            } else if be_value(header@) <= usize::MAX {
                (
                    HostPhase::AwaitingBody { call, len: be_value(header@) as usize },
                    HostActionView::Read(be_value(header@) as usize),
                )
            } else {
                host_violated()
            },
            HostEvent::Closed => host_closed(),
            HostEvent::Written => host_violated(),
        },
        HostPhase::AwaitingBody { call, len } => match event {
            HostEvent::Bytes(payload) => if payload@.len() != len {
                host_closed()
            } else {
                host_finish(call, payload@)
            },
            HostEvent::Closed => host_closed(),
            HostEvent::Written => host_violated(),
        },
    }
}

/// The host's end of the bridge to one worker process.
#[derive(Debug)]
pub struct PyProc {
    child: i32,
    phase: HostPhase,
}

impl View for PyProc {
    type V = HostPhase;

    closed spec fn view(&self) -> HostPhase {
        self.phase
    }
}

/// The two processes that a spawn leaves behind, each with its part.
#[derive(Debug)]
pub enum Spawned {
    /// This is the host: the session with the new worker.
    Host(PyProc),
    /// This is the new worker process.
    Worker(Worker),
}

/// `fork::fork` of the crate fork: in the parent it gives the child's
/// process id, which is neither 0 nor -1; in the child it gives no id; when
/// no process could be made it gives the error code -1.
#[verifier::external_body]
fn fork_process() -> (r: Result<Option<i32>, i32>)
    ensures
        r matches Ok(Some(pid)) ==> pid != 0 && pid != -1,
        r matches Err(code) ==> code == -1,
{
    match fork::fork() {
        Ok(fork::Fork::Parent(pid)) => Ok(Some(pid)),
        Ok(fork::Fork::Child) => Ok(None),
        Err(code) => Err(code),
    }
}

impl Spawned {
    /// The part of this process after a fork: the host's session with the
    /// child whose id the fork gave, or the worker where it gave none; a
    /// failed fork is a spawn error with its code.
    pub fn from_fork(outcome: Result<Option<i32>, i32>) -> (r: Result<Spawned, Error>)
        ensures
            match outcome {
                Ok(Some(pid)) => r matches Ok(Spawned::Host(proc)) && proc@ == HostPhase::Idle
                    && proc.child_pid() == pid,
                Ok(None) => r matches Ok(Spawned::Worker(worker)) && worker@
                    == WorkerPhase::Created,
                Err(code) => r matches Err(e) && e@ == ErrorView::Spawn(code),
            },
    {
        match outcome {
            Ok(Some(pid)) => Ok(Spawned::Host(PyProc::attach(pid))),
            Ok(None) => Ok(Spawned::Worker(Worker::new())),
            Err(code) => Err(Error::Spawn(code)),
        }
    }
}

impl PyProc {
    /// The process id of the worker.
    pub closed spec fn child_pid(&self) -> i32 {
        self.child
    }

    /// Forks the process. The parent gets an idle session with the child;
    /// the child gets a worker that has not been started. The channels
    /// between the two are the caller's: they are made before the call, and
    /// each process closes the ends of the other afterwards.
    pub fn new() -> (r: Result<Spawned, Error>)
        ensures
            match r {
                Ok(Spawned::Host(proc)) => proc@ == HostPhase::Idle && proc.child_pid() != 0
                    && proc.child_pid() != -1,
                Ok(Spawned::Worker(worker)) => worker@ == WorkerPhase::Created,
                Err(e) => e@ == ErrorView::Spawn(-1i32),
            },
    {
        Spawned::from_fork(fork_process())
    }

    /// An idle session with the worker whose process id is `child`.
    pub fn attach(child: i32) -> (proc: PyProc)
        ensures
            proc@ == HostPhase::Idle,
            proc.child_pid() == child,
    {
        PyProc { child, phase: HostPhase::Idle }
    }

    /// The process id of the worker, for the one who is to end it.
    pub fn child(&self) -> (pid: i32)
        ensures
            pid == self.child_pid(),
    {
        self.child
    }

    /// The phase that the session is in.
    pub fn phase(&self) -> (phase: HostPhase)
        ensures
            phase == self@,
    {
        self.phase
    }

    /// Whether a channel was made, by the code that the operating system
    /// gave for making it: 0 is success, and anything else is a spawn error
    /// with that code.
    pub fn channel(code: i32) -> (r: Result<(), Error>)
        ensures
            match r {
                Ok(_) => code == 0,
                Err(e) => code != 0 && e@ == ErrorView::Spawn(code),
            },
    {
        if code == 0 {
            Ok(())
        } else {
            Err(Error::Spawn(code))
        }
    }

    fn begin(&mut self, text: &str, mode: Mode, call: Call) -> (action: HostAction)
        ensures
            (final(self)@, action@) == host_begin(old(self)@, text@, mode, call),
            final(self).child_pid() == old(self).child_pid(),
    {
        match self.phase {
            HostPhase::Idle => {
                let mut bytes: Vec<u8> = Vec::new();
                write_request(&mut bytes, text.as_bytes(), mode);
                self.phase = HostPhase::Writing { call };
                HostAction::Write(bytes)
            },
            HostPhase::Closed => HostAction::Return(Err(Error::ChannelClosed)),
            _ => {
                self.phase = HostPhase::Closed;
                HostAction::Return(Err(Error::ProtocolViolation))
            },
        }
    }

    /// Starts a transaction: the request of `mode` on `text`, as it is. The
    /// call's result is the payload of the response, as text.
    pub fn transaction(&mut self, text: &str, mode: Mode) -> (action: HostAction)
        ensures
            (final(self)@, action@) == host_begin(old(self)@, text@, mode, Call::Transaction),
            final(self).child_pid() == old(self).child_pid(),
    {
        self.begin(text, mode, Call::Transaction)
    }

    /// Starts the execution of `s` as statements: a transaction of `s` and
    /// a newline. The call's result holds no text.
    pub fn run(&mut self, s: &str) -> (action: HostAction)
        ensures
            (final(self)@, action@) == host_begin(
                old(self)@,
                run_text(s@),
                Mode::Run,
                Call::Run,
            ),
            final(self).child_pid() == old(self).child_pid(),
    {
        proof {
            reveal_strlit("\n");
        }
        let text = String::from_str(s).concat("\n");
        assert(text@ =~= run_text(s@));
        self.begin(text.as_str(), Mode::Run, Call::Run)
    }

    /// Starts the lookup of the name `s`: a transaction of `s`. The call's
    /// result is the string form of what the name is bound to.
    pub fn get(&mut self, s: &str) -> (action: HostAction)
        ensures
            (final(self)@, action@) == host_begin(old(self)@, s@, Mode::Get, Call::Transaction),
            final(self).child_pid() == old(self).child_pid(),
    {
        self.transaction(s, Mode::Get)
    }

    /// Starts the evaluation of the expression `s`: a run of the statement
    /// that assigns `s` to the reserved name, which is then looked up. The
    /// call's result is the string form of the value of `s`.
    pub fn eval(&mut self, s: &str) -> (action: HostAction)
        ensures
            (final(self)@, action@) == host_begin(
                old(self)@,
                run_text(assign_text(s@)),
                Mode::Run,
                Call::Eval,
            ),
            final(self).child_pid() == old(self).child_pid(),
    {
        proof {
            reveal_strlit("_ = (");
            reveal_strlit(")\n");
        }
        let text = String::from_str("_ = (").concat(s).concat(")\n");
        assert(text@ =~= run_text(assign_text(s@)));
        self.begin(text.as_str(), Mode::Run, Call::Eval)
    }

    fn closed(&mut self) -> (action: HostAction)
        ensures
            (final(self)@, action@) == host_closed(),
            final(self).child_pid() == old(self).child_pid(),
    {
        self.phase = HostPhase::Closed;
        HostAction::Return(Err(Error::ChannelClosed))
    }

    fn violated(&mut self) -> (action: HostAction)
        ensures
            (final(self)@, action@) == host_violated(),
            final(self).child_pid() == old(self).child_pid(),
    {
        self.phase = HostPhase::Closed;
        HostAction::Return(Err(Error::ProtocolViolation))
    }

    fn finish(&mut self, call: Call, payload: Vec<u8>) -> (action: HostAction)
        ensures
            (final(self)@, action@) == host_finish(call, payload@),
            final(self).child_pid() == old(self).child_pid(),
    {
        match parse_response(payload) {
            Ok(text) => {
                self.phase = HostPhase::Idle;
                match call {
                    Call::Transaction => HostAction::Return(Ok(text)),
                    Call::Run => HostAction::Return(Ok(String::new())),
                    Call::Eval => {
                        proof {
                            reveal_strlit("_");
                        }
                        assert("_"@ =~= reserved_name());
                        self.transaction("_", Mode::Get)
                    },
                }
            },
            Err(Error::Evaluation(message)) => {
                self.phase = HostPhase::Idle;
                HostAction::Return(Err(Error::Evaluation(message)))
            },
            Err(e) => {
                self.phase = HostPhase::Closed;
                HostAction::Return(Err(e))
            },
        }
    }

    /// Takes the event that came of the last action and gives the next
    /// action.
    pub fn step(&mut self, event: HostEvent) -> (action: HostAction)
        ensures
            (final(self)@, action@) == host_next(old(self)@, event),
            final(self).child_pid() == old(self).child_pid(),
    {
        let phase = self.phase;
        match phase {
            HostPhase::Idle => self.violated(),
            HostPhase::Closed => self.closed(),
            HostPhase::Writing { call } => match event {
                HostEvent::Written => {
                    self.phase = HostPhase::AwaitingHeader { call };
                    HostAction::Read(U64_SIZE)
                },
                HostEvent::Closed => self.closed(),
                HostEvent::Bytes(_) => self.violated(),
            },
            HostPhase::AwaitingHeader { call } => match event {
                HostEvent::Bytes(header) => {
                    match decode_len(header.as_slice()) {
                        None => self.closed(),
                        Some(n) => {
                            if n <= usize::MAX as u64 {
                                let len: usize = n as usize;
                                self.phase = HostPhase::AwaitingBody { call, len };
                                HostAction::Read(len)
                            } else {
                                self.violated()
                            }
                        },
                    }
                },
                HostEvent::Closed => self.closed(),
                HostEvent::Written => self.violated(),
            },
            HostPhase::AwaitingBody { call, len } => match event {
                HostEvent::Bytes(payload) => {
                    if payload.len() != len {
                        self.closed()
                    } else {
                        self.finish(call, payload)
                    }
                },
                HostEvent::Closed => self.closed(),
                HostEvent::Written => self.violated(),
            },
        }
    }
}

} // verus!
