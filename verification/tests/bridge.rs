use std::collections::VecDeque;

use pyproc::codec::{write_frame, write_request, write_response, Mode, Status};
use pyproc::error::Error;
use pyproc::host::{Call, HostAction, HostEvent, HostPhase, PyProc, Spawned};
use pyproc::worker::{
    failure_message, stringify_message, Unprintable, Worker, WorkerAction, WorkerEvent,
    WorkerPhase, EXIT_FAILURE,
};

/// A session and its worker, joined by two byte queues, with a runtime that
/// answers each call from a list: the address it returns, and the string
/// form that it gives for that address.
struct Bridge {
    host: PyProc,
    worker: Worker,
    to_worker: VecDeque<u8>,
    to_host: VecDeque<u8>,
    pending: Option<usize>,
    answers: VecDeque<(usize, Result<&'static str, Unprintable>)>,
    form: Result<&'static str, Unprintable>,
    calls: Vec<String>,
    released: Vec<usize>,
    exited: Option<i32>,
    killed: bool,
}

impl Bridge {
    fn new(answers: &[(usize, Result<&'static str, Unprintable>)]) -> Bridge {
        let mut bridge = Bridge {
            host: PyProc::attach(4711),
            worker: Worker::new(),
            to_worker: VecDeque::new(),
            to_host: VecDeque::new(),
            pending: None,
            answers: answers.iter().copied().collect(),
            form: Err(Unprintable::NoForm),
            calls: Vec::new(),
            released: Vec::new(),
            exited: None,
            killed: false,
        };
        let first = bridge.worker.step(WorkerEvent::Started);
        bridge.work(first);
        bridge
    }

    /// Performs the worker's actions until it waits for bytes or exits.
    fn work(&mut self, first: WorkerAction) {
        let mut action = first;
        loop {
            let event = match action {
                WorkerAction::Read(n) => {
                    self.pending = Some(n);
                    return;
                }
                WorkerAction::Exit(code) => {
                    self.exited = Some(code);
                    self.pending = None;
                    return;
                }
                WorkerAction::Execute(text) => {
                    self.calls.push(format!("execute:{text}"));
                    let (p, form) = self.answers.pop_front().unwrap_or((0, Err(Unprintable::NoForm)));
                    self.form = form;
                    WorkerEvent::Handle(p)
                }
                WorkerAction::Lookup(name) => {
                    self.calls.push(format!("lookup:{name}"));
                    let (p, form) = self.answers.pop_front().unwrap_or((0, Err(Unprintable::NoForm)));
                    self.form = form;
                    WorkerEvent::Handle(p)
                }
                WorkerAction::Stringify(_) => WorkerEvent::Text(self.form.map(|s| s.to_string())),
                WorkerAction::Release(p) => {
                    self.released.push(p);
                    WorkerEvent::Released
                }
                WorkerAction::Write(bytes) => {
                    self.to_host.extend(bytes);
                    WorkerEvent::Written
                }
            };
            action = self.worker.step(event);
        }
    }

    /// Hands the worker the bytes it waits for, as far as they are there.
    fn pump(&mut self) {
        while let Some(n) = self.pending {
            if self.to_worker.len() < n {
                return;
            }
            let bytes: Vec<u8> = self.to_worker.drain(..n).collect();
            self.pending = None;
            let action = self.worker.step(WorkerEvent::Bytes(bytes));
            self.work(action);
        }
    }

    /// Performs the session's actions until the call returns.
    fn call(&mut self, first: HostAction) -> Result<String, Error> {
        let mut action = first;
        loop {
            let event = match action {
                HostAction::Return(result) => return result,
                HostAction::Write(bytes) => {
                    if self.killed || self.exited.is_some() {
                        HostEvent::Closed
                    } else {
                        self.to_worker.extend(bytes);
                        self.pump();
                        HostEvent::Written
                    }
                }
                HostAction::Read(n) => {
                    if self.to_host.len() < n {
                        HostEvent::Closed
                    } else {
                        HostEvent::Bytes(self.to_host.drain(..n).collect())
                    }
                }
            };
            action = self.host.step(event);
        }
    }

    fn run(&mut self, s: &str) -> Result<(), Error> {
        let first = self.host.run(s);
        self.call(first).map(|_| ())
    }

    fn get(&mut self, s: &str) -> Result<String, Error> {
        let first = self.host.get(s);
        self.call(first)
    }

    fn eval(&mut self, s: &str) -> Result<String, Error> {
        let first = self.host.eval(s);
        self.call(first)
    }
}

fn request_bytes(text: &str, mode: Mode) -> Vec<u8> {
    let mut bytes = Vec::new();
    write_request(&mut bytes, text.as_bytes(), mode);
    bytes
}

fn response_bytes(status: Status, text: &str) -> Vec<u8> {
    let mut bytes = Vec::new();
    write_response(&mut bytes, status, text);
    bytes
}

#[test]
fn it_works() {
    let mut bridge = Bridge::new(&[(0x10, Ok("None")), (0x20, Ok("4"))]);
    let result = bridge.eval("2 + 2").unwrap();
    assert_eq!(result, "4");
}

#[test]
fn eval_one_plus_one() {
    let mut bridge = Bridge::new(&[(0x10, Ok("None")), (0x20, Ok("2"))]);
    assert_eq!(bridge.eval("1+1"), Ok("2".to_string()));
    assert_eq!(bridge.calls, vec!["execute:_ = (1+1)\n", "lookup:_"]);
    assert_eq!(bridge.host.phase(), HostPhase::Idle);
}

#[test]
fn eval_string_is_quoted() {
    let mut bridge = Bridge::new(&[(0x10, Ok("None")), (0x20, Ok("'abc'"))]);
    assert_eq!(bridge.eval("'abc'"), Ok("'abc'".to_string()));
    assert_eq!(bridge.calls, vec!["execute:_ = ('abc')\n", "lookup:_"]);
}

#[test]
fn eval_is_two_transactions() {
    let mut bridge = Bridge::new(&[]);
    let first = bridge.host.eval("x");
    assert_eq!(first, HostAction::Write(request_bytes("_ = (x)\n", Mode::Run)));
    assert_eq!(bridge.host.phase(), HostPhase::Writing { call: Call::Eval });
    assert_eq!(bridge.host.step(HostEvent::Written), HostAction::Read(8));
    let answer = response_bytes(Status::Value, "None");
    assert_eq!(
        bridge.host.step(HostEvent::Bytes(answer[..8].to_vec())),
        HostAction::Read(4)
    );
    let second = bridge.host.step(HostEvent::Bytes(answer[8..].to_vec()));
    assert_eq!(second, HostAction::Write(request_bytes("_", Mode::Get)));
    assert_eq!(bridge.host.phase(), HostPhase::Writing { call: Call::Transaction });
}

#[test]
fn eval_stops_at_a_failed_assignment() {
    let mut bridge = Bridge::new(&[(0, Err(Unprintable::NoForm)), (0x20, Ok("stale"))]);
    assert_eq!(
        bridge.eval("1 +"),
        Err(Error::Evaluation(failure_message(Mode::Run).to_string()))
    );
    assert_eq!(bridge.calls, vec!["execute:_ = (1 +)\n"]);
    assert_eq!(bridge.host.phase(), HostPhase::Idle);
}

#[test]
fn run_ends_statements_with_a_newline() {
    let mut bridge = Bridge::new(&[]);
    assert_eq!(
        bridge.host.run("a = 2"),
        HostAction::Write(request_bytes("a = 2\n", Mode::Run))
    );
    let mut bridge = Bridge::new(&[]);
    assert_eq!(bridge.host.get("a"), HostAction::Write(request_bytes("a", Mode::Get)));
}

#[test]
fn run_drops_the_text() {
    let mut bridge = Bridge::new(&[(0x10, Ok("None"))]);
    let first = bridge.host.run("a = 2");
    assert_eq!(bridge.call(first), Ok(String::new()));
    assert_eq!(bridge.calls, vec!["execute:a = 2\n"]);
}

#[test]
fn run_then_get_returns_the_bound_value() {
    let mut bridge = Bridge::new(&[(0x10, Ok("None")), (0x20, Ok("'hello'"))]);
    assert_eq!(bridge.run("greeting = 'hello'"), Ok(()));
    assert_eq!(bridge.get("greeting"), Ok("'hello'".to_string()));
    assert_eq!(bridge.calls, vec!["execute:greeting = 'hello'\n", "lookup:greeting"]);
}

#[test]
fn get_is_idempotent() {
    let mut bridge = Bridge::new(&[(0x20, Ok("2")), (0x20, Ok("2")), (0x20, Ok("2"))]);
    let first = bridge.host.get("a");
    let again = PyProc::attach(4711).get("a");
    assert_eq!(first, again);
    let one = bridge.call(first);
    assert_eq!(bridge.host.phase(), HostPhase::Idle);
    assert_eq!(bridge.worker.phase(), WorkerPhase::AwaitingHeader);
    let two = bridge.get("a");
    let three = bridge.get("a");
    assert_eq!(one, Ok("2".to_string()));
    assert_eq!(one, two);
    assert_eq!(two, three);
    assert_eq!(bridge.calls, vec!["lookup:a", "lookup:a", "lookup:a"]);
}

#[test]
fn transactions_keep_their_order() {
    let mut bridge =
        Bridge::new(&[(0x10, Ok("None")), (0x11, Ok("None")), (0x20, Ok("2"))]);
    assert_eq!(bridge.run("a = 1"), Ok(()));
    assert_eq!(bridge.run("a = a + 1"), Ok(()));
    assert_eq!(bridge.get("a"), Ok("2".to_string()));
    assert_eq!(
        bridge.calls,
        vec!["execute:a = 1\n", "execute:a = a + 1\n", "lookup:a"]
    );
    assert_eq!(bridge.released, vec![0x10, 0x11, 0x20]);
}

#[test]
fn define_then_eval() {
    let mut bridge =
        Bridge::new(&[(0x10, Ok("None")), (0x11, Ok("None")), (0x20, Ok("1"))]);
    assert_eq!(bridge.run("def foo():\n    return 1\n"), Ok(()));
    assert_eq!(bridge.eval("foo()"), Ok("1".to_string()));
    assert_eq!(
        bridge.calls,
        vec!["execute:def foo():\n    return 1\n\n", "execute:_ = (foo())\n", "lookup:_"]
    );
}

#[test]
fn undefined_name_is_an_evaluation_error() {
    let mut bridge = Bridge::new(&[(0, Err(Unprintable::NoForm)), (0x20, Ok("3"))]);
    let result = bridge.get("does_not_exist");
    assert_eq!(result, Err(Error::Evaluation("Name is not defined".to_string())));
    assert!(result.unwrap_err().is_recoverable());
    assert_eq!(bridge.exited, None);
    assert_eq!(bridge.host.phase(), HostPhase::Idle);
    assert_eq!(bridge.worker.phase(), WorkerPhase::AwaitingHeader);
    assert_eq!(bridge.get("b"), Ok("3".to_string()));
    assert_eq!(bridge.released, vec![0x20]);
}

#[test]
fn failed_statements_are_an_evaluation_error() {
    let mut bridge = Bridge::new(&[(0, Err(Unprintable::NoForm)), (0x10, Ok("None"))]);
    assert_eq!(
        bridge.run("raise ValueError"),
        Err(Error::Evaluation("Failed to run statements".to_string()))
    );
    assert_eq!(bridge.run("a = 1"), Ok(()));
}

#[test]
fn failed_stringify_is_an_evaluation_error() {
    let mut bridge = Bridge::new(&[(0x30, Err(Unprintable::NoForm)), (0x20, Ok("1"))]);
    assert_eq!(
        bridge.get("a"),
        Err(Error::Evaluation(stringify_message(Unprintable::NoForm).to_string()))
    );
    assert_eq!(stringify_message(Unprintable::NoForm), "Failed to str object");
    assert_eq!(bridge.released, vec![0x30]);
    assert_eq!(bridge.get("a"), Ok("1".to_string()));
    assert_eq!(bridge.released, vec![0x30, 0x20]);
}

#[test]
fn killed_worker_is_a_closed_channel() {
    let mut bridge = Bridge::new(&[(0x10, Ok("None"))]);
    assert_eq!(bridge.run("a = 1"), Ok(()));
    bridge.killed = true;
    assert_eq!(bridge.run("a = 2"), Err(Error::ChannelClosed));
    assert_eq!(bridge.host.phase(), HostPhase::Closed);
    assert_eq!(bridge.calls, vec!["execute:a = 1\n"]);
}

#[test]
fn closed_session_answers_at_once() {
    let mut host = PyProc::attach(1);
    assert!(matches!(host.run("a = 1"), HostAction::Write(_)));
    assert_eq!(host.step(HostEvent::Closed), HostAction::Return(Err(Error::ChannelClosed)));
    assert_eq!(host.phase(), HostPhase::Closed);
    assert_eq!(host.run("a = 1"), HostAction::Return(Err(Error::ChannelClosed)));
    assert_eq!(host.get("a"), HostAction::Return(Err(Error::ChannelClosed)));
    assert_eq!(host.eval("a"), HostAction::Return(Err(Error::ChannelClosed)));
    assert_eq!(host.step(HostEvent::Written), HostAction::Return(Err(Error::ChannelClosed)));
    assert_eq!(host.phase(), HostPhase::Closed);
}

#[test]
fn worker_that_died_mid_answer_is_a_closed_channel() {
    let mut host = PyProc::attach(1);
    let _ = host.get("a");
    assert_eq!(host.step(HostEvent::Written), HostAction::Read(8));
    assert_eq!(
        host.step(HostEvent::Bytes(vec![0, 0, 0, 0, 0, 0, 0, 4])),
        HostAction::Read(4)
    );
    assert_eq!(host.phase(), HostPhase::AwaitingBody { call: Call::Transaction, len: 4 });
    assert_eq!(
        host.step(HostEvent::Bytes(vec![b'1', b'2'])),
        HostAction::Return(Err(Error::ChannelClosed))
    );
    assert_eq!(host.phase(), HostPhase::Closed);

    let mut host = PyProc::attach(1);
    let _ = host.get("a");
    let _ = host.step(HostEvent::Written);
    assert_eq!(
        host.step(HostEvent::Bytes(vec![0, 0, 0])),
        HostAction::Return(Err(Error::ChannelClosed))
    );
}

#[test]
fn malformed_answer_is_a_violation() {
    for payload in [vec![0xfeu8, b'a'], vec![b'a', 0xff], vec![0xffu8, 0x80]] {
        let mut host = PyProc::attach(1);
        let _ = host.get("a");
        let _ = host.step(HostEvent::Written);
        let mut answer = Vec::new();
        write_frame(&mut answer, &payload);
        assert_eq!(
            host.step(HostEvent::Bytes(answer[..8].to_vec())),
            HostAction::Read(payload.len())
        );
        assert_eq!(
            host.step(HostEvent::Bytes(answer[8..].to_vec())),
            HostAction::Return(Err(Error::ProtocolViolation))
        );
        assert_eq!(host.phase(), HostPhase::Closed);
    }
}

#[test]
fn empty_answer_is_the_empty_text() {
    let mut host = PyProc::attach(1);
    assert_eq!(
        host.transaction("", Mode::Get),
        HostAction::Write(vec![0, 0, 0, 0, 0, 0, 0, 0, 1])
    );
    assert_eq!(host.step(HostEvent::Written), HostAction::Read(8));
    assert_eq!(host.step(HostEvent::Bytes(vec![0; 8])), HostAction::Read(0));
    assert_eq!(
        host.step(HostEvent::Bytes(Vec::new())),
        HostAction::Return(Ok(String::new()))
    );
    assert_eq!(host.phase(), HostPhase::Idle);
}

#[test]
fn transaction_sends_the_text_as_it_is() {
    let mut host = PyProc::attach(1);
    assert_eq!(
        host.transaction("\u{e9}", Mode::Run),
        HostAction::Write(vec![0, 0, 0, 0, 0, 0, 0, 2, 0xc3, 0xa9, 0])
    );
    assert_eq!(host.phase(), HostPhase::Writing { call: Call::Transaction });
    let _ = host.step(HostEvent::Written);
    let _ = host.step(HostEvent::Bytes(vec![0; 8]));
    assert_eq!(
        host.step(HostEvent::Bytes(Vec::new())),
        HostAction::Return(Ok(String::new()))
    );

    let mut host = PyProc::attach(1);
    assert_eq!(
        host.transaction("ab", Mode::Run),
        HostAction::Write(vec![0, 0, 0, 0, 0, 0, 0, 2, b'a', b'b', 0])
    );
    let mut host = PyProc::attach(1);
    assert_eq!(
        host.run("ab"),
        HostAction::Write(vec![0, 0, 0, 0, 0, 0, 0, 3, b'a', b'b', b'\n', 0])
    );
}

#[test]
fn transaction_returns_the_payload_as_text() {
    let mut host = PyProc::attach(1);
    assert_eq!(
        host.transaction("_", Mode::Get),
        HostAction::Write(vec![0, 0, 0, 0, 0, 0, 0, 1, 0x5f, 0x01])
    );
    assert_eq!(host.step(HostEvent::Written), HostAction::Read(8));
    assert_eq!(
        host.step(HostEvent::Bytes(vec![0, 0, 0, 0, 0, 0, 0, 1])),
        HostAction::Read(1)
    );
    assert_eq!(
        host.step(HostEvent::Bytes(vec![0x32])),
        HostAction::Return(Ok("2".to_string()))
    );
    assert_eq!(host.phase(), HostPhase::Idle);

    assert_eq!(
        host.get("a"),
        HostAction::Write(vec![0, 0, 0, 0, 0, 0, 0, 1, 0x61, 0x01])
    );
    let _ = host.step(HostEvent::Written);
    let _ = host.step(HostEvent::Bytes(vec![0, 0, 0, 0, 0, 0, 0, 1]));
    assert_eq!(
        host.step(HostEvent::Bytes(vec![0x37])),
        HostAction::Return(Ok("7".to_string()))
    );
    assert_eq!(host.phase(), HostPhase::Idle);
}

#[test]
fn text_that_is_not_utf8_has_its_own_message() {
    let mut bridge = Bridge::new(&[(0x30, Err(Unprintable::NotUtf8)), (0x20, Ok("1"))]);
    assert_eq!(
        bridge.get("a"),
        Err(Error::Evaluation("Failed to convert to UTF8 String".to_string()))
    );
    assert_eq!(bridge.released, vec![0x30]);
    assert_eq!(bridge.get("a"), Ok("1".to_string()));
}

#[test]
fn worker_without_a_session_exits() {
    let mut worker = Worker::new();
    assert_eq!(worker.step(WorkerEvent::Failed), WorkerAction::Exit(EXIT_FAILURE));
    assert!(worker.is_stopped());
}

#[test]
fn channel_that_was_not_made_is_a_spawn_error() {
    assert_eq!(PyProc::channel(0), Ok(()));
    assert_eq!(PyProc::channel(-1), Err(Error::Spawn(-1)));
    assert_eq!(PyProc::channel(24), Err(Error::Spawn(24)));
}

#[test]
fn one_transaction_at_a_time() {
    let mut host = PyProc::attach(1);
    let _ = host.run("a = 1");
    assert_eq!(host.get("a"), HostAction::Return(Err(Error::ProtocolViolation)));
    assert_eq!(host.phase(), HostPhase::Closed);

    let mut host = PyProc::attach(1);
    assert_eq!(host.step(HostEvent::Written), HostAction::Return(Err(Error::ProtocolViolation)));
    assert_eq!(host.phase(), HostPhase::Closed);

    let mut host = PyProc::attach(1);
    let _ = host.run("a = 1");
    assert_eq!(
        host.step(HostEvent::Bytes(vec![0; 8])),
        HostAction::Return(Err(Error::ProtocolViolation))
    );
}

#[test]
fn worker_reads_header_then_payload_and_tag() {
    let mut worker = Worker::new();
    assert_eq!(worker.phase(), WorkerPhase::Created);
    assert_eq!(worker.step(WorkerEvent::Started), WorkerAction::Read(8));
    assert_eq!(worker.phase(), WorkerPhase::AwaitingHeader);
    let bytes = request_bytes("a = 1\n", Mode::Run);
    assert_eq!(worker.step(WorkerEvent::Bytes(bytes[..8].to_vec())), WorkerAction::Read(7));
    assert_eq!(worker.phase(), WorkerPhase::AwaitingBody { len: 7 });
    assert_eq!(
        worker.step(WorkerEvent::Bytes(bytes[8..].to_vec())),
        WorkerAction::Execute("a = 1\n".to_string())
    );
    assert_eq!(worker.phase(), WorkerPhase::Calling { mode: Mode::Run });
    assert_eq!(worker.step(WorkerEvent::Handle(0x10)), WorkerAction::Stringify(0x10));
    assert_eq!(worker.phase(), WorkerPhase::Stringifying { held: 0x10 });
    assert_eq!(
        worker.step(WorkerEvent::Text(Ok("None".to_string()))),
        WorkerAction::Write(response_bytes(Status::Value, "None"))
    );
    assert_eq!(worker.phase(), WorkerPhase::Replying { owned: Some(0x10) });
    assert_eq!(worker.step(WorkerEvent::Written), WorkerAction::Release(0x10));
    assert_eq!(worker.phase(), WorkerPhase::Releasing { exit: false });
    assert_eq!(worker.step(WorkerEvent::Released), WorkerAction::Read(8));
    assert_eq!(worker.phase(), WorkerPhase::AwaitingHeader);
}

#[test]
fn worker_exits_on_an_unknown_tag() {
    let mut bridge = Bridge::new(&[]);
    let mut bytes = Vec::new();
    write_frame(&mut bytes, b"a");
    bytes.push(2);
    bridge.to_worker.extend(bytes);
    bridge.pump();
    assert_eq!(bridge.exited, Some(EXIT_FAILURE));
    assert_eq!(EXIT_FAILURE, 1);
    assert!(bridge.worker.is_stopped());
    assert!(bridge.calls.is_empty());
    assert_eq!(bridge.run("a = 1"), Err(Error::ChannelClosed));
}

#[test]
fn worker_exits_on_text_that_is_not_utf8() {
    let mut bridge = Bridge::new(&[]);
    let mut bytes = Vec::new();
    write_request(&mut bytes, &[0xff, 0xfe], Mode::Run);
    bridge.to_worker.extend(bytes);
    bridge.pump();
    assert_eq!(bridge.exited, Some(1));
    assert!(bridge.calls.is_empty());
}

#[test]
fn worker_exits_on_a_closed_channel() {
    let mut worker = Worker::new();
    let _ = worker.step(WorkerEvent::Started);
    assert_eq!(worker.step(WorkerEvent::Closed), WorkerAction::Exit(1));
    assert!(worker.is_stopped());
    assert_eq!(worker.step(WorkerEvent::Started), WorkerAction::Exit(1));

    let mut worker = Worker::new();
    let _ = worker.step(WorkerEvent::Started);
    assert_eq!(worker.step(WorkerEvent::Bytes(vec![0; 5])), WorkerAction::Exit(1));

    let mut worker = Worker::new();
    let _ = worker.step(WorkerEvent::Started);
    let _ = worker.step(WorkerEvent::Bytes(vec![0, 0, 0, 0, 0, 0, 0, 3]));
    assert_eq!(worker.step(WorkerEvent::Bytes(vec![b'a', 1])), WorkerAction::Exit(1));
}

#[test]
fn worker_exits_on_a_length_beyond_memory() {
    let mut worker = Worker::new();
    let _ = worker.step(WorkerEvent::Started);
    assert_eq!(worker.step(WorkerEvent::Bytes(vec![0xff; 8])), WorkerAction::Exit(1));
}

#[test]
fn worker_releases_before_it_exits() {
    let mut worker = Worker::new();
    let _ = worker.step(WorkerEvent::Started);
    let bytes = request_bytes("a", Mode::Get);
    let _ = worker.step(WorkerEvent::Bytes(bytes[..8].to_vec()));
    assert_eq!(
        worker.step(WorkerEvent::Bytes(bytes[8..].to_vec())),
        WorkerAction::Lookup("a".to_string())
    );
    assert_eq!(worker.step(WorkerEvent::Handle(0x40)), WorkerAction::Stringify(0x40));
    let _ = worker.step(WorkerEvent::Text(Ok("1".to_string())));
    assert_eq!(worker.step(WorkerEvent::Closed), WorkerAction::Release(0x40));
    assert_eq!(worker.phase(), WorkerPhase::Releasing { exit: true });
    assert_eq!(worker.step(WorkerEvent::Released), WorkerAction::Exit(1));
    assert!(worker.is_stopped());
}

#[test]
fn fork_in_the_parent_gives_a_session() {
    match Spawned::from_fork(Ok(Some(4711))) {
        Ok(Spawned::Host(host)) => {
            assert_eq!(host.child(), 4711);
            assert_eq!(host.phase(), HostPhase::Idle);
        }
        other => panic!("not a session: {other:?}"),
    }
}

#[test]
fn fork_in_the_child_gives_a_worker() {
    match Spawned::from_fork(Ok(None)) {
        Ok(Spawned::Worker(worker)) => assert_eq!(worker.phase(), WorkerPhase::Created),
        other => panic!("not a worker: {other:?}"),
    }
}

#[test]
fn failed_fork_is_a_spawn_error() {
    match Spawned::from_fork(Err(-1)) {
        Err(e) => assert_eq!(e, Error::Spawn(-1)),
        other => panic!("not an error: {other:?}"),
    }
}

#[test]
fn get_is_a_transaction_of_the_name() {
    let mut one = PyProc::attach(1);
    let mut two = PyProc::attach(1);
    assert_eq!(one.get("name"), two.transaction("name", Mode::Get));
    assert_eq!(one.phase(), two.phase());
    assert_eq!(one.phase(), HostPhase::Writing { call: Call::Transaction });
    let mut three = PyProc::attach(1);
    let _ = three.run("x");
    assert_eq!(three.phase(), HostPhase::Writing { call: Call::Run });
}
