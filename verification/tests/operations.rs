use async_io::accept::{incoming_item, AcceptAction, AcceptEvent, Accepting};
use async_io::connect::{Check, Checked, ConnectAction, ConnectEvent, Connecting, Transport};
use async_io::error::{settle, Error, ErrorKind};
use async_io::fairness::{maybe_yield, yield_on, Yield, YIELD_ONE_IN};
use async_io::handle::{Async, RawHandle, Source};
use async_io::optimistic::{Optimistic, OptimisticPoll};
use async_io::poll_io::{Operation, PollAction, PollEvent, PollIo};
use async_io::retry::{Direction, LoopKind, Retry, RetryAction, RetryEvent};

type Outcome = Result<usize, Error<&'static str>>;

fn blocked() -> Outcome {
    Err(Error {
        kind: ErrorKind::WouldBlock,
        error: "would block",
    })
}

fn failed() -> Outcome {
    Err(Error {
        kind: ErrorKind::Other,
        error: "reset",
    })
}

fn source(fd: i32) -> Source {
    Source {
        raw: RawHandle::Fd(fd),
    }
}

#[test]
fn only_blocking_is_not_final() {
    assert_eq!(settle(Ok::<usize, Error<&str>>(3)), Some(Ok(3)));
    assert_eq!(settle(failed()), Some(Err("reset")));
    assert_eq!(settle(blocked()), None);
}

#[test]
fn one_draw_yields() {
    assert_eq!(yield_on(0), Yield::Now);
    for draw in 1..YIELD_ONE_IN {
        assert_eq!(yield_on(draw), Yield::Not);
    }
}

#[test]
fn yields_with_small_probability() {
    let mut yields = 0;
    for _ in 0..100_000 {
        if maybe_yield() == Yield::Now {
            yields += 1;
        }
    }
    assert!(yields > 500, "{}", yields);
    assert!(yields < 2_000, "{}", yields);
}

#[test]
fn inner_future_is_polled_once() {
    let mut wait = Optimistic::new();
    assert!(matches!(
        wait.poll::<&str>(),
        OptimisticPoll::PollInner
    ));
    for _ in 0..3 {
        assert!(matches!(
            wait.poll::<&str>(),
            OptimisticPoll::Ready(Ok(()))
        ));
    }
}

#[test]
fn handle_is_registered() {
    let mut handle = Async::new(7, Ok::<Source, &str>(source(3))).unwrap();
    assert_eq!(handle.source(), source(3));
    assert_eq!(*handle.get_ref(), 7);
    *handle.get_mut() = 8;
    assert_eq!(*handle.get_ref(), 8);
    assert_eq!(handle.source(), source(3));
}

#[test]
fn failed_registration_is_returned() {
    let handle = Async::new(7, Err::<Source, &str>("full"));
    assert_eq!(handle.err(), Some("full"));
}

#[test]
fn socket_is_registered() {
    let socket = Source {
        raw: RawHandle::Socket(u64::MAX),
    };
    let handle = Async::new("socket", Ok::<Source, &str>(socket)).unwrap();
    assert_eq!(handle.source().raw, RawHandle::Socket(u64::MAX));
}

#[test]
fn source_is_deregistered_once() {
    let mut handle = Async::new("io", Ok::<Source, &str>(source(4))).unwrap();
    let detached = handle.detach().unwrap();
    assert_eq!(detached.source, source(4));
    assert_eq!(detached.into_inner(Ok::<(), &str>(())), Ok("io"));
    assert!(handle.detach().is_none());
    assert!(handle.detach().is_none());
}

#[test]
fn failed_deregistration_is_returned() {
    let mut handle = Async::new("io", Ok::<Source, &str>(source(4))).unwrap();
    let detached = handle.detach().unwrap();
    assert_eq!(detached.into_inner(Err("gone")), Err("gone"));
}

#[test]
fn loops_wait_for_their_direction() {
    assert_eq!(LoopKind::ReadWith.direction(), Direction::Read);
    assert_eq!(LoopKind::ReadWithMut.direction(), Direction::Read);
    assert_eq!(LoopKind::WriteWith.direction(), Direction::Write);
    assert_eq!(LoopKind::WriteWithMut.direction(), Direction::Write);
}

#[test]
fn transports_have_their_check() {
    assert_eq!(Transport::Tcp.check(), Check::TakeError);
    assert_eq!(Transport::Unix.check(), Check::PeerAddr);
}

#[test]
fn operation_is_repeated_until_it_succeeds() {
    let mut retry = Retry::new(Direction::Read);
    let start: RetryAction<usize, &str> = retry.step(RetryEvent::Polled);
    assert!(matches!(start, RetryAction::Decide));
    for readiness in [None, Some(Ok(()))] {
        let action: RetryAction<usize, &str> = retry.step(RetryEvent::Decided(Yield::Not));
        assert!(matches!(action, RetryAction::Attempt));
        let action = retry.step(RetryEvent::Attempted(blocked()));
        assert!(matches!(action, RetryAction::Look(Direction::Read)));
        let waits = readiness.is_none();
        let action: RetryAction<usize, &str> = retry.step(RetryEvent::Looked(readiness));
        if waits {
            assert!(matches!(action, RetryAction::Suspend));
            let action: RetryAction<usize, &str> = retry.step(RetryEvent::Polled);
            assert!(matches!(action, RetryAction::Decide));
        } else {
            assert!(matches!(action, RetryAction::Decide));
        }
    }
    let action: RetryAction<usize, &str> = retry.step(RetryEvent::Decided(Yield::Not));
    assert!(matches!(action, RetryAction::Attempt));
    let action = retry.step(RetryEvent::Attempted(Ok::<usize, Error<&str>>(12)));
    assert!(matches!(action, RetryAction::Return(Ok(12))));
}

#[test]
fn loop_wakes_its_task_when_it_yields() {
    let mut retry = Retry::new(Direction::Write);
    for _ in 0..3 {
        let action: RetryAction<usize, &str> = retry.step(RetryEvent::Polled);
        assert!(matches!(action, RetryAction::Decide));
        let action: RetryAction<usize, &str> = retry.step(RetryEvent::Decided(Yield::Now));
        assert!(matches!(action, RetryAction::Wake));
    }
}

#[test]
fn loop_returns_other_errors() {
    let mut retry = Retry::new(Direction::Write);
    let _: RetryAction<usize, &str> = retry.step(RetryEvent::Polled);
    let _: RetryAction<usize, &str> = retry.step(RetryEvent::Decided(Yield::Not));
    let action = retry.step(RetryEvent::Attempted(failed()));
    assert!(matches!(action, RetryAction::Return(Err("reset"))));
}

#[test]
fn loop_returns_the_error_of_a_wait() {
    let mut retry = Retry::new(Direction::Write);
    let _: RetryAction<usize, &str> = retry.step(RetryEvent::Polled);
    let _: RetryAction<usize, &str> = retry.step(RetryEvent::Decided(Yield::Not));
    let action = retry.step(RetryEvent::Attempted(blocked()));
    assert!(matches!(action, RetryAction::Look(Direction::Write)));
    let action: RetryAction<usize, &str> = retry.step(RetryEvent::Looked(Some(Err("closed"))));
    assert!(matches!(action, RetryAction::Return(Err("closed"))));
}

fn start(operation: Operation) -> (PollIo, PollAction<usize, &'static str>) {
    let mut poll = PollIo::new(operation);
    let action = poll.step(PollEvent::Decided(Yield::Not));
    (poll, action)
}

#[test]
fn poll_wakes_its_task_when_it_yields() {
    let mut poll = PollIo::new(Operation::Read);
    let action: PollAction<usize, &str> = poll.step(PollEvent::Decided(Yield::Now));
    assert!(matches!(action, PollAction::Wake));
}

#[test]
fn poll_returns_the_outcome() {
    let (mut poll, action) = start(Operation::Read);
    assert!(matches!(action, PollAction::Attempt(Operation::Read)));
    let action = poll.step(PollEvent::Attempted(Ok::<usize, Error<&str>>(5)));
    assert!(matches!(action, PollAction::Ready(Ok(5))));

    let (mut poll, action) = start(Operation::WriteVectored);
    assert!(matches!(action, PollAction::Attempt(Operation::WriteVectored)));
    let action = poll.step(PollEvent::Attempted(failed()));
    assert!(matches!(action, PollAction::Ready(Err("reset"))));
}

#[test]
fn blocked_poll_registers_its_task() {
    let cases = [
        (Operation::Read, Direction::Read),
        (Operation::ReadVectored, Direction::Read),
        (Operation::Write, Direction::Write),
        (Operation::WriteVectored, Direction::Write),
        (Operation::Flush, Direction::Write),
        (Operation::Close, Direction::Write),
    ];
    for (operation, expected) in cases {
        let (mut poll, _) = start(operation);
        match poll.step(PollEvent::Attempted(blocked())) {
            PollAction::Register(direction) => assert_eq!(direction, expected),
            action => panic!("{:?}", action),
        }
        let action: PollAction<usize, &str> = poll.step(PollEvent::Registered(Ok(())));
        assert!(matches!(action, PollAction::Pending));
    }
}

#[test]
fn poll_returns_the_error_of_a_registration() {
    let (mut poll, _) = start(Operation::Write);
    let _ = poll.step(PollEvent::Attempted(blocked()));
    let action: PollAction<usize, &str> = poll.step(PollEvent::Registered(Err("closed")));
    assert!(matches!(action, PollAction::Ready(Err("closed"))));
}

#[test]
fn closing_flushes() {
    let (_, action) = start(Operation::Close);
    assert!(matches!(action, PollAction::Attempt(Operation::Flush)));
    assert_eq!(Operation::Close.performed(), Operation::Flush);
    assert_eq!(Operation::Write.performed(), Operation::Write);
}

type Event = ConnectEvent<&'static str, u32, &'static str>;
type Action = ConnectAction<&'static str, u32, &'static str>;

/// Opens a connection and counts the steps that are taken.
fn connect(check: Check, events: Vec<Event>) -> (Result<u32, &'static str>, usize) {
    let mut connecting: Connecting<u32> = Connecting::new();
    let mut steps: usize = 0;
    for event in events {
        let (next, action): (Connecting<u32>, Action) = connecting.step(check, event);
        connecting = next;
        steps += 1;
        match action {
            ConnectAction::Register(stream) => assert_eq!(stream, "stream"),
            ConnectAction::Wait => assert_eq!(connecting.stream(), Some(&9)),
            ConnectAction::Check(asked) => {
                assert_eq!(asked, check);
                assert_eq!(connecting.stream(), Some(&9));
            }
            ConnectAction::Return(result) => {
                assert_eq!(connecting.stream(), None);
                return (result, steps);
            }
        }
    }
    panic!("the connection is not finished");
}

fn until_check(last: Checked<&'static str>) -> Vec<Event> {
    vec![
        ConnectEvent::Begun(Ok("stream")),
        ConnectEvent::Registered(Ok(9)),
        ConnectEvent::Writable(Ok(())),
        ConnectEvent::Checked(last),
    ]
}

#[test]
fn tcp_connection_stands_if_no_error_was_met() {
    let events = until_check(Checked::Error(Ok(None)));
    assert_eq!(connect(Check::TakeError, events), (Ok(9), 4));
    let events = until_check(Checked::Error(Ok(Some("refused"))));
    assert_eq!(connect(Check::TakeError, events), (Err("refused"), 4));
    let events = until_check(Checked::Error(Err("bad handle")));
    assert_eq!(connect(Check::TakeError, events), (Err("bad handle"), 4));
}

#[test]
fn unix_connection_stands_if_it_has_a_peer() {
    let events = until_check(Checked::PeerAddr(Ok(())));
    assert_eq!(connect(Check::PeerAddr, events), (Ok(9), 4));
    let events = until_check(Checked::PeerAddr(Err("not connected")));
    assert_eq!(connect(Check::PeerAddr, events), (Err("not connected"), 4));
}

#[test]
fn first_failure_ends_a_connection() {
    let events = vec![ConnectEvent::Begun(Err("unreachable"))];
    assert_eq!(connect(Check::TakeError, events), (Err("unreachable"), 1));
    let events = vec![
        ConnectEvent::Begun(Ok("stream")),
        ConnectEvent::Registered(Err("full")),
    ];
    assert_eq!(connect(Check::TakeError, events), (Err("full"), 2));
    let events = vec![
        ConnectEvent::Begun(Ok("stream")),
        ConnectEvent::Registered(Ok(9)),
        ConnectEvent::Writable(Err("closed")),
    ];
    assert_eq!(connect(Check::PeerAddr, events), (Err("closed"), 3));
}

type Taken = AcceptAction<&'static str, u32, u16, &'static str>;

#[test]
fn accepted_stream_comes_with_its_peer() {
    let accepting: Accepting<u16> = Accepting::new();
    let (accepting, action): (Accepting<u16>, Taken) =
        accepting.step(AcceptEvent::Established(Ok(("stream", 80))));
    assert!(matches!(action, AcceptAction::Register("stream")));
    let (_, action): (Accepting<u16>, Taken) = accepting.step(AcceptEvent::Registered(Ok(9)));
    assert!(matches!(action, AcceptAction::Return(Ok((9, 80)))));
}

#[test]
fn failures_while_accepting_are_returned() {
    let accepting: Accepting<u16> = Accepting::new();
    let (_, action): (Accepting<u16>, Taken) =
        accepting.step(AcceptEvent::Established(Err("closed")));
    assert!(matches!(action, AcceptAction::Return(Err("closed"))));

    let accepting: Accepting<u16> = Accepting::new();
    let (accepting, _): (Accepting<u16>, Taken) =
        accepting.step(AcceptEvent::Established(Ok(("stream", 80))));
    let (_, action): (Accepting<u16>, Taken) =
        accepting.step(AcceptEvent::Registered(Err("full")));
    assert!(matches!(action, AcceptAction::Return(Err("full"))));
}

#[test]
fn incoming_connections_never_stop() {
    assert_eq!(
        incoming_item(Ok::<(u32, u16), &str>((9, 80))),
        Some(Ok(9))
    );
    assert_eq!(
        incoming_item(Err::<(u32, u16), &str>("closed")),
        Some(Err("closed"))
    );
}
