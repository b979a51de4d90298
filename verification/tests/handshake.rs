use hyper_tls::{HandshakeStep, Handshaking, Poll, SyncError, SyncStream};

/// A transport that is not ready for its first `not_ready` attempts and
/// counts every attempt made on it.
#[derive(Debug)]
struct Scripted {
    not_ready: usize,
    attempts: usize,
    attempts_not_ready: usize,
}

impl Scripted {
    fn new(not_ready: usize) -> Self {
        Scripted { not_ready, attempts: 0, attempts_not_ready: 0 }
    }

    fn poll_exchange(&mut self) -> Poll<Result<usize, String>> {
        self.attempts += 1;
        if self.attempts <= self.not_ready {
            self.attempts_not_ready += 1;
            Poll::Pending
        } else {
            Poll::Ready(Ok(self.attempts))
        }
    }
}

#[derive(Debug)]
struct Mid(SyncStream<Scripted>);

#[derive(Debug)]
struct Session(SyncStream<Scripted>);

/// The engine: one step is one exchange with the peer over the adapter. It
/// would block when the transport is not ready.
fn engine_step(mid: Mid, handle: Option<&u8>) -> HandshakeStep<Session, Mid, String> {
    let mut stream = mid.0;
    match stream.attempt(handle, |_: &u8, transport: &mut Scripted| transport.poll_exchange()) {
        Ok(_) => HandshakeStep::Done(Session(stream)),
        Err(SyncError::WouldBlock) => HandshakeStep::Pending(Mid(stream)),
        Err(SyncError::Other(error)) => HandshakeStep::Failed(error),
    }
}

fn drive(blocks: usize) -> (usize, usize, Session) {
    let handle = 1u8;
    let mid = Mid(SyncStream { inner: Scripted::new(blocks) });
    let mut handshake = Handshaking::new(HandshakeStep::Pending(mid));
    let mut suspensions = 0;
    let mut steps = 0;
    loop {
        assert!(!handshake.is_terminated());
        let polled = handshake.poll(|mid: Mid| {
            steps += 1;
            engine_step(mid, Some(&handle))
        });
        match polled {
            Poll::Pending => suspensions += 1,
            Poll::Ready(Ok(session)) => {
                assert!(handshake.is_terminated());
                return (suspensions, steps, session);
            },
            other => panic!("{other:?}"),
        }
        assert!(suspensions <= blocks);
    }
}

#[test]
fn a_handshake_suspends_once_for_each_would_block() {
    for blocks in [0usize, 1, 2, 5, 17] {
        let (suspensions, steps, session) = drive(blocks);
        assert_eq!(suspensions, blocks);
        assert_eq!(steps, blocks + 1);
        assert_eq!(session.0.inner.attempts_not_ready, blocks);
        assert_eq!(session.0.inner.attempts, blocks + 1);
    }
}

#[test]
fn a_completed_first_step_is_reported_without_the_engine() {
    let mut handshake: Handshaking<u8, u16, String> = Handshaking::new(HandshakeStep::Done(9));
    assert!(!handshake.is_terminated());
    let polled = handshake.poll(|_: u16| panic!("the engine is not asked"));
    assert_eq!(polled, Poll::Ready(Ok(9)));
    assert!(handshake.is_terminated());
}

#[test]
fn a_failed_first_step_is_reported_without_the_engine() {
    let mut handshake: Handshaking<u8, u16, String> =
        Handshaking::new(HandshakeStep::Failed("refused".to_owned()));
    let polled = handshake.poll(|_: u16| panic!("the engine is not asked"));
    assert_eq!(polled, Poll::Ready(Err("refused".to_owned())));
    assert!(handshake.is_terminated());
}

#[test]
fn a_failure_is_final() {
    let mut handshake: Handshaking<u8, u16, String> = Handshaking::new(HandshakeStep::Pending(0));
    let mut asked = 0;
    for round in 1..=3u16 {
        let polled = handshake.poll(|mid: u16| {
            asked += 1;
            assert_eq!(mid, round - 1);
            HandshakeStep::Pending(round)
        });
        assert_eq!(polled, Poll::Pending);
        assert!(!handshake.is_terminated());
    }
    let polled = handshake.poll(|mid: u16| {
        asked += 1;
        assert_eq!(mid, 3);
        HandshakeStep::Failed("bad record".to_owned())
    });
    assert_eq!(polled, Poll::Ready(Err("bad record".to_owned())));
    assert!(handshake.is_terminated());
    assert_eq!(asked, 4);

    assert_eq!(asked, 4);
}

#[test]
fn a_completed_handshake_is_over() {
    let mut handshake: Handshaking<u8, u16, String> = Handshaking::new(HandshakeStep::Pending(0));
    assert!(!handshake.is_terminated());
    assert_eq!(handshake.poll(|_: u16| HandshakeStep::Done(5)), Poll::Ready(Ok(5)));
    assert!(handshake.is_terminated());
}

#[test]
fn resume_takes_the_report_of_the_engine() {
    let mut handshake: Handshaking<u8, u16, String> = Handshaking::new(HandshakeStep::Pending(0));
    assert_eq!(handshake.resume(HandshakeStep::Pending(1)), Poll::Pending);
    assert_eq!(handshake.resume(HandshakeStep::Pending(2)), Poll::Pending);
    assert!(!handshake.is_terminated());
    assert_eq!(handshake.resume(HandshakeStep::Done(3)), Poll::Ready(Ok(3)));
    assert!(handshake.is_terminated());

    let mut done: Handshaking<u8, u16, String> = Handshaking::new(HandshakeStep::Done(8));
    assert_eq!(done.resume(HandshakeStep::Failed("unused".to_owned())), Poll::Ready(Ok(8)));
}

#[test]
fn without_a_handle_the_engine_would_block_and_the_transport_is_untouched() {
    let mid = Mid(SyncStream { inner: Scripted::new(0) });
    match engine_step(mid, None) {
        HandshakeStep::Pending(mid) => {
            assert_eq!(mid.0.inner.attempts, 0);
        },
        other => panic!("{other:?}"),
    }
}

/// A transport whose every operation fails.
#[derive(Debug)]
struct Broken;

impl Broken {
    fn poll_exchange(&mut self) -> Poll<Result<usize, String>> {
        Poll::Ready(Err("reset".to_owned()))
    }
}

#[test]
fn a_transport_failure_fails_the_handshake() {
    let mut stream = SyncStream { inner: Broken };
    let handle = 0u8;
    let outcome = stream.attempt(Some(&handle), |_: &u8, transport: &mut Broken| {
        transport.poll_exchange()
    });
    assert_eq!(outcome, Err(SyncError::Other("reset".to_owned())));
    let mut handshake: Handshaking<u8, SyncStream<Broken>, String> =
        Handshaking::new(HandshakeStep::Pending(stream));
    let polled = handshake.poll(|mut mid: SyncStream<Broken>| {
        match mid.attempt(Some(&handle), |_: &u8, transport: &mut Broken| transport.poll_exchange()) {
            Ok(_) => HandshakeStep::Done(0),
            Err(SyncError::WouldBlock) => HandshakeStep::Pending(mid),
            Err(SyncError::Other(error)) => HandshakeStep::Failed(error),
        }
    });
    assert_eq!(polled, Poll::Ready(Err("reset".to_owned())));
    assert!(handshake.is_terminated());
}
