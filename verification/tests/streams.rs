use std::cell::RefCell;
use std::collections::VecDeque;
use std::rc::Rc;

use hyper_tls::{MaybeHttpsStream, Poll, SyncError, SyncStream, TlsStream};

type Wire = Rc<RefCell<VecDeque<u8>>>;

/// One end of a connected pair of in-memory transports.
#[derive(Debug)]
struct PipeEnd {
    incoming: Wire,
    outgoing: Wire,
    shutdowns: usize,
}

fn pipe() -> (PipeEnd, PipeEnd) {
    let there: Wire = Rc::default();
    let back: Wire = Rc::default();
    (
        PipeEnd { incoming: back.clone(), outgoing: there.clone(), shutdowns: 0 },
        PipeEnd { incoming: there, outgoing: back, shutdowns: 0 },
    )
}

impl PipeEnd {
    fn poll_read(&mut self, buf: &mut [u8]) -> Poll<Result<usize, String>> {
        let mut incoming = self.incoming.borrow_mut();
        if incoming.is_empty() {
            return Poll::Pending;
        }
        let mut count = 0;
        while count < buf.len() {
            match incoming.pop_front() {
                Some(byte) => {
                    buf[count] = byte;
                    count += 1;
                },
                None => break,
            }
        }
        Poll::Ready(Ok(count))
    }

    fn poll_write(&mut self, data: &[u8]) -> Poll<Result<usize, String>> {
        self.outgoing.borrow_mut().extend(data.iter().copied());
        Poll::Ready(Ok(data.len()))
    }

    fn poll_shutdown(&mut self) -> Poll<Result<(), String>> {
        self.shutdowns += 1;
        Poll::Ready(Ok(()))
    }
}

/// The suspension handle of the tests.
#[derive(Debug, PartialEq, Eq)]
struct Handle(u32);

/// A test engine's session: it seals each byte with a key on the way out
/// and opens it on the way in, through blocking-style calls on the adapter.
#[derive(Debug)]
struct Sealed {
    stream: SyncStream<PipeEnd>,
    key: u8,
    closes: usize,
}

impl Sealed {
    fn new(end: PipeEnd, key: u8) -> Self {
        Sealed { stream: SyncStream { inner: end }, key, closes: 0 }
    }

    fn write(&mut self, handle: Option<&Handle>, data: &[u8]) -> Result<usize, SyncError<String>> {
        let sealed: Vec<u8> = data.iter().map(|byte| byte ^ self.key).collect();
        self.stream.attempt(handle, |_: &Handle, end: &mut PipeEnd| end.poll_write(&sealed))
    }

    fn read(&mut self, handle: Option<&Handle>, buf: &mut [u8]) -> Result<usize, SyncError<String>> {
        let count =
            self.stream.attempt(handle, |_: &Handle, end: &mut PipeEnd| end.poll_read(buf))?;
        for byte in buf[..count].iter_mut() {
            *byte ^= self.key;
        }
        Ok(count)
    }
}

type Unified = MaybeHttpsStream<PipeEnd, Sealed>;

fn write(stream: &mut Unified, handle: &Handle, data: &[u8]) -> Poll<Result<usize, String>> {
    stream.dispatch(
        data,
        |end: &mut PipeEnd, data: &[u8]| end.poll_write(data),
        |secure: &mut TlsStream<Sealed>, data: &[u8]| {
            secure.poll_with(|session: &mut Sealed| session.write(Some(handle), data))
        },
    )
}

fn read(stream: &mut Unified, handle: &Handle, buf: &mut [u8]) -> Poll<Result<usize, String>> {
    stream.dispatch(
        buf,
        |end: &mut PipeEnd, buf: &mut [u8]| end.poll_read(buf),
        |secure: &mut TlsStream<Sealed>, buf: &mut [u8]| {
            secure.poll_with(|session: &mut Sealed| session.read(Some(handle), buf))
        },
    )
}

fn secure_pair(key: u8) -> (Unified, Unified) {
    let (near, far) = pipe();
    (
        MaybeHttpsStream::Https(TlsStream::new(Sealed::new(near, key))),
        MaybeHttpsStream::from(TlsStream::from(Sealed::new(far, key))),
    )
}

fn plain_pair() -> (Unified, Unified) {
    let (near, far) = pipe();
    (MaybeHttpsStream::Http(near), MaybeHttpsStream::Http(far))
}

fn round_trip(pair: (Unified, Unified), message: &[u8]) -> Vec<u8> {
    let handle = Handle(1);
    let (mut near, mut far) = pair;
    let mut buf = [0u8; 7];
    assert_eq!(read(&mut far, &handle, &mut buf), Poll::Pending);
    for chunk in message.chunks(5) {
        assert_eq!(write(&mut near, &handle, chunk), Poll::Ready(Ok(chunk.len())));
    }
    let mut received = Vec::new();
    loop {
        match read(&mut far, &handle, &mut buf) {
            Poll::Ready(Ok(count)) => received.extend_from_slice(&buf[..count]),
            Poll::Pending => break,
            other => panic!("{other:?}"),
        }
    }
    received
}

const MESSAGE: &[u8] = b"GET / HTTP/1.1\r\nhost: example.test\r\n\r\n";

#[test]
fn plain_streams_carry_bytes_unchanged_and_in_order() {
    assert_eq!(round_trip(plain_pair(), MESSAGE), MESSAGE);
}

#[test]
fn secure_streams_carry_bytes_unchanged_and_in_order() {
    assert_eq!(round_trip(secure_pair(0x5a), MESSAGE), MESSAGE);
    assert_eq!(round_trip(secure_pair(0x5a), MESSAGE), round_trip(plain_pair(), MESSAGE));
}

#[test]
fn streams_carry_bytes_in_both_directions() {
    let handle = Handle(2);
    for (mut near, mut far) in [plain_pair(), secure_pair(0x11)] {
        let mut buf = [0u8; 16];
        assert_eq!(write(&mut near, &handle, b"ping"), Poll::Ready(Ok(4)));
        assert_eq!(read(&mut far, &handle, &mut buf), Poll::Ready(Ok(4)));
        assert_eq!(&buf[..4], b"ping");
        assert_eq!(write(&mut far, &handle, b"pong!"), Poll::Ready(Ok(5)));
        assert_eq!(read(&mut near, &handle, &mut buf), Poll::Ready(Ok(5)));
        assert_eq!(&buf[..5], b"pong!");
        assert_eq!(read(&mut near, &handle, &mut buf), Poll::Pending);
    }
}

#[test]
fn a_secure_stream_does_not_put_the_plain_text_on_the_wire() {
    let handle = Handle(3);
    let (near, far) = pipe();
    let wire = far.incoming.clone();
    let mut secure: Unified = MaybeHttpsStream::Https(TlsStream::new(Sealed::new(near, 0xff)));
    assert_eq!(write(&mut secure, &handle, b"secret"), Poll::Ready(Ok(6)));
    let on_wire: Vec<u8> = wire.borrow().iter().copied().collect();
    assert_eq!(on_wire.len(), 6);
    assert_ne!(on_wire, b"secret");
    let opened: Vec<u8> = on_wire.iter().map(|byte| byte ^ 0xff).collect();
    assert_eq!(opened, b"secret");
}

#[test]
fn the_variant_of_a_stream_never_changes() {
    let handle = Handle(4);
    let (mut plain, _far_plain) = plain_pair();
    let (mut secure, _far_secure) = secure_pair(1);
    let mut buf = [0u8; 4];
    for _ in 0..3 {
        assert!(!plain.is_https());
        assert!(secure.is_https());
        let _ = write(&mut plain, &handle, b"abc");
        let _ = write(&mut secure, &handle, b"abc");
        let _ = read(&mut plain, &handle, &mut buf);
        let _ = read(&mut secure, &handle, &mut buf);
    }
    assert!(matches!(plain, MaybeHttpsStream::Http(_)));
    assert!(matches!(secure, MaybeHttpsStream::Https(_)));
}

#[test]
fn dispatch_runs_the_operation_of_the_variant_only() {
    let (mut plain, _far) = plain_pair();
    let ran = plain.dispatch(
        1,
        |_: &mut PipeEnd, arg: u8| ("plain", arg),
        |_: &mut TlsStream<Sealed>, arg: u8| ("secure", arg),
    );
    assert_eq!(ran, ("plain", 1));
    let (mut secure, _far) = secure_pair(1);
    let ran = secure.dispatch(
        2,
        |_: &mut PipeEnd, arg: u8| ("plain", arg),
        |_: &mut TlsStream<Sealed>, arg: u8| ("secure", arg),
    );
    assert_eq!(ran, ("secure", 2));
}

#[test]
fn with_context_needs_a_handle() {
    let (end, _far) = pipe();
    let mut stream = SyncStream { inner: end };
    let mut runs = 0;
    let blocked: Result<u32, SyncError<String>> =
        stream.with_context(None, |_: &Handle, _: &mut PipeEnd| {
            runs += 1;
            Ok(1)
        });
    assert_eq!(blocked, Err(SyncError::WouldBlock));
    assert_eq!(runs, 0);

    let handle = Handle(9);
    let ran: Result<u32, SyncError<String>> =
        stream.with_context(Some(&handle), |current: &Handle, end: &mut PipeEnd| {
            runs += 1;
            end.shutdowns += 1;
            Ok(current.0)
        });
    assert_eq!(ran, Ok(9));
    assert_eq!(runs, 1);
    assert_eq!(stream.inner.shutdowns, 1);

    let failed: Result<u32, SyncError<String>> =
        stream.with_context(Some(&handle), |_: &Handle, _: &mut PipeEnd| {
            Err(SyncError::Other("broken pipe".to_owned()))
        });
    assert_eq!(failed, Err(SyncError::Other("broken pipe".to_owned())));
}

#[test]
fn attempt_turns_not_ready_into_would_block() {
    let (end, mut far) = pipe();
    let mut stream = SyncStream { inner: end };
    let handle = Handle(5);
    let mut buf = [0u8; 8];

    let without_handle = stream.attempt(None, |_: &Handle, end: &mut PipeEnd| end.poll_write(b"x"));
    assert_eq!(without_handle, Err(SyncError::WouldBlock));
    assert!(far.incoming.borrow().is_empty());

    let not_ready =
        stream.attempt(Some(&handle), |_: &Handle, end: &mut PipeEnd| end.poll_read(&mut buf));
    assert_eq!(not_ready, Err(SyncError::WouldBlock));

    assert_eq!(far.poll_write(b"abc"), Poll::Ready(Ok(3)));
    let ready =
        stream.attempt(Some(&handle), |_: &Handle, end: &mut PipeEnd| end.poll_read(&mut buf));
    assert_eq!(ready, Ok(3));
    assert_eq!(&buf[..3], b"abc");

    let failed: Result<usize, SyncError<String>> = stream
        .attempt(Some(&handle), |_: &Handle, _: &mut PipeEnd| Poll::Ready(Err("reset".to_owned())));
    assert_eq!(failed, Err(SyncError::Other("reset".to_owned())));

    let flushed: Result<(), SyncError<String>> =
        stream.attempt(Some(&handle), |_: &Handle, _: &mut PipeEnd| Poll::Ready(Ok(())));
    assert_eq!(flushed, Ok(()));
}

#[test]
fn the_handle_reaches_the_transport_operation() {
    let (end, _far) = pipe();
    let mut stream = SyncStream { inner: end };
    let handle = Handle(77);
    let seen: Result<u32, SyncError<String>> =
        stream.attempt(Some(&handle), |current: &Handle, _: &mut PipeEnd| {
            Poll::Ready(Ok(current.0))
        });
    assert_eq!(seen, Ok(77));
}

#[test]
fn poll_with_tells_a_blocking_result_in_poll_style() {
    let (end, _far) = pipe();
    let mut secure = TlsStream::new(Sealed::new(end, 3));
    let done: Poll<Result<usize, String>> = secure.poll_with(|_: &mut Sealed| Ok(12));
    assert_eq!(done, Poll::Ready(Ok(12)));
    let blocked: Poll<Result<usize, String>> =
        secure.poll_with(|_: &mut Sealed| Err(SyncError::WouldBlock));
    assert_eq!(blocked, Poll::Pending);
    let failed: Poll<Result<usize, String>> =
        secure.poll_with(|_: &mut Sealed| Err(SyncError::Other("bad record".to_owned())));
    assert_eq!(failed, Poll::Ready(Err("bad record".to_owned())));
    let flushed: Poll<Result<(), String>> = secure.poll_with(|_: &mut Sealed| Ok(()));
    assert_eq!(flushed, Poll::Ready(Ok(())));
}

#[test]
fn a_read_without_a_handle_suspends() {
    let (end, mut far) = pipe();
    let mut secure = TlsStream::new(Sealed::new(end, 3));
    assert_eq!(far.poll_write(b"abc"), Poll::Ready(Ok(3)));
    let mut buf = [0u8; 3];
    let polled = secure.poll_with(|session: &mut Sealed| session.read(None, &mut buf));
    assert_eq!(polled, Poll::Pending);
    assert_eq!(far.outgoing.borrow().len(), 3);
}

fn close_session(session: &mut Sealed, outcome: Result<(), SyncError<String>>) -> Result<(), SyncError<String>> {
    session.closes += 1;
    outcome
}

#[test]
fn shutdown_closes_the_session_and_then_the_transport() {
    let (end, _far) = pipe();
    let mut secure = TlsStream::new(Sealed::new(end, 3));

    let blocked = secure.poll_shutdown(
        |session: &mut Sealed| close_session(session, Err(SyncError::WouldBlock)),
        |session: &mut Sealed| session.stream.inner.poll_shutdown(),
    );
    assert_eq!(blocked, Poll::Pending);
    assert_eq!(secure.get_ref().closes, 1);
    assert_eq!(secure.get_ref().stream.inner.shutdowns, 0);

    let transport_pending = secure.poll_shutdown(
        |session: &mut Sealed| close_session(session, Ok(())),
        |_: &mut Sealed| Poll::<Result<(), String>>::Pending,
    );
    assert_eq!(transport_pending, Poll::Pending);
    assert_eq!(secure.get_ref().closes, 2);

    let done = secure.poll_shutdown(
        |session: &mut Sealed| close_session(session, Ok(())),
        |session: &mut Sealed| session.stream.inner.poll_shutdown(),
    );
    assert_eq!(done, Poll::Ready(Ok(())));
    assert_eq!(secure.get_ref().closes, 2);
    assert_eq!(secure.get_ref().stream.inner.shutdowns, 1);
}

#[test]
fn shutdown_in_one_poll() {
    let (end, _far) = pipe();
    let mut secure = TlsStream::new(Sealed::new(end, 3));
    let done = secure.poll_shutdown(
        |session: &mut Sealed| close_session(session, Ok(())),
        |session: &mut Sealed| session.stream.inner.poll_shutdown(),
    );
    assert_eq!(done, Poll::Ready(Ok(())));
    assert_eq!(secure.get_ref().closes, 1);
    assert_eq!(secure.get_ref().stream.inner.shutdowns, 1);
}

#[test]
fn a_failure_to_close_the_session_is_reported() {
    let (end, _far) = pipe();
    let mut secure = TlsStream::new(Sealed::new(end, 3));
    let failed = secure.poll_shutdown(
        |session: &mut Sealed| close_session(session, Err(SyncError::Other("alert".to_owned()))),
        |session: &mut Sealed| session.stream.inner.poll_shutdown(),
    );
    assert_eq!(failed, Poll::Ready(Err("alert".to_owned())));
    assert_eq!(secure.get_ref().stream.inner.shutdowns, 0);
}

#[test]
fn shutdown_of_a_unified_stream_goes_to_its_variant() {
    let (mut plain, _far) = plain_pair();
    let polled = plain.dispatch(
        (),
        |end: &mut PipeEnd, _: ()| end.poll_shutdown(),
        |_: &mut TlsStream<Sealed>, _: ()| Poll::Ready(Err("not this one".to_owned())),
    );
    assert_eq!(polled, Poll::Ready(Ok(())));
    match plain {
        MaybeHttpsStream::Http(end) => assert_eq!(end.shutdowns, 1),
        MaybeHttpsStream::Https(_) => panic!("the variant changed"),
    }
}

#[test]
fn the_session_of_a_secure_stream_can_be_reached() {
    let (end, _far) = pipe();
    let mut secure = TlsStream::from(Sealed::new(end, 0x21));
    assert_eq!(secure.get_ref().key, 0x21);
    secure.get_mut().key = 0x22;
    assert_eq!(secure.get_ref().key, 0x22);
    secure.get_mut().stream.inner.shutdowns = 5;
    assert_eq!(secure.get_ref().stream.inner.shutdowns, 5);
}
