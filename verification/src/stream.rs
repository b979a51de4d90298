//! The streams of the bridge.

use vstd::prelude::*;
use vstd::pervasive::unreached;
use crate::poll::{Poll, SyncError, blocking_of, polled_of};

verus! {

/// A transport dressed as a blocking-style stream for the security engine.
#[derive(Debug)]
pub struct SyncStream<S> {
    pub inner: S,
}

impl<S> SyncStream<S> {
    /// Runs `f` on the transport with the suspension handle that is current.
    /// Without a current handle nothing is run and the call would block.
    pub fn with_context<H, F, R, E>(&mut self, current: Option<&H>, f: F) -> (res: Result<R, SyncError<E>>)
        where F: FnOnce(&H, &mut S) -> Result<R, SyncError<E>>
        requires
            current matches Some(handle) ==> forall|transport: &mut S|
                *transport == old(self).inner ==> f.requires((handle, transport)),
        ensures
            current is None ==> res == Err::<R, SyncError<E>>(SyncError::WouldBlock)
                && *final(self) == *old(self),
            current matches Some(handle) ==> exists|transport: &mut S|
                *transport == old(self).inner && *final(transport) == final(self).inner
                    && f.ensures((handle, transport), res),
    {
        match current {
            None => Err(SyncError::WouldBlock),
            Some(handle) => f(handle, &mut self.inner),
        }
    }

    /// One blocking-style attempt at a transport operation (a read, a write,
    /// a flush): `op` polls the transport with the current handle, and what
    /// it reports is handed on in blocking style. A transport that is not
    /// ready makes the call would-block; so does the absence of a handle, in
    /// which case the transport is not touched.
    pub fn attempt<H, F, R, E>(&mut self, current: Option<&H>, op: F) -> (res: Result<R, SyncError<E>>)
        where F: FnOnce(&H, &mut S) -> Poll<Result<R, E>>
        requires
            current matches Some(handle) ==> forall|transport: &mut S|
                *transport == old(self).inner ==> op.requires((handle, transport)),
        ensures
            current is None ==> res == Err::<R, SyncError<E>>(SyncError::WouldBlock)
                && *final(self) == *old(self),
            current matches Some(handle) ==> exists|transport: &mut S, polled: Poll<Result<R, E>>|
                *transport == old(self).inner && *final(transport) == final(self).inner
                    && op.ensures((handle, transport), polled) && res == blocking_of(polled),
    {
        let blocking = |handle: &H, transport: &mut S| -> (out: Result<R, SyncError<E>>)
            requires
                forall|lent: &mut S| *lent == *transport ==> op.requires((handle, lent)),
            ensures
                exists|polled: Poll<Result<R, E>>, lent: &mut S|
                    *lent == *old(transport) && *final(lent) == *final(transport)
                        && op.ensures((handle, lent), polled) && out == blocking_of(polled),
            {
                let polled = op(handle, transport);
                polled.into_blocking()
            };
        self.with_context(current, blocking)
    }
}

/// A stream protected by a security session: the engine's session, and
/// whether its closing has been completed.
#[derive(Debug)]
pub struct TlsStream<S> {
    inner: S,
    closed: bool,
}

impl<S> TlsStream<S> {
    /// The engine's session that this stream wraps.
    pub closed spec fn session(self) -> S {
        self.inner
    }

    /// Whether the engine has completed the closing of the session.
    pub closed spec fn session_closed(self) -> bool {
        self.closed
    }

    /// The stream that wraps a session which has just been established.
    pub closed spec fn wrapping(session: S) -> Self {
        TlsStream { inner: session, closed: false }
    }

    /// A stream that wraps a session holds that session, not yet closed.
    pub broadcast proof fn lemma_wrapping(session: S)
        ensures
            (#[trigger] Self::wrapping(session)).session() == session,
            !Self::wrapping(session).session_closed(),
    {
    }

    /// Wraps an established session.
    pub fn new(inner: S) -> (stream: Self)
        ensures
            stream == Self::wrapping(inner),
    {
        TlsStream { inner, closed: false }
    }

    /// The engine's session.
    pub fn get_ref(&self) -> (session: &S)
        ensures
            *session == self.session(),
    {
        &self.inner
    }

    /// The engine's session, for change.
    pub fn get_mut(&mut self) -> (session: &mut S)
        ensures
            *session == old(self).session(),
            final(self).session() == *final(session),
            final(self).session_closed() == old(self).session_closed(),
    {
        &mut self.inner
    }

    /// One poll of a read, a write or a flush: `op` makes the engine's
    /// blocking-style call on the session, and its result is told in
    /// poll-driven style. Success and failure are ready; the would-block
    /// signal suspends.
    pub fn poll_with<R, E, F>(&mut self, op: F) -> (res: Poll<Result<R, E>>)
        where F: FnOnce(&mut S) -> Result<R, SyncError<E>>
        requires
            forall|session: &mut S| *session == old(self).session() ==> op.requires((session,)),
        ensures
            final(self).session_closed() == old(self).session_closed(),
            exists|session: &mut S, outcome: Result<R, SyncError<E>>|
                *session == old(self).session() && *final(session) == final(self).session()
                    && op.ensures((session,), outcome) && res == polled_of(outcome),
    {
        let outcome = op(&mut self.inner);
        Poll::from_blocking(outcome)
    }

    /// One poll of a shutdown. Until the engine has completed the closing of
    /// the session, `close_session` makes its blocking-style call: a failure
    /// is ready, the would-block signal suspends. Once the session is
    /// closed, in this poll or an earlier one, `close_transport` polls the
    /// shutdown of the transport below, and its outcome is the outcome.
    pub fn poll_shutdown<E, F, G>(&mut self, close_session: F, close_transport: G) -> (res: Poll<Result<(), E>>)
        where F: FnOnce(&mut S) -> Result<(), SyncError<E>>, G: FnOnce(&mut S) -> Poll<Result<(), E>>
        requires
            !old(self).session_closed() ==> forall|session: &mut S|
                *session == old(self).session() ==> close_session.requires((session,)),
            old(self).session_closed() ==> forall|below: &mut S|
                *below == old(self).session() ==> close_transport.requires((below,)),
            !old(self).session_closed() ==> forall|
                session: &mut S,
                closed: Result<(), SyncError<E>>,
                below: &mut S,
            |
                *session == old(self).session() && closed is Ok && close_session.ensures(
                    (session,),
                    closed,
                ) && *below == *final(session) ==> close_transport.requires((below,)),
        ensures
            old(self).session_closed() ==> final(self).session_closed() && exists|below: &mut S|
                *below == old(self).session() && *final(below) == final(self).session()
                    && close_transport.ensures((below,), res),
            !old(self).session_closed() ==> exists|session: &mut S, outcome: Result<(), SyncError<E>>|
                *session == old(self).session() && close_session.ensures((session,), outcome)
                    && match outcome {
                    Ok(_) => final(self).session_closed() && exists|below: &mut S|
                        *below == *final(session) && *final(below) == final(self).session()
                            && close_transport.ensures((below,), res),
                    Err(_) => !final(self).session_closed()
                        && *final(session) == final(self).session() && res == polled_of(outcome),
                },
    {
        if !self.closed {
            let outcome = close_session(&mut self.inner);
            match outcome {
                Ok(_) => {
                    self.closed = true;
                },
                Err(SyncError::WouldBlock) => {
                    return Poll::Pending;
                },
                Err(SyncError::Other(error)) => {
                    return Poll::Ready(Err(error));
                },
            }
        }
        close_transport(&mut self.inner)
    }
}

impl<S> vstd::std_specs::convert::FromSpecImpl<S> for TlsStream<S> {
    open spec fn obeys_from_spec() -> bool {
        true
    }

    open spec fn from_spec(session: S) -> Self {
        TlsStream::wrapping(session)
    }
}

impl<S> From<S> for TlsStream<S> {
    /// Wraps an established session.
    fn from(session: S) -> (stream: Self) {
        TlsStream { inner: session, closed: false }
    }
}

/// A stream that might be protected by a security session. The variant is
/// chosen when the stream is made and never changes.
#[derive(Debug)]
pub enum MaybeHttpsStream<T, S> {
    /// A stream over plain text: the transport itself.
    Http(T),
    /// A stream protected by a security session.
    Https(TlsStream<S>),
}

impl<T, S> MaybeHttpsStream<T, S> {
    /// Whether the stream is the protected variant.
    pub open spec fn secure(self) -> bool {
        self is Https
    }

    /// Whether the stream is the protected variant.
    pub fn is_https(&self) -> (secure: bool)
        ensures
            secure == self.secure(),
    {
        match self {
            MaybeHttpsStream::Http(_) => false,
            MaybeHttpsStream::Https(_) => true,
        }
    }

    /// Runs a stream operation (a read, a write, a flush, a shutdown) on the
    /// variant that the stream is: `plain` on the transport of a plain-text
    /// stream, `secure` on a protected one. Exactly one of the two runs; it
    /// is handed `arg`, which holds what the operation works with (a buffer,
    /// a suspension handle). The stream stays the variant it was.
    pub fn dispatch<A, R, P, Q>(&mut self, arg: A, plain: P, secure: Q) -> (res: R)
        where P: FnOnce(&mut T, A) -> R, Q: FnOnce(&mut TlsStream<S>, A) -> R
        requires
            *old(self) matches MaybeHttpsStream::Http(before) ==> forall|transport: &mut T|
                *transport == before ==> plain.requires((transport, arg)),
            *old(self) matches MaybeHttpsStream::Https(before) ==> forall|
                stream: &mut TlsStream<S>,
            | *stream == before ==> secure.requires((stream, arg)),
        ensures
            final(self).secure() == old(self).secure(),
            *old(self) matches MaybeHttpsStream::Http(before) ==> exists|transport: &mut T|
                *transport == before && *final(self) == MaybeHttpsStream::<T, S>::Http(
                    *final(transport),
                ) && plain.ensures((transport, arg), res),
            *old(self) matches MaybeHttpsStream::Https(before) ==> exists|
                stream: &mut TlsStream<S>,
            |
                *stream == before && *final(self) == MaybeHttpsStream::<T, S>::Https(
                    *final(stream),
                ) && secure.ensures((stream, arg), res),
    {
        match self {
            MaybeHttpsStream::Http(transport) => plain(transport, arg),
            MaybeHttpsStream::Https(stream) => secure(stream, arg),
        }
    }
}

impl<T, S> vstd::std_specs::convert::FromSpecImpl<TlsStream<S>> for MaybeHttpsStream<T, S> {
    open spec fn obeys_from_spec() -> bool {
        true
    }

    open spec fn from_spec(stream: TlsStream<S>) -> Self {
        MaybeHttpsStream::Https(stream)
    }
}

impl<T, S> From<TlsStream<S>> for MaybeHttpsStream<T, S> {
    /// A protected stream as a stream that might be protected.
    fn from(stream: TlsStream<S>) -> (unified: Self) {
        MaybeHttpsStream::Https(stream)
    }
}

/// Where a handshake stands after a step of the security engine.
#[derive(Debug, PartialEq, Eq)]
pub enum HandshakeStep<S, M, E> {
    /// The handshake is complete: the established session.
    Done(S),
    /// The engine needs input or output that the transport could not give
    /// yet: the mid-handshake value to go on from.
    Pending(M),
    /// The handshake has failed.
    Failed(E),
}

/// What one poll of a handshake reports: ready with the session or with the
/// failure, or pending.
pub type HandshakePoll<S, E> = Poll<Result<S, E>>;

/// What a handshake that the engine has left at `step` reports to a poll,
/// and where it stands afterwards: a completed or failed handshake reports
/// its end and is over (`None`); one that is pending stays as it is and
/// suspends.
pub open spec fn settled<S, M, E>(step: HandshakeStep<S, M, E>) -> (
    Option<HandshakeStep<S, M, E>>,
    HandshakePoll<S, E>,
) {
    match step {
        HandshakeStep::Done(session) => (None, Poll::Ready(Ok(session))),
        HandshakeStep::Failed(error) => (None, Poll::Ready(Err(error))),
        HandshakeStep::Pending(mid) => (Some(HandshakeStep::Pending(mid)), Poll::Pending),
    }
}

/// Where a handshake that stood at `state` stands when a poll reports on it,
/// where `report` is what the engine answers if it is asked to go on: a
/// pending handshake stands where the engine leaves it, any other where it
/// stood. The engine is asked only when the handshake is pending.
pub open spec fn polled_step<S, M, E>(
    state: HandshakeStep<S, M, E>,
    report: HandshakeStep<S, M, E>,
) -> HandshakeStep<S, M, E> {
    if state is Pending {
        report
    } else {
        state
    }
}

/// One poll of a handshake that stands at `state`, where `report` is what the
/// engine answers if it is asked to go on.
pub open spec fn handshake_poll<S, M, E>(
    state: HandshakeStep<S, M, E>,
    report: HandshakeStep<S, M, E>,
) -> (Option<HandshakeStep<S, M, E>>, HandshakePoll<S, E>) {
    settled(polled_step(state, report))
}

/// The mid-handshake value that the engine is asked to go on from in a poll
/// of a handshake that stands at `state`, if it is asked: it is when the
/// handshake is pending, and only then.
pub open spec fn engine_asked<S, M, E>(state: Option<HandshakeStep<S, M, E>>) -> Option<M> {
    match state {
        Some(HandshakeStep::Pending(mid)) => Some(mid),
        _ => None,
    }
}

/// A handshake in progress: a resumable process that is polled until it
/// reports the established session or the failure. Once it has reported
/// either it is over, and is not to be polled again.
#[derive(Debug)]
pub struct Handshaking<S, M, E> {
    inner: Option<HandshakeStep<S, M, E>>,
}

impl<S, M, E> View for Handshaking<S, M, E> {
    type V = Option<HandshakeStep<S, M, E>>;

    /// Where the handshake stands; `None` once it has reported its end.
    closed spec fn view(&self) -> Option<HandshakeStep<S, M, E>> {
        self.inner
    }
}

impl<S, M, E> Handshaking<S, M, E> {
    /// A handshake that stands where the engine's first step left it.
    pub fn new(first: HandshakeStep<S, M, E>) -> (handshake: Self)
        ensures
            handshake@ == Some(first),
    {
        Handshaking { inner: Some(first) }
    }

    /// Whether the handshake has reported its end. A handshake that has is
    /// not to be polled again.
    pub fn is_terminated(&self) -> (over: bool)
        ensures
            over == (self@ is None),
    {
        self.inner.is_none()
    }

    /// Reports on where the engine has left the handshake.
    fn settle(&mut self, step: HandshakeStep<S, M, E>) -> (res: HandshakePoll<S, E>)
        ensures
            (final(self)@, res) == settled(step),
    {
        match step {
            HandshakeStep::Done(session) => {
                self.inner = None;
                Poll::Ready(Ok(session))
            },
            HandshakeStep::Failed(error) => {
                self.inner = None;
                Poll::Ready(Err(error))
            },
            HandshakeStep::Pending(mid) => {
                self.inner = Some(HandshakeStep::Pending(mid));
                Poll::Pending
            },
        }
    }

    /// One poll of the handshake, given the engine's answer should it be
    /// needed: `report` is consulted only when the handshake is pending. The
    /// handshake must not have reported its end.
    pub fn resume(&mut self, report: HandshakeStep<S, M, E>) -> (res: HandshakePoll<S, E>)
        requires
            old(self)@ is Some,
        ensures
            (final(self)@, res) == handshake_poll(old(self)@->0, report),
    {
        match self.inner.take() {
            None => unreached(),
            Some(HandshakeStep::Pending(_)) => self.settle(report),
            Some(step) => self.settle(step),
        }
    }

    /// One poll of the handshake. A handshake that is pending hands its
    /// mid-handshake value to `advance`, which lets the engine go on, and
    /// then stands where the engine left it. One that is complete or has
    /// failed reports so without the engine, and is then over. The
    /// handshake must not have reported its end: to poll it after that is
    /// an error of the caller.
    pub fn poll<F>(&mut self, advance: F) -> (res: HandshakePoll<S, E>)
        where F: FnOnce(M) -> HandshakeStep<S, M, E>
        requires
            old(self)@ is Some,
            engine_asked(old(self)@) matches Some(mid) ==> advance.requires((mid,)),
        ensures
            exists|report: HandshakeStep<S, M, E>|
                {
                    &&& (final(self)@, res) == handshake_poll(old(self)@->0, report)
                    &&& engine_asked(old(self)@) matches Some(mid) ==> advance.ensures(
                        (mid,),
                        report,
                    )
                },
    {
        match self.inner.take() {
            None => unreached(),
            Some(HandshakeStep::Pending(mid)) => {
                let report = advance(mid);
                assert(settled(report) == handshake_poll(old(self)@->0, report));
                self.settle(report)
            },
            Some(step) => {
                assert(settled(step) == handshake_poll(old(self)@->0, step));
                self.settle(step)
            },
        }
    }
}

} // verus!
