//! Runs of polls, of a handshake and of a connection attempt, and what holds
//! of every run. A run is told by what the collaborators answer at each
//! poll, so what is proved here holds for every transport, every plain
//! connector and every security engine. A run ends where the process has
//! reported its end: no poll is admitted after that.

use vstd::prelude::*;
use crate::client::{
    asked_to_advance, asked_to_start, asked_transport, connect_poll, is_refused,
    is_secure_scheme, routed, Answers, ConnectPoll, ConnectState, Refusal,
};
use crate::error::HttpsConnectorError;
use crate::host::strip_brackets;
use crate::poll::Poll;
use crate::stream::{
    engine_asked, handshake_poll, polled_step, HandshakePoll, HandshakeStep, MaybeHttpsStream,
    TlsStream,
};

verus! {

/// A run of polls of a handshake that starts at `state`: the poll at index
/// `i` finds the engine answering `reports[i]` if it is asked. The run ends
/// with the reports or with the handshake, whichever ends first. Gives where
/// the handshake stands at the end and what each poll reported.
pub open spec fn handshake_run<S, M, E>(
    state: Option<HandshakeStep<S, M, E>>,
    reports: Seq<HandshakeStep<S, M, E>>,
) -> (Option<HandshakeStep<S, M, E>>, Seq<HandshakePoll<S, E>>)
    decreases reports.len(),
{
    if reports.len() == 0 || state is None {
        (state, Seq::empty())
    } else {
        let polled = handshake_poll(state->0, reports[0]);
        let rest = handshake_run(polled.0, reports.drop_first());
        (rest.0, seq![polled.1] + rest.1)
    }
}

/// How often the engine is asked to go on in a run of polls.
pub open spec fn times_asked<S, M, E>(
    state: Option<HandshakeStep<S, M, E>>,
    reports: Seq<HandshakeStep<S, M, E>>,
) -> nat
    decreases reports.len(),
{
    if reports.len() == 0 || state is None {
        0
    } else {
        let asked: nat = if engine_asked(state) is Some {
            1
        } else {
            0
        };
        asked + times_asked(handshake_poll(state->0, reports[0]).0, reports.drop_first())
    }
}

/// The reports of an engine that would block once for each of `mids`, in
/// order, and then completes with `session`.
pub open spec fn blocks_then_completes<S, M, E>(mids: Seq<M>, session: S) -> Seq<
    HandshakeStep<S, M, E>,
> {
    mids.map_values(|mid: M| HandshakeStep::<S, M, E>::Pending(mid)).push(
        HandshakeStep::Done(session),
    )
}

/// A pending handshake whose engine would block n times and then completes
/// suspends exactly n times and reports the session at the poll after: the
/// run has n + 1 polls, the first n report pending, the last one reports the
/// session, and the handshake is then over. Each of these polls asks the
/// engine exactly once, so the engine is asked n + 1 times: once for each
/// time it would block, and once more to complete.
pub proof fn lemma_suspends_once_per_would_block<S, M, E>(start: M, mids: Seq<M>, session: S)
    ensures
        ({
            let run = handshake_run(
                Some(HandshakeStep::<S, M, E>::Pending(start)),
                blocks_then_completes::<S, M, E>(mids, session),
            );
            &&& run.0 is None
            &&& run.1.len() == mids.len() + 1
            &&& forall|i: int| 0 <= i < mids.len() ==> run.1[i] == Poll::<Result<S, E>>::Pending
            &&& run.1[mids.len() as int] == Poll::<Result<S, E>>::Ready(Ok(session))
            &&& times_asked(
                Some(HandshakeStep::<S, M, E>::Pending(start)),
                blocks_then_completes::<S, M, E>(mids, session),
            ) == mids.len() + 1
        }),
    decreases mids.len(),
{
    let reports = blocks_then_completes::<S, M, E>(mids, session);
    let state = Some(HandshakeStep::<S, M, E>::Pending(start));
    let polled = handshake_poll(state->0, reports[0]);
    if mids.len() == 0 {
        assert(reports.drop_first().len() == 0);
        assert(handshake_run(polled.0, reports.drop_first()).1 =~= Seq::empty());
        assert(times_asked(polled.0, reports.drop_first()) == 0);
    } else {
        let tail = mids.drop_first();
        assert(reports.drop_first() =~= blocks_then_completes::<S, M, E>(tail, session));
        assert(polled.0 == Some(HandshakeStep::<S, M, E>::Pending(mids[0])));
        lemma_suspends_once_per_would_block::<S, M, E>(mids[0], tail, session);
        let rest = handshake_run(polled.0, reports.drop_first());
        let run = handshake_run(state, reports);
        assert(run.1 =~= seq![polled.1] + rest.1);
        assert forall|i: int| 0 <= i < mids.len() implies run.1[i] == Poll::<
            Result<S, E>,
        >::Pending by {
            if i > 0 {
                assert(run.1[i] == rest.1[i - 1]);
            }
        }
        assert(run.1[mids.len() as int] == rest.1[mids.len() - 1]);
    }
}

/// A failure is final. When the engine fails a pending handshake, or had
/// failed it at its first step, the poll reports the failure and the
/// handshake is over: the run ends there, whatever the engine would answer
/// later. Nothing is reported after the failure, no session ever, and the
/// engine is not asked again.
pub proof fn lemma_failure_is_final<S, M, E>(
    state: HandshakeStep<S, M, E>,
    report: HandshakeStep<S, M, E>,
    error: E,
    later: Seq<HandshakeStep<S, M, E>>,
)
    requires
        polled_step(state, report) == HandshakeStep::<S, M, E>::Failed(error),
    ensures
        handshake_run(Some(state), seq![report] + later) == (
            None::<HandshakeStep<S, M, E>>,
            seq![Poll::<Result<S, E>>::Ready(Err(error))],
        ),
        times_asked(Some(state), seq![report] + later) == (if state is Pending {
            1nat
        } else {
            0nat
        }),
{
    let reports = seq![report] + later;
    let polled = handshake_poll(state, reports[0]);
    let rest = handshake_run(polled.0, reports.drop_first());
    assert(rest.1 =~= Seq::empty());
    assert(seq![polled.1] + rest.1 =~= seq![polled.1]);
    assert(times_asked(polled.0, reports.drop_first()) == 0);
}

/// The session is reported once. When the engine completes a pending
/// handshake, or had completed it at its first step, the poll reports the
/// session and the handshake is over: the run ends there, and the handshake
/// never stands at pending again.
pub proof fn lemma_session_is_reported_once<S, M, E>(
    state: HandshakeStep<S, M, E>,
    report: HandshakeStep<S, M, E>,
    session: S,
    later: Seq<HandshakeStep<S, M, E>>,
)
    requires
        polled_step(state, report) == HandshakeStep::<S, M, E>::Done(session),
    ensures
        handshake_run(Some(state), seq![report] + later) == (
            None::<HandshakeStep<S, M, E>>,
            seq![Poll::<Result<S, E>>::Ready(Ok(session))],
        ),
{
    let reports = seq![report] + later;
    let polled = handshake_poll(state, reports[0]);
    let rest = handshake_run(polled.0, reports.drop_first());
    assert(rest.1 =~= Seq::empty());
    assert(seq![polled.1] + rest.1 =~= seq![polled.1]);
}

/// A run of polls of a connection attempt that starts at `state`: the poll at
/// index `i` finds the collaborators answering `answers[i]` if they are
/// asked. The run ends with the answers or with the attempt, whichever ends
/// first. Gives where the attempt stands at the end and what each poll
/// reported.
pub open spec fn connect_run<F, C, T, E, S, M, X>(
    state: Option<ConnectState<F, C, M>>,
    answers: Seq<Answers<F, T, E, S, M, X>>,
) -> (Option<ConnectState<F, C, M>>, Seq<ConnectPoll<T, S, E, X>>)
    decreases answers.len(),
{
    if answers.len() == 0 || state is None {
        (state, Seq::empty())
    } else {
        let polled = connect_poll(state->0, answers[0]);
        let rest = connect_run(polled.0, answers.drop_first());
        (rest.0, seq![polled.1] + rest.1)
    }
}

/// No connection is attempted for a refused target, whatever the refusal:
/// the attempt polls no plain connector and asks no engine, and its first
/// poll reports the failure of the refusal, whatever the collaborators would
/// answer, and is the end of the attempt.
pub proof fn lemma_refusal_attempts_nothing<F, C, T, E, S, M, X>(
    why: Refusal,
    answers: Answers<F, T, E, S, M, X>,
)
    ensures
        asked_transport(ConnectState::<F, C, M>::Refused(why)) is None,
        asked_to_start(ConnectState::<F, C, M>::Refused(why), answers) is None,
        asked_to_advance(ConnectState::<F, C, M>::Refused(why), answers) is None,
        connect_poll(ConnectState::<F, C, M>::Refused(why), answers) == (
            None::<ConnectState<F, C, M>>,
            Poll::Ready(Err::<MaybeHttpsStream<T, S>, _>(why.failure::<E, X>())),
        ),
{
}

/// A connector that accepts only secure targets refuses every target whose
/// scheme is not the secure one, whatever its host. By
/// `lemma_refusal_attempts_nothing` the attempt for it polls no plain
/// connector and asks no engine; its first poll reports that the scheme was
/// not secure.
pub proof fn lemma_secure_only_refuses<F, C, T, E, S, M, X>(
    scheme: Option<Seq<char>>,
    host: Option<Seq<char>>,
    answers: Answers<F, T, E, S, M, X>,
)
    requires
        !is_secure_scheme(scheme),
    ensures
        routed(true, scheme, host) == Err::<(bool, Seq<char>), _>(Refusal::NotSecure),
        asked_transport(ConnectState::<F, C, M>::Refused(Refusal::NotSecure)) is None,
        connect_poll(ConnectState::<F, C, M>::Refused(Refusal::NotSecure), answers) == (
            None::<ConnectState<F, C, M>>,
            Poll::Ready(
                Err::<MaybeHttpsStream<T, S>, _>(
                    HttpsConnectorError::<E, X>::ForceHttpsButUriNotHttps,
                ),
            ),
        ),
{
}

/// A target without a host that passes the judgement of its scheme is
/// refused for want of a host, be it plain or secure. By
/// `lemma_refusal_attempts_nothing` the attempt for it polls no plain
/// connector and asks no engine, so no handshake is started with an empty
/// name; its first poll reports the missing host, and no stream.
pub proof fn lemma_missing_host_is_refused<F, C, T, E, S, M, X>(
    secure_only: bool,
    scheme: Option<Seq<char>>,
    answers: Answers<F, T, E, S, M, X>,
)
    requires
        !is_refused(secure_only, scheme),
    ensures
        routed(secure_only, scheme, None) == Err::<(bool, Seq<char>), _>(Refusal::NoHost),
        asked_transport(ConnectState::<F, C, M>::Refused(Refusal::NoHost)) is None,
        asked_to_start(ConnectState::<F, C, M>::Refused(Refusal::NoHost), answers) is None,
        connect_poll(ConnectState::<F, C, M>::Refused(Refusal::NoHost), answers) == (
            None::<ConnectState<F, C, M>>,
            Poll::Ready(Err::<MaybeHttpsStream<T, S>, _>(HttpsConnectorError::<E, X>::MissingHost)),
        ),
{
}

/// A target with the secure scheme and a host is never refused, and the
/// decision for it is to secure the connection.
pub proof fn lemma_secure_scheme_is_secured(
    secure_only: bool,
    scheme: Option<Seq<char>>,
    host: Seq<char>,
)
    requires
        is_secure_scheme(scheme),
    ensures
        routed(secure_only, scheme, Some(host)) == Ok::<_, Refusal>((true, strip_brackets(host))),
{
}

/// A connector that accepts every scheme decides for a target with a host
/// whose scheme is not the secure one that the connection is plain.
pub proof fn lemma_other_scheme_is_plain(scheme: Option<Seq<char>>, host: Seq<char>)
    requires
        !is_secure_scheme(scheme),
    ensures
        routed(false, scheme, Some(host)) == Ok::<_, Refusal>((false, strip_brackets(host))),
{
}

/// For a plain target, the transport that the plain connector delivers is
/// the stream, of the plain-text variant, in the poll that delivers it. No
/// handshake is attempted: the engine is asked neither for a first step nor
/// to go on, and whatever it would answer changes nothing. While the plain
/// connector is pending the attempt stays a plain one.
pub proof fn lemma_plain_target_yields_plain_stream<F, C, T, E, S, M, X>(
    pending: F,
    factory: C,
    host: Seq<char>,
    answers: Answers<F, T, E, S, M, X>,
)
    ensures
        ({
            let state = ConnectState::<F, C, M>::Connecting {
                pending,
                factory,
                host,
                secure: false,
            };
            let polled = connect_poll(state, answers);
            &&& asked_to_start(state, answers) is None
            &&& asked_to_advance(state, answers) is None
            &&& !(polled.0 matches Some(ConnectState::Securing(_)))
            &&& answers.transport matches Poll::Ready(Ok(transport)) ==> polled == (
                None::<ConnectState<F, C, M>>,
                Poll::Ready(
                    Ok::<_, HttpsConnectorError<E, X>>(MaybeHttpsStream::<T, S>::Http(transport)),
                ),
            )
            &&& answers.transport is Pending ==> polled.0 == Some(
                ConnectState::<F, C, M>::Connecting {
                    pending: answers.pending,
                    factory,
                    host,
                    secure: false,
                },
            )
            &&& polled.1 matches Poll::Ready(Ok(stream)) ==> !stream.secure()
        }),
{
}

/// Whether an attempt is one for a secure target.
pub open spec fn securing<F, C, M>(state: ConnectState<F, C, M>) -> bool {
    match state {
        ConnectState::Connecting { secure, .. } => secure,
        ConnectState::Securing(_) => true,
        _ => false,
    }
}

/// An attempt for a secure target never gives a plain-text stream: whatever
/// the collaborators answer, a stream that a poll reports is of the
/// protected variant, and the attempt is afterwards still one for a secure
/// target or has ended.
pub proof fn lemma_secure_target_never_plain<F, C, T, E, S, M, X>(
    state: ConnectState<F, C, M>,
    answers: Answers<F, T, E, S, M, X>,
)
    requires
        securing(state),
    ensures
        connect_poll(state, answers).0 matches Some(next) ==> securing(next),
        connect_poll(state, answers).1 matches Poll::Ready(Ok(stream)) ==> stream.secure(),
{
}

/// When the engine's first step on the delivered transport completes at
/// once, the same poll reports the protected stream that wraps the session:
/// the engine was asked for its first step, with the factory, the name and
/// the transport of the attempt, and was not asked to go on.
pub proof fn lemma_first_step_may_complete<F, C, T, E, S, M, X>(
    pending: F,
    factory: C,
    host: Seq<char>,
    transport: T,
    session: S,
    answers: Answers<F, T, E, S, M, X>,
)
    requires
        answers.transport == Poll::<Result<T, E>>::Ready(Ok(transport)),
        answers.first == HandshakeStep::<S, M, X>::Done(session),
    ensures
        ({
            let state = ConnectState::<F, C, M>::Connecting {
                pending,
                factory,
                host,
                secure: true,
            };
            &&& asked_to_start(state, answers) == Some((factory, host, transport))
            &&& asked_to_advance(state, answers) is None
            &&& connect_poll(state, answers) == (
                None::<ConnectState<F, C, M>>,
                Poll::Ready(
                    Ok::<_, HttpsConnectorError<E, X>>(
                        MaybeHttpsStream::<T, S>::Https(TlsStream::wrapping(session)),
                    ),
                ),
            )
        }),
{
}

/// There is no partial success. A poll that reports ready, with the stream
/// or with a failure, ends the attempt, and one that suspends does not; a
/// plain connector's failure and an engine's failure are each reported as
/// the failure of the attempt, under the variant that names the
/// collaborator.
pub proof fn lemma_ready_is_the_end<F, C, T, E, S, M, X>(
    state: ConnectState<F, C, M>,
    answers: Answers<F, T, E, S, M, X>,
)
    ensures
        connect_poll(state, answers).1 is Ready <==> connect_poll(state, answers).0 is None,
        (state is Connecting && answers.transport matches Poll::Ready(Err(error))) ==> connect_poll(
            state,
            answers,
        ).1 == Poll::Ready(
            Err::<MaybeHttpsStream<T, S>, _>(
                HttpsConnectorError::<E, X>::HttpConnector(answers.transport->Ready_0->Err_0),
            ),
        ),
        (asked_to_advance(state, answers) is Some && answers.next matches HandshakeStep::Failed(
            error,
        )) ==> connect_poll(state, answers).1 == Poll::Ready(
            Err::<MaybeHttpsStream<T, S>, _>(
                HttpsConnectorError::<E, X>::NativeTls(answers.next->Failed_0),
            ),
        ),
{
}

/// The polls of a handshake under way whose engine would block once for each
/// of `mids` and then completes with `session`: each of the first polls
/// suspends, the last one reports the protected stream that wraps the
/// session, and the attempt has ended.
pub proof fn lemma_securing_run<F, C, T, E, S, M, X>(
    start: M,
    mids: Seq<M>,
    session: S,
    answers: Seq<Answers<F, T, E, S, M, X>>,
)
    requires
        answers.len() == mids.len() + 1,
        forall|i: int|
            0 <= i < answers.len() ==> (#[trigger] answers[i]).next == blocks_then_completes::<
                S,
                M,
                X,
            >(mids, session)[i],
    ensures
        ({
            let run = connect_run(Some(ConnectState::<F, C, M>::Securing(start)), answers);
            &&& run.0 is None
            &&& run.1.len() == mids.len() + 1
            &&& forall|i: int|
                0 <= i < mids.len() ==> run.1[i] == Poll::<
                    Result<MaybeHttpsStream<T, S>, HttpsConnectorError<E, X>>,
                >::Pending
            &&& run.1[mids.len() as int] == Poll::Ready(
                Ok::<_, HttpsConnectorError<E, X>>(
                    MaybeHttpsStream::<T, S>::Https(TlsStream::wrapping(session)),
                ),
            )
        }),
    decreases mids.len(),
{
    let reports = blocks_then_completes::<S, M, X>(mids, session);
    let state = Some(ConnectState::<F, C, M>::Securing(start));
    let polled = connect_poll(state->0, answers[0]);
    let run = connect_run(state, answers);
    let rest = connect_run(polled.0, answers.drop_first());
    assert(answers[0].next == reports[0]);
    assert(run.1 =~= seq![polled.1] + rest.1);
    if mids.len() == 0 {
        assert(answers.drop_first().len() == 0);
        assert(rest.1 =~= Seq::empty());
    } else {
        let tail = mids.drop_first();
        let later = answers.drop_first();
        assert(reports.drop_first() =~= blocks_then_completes::<S, M, X>(tail, session));
        assert forall|i: int| 0 <= i < later.len() implies (#[trigger] later[i]).next
            == blocks_then_completes::<S, M, X>(tail, session)[i] by {
            assert(later[i] == answers[i + 1]);
            assert(reports.drop_first()[i] == reports[i + 1]);
        }
        assert(polled.0 == Some(ConnectState::<F, C, M>::Securing(mids[0])));
        lemma_securing_run::<F, C, T, E, S, M, X>(mids[0], tail, session, later);
        assert forall|i: int| 0 <= i < mids.len() implies run.1[i] == Poll::<
            Result<MaybeHttpsStream<T, S>, HttpsConnectorError<E, X>>,
        >::Pending by {
            if i > 0 {
                assert(run.1[i] == rest.1[i - 1]);
            }
        }
        assert(run.1[mids.len() as int] == rest.1[mids.len() - 1]);
    }
}

/// For a secure target whose plain connector delivers the transport at once
/// and whose engine succeeds, the attempt yields a stream of the protected
/// variant. In full: the engine's first step would block; asked to go on, it
/// would block once for each of `mids` and then completes with `session`.
/// The attempt then suspends exactly once for each of `mids` and reports, at
/// the poll after, the protected stream that wraps `session`; no poll
/// reports a failure.
pub proof fn lemma_secure_target_yields_secure_stream<F, C, T, E, S, M, X>(
    pending: F,
    factory: C,
    host: Seq<char>,
    transport: T,
    start: M,
    mids: Seq<M>,
    session: S,
    answers: Seq<Answers<F, T, E, S, M, X>>,
)
    requires
        answers.len() == mids.len() + 1,
        answers[0].transport == Poll::<Result<T, E>>::Ready(Ok(transport)),
        answers[0].first == HandshakeStep::<S, M, X>::Pending(start),
        forall|i: int|
            0 <= i < answers.len() ==> (#[trigger] answers[i]).next == blocks_then_completes::<
                S,
                M,
                X,
            >(mids, session)[i],
    ensures
        ({
            let run = connect_run(
                Some(ConnectState::<F, C, M>::Connecting { pending, factory, host, secure: true }),
                answers,
            );
            &&& run.0 is None
            &&& run.1.len() == mids.len() + 1
            &&& forall|i: int|
                0 <= i < mids.len() ==> run.1[i] == Poll::<
                    Result<MaybeHttpsStream<T, S>, HttpsConnectorError<E, X>>,
                >::Pending
            &&& run.1[mids.len() as int] == Poll::Ready(
                Ok::<_, HttpsConnectorError<E, X>>(
                    MaybeHttpsStream::<T, S>::Https(TlsStream::wrapping(session)),
                ),
            )
            &&& MaybeHttpsStream::<T, S>::Https(TlsStream::wrapping(session)).secure()
        }),
{
    let connecting = ConnectState::<F, C, M>::Connecting { pending, factory, host, secure: true };
    let under_way = ConnectState::<F, C, M>::Securing(start);
    assert(connect_poll(connecting, answers[0]) == connect_poll(under_way, answers[0]));
    assert(connect_run(Some(connecting), answers) == connect_run(Some(under_way), answers));
    lemma_securing_run::<F, C, T, E, S, M, X>(start, mids, session, answers);
}

/// A run in two parts is the run of the first part followed by the run of
/// the second part from where the first part ends.
pub proof fn lemma_run_in_two_parts<F, C, T, E, S, M, X>(
    state: Option<ConnectState<F, C, M>>,
    first: Seq<Answers<F, T, E, S, M, X>>,
    second: Seq<Answers<F, T, E, S, M, X>>,
)
    ensures
        ({
            let before = connect_run(state, first);
            let after = connect_run(before.0, second);
            connect_run(state, first + second) == (after.0, before.1 + after.1)
        }),
    decreases first.len(),
{
    let before = connect_run(state, first);
    let after = connect_run(before.0, second);
    if first.len() == 0 {
        assert(first + second =~= second);
        assert(before.1 + after.1 =~= after.1);
    } else if state is None {
        assert(before.1 + after.1 =~= Seq::empty());
    } else {
        let polled = connect_poll(state->0, first[0]);
        assert((first + second)[0] == first[0]);
        assert((first + second).drop_first() =~= first.drop_first() + second);
        lemma_run_in_two_parts(polled.0, first.drop_first(), second);
        let rest = connect_run(polled.0, first.drop_first());
        assert(seq![polled.1] + (rest.1 + after.1) =~= (seq![polled.1] + rest.1) + after.1);
    }
}

/// While the plain connector is not ready the attempt waits: each poll that
/// finds it pending suspends, and the attempt stays as it was but for what
/// the plain connector has made of its work in progress. No engine is asked.
pub proof fn lemma_waits_for_the_plain_connector<F, C, T, E, S, M, X>(
    pending: F,
    factory: C,
    host: Seq<char>,
    secure: bool,
    answers: Seq<Answers<F, T, E, S, M, X>>,
)
    requires
        forall|i: int| 0 <= i < answers.len() ==> (#[trigger] answers[i]).transport is Pending,
    ensures
        ({
            let run = connect_run(
                Some(ConnectState::<F, C, M>::Connecting { pending, factory, host, secure }),
                answers,
            );
            &&& run.0 == Some(
                ConnectState::<F, C, M>::Connecting {
                    pending: if answers.len() == 0 {
                        pending
                    } else {
                        answers.last().pending
                    },
                    factory,
                    host,
                    secure,
                },
            )
            &&& run.1.len() == answers.len()
            &&& forall|i: int|
                0 <= i < answers.len() ==> run.1[i] == Poll::<
                    Result<MaybeHttpsStream<T, S>, HttpsConnectorError<E, X>>,
                >::Pending
        }),
    decreases answers.len(),
{
    if answers.len() > 0 {
        let state = Some(ConnectState::<F, C, M>::Connecting { pending, factory, host, secure });
        let polled = connect_poll(state->0, answers[0]);
        let later = answers.drop_first();
        assert forall|i: int| 0 <= i < later.len() implies (#[trigger] later[i]).transport is Pending by {
            assert(later[i] == answers[i + 1]);
        }
        lemma_waits_for_the_plain_connector(answers[0].pending, factory, host, secure, later);
        let rest = connect_run(polled.0, later);
        let run = connect_run(state, answers);
        assert(run.1 =~= seq![polled.1] + rest.1);
        assert forall|i: int| 0 <= i < answers.len() implies run.1[i] == Poll::<
            Result<MaybeHttpsStream<T, S>, HttpsConnectorError<E, X>>,
        >::Pending by {
            if i > 0 {
                assert(run.1[i] == rest.1[i - 1]);
            }
        }
        if later.len() > 0 {
            assert(later.last() == answers.last());
        }
    }
}

/// For a secure target, when the plain connector succeeds and the security
/// engine succeeds, the attempt yields a stream of the protected variant.
///
/// In full: the plain connector is pending for the polls of `waits` and then
/// delivers `transport`; the engine's first step on it would block; asked to
/// go on, the engine would block once for each of `mids` and then completes
/// with `session`. Then every poll but the last suspends, there is one
/// suspension for each poll of `waits` and one for each of `mids`, and the
/// last poll reports the protected stream that wraps `session`.
pub proof fn lemma_secure_connect<F, C, T, E, S, M, X>(
    pending: F,
    factory: C,
    host: Seq<char>,
    waits: Seq<Answers<F, T, E, S, M, X>>,
    transport: T,
    start: M,
    mids: Seq<M>,
    session: S,
    answers: Seq<Answers<F, T, E, S, M, X>>,
)
    requires
        forall|i: int| 0 <= i < waits.len() ==> (#[trigger] waits[i]).transport is Pending,
        answers.len() == mids.len() + 1,
        answers[0].transport == Poll::<Result<T, E>>::Ready(Ok(transport)),
        answers[0].first == HandshakeStep::<S, M, X>::Pending(start),
        forall|i: int|
            0 <= i < answers.len() ==> (#[trigger] answers[i]).next == blocks_then_completes::<
                S,
                M,
                X,
            >(mids, session)[i],
    ensures
        ({
            let run = connect_run(
                Some(ConnectState::<F, C, M>::Connecting { pending, factory, host, secure: true }),
                waits + answers,
            );
            let polls = waits.len() + mids.len() + 1;
            &&& run.0 is None
            &&& run.1.len() == polls
            &&& forall|i: int|
                0 <= i < polls - 1 ==> run.1[i] == Poll::<
                    Result<MaybeHttpsStream<T, S>, HttpsConnectorError<E, X>>,
                >::Pending
            &&& run.1[polls - 1] == Poll::Ready(
                Ok::<_, HttpsConnectorError<E, X>>(
                    MaybeHttpsStream::<T, S>::Https(TlsStream::wrapping(session)),
                ),
            )
            &&& MaybeHttpsStream::<T, S>::Https(TlsStream::wrapping(session)).secure()
        }),
{
    let state = Some(ConnectState::<F, C, M>::Connecting { pending, factory, host, secure: true });
    lemma_waits_for_the_plain_connector(pending, factory, host, true, waits);
    let waited = connect_run(state, waits);
    lemma_run_in_two_parts(state, waits, answers);
    lemma_secure_target_yields_secure_stream(
        waited.0->0->pending,
        factory,
        host,
        transport,
        start,
        mids,
        session,
        answers,
    );
    let rest = connect_run(waited.0, answers);
    let run = connect_run(state, waits + answers);
    assert(run.1 == waited.1 + rest.1);
    assert forall|i: int| 0 <= i < waits.len() + mids.len() implies run.1[i] == Poll::<
        Result<MaybeHttpsStream<T, S>, HttpsConnectorError<E, X>>,
    >::Pending by {
        if i >= waits.len() {
            assert(run.1[i] == rest.1[i - waits.len()]);
        }
    }
    assert(run.1[(waits.len() + mids.len()) as int] == rest.1[mids.len() as int]);
}

} // verus!
