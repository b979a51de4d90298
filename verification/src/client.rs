//! The connector: for a target it decides between a plain and a secured
//! connection, and drives the attempt to the stream or to the failure.

use vstd::prelude::*;
use vstd::pervasive::{cloned, unreached};
use hyper::client::connect::HttpConnector;
use hyper::client::connect::dns::GaiResolver;
use hyper::Uri;
use crate::error::HttpsConnectorError;
use crate::host::{strip_brackets, trim_brackets};
use crate::poll::Poll;
use crate::stream::{
    engine_asked, handshake_poll, polled_step, settled, HandshakeStep, Handshaking,
    MaybeHttpsStream, SyncStream, TlsStream,
};

verus! {

/// `hyper::Uri` (the `Uri` of the `http` crate): the target of a connection
/// attempt, parsed. The connector reads its scheme and its host and hands it
/// on to the plain connector; it sees nothing else of it.
#[verifier::external_type_specification]
#[verifier::external_body]
pub struct ExUri(hyper::Uri);

/// `hyper::client::connect::HttpConnector`: hyper's connector for plain
/// connections, over a name resolver `R`. The connector core carries it and
/// sees nothing inside.
#[verifier::external_type_specification]
#[verifier::external_body]
#[verifier::reject_recursive_types(R)]
pub struct ExHttpConnector<R>(hyper::client::connect::HttpConnector<R>);

/// `hyper::client::connect::dns::GaiResolver`: the name resolver of hyper's
/// plain connector when nothing else is chosen.
#[verifier::external_type_specification]
#[verifier::external_body]
pub struct ExGaiResolver(hyper::client::connect::dns::GaiResolver);

/// The scheme that `Uri::scheme_str` gives for a target: the text before
/// `://`, if the target has one. A target is not changed once it is parsed,
/// so the same target always gives the same scheme.
pub uninterp spec fn uri_scheme(uri: hyper::Uri) -> Option<Seq<char>>;

/// The host that `Uri::host` gives for a target: the host part of its
/// authority, if the target has an authority; a literal address comes in its
/// brackets. The same target always gives the same host.
pub uninterp spec fn uri_host(uri: hyper::Uri) -> Option<Seq<char>>;

/// Whether hyper's plain connector refuses targets whose scheme is not
/// `http`: the setting that `HttpConnector::enforce_http` writes.
pub uninterp spec fn enforces_http(connector: HttpConnector<GaiResolver>) -> bool;

/// `Uri::scheme_str` gives the scheme of a target as text, if the target has
/// one. What it gives depends on the target alone and is named `uri_scheme`;
/// nothing is claimed of which text that is.
pub assume_specification<'a>[ hyper::Uri::scheme_str ](uri: &'a hyper::Uri) -> (scheme: Option<
    &'a str,
>)
    ensures
        text_of(scheme) == uri_scheme(*uri),
;

/// `Uri::host` gives the host of a target as text, if the target has one.
/// What it gives depends on the target alone and is named `uri_host`; nothing
/// is claimed of which text that is.
pub assume_specification<'a>[ hyper::Uri::host ](uri: &'a hyper::Uri) -> (host: Option<&'a str>)
    ensures
        text_of(host) == uri_host(*uri),
;

/// `HttpConnector::new` makes a plain connector with hyper's defaults, over
/// the default resolver. Nothing is claimed of its settings.
pub assume_specification[ hyper::client::connect::HttpConnector::<hyper::client::connect::dns::GaiResolver>::new ]() -> (connector:
    hyper::client::connect::HttpConnector<hyper::client::connect::dns::GaiResolver>)
;

/// Calls `HttpConnector::enforce_http`, which writes the setting whether the
/// plain connector refuses targets whose scheme is not `http`. Afterwards
/// the setting is what was given.
#[verifier::external_body]
fn set_enforce_http(connector: &mut HttpConnector<GaiResolver>, is_enforced: bool)
    ensures
        enforces_http(*final(connector)) == is_enforced,
{
    connector.enforce_http(is_enforced);
}

/// The text of an optional string.
pub open spec fn text_of(text: Option<&str>) -> Option<Seq<char>> {
    match text {
        Some(s) => Some(s@),
        None => None,
    }
}

/// Whether a scheme asks for a secured connection: only `https` does.
pub open spec fn is_secure_scheme(scheme: Option<Seq<char>>) -> bool {
    scheme == Some("https"@)
}

/// Whether a target is refused for its scheme: it is when only secure
/// targets are accepted and its scheme is not the secure one.
pub open spec fn is_refused(secure_only: bool, scheme: Option<Seq<char>>) -> bool {
    secure_only && !is_secure_scheme(scheme)
}

/// Why no connection is attempted for a target.
#[derive(Debug, PartialEq, Eq)]
pub enum Refusal {
    /// Only secure targets are accepted, and the scheme of the target is not
    /// the secure one.
    NotSecure,
    /// The target has no host.
    NoHost,
}

impl Refusal {
    /// The failure that an attempt reports for this refusal.
    pub open spec fn failure<E, X>(self) -> HttpsConnectorError<E, X> {
        match self {
            Refusal::NotSecure => HttpsConnectorError::ForceHttpsButUriNotHttps,
            Refusal::NoHost => HttpsConnectorError::MissingHost,
        }
    }

    /// The failure that an attempt reports for this refusal.
    pub fn into_failure<E, X>(self) -> (error: HttpsConnectorError<E, X>)
        ensures
            error == self.failure::<E, X>(),
    {
        match self {
            Refusal::NotSecure => HttpsConnectorError::ForceHttpsButUriNotHttps,
            Refusal::NoHost => HttpsConnectorError::MissingHost,
        }
    }
}

/// What the connector has decided for a target that it accepts.
#[derive(Debug, PartialEq, Eq)]
pub struct Route {
    /// Whether the connection is to be secured.
    pub secure: bool,
    /// The name that the peer's certificate is matched against.
    pub host: String,
}

/// What is decided for a target with the given scheme and host. The scheme
/// is judged first: where only secure targets are accepted, a target whose
/// scheme is not `https` is refused as not secure. A target that passes and
/// has no host is refused for that. For any other target the connection is
/// secured exactly when the scheme is `https`, and the name to match is the
/// host without the brackets of a literal address.
pub open spec fn routed(secure_only: bool, scheme: Option<Seq<char>>, host: Option<Seq<char>>) -> Result<
    (bool, Seq<char>),
    Refusal,
> {
    if is_refused(secure_only, scheme) {
        Err(Refusal::NotSecure)
    } else {
        match host {
            None => Err(Refusal::NoHost),
            Some(text) => Ok((is_secure_scheme(scheme), strip_brackets(text))),
        }
    }
}

/// A decision as plain values.
pub open spec fn route_of(decided: Result<Route, Refusal>) -> Result<(bool, Seq<char>), Refusal> {
    match decided {
        Ok(route) => Ok((route.secure, route.host@)),
        Err(why) => Err(why),
    }
}

fn same_text(a: &str, b: &str) -> (same: bool)
    ensures
        same == (a@ == b@),
{
    a.to_owned() == b.to_owned()
}

/// Decides what to do for a target with the given scheme and host, as
/// `routed` says.
pub fn route(secure_only: bool, scheme: Option<&str>, host: Option<&str>) -> (decided: Result<
    Route,
    Refusal,
>)
    ensures
        route_of(decided) == routed(secure_only, text_of(scheme), text_of(host)),
{
    let secure = match scheme {
        Some(name) => same_text(name, "https"),
        None => false,
    };
    if !secure && secure_only {
        return Err(Refusal::NotSecure);
    }
    match host {
        Some(text) => Ok(Route { secure, host: trim_brackets(text).to_owned() }),
        None => Err(Refusal::NoHost),
    }
}

/// A connector for targets that may ask for a secured connection: a plain
/// connector, a factory of security sessions, and whether targets that do
/// not ask for a secured connection are refused.
#[derive(Debug)]
pub struct HttpsConnector<T, C> {
    force_https: bool,
    http: T,
    tls: C,
}

impl<T, C> HttpsConnector<T, C> {
    /// Whether targets without the secure scheme are refused.
    pub closed spec fn secure_only(self) -> bool {
        self.force_https
    }

    /// The plain connector.
    pub closed spec fn plain(self) -> T {
        self.http
    }

    /// The factory of security sessions.
    pub closed spec fn factory(self) -> C {
        self.tls
    }

    /// The connector made of a plain connector and a session factory. It
    /// accepts every scheme.
    pub closed spec fn of(http: T, tls: C) -> Self {
        HttpsConnector { force_https: false, http, tls }
    }

    /// What a connector made of parts holds.
    pub broadcast proof fn lemma_of(http: T, tls: C)
        ensures
            !(#[trigger] Self::of(http, tls)).secure_only(),
            Self::of(http, tls).plain() == http,
            Self::of(http, tls).factory() == tls,
    {
    }

    /// What is made of a plain connector and of the outcome of making a
    /// session factory: with the factory, the connector made of the two;
    /// with a failure, that failure.
    pub open spec fn made_of<X>(http: T, outcome: Result<C, X>) -> Result<Self, X> {
        match outcome {
            Ok(tls) => Ok(Self::of(http, tls)),
            Err(error) => Err(error),
        }
    }

    /// The connector over a plain connector, given how the making of the
    /// session factory has ended. Where the factory was made, the connector
    /// is the one made of the plain connector and that factory, and accepts
    /// every scheme. Where it failed, the failure is handed on as it is and
    /// no connector is made.
    pub fn new_with_connector<X>(http: T, outcome: Result<C, X>) -> (made: Result<Self, X>)
        ensures
            made == Self::made_of(http, outcome),
    {
        match outcome {
            Ok(tls) => Ok(HttpsConnector::from((http, tls))),
            Err(error) => Err(error),
        }
    }

    /// Whether targets without the secure scheme are refused.
    pub fn is_https_only(&self) -> (set: bool)
        ensures
            set == self.secure_only(),
    {
        self.force_https
    }

    /// The plain connector.
    pub fn plain_connector(&self) -> (http: &T)
        ensures
            *http == self.plain(),
    {
        &self.http
    }

    /// Sets whether only secure targets are accepted. When set, a target
    /// whose scheme is not `https` is refused before any connection is
    /// attempted.
    pub fn https_only(&mut self, enable: bool)
        ensures
            final(self).secure_only() == enable,
            final(self).plain() == old(self).plain(),
            final(self).factory() == old(self).factory(),
    {
        self.force_https = enable;
    }

    /// Whether the connector is ready for a new target. The secured layer
    /// holds nothing back of its own: `probe` asks the plain connector, and
    /// its answer is the answer.
    pub fn poll_ready<R, P>(&mut self, probe: P) -> (res: R)
        where P: FnOnce(&mut T) -> R
        requires
            forall|http: &mut T| *http == old(self).plain() ==> probe.requires((http,)),
        ensures
            final(self).secure_only() == old(self).secure_only(),
            final(self).factory() == old(self).factory(),
            exists|http: &mut T|
                *http == old(self).plain() && *final(http) == final(self).plain() && probe.ensures(
                    (http,),
                    res,
                ),
    {
        probe(&mut self.http)
    }
}

impl<T: Clone, C: Clone> Clone for HttpsConnector<T, C> {
    /// A connector with the same setting, over clones of the plain connector
    /// and of the session factory.
    fn clone(&self) -> (copy: Self)
        ensures
            copy.secure_only() == self.secure_only(),
            cloned(self.plain(), copy.plain()),
            cloned(self.factory(), copy.factory()),
    {
        HttpsConnector {
            force_https: self.force_https,
            http: self.http.clone(),
            tls: self.tls.clone(),
        }
    }
}

impl<T, C> vstd::std_specs::convert::FromSpecImpl<(T, C)> for HttpsConnector<T, C> {
    open spec fn obeys_from_spec() -> bool {
        true
    }

    open spec fn from_spec(parts: (T, C)) -> Self {
        HttpsConnector::of(parts.0, parts.1)
    }
}

impl<T, C> From<(T, C)> for HttpsConnector<T, C> {
    /// A connector made of a plain connector and a session factory. It
    /// accepts every scheme until `https_only` says otherwise.
    fn from(parts: (T, C)) -> (connector: Self) {
        HttpsConnector { force_https: false, http: parts.0, tls: parts.1 }
    }
}

impl<C> HttpsConnector<HttpConnector<GaiResolver>, C> {
    /// A connector over hyper's plain connector, given how the making of the
    /// session factory has ended. The plain connector is a new one, told to
    /// let every scheme through, so that it takes a secure target to its
    /// host. Where the factory was made, the connector is the one made of
    /// that plain connector and the factory, and accepts every scheme.
    /// Where it failed, the failure is handed on as it is.
    pub fn new<X>(outcome: Result<C, X>) -> (made: Result<Self, X>)
        ensures
            match outcome {
                Ok(tls) => {
                    &&& made matches Ok(connector)
                    &&& connector == Self::of(connector.plain(), tls)
                    &&& !enforces_http(connector.plain())
                },
                Err(error) => made == Err::<Self, X>(error),
            },
    {
        let mut http = HttpConnector::new();
        set_enforce_http(&mut http, false);
        Self::new_with_connector(http, outcome)
    }
}

/// Where a connection attempt stands that has not reported its end.
pub enum ConnectState<F, C, M> {
    /// No connection is attempted for the target; the next poll reports why.
    Refused(Refusal),
    /// The plain connector is at work: what it returned for the target, the
    /// session factory, the name to match, and whether the connection is to
    /// be secured.
    Connecting { pending: F, factory: C, host: Seq<char>, secure: bool },
    /// The transport is there and the handshake is under way: the
    /// mid-handshake value that the engine goes on from.
    Securing(M),
}

/// What one poll of a connection attempt reports: ready with the stream or
/// with the failure, or pending.
pub type ConnectPoll<T, S, E, X> = Poll<Result<MaybeHttpsStream<T, S>, HttpsConnectorError<E, X>>>;

/// What the collaborators of a connection attempt answer in one poll, as far
/// as they are asked.
pub struct Answers<F, T, E, S, M, X> {
    /// What the plain connector reports when polled.
    pub transport: Poll<Result<T, E>>,
    /// What the plain connector's work in progress is after that poll.
    pub pending: F,
    /// Where the engine's first step leaves the handshake.
    pub first: HandshakeStep<S, M, X>,
    /// Where the engine leaves a pending handshake when it goes on.
    pub next: HandshakeStep<S, M, X>,
}

/// What a connection attempt makes of where the engine has left its
/// handshake, and where the attempt stands afterwards (`None` once it has
/// ended): while the handshake is pending so is the attempt; the session
/// becomes the protected stream; the engine's failure becomes the attempt's
/// failure.
pub open spec fn concluded<F, C, T, E, S, M, X>(step: HandshakeStep<S, M, X>) -> (
    Option<ConnectState<F, C, M>>,
    ConnectPoll<T, S, E, X>,
) {
    match step {
        HandshakeStep::Pending(mid) => (Some(ConnectState::Securing(mid)), Poll::Pending),
        HandshakeStep::Done(session) => (
            None,
            Poll::Ready(Ok(MaybeHttpsStream::Https(TlsStream::wrapping(session)))),
        ),
        HandshakeStep::Failed(error) => (
            None,
            Poll::Ready(Err(HttpsConnectorError::NativeTls(error))),
        ),
    }
}

/// One poll of a connection attempt that stands at `state`, where `answers`
/// holds what the collaborators answer if they are asked. Gives where the
/// attempt stands afterwards (`None` once it has ended) and what the poll
/// reports.
///
/// A refused target reports the refusal. While the plain connector is at
/// work it is polled: pending suspends, its failure ends the attempt, and
/// its transport is, for a plain target, the stream. For a secure target the
/// engine takes its first step on the transport and the handshake is polled
/// in the same poll. A handshake under way is polled.
pub open spec fn connect_poll<F, C, T, E, S, M, X>(
    state: ConnectState<F, C, M>,
    answers: Answers<F, T, E, S, M, X>,
) -> (Option<ConnectState<F, C, M>>, ConnectPoll<T, S, E, X>) {
    match state {
        ConnectState::Refused(why) => (None, Poll::Ready(Err(why.failure()))),
        ConnectState::Connecting { pending, factory, host, secure } => match answers.transport {
            Poll::Pending => (
                Some(ConnectState::Connecting { pending: answers.pending, factory, host, secure }),
                Poll::Pending,
            ),
            Poll::Ready(Err(error)) => (
                None,
                Poll::Ready(Err(HttpsConnectorError::HttpConnector(error))),
            ),
            Poll::Ready(Ok(transport)) => if secure {
                concluded(polled_step(answers.first, answers.next))
            } else {
                (None, Poll::Ready(Ok(MaybeHttpsStream::Http(transport))))
            },
        },
        ConnectState::Securing(_) => concluded(answers.next),
    }
}

/// What the plain connector returned for the target, if a poll at `state`
/// polls it: it does while the plain connector is at work, and only then.
pub open spec fn asked_transport<F, C, M>(state: ConnectState<F, C, M>) -> Option<F> {
    match state {
        ConnectState::Connecting { pending, .. } => Some(pending),
        _ => None,
    }
}

/// What the engine is handed for its first step in a poll, if it is asked to
/// take it: the session factory, the name to match and the transport. It is
/// asked when the plain connector delivers the transport of a target that is
/// to be secured, and only then.
pub open spec fn asked_to_start<F, C, T, E, S, M, X>(
    state: ConnectState<F, C, M>,
    answers: Answers<F, T, E, S, M, X>,
) -> Option<(C, Seq<char>, T)> {
    match state {
        ConnectState::Connecting { factory, host, secure, .. } => match answers.transport {
            Poll::Ready(Ok(transport)) if secure => Some((factory, host, transport)),
            _ => None,
        },
        _ => None,
    }
}

/// The mid-handshake value that the engine is asked to go on from in a poll,
/// if it is asked: that of a handshake under way, or that of a first step
/// which would block.
pub open spec fn asked_to_advance<F, C, T, E, S, M, X>(
    state: ConnectState<F, C, M>,
    answers: Answers<F, T, E, S, M, X>,
) -> Option<M> {
    match state {
        ConnectState::Connecting { secure, .. } => match (answers.transport, answers.first) {
            (Poll::Ready(Ok(_)), HandshakeStep::Pending(mid)) if secure => Some(mid),
            _ => None,
        },
        ConnectState::Securing(mid) => Some(mid),
        _ => None,
    }
}

/// Whether an attempt at `state` is one for a target that is to be secured,
/// whose plain connector is at work, with this factory and this name.
pub open spec fn may_start<F, C, M>(state: ConnectState<F, C, M>, factory: C, host: Seq<char>) -> bool {
    state matches ConnectState::Connecting { factory: held, host: name, secure, .. } && secure
        && held == factory && name == host
}

enum Stage<F, C, S, M, X> {
    Refused(Refusal),
    Connecting { pending: F, factory: C, host: String, secure: bool },
    Securing(Handshaking<S, M, X>),
    Finished,
}

/// A connection attempt: a resumable process that is polled until it reports
/// the stream or the failure. Once it has reported either it has ended, and
/// is not to be polled again.
pub struct HttpsConnecting<F, C, S, M, X> {
    stage: Stage<F, C, S, M, X>,
}

impl<F, C, S, M, X> View for HttpsConnecting<F, C, S, M, X> {
    type V = Option<ConnectState<F, C, M>>;

    /// Where the attempt stands; `None` once it has reported its end.
    closed spec fn view(&self) -> Option<ConnectState<F, C, M>> {
        match self.stage {
            Stage::Refused(why) => Some(ConnectState::Refused(why)),
            Stage::Connecting { pending, factory, host, secure } => Some(
                ConnectState::Connecting { pending, factory, host: host@, secure },
            ),
            Stage::Securing(handshake) => match engine_asked(handshake@) {
                Some(mid) => Some(ConnectState::Securing(mid)),
                None => None,
            },
            Stage::Finished => None,
        }
    }
}

impl<F, C, S, M, X> HttpsConnecting<F, C, S, M, X> {
    /// The handshake that an attempt holds between polls is pending: one
    /// that has completed or failed has ended the attempt in the poll in
    /// which it did.
    #[verifier::type_invariant]
    spec fn handshake_is_pending(self) -> bool {
        self.stage matches Stage::Securing(handshake) ==> engine_asked(handshake@) is Some
    }
}

/// The text of an optional owned string.
pub open spec fn owned_text(text: Option<String>) -> Option<Seq<char>> {
    match text {
        Some(s) => Some(s@),
        None => None,
    }
}

fn owned(text: Option<&str>) -> (copy: Option<String>)
    ensures
        owned_text(copy) == text_of(text),
{
    match text {
        Some(s) => Some(s.to_owned()),
        None => None,
    }
}

fn borrowed(text: &Option<String>) -> (lent: Option<&str>)
    ensures
        text_of(lent) == owned_text(*text),
{
    match text {
        Some(s) => Some(s.as_str()),
        None => None,
    }
}

impl<T, C: Clone> HttpsConnector<T, C> {
    /// Starts a connection attempt for a target with the given scheme and
    /// host, as `routed` decides.
    ///
    /// A target that is refused, for its scheme or for want of a host, gives
    /// an attempt that reports the refusal; the plain connector is not
    /// touched. For any other target `connect` hands the target to the plain
    /// connector, and the attempt holds what the plain connector returned, a
    /// clone of the session factory, the name to match, and whether the
    /// connection is to be secured.
    pub fn start<D, F, S, M, X, P>(
        &mut self,
        scheme: Option<&str>,
        host: Option<&str>,
        dst: D,
        connect: P,
    ) -> (attempt: HttpsConnecting<F, C, S, M, X>)
        where P: FnOnce(&mut T, D) -> F
        requires
            routed(old(self).secure_only(), text_of(scheme), text_of(host)) is Ok ==> forall|
                http: &mut T,
            | *http == old(self).plain() ==> connect.requires((http, dst)),
        ensures
            final(self).secure_only() == old(self).secure_only(),
            final(self).factory() == old(self).factory(),
            match routed(old(self).secure_only(), text_of(scheme), text_of(host)) {
                Err(why) => attempt@ == Some(ConnectState::<F, C, M>::Refused(why))
                    && final(self).plain() == old(self).plain(),
                Ok((secure, name)) => {
                    &&& attempt@ matches Some(
                        ConnectState::Connecting { pending, factory, host: matched, secure: secured },
                    )
                    &&& matched == name
                    &&& secured == secure
                    &&& cloned(old(self).factory(), factory)
                    &&& exists|http: &mut T|
                        *http == old(self).plain() && *final(http) == final(self).plain()
                            && connect.ensures((http, dst), pending)
                },
            },
    {
        match route(self.force_https, scheme, host) {
            Err(why) => HttpsConnecting { stage: Stage::Refused(why) },
            Ok(decided) => {
                let pending = connect(&mut self.http, dst);
                let factory = self.tls.clone();
                HttpsConnecting {
                    stage: Stage::Connecting {
                        pending,
                        factory,
                        host: decided.host,
                        secure: decided.secure,
                    },
                }
            },
        }
    }

    /// Starts a connection attempt for a target: `start` with the scheme and
    /// the host that the target has.
    pub fn call<F, S, M, X, P>(&mut self, dst: Uri, connect: P) -> (attempt: HttpsConnecting<
        F,
        C,
        S,
        M,
        X,
    >)
        where P: FnOnce(&mut T, Uri) -> F
        requires
            routed(old(self).secure_only(), uri_scheme(dst), uri_host(dst)) is Ok ==> forall|
                http: &mut T,
            | *http == old(self).plain() ==> connect.requires((http, dst)),
        ensures
            final(self).secure_only() == old(self).secure_only(),
            final(self).factory() == old(self).factory(),
            match routed(old(self).secure_only(), uri_scheme(dst), uri_host(dst)) {
                Err(why) => attempt@ == Some(ConnectState::<F, C, M>::Refused(why))
                    && final(self).plain() == old(self).plain(),
                Ok((secure, name)) => {
                    &&& attempt@ matches Some(
                        ConnectState::Connecting { pending, factory, host: matched, secure: secured },
                    )
                    &&& matched == name
                    &&& secured == secure
                    &&& cloned(old(self).factory(), factory)
                    &&& exists|http: &mut T|
                        *http == old(self).plain() && *final(http) == final(self).plain()
                            && connect.ensures((http, dst), pending)
                },
            },
    {
        let scheme = owned(dst.scheme_str());
        let host = owned(dst.host());
        let scheme = borrowed(&scheme);
        let host = borrowed(&host);
        self.start(scheme, host, dst, connect)
    }
}

impl<F, C, S, M, X> HttpsConnecting<F, C, S, M, X> {
    /// Whether the attempt has reported its end. An attempt that has is not
    /// to be polled again.
    pub fn is_terminated(&self) -> (over: bool)
        ensures
            over == (self@ is None),
    {
        proof {
            use_type_invariant(self);
        }
        match &self.stage {
            Stage::Finished => true,
            _ => false,
        }
    }

    /// Polls the handshake of an attempt and concludes from where the engine
    /// has left it. Gives what the poll reports and what the engine
    /// answered, should it have been asked.
    fn poll_handshake<T, E, R>(&mut self, handshake: Handshaking<S, M, X>, advance: R) -> (res: (
        ConnectPoll<T, S, E, X>,
        Ghost<HandshakeStep<S, M, X>>,
    ))
        where R: FnOnce(M) -> HandshakeStep<S, M, X>
        requires
            old(self)@ is None,
            handshake@ is Some,
            engine_asked(handshake@) matches Some(mid) ==> advance.requires((mid,)),
        ensures
            (final(self)@, res.0) == concluded::<F, C, T, E, S, M, X>(
                polled_step(handshake@->0, res.1@),
            ),
            engine_asked(handshake@) matches Some(mid) ==> advance.ensures((mid,), res.1@),
    {
        let ghost before = handshake@;
        let mut handshake = handshake;
        let polled = handshake.poll(advance);
        let ghost report = choose|report: HandshakeStep<S, M, X>|
            {
                &&& (handshake@, polled) == handshake_poll(before->0, report)
                &&& engine_asked(before) matches Some(mid) ==> advance.ensures((mid,), report)
            };
        assert(handshake_poll(before->0, report) == settled(polled_step(before->0, report)));
        match polled {
            Poll::Pending => {
                self.stage = Stage::Securing(handshake);
                (Poll::Pending, Ghost(report))
            },
            Poll::Ready(Ok(session)) => (
                Poll::Ready(Ok(MaybeHttpsStream::Https(TlsStream::new(session)))),
                Ghost(report),
            ),
            Poll::Ready(Err(error)) => (
                Poll::Ready(Err(HttpsConnectorError::NativeTls(error))),
                Ghost(report),
            ),
        }
    }

    /// One poll of the attempt, as `connect_poll` says. The attempt must not
    /// have reported its end: to poll it after that is an error of the
    /// caller.
    ///
    /// `transport` polls what the plain connector returned. `start` lets the
    /// security engine take its first step: it is handed the session
    /// factory, the name to match, and the transport dressed as a
    /// blocking-style stream. `advance` lets the engine go on from a
    /// mid-handshake value. Each is run at most once, and only where
    /// `connect_poll` consults its answer. Each has to accept what it can
    /// be handed in this poll: `transport` what the plain connector
    /// returned, `start` a transport that `transport` can deliver, and
    /// `advance` the value of the handshake under way or one that `start` can
    /// leave.
    pub fn poll<T, E, P, Q, R>(&mut self, transport: P, start: Q, advance: R) -> (res: ConnectPoll<
        T,
        S,
        E,
        X,
    >)
        where
            P: FnOnce(&mut F) -> Poll<Result<T, E>>,
            Q: FnOnce(&C, &str, SyncStream<T>) -> HandshakeStep<S, M, X>,
            R: FnOnce(M) -> HandshakeStep<S, M, X>,
        requires
            old(self)@ is Some,
            forall|pending: &mut F|
                asked_transport(old(self)@->0) == Some(*pending) ==> transport.requires((pending,)),
            forall|pending: &mut F, factory: &C, host: &str, delivered: T|
                asked_transport(old(self)@->0) == Some(*pending) && may_start(
                    old(self)@->0,
                    *factory,
                    host@,
                ) && #[trigger] transport.ensures((pending,), Poll::Ready(Ok(delivered)))
                    ==> #[trigger] start.requires(
                    (factory, host, SyncStream { inner: delivered }),
                ),
            forall|mid: M|
                old(self)@ == Some(ConnectState::<F, C, M>::Securing(mid)) ==> advance.requires(
                    (mid,),
                ),
            forall|factory: &C, host: &str, stream: SyncStream<T>, mid: M|
                may_start(old(self)@->0, *factory, host@) && #[trigger] start.ensures(
                    (factory, host, stream),
                    HandshakeStep::Pending(mid),
                ) ==> advance.requires((mid,)),
        ensures
            exists|answers: Answers<F, T, E, S, M, X>|
                {
                    &&& (final(self)@, res) == connect_poll(old(self)@->0, answers)
                    &&& match asked_transport(old(self)@->0) {
                        Some(pending) => exists|lent: &mut F|
                            *lent == pending && *final(lent) == answers.pending
                                && transport.ensures((lent,), answers.transport),
                        None => true,
                    }
                    &&& match asked_to_start(old(self)@->0, answers) {
                        Some((factory, host, stream)) => exists|name: &str|
                            name@ == host && start.ensures(
                                (&factory, name, SyncStream { inner: stream }),
                                answers.first,
                            ),
                        None => true,
                    }
                    &&& match asked_to_advance(old(self)@->0, answers) {
                        Some(mid) => advance.ensures((mid,), answers.next),
                        None => true,
                    }
                },
    {
        proof {
            use_type_invariant(&*self);
        }
        let mut stage = Stage::Finished;
        core::mem::swap(&mut self.stage, &mut stage);
        match stage {
            Stage::Refused(why) => {
                let ghost answers = arbitrary::<Answers<F, T, E, S, M, X>>();
                let error = why.into_failure();
                assert((self@, Poll::Ready(Err::<MaybeHttpsStream<T, S>, _>(error)))
                    == connect_poll(old(self)@->0, answers));
                Poll::Ready(Err(error))
            },
            Stage::Connecting { mut pending, factory, host, secure } => {
                let polled = transport(&mut pending);
                match polled {
                    Poll::Pending => {
                        let ghost answers = Answers::<F, T, E, S, M, X> {
                            transport: Poll::Pending,
                            pending,
                            first: arbitrary(),
                            next: arbitrary(),
                        };
                        self.stage = Stage::Connecting { pending, factory, host, secure };
                        assert((
                            self@,
                            Poll::<
                                Result<MaybeHttpsStream<T, S>, HttpsConnectorError<E, X>>,
                            >::Pending,
                        ) == connect_poll(old(self)@->0, answers));
                        Poll::Pending
                    },
                    Poll::Ready(Err(error)) => {
                        let ghost answers = Answers::<F, T, E, S, M, X> {
                            transport: Poll::Ready(Err(error)),
                            pending,
                            first: arbitrary(),
                            next: arbitrary(),
                        };
                        assert((
                            self@,
                            Poll::Ready(
                                Err::<MaybeHttpsStream<T, S>, _>(
                                    HttpsConnectorError::<E, X>::HttpConnector(error),
                                ),
                            ),
                        ) == connect_poll(old(self)@->0, answers));
                        Poll::Ready(Err(HttpsConnectorError::HttpConnector(error)))
                    },
                    Poll::Ready(Ok(stream)) => {
                        if secure {
                            let first = start(&factory, host.as_str(), SyncStream { inner: stream });
                            let handshake = Handshaking::new(first);
                            let (res, Ghost(report)) = self.poll_handshake(handshake, advance);
                            let ghost answers = Answers::<F, T, E, S, M, X> {
                                transport: Poll::Ready(Ok(stream)),
                                pending,
                                first: handshake@->0,
                                next: report,
                            };
                            assert((self@, res) == connect_poll(old(self)@->0, answers));
                            res
                        } else {
                            let ghost answers = Answers::<F, T, E, S, M, X> {
                                transport: Poll::Ready(Ok(stream)),
                                pending,
                                first: arbitrary(),
                                next: arbitrary(),
                            };
                            assert((
                                self@,
                                Poll::Ready(
                                    Ok::<_, HttpsConnectorError<E, X>>(
                                        MaybeHttpsStream::<T, S>::Http(stream),
                                    ),
                                ),
                            ) == connect_poll(old(self)@->0, answers));
                            Poll::Ready(Ok(MaybeHttpsStream::Http(stream)))
                        }
                    },
                }
            },
            Stage::Securing(handshake) => {
                let (res, Ghost(report)) = self.poll_handshake(handshake, advance);
                let ghost answers = Answers::<F, T, E, S, M, X> {
                    transport: arbitrary(),
                    pending: arbitrary(),
                    first: arbitrary(),
                    next: report,
                };
                assert((self@, res) == connect_poll(old(self)@->0, answers));
                res
            },
            Stage::Finished => unreached(),
        }
    }
}

} // verus!
