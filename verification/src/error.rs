//! The failures of a connection attempt.

use vstd::prelude::*;
use vstd::string::{StringExecFns, to_string_from_display_ensures};

verus! {

/// Why a connection attempt failed.
#[derive(Debug, PartialEq, Eq)]
pub enum HttpsConnectorError<E, X> {
    /// The connector accepts secure targets only, and the target's scheme was
    /// not the secure one. No connection was attempted.
    ForceHttpsButUriNotHttps,
    /// The target has no host, so there is no name to match a certificate
    /// against. No connection was attempted.
    MissingHost,
    /// The plain connector failed when setting up the connection.
    HttpConnector(E),
    /// The security engine failed when setting up the session.
    NativeTls(X),
}

/// The text of the failure that a target's scheme was refused.
pub open spec fn scheme_refused_text() -> Seq<char> {
    "https required but URI was not https"@
}

/// The text of the failure that a target has no host.
pub open spec fn missing_host_text() -> Seq<char> {
    "URI has no host"@
}

/// What stands in a message before the text of a plain connector's failure.
pub open spec fn transport_prefix() -> Seq<char> {
    "http connector error: "@
}

/// What stands in a message before the text of a security engine's failure.
pub open spec fn security_prefix() -> Seq<char> {
    "native tls error: "@
}

impl<E, X> HttpsConnectorError<E, X> {
    /// The message of this failure, where `cause` is the text of the failure
    /// that it carries, if it carries one.
    pub open spec fn message_text(self, cause: Seq<char>) -> Seq<char> {
        match self {
            HttpsConnectorError::ForceHttpsButUriNotHttps => scheme_refused_text(),
            HttpsConnectorError::MissingHost => missing_host_text(),
            HttpsConnectorError::HttpConnector(_) => transport_prefix() + cause,
            HttpsConnectorError::NativeTls(_) => security_prefix() + cause,
        }
    }

    /// The name of this failure's variant, as it is shown to a developer.
    pub open spec fn name_text(self) -> Seq<char> {
        match self {
            HttpsConnectorError::ForceHttpsButUriNotHttps => "HttpsConnectorError::ForceHttpsButUriNotHttps"@,
            HttpsConnectorError::MissingHost => "HttpsConnectorError::MissingHost"@,
            HttpsConnectorError::HttpConnector(_) => "HttpsConnectorError::HttpConnector"@,
            HttpsConnectorError::NativeTls(_) => "HttpsConnectorError::NativeTls"@,
        }
    }

    /// The name of this failure's variant, as it is shown to a developer.
    pub fn variant_name(&self) -> (name: &'static str)
        ensures
            name@ == self.name_text(),
    {
        match self {
            HttpsConnectorError::ForceHttpsButUriNotHttps => "HttpsConnectorError::ForceHttpsButUriNotHttps",
            HttpsConnectorError::MissingHost => "HttpsConnectorError::MissingHost",
            HttpsConnectorError::HttpConnector(_) => "HttpsConnectorError::HttpConnector",
            HttpsConnectorError::NativeTls(_) => "HttpsConnectorError::NativeTls",
        }
    }

    /// Whether this failure carries the failure of a collaborator as its
    /// source.
    pub open spec fn carries_source(self) -> bool {
        self is HttpConnector || self is NativeTls
    }

    /// Whether this failure has a source: the plain connector's failure or
    /// the security engine's. A refused scheme and a missing host have none.
    pub fn has_source(&self) -> (carried: bool)
        ensures
            carried == self.carries_source(),
    {
        match self {
            HttpsConnectorError::ForceHttpsButUriNotHttps => false,
            HttpsConnectorError::MissingHost => false,
            HttpsConnectorError::HttpConnector(_) => true,
            HttpsConnectorError::NativeTls(_) => true,
        }
    }

    /// The message of this failure: for a refused scheme and for a missing
    /// host a fixed text, else the text of the failure it carries behind a
    /// prefix that names the collaborator.
    pub fn message(&self) -> (text: String)
        where E: core::fmt::Display, X: core::fmt::Display
        ensures
            self is ForceHttpsButUriNotHttps ==> text@ == scheme_refused_text(),
            self is MissingHost ==> text@ == missing_host_text(),
            *self matches HttpsConnectorError::HttpConnector(error) ==> exists|cause: String|
                to_string_from_display_ensures::<E>(&error, cause) && text@ == self.message_text(
                    cause@,
                ),
            *self matches HttpsConnectorError::NativeTls(error) ==> exists|cause: String|
                to_string_from_display_ensures::<X>(&error, cause) && text@ == self.message_text(
                    cause@,
                ),
    {
        match self {
            HttpsConnectorError::ForceHttpsButUriNotHttps => String::from_str(
                "https required but URI was not https",
            ),
            HttpsConnectorError::MissingHost => String::from_str("URI has no host"),
            HttpsConnectorError::HttpConnector(error) => {
                let cause = error.to_string();
                String::from_str("http connector error: ").concat(cause.as_str())
            },
            HttpsConnectorError::NativeTls(error) => {
                let cause = error.to_string();
                String::from_str("native tls error: ").concat(cause.as_str())
            },
        }
    }
}

} // verus!
