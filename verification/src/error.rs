//! Errors, and the failures that become errors.

use vstd::prelude::*;
use vstd::string::StringExecFns;

verus! {

/// What can go wrong.
#[derive(Debug)]
pub enum Error {
    /// The connection could not be set up.
    Connection(String),
    /// A request could not be sent.
    Request(String),
    /// There is no connection to send on.
    NotConnected,
    /// The batch cannot be encoded.
    Batch(String),
}

/// An [`Error`] with its text as a sequence of characters.
pub enum ErrorModel {
    /// See [`Error::Connection`].
    Connection(Seq<char>),
    /// See [`Error::Request`].
    Request(Seq<char>),
    /// See [`Error::NotConnected`].
    NotConnected,
    /// See [`Error::Batch`].
    Batch(Seq<char>),
}

impl View for Error {
    type V = ErrorModel;

    open spec fn view(&self) -> ErrorModel {
        match *self {
            Error::Connection(msg) => ErrorModel::Connection(msg@),
            Error::Request(msg) => ErrorModel::Request(msg@),
            Error::NotConnected => ErrorModel::NotConnected,
            Error::Batch(msg) => ErrorModel::Batch(msg@),
        }
    }
}

impl ErrorModel {
    /// The error as a user reads it.
    pub open spec fn text(self) -> Seq<char> {
        match self {
            ErrorModel::Connection(msg) => "connection: "@ + msg,
            ErrorModel::Request(msg) => "request: "@ + msg,
            ErrorModel::NotConnected => "not connected"@,
            ErrorModel::Batch(msg) => "batch: "@ + msg,
        }
    }
}

/// `prefix` followed by `msg`.
pub(crate) fn prefixed(prefix: &str, msg: &str) -> (s: String)
    ensures
        s@ == prefix@ + msg@,
{
    let mut s: String = prefix.to_owned();
    s.append(msg);
    s
}

impl Error {
    /// The error as a user reads it.
    pub fn to_string(&self) -> (s: String)
        ensures
            s@ == self@.text(),
    {
        match self {
            Error::Connection(msg) => prefixed("connection: ", msg),
            Error::Request(msg) => prefixed("request: ", msg),
            Error::NotConnected => "not connected".to_owned(),
            Error::Batch(msg) => prefixed("batch: ", msg),
        }
    }
}

/// How setting up the local QUIC endpoint failed, with the transport's own words.
#[derive(Debug)]
pub enum SetupFailure {
    /// The TLS configuration does not suit QUIC.
    TlsConfig(String),
    /// The local socket could not be bound.
    EndpointBind(String),
}

/// How setting up a connection failed, with the transport's own words.
#[derive(Debug)]
pub enum ConnectFailure {
    /// The QUIC connection attempt could not be started.
    QuicConnect(String),
    /// The QUIC handshake did not complete.
    QuicHandshake(String),
    /// The H3 handshake did not complete.
    H3Handshake(String),
}

/// How sending a request failed, with the transport's own words.
#[derive(Debug)]
pub enum SendFailure {
    /// The request head could not be sent.
    Headers(String),
    /// The body could not be sent.
    Body(String),
    /// The stream could not be finished.
    Finish(String),
}

impl SetupFailure {
    /// The error that the failure is reported as.
    pub open spec fn error(self) -> ErrorModel {
        match self {
            SetupFailure::TlsConfig(e) => ErrorModel::Connection("QUIC TLS config: "@ + e@),
            SetupFailure::EndpointBind(e) => ErrorModel::Connection("endpoint bind: "@ + e@),
        }
    }

    /// Reports the failure as an [`Error`].
    pub fn into_error(self) -> (error: Error)
        ensures
            error@ == self.error(),
    {
        match self {
            SetupFailure::TlsConfig(e) => Error::Connection(prefixed("QUIC TLS config: ", &e)),
            SetupFailure::EndpointBind(e) => Error::Connection(prefixed("endpoint bind: ", &e)),
        }
    }
}

impl ConnectFailure {
    /// The error that the failure is reported as.
    pub open spec fn error(self) -> ErrorModel {
        match self {
            ConnectFailure::QuicConnect(e) => ErrorModel::Connection("QUIC connect: "@ + e@),
            ConnectFailure::QuicHandshake(e) => ErrorModel::Connection("QUIC handshake: "@ + e@),
            ConnectFailure::H3Handshake(e) => ErrorModel::Connection("H3 handshake: "@ + e@),
        }
    }

    /// Reports the failure as an [`Error`].
    pub fn into_error(self) -> (error: Error)
        ensures
            error@ == self.error(),
    {
        match self {
            ConnectFailure::QuicConnect(e) => Error::Connection(prefixed("QUIC connect: ", &e)),
            ConnectFailure::QuicHandshake(e) => Error::Connection(prefixed("QUIC handshake: ", &e)),
            ConnectFailure::H3Handshake(e) => Error::Connection(prefixed("H3 handshake: ", &e)),
        }
    }
}

impl SendFailure {
    /// The error that the failure is reported as.
    pub open spec fn error(self) -> ErrorModel {
        match self {
            SendFailure::Headers(e) => ErrorModel::Request("send headers: "@ + e@),
            SendFailure::Body(e) => ErrorModel::Request("send body: "@ + e@),
            SendFailure::Finish(e) => ErrorModel::Request("finish stream: "@ + e@),
        }
    }

    /// Reports the failure as an [`Error`].
    pub fn into_error(self) -> (error: Error)
        ensures
            error@ == self.error(),
    {
        match self {
            SendFailure::Headers(e) => Error::Request(prefixed("send headers: ", &e)),
            SendFailure::Body(e) => Error::Request(prefixed("send body: ", &e)),
            SendFailure::Finish(e) => Error::Request(prefixed("finish stream: ", &e)),
        }
    }
}

} // verus!
