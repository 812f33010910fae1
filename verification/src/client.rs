//! The client.

use crate::buffer::buffer_bytes;
use crate::config::NozomiConfig;
use crate::error::{prefixed, ConnectFailure, Error, ErrorModel, SendFailure};
use crate::http_types::{
    clone_headers, content_length_name, content_type_name, header_fields, headers_with_capacity,
    host_name, insert_header, is_value, origin_form, parse_uri, post_method,
    request_extensions, request_fields, request_from_parts, request_method, request_uri,
    request_version, show_uri_error, show_value_error, uri_text,
};
use crate::protocol::{
    batch_target, host_and_port, host_header, static_fields, Address, AttemptModel, ClientModel,
    GoalModel, RequestModel, StepModel,
};
use crate::query::{query_text, query_value};
use crate::text::{decimal, decimal_text, holds_char};
use crate::wire::{contents, encode, encoding, reads_as};
use bytes::Bytes;
use http::{HeaderMap, HeaderValue, Request, Uri};
use vstd::prelude::*;
use vstd::string::StringExecFns;
use vstd::utf8::{encode_utf8, is_ascii_chars_encode_utf8};

verus! {

/// What an operation is after, once there is a connection.
pub enum Goal {
    /// The connection itself.
    Warm,
    /// Sending a body, as the second and last attempt.
    Send(Bytes),
}

/// Which attempt to send a body is under way.
pub enum Attempt {
    /// The first: the body can be sent once more.
    First(Bytes),
    /// The second, on a new connection.
    Second,
}

/// The next piece of work of an operation. Its outcome goes back to the client, together with
/// the goal or the attempt.
pub enum Step {
    /// Look up the addresses of `key`, then call [`NozomiQuicClient::resolved`].
    Resolve { key: String, goal: Goal },
    /// Set up a connection, then call [`NozomiQuicClient::connection_made`].
    Connect { addr: Address, server_name: String, goal: Goal },
    /// Send a request and a body, then call [`NozomiQuicClient::transmitted`].
    Transmit { request: Request<()>, body: Bytes, attempt: Attempt },
    /// Nothing: the operation is over.
    Done(Result<(), Error>),
}

impl View for Goal {
    type V = GoalModel;

    open spec fn view(&self) -> GoalModel {
        match *self {
            Goal::Warm => GoalModel::Warm,
            Goal::Send(body) => GoalModel::Send(buffer_bytes(body)),
        }
    }
}

impl View for Attempt {
    type V = AttemptModel;

    open spec fn view(&self) -> AttemptModel {
        match *self {
            Attempt::First(body) => AttemptModel::First(buffer_bytes(body)),
            Attempt::Second => AttemptModel::Second,
        }
    }
}

/// The head of a request.
pub open spec fn request_model(request: Request<()>) -> RequestModel {
    RequestModel {
        method: request_method(request),
        uri: request_uri(request),
        version: request_version(request),
        extensions: request_extensions(request),
        fields: request_fields(request),
    }
}

/// The outcome of an operation, errors by their text.
pub open spec fn outcome_model(outcome: Result<(), Error>) -> Result<(), ErrorModel> {
    match outcome {
        Ok(()) => Ok(()),
        Err(e) => Err(e@),
    }
}

impl View for Step {
    type V = StepModel;

    open spec fn view(&self) -> StepModel {
        match *self {
            Step::Resolve { key, goal } => StepModel::Resolve { key: key@, goal: goal@ },
            Step::Connect { addr, server_name, goal } => StepModel::Connect {
                addr,
                server_name: server_name@,
                goal: goal@,
            },
            Step::Transmit { request, body, attempt } => StepModel::Transmit {
                request: request_model(request),
                body: buffer_bytes(body),
                attempt: attempt@,
            },
            Step::Done(outcome) => StepModel::Done(outcome_model(outcome)),
        }
    }
}

/// What is computed of a QUIC/H3 client for Nozomi transaction submission.
///
/// Single-owner, without internal locking: the caller controls concurrency.
pub struct NozomiQuicClient {
    connected: bool,
    cached_addr: Option<Address>,
    // Immutable after construction.
    host: String,
    port: u16,
    batch_uri: Uri,
    /// Pre-built headers: host and content type.
    static_headers: HeaderMap<HeaderValue>,
}

impl View for NozomiQuicClient {
    type V = ClientModel;

    closed spec fn view(&self) -> ClientModel {
        ClientModel {
            host: self.host@,
            port: self.port,
            batch_uri: uri_text(self.batch_uri),
            connected: self.connected,
            cached_addr: self.cached_addr,
        }
    }
}

/// The URI that batches are posted to, or what is wrong with the API key. The key stands in the
/// query as it is, unless it holds a `#`, where the query would end: then the key is escaped
/// from there on, so that all of it is passed.
pub open spec fn batch_uri(api_key: Seq<char>) -> Result<Seq<char>, Seq<char>> {
    match origin_form(batch_target(api_key)) {
        Err(e) => Err(e),
        Ok(uri) => if api_key.contains('#') {
            origin_form(batch_target(query_value(api_key)))
        } else {
            Ok(uri)
        },
    }
}

/// Parses the target with a value of the query parameter.
fn parse_target(value: &str) -> (r: Result<Uri, Error>)
    ensures
        match r {
            Ok(uri) => origin_form(batch_target(value@)) == Ok::<Seq<char>, Seq<char>>(
                uri_text(uri),
            ),
            Err(error) => origin_form(batch_target(value@)) matches Err(e) && error@
                == ErrorModel::Connection("invalid batch URI: "@ + e),
        },
{
    let mut target: String = "/api/sendBatch?c=".to_owned();
    target.append(value);
    proof {
        reveal_strlit("/api/sendBatch?c=");
    }
    match parse_uri(&target) {
        Ok(uri) => Ok(uri),
        Err(e) => Err(Error::Connection(prefixed("invalid batch URI: ", &show_uri_error(&e)))),
    }
}

/// What making a client gives.
pub open spec fn new_client(
    host: Seq<char>,
    port: u16,
    api_key: Seq<char>,
) -> Result<ClientModel, ErrorModel> {
    match batch_uri(api_key) {
        Err(e) => Err(ErrorModel::Connection("invalid batch URI: "@ + e)),
        Ok(batch_uri) => if !is_value(encode_utf8(host_header(host, port))) {
            Err(
                ErrorModel::Connection(
                    "invalid host header: "@ + "failed to parse header value"@,
                ),
            )
        } else {
            Ok(ClientModel { host, port, batch_uri, connected: false, cached_addr: None })
        },
    }
}

impl NozomiQuicClient {
    /// The pre-built headers are those of the host and the port.
    #[verifier::type_invariant]
    closed spec fn headers_match(self) -> bool {
        header_fields(self.static_headers) == static_fields(self.host@, self.port)
    }

    /// Creates a new client. Does **not** connect yet: call [`warmup`](Self::warmup) first.
    pub fn new(config: NozomiConfig) -> (r: Result<Self, Error>)
        ensures
            match r {
                Ok(client) => new_client(config.host@, config.port, config.api_key@) == Ok::<
                    ClientModel,
                    ErrorModel,
                >(client@),
                Err(e) => new_client(config.host@, config.port, config.api_key@) == Err::<
                    ClientModel,
                    ErrorModel,
                >(e@),
            },
    {
        proof {
            reveal_strlit("application/octet-stream");
            is_ascii_chars_encode_utf8("application/octet-stream"@);
        }
        let mut batch_uri: Uri = match parse_target(&config.api_key) {
            Ok(uri) => uri,
            Err(e) => {
                return Err(e);
            },
        };
        if holds_char(&config.api_key, '#') {
            batch_uri = match parse_target(&query_text(&config.api_key)) {
                Ok(uri) => uri,
                Err(e) => {
                    return Err(e);
                },
            };
        }
        let parsed = if config.port == 443 {
            HeaderValue::from_str(&config.host)
        } else {
            HeaderValue::from_str(&host_key(&config.host, config.port))
        };
        let host_value: HeaderValue = match parsed {
            Ok(value) => value,
            Err(e) => {
                return Err(
                    Error::Connection(prefixed("invalid host header: ", &show_value_error(&e))),
                );
            },
        };
        let mut static_headers = headers_with_capacity(3);
        insert_header(&mut static_headers, host_name(), host_value);
        insert_header(
            &mut static_headers,
            content_type_name(),
            HeaderValue::from_static("application/octet-stream"),
        );
        Ok(
            NozomiQuicClient {
                connected: false,
                cached_addr: None,
                host: config.host,
                port: config.port,
                batch_uri,
                static_headers,
            },
        )
    }

    /// Starts to resolve the host and to pre-establish the connection.
    ///
    /// Call this **once** before you start trading, so that the first batch does not pay the
    /// cost of the handshake.
    pub fn warmup(&mut self) -> (step: Step)
        ensures
            (final(self)@, step@) == old(self)@.warmup(),
            step matches Step::Resolve { key, goal } && goal is Warm && key@ == old(self)@.host
                + ":"@ + decimal(old(self)@.port as nat),
    {
        self.resolve_dns(Goal::Warm)
    }

    /// Encodes transactions into the batch wire format.
    ///
    /// Call this outside your hot loop, then pass the result to [`send_raw`](Self::send_raw).
    pub fn encode_batch(transactions: &[&[u8]]) -> (r: Result<Bytes, Error>)
        ensures
            match r {
                Ok(body) => encoding(contents(transactions@)) == Ok::<Seq<u8>, ErrorModel>(
                    buffer_bytes(body),
                ) && reads_as(buffer_bytes(body), transactions@),
                Err(e) => encoding(contents(transactions@)) == Err::<Seq<u8>, ErrorModel>(e@),
            },
    {
        match encode(transactions) {
            Ok(bytes) => Ok(Bytes::from(bytes)),
            Err(e) => Err(e),
        }
    }

    /// Starts to send a pre-encoded batch body. **This is the fastest send path.**
    ///
    /// Use [`encode_batch`](Self::encode_batch) to produce the body. On failure, the operation
    /// reconnects and retries once.
    pub fn send_raw(&mut self, body: Bytes) -> (step: Step)
        ensures
            (final(self)@, step@) == old(self)@.send(buffer_bytes(body)),
            old(self)@.connected ==> (step matches Step::Transmit { request, body: sent, .. }
                && buffer_bytes(sent) == buffer_bytes(body) && request_uri(request)
                == old(self)@.batch_uri),
    {
        match self.try_send(&body) {
            Ok(request) => Step::Transmit {
                request,
                body: body.clone(),
                attempt: Attempt::First(body),
            },
            Err(_) => {
                self.invalidate();
                self.connect(Goal::Send(body))
            },
        }
    }

    /// Encodes a batch of raw serialized transactions and starts to send it.
    ///
    /// Convenience wrapper around [`encode_batch`](Self::encode_batch) and
    /// [`send_raw`](Self::send_raw).
    pub fn send_batch(&mut self, transactions: &[&[u8]]) -> (step: Step)
        ensures
            match encoding(contents(transactions@)) {
                Ok(body) => (final(self)@, step@) == old(self)@.send(body),
                Err(e) => final(self)@ == old(self)@ && step@ == StepModel::Done(Err(e)),
            },
    {
        match Self::encode_batch(transactions) {
            Ok(body) => self.send_raw(body),
            Err(e) => Step::Done(Err(e)),
        }
    }

    /// Returns `true` if there is an active QUIC connection: the client has one, and it is
    /// still `open`. A connection that the peer closed or that timed out is not.
    pub fn is_connected(&self, open: bool) -> (connected: bool)
        ensures
            connected == (self@.connected && open),
    {
        self.connected && open
    }

    /// Closes the current connection (if any). A subsequent send will re-establish it
    /// automatically.
    pub fn disconnect(&mut self)
        ensures
            final(self)@ == old(self)@.invalidated(),
    {
        self.invalidate();
    }

    /// Goes on after a lookup, with the addresses that it found or its own words on why it
    /// failed.
    pub fn resolved(&mut self, goal: Goal, outcome: Result<Vec<Address>, String>) -> (step: Step)
        ensures
            (final(self)@, step@) == old(self)@.resolved(
                goal@,
                match outcome {
                    Ok(addrs) => Ok(addrs@),
                    Err(e) => Err(e@),
                },
            ),
            outcome matches Ok(addrs) ==> (addrs@.len() > 0 ==> {
                &&& final(self)@.cached_addr == Some(addrs@[0])
                &&& step matches Step::Connect { addr, server_name, goal: next }
                &&& addr == addrs@[0]
                &&& server_name@ == old(self)@.host
                &&& next@ == goal@
            }),
    {
        match outcome {
            Err(e) => {
                let mut msg: String = prefixed("DNS lookup ", &host_key(&self.host, self.port));
                msg.append(": ");
                msg.append(&e);
                Step::Done(Err(Error::Connection(msg)))
            },
            Ok(addrs) => {
                if addrs.len() == 0 {
                    let key: String = host_key(&self.host, self.port);
                    return Step::Done(Err(Error::Connection(prefixed("no addresses for ", &key))));
                }
                proof {
                    use_type_invariant(&*self);
                }
                self.cached_addr = Some(addrs[0]);
                self.connect(goal)
            },
        }
    }

    /// Goes on after an attempt to connect.
    pub fn connection_made(&mut self, goal: Goal, outcome: Result<(), ConnectFailure>) -> (step:
        Step)
        ensures
            (final(self)@, step@) == old(self)@.connection_made(goal@, outcome),
    {
        match outcome {
            Err(e) => Step::Done(Err(e.into_error())),
            Ok(()) => {
                proof {
                    use_type_invariant(&*self);
                }
                self.connected = true;
                match goal {
                    Goal::Warm => Step::Done(Ok(())),
                    Goal::Send(body) => match self.try_send(&body) {
                        Ok(request) => Step::Transmit { request, body, attempt: Attempt::Second },
                        Err(e) => Step::Done(Err(e)),
                    },
                }
            },
        }
    }

    /// Goes on after an attempt to send.
    pub fn transmitted(&mut self, attempt: Attempt, outcome: Result<(), SendFailure>) -> (step:
        Step)
        ensures
            (final(self)@, step@) == old(self)@.transmitted(attempt@, outcome),
    {
        match outcome {
            Ok(()) => Step::Done(Ok(())),
            Err(e) => match attempt {
                Attempt::First(body) => {
                    self.invalidate();
                    self.connect(Goal::Send(body))
                },
                Attempt::Second => Step::Done(Err(e.into_error())),
            },
        }
    }

    /// The request for a body, where there is a connection to send it on.
    pub fn try_send(&self, body: &Bytes) -> (r: Result<Request<()>, Error>)
        ensures
            match r {
                Ok(request) => self@.connected && request_model(request) == self@.request(
                    buffer_bytes(*body).len(),
                ) && request_method(request) == "POST"@ && request_uri(request) == self@.batch_uri,
                Err(e) => !self@.connected && e@ == ErrorModel::NotConnected,
            },
    {
        if !self.connected {
            return Err(Error::NotConnected);
        }
        proof {
            use_type_invariant(self);
        }
        let mut headers: HeaderMap<HeaderValue> = clone_headers(&self.static_headers);
        insert_header(&mut headers, content_length_name(), HeaderValue::from(body.len() as u64));
        Ok(request_from_parts(post_method(), self.batch_uri.clone(), headers))
    }

    /// The step that looks up the host.
    fn resolve_dns(&self, goal: Goal) -> (step: Step)
        ensures
            step@ == self@.resolve(goal@),
    {
        Step::Resolve { key: host_key(&self.host, self.port), goal }
    }

    /// The step that leads to a connection.
    fn connect(&self, goal: Goal) -> (step: Step)
        ensures
            step@ == self@.connect(goal@),
    {
        match self.cached_addr {
            Some(addr) => Step::Connect { addr, server_name: self.host.clone(), goal },
            None => self.resolve_dns(goal),
        }
    }

    /// Forgets the connection. The address stays cached for the next one.
    fn invalidate(&mut self)
        ensures
            final(self)@ == old(self)@.invalidated(),
    {
        proof {
            use_type_invariant(&*self);
        }
        self.connected = false;
    }
}

/// Host and port as one text.
fn host_key(host: &str, port: u16) -> (key: String)
    ensures
        key@ == host_and_port(host@, port),
        key@ == host@ + ":"@ + decimal(port as nat),
{
    let mut key: String = host.to_owned();
    key.append(":");
    key.append(&decimal_text(port as u128));
    key
}

} // verus!
