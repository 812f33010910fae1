//! How a client gets its work done, as a state machine.
//!
//! An operation is a chain of steps. Each step names one piece of network work; its outcome,
//! handed back, gives the next step, until the operation is done. This module says what the
//! chain is; [`crate::client`] computes it.

use crate::error::{ConnectFailure, ErrorModel, SendFailure};
use crate::http_types::no_fields;
use crate::text::decimal;
use vstd::prelude::*;
use vstd::utf8::encode_utf8;

verus! {

/// A resolved socket address.
#[derive(Debug, Clone, Copy, PartialEq, Eq)]
pub enum Address {
    /// An IPv4 address and a port.
    V4 { octets: [u8; 4], port: u16 },
    /// An IPv6 address and a port, with flow information and scope.
    V6 { segments: [u16; 8], port: u16, flow_info: u32, scope_id: u32 },
}

/// What a client knows.
pub struct ClientModel {
    /// The host it talks to.
    pub host: Seq<char>,
    /// The port it talks to.
    pub port: u16,
    /// The URI that batches are posted to.
    pub batch_uri: Seq<char>,
    /// Whether there is a connection.
    pub connected: bool,
    /// Where the host was last found.
    pub cached_addr: Option<Address>,
}

/// The head of a request.
pub struct RequestModel {
    /// The method.
    pub method: Seq<char>,
    /// The URI.
    pub uri: Seq<char>,
    /// The HTTP version.
    pub version: Seq<char>,
    /// How many extensions it carries.
    pub extensions: nat,
    /// The header fields.
    pub fields: Map<Seq<char>, Seq<Seq<u8>>>,
}

/// What an operation is after, once there is a connection.
pub enum GoalModel {
    /// The connection itself.
    Warm,
    /// Sending a body, as the second and last attempt.
    Send(Seq<u8>),
}

/// Which attempt to send a body is under way.
pub enum AttemptModel {
    /// The first: the body can be sent once more.
    First(Seq<u8>),
    /// The second, on a new connection.
    Second,
}

/// The next piece of work of an operation.
pub enum StepModel {
    /// Look up the addresses of `key`.
    Resolve { key: Seq<char>, goal: GoalModel },
    /// Set up a connection to `addr` for `server_name`.
    Connect { addr: Address, server_name: Seq<char>, goal: GoalModel },
    /// Send a request and a body on the connection.
    Transmit { request: RequestModel, body: Seq<u8>, attempt: AttemptModel },
    /// Nothing: the operation is over.
    Done(Result<(), ErrorModel>),
}

/// The target that batches are posted to, with a value of the query parameter `c`.
pub open spec fn batch_target(value: Seq<char>) -> Seq<char> {
    "/api/sendBatch?c="@ + value
}

/// Host and port as one text, the key of a lookup.
pub open spec fn host_and_port(host: Seq<char>, port: u16) -> Seq<char> {
    host + ":"@ + decimal(port as nat)
}

/// The host header: the port is left out where it is that of HTTPS.
pub open spec fn host_header(host: Seq<char>, port: u16) -> Seq<char> {
    if port == 443 {
        host
    } else {
        host_and_port(host, port)
    }
}

/// The header fields that every request has in common.
pub open spec fn static_fields(host: Seq<char>, port: u16) -> Map<Seq<char>, Seq<Seq<u8>>> {
    no_fields().insert("host"@, seq![encode_utf8(host_header(host, port))]).insert(
        "content-type"@,
        seq![encode_utf8("application/octet-stream"@)],
    )
}

impl ClientModel {
    /// The head of the request for a body of `len` bytes: of its parts only the content length
    /// depends on the body.
    pub open spec fn request(self, len: nat) -> RequestModel {
        RequestModel {
            method: "POST"@,
            uri: self.batch_uri,
            version: "HTTP/1.1"@,
            extensions: 0,
            fields: static_fields(self.host, self.port).insert(
                "content-length"@,
                seq![encode_utf8(decimal(len))],
            ),
        }
    }

    /// The client without its connection. It still knows where the host is.
    pub open spec fn invalidated(self) -> ClientModel {
        ClientModel { connected: false, ..self }
    }

    /// The step that looks up the host.
    pub open spec fn resolve(self, goal: GoalModel) -> StepModel {
        StepModel::Resolve { key: host_and_port(self.host, self.port), goal }
    }

    /// The step that leads to a connection: straight to the address where it is known.
    pub open spec fn connect(self, goal: GoalModel) -> StepModel {
        match self.cached_addr {
            Some(addr) => StepModel::Connect { addr, server_name: self.host, goal },
            None => self.resolve(goal),
        }
    }

    /// The step that sends a body on the connection.
    pub open spec fn transmit(self, body: Seq<u8>, attempt: AttemptModel) -> StepModel {
        StepModel::Transmit { request: self.request(body.len()), body, attempt }
    }

    /// Starting to warm up.
    pub open spec fn warmup(self) -> (ClientModel, StepModel) {
        (self, self.resolve(GoalModel::Warm))
    }

    /// Starting to send a body: on the connection, or on a new one where there is none.
    pub open spec fn send(self, body: Seq<u8>) -> (ClientModel, StepModel) {
        if self.connected {
            (self, self.transmit(body, AttemptModel::First(body)))
        } else {
            (self, self.connect(GoalModel::Send(body)))
        }
    }

    /// After a lookup: its first address is remembered and connected to.
    pub open spec fn resolved(
        self,
        goal: GoalModel,
        outcome: Result<Seq<Address>, Seq<char>>,
    ) -> (ClientModel, StepModel) {
        let key = host_and_port(self.host, self.port);
        match outcome {
            Err(e) => (
                self,
                StepModel::Done(
                    Err(ErrorModel::Connection("DNS lookup "@ + key + ": "@ + e)),
                ),
            ),
            Ok(addrs) => if addrs.len() == 0 {
                (self, StepModel::Done(Err(ErrorModel::Connection("no addresses for "@ + key))))
            } else {
                let found = ClientModel { cached_addr: Some(addrs[0]), ..self };
                (found, found.connect(goal))
            },
        }
    }

    /// After an attempt to connect.
    pub open spec fn connection_made(
        self,
        goal: GoalModel,
        outcome: Result<(), ConnectFailure>,
    ) -> (ClientModel, StepModel) {
        match outcome {
            Err(e) => (self, StepModel::Done(Err(e.error()))),
            Ok(()) => {
                let open = ClientModel { connected: true, ..self };
                match goal {
                    GoalModel::Warm => (open, StepModel::Done(Ok(()))),
                    GoalModel::Send(body) => (open, open.transmit(body, AttemptModel::Second)),
                }
            },
        }
    }

    /// After an attempt to send: a first failure leads to a new connection, a second is final.
    pub open spec fn transmitted(
        self,
        attempt: AttemptModel,
        outcome: Result<(), SendFailure>,
    ) -> (ClientModel, StepModel) {
        match outcome {
            Ok(()) => (self, StepModel::Done(Ok(()))),
            Err(e) => match attempt {
                AttemptModel::First(body) => (
                    self.invalidated(),
                    self.invalidated().connect(GoalModel::Send(body)),
                ),
                AttemptModel::Second => (self, StepModel::Done(Err(e.error()))),
            },
        }
    }
}

/// How the network answers during one operation.
pub struct NetworkModel {
    /// The outcome of a lookup.
    pub lookup: spec_fn(Seq<char>) -> Result<Seq<Address>, Seq<char>>,
    /// The outcome of an attempt to connect.
    pub connect: spec_fn(Address) -> Result<(), ConnectFailure>,
    /// The outcome of an attempt to send.
    pub transmit: spec_fn(AttemptModel) -> Result<(), SendFailure>,
}

impl StepModel {
    /// The most pieces of work that are left, from this step on.
    pub open spec fn work_left(self) -> nat {
        match self {
            StepModel::Done(_) => 0,
            StepModel::Transmit { attempt: AttemptModel::Second, .. } => 1,
            StepModel::Connect { .. } => 2,
            StepModel::Resolve { .. } => 3,
            StepModel::Transmit { attempt: AttemptModel::First(_), .. } => 4,
        }
    }
}

impl ClientModel {
    /// Doing the work of a step and going on with its outcome.
    pub open spec fn advance(self, step: StepModel, net: NetworkModel) -> (ClientModel, StepModel) {
        match step {
            StepModel::Resolve { key, goal } => self.resolved(goal, (net.lookup)(key)),
            StepModel::Connect { addr, goal, .. } => self.connection_made(
                goal,
                (net.connect)(addr),
            ),
            StepModel::Transmit { attempt, .. } => self.transmitted(
                attempt,
                (net.transmit)(attempt),
            ),
            StepModel::Done(_) => (self, step),
        }
    }

    /// Going on from a step until the operation is done: the client afterwards, and how the
    /// operation ended.
    pub open spec fn finish(self, step: StepModel, net: NetworkModel) -> (
        ClientModel,
        Result<(), ErrorModel>,
    )
        decreases step.work_left(),
    {
        match step {
            StepModel::Done(outcome) => (self, outcome),
            _ => {
                let (client, next) = self.advance(step, net);
                client.finish(next, net)
            },
        }
    }

    /// The pieces of work that are done from a step on, in order.
    pub open spec fn work(self, step: StepModel, net: NetworkModel) -> Seq<StepModel>
        decreases step.work_left(),
    {
        match step {
            StepModel::Done(_) => Seq::empty(),
            _ => {
                let (client, next) = self.advance(step, net);
                seq![step] + client.work(next, net)
            },
        }
    }

    /// Warming up, from start to end.
    pub open spec fn warmed_up(self, net: NetworkModel) -> (ClientModel, Result<(), ErrorModel>) {
        let (client, step) = self.warmup();
        client.finish(step, net)
    }

    /// Sending a body, from start to end.
    pub open spec fn sent(self, body: Seq<u8>, net: NetworkModel) -> (
        ClientModel,
        Result<(), ErrorModel>,
    ) {
        let (client, step) = self.send(body);
        client.finish(step, net)
    }

    /// The pieces of work that sending a body takes.
    pub open spec fn send_work(self, body: Seq<u8>, net: NetworkModel) -> Seq<StepModel> {
        let (client, step) = self.send(body);
        client.work(step, net)
    }
}

} // verus!
