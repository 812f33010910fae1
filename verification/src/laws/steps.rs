//! Single steps of operations, and requests.

use crate::buffer::buffer_bytes;
use crate::client::{new_client, outcome_model, request_model, Attempt, Goal, Step};
use crate::error::{ConnectFailure, Error, ErrorModel, SendFailure};
use crate::http_types::{
    request_extensions, request_fields, request_method, request_uri, request_version,
};
use crate::laws::key::{law_batch_uri, law_plain_keys};
use crate::laws::text::law_lookup_keys_differ;
use crate::protocol::{Address, AttemptModel, ClientModel, GoalModel, RequestModel, StepModel};
use crate::query::query_value;
use crate::text::decimal;
use bytes::Bytes;
use http::Request;
use vstd::prelude::*;

verus! {

/// Warming up starts with a lookup of the client's own host and port, whatever the client
/// knows, and changes nothing yet.
pub proof fn law_warmup_looks_up_the_host(client: ClientModel)
    ensures
        client.warmup().0 == client,
        client.warmup().1 matches StepModel::Resolve { key, goal } && goal is Warm && key
            == client.host + ":"@ + decimal(client.port as nat),
{
}

/// Clients whose lookups for warming up are the same have the same host (unless it holds a
/// colon) and the same port.
pub proof fn law_warmups_of_different_clients_differ(a: ClientModel, b: ClientModel)
    requires
        !a.host.contains(':'),
        !b.host.contains(':'),
        a.warmup().1 == b.warmup().1,
    ensures
        a.host == b.host,
        a.port == b.port,
{
    law_lookup_keys_differ(a.host, a.port, b.host, b.port);
}

/// The address that is remembered is the address that is connected to, and both are the first
/// that the lookup found. The connection is for the client's own host, and the operation goes on
/// with the goal that it had.
pub proof fn law_first_address_is_remembered_and_used(
    client: ClientModel,
    goal: GoalModel,
    addrs: Seq<Address>,
)
    requires
        addrs.len() > 0,
    ensures
        ({
            let (after, step) = client.resolved(goal, Ok(addrs));
            &&& after.cached_addr == Some(addrs[0])
            &&& step matches StepModel::Connect { addr, server_name, goal: next }
            &&& Some(addr) == after.cached_addr
            &&& server_name == client.host
            &&& next == goal
            &&& after.host == client.host
            &&& after.port == client.port
            &&& after.batch_uri == client.batch_uri
            &&& after.connected == client.connected
        }),
{
}

/// A lookup that fails or finds nothing ends the operation with an error that names the host
/// and the port, and changes nothing.
pub proof fn law_failed_lookup(client: ClientModel, goal: GoalModel, words: Seq<char>)
    ensures
        client.resolved(goal, Err(words)) == (
            client,
            StepModel::Done(
                Err(
                    ErrorModel::Connection(
                        "DNS lookup "@ + (client.host + ":"@ + decimal(client.port as nat)) + ": "@
                            + words,
                    ),
                ),
            ),
        ),
        client.resolved(goal, Ok(Seq::empty())) == (
            client,
            StepModel::Done(
                Err(
                    ErrorModel::Connection(
                        "no addresses for "@ + (client.host + ":"@ + decimal(client.port as nat)),
                    ),
                ),
            ),
        ),
{
}

/// A send without a connection starts with an attempt to connect to the address that is
/// remembered, or else with a lookup of the client's own host and port. It changes nothing yet,
/// and it goes on with the whole body.
pub proof fn law_cold_send(client: ClientModel, body: Seq<u8>)
    requires
        !client.connected,
    ensures
        client.send(body).0 == client,
        client.cached_addr matches Some(known) ==> (client.send(body).1 matches StepModel::Connect {
            addr,
            server_name,
            goal,
        } && addr == known && server_name == client.host && goal == GoalModel::Send(body)),
        client.cached_addr is None ==> (client.send(body).1 matches StepModel::Resolve { key, goal }
            && key == client.host + ":"@ + decimal(client.port as nat) && goal == GoalModel::Send(
            body,
        )),
{
}

/// A connection that was made for a send carries the whole body, as the last attempt. One that
/// was made for warming up ends the operation well.
pub proof fn law_connection_is_used(client: ClientModel, body: Seq<u8>)
    ensures
        ({
            let (after, step) = client.connection_made(GoalModel::Send(body), Ok(()));
            &&& after == ClientModel { connected: true, ..client }
            &&& step matches StepModel::Transmit { request, body: sent, attempt }
            &&& request == client.request(body.len())
            &&& sent == body
            &&& attempt is Second
        }),
        client.connection_made(GoalModel::Warm, Ok(())) == (
            ClientModel { connected: true, ..client },
            StepModel::Done(Ok(())),
        ),
{
    let after = ClientModel { connected: true, ..client };
    assert(after.request(body.len()) == client.request(body.len()));
}

/// An attempt to connect that fails ends the operation with its error and changes nothing.
pub proof fn law_failed_connection(client: ClientModel, goal: GoalModel, failure: ConnectFailure)
    ensures
        client.connection_made(goal, Err(failure)) == (client, StepModel::Done(Err(failure.error()))),
        failure.error() is Connection,
{
}

/// A body that was sent ends the operation well and changes nothing, at either attempt.
pub proof fn law_successful_transmission(client: ClientModel, attempt: AttemptModel)
    ensures
        client.transmitted(attempt, Ok(())) == (client, StepModel::Done(Ok(()))),
{
}

/// A first attempt that fails gives up the connection, and nothing else that the client knows;
/// the operation goes on as a send without a connection does. A second attempt that fails ends
/// the operation with its error and changes nothing.
pub proof fn law_failed_transmission(client: ClientModel, body: Seq<u8>, failure: SendFailure)
    ensures
        ({
            let without = ClientModel { connected: false, ..client };
            client.transmitted(AttemptModel::First(body), Err(failure)) == without.send(body)
        }),
        client.transmitted(AttemptModel::Second, Err(failure)) == (
            client,
            StepModel::Done(Err(failure.error())),
        ),
        failure.error() is Request,
{
}

/// Disconnecting gives up the connection, and nothing else that the client knows.
pub proof fn law_disconnect(client: ClientModel)
    ensures
        client.invalidated() == (ClientModel { connected: false, ..client }),
{
}

/// Every request of a client is a `POST` to the batch URI of the client, whatever its host and
/// port, in a version and with extensions that are those of a new request.
pub proof fn law_requests_go_to_the_batch_uri(client: ClientModel, len: nat)
    ensures
        client.request(len).method == "POST"@,
        client.request(len).uri == client.batch_uri,
        client.request(len).version == "HTTP/1.1"@,
        client.request(len).extensions == 0,
{
}

/// Every request of a client that was made from a host, a port and an API key goes to
/// `/api/sendBatch` with the key as `c`, whatever the host and the port. A key without a `#`
/// stands there as it is.
pub proof fn law_every_request_passes_the_key(
    host: Seq<char>,
    port: u16,
    api_key: Seq<char>,
    len: nat,
)
    ensures
        new_client(host, port, api_key) matches Ok(client) ==> {
            &&& client.request(len).uri == "/api/sendBatch?c="@ + query_value(api_key)
            &&& !api_key.contains('#') ==> client.request(len).uri == "/api/sendBatch?c="@ + api_key
        },
{
    law_batch_uri(host, port, api_key);
    if !api_key.contains('#') {
        law_plain_keys(api_key);
    }
}

/// The model of a request has the parts of the request.
pub proof fn law_request_model(request: Request<()>)
    ensures
        request_model(request) == (RequestModel {
            method: request_method(request),
            uri: request_uri(request),
            version: request_version(request),
            extensions: request_extensions(request),
            fields: request_fields(request),
        }),
{
}

/// The model of a goal or an attempt has its kind and all bytes of its body.
pub proof fn law_goal_and_attempt_models(body: Bytes)
    ensures
        Goal::Warm@ == GoalModel::Warm,
        Goal::Send(body)@ == GoalModel::Send(buffer_bytes(body)),
        Attempt::First(body)@ == AttemptModel::First(buffer_bytes(body)),
        Attempt::Second@ == AttemptModel::Second,
{
}

/// The model of a step has its kind and its parts.
pub proof fn law_step_models(
    text: String,
    addr: Address,
    goal: Goal,
    request: Request<()>,
    body: Bytes,
    attempt: Attempt,
    outcome: Result<(), Error>,
)
    ensures
        (Step::Resolve { key: text, goal })@ == (StepModel::Resolve { key: text@, goal: goal@ }),
        (Step::Connect { addr, server_name: text, goal })@ == (StepModel::Connect {
            addr,
            server_name: text@,
            goal: goal@,
        }),
        (Step::Transmit { request, body, attempt })@ == (StepModel::Transmit {
            request: request_model(request),
            body: buffer_bytes(body),
            attempt: attempt@,
        }),
        Step::Done(outcome)@ == StepModel::Done(outcome_model(outcome)),
        outcome is Ok ==> outcome_model(outcome) == Ok::<(), ErrorModel>(()),
        outcome matches Err(e) ==> outcome_model(outcome) == Err::<(), ErrorModel>(e@),
{
}

} // verus!
