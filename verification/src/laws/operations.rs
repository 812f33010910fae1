//! Warming up, sending and disconnecting.

use crate::error::ErrorModel;
use crate::protocol::{
    host_and_port, Address, AttemptModel, ClientModel, GoalModel, NetworkModel, StepModel,
};
use crate::text::decimal;
use vstd::prelude::*;

verus! {

/// Every piece of work brings an operation closer to its end, so that no operation takes more
/// than four.
pub proof fn law_operations_end(client: ClientModel, step: StepModel, net: NetworkModel)
    ensures
        step !is Done ==> client.advance(step, net).1.work_left() < step.work_left(),
        client.work(step, net).len() <= step.work_left() <= 4,
    decreases step.work_left(),
{
    if step !is Done {
        let (next_client, next) = client.advance(step, net);
        law_operations_end(next_client, next, net);
    }
}

/// Host, port and batch URI do not change in an operation, nor by disconnecting.
pub proof fn law_identity_is_immutable(client: ClientModel, step: StepModel, net: NetworkModel)
    ensures
        ({
            let (after, _) = client.finish(step, net);
            &&& after.host == client.host
            &&& after.port == client.port
            &&& after.batch_uri == client.batch_uri
        }),
        client.invalidated().host == client.host,
        client.invalidated().port == client.port,
        client.invalidated().batch_uri == client.batch_uri,
    decreases step.work_left(),
{
    if step !is Done {
        let (next_client, next) = client.advance(step, net);
        law_identity_is_immutable(next_client, next, net);
    }
}

/// What is done with a client after construction.
pub enum Operation {
    /// Warming up.
    Warmup(NetworkModel),
    /// Sending a body.
    Send(Seq<u8>, NetworkModel),
    /// Disconnecting.
    Disconnect,
}

/// The client after one operation.
pub open spec fn after_operation(client: ClientModel, operation: Operation) -> ClientModel {
    match operation {
        Operation::Warmup(net) => client.warmed_up(net).0,
        Operation::Send(body, net) => client.sent(body, net).0,
        Operation::Disconnect => client.invalidated(),
    }
}

/// The client after some operations, one by one.
pub open spec fn after_operations(
    client: ClientModel,
    operations: Seq<Operation>,
) -> ClientModel
    decreases operations.len(),
{
    if operations.len() == 0 {
        client
    } else {
        after_operation(
            after_operations(client, operations.drop_last()),
            operations.last(),
        )
    }
}

/// Whatever is done with a client, it keeps the host, the port and the batch URI that it was
/// made with, so that every request it makes is the one that it would have made at first.
pub proof fn law_identity_is_kept(client: ClientModel, operations: Seq<Operation>, len: nat)
    ensures
        ({
            let after = after_operations(client, operations);
            &&& after.host == client.host
            &&& after.port == client.port
            &&& after.batch_uri == client.batch_uri
            &&& after.request(len) == client.request(len)
        }),
    decreases operations.len(),
{
    if operations.len() > 0 {
        law_identity_is_kept(client, operations.drop_last(), len);
        let before = after_operations(client, operations.drop_last());
        match operations.last() {
            Operation::Warmup(net) => law_identity_is_immutable(before, before.warmup().1, net),
            Operation::Send(body, net) => law_identity_is_immutable(
                before,
                before.send(body).1,
                net,
            ),
            Operation::Disconnect => {},
        }
    }
}

/// With a connection, sending a body starts with the transmission: no lookup and no handshake
/// come before it.
pub proof fn law_warm_send_is_immediate(client: ClientModel, body: Seq<u8>)
    requires
        client.connected,
    ensures
        client.send(body) == (
            client,
            StepModel::Transmit {
                request: client.request(body.len()),
                body,
                attempt: AttemptModel::First(body),
            },
        ),
{
}

/// A body that goes out at the first attempt leaves the client as it was: the connection
/// persists.
pub proof fn law_connection_persists(client: ClientModel, body: Seq<u8>, net: NetworkModel)
    requires
        client.connected,
        (net.transmit)(AttemptModel::First(body)) is Ok,
    ensures
        client.sent(body, net) == (client, Ok::<(), ErrorModel>(())),
        client.send_work(body, net).len() == 1,
{
    reveal_with_fuel(ClientModel::finish, 2);
    reveal_with_fuel(ClientModel::work, 2);
}

/// Warming up takes a lookup, whether or not an address is cached, and an attempt to connect
/// to the first address that the lookup finds.
pub proof fn law_warmup_work(client: ClientModel, net: NetworkModel)
    ensures
        ({
            let key = host_and_port(client.host, client.port);
            let work = client.work(client.warmup().1, net);
            &&& work[0] == StepModel::Resolve { key, goal: GoalModel::Warm }
            &&& match (net.lookup)(key) {
                Ok(addrs) => if addrs.len() > 0 {
                    work.len() == 2 && work[1] == StepModel::Connect {
                        addr: addrs[0],
                        server_name: client.host,
                        goal: GoalModel::Warm,
                    }
                } else {
                    work.len() == 1
                },
                Err(_) => work.len() == 1,
            }
        }),
{
    reveal_with_fuel(ClientModel::work, 4);
}

/// Warming up succeeds if and only if the lookup finds an address and the first that it finds
/// can be connected to.
pub proof fn law_warmup_outcome(client: ClientModel, net: NetworkModel)
    ensures
        client.warmed_up(net).1 is Ok <==> {
            let lookup = (net.lookup)(
                host_and_port(client.host, client.port),
            );
            &&& lookup matches Ok(addrs)
            &&& addrs.len() > 0
            &&& (net.connect)(addrs[0]) is Ok
        },
{
    reveal_with_fuel(ClientModel::finish, 4);
}

/// After warming up there is a connection to the address that the lookup found first, so that
/// the next send pays no handshake.
pub proof fn law_warmup_connects(client: ClientModel, net: NetworkModel, body: Seq<u8>)
    requires
        client.warmed_up(net).1 is Ok,
    ensures
        client.warmed_up(net).0.connected,
        (net.lookup)(host_and_port(client.host, client.port)) matches Ok(addrs)
            && client.warmed_up(net).0.cached_addr == Some(addrs[0]),
        client.warmed_up(net).0.send(body).1 is Transmit,
{
    reveal_with_fuel(ClientModel::finish, 4);
}

/// Warming up that fails leaves the connection as it was.
pub proof fn law_failed_warmup_keeps_connection(client: ClientModel, net: NetworkModel)
    requires
        client.warmed_up(net).1 is Err,
    ensures
        client.warmed_up(net).0.connected == client.connected,
{
    reveal_with_fuel(ClientModel::finish, 4);
}

/// The address that a reconnect goes to: the cached one, or the first that a lookup finds.
pub open spec fn reconnect_address(client: ClientModel, net: NetworkModel) -> Option<Address> {
    match client.cached_addr {
        Some(addr) => Some(addr),
        None => match (net.lookup)(host_and_port(client.host, client.port)) {
            Ok(addrs) => if addrs.len() > 0 {
                Some(addrs[0])
            } else {
                None
            },
            Err(_) => None,
        },
    }
}

/// Sending succeeds if and only if the body goes out on the connection that there is, or else
/// a new connection can be made and the body goes out on that: on failure the client
/// reconnects and retries once.
pub proof fn law_send_outcome(client: ClientModel, body: Seq<u8>, net: NetworkModel)
    ensures
        client.sent(body, net).1 is Ok <==> {
            ||| client.connected && (net.transmit)(AttemptModel::First(body)) is Ok
            ||| {
                &&& reconnect_address(client, net) matches Some(addr)
                &&& (net.connect)(addr) is Ok
                &&& (net.transmit)(AttemptModel::Second) is Ok
            }
        },
{
    reveal_with_fuel(ClientModel::finish, 5);
}

/// After a successful send there is a connection.
pub proof fn law_successful_send_is_connected(client: ClientModel, body: Seq<u8>, net: NetworkModel)
    requires
        client.sent(body, net).1 is Ok,
    ensures
        client.sent(body, net).0.connected,
{
    reveal_with_fuel(ClientModel::finish, 5);
}

/// After a successful send the client remembers the address that it is connected to: the one
/// that it knew, or else the first that the lookup found, so that a later reconnect goes there.
pub proof fn law_send_remembers_its_address(
    client: ClientModel,
    body: Seq<u8>,
    net: NetworkModel,
    later: Seq<u8>,
)
    requires
        client.sent(body, net).1 is Ok,
        !client.connected || (net.transmit)(AttemptModel::First(body)) is Err,
    ensures
        client.cached_addr is Some ==> client.sent(body, net).0.cached_addr == client.cached_addr,
        client.cached_addr is None ==> ((net.lookup)(
            client.host + ":"@ + decimal(client.port as nat),
        ) matches Ok(addrs) && addrs.len() > 0 && client.sent(body, net).0.cached_addr == Some(
            addrs[0],
        )),
        client.sent(body, net).0.cached_addr matches Some(addr) && (net.connect)(addr) is Ok,
        client.sent(body, net).0.invalidated().send(later).1 matches StepModel::Connect { addr, .. }
            && Some(addr) == client.sent(body, net).0.cached_addr,
{
    reveal_with_fuel(ClientModel::finish, 5);
}

/// A body that does not go out at the second attempt is given up with the error of that
/// attempt.
pub proof fn law_second_failure_is_final(client: ClientModel, body: Seq<u8>, net: NetworkModel)
    requires
        client.connected ==> (net.transmit)(AttemptModel::First(body)) is Err,
        reconnect_address(client, net) matches Some(addr) && (net.connect)(addr) is Ok,
        (net.transmit)(AttemptModel::Second) is Err,
    ensures
        client.sent(body, net).1 == Err::<(), ErrorModel>(
            (net.transmit)(AttemptModel::Second)->Err_0.error(),
        ),
{
    reveal_with_fuel(ClientModel::finish, 5);
}

/// Why a reconnect fails, if it does: the lookup fails or finds nothing, or the connection
/// cannot be made.
pub open spec fn reconnect_failure(client: ClientModel, net: NetworkModel) -> Option<ErrorModel> {
    let key = host_and_port(client.host, client.port);
    match reconnect_address(client, net) {
        Some(addr) => match (net.connect)(addr) {
            Ok(()) => None,
            Err(e) => Some(e.error()),
        },
        None => match (net.lookup)(key) {
            Ok(_) => Some(ErrorModel::Connection("no addresses for "@ + key)),
            Err(e) => Some(ErrorModel::Connection("DNS lookup "@ + key + ": "@ + e)),
        },
    }
}

/// A send that has to reconnect and cannot is given up with the error of the lookup or of the
/// attempt to connect, which is a connection error. There is no connection then.
pub proof fn law_failed_reconnect_is_final(client: ClientModel, body: Seq<u8>, net: NetworkModel)
    requires
        client.connected ==> (net.transmit)(AttemptModel::First(body)) is Err,
        reconnect_failure(client, net) is Some,
    ensures
        reconnect_failure(client, net) matches Some(error) && error is Connection
            && client.sent(body, net).1 == Err::<(), ErrorModel>(error),
        !client.sent(body, net).0.connected,
{
    reveal_with_fuel(ClientModel::finish, 5);
}

/// Every error of a send is that of a connection or of a request. In particular sending never
/// reports a missing connection: it reconnects before it sends.
pub proof fn law_send_errors(client: ClientModel, body: Seq<u8>, net: NetworkModel)
    ensures
        client.sent(body, net).1 matches Err(error) ==> error is Connection || error is Request,
{
    reveal_with_fuel(ClientModel::finish, 5);
}

/// Every error of warming up is that of a connection.
pub proof fn law_warmup_errors(client: ClientModel, net: NetworkModel)
    ensures
        client.warmed_up(net).1 matches Err(error) ==> error is Connection,
{
    reveal_with_fuel(ClientModel::finish, 4);
}

/// Sending takes at most two transmissions, one attempt to connect and one lookup, in the
/// order: transmission, lookup, connection, transmission. Every transmission has the same
/// request and the same body.
pub proof fn law_send_work(client: ClientModel, body: Seq<u8>, net: NetworkModel)
    ensures
        ({
            let work = client.send_work(body, net);
            &&& work.len() <= 4
            &&& forall|i: int, j: int|
                0 <= i < j < work.len() ==> (#[trigger] work[i]).work_left() > (
                #[trigger] work[j]).work_left()
            &&& forall|i: int|
                0 <= i < work.len() ==> match #[trigger] work[i] {
                    StepModel::Transmit { request, body: sent, .. } => request == client.request(
                        body.len(),
                    ) && sent == body,
                    StepModel::Resolve { key, goal } => key == host_and_port(
                        client.host,
                        client.port,
                    ) && goal == GoalModel::Send(body),
                    StepModel::Connect { server_name, goal, .. } => server_name == client.host
                        && goal == GoalModel::Send(body),
                    StepModel::Done(_) => false,
                }
        }),
{
    reveal_with_fuel(ClientModel::work, 5);
}

/// Once the host was found, sending looks it up no more: the address is cached across
/// reconnects.
pub proof fn law_cached_address_spares_lookups(
    client: ClientModel,
    body: Seq<u8>,
    net: NetworkModel,
)
    requires
        client.cached_addr is Some,
    ensures
        forall|i: int|
            0 <= i < client.send_work(body, net).len() ==> match #[trigger] client.send_work(
                body,
                net,
            )[i] {
                StepModel::Resolve { .. } => false,
                StepModel::Connect { addr, .. } => Some(addr) == client.cached_addr,
                _ => true,
            },
        client.sent(body, net).0.cached_addr == client.cached_addr,
        client.invalidated().cached_addr == client.cached_addr,
{
    reveal_with_fuel(ClientModel::finish, 5);
    reveal_with_fuel(ClientModel::work, 5);
}

/// A lookup replaces the cached address; no operation ever loses it.
pub proof fn law_address_is_never_lost(client: ClientModel, step: StepModel, net: NetworkModel)
    requires
        client.cached_addr is Some,
    ensures
        client.finish(step, net).0.cached_addr is Some,
    decreases step.work_left(),
{
    if step !is Done {
        let (next_client, next) = client.advance(step, net);
        law_address_is_never_lost(next_client, next, net);
    }
}

/// After disconnecting there is no connection, and the next send makes one before it
/// transmits.
pub proof fn law_send_after_disconnect_reconnects(
    client: ClientModel,
    body: Seq<u8>,
    net: NetworkModel,
)
    ensures
        !client.invalidated().connected,
        client.invalidated().send(body).1 is Connect || client.invalidated().send(body).1
            is Resolve,
        reconnect_address(client, net) matches Some(addr) && (net.connect)(addr) is Ok ==> {
            let work = client.invalidated().send_work(body, net);
            &&& work.len() >= 2
            &&& work[work.len() - 2] is Connect
            &&& work.last() == client.transmit(body, AttemptModel::Second)
        },
{
    reveal_with_fuel(ClientModel::work, 5);
}

/// Disconnecting twice is disconnecting once.
pub proof fn law_disconnect_is_idempotent(client: ClientModel)
    ensures
        client.invalidated().invalidated() == client.invalidated(),
{
}

/// The requests of one client differ in nothing but the content length.
pub proof fn law_requests_differ_in_length_only(client: ClientModel, m: nat, n: nat)
    ensures
        client.request(m).method == client.request(n).method,
        client.request(m).uri == client.request(n).uri,
        client.request(m).version == client.request(n).version,
        client.request(m).extensions == client.request(n).extensions,
        client.request(m).fields.remove("content-length"@) == client.request(n).fields.remove(
            "content-length"@,
        ),
{
    assert(client.request(m).fields.remove("content-length"@) =~= client.request(n).fields.remove(
        "content-length"@,
    ));
}

} // verus!
