//! Endpoints, configuration and construction.

use crate::client::{batch_uri, new_client};
use crate::config::DEFAULT_PORT;
use crate::endpoint::NozomiEndpoint;
use crate::error::ErrorModel;
use crate::http_types::{is_value, is_value_byte};
use crate::protocol::{host_header, ClientModel};
use crate::quic::transport_is_set;
use crate::quic_types::{keep_alive_millis, max_idle_millis};
use crate::text::decimal;
use quinn::TransportConfig;
use vstd::prelude::*;
use vstd::utf8::{encode_utf8, is_ascii_chars, is_ascii_chars_encode_utf8};

verus! {

/// Reads the literals of all host names.
proof fn lemma_host_names(endpoint: NozomiEndpoint)
    ensures
        endpoint.host_name().len() == 24,
        is_ascii_chars(endpoint.host_name()),
        forall|i: int|
            0 <= i < 24 ==> '.' <= #[trigger] endpoint.host_name()[i] <= 'z',
        endpoint.host_name().take(4) == match endpoint {
            NozomiEndpoint::Auto => seq!['e', 'd', 'g', 'e'],
            NozomiEndpoint::Pittsburgh => seq!['p', 'i', 't', '1'],
            NozomiEndpoint::Tokyo => seq!['t', 'y', 'o', '1'],
            NozomiEndpoint::Singapore => seq!['s', 'g', 'p', '1'],
            NozomiEndpoint::Newark => seq!['e', 'w', 'r', '1'],
            NozomiEndpoint::Amsterdam => seq!['a', 'm', 's', '1'],
            NozomiEndpoint::Frankfurt => seq!['f', 'r', 'a', '2'],
            NozomiEndpoint::Ashburn => seq!['a', 's', 'h', '1'],
            NozomiEndpoint::LosAngeles => seq!['l', 'a', 'x', '1'],
            NozomiEndpoint::London => seq!['l', 'o', 'n', '1'],
        },
{
    reveal_strlit("edge.nozomi.temporal.xyz");
    reveal_strlit("pit1.nozomi.temporal.xyz");
    reveal_strlit("tyo1.nozomi.temporal.xyz");
    reveal_strlit("sgp1.nozomi.temporal.xyz");
    reveal_strlit("ewr1.nozomi.temporal.xyz");
    reveal_strlit("ams1.nozomi.temporal.xyz");
    reveal_strlit("fra2.nozomi.temporal.xyz");
    reveal_strlit("ash1.nozomi.temporal.xyz");
    reveal_strlit("lax1.nozomi.temporal.xyz");
    reveal_strlit("lon1.nozomi.temporal.xyz");
}

/// Every endpoint has a host of its own.
pub proof fn law_hosts_are_distinct(a: NozomiEndpoint, b: NozomiEndpoint)
    requires
        a.host_name() == b.host_name(),
    ensures
        a == b,
{
    lemma_host_names(a);
    lemma_host_names(b);
    let x = a.host_name().take(4);
    let y = b.host_name().take(4);
    assert(x[0] == y[0] && x[1] == y[1]);
}

/// The list of direct endpoints holds every endpoint but `Auto`, each once.
pub proof fn law_all_direct(endpoint: NozomiEndpoint)
    ensures
        NozomiEndpoint::ALL_DIRECT@.contains(endpoint) <==> endpoint != NozomiEndpoint::Auto,
        NozomiEndpoint::ALL_DIRECT@.no_duplicates(),
{
    let all = NozomiEndpoint::ALL_DIRECT@;
    assert(all.len() == 9);
    assert(all[0] == NozomiEndpoint::Pittsburgh);
    assert(all[1] == NozomiEndpoint::Tokyo);
    assert(all[2] == NozomiEndpoint::Singapore);
    assert(all[3] == NozomiEndpoint::Newark);
    assert(all[4] == NozomiEndpoint::Amsterdam);
    assert(all[5] == NozomiEndpoint::Frankfurt);
    assert(all[6] == NozomiEndpoint::Ashburn);
    assert(all[7] == NozomiEndpoint::LosAngeles);
    assert(all[8] == NozomiEndpoint::London);
}

/// A new client is not connected and knows no address yet. It has the host and the port that
/// it was made with.
pub proof fn law_new_client_is_idle(host: Seq<char>, port: u16, api_key: Seq<char>)
    ensures
        new_client(host, port, api_key) matches Ok(client) ==> {
            &&& client.host == host
            &&& client.port == port
            &&& !client.connected
            &&& client.cached_addr is None
        },
{
}

/// A client can be made if and only if the API key makes a URI and the host header, which is
/// the host with the port unless it is 443, holds no control character but the tab. The key is
/// tested first.
pub proof fn law_new_client_outcome(
    host: Seq<char>,
    port: u16,
    api_key: Seq<char>,
    header: Seq<u8>,
)
    requires
        port == 443 ==> header == encode_utf8(host),
        port != 443 ==> header == encode_utf8(host + ":"@ + decimal(port as nat)),
    ensures
        batch_uri(api_key) matches Err(words) ==> new_client(host, port, api_key) == Err::<
            ClientModel,
            ErrorModel,
        >(ErrorModel::Connection("invalid batch URI: "@ + words)),
        batch_uri(api_key) matches Ok(uri) ==> {
            let valid = forall|i: int|
                0 <= i < header.len() ==> #[trigger] header[i] == 9 || header[i] >= 32 && header[i]
                    != 127;
            &&& valid ==> new_client(host, port, api_key) == Ok::<ClientModel, ErrorModel>(
                ClientModel { host, port, batch_uri: uri, connected: false, cached_addr: None },
            )
            &&& !valid ==> new_client(host, port, api_key) == Err::<ClientModel, ErrorModel>(
                ErrorModel::Connection(
                    "invalid host header: "@ + "failed to parse header value"@,
                ),
            )
        },
{
    assert(header == encode_utf8(host_header(host, port)));
    assert(is_value(header) <==> forall|i: int|
        0 <= i < header.len() ==> #[trigger] header[i] == 9 || header[i] >= 32 && header[i]
            != 127);
}

/// The host of an endpoint is the name of its site under `nozomi.temporal.xyz`.
pub proof fn law_endpoint_hosts(endpoint: NozomiEndpoint)
    ensures
        endpoint.host_name().len() == 24,
        endpoint.host_name().skip(4) == ".nozomi.temporal.xyz"@,
        endpoint.host_name().take(4) == match endpoint {
            NozomiEndpoint::Auto => seq!['e', 'd', 'g', 'e'],
            NozomiEndpoint::Pittsburgh => seq!['p', 'i', 't', '1'],
            NozomiEndpoint::Tokyo => seq!['t', 'y', 'o', '1'],
            NozomiEndpoint::Singapore => seq!['s', 'g', 'p', '1'],
            NozomiEndpoint::Newark => seq!['e', 'w', 'r', '1'],
            NozomiEndpoint::Amsterdam => seq!['a', 'm', 's', '1'],
            NozomiEndpoint::Frankfurt => seq!['f', 'r', 'a', '2'],
            NozomiEndpoint::Ashburn => seq!['a', 's', 'h', '1'],
            NozomiEndpoint::LosAngeles => seq!['l', 'a', 'x', '1'],
            NozomiEndpoint::London => seq!['l', 'o', 'n', '1'],
        },
{
    lemma_host_names(endpoint);
    reveal_strlit("edge.nozomi.temporal.xyz");
    reveal_strlit("pit1.nozomi.temporal.xyz");
    reveal_strlit("tyo1.nozomi.temporal.xyz");
    reveal_strlit("sgp1.nozomi.temporal.xyz");
    reveal_strlit("ewr1.nozomi.temporal.xyz");
    reveal_strlit("ams1.nozomi.temporal.xyz");
    reveal_strlit("fra2.nozomi.temporal.xyz");
    reveal_strlit("ash1.nozomi.temporal.xyz");
    reveal_strlit("lax1.nozomi.temporal.xyz");
    reveal_strlit("lon1.nozomi.temporal.xyz");
    reveal_strlit(".nozomi.temporal.xyz");
    assert(endpoint.host_name().skip(4) =~= ".nozomi.temporal.xyz"@);
}

/// On the default port the host header is the host alone.
pub proof fn law_default_port_is_not_in_host_header(host: Seq<char>)
    ensures
        host_header(host, DEFAULT_PORT) == host,
        DEFAULT_PORT == 443,
{
}

/// The host of every endpoint makes a valid host header, so that a client for an endpoint can
/// be made with every API key that makes a valid URI.
pub proof fn law_endpoints_are_accepted(endpoint: NozomiEndpoint, api_key: Seq<char>)
    ensures
        new_client(endpoint.host_name(), DEFAULT_PORT, api_key) is Ok <==> batch_uri(
            api_key,
        ) is Ok,
{
    lemma_host_names(endpoint);
    let host = endpoint.host_name();
    is_ascii_chars_encode_utf8(host);
    assert forall|i: int| 0 <= i < encode_utf8(host).len() implies
        is_value_byte(#[trigger] encode_utf8(host)[i]) by {
        assert('.' <= host[i] <= 'z');
    }
}

/// Every request has a host, a content type and a content length, one value each, and no other
/// field. The host is the client's own, with the port unless it is 443.
pub proof fn law_request_fields(client: ClientModel, len: nat)
    ensures
        client.request(len).fields.dom() == set!["host"@, "content-type"@, "content-length"@],
        client.request(len).fields["host"@] == seq![
            encode_utf8(host_header(client.host, client.port)),
        ],
        client.port == 443 ==> client.request(len).fields["host"@] == seq![
            encode_utf8(client.host),
        ],
        client.port != 443 ==> client.request(len).fields["host"@] == seq![
            encode_utf8(client.host + ":"@ + decimal(client.port as nat)),
        ],
        client.request(len).fields["content-type"@] == seq![
            encode_utf8("application/octet-stream"@),
        ],
        client.request(len).fields["content-length"@] == seq![
            encode_utf8(decimal(len)),
        ],
{
    reveal_strlit("host");
    reveal_strlit("content-type");
    reveal_strlit("content-length");
    assert("host"@.len() == 4);
    assert("content-type"@.len() == 12);
    assert("content-length"@.len() == 14);
}

/// Keep-alives are sent before the connection would time out.
pub proof fn law_keep_alive_is_in_time(transport: TransportConfig)
    requires
        transport_is_set(transport),
    ensures
        keep_alive_millis(transport) matches Some(keep_alive) && max_idle_millis(
            transport,
        ) matches Some(idle) && 0 < keep_alive < idle,
{
}

} // verus!
