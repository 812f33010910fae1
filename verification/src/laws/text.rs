//! Numbers, lookup keys and errors as text.

use crate::error::{ConnectFailure, Error, ErrorModel, SendFailure, SetupFailure};
use crate::protocol::{host_and_port, host_header};
use crate::text::{decimal, digit};
use vstd::prelude::*;

verus! {

/// A number in decimal is made of digits, starts with no needless zero, and read as a decimal
/// number gives the number.
pub proof fn law_decimal_can_be_read(n: nat)
    ensures
        decimal(n).fold_left(0int, |value: int, c: char| 10 * value + (c as u32 - 48)) == n,
        forall|i: int| 0 <= i < decimal(n).len() ==> '0' <= #[trigger] decimal(n)[i] <= '9',
        decimal(n).len() > 0,
        decimal(n)[0] == '0' ==> n == 0,
        n == 0 ==> decimal(n) == seq!['0'],
    decreases n,
{
    reveal_with_fuel(Seq::fold_left, 2);
    if n < 10 {
        assert(decimal(n).drop_last().len() == 0);
        lemma_digit(n);
    } else {
        law_decimal_can_be_read(n / 10);
        lemma_digit(n % 10);
        assert(decimal(n).drop_last() == decimal(n / 10));
        assert(decimal(n)[0] == decimal(n / 10)[0]);
        assert forall|i: int| 0 <= i < decimal(n).len() implies '0' <= #[trigger] decimal(n)[i]
            <= '9' by {
            if i < decimal(n).len() - 1 {
                assert(decimal(n)[i] == decimal(n / 10)[i]);
            }
        }
    }
}

proof fn lemma_digit(d: nat)
    requires
        d < 10,
    ensures
        '0' <= digit(d) <= '9',
        digit(d) as u32 - 48 == d,
        digit(d) == '0' ==> d == 0,
{
}

/// Different numbers have different decimals.
pub proof fn law_decimals_differ(m: nat, n: nat)
    requires
        decimal(m) == decimal(n),
    ensures
        m == n,
{
    law_decimal_can_be_read(m);
    law_decimal_can_be_read(n);
}

/// The key of a lookup names host and port: it is the host, a colon, and digits that read as
/// the port.
pub proof fn law_lookup_key(host: Seq<char>, port: u16)
    ensures
        ({
            let key = host_and_port(host, port);
            let n = host.len() as int;
            &&& key.len() > n + 1
            &&& key.take(n) == host
            &&& key[n] == ':'
            &&& forall|i: int| n < i < key.len() ==> '0' <= #[trigger] key[i] <= '9'
            &&& key.skip(n + 1).fold_left(
                0int,
                |value: int, c: char| 10 * value + (c as u32 - 48),
            ) == port
            &&& key.skip(n + 1) == decimal(port as nat)
        }),
{
    reveal_strlit(":");
    law_decimal_can_be_read(port as nat);
    let key = host_and_port(host, port);
    let n = host.len() as int;
    assert(key.take(n) == host);
    assert(key.skip(n + 1) == decimal(port as nat));
    assert forall|i: int| n < i < key.len() implies '0' <= #[trigger] key[i] <= '9' by {
        assert(key[i] == decimal(port as nat)[i - n - 1]);
    }
}

/// Clients of different hosts (without a colon) or different ports look up different keys.
pub proof fn law_lookup_keys_differ(
    host: Seq<char>,
    port: u16,
    other_host: Seq<char>,
    other_port: u16,
)
    requires
        !host.contains(':'),
        !other_host.contains(':'),
        host_and_port(host, port) == host_and_port(other_host, other_port),
    ensures
        host == other_host,
        port == other_port,
{
    law_lookup_key(host, port);
    law_lookup_key(other_host, other_port);
    let key = host_and_port(host, port);
    if host.len() < other_host.len() {
        assert(other_host[host.len() as int] == key.take(other_host.len() as int)[host.len() as int]);
    } else if other_host.len() < host.len() {
        assert(host[other_host.len() as int] == key.take(host.len() as int)[other_host.len() as int]);
    }
    law_decimals_differ(port as nat, other_port as nat);
}

/// The host header is the host on port 443, and elsewhere the host, a colon and the port.
pub proof fn law_host_header(host: Seq<char>, port: u16)
    ensures
        port == 443 ==> host_header(host, port) == host,
        port != 443 ==> host_header(host, port) == host + ":"@ + decimal(port as nat),
{
}

/// An error reads as its kind and its own words.
pub proof fn law_error_texts(msg: Seq<char>)
    ensures
        ErrorModel::Connection(msg).text() == "connection: "@ + msg,
        ErrorModel::Request(msg).text() == "request: "@ + msg,
        ErrorModel::NotConnected.text() == "not connected"@,
        ErrorModel::Batch(msg).text() == "batch: "@ + msg,
{
}

/// The model of an error has its kind and its words.
pub proof fn law_error_views(msg: String)
    ensures
        Error::Connection(msg)@ == ErrorModel::Connection(msg@),
        Error::Request(msg)@ == ErrorModel::Request(msg@),
        Error::NotConnected@ == ErrorModel::NotConnected,
        Error::Batch(msg)@ == ErrorModel::Batch(msg@),
{
}

/// A failure is reported as an error that says at which point it came, with its own words.
pub proof fn law_failures_are_reported(words: String)
    ensures
        SetupFailure::TlsConfig(words).error() == ErrorModel::Connection(
            "QUIC TLS config: "@ + words@,
        ),
        SetupFailure::EndpointBind(words).error() == ErrorModel::Connection(
            "endpoint bind: "@ + words@,
        ),
        ConnectFailure::QuicConnect(words).error() == ErrorModel::Connection(
            "QUIC connect: "@ + words@,
        ),
        ConnectFailure::QuicHandshake(words).error() == ErrorModel::Connection(
            "QUIC handshake: "@ + words@,
        ),
        ConnectFailure::H3Handshake(words).error() == ErrorModel::Connection(
            "H3 handshake: "@ + words@,
        ),
        SendFailure::Headers(words).error() == ErrorModel::Request("send headers: "@ + words@),
        SendFailure::Body(words).error() == ErrorModel::Request("send body: "@ + words@),
        SendFailure::Finish(words).error() == ErrorModel::Request("finish stream: "@ + words@),
{
}

} // verus!
