//! What a client trusts, and the settings of its connections.

use crate::quic::{h3_only, transport_is_set, trust_anchors};
use crate::quic_types::{
    byte_strings, is_default_transport, keep_alive_millis, max_idle_millis, trust_anchor,
    with_keep_alive, with_max_idle,
};
use quinn::TransportConfig;
use vstd::prelude::*;
use vstd::utf8::{encode_utf8, is_ascii_chars_encode_utf8};

verus! {

/// Of one certificate that can be parsed its trust anchor is trusted, of one that cannot be
/// parsed nothing, and without certificates nothing.
pub proof fn law_one_certificate(cert: Vec<u8>)
    ensures
        trust_anchors(Seq::empty()).len() == 0,
        trust_anchor(cert@) matches Some(anchor) ==> trust_anchors(seq![cert]) == seq![anchor],
        trust_anchor(cert@) is None ==> trust_anchors(seq![cert]).len() == 0,
{
    reveal_with_fuel(trust_anchors, 2);
    assert(seq![cert].drop_last() == Seq::<Vec<u8>>::empty());
    assert(seq![cert].last() == cert);
}

/// What two lists of certificates are trusted for together is what the first is trusted for,
/// then what the second is.
pub proof fn law_certificates_concatenate(a: Seq<Vec<u8>>, b: Seq<Vec<u8>>)
    ensures
        trust_anchors(a + b) == trust_anchors(a) + trust_anchors(b),
    decreases b.len(),
{
    if b.len() == 0 {
        assert(a + b == a);
    } else {
        assert((a + b).drop_last() == a + b.drop_last());
        assert((a + b).last() == b.last());
        law_certificates_concatenate(a, b.drop_last());
    }
}

/// Every certificate that can be parsed is trusted, wherever it stands in the list.
pub proof fn law_every_certificate_is_trusted(certs: Seq<Vec<u8>>, i: int)
    requires
        0 <= i < certs.len(),
    ensures
        trust_anchor(certs[i]@) matches Some(anchor) ==> trust_anchors(certs).contains(anchor),
{
    assert(certs == certs.take(i) + (seq![certs[i]] + certs.skip(i + 1)));
    law_certificates_concatenate(certs.take(i), seq![certs[i]] + certs.skip(i + 1));
    law_certificates_concatenate(seq![certs[i]], certs.skip(i + 1));
    law_one_certificate(certs[i]);
    if let Some(anchor) = trust_anchor(certs[i]@) {
        let n = trust_anchors(certs.take(i)).len() as int;
        assert(trust_anchors(certs)[n] == anchor);
    }
}

/// Nothing is trusted but the certificates of the list.
pub proof fn law_only_certificates_are_trusted(certs: Seq<Vec<u8>>, k: int)
    requires
        0 <= k < trust_anchors(certs).len(),
    ensures
        exists|i: int|
            0 <= i < certs.len() && trust_anchor(#[trigger] certs[i]@) == Some(
                trust_anchors(certs)[k],
            ),
    decreases certs.len(),
{
    let shorter = certs.drop_last();
    if k < trust_anchors(shorter).len() {
        law_only_certificates_are_trusted(shorter, k);
        let i = choose|i: int|
            0 <= i < shorter.len() && trust_anchor(#[trigger] shorter[i]@) == Some(
                trust_anchors(shorter)[k],
            );
        assert(certs[i] == shorter[i]);
    } else {
        assert(certs.last() == certs[certs.len() - 1]);
    }
}

/// The one application protocol that is offered is called `h3`.
pub proof fn law_h3_is_offered()
    ensures
        h3_only().len() == 1,
        h3_only()[0] == encode_utf8("h3"@),
{
    reveal_strlit("h3");
    is_ascii_chars_encode_utf8("h3"@);
    assert(h3_only()[0] =~= encode_utf8("h3"@));
}

/// The protocols that are offered are those of the list, byte by byte.
pub proof fn law_byte_strings(strings: Seq<Vec<u8>>, i: int)
    requires
        0 <= i < strings.len(),
    ensures
        byte_strings(strings).len() == strings.len(),
        byte_strings(strings)[i] == strings[i]@,
{
}

/// A connection times out after two minutes without traffic and is kept alive every fifteen
/// seconds; the other settings of its transport are those that it starts with.
pub proof fn law_transport_settings(transport: TransportConfig)
    requires
        transport_is_set(transport),
    ensures
        max_idle_millis(transport) == Some(120_000nat),
        keep_alive_millis(transport) == Some(15_000nat),
        exists|start: TransportConfig| #[trigger]
            is_default_transport(start) && transport == with_keep_alive(
                with_max_idle(start, 120_000),
                15_000,
            ),
{
}

} // verus!
