//! The direct Nozomi endpoints.

use vstd::prelude::*;

verus! {

/// Direct Nozomi endpoints (no Cloudflare proxy, lowest latency).
#[derive(Debug, Clone, Copy, PartialEq, Eq, Hash, Structural)]
pub enum NozomiEndpoint {
    /// Auto-routed via geo-DNS (`edge.nozomi.temporal.xyz`).
    Auto,
    /// Pittsburgh (`pit1.nozomi.temporal.xyz`).
    Pittsburgh,
    /// Tokyo (`tyo1.nozomi.temporal.xyz`).
    Tokyo,
    /// Singapore (`sgp1.nozomi.temporal.xyz`).
    Singapore,
    /// Newark (`ewr1.nozomi.temporal.xyz`).
    Newark,
    /// Amsterdam (`ams1.nozomi.temporal.xyz`).
    Amsterdam,
    /// Frankfurt (`fra2.nozomi.temporal.xyz`).
    Frankfurt,
    /// Ashburn (`ash1.nozomi.temporal.xyz`).
    Ashburn,
    /// Los Angeles (`lax1.nozomi.temporal.xyz`).
    LosAngeles,
    /// London (`lon1.nozomi.temporal.xyz`).
    London,
}

impl NozomiEndpoint {
    /// The host name that belongs to each endpoint.
    pub open spec fn host_name(self) -> Seq<char> {
        match self {
            NozomiEndpoint::Auto => "edge.nozomi.temporal.xyz"@,
            NozomiEndpoint::Pittsburgh => "pit1.nozomi.temporal.xyz"@,
            NozomiEndpoint::Tokyo => "tyo1.nozomi.temporal.xyz"@,
            NozomiEndpoint::Singapore => "sgp1.nozomi.temporal.xyz"@,
            NozomiEndpoint::Newark => "ewr1.nozomi.temporal.xyz"@,
            NozomiEndpoint::Amsterdam => "ams1.nozomi.temporal.xyz"@,
            NozomiEndpoint::Frankfurt => "fra2.nozomi.temporal.xyz"@,
            NozomiEndpoint::Ashburn => "ash1.nozomi.temporal.xyz"@,
            NozomiEndpoint::LosAngeles => "lax1.nozomi.temporal.xyz"@,
            NozomiEndpoint::London => "lon1.nozomi.temporal.xyz"@,
        }
    }

    /// Host name for this endpoint.
    pub fn host(self) -> (host: &'static str)
        ensures
            host@ == self.host_name(),
    {
        match self {
            NozomiEndpoint::Auto => "edge.nozomi.temporal.xyz",
            NozomiEndpoint::Pittsburgh => "pit1.nozomi.temporal.xyz",
            NozomiEndpoint::Tokyo => "tyo1.nozomi.temporal.xyz",
            NozomiEndpoint::Singapore => "sgp1.nozomi.temporal.xyz",
            NozomiEndpoint::Newark => "ewr1.nozomi.temporal.xyz",
            NozomiEndpoint::Amsterdam => "ams1.nozomi.temporal.xyz",
            NozomiEndpoint::Frankfurt => "fra2.nozomi.temporal.xyz",
            NozomiEndpoint::Ashburn => "ash1.nozomi.temporal.xyz",
            NozomiEndpoint::LosAngeles => "lax1.nozomi.temporal.xyz",
            NozomiEndpoint::London => "lon1.nozomi.temporal.xyz",
        }
    }

    /// All direct endpoints (excludes `Auto`).
    pub const ALL_DIRECT: &'static [NozomiEndpoint; 9] = &[
        NozomiEndpoint::Pittsburgh,
        NozomiEndpoint::Tokyo,
        NozomiEndpoint::Singapore,
        NozomiEndpoint::Newark,
        NozomiEndpoint::Amsterdam,
        NozomiEndpoint::Frankfurt,
        NozomiEndpoint::Ashburn,
        NozomiEndpoint::LosAngeles,
        NozomiEndpoint::London,
    ];
}

} // verus!
