//! The configuration that a call reads, the lease of one attempt, and the
//! addresses of the service.

use crate::text::join;
use vstd::prelude::*;
use vstd::string::*;

verus! {

/// Seconds granted to one request, long enough for an answer that streams.
pub const HTTP_TIMEOUT_SECS: u64 = 720;

/// The part of the configuration that a call reads.
pub struct Config {
    /// The region of the service, as it stands in its host name.
    pub region: String,
    /// The version of the IDE that the requests claim.
    pub kiro_version: String,
    /// The operating system that the requests claim.
    pub system_version: String,
    /// The version of the runtime that the requests claim.
    pub node_version: String,
}

/// A `Config` as plain text.
pub struct ConfigView {
    pub region: Seq<char>,
    pub kiro_version: Seq<char>,
    pub system_version: Seq<char>,
    pub node_version: Seq<char>,
}

impl View for Config {
    type V = ConfigView;

    open spec fn view(&self) -> ConfigView {
        ConfigView {
            region: self.region@,
            kiro_version: self.kiro_version@,
            system_version: self.system_version@,
            node_version: self.node_version@,
        }
    }
}

impl Config {
    /// A second configuration with the same text.
    pub fn duplicate(&self) -> (twin: Config)
        ensures
            twin@ == self@,
    {
        Config {
            region: self.region.clone(),
            kiro_version: self.kiro_version.clone(),
            system_version: self.system_version.clone(),
            node_version: self.node_version.clone(),
        }
    }
}

/// The lease of one attempt: a credential, the machine identity derived
/// from it, and a bearer token that was issued for it.
pub struct CallContext {
    /// The credential, by its number in the pool.
    pub id: u64,
    /// The machine identity of the credential, or `None` where the
    /// credential does not yield one.
    pub machine_id: Option<String>,
    /// The bearer token, ready for use.
    pub token: String,
}

/// A `CallContext` as plain values.
pub struct CallContextView {
    pub id: u64,
    pub machine_id: Option<Seq<char>>,
    pub token: Seq<char>,
}

impl View for CallContext {
    type V = CallContextView;

    open spec fn view(&self) -> CallContextView {
        CallContextView {
            id: self.id,
            machine_id: match self.machine_id {
                Some(machine_id) => Some(machine_id@),
                None => None,
            },
            token: self.token@,
        }
    }
}

/// The host name of the service in `region`.
pub open spec fn base_domain_of(region: Seq<char>) -> Seq<char> {
    "q."@ + region + ".amazonaws.com"@
}

/// The address of the assistant endpoint in `region`.
pub open spec fn base_url_of(region: Seq<char>) -> Seq<char> {
    "https://q."@ + region + ".amazonaws.com/generateAssistantResponse"@
}

/// The address of the MCP endpoint in `region`.
pub open spec fn mcp_url_of(region: Seq<char>) -> Seq<char> {
    "https://q."@ + region + ".amazonaws.com/mcp"@
}

/// Writes `head`, `middle` and `tail` one after the other.
pub fn enclose(head: &str, middle: &str, tail: &str) -> (whole: String)
    ensures
        whole@ == head@ + middle@ + tail@,
{
    join(join(String::from_str(head), middle), tail)
}

/// Every address of the service starts with `https://`, then holds the host
/// name of its region, and the host name holds the region.
pub proof fn lemma_addresses_hold_host(region: Seq<char>)
    ensures
        base_url_of(region) == "https://"@ + base_domain_of(region)
            + "/generateAssistantResponse"@,
        mcp_url_of(region) == "https://"@ + base_domain_of(region) + "/mcp"@,
        crate::text::occurs_at(region, base_domain_of(region), 2),
{
    reveal_strlit("https://q.");
    reveal_strlit("https://");
    reveal_strlit("q.");
    reveal_strlit(".amazonaws.com");
    reveal_strlit(".amazonaws.com/generateAssistantResponse");
    reveal_strlit(".amazonaws.com/mcp");
    reveal_strlit("/generateAssistantResponse");
    reveal_strlit("/mcp");
    assert(base_url_of(region) =~= "https://"@ + base_domain_of(region)
        + "/generateAssistantResponse"@);
    assert(mcp_url_of(region) =~= "https://"@ + base_domain_of(region) + "/mcp"@);
    assert(base_domain_of(region).subrange(2, 2 + region.len() as int) =~= region);
}

} // verus!
