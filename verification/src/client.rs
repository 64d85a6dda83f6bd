//! Connection settings for the key-custody service, and their resolution
//! against the service defaults.  The HTTP transport built from the
//! resolved settings lives outside this crate.

use vstd::prelude::*;
use vstd::string::*;

verus! {

/// Optional overrides for the service connection.
#[derive(Debug, Clone)]
pub struct ClientConfig {
    /// Base URL of the service, when not the default.
    pub base_url: Option<String>,
    /// Request timeout in seconds, when not the default.
    pub timeout: Option<u64>,
    /// User-Agent header value, when not the default.
    pub user_agent: Option<String>,
}

impl Default for ClientConfig {
    /// No overrides: every setting takes its default.
    fn default() -> (d: ClientConfig)
        ensures
            d.base_url is None,
            d.timeout is None,
            d.user_agent is None,
    {
        ClientConfig { base_url: None, timeout: None, user_agent: None }
    }
}

/// Connection settings with every default filled in.
#[derive(Debug, Clone)]
pub struct ResolvedClientConfig {
    pub base_url: String,
    pub timeout: u64,
    pub user_agent: String,
}

/// Fills the defaults into a configuration: the production service URL, a
/// thirty-second timeout, and this crate's own user agent.
pub fn resolve_config(config: ClientConfig) -> (r: ResolvedClientConfig)
    ensures
        config.base_url matches Some(u) ==> r.base_url@ == u@,
        config.base_url is None ==> r.base_url@ == "https://api.banhbaoring.io"@,
        config.timeout matches Some(t) ==> r.timeout == t,
        config.timeout is None ==> r.timeout == 30,
        config.user_agent matches Some(a) ==> r.user_agent@ == a@,
        config.user_agent is None ==> r.user_agent@ == "banhbaoring-rust/0.1.0"@,
{
    let base_url = match config.base_url {
        Some(u) => u,
        None => String::from_str("https://api.banhbaoring.io"),
    };
    let timeout = match config.timeout {
        Some(t) => t,
        None => 30,
    };
    let user_agent = match config.user_agent {
        Some(a) => a,
        None => String::from_str("banhbaoring-rust/0.1.0"),
    };
    ResolvedClientConfig { base_url, timeout, user_agent }
}

} // verus!
