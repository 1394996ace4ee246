//! Where clients find the gateway.

use vstd::prelude::*;

verus! {

/// The gateway's URL under the public WebSocket base URL.
pub fn gateway_url(public_ws_url: &str) -> (url: String)
    ensures
        url@ == public_ws_url@ + "/gateway"@,
{
    let mut url = public_ws_url.to_owned();
    url.append("/gateway");
    url
}

/// The CDN's URL under the public HTTP base URL.
pub fn cdn_url(public_http_url: &str) -> (url: String)
    ensures
        url@ == public_http_url@ + "/cdn"@,
{
    let mut url = public_http_url.to_owned();
    url.append("/cdn");
    url
}

/// What bots are told about connecting: one shard, no session starts left out
/// of one, one at a time, a reset after four hours.
pub struct SessionStartLimit {
    pub remaining: u8,
    pub total: u8,
    pub max_concurrency: u8,
    pub reset_after: u64,
}

/// The gateway answer for bots.
pub struct GatewayBotResponse {
    pub url: String,
    pub shards: u8,
    pub session_start_limit: SessionStartLimit,
}

impl GatewayBotResponse {
    /// The answer for bots, with the gateway under `public_ws_url`.
    pub fn new(public_ws_url: &str) -> (r: Self)
        ensures
            r.url@ == public_ws_url@ + "/gateway"@,
            r.shards == 1,
            r.session_start_limit.remaining == 0,
            r.session_start_limit.total == 1,
            r.session_start_limit.max_concurrency == 1,
            r.session_start_limit.reset_after == 14400000,
    {
        GatewayBotResponse {
            url: gateway_url(public_ws_url),
            shards: 1,
            session_start_limit: SessionStartLimit { remaining: 0, total: 1, max_concurrency: 1, reset_after: 14400000 },
        }
    }
}

} // verus!
