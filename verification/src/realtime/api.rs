//! Connection settings for a realtime WebSocket session.

use vstd::prelude::*;

verus! {

/// What a realtime connection is made from: the endpoint, the key, and the
/// model to run.
pub struct RealtimeClient {
    pub wss_url: String,
    pub api_key: String,
    pub model: String,
}

impl RealtimeClient {
    /// A client against the given endpoint.
    pub fn new_with_endpoint(wss_url: String, api_key: String, model: String) -> (r: Self)
        ensures
            r.wss_url == wss_url,
            r.api_key == api_key,
            r.model == model,
    {
        Self { wss_url, api_key, model }
    }
}

} // verus!
