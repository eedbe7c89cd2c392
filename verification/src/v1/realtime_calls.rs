//! Data types of the realtime call-control endpoints.

use vstd::prelude::*;

verus! {

/// A request to redirect a call to another address, for example a Tel URI.
#[derive(Debug, Clone)]
pub struct ReferCallRequest {
    pub target_uri: String,
}

} // verus!
