//! Settings shared by every http client.

use vstd::prelude::*;

verus! {

/// Settings for http clients: any setting that applies to all requests is
/// kept here, so that clients are configured alike.
#[derive(Clone, Copy, Debug, PartialEq, Eq, Structural)]
pub struct ClientSettings {
    /// Whether to prefer the system's native certificates over the bundled
    /// webpki ones.
    pub prefer_native_tls: bool,
}

impl ClientSettings {
    /// Creates settings from all the values they need.
    pub fn new(prefer_native_tls: bool) -> (r: Self)
        ensures
            r.prefer_native_tls == prefer_native_tls,
    {
        Self { prefer_native_tls }
    }
}

} // verus!
