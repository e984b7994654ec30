//! Listener settings.

use vstd::prelude::*;

verus! {

/// Listener settings: the address the endpoint binds to.
#[derive(Clone)]
pub struct MtlsServer {
    /// Host and port, as `host:port`.
    pub addr: String,
}

impl MtlsServer {
    /// Settings for a listener on `addr`.
    pub fn new(addr: String) -> (server: Self)
        ensures
            server.addr == addr,
    {
        Self { addr }
    }
}

} // verus!
