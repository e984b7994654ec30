//! Capture of the client certificate chain when a connection is accepted.
//!
//! The acceptance layer runs [`on_connect_handler`] once per connection,
//! after the handshake and before the first request. What it stores is all
//! the request handlers ever learn of the client's certificates.

use vstd::prelude::*;
use vstd::slice::slice_to_vec;

verus! {

/// The certificate chain a client presented, as DER blobs, leaf first.
#[derive(Clone, Debug)]
pub struct PeerCertificates(pub Vec<Vec<u8>>);

impl DeepView for PeerCertificates {
    type V = Seq<Seq<u8>>;

    open spec fn deep_view(&self) -> Seq<Seq<u8>> {
        self.0.deep_view()
    }
}

impl View for PeerCertificates {
    type V = Seq<Seq<u8>>;

    open spec fn view(&self) -> Seq<Seq<u8>> {
        self.deep_view()
    }
}

/// What an accepted connection exposes once its handshake is over.
pub enum Connection {
    /// A connection that offers no access to peer certificates.
    Other,
    /// A TLS connection, with the chain the engine reports for the peer, if
    /// it reports one.
    Tls { peer_certificates: Option<Vec<Vec<u8>>> },
}

impl Connection {
    /// The peer chain that the connection exposes.
    pub open spec fn peer_chain(self) -> Option<Seq<Seq<u8>>> {
        match self {
            Connection::Other => None,
            Connection::Tls { peer_certificates } => peer_certificates.deep_view(),
        }
    }
}

/// The state that belongs to one connection and is shared, read-only, by
/// every request served over it.
pub struct ConnectionData {
    peer_certificates: Option<PeerCertificates>,
}

impl View for ConnectionData {
    type V = Option<Seq<Seq<u8>>>;

    closed spec fn view(&self) -> Option<Seq<Seq<u8>>> {
        self.peer_certificates.deep_view()
    }
}

impl ConnectionData {
    /// The state of a connection on which nothing was captured.
    pub fn new() -> (data: Self)
        ensures
            data@ is None,
    {
        ConnectionData { peer_certificates: None }
    }

    /// The captured chain, if one was stored.
    pub fn peer_certificates(&self) -> (stored: Option<&PeerCertificates>)
        ensures
            stored.deep_view() == self@,
    {
        self.peer_certificates.as_ref()
    }
}

/// What the connection state holds after the capture ran on `connection`:
/// the peer chain where the connection exposes one that is not empty, and
/// what it held before otherwise.
pub open spec fn captured(
    connection: Connection,
    before: Option<Seq<Seq<u8>>>,
) -> Option<Seq<Seq<u8>>> {
    match connection.peer_chain() {
        Some(chain) => if chain.len() > 0 {
            Some(chain)
        } else {
            before
        },
        None => before,
    }
}

/// Copies a chain, blob by blob, in order.
pub fn copy_chain(chain: &Vec<Vec<u8>>) -> (copy: Vec<Vec<u8>>)
    ensures
        copy.deep_view() == chain.deep_view(),
{
    let mut copy: Vec<Vec<u8>> = Vec::new();
    let mut i: usize = 0;
    while i < chain.len()
        invariant
            i <= chain.len(),
            copy.len() == i,
            forall|k: int| 0 <= k < i ==> copy[k]@ == chain[k]@,
        decreases chain.len() - i,
    {
        copy.push(slice_to_vec(chain[i].as_slice()));
        i += 1;
    }
    assert(copy.deep_view() =~= chain.deep_view()) by {
        assert forall|k: int| 0 <= k < chain.len() implies copy[k].deep_view()
            == chain[k].deep_view() by {
            assert(copy[k].deep_view() =~= copy[k]@);
            assert(chain[k].deep_view() =~= chain[k]@);
        }
    }
    copy
}

/// Stores the client's certificate chain in the connection's state.
///
/// A chain is stored only where the connection exposes one and it is not
/// empty; in every other case the state is left as it was. Nothing is
/// decoded here.
pub fn on_connect_handler(connection: &Connection, data: &mut ConnectionData)
    ensures
        final(data)@ == captured(*connection, old(data)@),
{
    match connection {
        Connection::Tls { peer_certificates: Some(chain) } => {
            let der_certs = copy_chain(chain);
            if der_certs.len() > 0 {
                data.peer_certificates = Some(PeerCertificates(der_certs));
            }
        },
        _ => {},
    }
}

} // verus!
