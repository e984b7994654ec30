//! Assembly of the status that a request is answered with.

use crate::capture::PeerCertificates;
use crate::decode::{decoded, decoded_chain, parse_certificates};
use crate::response::{MtlsResponse, MtlsStatus};
use vstd::prelude::*;

verus! {

/// The status of a connection, given the chain stored for it: the records
/// of the chain where one is stored and any of it decodes, and the absent
/// status otherwise.
pub open spec fn status_of(stored: Option<Seq<Seq<u8>>>) -> MtlsStatus {
    match stored {
        Some(chain) => MtlsStatus::of_records(decoded_chain(chain)),
        None => MtlsStatus::absent(),
    }
}

/// Assembles the status of a connection from the chain stored for it, if
/// any. This always succeeds: a certificate that does not decode is left
/// out.
pub fn certs_response(stored: Option<&PeerCertificates>) -> (response: MtlsResponse)
    ensures
        response@ == status_of(stored.deep_view()),
        response@.consistent(),
        stored is None ==> response@ == MtlsStatus::absent(),
{
    match stored {
        Some(peer_certs) => {
            let chain = peer_certs.0.as_slice();
            assert(chain.deep_view() =~= peer_certs.deep_view());
            let certificates = parse_certificates(chain);
            MtlsResponse::from_certificates(certificates)
        },
        None => MtlsResponse::new(false),
    }
}

/// A connection without a stored chain has the absent status: not valid,
/// no certificates, no chains.
pub proof fn lemma_status_without_certificates()
    ensures
        status_of(None) == (MtlsStatus {
            mtls_valid: false,
            presented_certificates: Seq::empty(),
            verified_chains: Seq::empty(),
        }),
{
}

/// A connection whose stored chain is one certificate that decodes has a
/// valid status with that one record presented, and one chain that equals
/// what was presented.
pub proof fn lemma_status_of_single_certificate(der: Seq<u8>)
    requires
        decoded(der) is Some,
    ensures
        status_of(Some(seq![der])).mtls_valid,
        status_of(Some(seq![der])).presented_certificates == seq![decoded(der).unwrap()],
        status_of(Some(seq![der])).verified_chains == seq![
            status_of(Some(seq![der])).presented_certificates,
        ],
{
    Seq::lemma_filter_map_singleton(der, |d: Seq<u8>| decoded(d));
}

/// Whatever is stored, the status is valid exactly when it presents a
/// certificate, and then its chains are the one chain of all presented
/// certificates.
pub proof fn lemma_status_consistent(stored: Option<Seq<Seq<u8>>>)
    ensures
        status_of(stored).consistent(),
        status_of(stored).mtls_valid <==> status_of(stored).presented_certificates.len() > 0,
        status_of(stored).mtls_valid ==> status_of(stored).verified_chains == seq![
            status_of(stored).presented_certificates,
        ],
        !status_of(stored).mtls_valid ==> status_of(stored).verified_chains.len() == 0,
{
}

} // verus!
