//! Construction of the server's TLS configuration from PEM sources.
//!
//! The configuration verifies a client certificate chain against the trust
//! anchors when a client presents one, and lets the handshake go on when it
//! presents none. PEM decoding and everything cryptographic is done by
//! `rustls-pemfile` and `rustls`; what is decided here is which material is
//! handed to them and which failure a defective source gives.

use rustls::pki_types::{CertificateDer, PrivateKeyDer, PrivatePkcs8KeyDer};
use rustls::server::{VerifierBuilderError, WebPkiClientVerifier};
use rustls::{RootCertStore, ServerConfig};
use std::io::BufReader;
use std::sync::Arc;
use vstd::prelude::*;

verus! {

#[verifier::external_type_specification]
#[verifier::external_body]
pub struct ExRootCertStore(RootCertStore);

#[verifier::external_type_specification]
#[verifier::external_body]
pub struct ExServerConfig(ServerConfig);

#[verifier::external_type_specification]
#[verifier::external_body]
pub struct ExTlsError(rustls::Error);

#[verifier::external_type_specification]
#[verifier::external_body]
pub struct ExVerifierBuilderError(VerifierBuilderError);

#[verifier::external_type_specification]
#[verifier::external_body]
pub struct ExIoError(std::io::Error);

/// The step at which building a configuration failed.
#[derive(Clone, Copy, Debug, PartialEq, Eq, Structural)]
pub enum LoadFailure {
    /// A section of the trust-anchor source could not be decoded.
    TrustAnchorParse,
    /// The root store refused a certificate of the trust-anchor source.
    TrustAnchorRejected,
    /// A section of the server-certificate source could not be decoded.
    CertificateParse,
    /// The server-certificate source holds no certificate.
    NoCertificates,
    /// The key source holds no PKCS#8 private key.
    NoPrivateKey,
    /// The key source could not be decoded up to its first private key.
    PrivateKeyParse,
    /// No client verifier could be built from the trust anchors.
    ClientVerifier,
    /// The TLS engine refused the server's certificate chain and key.
    ServerIdentity,
}

impl LoadFailure {
    /// The text of [`LoadFailure::message`].
    pub open spec fn message_text(self) -> Seq<char> {
        match self {
            LoadFailure::TrustAnchorParse => "Trust anchor source could not be decoded"@,
            LoadFailure::TrustAnchorRejected => "Trust anchor was refused"@,
            LoadFailure::CertificateParse => "Server certificate source could not be decoded"@,
            LoadFailure::NoCertificates => "No certificates found"@,
            LoadFailure::NoPrivateKey => "No private key found"@,
            LoadFailure::PrivateKeyParse => "Private key source could not be decoded"@,
            LoadFailure::ClientVerifier => "Client verifier could not be built"@,
            LoadFailure::ServerIdentity => "Server certificate and key were refused"@,
        }
    }

    /// A short description of the step that failed.
    pub fn message(self) -> (text: &'static str)
        ensures
            text@ == self.message_text(),
    {
        match self {
            LoadFailure::TrustAnchorParse => "Trust anchor source could not be decoded",
            LoadFailure::TrustAnchorRejected => "Trust anchor was refused",
            LoadFailure::CertificateParse => "Server certificate source could not be decoded",
            LoadFailure::NoCertificates => "No certificates found",
            LoadFailure::NoPrivateKey => "No private key found",
            LoadFailure::PrivateKeyParse => "Private key source could not be decoded",
            LoadFailure::ClientVerifier => "Client verifier could not be built",
            LoadFailure::ServerIdentity => "Server certificate and key were refused",
        }
    }
}

/// Why no configuration was built, with the cause the outside crate gave
/// where there is one.
#[derive(Debug)]
pub enum LoadError {
    TrustAnchorParse(std::io::Error),
    TrustAnchorRejected(rustls::Error),
    CertificateParse(std::io::Error),
    NoCertificates,
    NoPrivateKey,
    PrivateKeyParse(std::io::Error),
    ClientVerifier(VerifierBuilderError),
    ServerIdentity(rustls::Error),
}

impl LoadError {
    /// The step that failed. This leaves the cause out: two errors of one
    /// step with different causes have the same failure.
    pub open spec fn failure(self) -> LoadFailure {
        match self {
            LoadError::TrustAnchorParse(_) => LoadFailure::TrustAnchorParse,
            LoadError::TrustAnchorRejected(_) => LoadFailure::TrustAnchorRejected,
            LoadError::CertificateParse(_) => LoadFailure::CertificateParse,
            LoadError::NoCertificates => LoadFailure::NoCertificates,
            LoadError::NoPrivateKey => LoadFailure::NoPrivateKey,
            LoadError::PrivateKeyParse(_) => LoadFailure::PrivateKeyParse,
            LoadError::ClientVerifier(_) => LoadFailure::ClientVerifier,
            LoadError::ServerIdentity(_) => LoadFailure::ServerIdentity,
        }
    }

    /// The step that failed, without the cause.
    pub fn kind(&self) -> (kind: LoadFailure)
        ensures
            kind == self.failure(),
    {
        match self {
            LoadError::TrustAnchorParse(_) => LoadFailure::TrustAnchorParse,
            LoadError::TrustAnchorRejected(_) => LoadFailure::TrustAnchorRejected,
            LoadError::CertificateParse(_) => LoadFailure::CertificateParse,
            LoadError::NoCertificates => LoadFailure::NoCertificates,
            LoadError::NoPrivateKey => LoadFailure::NoPrivateKey,
            LoadError::PrivateKeyParse(_) => LoadFailure::PrivateKeyParse,
            LoadError::ClientVerifier(_) => LoadFailure::ClientVerifier,
            LoadError::ServerIdentity(_) => LoadFailure::ServerIdentity,
        }
    }
}

/// The parts of a certificate that a root store keeps of it.
pub struct TrustAnchorFields {
    pub subject: Seq<u8>,
    pub subject_public_key_info: Seq<u8>,
    pub name_constraints: Option<Seq<u8>>,
}

/// What a configuration is built from.
#[derive(Debug)]
pub struct TlsMaterial {
    /// The trust anchors that a client's chain is verified against.
    pub roots: RootCertStore,
    /// The server's certificate chain as DER blobs, end-entity first.
    pub chain: Vec<Vec<u8>>,
    /// The server's private key, PKCS#8 in DER.
    pub key: Vec<u8>,
}

/// The certificate sections that `rustls_pemfile::certs` yields for `pem`,
/// in order: the DER content of each, or `None` for a section it reports
/// an error for.
pub uninterp spec fn pem_certificates(pem: Seq<u8>) -> Seq<Option<Seq<u8>>>;

/// The PKCS#8 key sections that `rustls_pemfile::pkcs8_private_keys` yields
/// for `pem`, in order: the DER content of each, or `None` for a section it
/// reports an error for.
pub uninterp spec fn pem_pkcs8_keys(pem: Seq<u8>) -> Seq<Option<Seq<u8>>>;

/// The trust anchor that `RootCertStore::add` takes from the certificate
/// `der`, or `None` where it refuses the certificate.
pub uninterp spec fn trust_anchor_of(der: Seq<u8>) -> Option<TrustAnchorFields>;

/// The trust anchors that a root store holds, oldest first.
pub uninterp spec fn trust_anchors(roots: RootCertStore) -> Seq<TrustAnchorFields>;

/// PEM sections as plain values: the content of a decoded section, `None`
/// for one that gave an error.
pub open spec fn sections(items: Seq<Result<Vec<u8>, std::io::Error>>) -> Seq<Option<Seq<u8>>> {
    items.map_values(
        |item: Result<Vec<u8>, std::io::Error>|
            match item {
                Ok(der) => Some(der@),
                Err(_) => None,
            },
    )
}

/// Runs `rustls_pemfile::certs` over `pem` to its end and collects what it
/// yields, each certificate as its DER bytes. The contract names the
/// outcome, and adds that an empty source yields nothing.
#[verifier::external_body]
fn read_pem_certificates(pem: &[u8]) -> (items: Vec<Result<Vec<u8>, std::io::Error>>)
    ensures
        sections(items@) == pem_certificates(pem@),
        pem@.len() == 0 ==> items@.len() == 0,
{
    let mut reader = BufReader::new(pem);
    rustls_pemfile::certs(&mut reader).map(|item| item.map(|der| der.as_ref().to_vec())).collect()
}

/// Runs `rustls_pemfile::pkcs8_private_keys` over `pem` to its end and
/// collects what it yields, each key as its DER bytes. The contract only
/// names the outcome.
#[verifier::external_body]
fn read_pem_pkcs8_keys(pem: &[u8]) -> (items: Vec<Result<Vec<u8>, std::io::Error>>)
    ensures
        sections(items@) == pem_pkcs8_keys(pem@),
{
    let mut reader = BufReader::new(pem);
    rustls_pemfile::pkcs8_private_keys(&mut reader).map(
        |item| item.map(|key| key.secret_pkcs8_der().to_vec()),
    ).collect()
}

/// `RootCertStore::empty` gives a store without trust anchors.
pub assume_specification[ RootCertStore::empty ]() -> (roots: RootCertStore)
    ensures
        trust_anchors(roots) == Seq::<TrustAnchorFields>::empty(),
;

/// Calls `RootCertStore::add` on the certificate `der`. The store takes a
/// trust anchor from the certificate and appends it; where it cannot, it
/// reports an error and stays as it was.
#[verifier::external_body]
fn add_trust_anchor(roots: &mut RootCertStore, der: Vec<u8>) -> (added: Result<(), rustls::Error>)
    ensures
        match trust_anchor_of(der@) {
            Some(anchor) => added is Ok && trust_anchors(*final(roots)) == trust_anchors(
                *old(roots),
            ).push(anchor),
            None => added is Err && trust_anchors(*final(roots)) == trust_anchors(*old(roots)),
        },
{
    roots.add(CertificateDer::from(der))
}

/// Builds a client verifier over `roots` that admits clients without a
/// certificate (`WebPkiClientVerifier::builder`, `allow_unauthenticated`,
/// `build`), then a server configuration with that verifier and the single
/// identity `chain` with the PKCS#8 key `key` (`ServerConfig::builder`,
/// `with_client_cert_verifier`, `with_single_cert`).
///
/// The verifier is refused exactly when `roots` holds no trust anchor; that
/// is the outer error, and it holds with every crypto provider. Both
/// builders take the process-wide provider: the one the process installed,
/// or else the one provider of `rustls` that this crate enables. Whether the
/// engine then accepts the identity depends on that provider, so nothing is
/// claimed of the inner result.
#[verifier::external_body]
fn optional_client_auth_config(roots: RootCertStore, chain: Vec<Vec<u8>>, key: Vec<u8>) -> (config:
    Result<Result<ServerConfig, rustls::Error>, VerifierBuilderError>)
    ensures
        config is Ok <==> trust_anchors(roots).len() > 0,
{
    let verifier = WebPkiClientVerifier::builder(Arc::new(roots)).allow_unauthenticated().build()?;
    let chain = chain.into_iter().map(CertificateDer::from).collect();
    let key = PrivateKeyDer::from(PrivatePkcs8KeyDer::from(key));
    Ok(ServerConfig::builder().with_client_cert_verifier(verifier).with_single_cert(chain, key))
}

/// The first failure of a sequence of steps, if any step failed.
pub open spec fn first_failure(steps: Seq<Option<LoadFailure>>) -> Option<LoadFailure>
    decreases steps.len(),
{
    if steps.len() == 0 {
        None
    } else if steps[0] is Some {
        steps[0]
    } else {
        first_failure(steps.skip(1))
    }
}

/// Position of the first step that failed, and the number of steps where
/// none failed.
pub open spec fn first_failed_step(steps: Seq<Option<LoadFailure>>) -> int
    decreases steps.len(),
{
    if steps.len() == 0 || steps[0] is Some {
        0
    } else {
        1 + first_failed_step(steps.skip(1))
    }
}

/// Why a section of the trust-anchor source cannot be used, if it cannot.
pub open spec fn anchor_failure(section: Option<Seq<u8>>) -> Option<LoadFailure> {
    match section {
        None => Some(LoadFailure::TrustAnchorParse),
        Some(der) => if trust_anchor_of(der) is None {
            Some(LoadFailure::TrustAnchorRejected)
        } else {
            None
        },
    }
}

/// Why no root store can be filled from the trust-anchor source, if none
/// can: the failure of its first unusable section.
pub open spec fn trust_source_failure(source: Seq<Option<Seq<u8>>>) -> Option<LoadFailure> {
    first_failure(source.map_values(|section: Option<Seq<u8>>| anchor_failure(section)))
}

/// Position of the first unusable section of the trust-anchor source.
pub open spec fn first_unusable_anchor(source: Seq<Option<Seq<u8>>>) -> int {
    first_failed_step(source.map_values(|section: Option<Seq<u8>>| anchor_failure(section)))
}

/// The trust anchors of a source whose sections are all usable.
pub open spec fn anchors_of(source: Seq<Option<Seq<u8>>>) -> Seq<TrustAnchorFields> {
    source.map_values(|section: Option<Seq<u8>>| trust_anchor_of(section.unwrap()).unwrap())
}

/// Why a section of the server-certificate source cannot be used, if it
/// cannot.
pub open spec fn certificate_failure(section: Option<Seq<u8>>) -> Option<LoadFailure> {
    if section is None {
        Some(LoadFailure::CertificateParse)
    } else {
        None
    }
}

/// Why the server-certificate source gives no chain, if it gives none: the
/// failure of its first undecodable section, or that it holds no
/// certificate.
pub open spec fn chain_failure(source: Seq<Option<Seq<u8>>>) -> Option<LoadFailure> {
    match first_failure(
        source.map_values(|section: Option<Seq<u8>>| certificate_failure(section)),
    ) {
        Some(failure) => Some(failure),
        None => if source.len() == 0 {
            Some(LoadFailure::NoCertificates)
        } else {
            None
        },
    }
}

/// Position of the first undecodable section of the server-certificate
/// source.
pub open spec fn first_undecoded_certificate(source: Seq<Option<Seq<u8>>>) -> int {
    first_failed_step(source.map_values(|section: Option<Seq<u8>>| certificate_failure(section)))
}

/// The contents of a source whose sections all decoded.
pub open spec fn contents(source: Seq<Option<Seq<u8>>>) -> Seq<Seq<u8>> {
    source.map_values(|section: Option<Seq<u8>>| section.unwrap())
}

/// Why the key source gives no key, if it gives none: it yields nothing, or
/// what it yields first is an error.
pub open spec fn key_failure(source: Seq<Option<Seq<u8>>>) -> Option<LoadFailure> {
    if source.len() == 0 {
        Some(LoadFailure::NoPrivateKey)
    } else if source[0] is None {
        Some(LoadFailure::PrivateKeyParse)
    } else {
        None
    }
}

/// Why the three sources give no material, if they give none. The sources
/// are judged in the order trust anchors, server certificates, key.
pub open spec fn material_failure(
    trust: Seq<Option<Seq<u8>>>,
    certificates: Seq<Option<Seq<u8>>>,
    keys: Seq<Option<Seq<u8>>>,
) -> Option<LoadFailure> {
    if trust_source_failure(trust) is Some {
        trust_source_failure(trust)
    } else if chain_failure(certificates) is Some {
        chain_failure(certificates)
    } else {
        key_failure(keys)
    }
}

/// Why the three sources give no configuration whatever the TLS engine
/// makes of the server's identity, if they give none: they give no
/// material, or the material holds no trust anchor for the client verifier.
pub open spec fn source_failure(
    trust: Seq<Option<Seq<u8>>>,
    certificates: Seq<Option<Seq<u8>>>,
    keys: Seq<Option<Seq<u8>>>,
) -> Option<LoadFailure> {
    if material_failure(trust, certificates, keys) is Some {
        material_failure(trust, certificates, keys)
    } else if trust.len() == 0 {
        Some(LoadFailure::ClientVerifier)
    } else {
        None
    }
}

/// A step that failed after steps that did not is the first failure.
pub proof fn lemma_first_failure_at(steps: Seq<Option<LoadFailure>>, i: int)
    requires
        0 <= i < steps.len(),
        steps[i] is Some,
        forall|j: int| 0 <= j < i ==> steps[j] is None,
    ensures
        first_failure(steps) == steps[i],
        first_failed_step(steps) == i,
    decreases i,
{
    if i > 0 {
        let rest = steps.skip(1);
        assert(rest[i - 1] == steps[i]);
        assert forall|j: int| 0 <= j < i - 1 implies rest[j] is None by {
            assert(rest[j] == steps[j + 1]);
        }
        lemma_first_failure_at(rest, i - 1);
    }
}

/// Where no step failed there is no first failure.
pub proof fn lemma_no_failure(steps: Seq<Option<LoadFailure>>)
    requires
        forall|j: int| 0 <= j < steps.len() ==> steps[j] is None,
    ensures
        first_failure(steps) is None,
    decreases steps.len(),
{
    if steps.len() > 0 {
        let rest = steps.skip(1);
        assert forall|j: int| 0 <= j < rest.len() implies rest[j] is None by {
            assert(rest[j] == steps[j + 1]);
        }
        lemma_no_failure(rest);
    }
}

/// A server-certificate source of which no section decoded gives no chain.
pub proof fn lemma_no_decoded_certificate(certificates: Seq<Option<Seq<u8>>>)
    requires
        forall|i: int| 0 <= i < certificates.len() ==> certificates[i] is None,
    ensures
        chain_failure(certificates) is Some,
{
    if certificates.len() > 0 {
        let steps = certificates.map_values(
            |section: Option<Seq<u8>>| certificate_failure(section),
        );
        assert(certificates[0] is None);
        lemma_first_failure_at(steps, 0);
    }
}

/// Where there is no first failure, no step failed.
pub proof fn lemma_all_steps_passed(steps: Seq<Option<LoadFailure>>)
    requires
        first_failure(steps) is None,
    ensures
        forall|j: int| 0 <= j < steps.len() ==> steps[j] is None,
    decreases steps.len(),
{
    if steps.len() > 0 {
        let rest = steps.skip(1);
        lemma_all_steps_passed(rest);
        assert forall|j: int| 0 <= j < steps.len() implies steps[j] is None by {
            if j > 0 {
                assert(rest[j - 1] == steps[j]);
            }
        }
    }
}

/// A configuration is built only from sound sources: a trust-anchor source
/// with at least one certificate, all of them decoded and accepted as trust
/// anchors; a server-certificate source with at least one certificate, all
/// of them decoded; and a key source that yields a key first.
pub proof fn lemma_sound_sources(
    trust: Seq<Option<Seq<u8>>>,
    certificates: Seq<Option<Seq<u8>>>,
    keys: Seq<Option<Seq<u8>>>,
)
    requires
        source_failure(trust, certificates, keys) is None,
    ensures
        trust.len() > 0,
        forall|i: int|
            0 <= i < trust.len() ==> (#[trigger] trust[i]) is Some && trust_anchor_of(
                trust[i].unwrap(),
            ) is Some,
        certificates.len() > 0,
        forall|i: int| 0 <= i < certificates.len() ==> (#[trigger] certificates[i]) is Some,
        keys.len() > 0,
        keys[0] is Some,
{
    let trust_steps = trust.map_values(|section: Option<Seq<u8>>| anchor_failure(section));
    let chain_steps = certificates.map_values(
        |section: Option<Seq<u8>>| certificate_failure(section),
    );
    lemma_all_steps_passed(trust_steps);
    lemma_all_steps_passed(chain_steps);
    assert forall|i: int| 0 <= i < trust.len() implies (#[trigger] trust[i]) is Some
        && trust_anchor_of(trust[i].unwrap()) is Some by {
        assert(trust_steps[i] is None);
    }
    assert forall|i: int| 0 <= i < certificates.len() implies (
    #[trigger] certificates[i]) is Some by {
        assert(chain_steps[i] is None);
    }
}

/// Fills a root store with the certificates of the trust-anchor source, in
/// order. The first section that did not decode, or whose certificate the
/// store refuses, ends the attempt.
pub fn trust_store(items: Vec<Result<Vec<u8>, std::io::Error>>) -> (store: Result<
    RootCertStore,
    LoadError,
>)
    ensures
        match trust_source_failure(sections(items@)) {
            Some(failure) => store matches Err(e) && e.failure() == failure,
            None => store matches Ok(roots) && trust_anchors(roots) == anchors_of(
                sections(items@),
            ),
        },
        store matches Err(LoadError::TrustAnchorParse(cause)) ==> items@[first_unusable_anchor(
            sections(items@),
        )] == Err::<Vec<u8>, std::io::Error>(cause),
{
    let ghost source = sections(items@);
    let ghost steps = source.map_values(|section: Option<Seq<u8>>| anchor_failure(section));
    let mut roots = RootCertStore::empty();
    for item in it: items
        invariant
            it.seq() == items@,
            source == sections(items@),
            steps == source.map_values(|section: Option<Seq<u8>>| anchor_failure(section)),
            forall|j: int| 0 <= j < it.index() ==> (#[trigger] steps[j]) is None,
            trust_anchors(roots) == anchors_of(source.take(it.index() as int)),
    {
        let ghost i = it.index() as int;
        assert(item == items@[i]);
        match item {
            Err(e) => {
                proof {
                    lemma_first_failure_at(steps, i);
                }
                return Err(LoadError::TrustAnchorParse(e));
            },
            Ok(der) => {
                assert(source[i] == Some(der@));
                match add_trust_anchor(&mut roots, der) {
                    Err(e) => {
                        proof {
                            lemma_first_failure_at(steps, i);
                        }
                        return Err(LoadError::TrustAnchorRejected(e));
                    },
                    Ok(_) => {
                        assert(steps[i] is None);
                        assert(anchors_of(source.take(i + 1)) =~= anchors_of(source.take(i)).push(
                            trust_anchor_of(der@).unwrap(),
                        ));
                    },
                }
            },
        }
    }
    proof {
        lemma_no_failure(steps);
        assert(source.take(source.len() as int) =~= source);
    }
    Ok(roots)
}

/// The server's certificate chain: the certificates of the source, in
/// order. A section that did not decode ends the attempt, and so does a
/// source without certificates.
pub fn server_chain(items: Vec<Result<Vec<u8>, std::io::Error>>) -> (chain: Result<
    Vec<Vec<u8>>,
    LoadError,
>)
    ensures
        match chain_failure(sections(items@)) {
            Some(failure) => chain matches Err(e) && e.failure() == failure,
            None => chain matches Ok(certificates) && certificates.deep_view() == contents(
                sections(items@),
            ),
        },
        chain matches Err(LoadError::CertificateParse(cause)) ==> items@[first_undecoded_certificate(
            sections(items@),
        )] == Err::<Vec<u8>, std::io::Error>(cause),
{
    let ghost source = sections(items@);
    let ghost steps = source.map_values(|section: Option<Seq<u8>>| certificate_failure(section));
    let mut chain: Vec<Vec<u8>> = Vec::new();
    for item in it: items
        invariant
            it.seq() == items@,
            source == sections(items@),
            steps == source.map_values(|section: Option<Seq<u8>>| certificate_failure(section)),
            forall|j: int| 0 <= j < it.index() ==> (#[trigger] steps[j]) is None,
            chain.len() == it.index(),
            forall|j: int| 0 <= j < it.index() ==> Some((#[trigger] chain[j])@) == source[j],
    {
        let ghost i = it.index() as int;
        assert(item == items@[i]);
        match item {
            Err(e) => {
                proof {
                    lemma_first_failure_at(steps, i);
                }
                return Err(LoadError::CertificateParse(e));
            },
            Ok(der) => {
                assert(source[i] == Some(der@));
                assert(steps[i] is None);
                chain.push(der);
            },
        }
    }
    proof {
        lemma_no_failure(steps);
    }
    if chain.len() == 0 {
        return Err(LoadError::NoCertificates);
    }
    assert(chain.deep_view() =~= contents(source)) by {
        assert forall|j: int| 0 <= j < chain.len() implies chain.deep_view()[j] == contents(
            source,
        )[j] by {
            assert(chain[j].deep_view() =~= chain[j]@);
        }
    }
    Ok(chain)
}

/// The server's private key: the first PKCS#8 key of the source. A source
/// that yields nothing, or an error before any key, gives none.
pub fn private_key(items: Vec<Result<Vec<u8>, std::io::Error>>) -> (key: Result<
    Vec<u8>,
    LoadError,
>)
    ensures
        match key_failure(sections(items@)) {
            Some(failure) => key matches Err(e) && e.failure() == failure,
            None => key matches Ok(der) && Some(der@) == sections(items@)[0],
        },
        key matches Err(LoadError::PrivateKeyParse(cause)) ==> items@[0] == Err::<
            Vec<u8>,
            std::io::Error,
        >(cause),
{
    let mut items = items;
    if items.len() == 0 {
        return Err(LoadError::NoPrivateKey);
    }
    match items.remove(0) {
        Ok(der) => Ok(der),
        Err(e) => Err(LoadError::PrivateKeyParse(e)),
    }
}

/// What becomes of the TLS engine's answer: its configuration, or the
/// failure of the step that refused.
pub fn finish_config(
    outcome: Result<Result<ServerConfig, rustls::Error>, VerifierBuilderError>,
) -> (config: Result<ServerConfig, LoadError>)
    ensures
        match outcome {
            Ok(Ok(built)) => config matches Ok(c) && c == built,
            Ok(Err(cause)) => config matches Err(LoadError::ServerIdentity(e)) && e == cause,
            Err(cause) => config matches Err(LoadError::ClientVerifier(e)) && e == cause,
        },
{
    match outcome {
        Ok(Ok(built)) => Ok(built),
        Ok(Err(cause)) => Err(LoadError::ServerIdentity(cause)),
        Err(cause) => Err(LoadError::ClientVerifier(cause)),
    }
}

/// Fills a root store with every certificate of the PEM text `ca_pem`, in
/// order. The first section that does not decode, or whose certificate the
/// store refuses, ends the attempt. An empty text gives an empty store.
pub fn load_trust_store(ca_pem: &[u8]) -> (store: Result<RootCertStore, LoadError>)
    ensures
        match trust_source_failure(pem_certificates(ca_pem@)) {
            Some(failure) => store matches Err(e) && e.failure() == failure,
            None => store matches Ok(roots) && trust_anchors(roots) == anchors_of(
                pem_certificates(ca_pem@),
            ),
        },
        ca_pem@.len() == 0 ==> pem_certificates(ca_pem@).len() == 0,
{
    trust_store(read_pem_certificates(ca_pem))
}

/// The server's certificate chain: every certificate of the PEM text
/// `cert_pem`, in order. A section that does not decode ends the attempt,
/// and so does a text without certificates.
pub fn load_server_chain(cert_pem: &[u8]) -> (chain: Result<Vec<Vec<u8>>, LoadError>)
    ensures
        match chain_failure(pem_certificates(cert_pem@)) {
            Some(failure) => chain matches Err(e) && e.failure() == failure,
            None => chain matches Ok(certificates) && certificates.deep_view() == contents(
                pem_certificates(cert_pem@),
            ),
        },
{
    server_chain(read_pem_certificates(cert_pem))
}

/// The server's private key: the first PKCS#8 key of the PEM text
/// `key_pem`. A text that yields no such key, or an error before one, gives
/// none.
pub fn load_private_key(key_pem: &[u8]) -> (key: Result<Vec<u8>, LoadError>)
    ensures
        match key_failure(pem_pkcs8_keys(key_pem@)) {
            Some(failure) => key matches Err(e) && e.failure() == failure,
            None => key matches Ok(der) && Some(der@) == pem_pkcs8_keys(key_pem@)[0],
        },
{
    private_key(read_pem_pkcs8_keys(key_pem))
}

/// Reads the material for a configuration off the PEM text of the server's
/// certificate chain, of its private key and of the trust anchors.
///
/// Every certificate of `ca_pem` becomes a trust anchor, in order; the chain
/// is every certificate of `cert_pem`, in order; the key is the first PKCS#8
/// key of `key_pem`. The sources are judged in that order, and a defective
/// one fails with the failure that [`material_failure`] names.
pub fn load_tls_material(cert_pem: &[u8], key_pem: &[u8], ca_pem: &[u8]) -> (material: Result<
    TlsMaterial,
    LoadError,
>)
    ensures
        match material_failure(
            pem_certificates(ca_pem@),
            pem_certificates(cert_pem@),
            pem_pkcs8_keys(key_pem@),
        ) {
            Some(failure) => material matches Err(e) && e.failure() == failure,
            None => {
                &&& material matches Ok(m)
                &&& trust_anchors(m.roots) == anchors_of(pem_certificates(ca_pem@))
                &&& m.chain.deep_view() == contents(pem_certificates(cert_pem@))
                &&& Some(m.key@) == pem_pkcs8_keys(key_pem@)[0]
            },
        },
        ca_pem@.len() == 0 ==> pem_certificates(ca_pem@).len() == 0,
{
    let roots = match load_trust_store(ca_pem) {
        Ok(roots) => roots,
        Err(e) => {
            return Err(e);
        },
    };
    let chain = match load_server_chain(cert_pem) {
        Ok(chain) => chain,
        Err(e) => {
            return Err(e);
        },
    };
    let key = match load_private_key(key_pem) {
        Ok(key) => key,
        Err(e) => {
            return Err(e);
        },
    };
    Ok(TlsMaterial { roots, chain, key })
}

/// Builds a configuration that presents the chain and key of `material`,
/// verifies a client's chain against its trust anchors when the client
/// presents one, and admits a client that presents none.
///
/// Without a trust anchor no client verifier can be built. With one, the
/// only failure left is that the TLS engine refuses the chain and key.
pub fn config_from_material(material: TlsMaterial) -> (config: Result<ServerConfig, LoadError>)
    ensures
        trust_anchors(material.roots).len() == 0 ==> (config matches Err(e) && e.failure()
            == LoadFailure::ClientVerifier),
        trust_anchors(material.roots).len() > 0 ==> (config matches Err(e) ==> e.failure()
            == LoadFailure::ServerIdentity),
{
    finish_config(optional_client_auth_config(material.roots, material.chain, material.key))
}

/// Builds the server's TLS configuration from the PEM text of its
/// certificate chain, of its private key and of the trust anchors.
///
/// The configuration is built from the material that [`load_tls_material`]
/// reads off the three sources. A defective source fails with the failure
/// that [`source_failure`] names, whatever the other sources hold. Sources
/// without such a defect either give a configuration or fail because the
/// TLS engine refuses the server's chain and key.
///
/// In particular an empty trust-anchor source fails, and so does a
/// server-certificate source of which no section decodes.
pub fn build_tls_config(cert_pem: &[u8], key_pem: &[u8], ca_pem: &[u8]) -> (config: Result<
    ServerConfig,
    LoadError,
>)
    ensures
        match source_failure(
            pem_certificates(ca_pem@),
            pem_certificates(cert_pem@),
            pem_pkcs8_keys(key_pem@),
        ) {
            Some(failure) => config matches Err(e) && e.failure() == failure,
            None => config matches Err(e) ==> e.failure() == LoadFailure::ServerIdentity,
        },
        ca_pem@.len() == 0 ==> config is Err,
        (forall|i: int|
            0 <= i < pem_certificates(cert_pem@).len() ==> pem_certificates(cert_pem@)[i] is None)
            ==> config is Err,
{
    let ghost trust = pem_certificates(ca_pem@);
    let ghost certificates = pem_certificates(cert_pem@);
    proof {
        if forall|i: int| 0 <= i < certificates.len() ==> certificates[i] is None {
            lemma_no_decoded_certificate(certificates);
        }
    }
    match load_tls_material(cert_pem, key_pem, ca_pem) {
        Ok(material) => {
            assert(anchors_of(trust).len() == trust.len());
            config_from_material(material)
        },
        Err(e) => Err(e),
    }
}

} // verus!
