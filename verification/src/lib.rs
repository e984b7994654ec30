//! The core of a permissive mutual-TLS endpoint: it accepts client
//! certificates without requiring them and reports what a client presented.

pub mod capture;
pub mod decode;
pub mod response;
pub mod server;
pub mod status;
pub mod tls_config;

pub use capture::{on_connect_handler, PeerCertificates};
pub use decode::parse_certificates;
pub use response::{CertificateInfo, MtlsResponse};
pub use server::MtlsServer;
pub use status::certs_response;
pub use tls_config::{build_tls_config, LoadError, LoadFailure, TlsMaterial};
