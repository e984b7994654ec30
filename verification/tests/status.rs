use permissive_mtls::capture::{on_connect_handler, Connection, ConnectionData};
use permissive_mtls::response::duplicate_records;
use permissive_mtls::{certs_response, CertificateInfo, MtlsResponse, PeerCertificates};

const CA: &str = "\
    308201493081f1a003020102021453afe4fa262cec581a676a867fcd8f7fc6ab160d300a06082a8648ce3d0403023012\
    3110300e06035504030c07746573742d63613020170d3230303130313030303030305a180f3231323030363135313233\
    3034355a30123110300e06035504030c07746573742d63613059301306072a8648ce3d020106082a8648ce3d03010703\
    42000452907fe4d771d550d418ae7a783086d4a355dc88f769a15847576b535becb317ffff8259539cf75af7d6ab1010\
    b1c4faababd1c14d29ee8a2dfeb23df9719972a3233021300f0603551d130101ff040530030101ff300e0603551d0f01\
    01ff040403020186300a06082a8648ce3d040302034700304402205b784b85ea62441b4052b0a08e7036023ce7c3c22a\
    e81cbf96c06476331f46400220742a97383c5c89611b29ecdf18c2ff452fe0e0671a21446b375771879f171501";

const CLIENT: &str = "\
    3082015d30820103a003020102021429efb42319d8c111c480ba8649ae4ed348e8a9d5300a06082a8648ce3d04030230\
    123110300e06035504030c07746573742d63613020170d3230303130313030303030305a180f32313230303631353132\
    333034355a30123110300e06035504030c07636c69656e74313059301306072a8648ce3d020106082a8648ce3d030107\
    0342000403cae0f629e66c3db8c74aed918804a15c23c42e7f669ace776661de3123deef5290fae770709ee3654a432b\
    bd8c7009ed2738f4569a98ca8d262740ad7529a1a3353033300e0603551d0f0101ff040403020780300c0603551d1301\
    01ff0402300030130603551d25040c300a06082b06010505070302300a06082a8648ce3d0403020348003045022100f1\
    25765e414185b9f160741c52fe68c1112ea75093a0167a3c127651762658eb0220341ab48b545b84d12f39c483ddb58b\
    736328d5141d3518fa6ec649241badab57";


fn der(hex: &str) -> Vec<u8> {
    let digits: Vec<u8> = hex.bytes().map(|b| (b as char).to_digit(16).unwrap() as u8).collect();
    digits.chunks(2).map(|pair| pair[0] * 16 + pair[1]).collect()
}

fn client_record() -> CertificateInfo {
    CertificateInfo {
        subject_cn: Some("client1".to_string()),
        issuer_cn: Some("test-ca".to_string()),
        not_before: "Jan  1 00:00:00 2020 +00:00".to_string(),
        not_after: "Jun 15 12:30:45 2120 +00:00".to_string(),
        is_ca: false,
    }
}

fn ca_record() -> CertificateInfo {
    CertificateInfo {
        subject_cn: Some("test-ca".to_string()),
        issuer_cn: Some("test-ca".to_string()),
        not_before: "Jan  1 00:00:00 2020 +00:00".to_string(),
        not_after: "Jun 15 12:30:45 2120 +00:00".to_string(),
        is_ca: true,
    }
}

fn assert_absent(response: &MtlsResponse) {
    assert!(!response.mtls_valid);
    assert!(response.presented_certificates.is_empty());
    assert!(response.verified_chains.is_empty());
}

#[test]
fn new_response_is_absent_whatever_the_flag() {
    assert_absent(&MtlsResponse::new(false));
    assert_absent(&MtlsResponse::new(true));
}

#[test]
fn no_stored_chain_gives_the_absent_status() {
    assert_absent(&certs_response(None));
}

#[test]
fn connection_without_client_certificate_gives_the_absent_status() {
    let mut data = ConnectionData::new();
    on_connect_handler(&Connection::Tls { peer_certificates: None }, &mut data);
    assert_absent(&certs_response(data.peer_certificates()));
}

#[test]
fn one_valid_certificate_gives_one_record_and_one_chain() {
    let mut data = ConnectionData::new();
    on_connect_handler(&Connection::Tls { peer_certificates: Some(vec![der(CLIENT)]) }, &mut data);
    let response = certs_response(data.peer_certificates());
    assert!(response.mtls_valid);
    assert_eq!(response.presented_certificates.len(), 1);
    assert_eq!(response.verified_chains.len(), 1);
    assert_eq!(response.verified_chains[0], response.presented_certificates);
    assert_eq!(response.presented_certificates, vec![client_record()]);
}

#[test]
fn a_chain_is_reported_whole_and_once() {
    let stored = PeerCertificates(vec![der(CLIENT), der(CA)]);
    let response = certs_response(Some(&stored));
    assert!(response.mtls_valid);
    assert_eq!(response.presented_certificates, vec![client_record(), ca_record()]);
    assert_eq!(response.verified_chains, vec![vec![client_record(), ca_record()]]);
}

#[test]
fn stored_chain_that_does_not_decode_gives_the_absent_status() {
    let stored = PeerCertificates(vec![vec![1u8, 2, 3], Vec::new()]);
    assert_absent(&certs_response(Some(&stored)));
    assert_absent(&certs_response(Some(&PeerCertificates(Vec::new()))));
}

#[test]
fn undecodable_certificates_are_left_out_of_the_status() {
    let stored = PeerCertificates(vec![vec![0x30u8, 0x00], der(CA), vec![0xffu8; 40]]);
    let response = certs_response(Some(&stored));
    assert!(response.mtls_valid);
    assert_eq!(response.presented_certificates, vec![ca_record()]);
    assert_eq!(response.verified_chains, vec![vec![ca_record()]]);
}

#[test]
fn from_certificates_reports_what_it_is_given() {
    assert_absent(&MtlsResponse::from_certificates(Vec::new()));
    let response = MtlsResponse::from_certificates(vec![ca_record(), client_record()]);
    assert!(response.mtls_valid);
    assert_eq!(response.presented_certificates, vec![ca_record(), client_record()]);
    assert_eq!(response.verified_chains, vec![vec![ca_record(), client_record()]]);
}

#[test]
fn duplicate_records_keeps_values_and_order() {
    assert!(duplicate_records(&Vec::new()).is_empty());
    let records = vec![client_record(), ca_record(), client_record()];
    assert_eq!(duplicate_records(&records), records);
}
