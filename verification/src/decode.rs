//! Decoding of DER-encoded certificates into identity records.
//!
//! The X.509 structure itself is parsed by `x509-parser`; what is decided
//! here is which of the parsed fields make up a record, and which
//! certificates of a chain contribute one.

use crate::response::{CertificateInfo, CertificateRecord};
use vstd::prelude::*;
use vstd::string::StringExecFns;
use x509_parser::extensions::BasicConstraints;
use x509_parser::prelude::{FromDer, X509Certificate};

verus! {

/// Dotted form of the object identifier of the basic-constraints extension.
pub const BASIC_CONSTRAINTS_OID: &'static str = "2.5.29.19";

/// One extension of a certificate: its identifier in dotted form and its
/// undecoded content.
pub struct ExtensionField {
    pub oid: String,
    pub value: Vec<u8>,
}

/// The mathematical value of an [`ExtensionField`].
pub struct ExtensionFieldView {
    pub oid: Seq<char>,
    pub value: Seq<u8>,
}

impl DeepView for ExtensionField {
    type V = ExtensionFieldView;

    open spec fn deep_view(&self) -> ExtensionFieldView {
        ExtensionFieldView { oid: self.oid@, value: self.value@ }
    }
}

/// What the decoder reads off one structurally sound certificate.
pub struct CertificateFields {
    /// The common-name attributes of the subject, in order; an attribute
    /// whose value is not text stands as `None`.
    pub subject_common_names: Vec<Option<String>>,
    /// The common-name attributes of the issuer, likewise.
    pub issuer_common_names: Vec<Option<String>>,
    /// Start of the validity period, rendered as text.
    pub not_before: String,
    /// End of the validity period, rendered as text.
    pub not_after: String,
    /// The extensions, in the order the certificate lists them.
    pub extensions: Vec<ExtensionField>,
}

/// The mathematical value of a [`CertificateFields`].
pub struct CertificateFieldsView {
    pub subject_common_names: Seq<Option<Seq<char>>>,
    pub issuer_common_names: Seq<Option<Seq<char>>>,
    pub not_before: Seq<char>,
    pub not_after: Seq<char>,
    pub extensions: Seq<ExtensionFieldView>,
}

impl DeepView for CertificateFields {
    type V = CertificateFieldsView;

    open spec fn deep_view(&self) -> CertificateFieldsView {
        CertificateFieldsView {
            subject_common_names: self.subject_common_names.deep_view(),
            issuer_common_names: self.issuer_common_names.deep_view(),
            not_before: self.not_before@,
            not_after: self.not_after@,
            extensions: self.extensions.deep_view(),
        }
    }
}

/// The fields that `x509-parser` reads off the certificate encoded at the
/// start of `der`, or `None` where it finds no sound certificate there.
pub uninterp spec fn x509_fields(der: Seq<u8>) -> Option<CertificateFieldsView>;

/// The CA flag that `x509-parser` reads off `value` taken as the content of a
/// basic-constraints extension, or `None` where it cannot parse it as one.
pub uninterp spec fn basic_constraints_ca(value: Seq<u8>) -> Option<bool>;

/// Parses `der` with `X509Certificate::from_der` and copies out the fields
/// the decoder uses: the text of each common-name attribute of subject and
/// issuer (`AttributeTypeAndValue::as_str`), both validity bounds as
/// `ASN1Time` prints them, and each extension's identifier in dotted form
/// with its raw content. Bytes after the certificate are ignored. The
/// contract only names the outcome.
#[verifier::external_body]
fn read_certificate_fields(der: &[u8]) -> (fields: Option<CertificateFields>)
    ensures
        fields.deep_view() == x509_fields(der@),
{
    let (_, cert) = X509Certificate::from_der(der).ok()?;
    let text = |cn: &x509_parser::x509::AttributeTypeAndValue| cn.as_str().ok().map(String::from);
    Some(CertificateFields {
        subject_common_names: cert.subject().iter_common_name().map(text).collect(),
        issuer_common_names: cert.issuer().iter_common_name().map(text).collect(),
        not_before: cert.validity().not_before.to_string(),
        not_after: cert.validity().not_after.to_string(),
        extensions: cert.extensions().iter().map(|e| ExtensionField {
            oid: e.oid.to_string(),
            value: e.value.to_vec(),
        }).collect(),
    })
}

/// Parses `value` with `BasicConstraints::from_der` and hands back the `ca`
/// field of the result. The contract only names the outcome.
#[verifier::external_body]
fn read_basic_constraints_ca(value: &[u8]) -> (ca: Option<bool>)
    ensures
        ca == basic_constraints_ca(value@),
{
    BasicConstraints::from_der(value).ok().map(|(_, constraints)| constraints.ca)
}

/// Whether `oid` identifies the basic-constraints extension.
pub open spec fn is_basic_constraints(oid: Seq<char>) -> bool {
    oid == BASIC_CONSTRAINTS_OID@
}

/// `i` is the position of the first basic-constraints extension.
pub open spec fn is_first_basic_constraints(extensions: Seq<ExtensionFieldView>, i: int) -> bool {
    &&& 0 <= i < extensions.len()
    &&& is_basic_constraints(extensions[i].oid)
    &&& forall|j: int| 0 <= j < i ==> !is_basic_constraints(#[trigger] extensions[j].oid)
}

/// The CA flag of a certificate with these extensions: set exactly when the
/// first basic-constraints extension parses and marks a CA.
pub open spec fn certificate_authority(extensions: Seq<ExtensionFieldView>) -> bool {
    exists|i: int|
        is_first_basic_constraints(extensions, i) && basic_constraints_ca(
            #[trigger] extensions[i].value,
        ) == Some(true)
}

/// The first of the common names, when it is text.
pub open spec fn first_common_name(names: Seq<Option<Seq<char>>>) -> Option<Seq<char>> {
    if names.len() == 0 {
        None
    } else {
        names[0]
    }
}

/// The record that a certificate with these fields decodes to.
pub open spec fn record_of(fields: CertificateFieldsView) -> CertificateRecord {
    CertificateRecord {
        subject_common_name: first_common_name(fields.subject_common_names),
        issuer_common_name: first_common_name(fields.issuer_common_names),
        not_before: fields.not_before,
        not_after: fields.not_after,
        is_certificate_authority: certificate_authority(fields.extensions),
    }
}

/// The record that `der` decodes to, or `None` where it holds no sound
/// certificate.
pub open spec fn decoded(der: Seq<u8>) -> Option<CertificateRecord> {
    match x509_fields(der) {
        Some(fields) => Some(record_of(fields)),
        None => None,
    }
}

/// The records of a chain: one for each certificate that decodes, in the
/// order of the chain.
pub open spec fn decoded_chain(chain: Seq<Seq<u8>>) -> Seq<CertificateRecord> {
    chain.filter_map(|der: Seq<u8>| decoded(der))
}

/// Number of certificates of a chain that do not decode.
pub open spec fn malformed_count(chain: Seq<Seq<u8>>) -> nat {
    chain.filter(|der: Seq<u8>| decoded(der) is None).len()
}

/// Number of records that the certificates before position `i` give.
pub open spec fn records_before(chain: Seq<Seq<u8>>, i: int) -> int {
    decoded_chain(chain.take(i)).len() as int
}

/// A chain of N certificates of which M do not decode gives exactly N - M
/// records.
pub proof fn lemma_decoded_chain_len(chain: Seq<Seq<u8>>)
    ensures
        decoded_chain(chain).len() == chain.len() - malformed_count(chain),
    decreases chain.len(),
{
    let malformed = |der: Seq<u8>| decoded(der) is None;
    reveal(Seq::filter);
    if chain.len() > 0 {
        lemma_decoded_chain_len(chain.drop_last());
        assert(chain.drop_last().filter(malformed).len() == malformed_count(chain.drop_last()));
    }
}

/// The records of a prefix of a chain are a prefix of the records of the
/// chain.
pub proof fn lemma_decoded_prefix(chain: Seq<Seq<u8>>, i: int)
    requires
        0 <= i <= chain.len(),
    ensures
        decoded_chain(chain.take(i)).is_prefix_of(decoded_chain(chain)),
    decreases chain.len() - i,
{
    if i == chain.len() {
        assert(chain.take(i) =~= chain);
    } else {
        chain.lemma_filter_map_take_succ(|der: Seq<u8>| decoded(der), i);
        lemma_decoded_prefix(chain, i + 1);
    }
}

/// The record of a certificate that decodes stands in the output at the
/// position that counts the records of the certificates before it.
pub proof fn lemma_decoded_chain_position(chain: Seq<Seq<u8>>, i: int)
    requires
        0 <= i < chain.len(),
        decoded(chain[i]) is Some,
    ensures
        0 <= records_before(chain, i) < decoded_chain(chain).len(),
        decoded_chain(chain)[records_before(chain, i)] == decoded(chain[i]).unwrap(),
{
    chain.lemma_filter_map_take_succ(|der: Seq<u8>| decoded(der), i);
    lemma_decoded_prefix(chain, i + 1);
    let upto = decoded_chain(chain.take(i + 1));
    assert(upto[records_before(chain, i)] == decoded(chain[i]).unwrap());
}

/// Decoding keeps the relative order of the certificates that decode: of
/// two of them, the record of the earlier one comes first.
pub proof fn lemma_decoded_chain_order(chain: Seq<Seq<u8>>, i: int, j: int)
    requires
        0 <= i < j < chain.len(),
        decoded(chain[i]) is Some,
        decoded(chain[j]) is Some,
    ensures
        0 <= records_before(chain, i) < records_before(chain, j) < decoded_chain(chain).len(),
        decoded_chain(chain)[records_before(chain, i)] == decoded(chain[i]).unwrap(),
        decoded_chain(chain)[records_before(chain, j)] == decoded(chain[j]).unwrap(),
{
    lemma_decoded_chain_position(chain, i);
    lemma_decoded_chain_position(chain, j);
    chain.lemma_filter_map_take_succ(|der: Seq<u8>| decoded(der), i);
    let upto = chain.take(j);
    assert(upto.take(i + 1) =~= chain.take(i + 1));
    lemma_decoded_prefix(upto, i + 1);
}

/// Every record of the output is the record of a certificate of the chain
/// that decodes, found at the position that counts the records before it.
pub proof fn lemma_decoded_chain_origin(chain: Seq<Seq<u8>>, k: int) -> (i: int)
    requires
        0 <= k < decoded_chain(chain).len(),
    ensures
        0 <= i < chain.len(),
        decoded(chain[i]) == Some(decoded_chain(chain)[k]),
        records_before(chain, i) == k,
    decreases chain.len(),
{
    let decode = |der: Seq<u8>| decoded(der);
    let rest = chain.drop_last();
    let last = chain.len() - 1;
    assert(chain.take(last) =~= rest);
    if decoded(chain.last()) is Some && k == decoded_chain(rest).len() {
        last
    } else {
        let i = lemma_decoded_chain_origin(rest, k);
        assert(rest.take(i) =~= chain.take(i));
        i
    }
}

/// Decoding is a function of the bytes: two decodings of the same chain
/// give the same records.
pub proof fn lemma_decoding_is_repeatable(
    chain: Seq<Seq<u8>>,
    first: Vec<CertificateInfo>,
    second: Vec<CertificateInfo>,
)
    requires
        first.deep_view() == decoded_chain(chain),
        second.deep_view() == decoded_chain(chain),
    ensures
        first.deep_view() == second.deep_view(),
{
}

/// A certificate without a basic-constraints extension is not a CA.
pub proof fn lemma_no_basic_constraints(extensions: Seq<ExtensionFieldView>)
    requires
        forall|j: int| 0 <= j < extensions.len() ==> !is_basic_constraints(extensions[j].oid),
    ensures
        !certificate_authority(extensions),
{
}

/// The CA flag of a certificate is the flag of its first basic-constraints
/// extension: set where that extension marks a CA, clear where it marks
/// none or does not parse.
pub proof fn lemma_first_basic_constraints_decides(extensions: Seq<ExtensionFieldView>, i: int)
    requires
        is_first_basic_constraints(extensions, i),
    ensures
        certificate_authority(extensions) == (basic_constraints_ca(extensions[i].value) == Some(
            true,
        )),
{
    if certificate_authority(extensions) {
        let k = choose|k: int|
            is_first_basic_constraints(extensions, k) && basic_constraints_ca(
                #[trigger] extensions[k].value,
            ) == Some(true);
        assert(k == i);
    }
}

/// Position of the first basic-constraints extension, if there is one.
pub fn find_basic_constraints(extensions: &Vec<ExtensionField>) -> (found: Option<usize>)
    ensures
        match found {
            Some(i) => is_first_basic_constraints(extensions.deep_view(), i as int),
            None => forall|j: int|
                0 <= j < extensions.len() ==> !is_basic_constraints(
                    #[trigger] extensions.deep_view()[j].oid,
                ),
        },
{
    let wanted = String::from_str(BASIC_CONSTRAINTS_OID);
    let mut i: usize = 0;
    while i < extensions.len()
        invariant
            i <= extensions.len(),
            wanted@ == BASIC_CONSTRAINTS_OID@,
            forall|j: int|
                0 <= j < i ==> !is_basic_constraints(#[trigger] extensions.deep_view()[j].oid),
        decreases extensions.len() - i,
    {
        if extensions[i].oid == wanted {
            return Some(i);
        }
        i += 1;
    }
    None
}

/// Whether the extensions mark the certificate as a CA. A certificate
/// without the basic-constraints extension, or with one that does not parse,
/// is not a CA.
pub fn is_certificate_authority(extensions: &Vec<ExtensionField>) -> (ca: bool)
    ensures
        ca == certificate_authority(extensions.deep_view()),
{
    match find_basic_constraints(extensions) {
        Some(i) => {
            let parsed = read_basic_constraints_ca(extensions[i].value.as_slice());
            let ca = authority_flag(parsed);
            proof {
                let views = extensions.deep_view();
                assert(views[i as int].value == extensions[i as int].value@);
                lemma_first_basic_constraints_decides(views, i as int);
            }
            ca
        },
        None => false,
    }
}

/// The CA flag that a parsed basic-constraints extension gives: its own
/// flag, and `false` where the extension did not parse.
pub fn authority_flag(parsed: Option<bool>) -> (ca: bool)
    ensures
        ca == (parsed == Some(true)),
{
    match parsed {
        Some(flag) => flag,
        None => false,
    }
}

/// The first of the common names, when it is text.
pub fn select_common_name(names: &Vec<Option<String>>) -> (name: Option<String>)
    ensures
        name.deep_view() == first_common_name(names.deep_view()),
{
    if names.len() == 0 {
        None
    } else {
        match &names[0] {
            Some(text) => Some(text.clone()),
            None => None,
        }
    }
}

/// The record that a certificate with these fields decodes to.
pub fn certificate_info(fields: &CertificateFields) -> (info: CertificateInfo)
    ensures
        info@ == record_of(fields.deep_view()),
{
    CertificateInfo {
        subject_cn: select_common_name(&fields.subject_common_names),
        issuer_cn: select_common_name(&fields.issuer_common_names),
        not_before: fields.not_before.clone(),
        not_after: fields.not_after.clone(),
        is_ca: is_certificate_authority(&fields.extensions),
    }
}

/// Decodes one certificate. Input that holds no sound certificate gives
/// `None`; a missing or unreadable name or extension only leaves its own
/// field at its default.
pub fn decode_certificate(der: &[u8]) -> (info: Option<CertificateInfo>)
    ensures
        info.deep_view() == decoded(der@),
{
    match read_certificate_fields(der) {
        Some(fields) => Some(certificate_info(&fields)),
        None => None,
    }
}

/// Decodes a chain of certificates, leaf first. Certificates that do not
/// decode are left out; the others keep their order.
pub fn parse_certificates(der_chain: &[Vec<u8>]) -> (records: Vec<CertificateInfo>)
    ensures
        records.deep_view() == decoded_chain(der_chain.deep_view()),
{
    let ghost chain = der_chain.deep_view();
    let ghost decode = |der: Seq<u8>| decoded(der);
    let mut records: Vec<CertificateInfo> = Vec::new();
    let mut i: usize = 0;
    assert(chain.take(0).filter_map(decode) =~= Seq::empty());
    assert(records.deep_view() =~= Seq::empty());
    while i < der_chain.len()
        invariant
            i <= der_chain.len(),
            chain == der_chain.deep_view(),
            chain.len() == der_chain.len(),
            decode == |der: Seq<u8>| decoded(der),
            records.deep_view() == chain.take(i as int).filter_map(decode),
        decreases der_chain.len() - i,
    {
        let ghost before = records.deep_view();
        let der = der_chain[i].as_slice();
        assert(der@ =~= chain[i as int]);
        proof {
            chain.lemma_filter_map_take_succ(decode, i as int);
        }
        match decode_certificate(der) {
            Some(info) => {
                records.push(info);
                assert(records.deep_view() =~= before + seq![info@]);
            },
            None => {},
        }
        i += 1;
    }
    assert(chain.take(i as int) =~= chain);
    records
}

} // verus!
