//! The status object the endpoint reports, and the records it is made of.

use vstd::prelude::*;
use vstd::std_specs::cmp::PartialEqSpecImpl;

verus! {

/// Identity information read off one client certificate.
#[derive(Debug, Clone)]
pub struct CertificateInfo {
    /// Common name of the subject, when the certificate has one that is text.
    pub subject_cn: Option<String>,
    /// Common name of the issuer, when the certificate has one that is text.
    pub issuer_cn: Option<String>,
    /// Start of the validity period, rendered as text.
    pub not_before: String,
    /// End of the validity period, rendered as text.
    pub not_after: String,
    /// Whether the basic-constraints extension marks the certificate as a CA.
    pub is_ca: bool,
}

/// The mathematical value of a [`CertificateInfo`].
pub struct CertificateRecord {
    pub subject_common_name: Option<Seq<char>>,
    pub issuer_common_name: Option<Seq<char>>,
    pub not_before: Seq<char>,
    pub not_after: Seq<char>,
    pub is_certificate_authority: bool,
}

impl DeepView for CertificateInfo {
    type V = CertificateRecord;

    open spec fn deep_view(&self) -> CertificateRecord {
        CertificateRecord {
            subject_common_name: self.subject_cn.deep_view(),
            issuer_common_name: self.issuer_cn.deep_view(),
            not_before: self.not_before@,
            not_after: self.not_after@,
            is_certificate_authority: self.is_ca,
        }
    }
}

impl View for CertificateInfo {
    type V = CertificateRecord;

    open spec fn view(&self) -> CertificateRecord {
        self.deep_view()
    }
}

/// What the status route answers for one connection.
#[derive(Debug)]
pub struct MtlsResponse {
    /// Whether the connection carries at least one decoded client certificate.
    pub mtls_valid: bool,
    /// Every decoded certificate, in the order the client presented them.
    pub presented_certificates: Vec<CertificateInfo>,
    /// The decoded certificates as one chain, or nothing when there are none.
    pub verified_chains: Vec<Vec<CertificateInfo>>,
}

/// The mathematical value of an [`MtlsResponse`].
pub struct MtlsStatus {
    pub mtls_valid: bool,
    pub presented_certificates: Seq<CertificateRecord>,
    pub verified_chains: Seq<Seq<CertificateRecord>>,
}

impl MtlsStatus {
    /// The status that reports no client certificate at all.
    pub open spec fn absent() -> MtlsStatus {
        MtlsStatus {
            mtls_valid: false,
            presented_certificates: Seq::empty(),
            verified_chains: Seq::empty(),
        }
    }

    /// The status that reports `records` as the decoded certificates of a
    /// connection: valid exactly when there is a record, and then with all of
    /// them as the single chain.
    pub open spec fn of_records(records: Seq<CertificateRecord>) -> MtlsStatus {
        if records.len() == 0 {
            MtlsStatus::absent()
        } else {
            MtlsStatus {
                mtls_valid: true,
                presented_certificates: records,
                verified_chains: seq![records],
            }
        }
    }

    /// The flag and the chains agree with the presented certificates.
    pub open spec fn consistent(self) -> bool {
        self == MtlsStatus::of_records(self.presented_certificates)
    }
}

impl DeepView for MtlsResponse {
    type V = MtlsStatus;

    open spec fn deep_view(&self) -> MtlsStatus {
        MtlsStatus {
            mtls_valid: self.mtls_valid,
            presented_certificates: self.presented_certificates.deep_view(),
            verified_chains: self.verified_chains.deep_view(),
        }
    }
}

impl View for MtlsResponse {
    type V = MtlsStatus;

    open spec fn view(&self) -> MtlsStatus {
        self.deep_view()
    }
}

impl PartialEq for CertificateInfo {
    /// Two records are equal when all their fields are.
    fn eq(&self, other: &Self) -> (equal: bool) {
        same_text(&self.subject_cn, &other.subject_cn) && same_text(
            &self.issuer_cn,
            &other.issuer_cn,
        ) && self.not_before == other.not_before && self.not_after == other.not_after && self.is_ca
            == other.is_ca
    }
}

impl PartialEqSpecImpl for CertificateInfo {
    open spec fn obeys_eq_spec() -> bool {
        true
    }

    open spec fn eq_spec(&self, other: &Self) -> bool {
        self@ == other@
    }
}

fn same_text(left: &Option<String>, right: &Option<String>) -> (same: bool)
    ensures
        same == (left.deep_view() == right.deep_view()),
{
    match (left, right) {
        (Some(a), Some(b)) => *a == *b,
        (None, None) => true,
        _ => false,
    }
}

impl CertificateInfo {
    /// A copy with the same value.
    pub fn duplicate(&self) -> (copy: Self)
        ensures
            copy@ == self@,
    {
        CertificateInfo {
            subject_cn: duplicate_text(&self.subject_cn),
            issuer_cn: duplicate_text(&self.issuer_cn),
            not_before: self.not_before.clone(),
            not_after: self.not_after.clone(),
            is_ca: self.is_ca,
        }
    }
}

fn duplicate_text(text: &Option<String>) -> (copy: Option<String>)
    ensures
        copy.deep_view() == text.deep_view(),
{
    match text {
        Some(s) => Some(s.clone()),
        None => None,
    }
}

/// Copies a sequence of records, keeping order and values.
pub fn duplicate_records(records: &Vec<CertificateInfo>) -> (copy: Vec<CertificateInfo>)
    ensures
        copy.deep_view() == records.deep_view(),
{
    let mut copy: Vec<CertificateInfo> = Vec::new();
    let mut i: usize = 0;
    while i < records.len()
        invariant
            i <= records.len(),
            copy.len() == i,
            forall|k: int| 0 <= k < i ==> copy[k]@ == records[k]@,
        decreases records.len() - i,
    {
        copy.push(records[i].duplicate());
        i += 1;
    }
    assert(copy.deep_view() =~= records.deep_view());
    copy
}

impl MtlsResponse {
    /// A response without certificates. Such a response is never valid,
    /// whatever flag is asked for: the flag of a response is set only where
    /// it presents a certificate.
    pub fn new(mtls_valid: bool) -> (response: Self)
        ensures
            response@ == MtlsStatus::absent(),
            response@.consistent(),
    {
        let response = MtlsResponse {
            mtls_valid: false,
            presented_certificates: Vec::new(),
            verified_chains: Vec::new(),
        };
        assert(response.presented_certificates.deep_view() =~= Seq::empty());
        assert(response.verified_chains.deep_view() =~= Seq::empty());
        response
    }

    /// The response that reports `certificates` as the decoded certificates of
    /// a connection.
    pub fn from_certificates(certificates: Vec<CertificateInfo>) -> (response: Self)
        ensures
            response@ == MtlsStatus::of_records(certificates.deep_view()),
            response@.consistent(),
    {
        if certificates.len() == 0 {
            assert(certificates.deep_view() =~= Seq::empty());
            MtlsResponse::new(false)
        } else {
            let presented = duplicate_records(&certificates);
            let mut chains: Vec<Vec<CertificateInfo>> = Vec::new();
            chains.push(certificates);
            assert(chains.deep_view() =~= seq![certificates.deep_view()]);
            MtlsResponse { mtls_valid: true, presented_certificates: presented, verified_chains: chains }
        }
    }
}

} // verus!
