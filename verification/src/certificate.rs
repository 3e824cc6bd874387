use vstd::prelude::*;

use crate::identity::Identity;

verus! {

/// Maximum length, in characters, of a certificate's proof id.
pub const MAX_PROOF_ID_LEN: usize = 32;

/// Maximum length, in characters, of a certificate's title.
pub const MAX_TITLE_LEN: usize = 64;

/// Maximum length, in characters, of a certificate's descriptive-record uri.
pub const MAX_URI_LEN: usize = 200;

/// Maximum length, in characters, of a certificate's work description.
pub const MAX_DESCRIPTION_LEN: usize = 500;

/// Maximum length, in characters, of a certificate's proof type.
pub const MAX_PROOF_TYPE_LEN: usize = 32;

/// Maximum length, in characters, of a rejection reason.
pub const MAX_REASON_LEN: usize = 200;

/// A certificate's judgement status. It starts at `Pending` and moves at most
/// once, to one of the two terminal states; no transition is ever reversed.
#[derive(Clone, Copy, PartialEq, Eq, Structural, Debug)]
pub enum ProofStatus {
    /// Created, not yet judged.
    Pending,
    /// Accepted by an admin; terminal.
    Verified,
    /// Declined by an admin, with a recorded reason; terminal.
    Rejected,
}

/// The persisted record of a claimed work attribution and its judgement status.
///
/// `mint` identifies the certificate's token artifact; together with `owner`
/// it keys the record: that at most one record exists per `(owner, mint)`
/// pair is owed by the storage that holds certificates. The record is
/// readable by anyone but mutable only through the role-gated transitions in
/// [`crate::workflow`].
pub struct Certificate {
    /// Unique identifier of the certificate's token artifact.
    pub mint: Identity,
    /// The claimed author or recipient of the work.
    pub owner: Identity,
    /// Caller-chosen identifier of the attested work.
    pub proof_id: String,
    /// Title of the attested work.
    pub title: String,
    /// Locator of the descriptive record of the certificate.
    pub uri: String,
    /// Free-form description of the attested work.
    pub work_description: String,
    /// Caller-chosen category of the attested work.
    pub proof_type: String,
    /// Current judgement status.
    pub status: ProofStatus,
    /// Timestamp taken at creation.
    pub submission_date: u64,
    /// Timestamp taken at the terminal transition; zero while pending.
    pub verification_date: u64,
    /// The admin who transitioned the certificate; none while pending.
    pub verified_by: Option<Identity>,
    /// Why the certificate was rejected; empty unless rejected.
    pub rejection_reason: String,
}

/// The mathematical model of a certificate: its fields, with every string as
/// a sequence of characters.
#[verifier::ext_equal]
pub struct CertificateView {
    pub mint: Identity,
    pub owner: Identity,
    pub proof_id: Seq<char>,
    pub title: Seq<char>,
    pub uri: Seq<char>,
    pub work_description: Seq<char>,
    pub proof_type: Seq<char>,
    pub status: ProofStatus,
    pub submission_date: u64,
    pub verification_date: u64,
    pub verified_by: Option<Identity>,
    pub rejection_reason: Seq<char>,
}

impl View for Certificate {
    type V = CertificateView;

    open spec fn view(&self) -> CertificateView {
        CertificateView {
            mint: self.mint,
            owner: self.owner,
            proof_id: self.proof_id@,
            title: self.title@,
            uri: self.uri@,
            work_description: self.work_description@,
            proof_type: self.proof_type@,
            status: self.status,
            submission_date: self.submission_date,
            verification_date: self.verification_date,
            verified_by: self.verified_by,
            rejection_reason: self.rejection_reason@,
        }
    }
}

impl CertificateView {
    /// The certificate invariant: every content field is within its length
    /// bound, an admin is recorded exactly on the terminal states, the
    /// terminal timestamp is unset while pending, and a rejection reason is
    /// carried only by a rejected certificate.
    pub open spec fn well_formed(self) -> bool {
        &&& self.proof_id.len() <= MAX_PROOF_ID_LEN
        &&& self.title.len() <= MAX_TITLE_LEN
        &&& self.uri.len() <= MAX_URI_LEN
        &&& self.work_description.len() <= MAX_DESCRIPTION_LEN
        &&& self.proof_type.len() <= MAX_PROOF_TYPE_LEN
        &&& self.rejection_reason.len() <= MAX_REASON_LEN
        &&& (self.status is Pending <==> self.verified_by is None)
        &&& (self.status is Pending ==> self.verification_date == 0)
        &&& (!(self.status is Rejected) ==> self.rejection_reason.len() == 0)
    }
}

} // verus!
