use vstd::prelude::*;

use crate::account::Account;
use crate::account::transfer;
use crate::certificate::Certificate;
use crate::certificate::CertificateView;
use crate::certificate::ProofStatus;
use crate::certificate::MAX_DESCRIPTION_LEN;
use crate::certificate::MAX_PROOF_ID_LEN;
use crate::certificate::MAX_PROOF_TYPE_LEN;
use crate::certificate::MAX_REASON_LEN;
use crate::certificate::MAX_TITLE_LEN;
use crate::certificate::MAX_URI_LEN;
use crate::errors::ProofError;
use crate::identity::Identity;
use crate::registry::AdminRegistry;
use crate::registry::RegistryView;

verus! {

/// The fixed issuance fee, in the native value unit, charged for every
/// minted certificate and paid to the primary admin.
pub const MINT_FEE: u64 = 10_000_000;

/// The first failure a mint attempt runs into, if any: each content field is
/// validated against its maximum length, in the order the fields are given,
/// before the payer's balance is held against the issuance fee.
pub open spec fn mint_error(
    proof_id: Seq<char>,
    title: Seq<char>,
    uri: Seq<char>,
    work_description: Seq<char>,
    proof_type: Seq<char>,
    payer_balance: u64,
) -> Option<ProofError> {
    if proof_id.len() > MAX_PROOF_ID_LEN {
        Some(ProofError::IdTooLong)
    } else if title.len() > MAX_TITLE_LEN {
        Some(ProofError::TitleTooLong)
    } else if uri.len() > MAX_URI_LEN {
        Some(ProofError::UriTooLong)
    } else if work_description.len() > MAX_DESCRIPTION_LEN {
        Some(ProofError::DescriptionTooLong)
    } else if proof_type.len() > MAX_PROOF_TYPE_LEN {
        Some(ProofError::ProofTypeTooLong)
    } else if payer_balance < MINT_FEE {
        Some(ProofError::InsufficientFunds)
    } else {
        None
    }
}

/// The certificate a successful mint creates: the given fields, a `Pending`
/// status, the creation timestamp, and no judgement data yet.
pub open spec fn fresh_certificate(
    owner: Identity,
    mint: Identity,
    proof_id: Seq<char>,
    title: Seq<char>,
    uri: Seq<char>,
    work_description: Seq<char>,
    proof_type: Seq<char>,
    now: u64,
) -> CertificateView {
    CertificateView {
        mint: mint,
        owner: owner,
        proof_id: proof_id,
        title: title,
        uri: uri,
        work_description: work_description,
        proof_type: proof_type,
        status: ProofStatus::Pending,
        submission_date: now,
        verification_date: 0,
        verified_by: None,
        rejection_reason: Seq::empty(),
    }
}

/// The certificate after a verification attempt, together with its outcome.
///
/// The caller must be an admin and the certificate still pending; then the
/// certificate becomes `Verified`, records the judging admin and the timestamp,
/// and keeps every other field. Every failure leaves it unchanged.
pub open spec fn spec_verify_proof(
    registry: RegistryView,
    c: CertificateView,
    caller: Identity,
    now: u64,
) -> (CertificateView, Result<(), ProofError>) {
    if !registry.is_member(caller) {
        (c, Err(ProofError::Unauthorized))
    } else if !(c.status is Pending) {
        (c, Err(ProofError::ProofAlreadyProcessed))
    } else {
        (
            CertificateView {
                status: ProofStatus::Verified,
                verification_date: now,
                verified_by: Some(caller),
                ..c
            },
            Ok(()),
        )
    }
}

/// The certificate after a rejection attempt, together with its outcome.
///
/// The caller must be an admin, the reason within its length bound, and the
/// certificate still pending; then the certificate becomes `Rejected`,
/// records the judging admin, the timestamp and the reason, and keeps every other
/// field. Every failure leaves it unchanged.
pub open spec fn spec_reject_proof(
    registry: RegistryView,
    c: CertificateView,
    caller: Identity,
    reason: Seq<char>,
    now: u64,
) -> (CertificateView, Result<(), ProofError>) {
    if !registry.is_member(caller) {
        (c, Err(ProofError::Unauthorized))
    } else if reason.len() > MAX_REASON_LEN {
        (c, Err(ProofError::ReasonTooLong))
    } else if !(c.status is Pending) {
        (c, Err(ProofError::ProofAlreadyProcessed))
    } else {
        (
            CertificateView {
                status: ProofStatus::Rejected,
                verification_date: now,
                verified_by: Some(caller),
                rejection_reason: reason,
                ..c
            },
            Ok(()),
        )
    }
}

/// Creates a certificate and charges the fixed issuance fee in one atomic
/// step: either every content field passes its length check and the fee
/// moves from `payer` to `fee_recipient` — the primary admin's holding — and
/// the pending certificate is returned, or the attempt fails with the first
/// error among the validation checks and the funds check, and no balance
/// moves and no certificate exists.
///
/// That at most one certificate exists per `(owner, mint)` pair, and that the
/// certificate's token artifact is issued and permanently frozen, are owed by
/// the storage and token collaborators around this core.
pub fn mint_proof(
    registry: &AdminRegistry,
    payer: &mut Account,
    fee_recipient: &mut Account,
    owner: Identity,
    mint: Identity,
    proof_id: String,
    title: String,
    uri: String,
    work_description: String,
    proof_type: String,
    now: u64,
) -> (r: Result<Certificate, ProofError>)
    requires
        registry@.well_formed(),
        old(fee_recipient).id == registry@.primary_admin,
        old(fee_recipient).balance + MINT_FEE <= u64::MAX,
    ensures
        ({
            let e = mint_error(
                proof_id@,
                title@,
                uri@,
                work_description@,
                proof_type@,
                old(payer).balance,
            );
            match e {
                Some(err) => r == Err::<Certificate, ProofError>(err) && *final(payer) == *old(
                    payer,
                ) && *final(fee_recipient) == *old(fee_recipient),
                None => r matches Ok(c) && c@ == fresh_certificate(
                    owner,
                    mint,
                    proof_id@,
                    title@,
                    uri@,
                    work_description@,
                    proof_type@,
                    now,
                ) && *final(payer) == (Account {
                    id: old(payer).id,
                    balance: (old(payer).balance - MINT_FEE) as u64,
                }) && *final(fee_recipient) == (Account {
                    id: old(fee_recipient).id,
                    balance: (old(fee_recipient).balance + MINT_FEE) as u64,
                }),
            }
        }),
        r matches Ok(c) ==> c@.well_formed(),
{
    if proof_id.as_str().unicode_len() > MAX_PROOF_ID_LEN {
        return Err(ProofError::IdTooLong);
    }
    if title.as_str().unicode_len() > MAX_TITLE_LEN {
        return Err(ProofError::TitleTooLong);
    }
    if uri.as_str().unicode_len() > MAX_URI_LEN {
        return Err(ProofError::UriTooLong);
    }
    if work_description.as_str().unicode_len() > MAX_DESCRIPTION_LEN {
        return Err(ProofError::DescriptionTooLong);
    }
    if proof_type.as_str().unicode_len() > MAX_PROOF_TYPE_LEN {
        return Err(ProofError::ProofTypeTooLong);
    }
    match transfer(payer, fee_recipient, MINT_FEE) {
        Err(e) => Err(e),
        Ok(()) => Ok(
            Certificate {
                mint,
                owner,
                proof_id,
                title,
                uri,
                work_description,
                proof_type,
                status: ProofStatus::Pending,
                submission_date: now,
                verification_date: 0,
                verified_by: None,
                rejection_reason: String::new(),
            },
        ),
    }
}

/// Marks a pending certificate as accepted.
///
/// Fails with `Unauthorized` unless `caller` is an admin, and with
/// `ProofAlreadyProcessed` when the certificate is no longer pending —
/// transitions are strictly one-shot; every failure leaves the certificate
/// unchanged. On success the certificate is `Verified` and records the
/// judging admin and the timestamp.
pub fn verify_proof(
    registry: &AdminRegistry,
    certificate: &mut Certificate,
    caller: Identity,
    now: u64,
) -> (r: Result<(), ProofError>)
    requires
        old(certificate)@.well_formed(),
    ensures
        final(certificate)@ == spec_verify_proof(registry@, old(certificate)@, caller, now).0,
        r == spec_verify_proof(registry@, old(certificate)@, caller, now).1,
        final(certificate)@.well_formed(),
        r is Err ==> *final(certificate) == *old(certificate),
{
    if !registry.is_admin(caller) {
        return Err(ProofError::Unauthorized);
    }
    if certificate.status != ProofStatus::Pending {
        return Err(ProofError::ProofAlreadyProcessed);
    }
    certificate.status = ProofStatus::Verified;
    certificate.verification_date = now;
    certificate.verified_by = Some(caller);
    Ok(())
}

/// Marks a pending certificate as declined, with a reason.
///
/// Fails with `Unauthorized` unless `caller` is an admin, with
/// `ReasonTooLong` when the reason exceeds its length bound, and with
/// `ProofAlreadyProcessed` when the certificate is no longer pending —
/// transitions are strictly one-shot; every failure leaves the certificate
/// unchanged. On success the certificate is `Rejected` and records the
/// judging admin, the timestamp and the reason.
pub fn reject_proof(
    registry: &AdminRegistry,
    certificate: &mut Certificate,
    caller: Identity,
    reason: String,
    now: u64,
) -> (r: Result<(), ProofError>)
    requires
        old(certificate)@.well_formed(),
    ensures
        final(certificate)@ == spec_reject_proof(
            registry@,
            old(certificate)@,
            caller,
            reason@,
            now,
        ).0,
        r == spec_reject_proof(registry@, old(certificate)@, caller, reason@, now).1,
        final(certificate)@.well_formed(),
        r is Err ==> *final(certificate) == *old(certificate),
{
    if !registry.is_admin(caller) {
        return Err(ProofError::Unauthorized);
    }
    if reason.as_str().unicode_len() > MAX_REASON_LEN {
        return Err(ProofError::ReasonTooLong);
    }
    if certificate.status != ProofStatus::Pending {
        return Err(ProofError::ProofAlreadyProcessed);
    }
    certificate.status = ProofStatus::Rejected;
    certificate.verification_date = now;
    certificate.verified_by = Some(caller);
    certificate.rejection_reason = reason;
    Ok(())
}

/// Law: a successful verification is final. The winning call records the
/// judging admin and the timestamp, and afterwards every further verification or
/// rejection attempt — under any registry, caller, reason and time — fails
/// and changes nothing; an admin's attempt fails precisely with
/// `ProofAlreadyProcessed`.
pub proof fn lemma_verify_is_one_shot(
    registry: RegistryView,
    c: CertificateView,
    winner: Identity,
    first_now: u64,
    later_registry: RegistryView,
    caller: Identity,
    reason: Seq<char>,
    now: u64,
)
    requires
        spec_verify_proof(registry, c, winner, first_now).1 is Ok,
    ensures
        ({
            let c1 = spec_verify_proof(registry, c, winner, first_now).0;
            &&& c1.status is Verified
            &&& c1.verified_by == Some(winner)
            &&& c1.verification_date == first_now
            &&& spec_verify_proof(later_registry, c1, caller, now).0 == c1
            &&& spec_verify_proof(later_registry, c1, caller, now).1 is Err
            &&& spec_reject_proof(later_registry, c1, caller, reason, now).0 == c1
            &&& spec_reject_proof(later_registry, c1, caller, reason, now).1 is Err
            &&& (later_registry.is_member(caller) ==> spec_verify_proof(
                later_registry,
                c1,
                caller,
                now,
            ).1 == Err::<(), ProofError>(ProofError::ProofAlreadyProcessed))
            &&& (later_registry.is_member(caller) && reason.len() <= MAX_REASON_LEN
                ==> spec_reject_proof(later_registry, c1, caller, reason, now).1 == Err::<
                (),
                ProofError,
            >(ProofError::ProofAlreadyProcessed))
        }),
{
}

/// Law: a successful rejection is final. The winning call records the
/// judging admin, the timestamp and the reason, and afterwards every further
/// verification or rejection attempt — under any registry, caller, reason
/// and time — fails and changes nothing; an admin's attempt fails precisely
/// with `ProofAlreadyProcessed`.
pub proof fn lemma_reject_is_one_shot(
    registry: RegistryView,
    c: CertificateView,
    winner: Identity,
    first_reason: Seq<char>,
    first_now: u64,
    later_registry: RegistryView,
    caller: Identity,
    reason: Seq<char>,
    now: u64,
)
    requires
        spec_reject_proof(registry, c, winner, first_reason, first_now).1 is Ok,
    ensures
        ({
            let c1 = spec_reject_proof(registry, c, winner, first_reason, first_now).0;
            &&& c1.status is Rejected
            &&& c1.verified_by == Some(winner)
            &&& c1.verification_date == first_now
            &&& c1.rejection_reason == first_reason
            &&& spec_verify_proof(later_registry, c1, caller, now).0 == c1
            &&& spec_verify_proof(later_registry, c1, caller, now).1 is Err
            &&& spec_reject_proof(later_registry, c1, caller, reason, now).0 == c1
            &&& spec_reject_proof(later_registry, c1, caller, reason, now).1 is Err
            &&& (later_registry.is_member(caller) ==> spec_verify_proof(
                later_registry,
                c1,
                caller,
                now,
            ).1 == Err::<(), ProofError>(ProofError::ProofAlreadyProcessed))
            &&& (later_registry.is_member(caller) && reason.len() <= MAX_REASON_LEN
                ==> spec_reject_proof(later_registry, c1, caller, reason, now).1 == Err::<
                (),
                ProofError,
            >(ProofError::ProofAlreadyProcessed))
        }),
{
}

} // verus!
