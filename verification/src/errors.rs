use vstd::prelude::*;

verus! {

/// Every way an operation of the core can fail. Each failure aborts the
/// whole operation with no partial effect; none is retried by the core.
///
/// - Validation: a user-supplied field exceeds its maximum length.
/// - Authorization: the caller is not an admin, or not the primary admin
///   for a registry mutation.
/// - State conflict: a precondition against current registry or certificate
///   state does not hold.
/// - Funds: the payer cannot cover the issuance fee.
#[derive(Clone, Copy, PartialEq, Eq, Structural, Debug)]
pub enum ProofError {
    /// The caller is not permitted to perform this operation.
    Unauthorized,
    /// The registry already holds its maximum number of admins.
    MaxAdminsReached,
    /// The identity to add is already an admin.
    AlreadyAdmin,
    /// The identity to remove is not an admin.
    AdminNotFound,
    /// The primary admin can never be removed.
    CannotRemovePrimaryAdmin,
    /// The proof id exceeds its maximum length.
    IdTooLong,
    /// The title exceeds its maximum length.
    TitleTooLong,
    /// The uri exceeds its maximum length.
    UriTooLong,
    /// The work description exceeds its maximum length.
    DescriptionTooLong,
    /// The proof type exceeds its maximum length.
    ProofTypeTooLong,
    /// The rejection reason exceeds its maximum length.
    ReasonTooLong,
    /// The certificate is no longer pending: transitions are one-shot.
    ProofAlreadyProcessed,
    /// The payer cannot cover the issuance fee.
    InsufficientFunds,
}

} // verus!
