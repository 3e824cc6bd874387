//! Core of a work-attribution certificate service.
//!
//! The library has two halves, with the registry as a dependency of the
//! certificate workflow:
//!
//! - [`registry::AdminRegistry`]: the bounded set of principals allowed to
//!   judge certificates, with one distinguished primary admin that alone may
//!   add or remove admins.
//! - [`workflow`]: creation of certificates (with a fixed issuance fee) and
//!   their one-shot, role-gated transitions from `Pending` to a terminal
//!   `Verified` or `Rejected` state.
//!
//! Persistence, payment rails and token issuance are collaborators of this
//! core, not part of it: every operation here is a pure step on plain values,
//! and its whole effect is stated in its contract.

pub mod account;
pub mod certificate;
pub mod errors;
pub mod identity;
pub mod registry;
pub mod workflow;
