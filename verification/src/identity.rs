use vstd::prelude::*;

verus! {

/// An opaque principal: the account that created the registry, an admin, a
/// certificate owner, or the caller of a privileged operation. Equality is
/// the only operation the core ever needs on it.
#[derive(Clone, Copy, PartialEq, Eq, Structural, Debug, Hash)]
pub struct Identity {
    pub key: u64,
}

} // verus!
