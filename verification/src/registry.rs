use vstd::prelude::*;

use crate::errors::ProofError;
use crate::identity::Identity;

verus! {

/// Maximum number of admins the registry can hold, the primary admin included.
pub const MAX_ADMINS: usize = 10;

/// The bounded set of principals permitted to judge certificates.
///
/// One distinguished principal, the primary admin, is fixed at
/// initialization and alone may add or remove admins; it can never be
/// removed itself, so the registry is never left without an authority.
/// Members are kept in insertion order in a capacity-bounded collection;
/// removal shifts later entries left, preserving the relative order of the
/// remainder.
pub struct AdminRegistry {
    primary_admin: Identity,
    admins: Vec<Identity>,
}

/// The mathematical model of a registry: the primary admin and the ordered
/// sequence of current members.
#[verifier::ext_equal]
pub struct RegistryView {
    pub primary_admin: Identity,
    pub admins: Seq<Identity>,
}

impl View for AdminRegistry {
    type V = RegistryView;

    closed spec fn view(&self) -> RegistryView {
        RegistryView { primary_admin: self.primary_admin, admins: self.admins@ }
    }
}

impl RegistryView {
    /// The registry invariant: it is never empty and never over capacity,
    /// the primary admin is its first member, and no identity appears twice.
    pub open spec fn well_formed(self) -> bool {
        &&& 0 < self.admins.len() <= MAX_ADMINS
        &&& self.admins[0] == self.primary_admin
        &&& self.admins.no_duplicates()
    }

    /// Membership: whether `identity` is currently an admin.
    pub open spec fn is_member(self, identity: Identity) -> bool {
        self.admins.contains(identity)
    }

    /// The registry after an addition attempt, together with its outcome.
    ///
    /// Only the primary admin may add; the capacity bound and the no-duplicate
    /// rule are checked in that order; a successful addition appends the new
    /// identity after the existing members. Every failure leaves the registry
    /// unchanged.
    pub open spec fn add_admin_result(self, caller: Identity, new_admin: Identity) -> (
        RegistryView,
        Result<(), ProofError>,
    ) {
        if caller != self.primary_admin {
            (self, Err(ProofError::Unauthorized))
        } else if self.admins.len() >= MAX_ADMINS {
            (self, Err(ProofError::MaxAdminsReached))
        } else if self.admins.contains(new_admin) {
            (self, Err(ProofError::AlreadyAdmin))
        } else {
            (
                RegistryView { primary_admin: self.primary_admin, admins: self.admins.push(new_admin) },
                Ok(()),
            )
        }
    }

    /// The registry after a removal attempt, together with its outcome.
    ///
    /// Only the primary admin may remove; the primary admin itself can never
    /// be removed; the target must be a member. A successful removal deletes
    /// the target's entry and shifts the later entries one position left.
    /// Every failure leaves the registry unchanged.
    pub open spec fn remove_admin_result(self, caller: Identity, target: Identity) -> (
        RegistryView,
        Result<(), ProofError>,
    ) {
        if caller != self.primary_admin {
            (self, Err(ProofError::Unauthorized))
        } else if target == self.primary_admin {
            (self, Err(ProofError::CannotRemovePrimaryAdmin))
        } else if !self.admins.contains(target) {
            (self, Err(ProofError::AdminNotFound))
        } else {
            (
                RegistryView {
                    primary_admin: self.primary_admin,
                    admins: self.admins.remove(self.admins.index_of(target)),
                },
                Ok(()),
            )
        }
    }
}

impl AdminRegistry {
    /// Creates the singleton registry with `primary_admin` as its only
    /// member.
    ///
    /// This is the one operation without an authorization check: it
    /// establishes authorization. That a deployment initializes at most one
    /// registry is a precondition owed by the storage that holds the
    /// singleton, not checked here.
    pub fn initialize(primary_admin: Identity) -> (r: AdminRegistry)
        ensures
            r@.well_formed(),
            r@.primary_admin == primary_admin,
            r@.admins == seq![primary_admin],
    {
        let mut admins: Vec<Identity> = Vec::new();
        admins.push(primary_admin);
        proof {
            assert(admins@ =~= seq![primary_admin]);
        }
        AdminRegistry { primary_admin, admins }
    }

    /// The primary admin named at initialization; immutable afterwards.
    pub fn primary_admin(&self) -> (r: Identity)
        ensures
            r == self@.primary_admin,
    {
        self.primary_admin
    }

    /// The current number of admins.
    pub fn admin_count(&self) -> (n: usize)
        ensures
            n == self@.admins.len(),
    {
        self.admins.len()
    }

    /// The admin at position `index`, in insertion order.
    pub fn admin_at(&self, index: usize) -> (r: Identity)
        requires
            index < self@.admins.len(),
        ensures
            r == self@.admins[index as int],
    {
        self.admins[index]
    }

    /// Pure membership query: whether `identity` may judge certificates.
    #[verifier::loop_isolation(false)]
    pub fn is_admin(&self, identity: Identity) -> (r: bool)
        ensures
            r == self@.is_member(identity),
    {
        let n = self.admins.len();
        let mut i: usize = 0;
        while i < n
            invariant
                i <= n,
                forall|j: int| 0 <= j < i ==> self.admins@[j] != identity,
            decreases n - i,
        {
            if self.admins[i] == identity {
                return true;
            }
            i += 1;
        }
        false
    }

    /// Appends `new_admin` to the registry.
    ///
    /// Fails with `Unauthorized` unless `caller` is the primary admin, with
    /// `MaxAdminsReached` when the registry is full, and with `AlreadyAdmin`
    /// when `new_admin` is already a member; every failure leaves the
    /// registry unchanged. On success the member count grows by exactly one
    /// and `new_admin` becomes a member.
    pub fn add_admin(&mut self, caller: Identity, new_admin: Identity) -> (r: Result<
        (),
        ProofError,
    >)
        requires
            old(self)@.well_formed(),
        ensures
            final(self)@ == old(self)@.add_admin_result(caller, new_admin).0,
            r == old(self)@.add_admin_result(caller, new_admin).1,
            final(self)@.well_formed(),
            r is Ok ==> final(self)@.admins.len() == old(self)@.admins.len() + 1
                && final(self)@.is_member(new_admin),
            r is Err ==> final(self)@ == old(self)@,
    {
        proof {
            lemma_add_admin_well_formed(old(self)@, caller, new_admin);
        }
        if caller != self.primary_admin {
            return Err(ProofError::Unauthorized);
        }
        if self.admins.len() >= MAX_ADMINS {
            return Err(ProofError::MaxAdminsReached);
        }
        if self.is_admin(new_admin) {
            return Err(ProofError::AlreadyAdmin);
        }
        self.admins.push(new_admin);
        proof {
            assert(self@.is_member(new_admin)) by {
                assert(self.admins@[old(self)@.admins.len() as int] == new_admin);
            }
        }
        Ok(())
    }

    /// Removes `target` from the registry.
    ///
    /// Fails with `Unauthorized` unless `caller` is the primary admin, with
    /// `CannotRemovePrimaryAdmin` when `target` is the primary admin — the
    /// primary can never be removed — and with `AdminNotFound` when `target`
    /// is not a member; every failure leaves the registry unchanged. On
    /// success the target's entry is removed and the relative order of the
    /// remaining members is preserved.
    #[verifier::loop_isolation(false)]
    pub fn remove_admin(&mut self, caller: Identity, target: Identity) -> (r: Result<
        (),
        ProofError,
    >)
        requires
            old(self)@.well_formed(),
        ensures
            final(self)@ == old(self)@.remove_admin_result(caller, target).0,
            r == old(self)@.remove_admin_result(caller, target).1,
            final(self)@.well_formed(),
            target == old(self)@.primary_admin ==> r is Err && final(self)@ == old(self)@,
            r is Ok ==> final(self)@.admins.len() + 1 == old(self)@.admins.len(),
            r is Err ==> final(self)@ == old(self)@,
    {
        proof {
            lemma_remove_admin_well_formed(old(self)@, caller, target);
        }
        if caller != self.primary_admin {
            return Err(ProofError::Unauthorized);
        }
        if target == self.primary_admin {
            return Err(ProofError::CannotRemovePrimaryAdmin);
        }
        let n = self.admins.len();
        let mut i: usize = 0;
        while i < n
            invariant
                i <= n,
                *self == *old(self),
                forall|j: int| 0 <= j < i ==> self.admins@[j] != target,
            decreases n - i,
        {
            if self.admins[i] == target {
                proof {
                    let s = old(self)@.admins;
                    assert(s.contains(target)) by {
                        assert(s[i as int] == target);
                    }
                    let j = s.index_of(target);
                    assert(0 <= j < s.len() && s[j] == target);
                    assert(j == i as int);
                }
                self.admins.remove(i);
                return Ok(());
            }
            i += 1;
        }
        Err(ProofError::AdminNotFound)
    }
}

/// Law: a well-formed registry always has its primary admin as a member.
pub proof fn lemma_primary_admin_is_member(v: RegistryView)
    requires
        v.well_formed(),
    ensures
        v.is_member(v.primary_admin),
{
    assert(v.admins[0] == v.primary_admin);
}

/// Law: an addition attempt preserves the registry invariant, never changes
/// the primary admin, and keeps the primary admin a member.
pub proof fn lemma_add_admin_well_formed(v: RegistryView, caller: Identity, new_admin: Identity)
    requires
        v.well_formed(),
    ensures
        v.add_admin_result(caller, new_admin).0.well_formed(),
        v.add_admin_result(caller, new_admin).0.primary_admin == v.primary_admin,
        v.add_admin_result(caller, new_admin).0.is_member(v.primary_admin),
{
    lemma_primary_admin_is_member(v);
    if caller == v.primary_admin && v.admins.len() < MAX_ADMINS && !v.admins.contains(new_admin) {
        let s = v.admins;
        let s2 = s.push(new_admin);
        assert(s2[0] == s[0]);
        assert forall|k: int, l: int|
            0 <= k < s2.len() && 0 <= l < s2.len() && k != l implies s2[k] != s2[l] by {
            if k < s.len() && l < s.len() {
                assert(s2[k] == s[k] && s2[l] == s[l]);
            } else if k < s.len() {
                assert(s2[l] == new_admin && s2[k] == s[k]);
                assert(s[k] != new_admin) by {
                    if s[k] == new_admin {
                        assert(s.contains(new_admin));
                    }
                }
            } else {
                assert(s2[k] == new_admin && s2[l] == s[l]);
                assert(s[l] != new_admin) by {
                    if s[l] == new_admin {
                        assert(s.contains(new_admin));
                    }
                }
            }
        }
        assert(s2.contains(v.primary_admin)) by {
            assert(s2[0] == v.primary_admin);
        }
    }
}

/// Law: a removal attempt preserves the registry invariant, never changes
/// the primary admin, and keeps the primary admin a member.
pub proof fn lemma_remove_admin_well_formed(v: RegistryView, caller: Identity, target: Identity)
    requires
        v.well_formed(),
    ensures
        v.remove_admin_result(caller, target).0.well_formed(),
        v.remove_admin_result(caller, target).0.primary_admin == v.primary_admin,
        v.remove_admin_result(caller, target).0.is_member(v.primary_admin),
{
    lemma_primary_admin_is_member(v);
    if caller == v.primary_admin && target != v.primary_admin && v.admins.contains(target) {
        let s = v.admins;
        let i = s.index_of(target);
        assert(0 <= i < s.len() && s[i] == target);
        assert(i != 0);
        let s2 = s.remove(i);
        s.remove_ensures(i);
        assert(s2[0] == s[0]);
        assert forall|k: int, l: int|
            0 <= k < s2.len() && 0 <= l < s2.len() && k != l implies s2[k] != s2[l] by {
            let k0 = if k < i {
                k
            } else {
                k + 1
            };
            let l0 = if l < i {
                l
            } else {
                l + 1
            };
            assert(s2[k] == s[k0]);
            assert(s2[l] == s[l0]);
        }
        assert(s2.contains(v.primary_admin)) by {
            assert(s2[0] == v.primary_admin);
        }
    }
}

/// Law: a valid addition grows the member count by exactly one and makes the
/// new identity a member; an addition to a full registry always fails with
/// `MaxAdminsReached`; and every failed addition leaves the registry
/// unchanged.
pub proof fn lemma_add_admin_grows_by_one(v: RegistryView, caller: Identity, new_admin: Identity)
    requires
        v.well_formed(),
    ensures
        v.add_admin_result(caller, new_admin).1 is Ok ==> v.add_admin_result(
            caller,
            new_admin,
        ).0.admins.len() == v.admins.len() + 1 && v.add_admin_result(
            caller,
            new_admin,
        ).0.is_member(new_admin),
        caller == v.primary_admin && v.admins.len() >= MAX_ADMINS ==> v.add_admin_result(
            caller,
            new_admin,
        ).1 == Err::<(), ProofError>(ProofError::MaxAdminsReached),
        v.add_admin_result(caller, new_admin).1 is Err ==> v.add_admin_result(
            caller,
            new_admin,
        ).0 == v,
{
    if caller == v.primary_admin && v.admins.len() < MAX_ADMINS && !v.admins.contains(new_admin) {
        let s2 = v.admins.push(new_admin);
        assert(s2.contains(new_admin)) by {
            assert(s2[v.admins.len() as int] == new_admin);
        }
    }
}

/// Law: removing the primary admin always fails and leaves the registry
/// unchanged, whatever its state; when the primary admin itself asks, the
/// failure is precisely `CannotRemovePrimaryAdmin`.
pub proof fn lemma_primary_admin_cannot_be_removed(v: RegistryView, caller: Identity)
    requires
        v.well_formed(),
    ensures
        v.remove_admin_result(caller, v.primary_admin).0 == v,
        v.remove_admin_result(caller, v.primary_admin).1 is Err,
        caller == v.primary_admin ==> v.remove_admin_result(caller, v.primary_admin).1 == Err::<
            (),
            ProofError,
        >(ProofError::CannotRemovePrimaryAdmin),
{
}

/// One step of registry administration: an addition or a removal attempt.
pub enum RegistryOp {
    Add { caller: Identity, new_admin: Identity },
    Remove { caller: Identity, target: Identity },
}

/// The registry after one administration attempt, successful or not.
pub open spec fn apply_op(v: RegistryView, op: RegistryOp) -> RegistryView {
    match op {
        RegistryOp::Add { caller, new_admin } => v.add_admin_result(caller, new_admin).0,
        RegistryOp::Remove { caller, target } => v.remove_admin_result(caller, target).0,
    }
}

/// The registry after a sequence of administration attempts, applied in
/// order.
pub open spec fn apply_ops(v: RegistryView, ops: Seq<RegistryOp>) -> RegistryView
    decreases ops.len(),
{
    if ops.len() == 0 {
        v
    } else {
        apply_ops(apply_op(v, ops[0]), ops.drop_first())
    }
}

/// Law: under every sequence of addition and removal attempts, the registry
/// stays well formed, its primary admin never changes, and the primary admin
/// remains a member at every step — every prefix of `ops` is itself such a
/// sequence.
pub proof fn lemma_primary_admin_always_member(v: RegistryView, ops: Seq<RegistryOp>)
    requires
        v.well_formed(),
    ensures
        apply_ops(v, ops).well_formed(),
        apply_ops(v, ops).primary_admin == v.primary_admin,
        apply_ops(v, ops).is_member(v.primary_admin),
    decreases ops.len(),
{
    if ops.len() == 0 {
        lemma_primary_admin_is_member(v);
    } else {
        match ops[0] {
            RegistryOp::Add { caller, new_admin } => {
                lemma_add_admin_well_formed(v, caller, new_admin);
            },
            RegistryOp::Remove { caller, target } => {
                lemma_remove_admin_well_formed(v, caller, target);
            },
        }
        lemma_primary_admin_always_member(apply_op(v, ops[0]), ops.drop_first());
    }
}

} // verus!
