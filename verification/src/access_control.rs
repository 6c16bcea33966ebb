//! Role grants for one governed resource, and the guard functions that
//! translate a failed check into an authorization error.

use vstd::prelude::*;

use crate::Pubkey;

verus! {

/// The roles a principal can hold on a governed resource.
#[derive(Clone, Copy, PartialEq, Eq, Structural, Debug)]
pub enum Role {
    Admin,
    Creator,
    Collaborator,
    Investor,
    User,
}

/// Explicit role grants for one governed resource.  The `admin` principal
/// passes every role check structurally, whatever the grant list holds.
#[derive(Clone, Debug)]
pub struct AccessControl {
    pub admin: Pubkey,
    pub roles: Vec<(Pubkey, Role)>,
}

/// `user` holds `role` under grant list `grants` with admin `admin`: either
/// through the admin shortcut or through an exact grant.
pub open spec fn role_granted(
    admin: Pubkey,
    grants: Seq<(Pubkey, Role)>,
    user: Pubkey,
    role: Role,
) -> bool {
    user == admin || grants.contains((user, role))
}

/// The grant list after an insert of `(user, role)`: unchanged when the role
/// is already held (including through the admin shortcut, so a grant to the
/// admin is always suppressed), else extended by the one entry.
pub open spec fn grants_with_added(
    admin: Pubkey,
    grants: Seq<(Pubkey, Role)>,
    user: Pubkey,
    role: Role,
) -> Seq<(Pubkey, Role)> {
    if role_granted(admin, grants, user, role) {
        grants
    } else {
        grants.push((user, role))
    }
}

/// The grant list after removing every `(user, role)` entry, order kept.
pub open spec fn grants_without(
    grants: Seq<(Pubkey, Role)>,
    user: Pubkey,
    role: Role,
) -> Seq<(Pubkey, Role)>
    decreases grants.len(),
{
    if grants.len() == 0 {
        grants
    } else {
        let rest = grants_without(grants.drop_last(), user, role);
        if grants.last() == (user, role) {
            rest
        } else {
            rest.push(grants.last())
        }
    }
}

impl AccessControl {
    /// `user` holds `role`, at the specification level.
    pub open spec fn spec_has_role(self, user: Pubkey, role: Role) -> bool {
        role_granted(self.admin, self.roles@, user, role)
    }

    /// `user` is an administrator, at the specification level.
    pub open spec fn spec_is_admin(self, user: Pubkey) -> bool {
        user == self.admin || self.spec_has_role(user, Role::Admin)
    }

    /// A fresh record with one seed grant `(admin, Admin)`.
    pub fn new(admin: Pubkey) -> (ac: AccessControl)
        ensures
            ac.admin == admin,
            ac.roles@ == seq![(admin, Role::Admin)],
    {
        let roles: Vec<(Pubkey, Role)> = vec![(admin, Role::Admin)];
        proof {
            assert(roles@ =~= seq![(admin, Role::Admin)]);
        }
        AccessControl { admin, roles }
    }

    /// True when `user` is the admin or holds an exact `(user, role)` grant.
    pub fn has_role(&self, user: &Pubkey, role: &Role) -> (res: bool)
        ensures
            res == self.spec_has_role(*user, *role),
    {
        if *user == self.admin {
            return true;
        }
        let mut i: usize = 0;
        while i < self.roles.len()
            invariant
                i <= self.roles@.len(),
                forall|j: int| 0 <= j < i ==> self.roles@[j] != (*user, *role),
            decreases self.roles@.len() - i,
        {
            let entry = self.roles[i];
            if entry.0 == *user && entry.1 == *role {
                assert(self.roles@[i as int] == (*user, *role));
                return true;
            }
            i = i + 1;
        }
        assert(!self.roles@.contains((*user, *role)));
        false
    }

    /// Idempotent insert: a no-op whenever `has_role` already answers true
    /// for the exact pair, so a grant to the admin is always suppressed.
    pub fn add_role(&mut self, user: Pubkey, role: Role)
        ensures
            final(self).admin == old(self).admin,
            final(self).roles@ == grants_with_added(
                old(self).admin,
                old(self).roles@,
                user,
                role,
            ),
            old(self).spec_has_role(user, role) ==> *final(self) == *old(self),
    {
        if !self.has_role(&user, &role) {
            self.roles.push((user, role));
        }
    }

    /// Removes every grant of the exact `(user, role)` pair.  Removing a
    /// role from the admin never affects the structural admin shortcut.
    pub fn remove_role(&mut self, user: &Pubkey, role: &Role)
        ensures
            final(self).admin == old(self).admin,
            final(self).roles@ == grants_without(old(self).roles@, *user, *role),
    {
        let ghost all_grants = self.roles@;
        let mut kept: Vec<(Pubkey, Role)> = Vec::new();
        let mut i: usize = 0;
        while i < self.roles.len()
            invariant
                i <= self.roles@.len(),
                *self == *old(self),
                self.roles@ == all_grants,
                kept@ == grants_without(all_grants.take(i as int), *user, *role),
            decreases self.roles@.len() - i,
        {
            let entry = self.roles[i];
            proof {
                assert(all_grants.take(i as int + 1) =~= all_grants.take(i as int).push(
                    all_grants[i as int],
                ));
                lemma_grants_without_push(
                    all_grants.take(i as int),
                    all_grants[i as int],
                    *user,
                    *role,
                );
            }
            if !(entry.0 == *user && entry.1 == *role) {
                assert(entry != (*user, *role));
                kept.push(entry);
            } else {
                assert(entry == (*user, *role));
            }
            i = i + 1;
        }
        proof {
            assert(all_grants.take(all_grants.len() as int) =~= all_grants);
        }
        self.roles = kept;
    }

    /// True when `user` is the admin principal or holds an `Admin` grant.
    pub fn is_admin(&self, user: &Pubkey) -> (res: bool)
        ensures
            res == self.spec_is_admin(*user),
    {
        *user == self.admin || self.has_role(user, &Role::Admin)
    }
}

/// Appending one entry steps `grants_without` by exactly that entry.
proof fn lemma_grants_without_push(
    grants: Seq<(Pubkey, Role)>,
    entry: (Pubkey, Role),
    user: Pubkey,
    role: Role,
)
    ensures
        entry == (user, role) ==> grants_without(grants.push(entry), user, role)
            == grants_without(grants, user, role),
        entry != (user, role) ==> grants_without(grants.push(entry), user, role)
            == grants_without(grants, user, role).push(entry),
{
    assert(grants.push(entry).drop_last() =~= grants);
    assert(grants.push(entry).last() == entry);
}

/// Removing a pair that the grant list does not hold changes nothing.
proof fn lemma_grants_without_absent(grants: Seq<(Pubkey, Role)>, user: Pubkey, role: Role)
    requires
        !grants.contains((user, role)),
    ensures
        grants_without(grants, user, role) == grants,
    decreases grants.len(),
{
    if grants.len() > 0 {
        assert(grants.last() != (user, role)) by {
            assert(grants[grants.len() - 1] == grants.last());
        }
        assert(!grants.drop_last().contains((user, role))) by {
            if grants.drop_last().contains((user, role)) {
                let j = choose|j: int|
                    0 <= j < grants.drop_last().len() && grants.drop_last()[j] == (user, role);
                assert(grants[j] == (user, role));
            }
        }
        lemma_grants_without_absent(grants.drop_last(), user, role);
        assert(grants.drop_last().push(grants.last()) =~= grants);
    }
}

/// Idempotence: inserting the same `(user, role)` pair twice leaves the same
/// grant list as inserting it once.
pub proof fn lemma_add_role_idempotent(
    admin: Pubkey,
    grants: Seq<(Pubkey, Role)>,
    user: Pubkey,
    role: Role,
)
    ensures
        grants_with_added(admin, grants_with_added(admin, grants, user, role), user, role)
            == grants_with_added(admin, grants, user, role),
{
    if !role_granted(admin, grants, user, role) {
        let once = grants.push((user, role));
        assert(once[grants.len() as int] == (user, role));
        assert(once.contains((user, role)));
    }
}

/// Round trip: inserting a pair that was not held, then removing it, returns
/// the grant list to its prior state.
pub proof fn lemma_add_then_remove_role(
    admin: Pubkey,
    grants: Seq<(Pubkey, Role)>,
    user: Pubkey,
    role: Role,
)
    requires
        !role_granted(admin, grants, user, role),
    ensures
        grants_without(grants_with_added(admin, grants, user, role), user, role) == grants,
{
    lemma_grants_without_push(grants, (user, role), user, role);
    lemma_grants_without_absent(grants, user, role);
}

/// Admin shortcut: the admin principal passes every role check, whatever the
/// grant list holds.
pub proof fn lemma_admin_has_every_role(admin: Pubkey, grants: Seq<(Pubkey, Role)>, role: Role)
    ensures
        role_granted(admin, grants, admin, role),
{
}

/// A grant to the admin principal is always suppressed by the idempotency
/// test, whatever role is being granted.
pub proof fn lemma_admin_grant_suppressed(
    admin: Pubkey,
    grants: Seq<(Pubkey, Role)>,
    role: Role,
)
    ensures
        grants_with_added(admin, grants, admin, role) == grants,
{
}

/// The authorization failures raised by the guard functions.
#[derive(Clone, Copy, PartialEq, Eq, Structural, Debug)]
pub enum AccessControlError {
    UnauthorizedAdmin,
    UnauthorizedCreator,
    UnauthorizedRole,
}

/// Passes exactly the administrators; everyone else is turned away with
/// `UnauthorizedAdmin`.
pub fn require_admin(access_control: &AccessControl, user: &Pubkey) -> (res: Result<
    (),
    AccessControlError,
>)
    ensures
        res is Ok <==> access_control.spec_is_admin(*user),
        res is Err ==> res == Err::<(), AccessControlError>(
            AccessControlError::UnauthorizedAdmin,
        ),
{
    if !access_control.is_admin(user) {
        return Err(AccessControlError::UnauthorizedAdmin);
    }
    Ok(())
}

/// Passes exactly the holders of the `Creator` role; everyone else is turned
/// away with `UnauthorizedCreator`.
pub fn require_creator(access_control: &AccessControl, user: &Pubkey) -> (res: Result<
    (),
    AccessControlError,
>)
    ensures
        res is Ok <==> access_control.spec_has_role(*user, Role::Creator),
        res is Err ==> res == Err::<(), AccessControlError>(
            AccessControlError::UnauthorizedCreator,
        ),
{
    if !access_control.has_role(user, &Role::Creator) {
        return Err(AccessControlError::UnauthorizedCreator);
    }
    Ok(())
}

/// Passes exactly the holders of `role`; everyone else is turned away with
/// `UnauthorizedRole`.
pub fn require_role(access_control: &AccessControl, user: &Pubkey, role: &Role) -> (res: Result<
    (),
    AccessControlError,
>)
    ensures
        res is Ok <==> access_control.spec_has_role(*user, *role),
        res is Err ==> res == Err::<(), AccessControlError>(AccessControlError::UnauthorizedRole),
{
    if !access_control.has_role(user, role) {
        return Err(AccessControlError::UnauthorizedRole);
    }
    Ok(())
}

} // verus!
