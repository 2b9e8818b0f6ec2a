//! Roles derived from OIDC group membership. A user group grants access to
//! the platform; an admin group grants admin capabilities, and with them
//! access.

use vstd::prelude::*;
use crate::support::text::str_eq;

verus! {

/// A platform access role.
#[derive(Debug, Clone, Copy, PartialEq, Eq, Hash, Structural)]
pub enum Role {
    /// Access to one's own data and workflows.
    User,
    /// Oversight of the platform.
    Admin,
}

impl Role {
    /// Whether this is the admin role.
    pub fn is_admin(&self) -> (r: bool)
        ensures
            r == (*self == Role::Admin),
    {
        match self {
            Role::Admin => true,
            Role::User => false,
        }
    }
}

/// Some group of the list is named `name`.
pub open spec fn has_group(groups: Seq<String>, name: Seq<char>) -> bool {
    exists|i: int| 0 <= i < groups.len() && #[trigger] groups[i]@ == name
}

/// The roles that the groups grant: the user role for the user group or the
/// admin group, then the admin role for the admin group.
pub open spec fn granted_roles(groups: Seq<String>, user_group: Seq<char>, admin_group: Seq<char>) -> Seq<Role> {
    if has_group(groups, admin_group) {
        seq![Role::User, Role::Admin]
    } else if has_group(groups, user_group) {
        seq![Role::User]
    } else {
        Seq::empty()
    }
}

/// The roles of a user.
#[derive(Debug, Clone, PartialEq, Eq)]
pub struct RoleSet {
    roles: Vec<Role>,
}

impl RoleSet {
    /// The roles, in order.
    pub closed spec fn roles_seq(&self) -> Seq<Role> {
        self.roles@
    }

    /// Well-formedness: each role at most once, and the admin role only with
    /// the user role.
    pub open spec fn wf(&self) -> bool {
        &&& self.roles_seq().no_duplicates()
        &&& self.roles_seq().contains(Role::Admin) ==> self.roles_seq().contains(Role::User)
    }

    /// No roles: no access.
    pub fn none() -> (r: Self)
        ensures
            r.roles_seq() == Seq::<Role>::empty(),
            r.wf(),
    {
        RoleSet { roles: Vec::new() }
    }

    /// User access only.
    pub fn user() -> (r: Self)
        ensures
            r.roles_seq() == seq![Role::User],
            r.wf(),
    {
        let mut roles = Vec::new();
        roles.push(Role::User);
        assert(roles@ =~= seq![Role::User]);
        RoleSet { roles }
    }

    /// Admin access, which includes user access.
    pub fn admin() -> (r: Self)
        ensures
            r.roles_seq() == seq![Role::User, Role::Admin],
            r.wf(),
    {
        let mut roles = Vec::new();
        roles.push(Role::User);
        roles.push(Role::Admin);
        assert(roles@ =~= seq![Role::User, Role::Admin]);
        RoleSet { roles }
    }

    /// The roles that a list of OIDC groups grants: the user group grants
    /// access; the admin group grants admin capabilities and access.
    pub fn from_groups(groups: &[String], user_group: &str, admin_group: &str) -> (r: Self)
        ensures
            r.roles_seq() == granted_roles(groups@, user_group@, admin_group@),
            r.wf(),
    {
        let mut roles: Vec<Role> = Vec::new();
        if Self::any_named(groups, user_group) {
            roles.push(Role::User);
        }
        assert(roles@ =~= if has_group(groups@, user_group@) { seq![Role::User] } else { Seq::empty() });
        if Self::any_named(groups, admin_group) {
            if !Self::has_role(&roles, Role::User) {
                roles.push(Role::User);
            }
            assert(roles@ =~= seq![Role::User]) by {
                if !has_group(groups@, user_group@) {
                    assert(roles@.len() == 1);
                }
            }
            roles.push(Role::Admin);
        }
        proof {
            if has_group(groups@, admin_group@) {
                assert(roles@ =~= seq![Role::User, Role::Admin]);
            } else if has_group(groups@, user_group@) {
                assert(roles@ =~= seq![Role::User]);
            } else {
                assert(roles@ =~= Seq::<Role>::empty());
            }
        }
        RoleSet { roles }
    }

    /// Whether some group is named `name`.
    fn any_named(groups: &[String], name: &str) -> (r: bool)
        ensures
            r == has_group(groups@, name@),
    {
        let mut i: usize = 0;
        while i < groups.len()
            invariant
                i <= groups@.len(),
                forall|j: int| 0 <= j < i ==> groups@[j]@ != name@,
            decreases groups@.len() - i,
        {
            if str_eq(groups[i].as_str(), name) {
                return true;
            }
            i = i + 1;
        }
        false
    }

    /// Whether the list holds the role.
    fn has_role(roles: &Vec<Role>, role: Role) -> (r: bool)
        ensures
            r == roles@.contains(role),
    {
        let mut i: usize = 0;
        while i < roles.len()
            invariant
                i <= roles@.len(),
                forall|j: int| 0 <= j < i ==> roles@[j] != role,
            decreases roles@.len() - i,
        {
            if roles[i] == role {
                return true;
            }
            i = i + 1;
        }
        false
    }

    /// Whether the user has access to the platform (the user role).
    pub fn has_access(&self) -> (r: bool)
        ensures
            r == self.roles_seq().contains(Role::User),
    {
        Self::has_role(&self.roles, Role::User)
    }

    /// Whether the user has admin access.
    pub fn is_admin(&self) -> (r: bool)
        ensures
            r == self.roles_seq().contains(Role::Admin),
    {
        Self::has_role(&self.roles, Role::Admin)
    }

    /// The roles.
    pub fn roles(&self) -> (r: &[Role])
        ensures
            r@ == self.roles_seq(),
    {
        self.roles.as_slice()
    }
}

impl Default for RoleSet {
    /// No roles.
    fn default() -> (r: Self)
        ensures
            r.roles_seq() == Seq::<Role>::empty(),
    {
        RoleSet::none()
    }
}

/// Admin access implies access: a well-formed role set with the admin role
/// has the user role.
pub proof fn law_admin_implies_access(r: &RoleSet)
    requires
        r.wf(),
    ensures
        r.roles_seq().contains(Role::Admin) ==> r.roles_seq().contains(Role::User),
{
}

/// What groups grant: access exactly when the user group or the admin group
/// is among them, admin exactly when the admin group is, and no role twice.
pub proof fn law_granted_roles(groups: Seq<String>, user_group: Seq<char>, admin_group: Seq<char>)
    ensures
        granted_roles(groups, user_group, admin_group).contains(Role::User) <==> (has_group(groups, user_group)
            || has_group(groups, admin_group)),
        granted_roles(groups, user_group, admin_group).contains(Role::Admin) <==> has_group(groups, admin_group),
        granted_roles(groups, user_group, admin_group).no_duplicates(),
{
    let r = granted_roles(groups, user_group, admin_group);
    if has_group(groups, admin_group) {
        assert(r[0] == Role::User);
        assert(r[1] == Role::Admin);
    } else if has_group(groups, user_group) {
        assert(r[0] == Role::User);
    }
}

} // verus!
