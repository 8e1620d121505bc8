//! Administrator access: a resolved user is admitted if one of the user's
//! roles is the administrator role, and in no other case.

use vstd::prelude::*;
use crate::error::AuthError;
use crate::models::{Role, RoleCode, RoleView, User, role_code_of};

verus! {

/// The views of a sequence of roles.
pub open spec fn role_views(roles: Seq<Role>) -> Seq<RoleView> {
    roles.map_values(|r: Role| r@)
}

/// Whether one of the roles carries the administrator code. The stored text
/// is read as a role code first, so a text that is no known code grants
/// nothing.
pub open spec fn holds_admin(roles: Seq<RoleView>) -> bool {
    exists|i: int| 0 <= i < roles.len() && #[trigger] role_code_of(roles[i].code) == Some(RoleCode::Admin)
}

/// Whether a user is admitted, given what the role lookup brought: the roles
/// of the user, or nothing where the lookup failed.
pub open spec fn admits(roles: Option<Seq<RoleView>>) -> bool {
    roles is Some && holds_admin(roles->0)
}

/// A user who was shown to hold the administrator role. The only way to one
/// is through [`authorize_admin`].
#[derive(Clone, Debug, PartialEq, Eq)]
pub struct AdminUser(User);

impl AdminUser {
    /// The user behind this context.
    pub closed spec fn inner(self) -> User {
        self.0
    }

    /// The user behind this context.
    pub fn user(&self) -> (user: &User)
        ensures
            *user == self.inner(),
    {
        &self.0
    }

    /// Gives the user back.
    pub fn into_user(self) -> (user: User)
        ensures
            user == self.inner(),
    {
        self.0
    }
}

/// Whether one of the roles is the administrator role.
pub fn is_admin(roles: &Vec<Role>) -> (r: bool)
    ensures
        r == holds_admin(role_views(roles@)),
{
    let mut i: usize = 0;
    while i < roles.len()
        invariant
            i <= roles.len(),
            forall|j: int|
                0 <= j < i ==> role_code_of(#[trigger] role_views(roles@)[j].code) != Some(
                    RoleCode::Admin,
                ),
        decreases roles.len() - i,
    {
        proof {
            assert(role_views(roles@)[i as int] == roles@[i as int]@);
        }
        match RoleCode::from_str(roles[i].code.as_str()) {
            Ok(RoleCode::Admin) => {
                proof {
                    assert(role_code_of(role_views(roles@)[i as int].code) == Some(RoleCode::Admin));
                }
                return true;
            },
            _ => {},
        }
        i = i + 1;
    }
    false
}

/// Admits `user` as an administrator or refuses. `roles` is what the role
/// lookup for `user` brought, and `None` where that lookup failed: a failed
/// lookup admits nobody.
pub fn authorize_admin(user: User, roles: Option<Vec<Role>>) -> (r: Result<AdminUser, AuthError>)
    ensures
        match roles {
            Some(found) if holds_admin(role_views(found@)) => r is Ok && r->Ok_0.inner() == user,
            _ => r == Err::<AdminUser, AuthError>(AuthError::Forbidden),
        },
{
    match roles {
        Some(found) => {
            if is_admin(&found) {
                Ok(AdminUser(user))
            } else {
                Err(AuthError::Forbidden)
            }
        },
        None => Err(AuthError::Forbidden),
    }
}

/// Resolution and admission in a row: a request without a resolved user is
/// unauthenticated whatever the roles say, and a resolved user is an
/// administrator or forbidden.
pub fn require_admin(resolved: Result<User, AuthError>, roles: Option<Vec<Role>>) -> (r: Result<
    AdminUser,
    AuthError,
>)
    ensures
        match resolved {
            Ok(user) => match roles {
                Some(found) if holds_admin(role_views(found@)) => r is Ok && r->Ok_0.inner()
                    == user,
                _ => r == Err::<AdminUser, AuthError>(AuthError::Forbidden),
            },
            Err(_) => r == Err::<AdminUser, AuthError>(AuthError::Unauthenticated),
        },
{
    match resolved {
        Ok(user) => authorize_admin(user, roles),
        Err(_) => Err(AuthError::Unauthenticated),
    }
}

/// A failed lookup and roles without the administrator code admit nobody,
/// one role with the code always admits, wherever it stands among the others,
/// and what admits is the exact text of the code.
pub proof fn lemma_admission_fails_closed(roles: Seq<RoleView>, extra: RoleView)
    ensures
        !admits(None),
        !holds_admin(Seq::<RoleView>::empty()),
        holds_admin(roles.push(extra)) <==> holds_admin(roles) || role_code_of(extra.code) == Some(
            RoleCode::Admin,
        ),
        role_code_of(extra.code) == Some(RoleCode::Admin) <==> extra.code == RoleCode::Admin.text(),
{
    let more = roles.push(extra);
    if holds_admin(more) {
        let i = choose|i: int|
            0 <= i < more.len() && #[trigger] role_code_of(more[i].code) == Some(RoleCode::Admin);
        if i < roles.len() {
            assert(roles[i] == more[i]);
        }
    }
    if holds_admin(roles) {
        let i = choose|i: int|
            0 <= i < roles.len() && #[trigger] role_code_of(roles[i].code) == Some(RoleCode::Admin);
        assert(more[i] == roles[i]);
    }
    if role_code_of(extra.code) == Some(RoleCode::Admin) {
        assert(more[roles.len() as int] == extra);
    }
    assert(crate::models::admin_text().len() == 5 && crate::models::user_text().len() == 4);
}

} // verus!
