//! Users, their permissions, and the claims a login token carries.

use crate::task::TaskId;
use vstd::prelude::*;

verus! {

/// What a user may do besides being an administrator.
#[derive(Clone, Copy, Debug, PartialEq, Eq, Structural)]
pub enum Permission {
    CreateTask,
    CheckTask,
    ListTasks,
    CancelTask,
    All,
}

/// A user of the broker's HTTP API.
#[derive(Clone, Debug)]
pub struct User {
    pub id: TaskId,
    pub name: String,
    pub password_hash: String,
    pub is_admin: bool,
    pub permissions: Vec<Permission>,
}

/// The claims of a login token.
#[derive(Clone, Debug)]
pub struct JWTClaims {
    pub sub: String,
    pub exp: usize,
    pub iat: usize,
    pub iss: String,
    pub user_id: TaskId,
    pub username: String,
    pub is_admin: bool,
    pub permissions: Vec<String>,
}

/// Two user records are the same user when every field agrees.
pub open spec fn same_user(a: User, b: User) -> bool {
    &&& a.id == b.id
    &&& a.name@ == b.name@
    &&& a.password_hash@ == b.password_hash@
    &&& a.is_admin == b.is_admin
    &&& a.permissions@ == b.permissions@
}

/// A user may perform an action guarded by `p` when it is an administrator,
/// holds `p`, or holds `All`.
pub open spec fn spec_can(u: User, p: Permission) -> bool {
    u.is_admin || u.permissions@.contains(p) || u.permissions@.contains(Permission::All)
}

fn holds(perms: &Vec<Permission>, p: Permission) -> (r: bool)
    ensures
        r == perms@.contains(p),
{
    let mut i: usize = 0;
    while i < perms.len()
        invariant
            i <= perms@.len(),
            forall|j: int| 0 <= j < i ==> perms@[j] != p,
        decreases perms@.len() - i,
    {
        if perms[i] == p {
            assert(perms@[i as int] == p);
            return true;
        }
        i = i + 1;
    }
    false
}

impl User {
    /// Whether this user may perform an action guarded by `p`.
    pub fn can(&self, p: Permission) -> (r: bool)
        ensures
            r == spec_can(*self, p),
    {
        self.is_admin || holds(&self.permissions, p) || holds(&self.permissions, Permission::All)
    }

    /// Whether both records describe the same user.
    pub fn same_as(&self, other: &User) -> (r: bool)
        ensures
            r == same_user(*self, *other),
    {
        if self.id != other.id || self.is_admin != other.is_admin {
            return false;
        }
        if !crate::text::str_eq(self.name.as_str(), other.name.as_str()) {
            return false;
        }
        if !crate::text::str_eq(self.password_hash.as_str(), other.password_hash.as_str()) {
            return false;
        }
        let n = self.permissions.len();
        if n != other.permissions.len() {
            return false;
        }
        let mut i: usize = 0;
        while i < n
            invariant
                n == self.permissions@.len(),
                n == other.permissions@.len(),
                i <= n,
                forall|j: int| 0 <= j < i ==> self.permissions@[j] == other.permissions@[j],
            decreases n - i,
        {
            if self.permissions[i] != other.permissions[i] {
                return false;
            }
            i = i + 1;
        }
        assert(self.permissions@ =~= other.permissions@);
        true
    }

    /// A copy of this user record.
    pub fn duplicate(&self) -> (r: User)
        ensures
            same_user(r, *self),
    {
        let mut permissions: Vec<Permission> = Vec::new();
        let mut i: usize = 0;
        while i < self.permissions.len()
            invariant
                i <= self.permissions@.len(),
                permissions@ == self.permissions@.subrange(0, i as int),
            decreases self.permissions@.len() - i,
        {
            permissions.push(self.permissions[i]);
            i = i + 1;
            assert(permissions@ =~= self.permissions@.subrange(0, i as int));
        }
        assert(permissions@ =~= self.permissions@);
        User {
            id: self.id,
            name: self.name.clone(),
            password_hash: self.password_hash.clone(),
            is_admin: self.is_admin,
            permissions,
        }
    }
}

/// Whether a token whose claims expire at `exp` (seconds since the UNIX
/// epoch) is no longer valid at `now`.
pub fn token_expired(now: usize, exp: usize) -> (r: bool)
    ensures
        r == (now > exp),
{
    now > exp
}

} // verus!
