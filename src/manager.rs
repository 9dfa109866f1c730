//! A registry that keeps users in insertion order.

use vstd::prelude::*;

use crate::user::{accepts, rejection_is, User, UserRole, ValidationError};

verus! {

/// Settings of a manager. Neither is enforced on the users it holds;
/// `enable_logging` tells callers whether to report each user added.
#[derive(Debug, Clone, Copy, PartialEq, Eq, Structural)]
pub struct ManagerConfig {
    pub max_users: u64,
    pub enable_logging: bool,
}

impl Default for ManagerConfig {
    /// A limit of 1000 users, with logging on.
    fn default() -> (r: ManagerConfig)
        ensures
            r.max_users == 1000,
            r.enable_logging,
    {
        ManagerConfig { max_users: 1000, enable_logging: true }
    }
}

/// The users that a query by `role` reports: the active ones of that role,
/// in the order in which they were added.
pub open spec fn users_with_role(users: Seq<User>, role: UserRole) -> Seq<User> {
    users.filter(|u: User| u.role == role && u.is_active)
}

/// Owns the users added so far and the settings.
pub struct UserManager {
    users: Vec<User>,
    config: ManagerConfig,
}

impl View for UserManager {
    type V = Seq<User>;

    /// The users, in the order in which they were added.
    closed spec fn view(&self) -> Seq<User> {
        self.users@
    }
}

impl UserManager {
    /// The manager's settings.
    pub closed spec fn spec_config(&self) -> ManagerConfig {
        self.config
    }

    /// An empty manager with the default settings.
    pub fn new() -> (r: UserManager)
        ensures
            r@.len() == 0,
            r.spec_config().max_users == 1000,
            r.spec_config().enable_logging,
    {
        UserManager { users: Vec::new(), config: ManagerConfig::default() }
    }

    /// The manager's settings.
    pub fn config(&self) -> (r: &ManagerConfig)
        ensures
            *r == self.spec_config(),
    {
        &self.config
    }

    /// Whether each user added should be reported.
    pub fn logging_enabled(&self) -> (r: bool)
        ensures
            r == self.spec_config().enable_logging,
    {
        self.config.enable_logging
    }

    /// Validates and appends a new user; on failure the manager is left as
    /// it was and the error of `User::new` is returned unchanged.
    pub fn add_user(&mut self, name: String, email: String, role: UserRole) -> (r: Result<
        (),
        ValidationError,
    >)
        ensures
            final(self).spec_config() == old(self).spec_config(),
            final(self)@.len() == old(self)@.len() + if r is Ok {
                1int
            } else {
                0int
            },
            match r {
                Ok(()) => {
                    &&& accepts(name@, email@)
                    &&& final(self)@.drop_last() == old(self)@
                    &&& final(self)@.last().made_from(name@, email@, role)
                },
                Err(e) => {
                    &&& !accepts(name@, email@)
                    &&& rejection_is(name@, email@, e)
                    &&& final(self)@ == old(self)@
                },
            },
    {
        match User::new(name, email, role) {
            Ok(user) => {
                self.users.push(user);
                proof {
                    assert(self.users@.drop_last() =~= old(self).users@);
                }
                Ok(())
            },
            Err(e) => Err(e),
        }
    }

    /// The active users of `role`, in insertion order.
    pub fn get_users_by_role(&self, role: &UserRole) -> (r: Vec<&User>)
        ensures
            r@.len() == users_with_role(self@, *role).len(),
            forall|i: int| 0 <= i < r@.len() ==> r@[i] == users_with_role(self@, *role)[i],
    {
        let mut r: Vec<&User> = Vec::new();
        let mut i: usize = 0;
        while i < self.users.len()
            invariant
                i <= self.users@.len(),
                r@.len() == users_with_role(self.users@.subrange(0, i as int), *role).len(),
                forall|j: int|
                    0 <= j < r@.len() ==> r@[j] == users_with_role(
                        self.users@.subrange(0, i as int),
                        *role,
                    )[j],
            decreases self.users@.len() - i,
        {
            let user = &self.users[i];
            if user.role == *role && user.is_active {
                r.push(user);
            }
            proof {
                let pred = |u: User| u.role == *role && u.is_active;
                let before = self.users@.subrange(0, i as int);
                assert(self.users@.subrange(0, i + 1) =~= before.push(self.users@[i as int]));
                before.lemma_filter_push(self.users@[i as int], pred);
            }
            i = i + 1;
        }
        proof {
            assert(self.users@.subrange(0, self.users@.len() as int) =~= self.users@);
        }
        r
    }

    /// The users held, in the order in which they were added.
    pub fn users(&self) -> (r: &Vec<User>)
        ensures
            r@ == self@,
    {
        &self.users
    }

    /// The number of users held, inactive ones included.
    pub fn user_count(&self) -> (r: usize)
        ensures
            r == self@.len(),
    {
        self.users.len()
    }
}

/// A query by role reports only active users of that role, and every such
/// user held.
pub proof fn lemma_users_with_role_members(users: Seq<User>, role: UserRole)
    ensures
        forall|i: int|
            0 <= i < users_with_role(users, role).len() ==> {
                &&& (#[trigger] users_with_role(users, role)[i]).role == role
                &&& users_with_role(users, role)[i].is_active
            },
        forall|i: int|
            0 <= i < users.len() && (#[trigger] users[i]).role == role && users[i].is_active
                ==> users_with_role(users, role).contains(users[i]),
{
    broadcast use vstd::seq_lib::group_filter_ensures;

}

/// Adding a user keeps the earlier answers of a query by role in their
/// order, and puts the new user after them when it is an active user of
/// that role.
pub proof fn lemma_users_with_role_after_add(users: Seq<User>, user: User, role: UserRole)
    ensures
        users_with_role(users.push(user), role) == if user.role == role && user.is_active {
            users_with_role(users, role).push(user)
        } else {
            users_with_role(users, role)
        },
{
    users.lemma_filter_push(user, |u: User| u.role == role && u.is_active);
}

} // verus!
