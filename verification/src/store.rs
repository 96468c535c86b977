//! The credential store: the table of registered accounts.
//!
//! Its invariant is the table's three unique keys — id, username and
//! email — and every mutation preserves them.

use vstd::prelude::*;
use vstd::pervasive::VecAdditionalExecFns;
use crate::errors::AuthError;
use crate::models::User;

verus! {

/// Ids, usernames and emails are pairwise distinct across accounts.
pub open spec fn users_unique(users: Seq<User>) -> bool {
    forall|i: int, j: int|
        0 <= i < j < users.len() ==> users[i].id@ != users[j].id@
            && users[i].username@ != users[j].username@
            && users[i].email@ != users[j].email@
}

/// Some account has id `id`.
pub open spec fn u_has_id(users: Seq<User>, id: Seq<char>) -> bool {
    exists|i: int| 0 <= i < users.len() && users[i].id@ == id
}

/// The index of the account with id `id` (unique when `users_unique`).
pub open spec fn u_id_index(users: Seq<User>, id: Seq<char>) -> int {
    choose|i: int| 0 <= i < users.len() && users[i].id@ == id
}

/// The account with id `id`.
pub open spec fn u_by_id(users: Seq<User>, id: Seq<char>) -> User {
    users[u_id_index(users, id)]
}

/// Some account has email `email`.
pub open spec fn u_has_email(users: Seq<User>, email: Seq<char>) -> bool {
    exists|i: int| 0 <= i < users.len() && users[i].email@ == email
}

/// The index of the account with email `email`.
pub open spec fn u_email_index(users: Seq<User>, email: Seq<char>) -> int {
    choose|i: int| 0 <= i < users.len() && users[i].email@ == email
}

/// The account with email `email`.
pub open spec fn u_by_email(users: Seq<User>, email: Seq<char>) -> User {
    users[u_email_index(users, email)]
}

/// Some account has username `username`.
pub open spec fn u_has_username(users: Seq<User>, username: Seq<char>) -> bool {
    exists|i: int| 0 <= i < users.len() && users[i].username@ == username
}

/// Under uniqueness, an account found at `i` by id is the account
/// `u_by_id` speaks of.
pub proof fn lemma_unique_id_index(users: Seq<User>, id: Seq<char>, i: int)
    requires
        users_unique(users),
        0 <= i < users.len(),
        users[i].id@ == id,
    ensures
        u_has_id(users, id),
        u_id_index(users, id) == i,
        u_by_id(users, id) == users[i],
{
    assert(u_has_id(users, id));
    let j = u_id_index(users, id);
    assert(0 <= j < users.len() && users[j].id@ == id);
    if i < j {
        assert(users[i].id@ != users[j].id@);
    } else if j < i {
        assert(users[j].id@ != users[i].id@);
    }
}

/// Under uniqueness, an account found at `i` by email is the account
/// `u_by_email` speaks of.
pub proof fn lemma_unique_email_index(users: Seq<User>, email: Seq<char>, i: int)
    requires
        users_unique(users),
        0 <= i < users.len(),
        users[i].email@ == email,
    ensures
        u_has_email(users, email),
        u_email_index(users, email) == i,
        u_by_email(users, email) == users[i],
{
    assert(u_has_email(users, email));
    let j = u_email_index(users, email);
    assert(0 <= j < users.len() && users[j].email@ == email);
    if i < j {
        assert(users[i].email@ != users[j].email@);
    } else if j < i {
        assert(users[j].email@ != users[i].email@);
    }
}

/// The credential store. Its view is the sequence of accounts, in
/// registration order.
pub struct CredentialStore {
    users: Vec<User>,
}

impl View for CredentialStore {
    type V = Seq<User>;

    closed spec fn view(&self) -> Seq<User> {
        self.users@
    }
}

impl CredentialStore {
    /// The store invariant.
    pub open spec fn wf(&self) -> bool {
        users_unique(self@)
    }

    /// An empty store.
    pub fn new() -> (r: Self)
        ensures
            r.wf(),
            r@ == Seq::<User>::empty(),
    {
        CredentialStore { users: Vec::new() }
    }

    /// Looks an account up by id.
    pub fn find_by_id(&self, id: &String) -> (r: Option<User>)
        requires
            self.wf(),
        ensures
            r is Some <==> u_has_id(self@, id@),
            r matches Some(u) ==> u == u_by_id(self@, id@),
    {
        let n = self.users.len();
        let mut i: usize = 0;
        while i < n
            invariant
                n == self@.len(),
                0 <= i <= n,
                self.wf(),
                forall|k: int| 0 <= k < i ==> self@[k].id@ != id@,
            decreases n - i,
        {
            if self.users[i].id.eq(id) {
                proof {
                    lemma_unique_id_index(self@, id@, i as int);
                }
                return Some(self.users[i].clone());
            }
            i += 1;
        }
        None
    }

    /// Looks an account up by email.
    pub fn find_by_email(&self, email: &String) -> (r: Option<User>)
        requires
            self.wf(),
        ensures
            r is Some <==> u_has_email(self@, email@),
            r matches Some(u) ==> u == u_by_email(self@, email@),
    {
        let n = self.users.len();
        let mut i: usize = 0;
        while i < n
            invariant
                n == self@.len(),
                0 <= i <= n,
                self.wf(),
                forall|k: int| 0 <= k < i ==> self@[k].email@ != email@,
            decreases n - i,
        {
            if self.users[i].email.eq(email) {
                proof {
                    lemma_unique_email_index(self@, email@, i as int);
                }
                return Some(self.users[i].clone());
            }
            i += 1;
        }
        None
    }

    /// Whether some account has this username.
    pub fn username_taken(&self, username: &String) -> (r: bool)
        ensures
            r == u_has_username(self@, username@),
    {
        let n = self.users.len();
        let mut i: usize = 0;
        while i < n
            invariant
                n == self@.len(),
                0 <= i <= n,
                forall|k: int| 0 <= k < i ==> self@[k].username@ != username@,
            decreases n - i,
        {
            if self.users[i].username.eq(username) {
                return true;
            }
            i += 1;
        }
        false
    }

    /// Registers a new account, unverified, with empty profile fields.
    /// Fails with `Conflict` — and changes nothing — when the username
    /// or email is already taken, and with `Internal` when the id
    /// collides with an existing row.
    pub fn create(
        &mut self,
        id: &String,
        username: &String,
        email: &String,
        password_hash: &String,
        now: u64,
    ) -> (r: Result<User, AuthError>)
        requires
            old(self).wf(),
        ensures
            final(self).wf(),
            u_has_email(old(self)@, email@) || u_has_username(old(self)@, username@) ==> r == Err::<
                User,
                AuthError,
            >(AuthError::Conflict) && final(self)@ == old(self)@,
            !u_has_email(old(self)@, email@) && !u_has_username(old(self)@, username@) && u_has_id(
                old(self)@,
                id@,
            ) ==> r == Err::<User, AuthError>(AuthError::Internal) && final(self)@ == old(self)@,
            !u_has_email(old(self)@, email@) && !u_has_username(old(self)@, username@) && !u_has_id(
                old(self)@,
                id@,
            ) ==> (r matches Ok(u)
                && u.id == *id
                && u.username == *username
                && u.email == *email
                && u.password_hash == *password_hash
                && u.email_verified == false
                && u.bio is None
                && u.image is None
                && u.created_at == now
                && u.updated_at == now
                && final(self)@ == old(self)@.push(u)),
    {
        if self.contains_email(email) || self.username_taken(username) {
            return Err(AuthError::Conflict);
        }
        if self.contains_id(id) {
            return Err(AuthError::Internal);
        }
        let user = User {
            id: id.clone(),
            username: username.clone(),
            email: email.clone(),
            password_hash: password_hash.clone(),
            bio: None,
            image: None,
            email_verified: false,
            created_at: now,
            updated_at: now,
        };
        let dup = user.clone();
        self.users.push(user);
        proof {
            assert forall|i: int, j: int|
                0 <= i < j < self@.len() implies self@[i].id@ != self@[j].id@
                    && self@[i].username@ != self@[j].username@
                    && self@[i].email@ != self@[j].email@ by {
                if j < self@.len() - 1 {
                    assert(users_unique(old(self)@));
                    assert(old(self)@[i].id@ != old(self)@[j].id@);
                } else {
                    assert(self@[j].id@ == id@ && self@[j].username@ == username@
                        && self@[j].email@ == email@);
                    assert(old(self)@[i].id@ != id@);
                    assert(old(self)@[i].username@ != username@);
                    assert(old(self)@[i].email@ != email@);
                }
            }
        }
        Ok(dup)
    }

    /// Whether some account has this email.
    pub fn contains_email(&self, email: &String) -> (r: bool)
        ensures
            r == u_has_email(self@, email@),
    {
        let n = self.users.len();
        let mut i: usize = 0;
        while i < n
            invariant
                n == self@.len(),
                0 <= i <= n,
                forall|k: int| 0 <= k < i ==> self@[k].email@ != email@,
            decreases n - i,
        {
            if self.users[i].email.eq(email) {
                return true;
            }
            i += 1;
        }
        false
    }

    /// Whether some account has this id.
    pub fn contains_id(&self, id: &String) -> (r: bool)
        ensures
            r == u_has_id(self@, id@),
    {
        let n = self.users.len();
        let mut i: usize = 0;
        while i < n
            invariant
                n == self@.len(),
                0 <= i <= n,
                forall|k: int| 0 <= k < i ==> self@[k].id@ != id@,
            decreases n - i,
        {
            if self.users[i].id.eq(id) {
                return true;
            }
            i += 1;
        }
        false
    }

    /// Replaces the password hash of the account with id `user_id`,
    /// touching `updated_at`. Returns whether such an account exists;
    /// changes nothing when none does.
    pub fn set_password_hash(&mut self, user_id: &String, password_hash: &String, now: u64) -> (r:
        bool)
        requires
            old(self).wf(),
        ensures
            final(self).wf(),
            r == u_has_id(old(self)@, user_id@),
            r ==> final(self)@ == old(self)@.update(
                u_id_index(old(self)@, user_id@),
                User {
                    password_hash: *password_hash,
                    updated_at: now,
                    ..u_by_id(old(self)@, user_id@)
                },
            ),
            !r ==> final(self)@ == old(self)@,
    {
        let n = self.users.len();
        let mut i: usize = 0;
        while i < n
            invariant
                n == self@.len(),
                0 <= i <= n,
                self.wf(),
                self@ == old(self)@,
                forall|k: int| 0 <= k < i ==> self@[k].id@ != user_id@,
            decreases n - i,
        {
            if self.users[i].id.eq(user_id) {
                proof {
                    lemma_unique_id_index(self@, user_id@, i as int);
                }
                let updated = User {
                    id: self.users[i].id.clone(),
                    username: self.users[i].username.clone(),
                    email: self.users[i].email.clone(),
                    password_hash: password_hash.clone(),
                    bio: crate::models::clone_opt(&self.users[i].bio),
                    image: crate::models::clone_opt(&self.users[i].image),
                    email_verified: self.users[i].email_verified,
                    created_at: self.users[i].created_at,
                    updated_at: now,
                };
                self.users.set(i, updated);
                proof {
                    assert forall|p: int, q: int|
                        0 <= p < q < self@.len() implies self@[p].id@ != self@[q].id@
                            && self@[p].username@ != self@[q].username@
                            && self@[p].email@ != self@[q].email@ by {
                        assert(users_unique(old(self)@));
                        assert(old(self)@[p].id@ != old(self)@[q].id@);
                        assert(self@[p].id@ == old(self)@[p].id@);
                        assert(self@[q].id@ == old(self)@[q].id@);
                        assert(self@[p].username@ == old(self)@[p].username@);
                        assert(self@[q].username@ == old(self)@[q].username@);
                        assert(self@[p].email@ == old(self)@[p].email@);
                        assert(self@[q].email@ == old(self)@[q].email@);
                    }
                }
                return true;
            }
            i += 1;
        }
        false
    }

    /// Marks the account with id `user_id` as email-verified, touching
    /// `updated_at`. Returns whether such an account exists; changes
    /// nothing when none does.
    pub fn set_email_verified(&mut self, user_id: &String, now: u64) -> (r: bool)
        requires
            old(self).wf(),
        ensures
            final(self).wf(),
            r == u_has_id(old(self)@, user_id@),
            r ==> final(self)@ == old(self)@.update(
                u_id_index(old(self)@, user_id@),
                User {
                    email_verified: true,
                    updated_at: now,
                    ..u_by_id(old(self)@, user_id@)
                },
            ),
            !r ==> final(self)@ == old(self)@,
    {
        let n = self.users.len();
        let mut i: usize = 0;
        while i < n
            invariant
                n == self@.len(),
                0 <= i <= n,
                self.wf(),
                self@ == old(self)@,
                forall|k: int| 0 <= k < i ==> self@[k].id@ != user_id@,
            decreases n - i,
        {
            if self.users[i].id.eq(user_id) {
                proof {
                    lemma_unique_id_index(self@, user_id@, i as int);
                }
                let updated = User {
                    id: self.users[i].id.clone(),
                    username: self.users[i].username.clone(),
                    email: self.users[i].email.clone(),
                    password_hash: self.users[i].password_hash.clone(),
                    bio: crate::models::clone_opt(&self.users[i].bio),
                    image: crate::models::clone_opt(&self.users[i].image),
                    email_verified: true,
                    created_at: self.users[i].created_at,
                    updated_at: now,
                };
                self.users.set(i, updated);
                proof {
                    assert forall|p: int, q: int|
                        0 <= p < q < self@.len() implies self@[p].id@ != self@[q].id@
                            && self@[p].username@ != self@[q].username@
                            && self@[p].email@ != self@[q].email@ by {
                        assert(users_unique(old(self)@));
                        assert(old(self)@[p].id@ != old(self)@[q].id@);
                        assert(self@[p].id@ == old(self)@[p].id@);
                        assert(self@[q].id@ == old(self)@[q].id@);
                        assert(self@[p].username@ == old(self)@[p].username@);
                        assert(self@[q].username@ == old(self)@[q].username@);
                        assert(self@[p].email@ == old(self)@[p].email@);
                        assert(self@[q].email@ == old(self)@[q].email@);
                    }
                }
                return true;
            }
            i += 1;
        }
        false
    }

    /// The number of registered accounts.
    pub fn len(&self) -> (r: usize)
        ensures
            r == self@.len(),
    {
        self.users.len()
    }
}

} // verus!
