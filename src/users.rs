//! The user store: accounts with unique names and unique emails, and a
//! monotonic source of user ids.

use vstd::prelude::*;
use crate::domain::{User, user_label};
use crate::error::{AppError, detail_of};

verus! {

/// Some user in `s` has the name `name`.
pub open spec fn username_taken(s: Seq<User>, name: Seq<char>) -> bool {
    exists|k: int| 0 <= k < s.len() && (#[trigger] s[k]).username@ == name
}

/// Some user in `s` has the email `email`.
pub open spec fn email_taken(s: Seq<User>, email: Seq<char>) -> bool {
    exists|k: int| 0 <= k < s.len() && (#[trigger] s[k]).email@ == email
}

/// The user named `name` (meaningful when there is one).
pub open spec fn user_named(s: Seq<User>, name: Seq<char>) -> User {
    s[choose|k: int| 0 <= k < s.len() && (#[trigger] s[k]).username@ == name]
}

/// No two users share a name, an email or an id.
pub open spec fn users_distinct(s: Seq<User>) -> bool {
    forall|i: int, j: int|
        0 <= i < s.len() && 0 <= j < s.len() && i != j ==> {
            &&& (#[trigger] s[i]).username@ != (#[trigger] s[j]).username@
            &&& s[i].email@ != s[j].email@
            &&& s[i].id != s[j].id
        }
}

/// Persisted users, and the last id handed out.
pub struct UserRepository {
    users: Vec<User>,
    last_id: i64,
}

impl View for UserRepository {
    type V = Seq<User>;

    closed spec fn view(&self) -> Seq<User> {
        self.users@
    }
}

impl UserRepository {
    /// The last id handed out (0 before the first).
    pub closed spec fn last_id(&self) -> int {
        self.last_id as int
    }

    /// Names, emails and ids are unique; no stored id is above the last one
    /// handed out.
    pub open spec fn wf(&self) -> bool {
        &&& users_distinct(self@)
        &&& 0 <= self.last_id() <= i64::MAX
        &&& forall|k: int| 0 <= k < self@.len() ==> (#[trigger] self@[k]).id <= self.last_id()
    }

    /// An empty store.
    pub fn new() -> (r: UserRepository)
        ensures
            r.wf(),
            r@ == Seq::<User>::empty(),
            r.last_id() == 0,
    {
        UserRepository { users: Vec::new(), last_id: 0 }
    }

    /// A store resumed from persisted rows and the last id handed out, so
    /// that no id is handed out twice across restarts. Rows that clash on
    /// name, email or id are refused.
    pub fn restore(rows: &Vec<User>, last_id: i64) -> (r: Result<UserRepository, AppError>)
        ensures
            r matches Ok(repo) ==> repo.wf() && repo@ == rows@ && repo.last_id() >= last_id,
            r is Err <==> !users_distinct(rows@),
    {
        let mut repo = UserRepository::new();
        let mut k: usize = 0;
        while k < rows.len()
            invariant
                k <= rows@.len(),
                repo.wf(),
                repo@ == rows@.subrange(0, k as int),
                users_distinct(rows@.subrange(0, k as int)),
            decreases rows@.len() - k,
        {
            let u = rows[k].duplicate();
            let ghost prefix = repo@;
            match repo.add_new_user(u) {
                Ok(()) => {},
                Err(e) => {
                    proof {
                        let row = rows@[k as int];
                        let j = choose|j: int| 0 <= j < prefix.len() && ((#[trigger] prefix[j]).username@ == row.username@
                            || prefix[j].email@ == row.email@ || prefix[j].id == row.id);
                        assert(rows@[j] == prefix[j]);
                        assert(!users_distinct(rows@)) by {
                            if users_distinct(rows@) {
                                assert(rows@[j].username@ != rows@[k as int].username@);
                            }
                        }
                    }
                    return Err(e);
                },
            }
            assert(repo@ =~= rows@.subrange(0, k + 1));
            k = k + 1;
        }
        assert(rows@.subrange(0, k as int) =~= rows@);
        if repo.last_id < last_id {
            repo.last_id = last_id;
        }
        Ok(repo)
    }

    /// Reserves a fresh id, above every id handed out before.
    pub fn next_user_id(&mut self) -> (r: Result<i64, AppError>)
        requires
            old(self).wf(),
        ensures
            final(self).wf(),
            final(self)@ == old(self)@,
            old(self).last_id() < i64::MAX ==> (r matches Ok(id) && id == old(self).last_id() + 1
                && final(self).last_id() == id),
            old(self).last_id() == i64::MAX ==> (r matches Err(e) && e is InternalError
                && detail_of(e) == "DB error"@ && final(self).last_id() == old(self).last_id()),
    {
        if self.last_id == i64::MAX {
            return Err(AppError::InternalError(String::from_str("DB error")));
        }
        self.last_id = self.last_id + 1;
        Ok(self.last_id)
    }

    /// The position of the user named `name`, if any.
    fn position_of_name(&self, name: &str) -> (r: Option<usize>)
        ensures
            r matches Some(k) ==> k < self@.len() && self@[k as int].username@ == name@,
            r is None ==> !username_taken(self@, name@),
    {
        let target = String::from_str(name);
        let mut k: usize = 0;
        while k < self.users.len()
            invariant
                k <= self.users@.len(),
                target@ == name@,
                forall|j: int| 0 <= j < k ==> (#[trigger] self.users@[j]).username@ != name@,
            decreases self.users@.len() - k,
        {
            if self.users[k].username == target {
                return Some(k);
            }
            k = k + 1;
        }
        None
    }

    /// Whether some user has the email `email`.
    fn has_email(&self, email: &String) -> (r: bool)
        ensures
            r == email_taken(self@, email@),
    {
        let mut k: usize = 0;
        while k < self.users.len()
            invariant
                k <= self.users@.len(),
                forall|j: int| 0 <= j < k ==> (#[trigger] self.users@[j]).email@ != email@,
            decreases self.users@.len() - k,
        {
            if self.users[k].email == *email {
                return true;
            }
            k = k + 1;
        }
        false
    }

    /// Whether some user has the id `id`.
    fn has_id(&self, id: i64) -> (r: bool)
        ensures
            r == exists|k: int| 0 <= k < self@.len() && (#[trigger] self@[k]).id == id,
    {
        let mut k: usize = 0;
        while k < self.users.len()
            invariant
                k <= self.users@.len(),
                forall|j: int| 0 <= j < k ==> (#[trigger] self.users@[j]).id != id,
            decreases self.users@.len() - k,
        {
            if self.users[k].id == id {
                assert(self@[k as int].id == id);
                return true;
            }
            k = k + 1;
        }
        false
    }

    /// Whether a user with this name or this email exists.
    pub fn is_taken(&self, username: &String, email: &String) -> (r: bool)
        ensures
            r == (username_taken(self@, username@) || email_taken(self@, email@)),
    {
        self.position_of_name(username.as_str()).is_some() || self.has_email(email)
    }

    /// Persists `user`. A clash of name or email is `AlreadyExists`, naming
    /// the user; a clash of id is an internal error. Nothing changes on error.
    pub fn add_new_user(&mut self, user: User) -> (r: Result<(), AppError>)
        requires
            old(self).wf(),
        ensures
            final(self).wf(),
            final(self).last_id() >= old(self).last_id(),
            username_taken(old(self)@, user.username@) || email_taken(old(self)@, user.email@) ==> (
            r matches Err(e) && e is AlreadyExists && detail_of(e) == user_label(user.username@, user.email@)),
            r is Ok <==> !username_taken(old(self)@, user.username@) && !email_taken(old(self)@, user.email@)
                && !(exists|k: int| 0 <= k < old(self)@.len() && (#[trigger] old(self)@[k]).id == user.id),
            r is Ok ==> final(self)@ == old(self)@.push(user),
            r matches Err(e) && e is AlreadyExists ==> username_taken(old(self)@, user.username@) || email_taken(
                old(self)@,
                user.email@,
            ),
            r matches Err(e) ==> e is AlreadyExists || e is InternalError,
            r is Err ==> final(self)@ == old(self)@ && final(self).last_id() == old(self).last_id(),
    {
        if self.is_taken(&user.username, &user.email) {
            return Err(AppError::AlreadyExists(user.label()));
        }
        if self.has_id(user.id) {
            return Err(AppError::InternalError(String::from_str("DB error")));
        }
        if user.id > self.last_id {
            self.last_id = user.id;
        }
        let ghost before = self.users@;
        self.users.push(user);
        assert forall|i: int, j: int|
            0 <= i < self@.len() && 0 <= j < self@.len() && i != j implies {
                &&& (#[trigger] self@[i]).username@ != (#[trigger] self@[j]).username@
                &&& self@[i].email@ != self@[j].email@
                &&& self@[i].id != self@[j].id
            } by {
            if i == before.len() {
                assert(self@[j] == before[j]);
            } else if j == before.len() {
                assert(self@[i] == before[i]);
            }
        }
        Ok(())
    }

    /// The user named `username`, or `UserNotFound` naming it.
    pub fn get_user(&self, username: &str) -> (r: Result<User, AppError>)
        requires
            self.wf(),
        ensures
            r matches Ok(u) ==> u == user_named(self@, username@) && u.username@ == username@,
            r is Err <==> !username_taken(self@, username@),
            r matches Err(e) ==> e is UserNotFound && detail_of(e) == username@,
    {
        match self.position_of_name(username) {
            Some(k) => {
                let u = self.users[k].duplicate();
                let ghost c = choose|c: int| 0 <= c < self@.len() && (#[trigger] self@[c]).username@ == username@;
                assert(self@[k as int].username@ == username@);
                assert(c == k as int) by {
                    if c != k as int {
                        assert(self@[c].username@ != self@[k as int].username@);
                    }
                }
                Ok(u)
            },
            None => Err(AppError::UserNotFound(String::from_str(username))),
        }
    }
}

} // verus!
