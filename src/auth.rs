//! Registration and login: accounts in, bearer tokens out.

use vstd::prelude::*;
use crate::domain::{User, user_label, label_of};
use crate::error::{AppError, detail_of};
use crate::hash::{argon2_accepts, MAX_PASSWORD_CHARS};
use crate::jwt::{JwtService, carries};
use crate::users::{UserRepository, username_taken, email_taken, user_named, users_distinct};

verus! {

/// A registration request. It has no `Debug`, so that the password is
/// never printed.
#[derive(Clone, Default)]
pub struct RegisterUserReq {
    pub username: String,
    pub email: String,
    pub password: String,
}

/// What registration and login hand back.
#[derive(Debug, Clone, Default)]
pub struct RegisteredUser {
    pub token: String,
}

/// A login request, without `Debug` for the same reason.
#[derive(Clone, Default)]
pub struct LoginUserReq {
    pub username: String,
    pub password: String,
}


/// `after` is `before` with one user added, under id `id`, with this name
/// and email and a hash of `password`; `token` was issued for that user.
pub open spec fn registered(
    before: Seq<User>,
    after: Seq<User>,
    id: int,
    username: Seq<char>,
    email: Seq<char>,
    password: Seq<char>,
    jwt: JwtService,
    token: Seq<char>,
) -> bool {
    exists|u: User| {
        &&& after == #[trigger] before.push(u)
        &&& u.id == id
        &&& u.username@ == username
        &&& u.email@ == email
        &&& argon2_accepts(password, u.password_hash@)
        &&& carries(jwt, token, u.username@, u.email@, u.id as int)
    }
}

/// The user named `username` exists, `password` matches its hash, and
/// `token` was issued for that user.
pub open spec fn logged_in(users: Seq<User>, username: Seq<char>, password: Seq<char>, jwt: JwtService, token: Seq<char>) -> bool {
    let u = user_named(users, username);
    &&& username_taken(users, username)
    &&& argon2_accepts(password, u.password_hash@)
    &&& carries(jwt, token, u.username@, u.email@, u.id as int)
}

/// Orchestrates registration and login over the user store.
pub struct AuthService {
    pub jwt_service: JwtService,
    pub user_repo: UserRepository,
}

impl AuthService {
    pub fn new(jwt_service: JwtService, user_repo: UserRepository) -> (r: AuthService)
        ensures
            r.jwt_service == jwt_service,
            r.user_repo == user_repo,
    {
        AuthService { jwt_service, user_repo }
    }

    /// Registers a user and hands back a token for them. A name or email
    /// already in use is `AlreadyExists` and changes nothing. Otherwise the
    /// user is stored (with a fresh id and a hash of the password) before the
    /// token is issued; failures there are internal errors.
    pub fn register(&mut self, reg_req: RegisterUserReq) -> (r: Result<RegisteredUser, AppError>)
        requires
            old(self).user_repo.wf(),
        ensures
            final(self).user_repo.wf(),
            final(self).jwt_service == old(self).jwt_service,
            username_taken(old(self).user_repo@, reg_req.username@) || email_taken(old(self).user_repo@, reg_req.email@)
                ==> (r matches Err(e) && e is AlreadyExists
                    && detail_of(e) == user_label(reg_req.username@, reg_req.email@)
                    && final(self).user_repo@ == old(self).user_repo@),
            r matches Err(e) ==> e is AlreadyExists || e is InternalError,
            r matches Err(e) ==> detail_of(e) == user_label(reg_req.username@, reg_req.email@)
                || detail_of(e) == "DB error"@ || detail_of(e) == "Can't hash password"@,
            r matches Err(e) && e is AlreadyExists ==> username_taken(old(self).user_repo@, reg_req.username@)
                || email_taken(old(self).user_repo@, reg_req.email@),
            !username_taken(old(self).user_repo@, reg_req.username@) && !email_taken(old(self).user_repo@, reg_req.email@)
                && old(self).user_repo.last_id() == i64::MAX ==> (r matches Err(e) && e is InternalError
                && final(self).user_repo@ == old(self).user_repo@),
            !username_taken(old(self).user_repo@, reg_req.username@) && !email_taken(old(self).user_repo@, reg_req.email@)
                && old(self).user_repo.last_id() < i64::MAX && reg_req.password@.len() <= MAX_PASSWORD_CHARS ==> r is Ok,
            r matches Ok(reg) ==> registered(old(self).user_repo@, final(self).user_repo@,
                old(self).user_repo.last_id() + 1, reg_req.username@, reg_req.email@, reg_req.password@,
                final(self).jwt_service, reg.token@),
    {
        if self.user_repo.is_taken(&reg_req.username, &reg_req.email) {
            return Err(AppError::AlreadyExists(label_of(reg_req.username.as_str(), reg_req.email.as_str())));
        }
        assert(forall|k: int| 0 <= k < self.user_repo@.len() ==> (#[trigger] self.user_repo@[k]).id <= old(self).user_repo.last_id());
        let id = match self.user_repo.next_user_id() {
            Ok(id) => id,
            Err(e) => {
                return Err(e);
            },
        };
        let username = reg_req.username.clone();
        let email = reg_req.email.clone();
        let user = match User::create(id, reg_req.username, reg_req.email, reg_req.password) {
            Ok(u) => u,
            Err(e) => {
                return Err(e);
            },
        };
        let ghost stored = user;
        assert(forall|k: int| 0 <= k < self.user_repo@.len() ==> (#[trigger] self.user_repo@[k]).id != id);
        match self.user_repo.add_new_user(user) {
            Ok(()) => {},
            Err(e) => {
                return Err(e);
            },
        }
        let token = match self.jwt_service.generate_token(username.as_str(), email.as_str(), id) {
            Ok(t) => t,
            Err(e) => {
                return Err(e);
            },
        };
        assert(final(self).user_repo@ == old(self).user_repo@.push(stored));
        Ok(RegisteredUser { token })
    }

    /// Logs a user in: an unknown name is `UserNotFound`, a wrong password
    /// `Unauthorized`, both naming the user; otherwise a token for them.
    pub fn login(&self, log_req: LoginUserReq) -> (r: Result<RegisteredUser, AppError>)
        requires
            self.user_repo.wf(),
        ensures
            !username_taken(self.user_repo@, log_req.username@) ==> (r matches Err(e) && e is UserNotFound
                && detail_of(e) == log_req.username@),
            username_taken(self.user_repo@, log_req.username@) && !argon2_accepts(
                log_req.password@,
                user_named(self.user_repo@, log_req.username@).password_hash@,
            ) ==> (r matches Err(e) && e is Unauthorized && detail_of(e) == log_req.username@),
            r is Ok <==> username_taken(self.user_repo@, log_req.username@) && argon2_accepts(
                log_req.password@,
                user_named(self.user_repo@, log_req.username@).password_hash@,
            ),
            r matches Err(e) ==> (e is UserNotFound || e is Unauthorized) && detail_of(e) == log_req.username@,
            r matches Ok(reg) ==> logged_in(self.user_repo@, log_req.username@, log_req.password@,
                self.jwt_service, reg.token@),
    {
        let user = match self.user_repo.get_user(log_req.username.as_str()) {
            Ok(u) => u,
            Err(e) => {
                return Err(e);
            },
        };
        match user.verify_user(log_req.password.as_str()) {
            Ok(()) => {},
            Err(e) => {
                return Err(e);
            },
        }
        let token = match self.jwt_service.generate_token(user.username.as_str(), user.email.as_str(), user.id) {
            Ok(t) => t,
            Err(e) => {
                return Err(e);
            },
        };
        Ok(RegisteredUser { token })
    }
}

/// After a registration succeeds, a second one with the same name or the
/// same email meets a taken identity, which `AuthService::register` refuses
/// with `AlreadyExists`, leaving the store (and so the first user) as it was.
pub proof fn lemma_second_register_refused(
    before: Seq<User>,
    after: Seq<User>,
    id: int,
    username: Seq<char>,
    email: Seq<char>,
    password: Seq<char>,
    jwt: JwtService,
    token: Seq<char>,
    username2: Seq<char>,
    email2: Seq<char>,
)
    requires
        registered(before, after, id, username, email, password, jwt, token),
        username2 == username || email2 == email,
    ensures
        username_taken(after, username2) || email_taken(after, email2),
        before.is_prefix_of(after),
{
    let u = choose|u: User| {
        &&& after == #[trigger] before.push(u)
        &&& u.id == id
        &&& u.username@ == username
        &&& u.email@ == email
        &&& argon2_accepts(password, u.password_hash@)
        &&& carries(jwt, token, u.username@, u.email@, u.id as int)
    };
    assert(after[before.len() as int] == u);
    assert(before =~= after.subrange(0, before.len() as int));
}

/// After a registration succeeds, the stored user under that name is the
/// one just registered, so logging in with the same name and password is
/// owed success (see `AuthService::login`).
pub proof fn lemma_login_after_register(
    before: Seq<User>,
    after: Seq<User>,
    id: int,
    username: Seq<char>,
    email: Seq<char>,
    password: Seq<char>,
    jwt: JwtService,
    token: Seq<char>,
)
    requires
        registered(before, after, id, username, email, password, jwt, token),
        users_distinct(after),
    ensures
        username_taken(after, username),
        argon2_accepts(password, user_named(after, username).password_hash@),
        user_named(after, username).id == id,
        carries(jwt, token, username, email, id),
{
    let u = choose|u: User| {
        &&& after == #[trigger] before.push(u)
        &&& u.id == id
        &&& u.username@ == username
        &&& u.email@ == email
        &&& argon2_accepts(password, u.password_hash@)
        &&& carries(jwt, token, u.username@, u.email@, u.id as int)
    };
    let last = before.len() as int;
    assert(after[last] == u);
    assert(username_taken(after, username));
    let k = choose|k: int| 0 <= k < after.len() && (#[trigger] after[k]).username@ == username;
    if k != last {
        assert(after[k].username@ != after[last].username@);
    }
}

} // verus!
