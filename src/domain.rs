//! The two entities: users and their posts.

use vstd::prelude::*;
use crate::clock::now_micros;
use crate::error::{AppError, detail_of};
use crate::hash::{argon2_accepts, hash_password, verify_password, MAX_PASSWORD_CHARS};

verus! {

/// A registered account. `created_at` is in microseconds since the epoch.
/// It has no `Debug`, so that the hash is never printed.
pub struct User {
    pub id: i64,
    pub username: String,
    pub email: String,
    pub password_hash: String,
    pub created_at: i64,
}

/// An authored post. Both instants are in microseconds since the epoch.
#[derive(Debug)]
pub struct Post {
    pub id: i64,
    pub title: String,
    pub content: String,
    pub author_id: i64,
    pub created_at: i64,
    pub updated_at: i64,
}

/// `new` when given, else `current`.
pub open spec fn replaced(current: String, new: Option<String>) -> String {
    match new {
        Some(v) => v,
        None => current,
    }
}

/// The post after an update: unchanged when nothing is supplied; otherwise
/// the supplied fields replaced and `updated_at` set to `now`.
pub open spec fn updated_post(p: Post, title: Option<String>, content: Option<String>, now: i64) -> Post {
    if title is None && content is None {
        p
    } else {
        Post {
            id: p.id,
            title: replaced(p.title, title),
            content: replaced(p.content, content),
            author_id: p.author_id,
            created_at: p.created_at,
            updated_at: now,
        }
    }
}

/// The text that names a user in messages: name and email, never the hash.
pub open spec fn user_label(username: Seq<char>, email: Seq<char>) -> Seq<char> {
    "User: name: "@ + username + ", email: "@ + email
}

/// The text that names a user with this name and email in messages.
pub fn label_of(username: &str, email: &str) -> (r: String)
    ensures
        r@ == user_label(username@, email@),
{
    let mut r = String::from_str("User: name: ");
    r.append(username);
    r.append(", email: ");
    r.append(email);
    r
}

impl User {
    /// A new user whose hash is that of `password`, created now.
    pub fn create(id: i64, username: String, email: String, password: String) -> (r: Result<User, AppError>)
        ensures
            r matches Ok(u) ==> u.id == id && u.username == username && u.email == email
                && argon2_accepts(password@, u.password_hash@),
            r matches Err(e) ==> e is InternalError && detail_of(e) == "Can't hash password"@,
            password@.len() <= MAX_PASSWORD_CHARS ==> r is Ok,
    {
        let password_hash = match hash_password(password.as_str()) {
            Ok(h) => h,
            Err(_) => {
                return Err(AppError::InternalError(String::from_str("Can't hash password")));
            },
        };
        Ok(User { id, username, email, password_hash, created_at: now_micros() })
    }

    /// Succeeds exactly when `password` matches the stored hash; otherwise
    /// the caller is unauthorized, and the error names the user.
    pub fn verify_user(&self, password: &str) -> (r: Result<(), AppError>)
        ensures
            r is Ok <==> argon2_accepts(password@, self.password_hash@),
            r matches Err(e) ==> e is Unauthorized && detail_of(e) == self.username@,
    {
        match verify_password(password, self.password_hash.as_str()) {
            Ok(()) => Ok(()),
            Err(_) => Err(AppError::Unauthorized(self.username.clone())),
        }
    }

    /// The user as named in messages: name and email.
    pub fn label(&self) -> (r: String)
        ensures
            r@ == user_label(self.username@, self.email@),
    {
        label_of(self.username.as_str(), self.email.as_str())
    }

    /// A field-by-field copy.
    pub fn duplicate(&self) -> (r: User)
        ensures
            r == *self,
    {
        User {
            id: self.id,
            username: self.username.clone(),
            email: self.email.clone(),
            password_hash: self.password_hash.clone(),
            created_at: self.created_at,
        }
    }
}

impl Post {
    /// A new post stamped with the current instant, both timestamps equal.
    pub fn create(id: i64, title: String, content: String, author_id: i64) -> (r: Post)
        ensures
            r.id == id && r.title == title && r.content == content && r.author_id == author_id,
            r.created_at == r.updated_at,
    {
        Post::create_at(id, title, content, author_id, now_micros())
    }

    /// A new post stamped with `now`.
    pub fn create_at(id: i64, title: String, content: String, author_id: i64, now: i64) -> (r: Post)
        ensures
            r == (Post { id, title, content, author_id, created_at: now, updated_at: now }),
    {
        Post { id, title, content, author_id, created_at: now, updated_at: now }
    }

    /// Applies an update at the current instant.
    pub fn update(&mut self, new_title: Option<String>, new_content: Option<String>)
        ensures
            exists|now: i64| *final(self) == updated_post(*old(self), new_title, new_content, now),
            new_title is None && new_content is None ==> *final(self) == *old(self),
    {
        let now = now_micros();
        self.update_at(new_title, new_content, now);
    }

    /// Applies an update at `now`: the supplied fields are replaced, and
    /// `updated_at` moves to `now` only when at least one was supplied.
    pub fn update_at(&mut self, new_title: Option<String>, new_content: Option<String>, now: i64)
        ensures
            *final(self) == updated_post(*old(self), new_title, new_content, now),
    {
        if new_title.is_some() || new_content.is_some() {
            self.updated_at = now;
        }
        if let Some(title) = new_title {
            self.title = title;
        }
        if let Some(content) = new_content {
            self.content = content;
        }
    }

    /// A field-by-field copy.
    pub fn duplicate(&self) -> (r: Post)
        ensures
            r == *self,
    {
        Post {
            id: self.id,
            title: self.title.clone(),
            content: self.content.clone(),
            author_id: self.author_id,
            created_at: self.created_at,
            updated_at: self.updated_at,
        }
    }
}

/// An update that supplies nothing leaves the post as it was, `updated_at`
/// included; one that supplies only a title changes the title and
/// `updated_at` and nothing else.
pub proof fn lemma_update_semantics(p: Post, title: String, now: i64)
    ensures
        updated_post(p, None, None, now) == p,
        ({
            let q = updated_post(p, Some(title), None, now);
            &&& q.title == title
            &&& q.updated_at == now
            &&& q.id == p.id
            &&& q.content == p.content
            &&& q.author_id == p.author_id
            &&& q.created_at == p.created_at
        }),
{
}

} // verus!
