//! The HTTP surface: each route as a function from the request's parts to
//! a success status with its body, or the domain error.

use vstd::prelude::*;
use crate::auth::{LoginUserReq, RegisterUserReq, RegisteredUser, registered, logged_in};
use crate::hash::{argon2_accepts, MAX_PASSWORD_CHARS};
use crate::blog::{
    create_outcome, update_outcome, delete_outcome, NewPost, PostId, PostInfo, PostResp, GetPostsReq, UpdatePost, AuthUser, shows, shows_all,
    or_default, DEFAULT_OFFSET, DEFAULT_LIMIT,
};
use crate::error::{AppError, detail_of};
use crate::jwt::token_claims_of;
use crate::middleware::{authenticate, bearer_of_header, authorized_as};
use crate::posts::{has_post, post_with, page_of};
use crate::state::AppState;
use crate::users::{username_taken, email_taken, user_named};

verus! {

/// The body of a reply, without its status.
pub open spec fn body_of<T>(r: Result<(u16, T), AppError>) -> Result<T, AppError> {
    match r {
        Ok(ok) => Ok(ok.1),
        Err(e) => Err(e),
    }
}

/// The outcome of a reply that has no body.
pub open spec fn unit_of(r: Result<u16, AppError>) -> Result<(), AppError> {
    match r {
        Ok(_) => Ok(()),
        Err(e) => Err(e),
    }
}

/// `POST /api/auth/register`: 201 with a token.
pub fn register(app_state: &mut AppState, req: RegisterUserReq) -> (r: Result<(u16, RegisteredUser), AppError>)
    requires
        old(app_state).wf(),
    ensures
        final(app_state).wf(),
        final(app_state).blog_service.post_repo@ == old(app_state).blog_service.post_repo@,
        final(app_state).jwt_service == old(app_state).jwt_service,
        r matches Ok(ok) ==> ok.0 == 201 && registered(old(app_state).auth_service.user_repo@,
            final(app_state).auth_service.user_repo@, old(app_state).auth_service.user_repo.last_id() + 1,
            req.username@, req.email@, req.password@, final(app_state).jwt_service, ok.1.token@),
        r matches Err(e) ==> e is AlreadyExists || e is InternalError,
        !username_taken(old(app_state).auth_service.user_repo@, req.username@) && !email_taken(
            old(app_state).auth_service.user_repo@,
            req.email@,
        ) && old(app_state).auth_service.user_repo.last_id() < i64::MAX && req.password@.len() <= MAX_PASSWORD_CHARS
            ==> r is Ok,
        username_taken(old(app_state).auth_service.user_repo@, req.username@) || email_taken(
            old(app_state).auth_service.user_repo@,
            req.email@,
        ) ==> (r matches Err(e) && e is AlreadyExists
            && final(app_state).auth_service.user_repo@ == old(app_state).auth_service.user_repo@),
{
    match app_state.auth_service.register(req) {
        Ok(reg) => Ok((201, reg)),
        Err(e) => Err(e),
    }
}

/// `POST /api/auth/login`: 200 with a token.
pub fn login(app_state: &AppState, req: LoginUserReq) -> (r: Result<(u16, RegisteredUser), AppError>)
    requires
        app_state.wf(),
    ensures
        r matches Ok(ok) ==> ok.0 == 200 && logged_in(app_state.auth_service.user_repo@, req.username@,
            req.password@, app_state.jwt_service, ok.1.token@),
        r is Ok <==> username_taken(app_state.auth_service.user_repo@, req.username@) && argon2_accepts(
            req.password@,
            user_named(app_state.auth_service.user_repo@, req.username@).password_hash@,
        ),
        !username_taken(app_state.auth_service.user_repo@, req.username@) ==> (r matches Err(e)
            && e is UserNotFound),
        username_taken(app_state.auth_service.user_repo@, req.username@) && !argon2_accepts(
            req.password@,
            user_named(app_state.auth_service.user_repo@, req.username@).password_hash@,
        ) ==> (r matches Err(e) && e is Unauthorized),
{
    match app_state.auth_service.login(req) {
        Ok(reg) => Ok((200, reg)),
        Err(e) => Err(e),
    }
}

/// `POST /api/posts`, behind the bearer filter: 201 with the new post.
pub fn create_post(app_state: &mut AppState, authorization: Option<&str>, new_post: NewPost) -> (r: Result<(u16, PostInfo), AppError>)
    requires
        old(app_state).wf(),
    ensures
        final(app_state).wf(),
        final(app_state).auth_service.user_repo@ == old(app_state).auth_service.user_repo@,
        bearer_of_header(authorization) is None ==> (r matches Err(e) && e is Unauthorized
            && detail_of(e) == "missing bearer"@),
        bearer_of_header(authorization) matches Some(t) && token_claims_of(old(app_state).jwt_service.key(), t) is None
            ==> (r matches Err(e) && e is Unauthorized && detail_of(e) == "invalid credentials"@),
        r is Err ==> final(app_state).blog_service.post_repo@ == old(app_state).blog_service.post_repo@,
        r matches Ok(ok) ==> ok.0 == 201,
        (r matches Err(e) && e is Unauthorized) || exists|u: AuthUser| {
            &&& #[trigger] authorized_as(old(app_state).jwt_service, authorization, u)
            &&& create_outcome(old(app_state).blog_service.post_repo@, final(app_state).blog_service.post_repo@,
                old(app_state).blog_service.post_repo.last_id(), u.id, new_post, body_of(r))
        },
{
    let caller = match authenticate(&app_state.jwt_service, authorization) {
        Ok(u) => u,
        Err(e) => {
            return Err(e);
        },
    };
    let ghost who = caller;
    match app_state.blog_service.create_post(caller, new_post) {
        Ok(info) => {
            assert(authorized_as(old(app_state).jwt_service, authorization, who));
            let r = Ok((201, info));
            assert(body_of(r) == Ok::<PostInfo, AppError>(info));
            r
        },
        Err(e) => {
            assert(authorized_as(old(app_state).jwt_service, authorization, who));
            let r = Err(e);
            assert(body_of::<PostInfo>(r) == Err::<PostInfo, AppError>(e));
            r
        },
    }
}

/// `GET /api/posts/{id}`, open to anyone: 200 with the post.
pub fn get_post(app_state: &AppState, post_id: PostId) -> (r: Result<(u16, PostInfo), AppError>)
    requires
        app_state.wf(),
    ensures
        has_post(app_state.blog_service.post_repo@, post_id.id) ==> (r matches Ok(ok) && ok.0 == 200
            && shows(ok.1, post_with(app_state.blog_service.post_repo@, post_id.id))),
        !has_post(app_state.blog_service.post_repo@, post_id.id) ==> (r matches Err(e) && e is PostNotFound),
{
    match app_state.blog_service.get_post(post_id) {
        Ok(info) => Ok((200, info)),
        Err(e) => Err(e),
    }
}

/// `PUT /api/posts/{id}`, behind the bearer filter: 200 with the post.
pub fn update_post(app_state: &mut AppState, authorization: Option<&str>, post_id: PostId, update: UpdatePost) -> (r: Result<(u16, PostInfo), AppError>)
    requires
        old(app_state).wf(),
    ensures
        final(app_state).wf(),
        final(app_state).auth_service.user_repo@ == old(app_state).auth_service.user_repo@,
        bearer_of_header(authorization) is None ==> (r matches Err(e) && e is Unauthorized
            && detail_of(e) == "missing bearer"@),
        bearer_of_header(authorization) matches Some(t) && token_claims_of(old(app_state).jwt_service.key(), t) is None
            ==> (r matches Err(e) && e is Unauthorized && detail_of(e) == "invalid credentials"@),
        r is Err ==> final(app_state).blog_service.post_repo@ == old(app_state).blog_service.post_repo@,
        r matches Ok(ok) ==> ok.0 == 200,
        (r matches Err(e) && e is Unauthorized) || exists|u: AuthUser| {
            &&& #[trigger] authorized_as(old(app_state).jwt_service, authorization, u)
            &&& update_outcome(old(app_state).blog_service.post_repo@, final(app_state).blog_service.post_repo@,
                u.id, post_id.id, update, body_of(r))
        },
{
    let caller = match authenticate(&app_state.jwt_service, authorization) {
        Ok(u) => u,
        Err(e) => {
            return Err(e);
        },
    };
    let ghost who = caller;
    match app_state.blog_service.update_post(caller, post_id, update) {
        Ok(info) => {
            assert(authorized_as(old(app_state).jwt_service, authorization, who));
            let r = Ok((200, info));
            assert(body_of(r) == Ok::<PostInfo, AppError>(info));
            r
        },
        Err(e) => {
            assert(authorized_as(old(app_state).jwt_service, authorization, who));
            let r = Err(e);
            assert(body_of::<PostInfo>(r) == Err::<PostInfo, AppError>(e));
            r
        },
    }
}

/// `DELETE /api/posts/{id}`, behind the bearer filter: 204, empty.
pub fn delete_post(app_state: &mut AppState, authorization: Option<&str>, post_id: PostId) -> (r: Result<u16, AppError>)
    requires
        old(app_state).wf(),
    ensures
        final(app_state).wf(),
        final(app_state).auth_service.user_repo@ == old(app_state).auth_service.user_repo@,
        bearer_of_header(authorization) is None ==> (r matches Err(e) && e is Unauthorized
            && detail_of(e) == "missing bearer"@),
        bearer_of_header(authorization) matches Some(t) && token_claims_of(old(app_state).jwt_service.key(), t) is None
            ==> (r matches Err(e) && e is Unauthorized && detail_of(e) == "invalid credentials"@),
        r is Err ==> final(app_state).blog_service.post_repo@ == old(app_state).blog_service.post_repo@,
        r matches Ok(status) ==> status == 204,
        (r matches Err(e) && e is Unauthorized) || exists|u: AuthUser| {
            &&& #[trigger] authorized_as(old(app_state).jwt_service, authorization, u)
            &&& delete_outcome(old(app_state).blog_service.post_repo@, final(app_state).blog_service.post_repo@,
                u.id, post_id.id, unit_of(r))
        },
{
    let caller = match authenticate(&app_state.jwt_service, authorization) {
        Ok(u) => u,
        Err(e) => {
            return Err(e);
        },
    };
    let ghost who = caller;
    match app_state.blog_service.delete_post(caller, post_id) {
        Ok(()) => {
            assert(authorized_as(old(app_state).jwt_service, authorization, who));
            let r = Ok(204);
            assert(unit_of(r) == Ok::<(), AppError>(()));
            r
        },
        Err(e) => {
            assert(authorized_as(old(app_state).jwt_service, authorization, who));
            let r = Err(e);
            assert(unit_of(r) == Err::<(), AppError>(e));
            r
        },
    }
}

/// `GET /api/posts?offset=&limit=`, open to anyone: 200 with a page.
pub fn get_posts(app_state: &AppState, query: GetPostsReq) -> (r: Result<(u16, PostResp), AppError>)
    requires
        app_state.wf(),
    ensures
        r is Ok <==> app_state.blog_service.get_posts_succeeds(query),
        r matches Ok(ok) ==> ok.0 == 200 && ok.1.offset == or_default(query.offset, DEFAULT_OFFSET)
            && ok.1.limit == or_default(query.limit, DEFAULT_LIMIT) && shows_all(
            ok.1.posts@,
            page_of(app_state.blog_service.post_repo@, ok.1.offset as int, ok.1.limit as int),
        ),
{
    match app_state.blog_service.get_posts(query) {
        Ok(resp) => Ok((200, resp)),
        Err(e) => Err(e),
    }
}

} // verus!
