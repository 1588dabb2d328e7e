//! The gRPC surface: `BlogService` methods over protocol messages. Mutating
//! messages carry the bearer token in `reg_user`; missing nested messages
//! are `FailedPrecondition`.

use vstd::prelude::*;
use crate::auth::{LoginUserReq, RegisterUserReq, RegisteredUser, registered, logged_in};
use crate::hash::{argon2_accepts, MAX_PASSWORD_CHARS};
use crate::blog::{self, create_outcome, update_outcome, delete_outcome, AuthUser, NewPost, PostId, PostInfo, UpdatePost, shows, shows_all};
use crate::error::{AppError, GrpcCode, GrpcStatus, code_of, message_of, code_for_status, status_of, lemma_surfaces_agree};
use crate::jwt::token_claims_of;
use crate::middleware::carried_by;
use crate::posts::{has_post, post_with, page_of};
use crate::domain::Post;
use crate::state::AppState;
use crate::users::{username_taken, email_taken, user_named};

verus! {

/// `Register`'s request.
#[derive(Clone, Default)]
pub struct RegisterRequest {
    pub username: String,
    pub email: String,
    pub password: String,
}

/// `Login`'s request.
#[derive(Clone, Default)]
pub struct LoginRequest {
    pub username: String,
    pub password: String,
}

/// `CreatePost`'s request.
#[derive(Debug, Clone, Default)]
pub struct CreatePostRequest {
    pub reg_user: Option<RegisteredUser>,
    pub new_post: Option<NewPost>,
}

/// `UpdatePost`'s request.
#[derive(Debug, Clone, Default)]
pub struct UpdatePostRequest {
    pub reg_user: Option<RegisteredUser>,
    pub post_id: Option<PostId>,
    pub update_post: Option<UpdatePost>,
}

/// `DeletePost`'s request.
#[derive(Debug, Clone, Default)]
pub struct DeletePostRequest {
    pub reg_user: Option<RegisteredUser>,
    pub post_id: Option<PostId>,
}

/// `GetPosts`'s request: both fields are always present on this surface.
#[derive(Debug, Clone, Copy, Default)]
pub struct GetPostsReq {
    pub offset: i64,
    pub limit: i64,
}

/// `GetPosts`'s response.
#[derive(Debug, Clone, Default)]
pub struct GetPostsResponse {
    pub offset: i64,
    pub limit: i64,
    pub posts_info: Vec<PostInfo>,
}

/// `reg_user` holds a token that carries `user`.
pub open spec fn token_holder(state: AppState, reg_user: Option<RegisteredUser>, user: AuthUser) -> bool {
    reg_user matches Some(ru) && carried_by(state.jwt_service, ru.token@, user)
}

/// A status for a surface-specific refusal.
fn status(code: GrpcCode, message: &str) -> (r: GrpcStatus)
    ensures
        r.code == code && r.message@ == message@,
{
    GrpcStatus { code, message: String::from_str(message) }
}

/// The caller named by the token in `reg_user`: no token is
/// `FailedPrecondition`, a token that does not verify `Unauthenticated`.
fn caller_of(app_state: &AppState, reg_user: &Option<RegisteredUser>) -> (r: Result<AuthUser, GrpcStatus>)
    ensures
        reg_user is None ==> (r matches Err(s) && s.code == GrpcCode::FailedPrecondition),
        reg_user matches Some(ru) && token_claims_of(app_state.jwt_service.key(), ru.token@) is None ==> (
        r matches Err(s) && s.code == GrpcCode::Unauthenticated),
        r matches Ok(u) ==> token_holder(*app_state, *reg_user, u),
        r matches Err(s) ==> reg_user is Some ==> s.code == GrpcCode::Unauthenticated,
{
    let ru = match reg_user {
        Some(ru) => ru,
        None => {
            return Err(status(GrpcCode::FailedPrecondition, "token not present"));
        },
    };
    match app_state.jwt_service.verify_token(ru.token.as_str()) {
        Some(claims) => Ok(AuthUser::from_claims(claims)),
        None => Err(status(GrpcCode::Unauthenticated, "Invalid token")),
    }
}

/// `r` is the gRPC form of the domain outcome `a`: the same value, or a
/// status with the error's code and human message.
pub open spec fn as_grpc<T>(r: Result<T, GrpcStatus>, a: Result<T, AppError>) -> bool {
    match a {
        Ok(v) => r == Ok::<T, GrpcStatus>(v),
        Err(e) => r matches Err(s) && s.code == code_of(e) && s.message@ == message_of(e),
    }
}

/// The gRPC form of a domain outcome.
fn to_grpc<T>(a: Result<T, AppError>) -> (r: Result<T, GrpcStatus>)
    ensures
        as_grpc(r, a),
{
    match a {
        Ok(v) => Ok(v),
        Err(e) => Err(e.to_grpc_status()),
    }
}

/// `CreatePost` on behalf of `caller`: a missing post is
/// `FailedPrecondition`; otherwise the domain outcome in gRPC form.
pub open spec fn grpc_create(
    before: Seq<Post>,
    after: Seq<Post>,
    last_id: int,
    caller: i64,
    new_post: Option<NewPost>,
    r: Result<PostInfo, GrpcStatus>,
) -> bool {
    match new_post {
        None => r matches Err(s) && s.code == GrpcCode::FailedPrecondition && after == before,
        Some(p) => exists|a: Result<PostInfo, AppError>|
            #[trigger] create_outcome(before, after, last_id, caller, p, a) && as_grpc(r, a),
    }
}

/// `UpdatePost` on behalf of `caller`: a missing patch or post id is
/// `FailedPrecondition`; otherwise the domain outcome in gRPC form.
pub open spec fn grpc_update(
    before: Seq<Post>,
    after: Seq<Post>,
    caller: i64,
    post_id: Option<PostId>,
    update: Option<UpdatePost>,
    r: Result<PostInfo, GrpcStatus>,
) -> bool {
    if post_id is None || update is None {
        r matches Err(s) && s.code == GrpcCode::FailedPrecondition && after == before
    } else {
        exists|a: Result<PostInfo, AppError>|
            #[trigger] update_outcome(before, after, caller, post_id.unwrap().id, update.unwrap(), a) && as_grpc(r, a)
    }
}

/// `DeletePost` on behalf of `caller`: a missing post id is
/// `FailedPrecondition`; otherwise the domain outcome in gRPC form.
pub open spec fn grpc_delete(before: Seq<Post>, after: Seq<Post>, caller: i64, post_id: Option<PostId>, r: Result<(), GrpcStatus>) -> bool {
    match post_id {
        None => r matches Err(s) && s.code == GrpcCode::FailedPrecondition && after == before,
        Some(id) => exists|a: Result<(), AppError>|
            #[trigger] delete_outcome(before, after, caller, id.id, a) && as_grpc(r, a),
    }
}

/// The surface without state of its own: every method works on the shared
/// state it is handed.
#[derive(Debug, Clone, Copy, Default)]
pub struct BlogGrpcService {}

impl BlogGrpcService {
    pub fn new() -> (r: BlogGrpcService) {
        BlogGrpcService {  }
    }

    pub fn register(&self, app_state: &mut AppState, in_req: RegisterRequest) -> (r: Result<RegisteredUser, GrpcStatus>)
        requires
            old(app_state).wf(),
        ensures
            final(app_state).wf(),
            final(app_state).blog_service.post_repo@ == old(app_state).blog_service.post_repo@,
            final(app_state).jwt_service == old(app_state).jwt_service,
            r matches Ok(reg) ==> registered(old(app_state).auth_service.user_repo@,
                final(app_state).auth_service.user_repo@, old(app_state).auth_service.user_repo.last_id() + 1,
                in_req.username@, in_req.email@, in_req.password@, final(app_state).jwt_service, reg.token@),
            r matches Err(s) ==> s.code == GrpcCode::AlreadyExists || s.code == GrpcCode::Internal,
            !username_taken(old(app_state).auth_service.user_repo@, in_req.username@) && !email_taken(
                old(app_state).auth_service.user_repo@,
                in_req.email@,
            ) && old(app_state).auth_service.user_repo.last_id() < i64::MAX && in_req.password@.len()
                <= MAX_PASSWORD_CHARS ==> r is Ok,
            username_taken(old(app_state).auth_service.user_repo@, in_req.username@) || email_taken(
                old(app_state).auth_service.user_repo@,
                in_req.email@,
            ) ==> (r matches Err(s) && s.code == GrpcCode::AlreadyExists
                && final(app_state).auth_service.user_repo@ == old(app_state).auth_service.user_repo@),
    {
        let req = RegisterUserReq { username: in_req.username, email: in_req.email, password: in_req.password };
        match app_state.auth_service.register(req) {
            Ok(reg) => Ok(reg),
            Err(e) => Err(e.to_grpc_status()),
        }
    }

    pub fn login(&self, app_state: &AppState, in_req: LoginRequest) -> (r: Result<RegisteredUser, GrpcStatus>)
        requires
            app_state.wf(),
        ensures
            r matches Ok(reg) ==> logged_in(app_state.auth_service.user_repo@, in_req.username@,
                in_req.password@, app_state.jwt_service, reg.token@),
            r is Ok <==> username_taken(app_state.auth_service.user_repo@, in_req.username@) && argon2_accepts(
                in_req.password@,
                user_named(app_state.auth_service.user_repo@, in_req.username@).password_hash@,
            ),
            !username_taken(app_state.auth_service.user_repo@, in_req.username@) ==> (r matches Err(s)
                && s.code == GrpcCode::NotFound),
            username_taken(app_state.auth_service.user_repo@, in_req.username@) && !argon2_accepts(
                in_req.password@,
                user_named(app_state.auth_service.user_repo@, in_req.username@).password_hash@,
            ) ==> (r matches Err(s) && s.code == GrpcCode::Unauthenticated),
    {
        let req = LoginUserReq { username: in_req.username, password: in_req.password };
        match app_state.auth_service.login(req) {
            Ok(reg) => Ok(reg),
            Err(e) => Err(e.to_grpc_status()),
        }
    }

    pub fn create_post(&self, app_state: &mut AppState, in_req: CreatePostRequest) -> (r: Result<PostInfo, GrpcStatus>)
        requires
            old(app_state).wf(),
        ensures
            final(app_state).wf(),
            final(app_state).auth_service.user_repo@ == old(app_state).auth_service.user_repo@,
            in_req.reg_user is None ==> (r matches Err(s) && s.code == GrpcCode::FailedPrecondition
                && final(app_state).blog_service.post_repo@ == old(app_state).blog_service.post_repo@),
            in_req.reg_user matches Some(ru) && token_claims_of(old(app_state).jwt_service.key(), ru.token@) is None
                ==> (r matches Err(s) && s.code == GrpcCode::Unauthenticated
                && final(app_state).blog_service.post_repo@ == old(app_state).blog_service.post_repo@),
            (r matches Err(s) && (in_req.reg_user is None || s.code == GrpcCode::Unauthenticated)
                && final(app_state).blog_service.post_repo@ == old(app_state).blog_service.post_repo@)
                || exists|u: AuthUser| #[trigger] token_holder(*old(app_state), in_req.reg_user, u)
                && grpc_create(old(app_state).blog_service.post_repo@, final(app_state).blog_service.post_repo@,
                old(app_state).blog_service.post_repo.last_id(), u.id, in_req.new_post, r),
    {
        let caller = match caller_of(app_state, &in_req.reg_user) {
            Ok(u) => u,
            Err(s) => {
                return Err(s);
            },
        };
        self.create_post_as(app_state, caller, in_req.new_post)
    }

    /// `CreatePost` for an authenticated caller.
    pub fn create_post_as(&self, app_state: &mut AppState, caller: AuthUser, new_post: Option<NewPost>) -> (r: Result<PostInfo, GrpcStatus>)
        requires
            old(app_state).wf(),
        ensures
            final(app_state).wf(),
            final(app_state).jwt_service == old(app_state).jwt_service,
            final(app_state).auth_service == old(app_state).auth_service,
            grpc_create(old(app_state).blog_service.post_repo@, final(app_state).blog_service.post_repo@,
                old(app_state).blog_service.post_repo.last_id(), caller.id, new_post, r),
    {
        let new_post = match new_post {
            Some(p) => p,
            None => {
                return Err(status(GrpcCode::FailedPrecondition, "new post not present"));
            },
        };
        let ghost p = new_post;
        let a = app_state.blog_service.create_post(caller, new_post);
        let ghost aa = a;
        let r = to_grpc(a);
        assert(create_outcome(old(app_state).blog_service.post_repo@, app_state.blog_service.post_repo@,
            old(app_state).blog_service.post_repo.last_id(), caller.id, p, aa) && as_grpc(r, aa));
        r
    }

    pub fn get_post(&self, app_state: &AppState, in_req: PostId) -> (r: Result<PostInfo, GrpcStatus>)
        requires
            app_state.wf(),
        ensures
            has_post(app_state.blog_service.post_repo@, in_req.id) ==> (r matches Ok(info) && shows(
                info,
                post_with(app_state.blog_service.post_repo@, in_req.id),
            )),
            !has_post(app_state.blog_service.post_repo@, in_req.id) ==> (r matches Err(s) && s.code
                == GrpcCode::NotFound),
    {
        match app_state.blog_service.get_post(in_req) {
            Ok(info) => Ok(info),
            Err(e) => Err(e.to_grpc_status()),
        }
    }

    pub fn update_post(&self, app_state: &mut AppState, in_req: UpdatePostRequest) -> (r: Result<PostInfo, GrpcStatus>)
        requires
            old(app_state).wf(),
        ensures
            final(app_state).wf(),
            final(app_state).auth_service.user_repo@ == old(app_state).auth_service.user_repo@,
            in_req.reg_user is None ==> (r matches Err(s) && s.code == GrpcCode::FailedPrecondition
                && final(app_state).blog_service.post_repo@ == old(app_state).blog_service.post_repo@),
            in_req.reg_user matches Some(ru) && token_claims_of(old(app_state).jwt_service.key(), ru.token@) is None
                ==> (r matches Err(s) && s.code == GrpcCode::Unauthenticated
                && final(app_state).blog_service.post_repo@ == old(app_state).blog_service.post_repo@),
            (r matches Err(s) && (in_req.reg_user is None || s.code == GrpcCode::Unauthenticated)
                && final(app_state).blog_service.post_repo@ == old(app_state).blog_service.post_repo@)
                || exists|u: AuthUser| #[trigger] token_holder(*old(app_state), in_req.reg_user, u)
                && grpc_update(old(app_state).blog_service.post_repo@, final(app_state).blog_service.post_repo@,
                u.id, in_req.post_id, in_req.update_post, r),
    {
        let caller = match caller_of(app_state, &in_req.reg_user) {
            Ok(u) => u,
            Err(s) => {
                return Err(s);
            },
        };
        self.update_post_as(app_state, caller, in_req.post_id, in_req.update_post)
    }

    /// `UpdatePost` for an authenticated caller.
    pub fn update_post_as(
        &self,
        app_state: &mut AppState,
        caller: AuthUser,
        post_id: Option<PostId>,
        update: Option<UpdatePost>,
    ) -> (r: Result<PostInfo, GrpcStatus>)
        requires
            old(app_state).wf(),
        ensures
            final(app_state).wf(),
            final(app_state).jwt_service == old(app_state).jwt_service,
            final(app_state).auth_service == old(app_state).auth_service,
            grpc_update(old(app_state).blog_service.post_repo@, final(app_state).blog_service.post_repo@,
                caller.id, post_id, update, r),
    {
        let update = match update {
            Some(p) => p,
            None => {
                return Err(status(GrpcCode::FailedPrecondition, "new post not present"));
            },
        };
        let post_id = match post_id {
            Some(p) => p,
            None => {
                return Err(status(GrpcCode::FailedPrecondition, "post id not present"));
            },
        };
        let ghost patch = update;
        let a = app_state.blog_service.update_post(caller, post_id, update);
        let ghost aa = a;
        let r = to_grpc(a);
        assert(update_outcome(old(app_state).blog_service.post_repo@, app_state.blog_service.post_repo@,
            caller.id, post_id.id, patch, aa) && as_grpc(r, aa));
        r
    }

    pub fn delete_post(&self, app_state: &mut AppState, in_req: DeletePostRequest) -> (r: Result<(), GrpcStatus>)
        requires
            old(app_state).wf(),
        ensures
            final(app_state).wf(),
            final(app_state).auth_service.user_repo@ == old(app_state).auth_service.user_repo@,
            in_req.reg_user is None ==> (r matches Err(s) && s.code == GrpcCode::FailedPrecondition
                && final(app_state).blog_service.post_repo@ == old(app_state).blog_service.post_repo@),
            in_req.reg_user matches Some(ru) && token_claims_of(old(app_state).jwt_service.key(), ru.token@) is None
                ==> (r matches Err(s) && s.code == GrpcCode::Unauthenticated
                && final(app_state).blog_service.post_repo@ == old(app_state).blog_service.post_repo@),
            (r matches Err(s) && (in_req.reg_user is None || s.code == GrpcCode::Unauthenticated)
                && final(app_state).blog_service.post_repo@ == old(app_state).blog_service.post_repo@)
                || exists|u: AuthUser| #[trigger] token_holder(*old(app_state), in_req.reg_user, u)
                && grpc_delete(old(app_state).blog_service.post_repo@, final(app_state).blog_service.post_repo@,
                u.id, in_req.post_id, r),
    {
        let caller = match caller_of(app_state, &in_req.reg_user) {
            Ok(u) => u,
            Err(s) => {
                return Err(s);
            },
        };
        self.delete_post_as(app_state, caller, in_req.post_id)
    }

    /// `DeletePost` for an authenticated caller.
    pub fn delete_post_as(&self, app_state: &mut AppState, caller: AuthUser, post_id: Option<PostId>) -> (r: Result<(), GrpcStatus>)
        requires
            old(app_state).wf(),
        ensures
            final(app_state).wf(),
            final(app_state).jwt_service == old(app_state).jwt_service,
            final(app_state).auth_service == old(app_state).auth_service,
            grpc_delete(old(app_state).blog_service.post_repo@, final(app_state).blog_service.post_repo@,
                caller.id, post_id, r),
    {
        let post_id = match post_id {
            Some(p) => p,
            None => {
                return Err(status(GrpcCode::FailedPrecondition, "post id not present"));
            },
        };
        let a = app_state.blog_service.delete_post(caller, post_id);
        let ghost aa = a;
        let r = to_grpc(a);
        assert(delete_outcome(old(app_state).blog_service.post_repo@, app_state.blog_service.post_repo@,
            caller.id, post_id.id, aa) && as_grpc(r, aa));
        r
    }

    pub fn get_posts(&self, app_state: &AppState, in_req: GetPostsReq) -> (r: Result<GetPostsResponse, GrpcStatus>)
        requires
            app_state.wf(),
        ensures
            in_req.offset >= 0 && in_req.limit >= 0 ==> (r matches Ok(resp) && resp.offset == in_req.offset
                && resp.limit == in_req.limit && shows_all(
                resp.posts_info@,
                page_of(app_state.blog_service.post_repo@, in_req.offset as int, in_req.limit as int),
            )),
            in_req.offset < 0 || in_req.limit < 0 ==> (r matches Err(s) && s.code == GrpcCode::Internal),
    {
        let query = blog::GetPostsReq { offset: Some(in_req.offset), limit: Some(in_req.limit) };
        match app_state.blog_service.get_posts(query) {
            Ok(resp) => Ok(GetPostsResponse { offset: resp.offset, limit: resp.limit, posts_info: resp.posts }),
            Err(e) => Err(e.to_grpc_status()),
        }
    }
}

/// One domain outcome shown on both surfaces agrees: the same value on
/// success; on failure the gRPC code is the one its HTTP status maps to, and
/// the status message is the human message the HTTP body carries.
pub proof fn lemma_surfaces_equivalent<T>(outcome: Result<T, AppError>, grpc: Result<T, GrpcStatus>)
    requires
        as_grpc(grpc, outcome),
    ensures
        outcome matches Ok(v) ==> grpc == Ok::<T, GrpcStatus>(v),
        outcome matches Err(e) ==> (grpc matches Err(s) && s.code == code_for_status(status_of(e))
            && s.message@ == message_of(e)),
{
    if let Err(e) = outcome {
        lemma_surfaces_agree(e);
    }
}

} // verus!
