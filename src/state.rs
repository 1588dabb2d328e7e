//! The shared state behind both wire surfaces.

use vstd::prelude::*;
use crate::auth::AuthService;
use crate::blog::BlogService;
use crate::config::SecretConfig;
use crate::jwt::JwtService;
use crate::posts::PostRepository;
use crate::users::UserRepository;

verus! {

/// The services and stores that every request works on.
pub struct AppState {
    pub jwt_service: JwtService,
    pub auth_service: AuthService,
    pub blog_service: BlogService,
}

impl AppState {
    /// Both stores are well formed and both services sign with one secret.
    pub open spec fn wf(&self) -> bool {
        &&& self.auth_service.user_repo.wf()
        &&& self.blog_service.post_repo.wf()
        &&& self.auth_service.jwt_service == self.jwt_service
    }

    /// Empty stores, and tokens signed with the configured secret.
    pub fn new(secret_config: &SecretConfig) -> (r: AppState)
        ensures
            r.wf(),
            r.jwt_service.key() == secret_config.jwt_secret@,
            r.auth_service.user_repo@ == Seq::<crate::domain::User>::empty(),
            r.blog_service.post_repo@ == Seq::<crate::domain::Post>::empty(),
    {
        let jwt_service = JwtService::new(secret_config);
        let auth_service = AuthService::new(jwt_service.clone_service(), UserRepository::new());
        let blog_service = BlogService::new(PostRepository::new());
        AppState { jwt_service, auth_service, blog_service }
    }
}

} // verus!
