use blog_core::auth::{LoginUserReq, RegisterUserReq, RegisteredUser};
use blog_core::blog::{AuthUser, GetPostsReq, NewPost, PostId, UpdatePost};
use blog_core::config::SecretConfig;
use blog_core::error::{AppError, GrpcCode};
use blog_core::grpc::{self, BlogGrpcService, CreatePostRequest, DeletePostRequest, LoginRequest, RegisterRequest, UpdatePostRequest};
use blog_core::http;
use blog_core::state::AppState;

fn fresh() -> AppState {
    AppState::new(&SecretConfig { jwt_secret: "scenario-secret".to_string() })
}

fn register(state: &mut AppState, name: &str, email: &str, password: &str) -> Result<(u16, RegisteredUser), AppError> {
    http::register(
        state,
        RegisterUserReq { username: name.to_string(), email: email.to_string(), password: password.to_string() },
    )
}

fn bearer(token: &str) -> String {
    format!("Bearer {token}")
}

fn wait_a_moment() {
    let start = chrono::Utc::now().timestamp_micros();
    while chrono::Utc::now().timestamp_micros() < start + 2_000 {}
}

fn hello() -> NewPost {
    NewPost { title: "hello".to_string(), content: "world".to_string() }
}

#[test]
fn register_then_login() {
    let mut s = fresh();
    let (status, t1) = register(&mut s, "alice", "a@x", "p1").unwrap();
    assert_eq!(status, 201);
    let (status, t2) = http::login(&s, LoginUserReq { username: "alice".into(), password: "p1".into() }).unwrap();
    assert_eq!(status, 200);
    for t in [t1.token, t2.token] {
        let c = s.jwt_service.verify_token(&t).unwrap();
        assert_eq!((c.id, c.username.as_str(), c.email.as_str()), (1, "alice", "a@x"));
        assert!(!t.contains("p1"));
    }
}

#[test]
fn duplicate_register() {
    let mut s = fresh();
    register(&mut s, "alice", "a@x", "p1").unwrap();
    let e = register(&mut s, "alice", "a@x", "p1").unwrap_err();
    let reply = e.error_response();
    assert_eq!(reply.status, 409);
    assert!(reply.body.starts_with("{\"error\":\"User already exists: "));
    assert!(reply.body.ends_with(",\"status\":409}"));
    assert!(!reply.body.contains("p1"));
    let (_, t) = http::login(&s, LoginUserReq { username: "alice".into(), password: "p1".into() }).unwrap();
    assert_eq!(s.jwt_service.verify_token(&t.token).unwrap().id, 1);
}

#[test]
fn create_and_fetch() {
    let mut s = fresh();
    let (_, t1) = register(&mut s, "alice", "a@x", "p1").unwrap();
    let h = bearer(&t1.token);
    let (status, info) = http::create_post(&mut s, Some(&h), hello()).unwrap();
    assert_eq!(status, 201);
    assert_eq!((info.id, info.title.as_str(), info.content.as_str(), info.author_id), (1, "hello", "world", 1));
    assert_eq!(info.created_at, info.updated_at);
    assert!(chrono::DateTime::parse_from_rfc3339(&info.created_at).is_ok());
    let (status, got) = http::get_post(&s, PostId { id: 1 }).unwrap();
    assert_eq!(status, 200);
    assert_eq!((got.id, got.title, got.content, got.author_id), (1, "hello".to_string(), "world".to_string(), 1));
    assert_eq!((got.created_at, got.updated_at), (info.created_at, info.updated_at));
    let e = http::create_post(&mut s, None, hello()).unwrap_err();
    assert_eq!(e.http_status(), 401);
    let e = http::create_post(&mut s, Some("Bearer nonsense"), hello()).unwrap_err();
    assert_eq!(e.http_status(), 401);
}

#[test]
fn ownership() {
    let mut s = fresh();
    let (_, t1) = register(&mut s, "alice", "a@x", "p1").unwrap();
    http::create_post(&mut s, Some(&bearer(&t1.token)), hello()).unwrap();
    let (_, t3) = register(&mut s, "bob", "b@x", "p2").unwrap();
    let patch = UpdatePost { title: Some("hijack".into()), content: None };
    let e = http::update_post(&mut s, Some(&bearer(&t3.token)), PostId { id: 1 }, patch).unwrap_err();
    assert_eq!(e.http_status(), 401);
    let e = http::delete_post(&mut s, Some(&bearer(&t3.token)), PostId { id: 1 }).unwrap_err();
    assert_eq!(e.http_status(), 401);
    assert_eq!(http::get_post(&s, PostId { id: 1 }).unwrap().1.title, "hello");
    assert_eq!(http::delete_post(&mut s, Some(&bearer(&t1.token)), PostId { id: 1 }).unwrap(), 204);
    assert_eq!(http::get_post(&s, PostId { id: 1 }).unwrap_err().http_status(), 404);
}

#[test]
fn update_and_list_ordering() {
    let mut s = fresh();
    let (_, t1) = register(&mut s, "alice", "a@x", "p1").unwrap();
    let h = bearer(&t1.token);
    http::create_post(&mut s, Some(&h), hello()).unwrap();
    wait_a_moment();
    let second = NewPost { title: "second".into(), content: "post".into() };
    http::create_post(&mut s, Some(&h), second).unwrap();
    let ids = |s: &AppState| {
        let (status, resp) = http::get_posts(s, GetPostsReq { offset: Some(0), limit: Some(10) }).unwrap();
        assert_eq!(status, 200);
        assert_eq!((resp.offset, resp.limit), (0, 10));
        resp.posts.iter().map(|p| p.id).collect::<Vec<_>>()
    };
    assert_eq!(ids(&s), vec![2, 1]);
    wait_a_moment();
    let patch = UpdatePost { title: None, content: Some("v2".into()) };
    let (status, info) = http::update_post(&mut s, Some(&h), PostId { id: 1 }, patch).unwrap();
    assert_eq!(status, 200);
    assert_eq!((info.title.as_str(), info.content.as_str()), ("hello", "v2"));
    let created = chrono::DateTime::parse_from_rfc3339(&info.created_at).unwrap();
    let updated = chrono::DateTime::parse_from_rfc3339(&info.updated_at).unwrap();
    assert!(updated > created);
    assert_eq!(ids(&s), vec![1, 2]);
}

#[test]
fn grpc_parity() {
    let mut s = fresh();
    let svc = BlogGrpcService::new();
    let reg = svc
        .register(&mut s, RegisterRequest { username: "carol".into(), email: "c@x".into(), password: "p".into() })
        .unwrap();
    assert_eq!(s.jwt_service.verify_token(&reg.token).unwrap().username, "carol");
    let st = svc.get_post(&s, PostId { id: 999 }).unwrap_err();
    assert_eq!(st.code, GrpcCode::NotFound);
    let http_err = http::get_post(&s, PostId { id: 999 }).unwrap_err();
    assert_eq!(http_err.http_status(), 404);
    assert_eq!(http_err.grpc_code(), st.code);
}

#[test]
fn grpc_requests() {
    let mut s = fresh();
    let svc = BlogGrpcService::new();
    let reg = svc
        .register(&mut s, RegisterRequest { username: "carol".into(), email: "c@x".into(), password: "p".into() })
        .unwrap();
    let again = svc
        .register(&mut s, RegisterRequest { username: "carol".into(), email: "c@x".into(), password: "p".into() })
        .unwrap_err();
    assert_eq!(again.code, GrpcCode::AlreadyExists);
    assert!(svc.login(&s, LoginRequest { username: "carol".into(), password: "p".into() }).is_ok());
    let bad = svc.login(&s, LoginRequest { username: "carol".into(), password: "x".into() }).unwrap_err();
    assert_eq!(bad.code, GrpcCode::Unauthenticated);
    let none = svc.login(&s, LoginRequest { username: "dave".into(), password: "x".into() }).unwrap_err();
    assert_eq!(none.code, GrpcCode::NotFound);
    let missing = svc.create_post(&mut s, CreatePostRequest { reg_user: None, new_post: Some(hello()) }).unwrap_err();
    assert_eq!(missing.code, GrpcCode::FailedPrecondition);
    let bad_token = RegisteredUser { token: "x".into() };
    let invalid = svc
        .create_post(&mut s, CreatePostRequest { reg_user: Some(bad_token), new_post: Some(hello()) })
        .unwrap_err();
    assert_eq!(invalid.code, GrpcCode::Unauthenticated);
    let no_post = svc.create_post(&mut s, CreatePostRequest { reg_user: Some(reg.clone()), new_post: None }).unwrap_err();
    assert_eq!(no_post.code, GrpcCode::FailedPrecondition);
    let info = svc.create_post(&mut s, CreatePostRequest { reg_user: Some(reg.clone()), new_post: Some(hello()) }).unwrap();
    assert_eq!((info.id, info.author_id), (1, 1));
    let upd = UpdatePostRequest {
        reg_user: Some(reg.clone()),
        post_id: Some(PostId { id: 1 }),
        update_post: Some(UpdatePost { title: Some("t2".into()), content: None }),
    };
    assert_eq!(svc.update_post(&mut s, upd).unwrap().title, "t2");
    let page = svc.get_posts(&s, grpc::GetPostsReq { offset: 0, limit: 5 }).unwrap();
    assert_eq!(page.posts_info.len(), 1);
    assert_eq!(svc.get_posts(&s, grpc::GetPostsReq { offset: -1, limit: 5 }).unwrap_err().code, GrpcCode::Internal);
    let del = DeletePostRequest { reg_user: Some(reg), post_id: Some(PostId { id: 1 }) };
    assert!(svc.delete_post(&mut s, del).is_ok());
    assert_eq!(svc.get_post(&s, PostId { id: 1 }).unwrap_err().code, GrpcCode::NotFound);
}

#[test]
fn grpc_authenticated_variants() {
    let mut s = fresh();
    let svc = BlogGrpcService::new();
    let alice = AuthUser { username: "alice".into(), email: "a@x".into(), id: 1 };
    let bob = AuthUser { username: "bob".into(), email: "b@x".into(), id: 2 };
    assert_eq!(svc.create_post_as(&mut s, alice.clone(), None).unwrap_err().code, GrpcCode::FailedPrecondition);
    let info = svc.create_post_as(&mut s, alice.clone(), Some(hello())).unwrap();
    assert_eq!((info.id, info.author_id), (1, 1));
    let patch = || Some(UpdatePost { title: Some("hijack".into()), content: None });
    let missing = svc.update_post_as(&mut s, alice.clone(), None, patch()).unwrap_err();
    assert_eq!(missing.code, GrpcCode::FailedPrecondition);
    let absent = svc.update_post_as(&mut s, alice.clone(), Some(PostId { id: 7 }), patch()).unwrap_err();
    assert_eq!((absent.code, absent.message.as_str()), (GrpcCode::NotFound, "Post not found: 7"));
    let foreign = svc.update_post_as(&mut s, bob.clone(), Some(PostId { id: 1 }), patch()).unwrap_err();
    assert_eq!(foreign.code, GrpcCode::Unauthenticated);
    assert_eq!(svc.delete_post_as(&mut s, bob, Some(PostId { id: 1 })).unwrap_err().code, GrpcCode::Unauthenticated);
    assert_eq!(svc.get_post(&s, PostId { id: 1 }).unwrap().title, "hello");
    assert!(svc.delete_post_as(&mut s, alice, Some(PostId { id: 1 })).is_ok());
}

#[test]
fn surfaces_agree_on_foreign_update() {
    let mut s = fresh();
    let svc = BlogGrpcService::new();
    let (_, t1) = register(&mut s, "alice", "a@x", "p1").unwrap();
    http::create_post(&mut s, Some(&bearer(&t1.token)), hello()).unwrap();
    let (_, t3) = register(&mut s, "bob", "b@x", "p2").unwrap();
    let patch = || UpdatePost { title: Some("hijack".into()), content: None };
    let http_err = http::update_post(&mut s, Some(&bearer(&t3.token)), PostId { id: 1 }, patch()).unwrap_err();
    let req = UpdatePostRequest { reg_user: Some(t3), post_id: Some(PostId { id: 1 }), update_post: Some(patch()) };
    let grpc_err = svc.update_post(&mut s, req).unwrap_err();
    assert_eq!(http_err.http_status(), 401);
    assert_eq!(grpc_err.code, http_err.grpc_code());
    assert_eq!(grpc_err.message, http_err.to_string());
    let missing = UpdatePostRequest { reg_user: None, post_id: Some(PostId { id: 1 }), update_post: Some(patch()) };
    assert_eq!(svc.update_post(&mut s, missing).unwrap_err().code, GrpcCode::FailedPrecondition);
}
