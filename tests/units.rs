use blog_core::auth::{AuthService, LoginUserReq, RegisterUserReq};
use blog_core::blog::{AuthUser, BlogService, GetPostsReq, NewPost, PostId, UpdatePost};
use blog_core::clock::seconds_of;
use blog_core::client::{ClientError, ClientErrorKind};
use blog_core::config::{DbConfig, SecretConfig};
use blog_core::config::{db_url_from_params, parse_unsigned, Config, ConfigError, RawSettings};
use blog_core::domain::{Post, User};
use blog_core::error::{AppError, GrpcCode, GrpcStatus};
use blog_core::hash::{hash_password, verify_password};
use blog_core::jwt::{JwtService, TOKEN_LIFETIME_SECS};
use blog_core::middleware::{authenticate, bearer_token};
use blog_core::posts::PostRepository;
use blog_core::text::decimal_string;
use blog_core::users::UserRepository;

fn secret() -> SecretConfig {
    SecretConfig { jwt_secret: "test-secret".to_string() }
}

fn post(id: i64, updated_at: i64) -> Post {
    Post {
        id,
        title: format!("t{id}"),
        content: format!("c{id}"),
        author_id: 1,
        created_at: 0,
        updated_at,
    }
}

#[test]
fn decimal_rendering() {
    assert_eq!(decimal_string(0), "0");
    assert_eq!(decimal_string(42), "42");
    assert_eq!(decimal_string(-7), "-7");
    assert_eq!(decimal_string(i64::MAX), "9223372036854775807");
    assert_eq!(decimal_string(i64::MIN), "-9223372036854775808");
}

#[test]
fn error_statuses_and_codes() {
    let cases = [
        (AppError::AlreadyExists("a".into()), 409, GrpcCode::AlreadyExists),
        (AppError::Unauthorized("a".into()), 401, GrpcCode::Unauthenticated),
        (AppError::UserNotFound("a".into()), 404, GrpcCode::NotFound),
        (AppError::PostNotFound("a".into()), 404, GrpcCode::NotFound),
        (AppError::InternalError("a".into()), 500, GrpcCode::Internal),
    ];
    for (e, status, code) in cases {
        assert_eq!(e.http_status(), status);
        assert_eq!(e.grpc_code(), code);
        assert_eq!(e.to_grpc_status().code, code);
        assert_eq!(e.to_grpc_status().message, e.to_string());
    }
}

#[test]
fn grpc_status_carries_human_message() {
    let st = AppError::AlreadyExists("x".into()).to_grpc_status();
    assert_eq!(st.code, GrpcCode::AlreadyExists);
    assert_eq!(st.message, "User already exists: x");
}

#[test]
fn error_messages() {
    assert_eq!(AppError::AlreadyExists("x".into()).to_string(), "User already exists: x");
    assert_eq!(AppError::Unauthorized("x".into()).to_string(), "User unauthorized: x");
    assert_eq!(AppError::UserNotFound("x".into()).to_string(), "User not found: x");
    assert_eq!(AppError::PostNotFound("5".into()).to_string(), "Post not found: 5");
    assert_eq!(AppError::InternalError("x".into()).to_string(), "Internal server error: x");
}

#[test]
fn error_response_body() {
    let reply = AppError::AlreadyExists("bob".into()).error_response();
    assert_eq!(reply.status, 409);
    assert_eq!(reply.body, "{\"error\":\"User already exists: bob\",\"status\":409}");
    let reply = AppError::PostNotFound("say \"hi\"".into()).error_response();
    assert_eq!(reply.status, 404);
    assert_eq!(reply.body, "{\"error\":\"Post not found: say \\\"hi\\\"\",\"status\":404}");
}

#[test]
fn database_url() {
    let c = DbConfig {
        name: "blog".into(),
        user: "u".into(),
        host: "localhost".into(),
        port: 5432,
        pass: "pw".into(),
        max_connections: 5,
        min_connections: 1,
    };
    assert_eq!(db_url_from_params(&c), "postgresql://u:pw@localhost:5432/blog");
}

#[test]
fn password_hashes_differ_and_verify() {
    let h1 = hash_password("p1").unwrap();
    let h2 = hash_password("p1").unwrap();
    assert_ne!(h1, h2);
    assert!(verify_password("p1", &h1).is_ok());
    assert!(verify_password("p1", &h2).is_ok());
    assert!(verify_password("p2", &h1).is_err());
    assert!(verify_password("", &h2).is_err());
    assert!(verify_password("p1", "not a hash").is_err());
    assert!(!h1.contains("p1"));
}

#[test]
fn user_create_and_verify() {
    let u = User::create(3, "alice".into(), "a@x".into(), "p1".into()).unwrap();
    assert_eq!(u.id, 3);
    assert_eq!(u.username, "alice");
    assert!(u.verify_user("p1").is_ok());
    match u.verify_user("nope") {
        Err(AppError::Unauthorized(name)) => assert_eq!(name, "alice"),
        other => panic!("unexpected {other:?}"),
    }
    assert_eq!(u.label(), "User: name: alice, email: a@x");
}

#[test]
fn token_round_trip() {
    let jwt = JwtService::new(&secret());
    let token = jwt.generate_token("alice", "a@x", 1).unwrap();
    let claims = jwt.verify_token(&token).unwrap();
    assert_eq!(claims.username, "alice");
    assert_eq!(claims.email, "a@x");
    assert_eq!(claims.id, 1);
    let now = chrono::Utc::now().timestamp();
    assert!(claims.exp > now && claims.exp <= now + TOKEN_LIFETIME_SECS + 1);
}

#[test]
fn token_tamper_is_refused() {
    let jwt = JwtService::new(&secret());
    let token = jwt.generate_token("alice", "a@x", 1).unwrap();
    let bytes = token.as_bytes();
    for i in 0..bytes.len() {
        for bit in [1u8, 2, 4] {
            let mut t = bytes.to_vec();
            t[i] ^= bit;
            if let Ok(s) = String::from_utf8(t) {
                if s != token {
                    if let Some(c) = jwt.verify_token(&s) {
                        assert!(c.username == "alice" && c.id == 1, "tampered token gave other claims");
                    }
                }
            }
        }
    }
    for n in 0..token.len() {
        assert!(jwt.verify_token(&token[..n]).is_none());
    }
    let other = JwtService::new(&SecretConfig { jwt_secret: "other".into() });
    assert!(other.verify_token(&token).is_none());
}

#[test]
fn token_expiry() {
    let jwt = JwtService::new(&secret());
    let token = jwt.generate_token_at("alice", "a@x", 1, 1_000).unwrap();
    assert!(jwt.verify_token_at(&token, 1_000).is_some());
    assert!(jwt.verify_token_at(&token, 1_000 + TOKEN_LIFETIME_SECS).is_some());
    assert!(jwt.verify_token_at(&token, 1_001 + TOKEN_LIFETIME_SECS).is_none());
    assert!(jwt.verify_token(&token).is_none());
    match jwt.generate_token_at("alice", "a@x", 1, i64::MAX - 10) {
        Err(AppError::InternalError(m)) => assert_eq!(m, "Can't generate timestamp of jwt token"),
        other => panic!("unexpected {other:?}"),
    }
}

#[test]
fn bearer_header_shapes() {
    assert_eq!(bearer_token("Bearer abc"), Some("abc".to_string()));
    assert_eq!(bearer_token("Bearer "), Some(String::new()));
    assert_eq!(bearer_token("bearer abc"), None);
    assert_eq!(bearer_token("Basic abc"), None);
    assert_eq!(bearer_token("Bear"), None);
    let jwt = JwtService::new(&secret());
    match authenticate(&jwt, None) {
        Err(AppError::Unauthorized(m)) => assert_eq!(m, "missing bearer"),
        other => panic!("unexpected {other:?}"),
    }
    match authenticate(&jwt, Some("Bearer junk")) {
        Err(AppError::Unauthorized(m)) => assert_eq!(m, "invalid credentials"),
        other => panic!("unexpected {other:?}"),
    }
    let token = jwt.generate_token("bob", "b@x", 9).unwrap();
    let header = format!("Bearer {token}");
    let u = authenticate(&jwt, Some(&header)).unwrap();
    assert_eq!((u.username.as_str(), u.email.as_str(), u.id), ("bob", "b@x", 9));
}

#[test]
fn post_update_semantics() {
    let mut p = Post::create_at(1, "t".into(), "c".into(), 7, 100);
    assert_eq!((p.created_at, p.updated_at), (100, 100));
    p.update_at(None, None, 200);
    assert_eq!((p.title.as_str(), p.content.as_str(), p.updated_at), ("t", "c", 100));
    p.update_at(Some("t2".into()), None, 300);
    assert_eq!((p.title.as_str(), p.content.as_str(), p.updated_at, p.created_at), ("t2", "c", 300, 100));
    p.update_at(None, Some("c2".into()), 400);
    assert_eq!((p.title.as_str(), p.content.as_str(), p.updated_at), ("t2", "c2", 400));
}

#[test]
fn user_store_uniqueness() {
    let mut repo = UserRepository::new();
    assert_eq!(repo.next_user_id().unwrap(), 1);
    assert_eq!(repo.next_user_id().unwrap(), 2);
    let u = User::create(1, "alice".into(), "a@x".into(), "p".into()).unwrap();
    assert!(repo.add_new_user(u).is_ok());
    let dup_name = User::create(2, "alice".into(), "other@x".into(), "p".into()).unwrap();
    match repo.add_new_user(dup_name) {
        Err(AppError::AlreadyExists(m)) => assert_eq!(m, "User: name: alice, email: other@x"),
        other => panic!("unexpected {other:?}"),
    }
    let dup_mail = User::create(2, "al".into(), "a@x".into(), "p".into()).unwrap();
    assert!(matches!(repo.add_new_user(dup_mail), Err(AppError::AlreadyExists(_))));
    assert_eq!(repo.get_user("alice").unwrap().email, "a@x");
    match repo.get_user("zed") {
        Err(AppError::UserNotFound(m)) => assert_eq!(m, "zed"),
        Err(e) => panic!("unexpected {e:?}"),
        Ok(_) => panic!("unexpected user"),
    }
}

#[test]
fn post_store_order_and_pages() {
    let mut repo = PostRepository::new();
    assert!(repo.add_new_post(post(1, 10)).is_ok());
    assert!(repo.add_new_post(post(2, 30)).is_ok());
    assert!(repo.add_new_post(post(3, 20)).is_ok());
    assert!(repo.add_new_post(post(4, 20)).is_ok());
    assert!(matches!(repo.add_new_post(post(4, 50)), Err(AppError::InternalError(_))));
    let ids = |v: Vec<Post>| v.iter().map(|p| p.id).collect::<Vec<_>>();
    assert_eq!(ids(repo.get_posts(0, 10).unwrap()), vec![2, 4, 3, 1]);
    assert_eq!(ids(repo.get_posts(1, 2).unwrap()), vec![4, 3]);
    assert_eq!(ids(repo.get_posts(3, 5).unwrap()), vec![1]);
    assert_eq!(ids(repo.get_posts(9, 5).unwrap()), Vec::<i64>::new());
    assert_eq!(ids(repo.get_posts(0, 0).unwrap()), Vec::<i64>::new());
    assert!(repo.get_posts(-1, 5).is_err());
    assert!(repo.get_posts(0, -1).is_err());
    let p = repo.update_post_at(1, Some("new".into()), None, 40).unwrap();
    assert_eq!((p.title.as_str(), p.updated_at), ("new", 40));
    assert_eq!(ids(repo.get_posts(0, 10).unwrap()), vec![1, 2, 4, 3]);
    assert_eq!(repo.get_post_author_id(3).unwrap(), 1);
    match repo.get_post(99) {
        Err(AppError::PostNotFound(m)) => assert_eq!(m, "99"),
        other => panic!("unexpected {other:?}"),
    }
    assert!(repo.delete_post(2).is_ok());
    assert!(matches!(repo.delete_post(2), Err(AppError::InternalError(_))));
    assert_eq!(ids(repo.get_posts(0, 10).unwrap()), vec![1, 4, 3]);
    assert_eq!(repo.next_post_id().unwrap(), 5);
}

#[test]
fn pages_never_exceed_limit_or_repeat() {
    let mut repo = PostRepository::new();
    for i in 1..=7 {
        assert!(repo.add_new_post(post(i, i % 3)).is_ok());
    }
    for offset in 0..9 {
        for limit in 1..9 {
            let page = repo.get_posts(offset, limit).unwrap();
            assert!(page.len() as i64 <= limit);
            let mut seen: Vec<i64> = page.iter().map(|p| p.id).collect();
            seen.sort();
            seen.dedup();
            assert_eq!(seen.len(), page.len());
        }
    }
}

#[test]
fn services_ownership_gate() {
    let mut blog = BlogService::new(PostRepository::new());
    let alice = AuthUser { username: "alice".into(), email: "a@x".into(), id: 1 };
    let bob = AuthUser { username: "bob".into(), email: "b@x".into(), id: 2 };
    let info = blog.create_post(alice.clone(), NewPost { title: "hello".into(), content: "world".into() }).unwrap();
    assert_eq!((info.id, info.author_id), (1, 1));
    assert_eq!(info.created_at, info.updated_at);
    let patch = UpdatePost { title: Some("hijack".into()), content: None };
    match blog.update_post(bob.clone(), PostId { id: 1 }, patch) {
        Err(AppError::Unauthorized(m)) => assert_eq!(m, "No permission for update"),
        other => panic!("unexpected {other:?}"),
    }
    match blog.delete_post(bob, PostId { id: 1 }) {
        Err(AppError::Unauthorized(m)) => assert_eq!(m, "No permission for delete"),
        other => panic!("unexpected {other:?}"),
    }
    assert_eq!(blog.get_post(PostId { id: 1 }).unwrap().title, "hello");
    assert!(matches!(blog.delete_post(alice.clone(), PostId { id: 5 }), Err(AppError::PostNotFound(_))));
    let same = blog.update_post(alice.clone(), PostId { id: 1 }, UpdatePost::default()).unwrap();
    assert_eq!(same.updated_at, info.updated_at);
    assert!(blog.delete_post(alice, PostId { id: 1 }).is_ok());
    assert!(matches!(blog.get_post(PostId { id: 1 }), Err(AppError::PostNotFound(_))));
}

#[test]
fn page_defaults() {
    let blog = BlogService::new(PostRepository::new());
    let resp = blog.get_posts(GetPostsReq::default()).unwrap();
    assert_eq!((resp.offset, resp.limit, resp.posts.len()), (0, 10, 0));
    assert!(matches!(blog.get_posts(GetPostsReq { offset: Some(-1), limit: None }), Err(AppError::InternalError(_))));
}

#[test]
fn auth_register_and_login() {
    let jwt = JwtService::new(&secret());
    let mut auth = AuthService::new(JwtService::new(&secret()), UserRepository::new());
    let req = || RegisterUserReq { username: "alice".into(), email: "a@x".into(), password: "p1".into() };
    let t1 = auth.register(req()).unwrap().token;
    assert!(matches!(auth.register(req()), Err(AppError::AlreadyExists(_))));
    let t2 = auth.login(LoginUserReq { username: "alice".into(), password: "p1".into() }).unwrap().token;
    for t in [t1, t2] {
        let c = jwt.verify_token(&t).unwrap();
        assert_eq!((c.id, c.username.as_str(), c.email.as_str()), (1, "alice", "a@x"));
    }
    match auth.login(LoginUserReq { username: "alice".into(), password: "bad".into() }) {
        Err(AppError::Unauthorized(m)) => assert_eq!(m, "alice"),
        other => panic!("unexpected {other:?}"),
    }
    match auth.login(LoginUserReq { username: "nobody".into(), password: "p1".into() }) {
        Err(AppError::UserNotFound(m)) => assert_eq!(m, "nobody"),
        other => panic!("unexpected {other:?}"),
    }
}

#[test]
fn client_error_kinds() {
    assert_eq!(ClientError::from_http_status(409, "m".into()).kind(), ClientErrorKind::AlreadyExists);
    assert_eq!(ClientError::from_http_status(401, "m".into()).kind(), ClientErrorKind::Unauthorized);
    assert_eq!(ClientError::from_http_status(404, "m".into()).kind(), ClientErrorKind::NotFound);
    assert_eq!(ClientError::from_http_status(500, "m".into()).kind(), ClientErrorKind::UnknownServerErr);
    assert_eq!(ClientError::from_transport("m".into()).kind(), ClientErrorKind::InternalError);
    let st = |code| GrpcStatus { code, message: "m".into() };
    assert_eq!(ClientError::from_grpc_status(st(GrpcCode::AlreadyExists)).kind(), ClientErrorKind::AlreadyExists);
    assert_eq!(ClientError::from_grpc_status(st(GrpcCode::Unauthenticated)).kind(), ClientErrorKind::Unauthorized);
    assert_eq!(ClientError::from_grpc_status(st(GrpcCode::NotFound)).kind(), ClientErrorKind::NotFound);
    assert_eq!(ClientError::from_grpc_status(st(GrpcCode::Internal)).kind(), ClientErrorKind::UnknownServerErr);
}

#[test]
fn number_settings() {
    assert_eq!(parse_unsigned("5432", 65535), Some(5432));
    assert_eq!(parse_unsigned("+7", 65535), Some(7));
    assert_eq!(parse_unsigned("65535", 65535), Some(65535));
    assert_eq!(parse_unsigned("65536", 65535), None);
    assert_eq!(parse_unsigned("", 10), None);
    assert_eq!(parse_unsigned("+", 10), None);
    assert_eq!(parse_unsigned("1a", 10), None);
    assert_eq!(parse_unsigned("-1", 10), None);
    assert_eq!(parse_unsigned("18446744073709551615", u64::MAX), Some(u64::MAX));
    assert_eq!(parse_unsigned("18446744073709551616", u64::MAX), None);
}

#[test]
fn settings_to_config() {
    let full = || RawSettings {
        db_name: Some("blog".into()),
        db_user: Some("u".into()),
        db_host: Some("h".into()),
        db_port: Some("5432".into()),
        db_pass: Some("p".into()),
        db_max_conn: Some("10".into()),
        db_min_conn: Some("1".into()),
        log_level: Some("info".into()),
        jwt_secret: Some("s".into()),
    };
    let c = Config::from_settings(full()).unwrap();
    assert_eq!((c.db_config.port, c.db_config.max_connections, c.db_config.min_connections), (5432, 10, 1));
    assert_eq!(c.secret_config.jwt_secret, "s");
    let mut missing = full();
    missing.jwt_secret = None;
    assert!(matches!(Config::from_settings(missing), Err(ConfigError::Missing(m)) if m == "JWT_SECRET"));
    let mut bad = full();
    bad.db_port = Some("70000".into());
    assert!(matches!(Config::from_settings(bad), Err(ConfigError::Invalid(m)) if m == "DB_PORT"));
}

#[test]
fn whole_seconds_round_down() {
    assert_eq!(seconds_of(0), 0);
    assert_eq!(seconds_of(1_500_000), 1);
    assert_eq!(seconds_of(-1), -1);
    assert_eq!(seconds_of(-1_000_000), -1);
    assert_eq!(seconds_of(-1_000_001), -2);
}

#[test]
fn user_store_restores_rows_and_last_id() {
    let a = User::create(4, "alice".into(), "a@x".into(), "p".into()).unwrap();
    let b = User::create(9, "bob".into(), "b@x".into(), "p".into()).unwrap();
    let mut repo = UserRepository::restore(&vec![a, b], 12).unwrap();
    assert_eq!(repo.get_user("bob").unwrap().id, 9);
    assert_eq!(repo.next_user_id().unwrap(), 13);
    let c = User::create(1, "carol".into(), "c@x".into(), "p".into()).unwrap();
    let d = User::create(2, "carol".into(), "d@x".into(), "p".into()).unwrap();
    assert!(UserRepository::restore(&vec![c, d], 0).is_err());
    let e = User::create(20, "eve".into(), "e@x".into(), "p".into()).unwrap();
    let mut repo = UserRepository::restore(&vec![e], 3).unwrap();
    assert_eq!(repo.next_user_id().unwrap(), 21);
}

#[test]
fn post_store_restores_rows_in_list_order() {
    let mut repo = PostRepository::restore(&vec![post(1, 10), post(3, 30), post(2, 20)], 7).unwrap();
    let ids: Vec<i64> = repo.get_posts(0, 10).unwrap().iter().map(|p| p.id).collect();
    assert_eq!(ids, vec![3, 2, 1]);
    assert_eq!(repo.next_post_id().unwrap(), 8);
    assert!(PostRepository::restore(&vec![post(1, 10), post(1, 20)], 7).is_err());
}
