//! Core of a two-surface blogging service: accounts, bearer tokens, posts with
//! ownership rules, and the translation of one domain error kind into HTTP and
//! gRPC replies.

pub mod text;
pub mod error;
pub mod clock;
pub mod hash;
pub mod domain;
pub mod config;
pub mod jwt;
pub mod users;
pub mod posts;
pub mod auth;
pub mod blog;
pub mod middleware;
pub mod state;
pub mod http;
pub mod grpc;
pub mod client;
