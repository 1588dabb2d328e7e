//! The single domain error kind and its translation into HTTP and gRPC replies.

use vstd::prelude::*;
use crate::text::{push_unsigned, digits_of};

verus! {

/// Every failure of the core, carrying a human-readable detail.
#[derive(Debug, Clone)]
pub enum AppError {
    AlreadyExists(String),
    Unauthorized(String),
    UserNotFound(String),
    PostNotFound(String),
    InternalError(String),
}

/// The gRPC status codes that the service produces.
#[derive(Debug, Clone, Copy, PartialEq, Eq, Structural)]
pub enum GrpcCode {
    AlreadyExists,
    Unauthenticated,
    NotFound,
    Internal,
    FailedPrecondition,
}

/// A gRPC status: its code and the message carried in its description.
#[derive(Debug, Clone)]
pub struct GrpcStatus {
    pub code: GrpcCode,
    pub message: String,
}

/// An HTTP reply: status code and JSON body.
#[derive(Debug, Clone)]
pub struct HttpReply {
    pub status: u16,
    pub body: String,
}

/// The HTTP status that an error kind maps to.
pub open spec fn status_of(e: AppError) -> u16 {
    match e {
        AppError::AlreadyExists(_) => 409,
        AppError::Unauthorized(_) => 401,
        AppError::UserNotFound(_) => 404,
        AppError::PostNotFound(_) => 404,
        AppError::InternalError(_) => 500,
    }
}

/// The gRPC code that an error kind maps to.
pub open spec fn code_of(e: AppError) -> GrpcCode {
    match e {
        AppError::AlreadyExists(_) => GrpcCode::AlreadyExists,
        AppError::Unauthorized(_) => GrpcCode::Unauthenticated,
        AppError::UserNotFound(_) => GrpcCode::NotFound,
        AppError::PostNotFound(_) => GrpcCode::NotFound,
        AppError::InternalError(_) => GrpcCode::Internal,
    }
}

/// The gRPC code that corresponds to an HTTP error status of the service.
pub open spec fn code_for_status(status: u16) -> GrpcCode {
    if status == 409 {
        GrpcCode::AlreadyExists
    } else if status == 401 {
        GrpcCode::Unauthenticated
    } else if status == 404 {
        GrpcCode::NotFound
    } else {
        GrpcCode::Internal
    }
}

/// The detail an error carries.
pub open spec fn detail_of(e: AppError) -> Seq<char> {
    match e {
        AppError::AlreadyExists(s) => s@,
        AppError::Unauthorized(s) => s@,
        AppError::UserNotFound(s) => s@,
        AppError::PostNotFound(s) => s@,
        AppError::InternalError(s) => s@,
    }
}

/// The prefix naming the kind of an error in its message.
pub open spec fn prefix_of(e: AppError) -> Seq<char> {
    match e {
        AppError::AlreadyExists(_) => "User already exists: "@,
        AppError::Unauthorized(_) => "User unauthorized: "@,
        AppError::UserNotFound(_) => "User not found: "@,
        AppError::PostNotFound(_) => "Post not found: "@,
        AppError::InternalError(_) => "Internal server error: "@,
    }
}

/// The human message of an error: its kind, then its detail.
pub open spec fn message_of(e: AppError) -> Seq<char> {
    prefix_of(e) + detail_of(e)
}

/// The JSON body of an HTTP error reply.
pub open spec fn error_body_of(e: AppError) -> Seq<char> {
    "{\"error\":"@ + json_string_of(message_of(e)) + ",\"status\":"@ + digits_of(
        status_of(e) as nat,
    ) + "}"@
}

/// What serde_json writes for a string: the quoted, escaped JSON literal.
pub uninterp spec fn json_string_of(s: Seq<char>) -> Seq<char>;

/// Relies on `serde_json::to_string` on a `str`, which writes it as a quoted
/// JSON string literal; the text depends on the characters alone.
#[verifier::external_body]
fn json_string(s: &str) -> (r: String)
    ensures
        r@ == json_string_of(s@),
{
    match serde_json::to_string(s) {
        Ok(t) => t,
        Err(_) => String::new(),
    }
}

impl AppError {
    /// The HTTP status of this error.
    pub fn http_status(&self) -> (r: u16)
        ensures
            r == status_of(*self),
    {
        match self {
            AppError::AlreadyExists(_) => 409,
            AppError::Unauthorized(_) => 401,
            AppError::UserNotFound(_) => 404,
            AppError::PostNotFound(_) => 404,
            AppError::InternalError(_) => 500,
        }
    }

    /// The gRPC code of this error.
    pub fn grpc_code(&self) -> (r: GrpcCode)
        ensures
            r == code_of(*self),
    {
        match self {
            AppError::AlreadyExists(_) => GrpcCode::AlreadyExists,
            AppError::Unauthorized(_) => GrpcCode::Unauthenticated,
            AppError::UserNotFound(_) => GrpcCode::NotFound,
            AppError::PostNotFound(_) => GrpcCode::NotFound,
            AppError::InternalError(_) => GrpcCode::Internal,
        }
    }

    /// The detail this error carries.
    pub fn detail(&self) -> (r: &String)
        ensures
            r@ == detail_of(*self),
    {
        match self {
            AppError::AlreadyExists(s) => s,
            AppError::Unauthorized(s) => s,
            AppError::UserNotFound(s) => s,
            AppError::PostNotFound(s) => s,
            AppError::InternalError(s) => s,
        }
    }

    /// The human message of this error, as shown to clients.
    pub fn to_string(&self) -> (r: String)
        ensures
            r@ == message_of(*self),
    {
        proof {
            reveal_strlit("User already exists: ");
            reveal_strlit("User unauthorized: ");
            reveal_strlit("User not found: ");
            reveal_strlit("Post not found: ");
            reveal_strlit("Internal server error: ");
        }
        let mut r = String::new();
        let prefix = match self {
            AppError::AlreadyExists(_) => "User already exists: ",
            AppError::Unauthorized(_) => "User unauthorized: ",
            AppError::UserNotFound(_) => "User not found: ",
            AppError::PostNotFound(_) => "Post not found: ",
            AppError::InternalError(_) => "Internal server error: ",
        };
        r.append(prefix);
        r.append(self.detail().as_str());
        assert(r@ =~= message_of(*self));
        r
    }

    /// The HTTP reply for this error: its status, and a JSON body holding
    /// the message under `error` and the status under `status`.
    pub fn error_response(&self) -> (r: HttpReply)
        ensures
            r.status == status_of(*self),
            r.body@ == error_body_of(*self),
    {
        let status = self.http_status();
        let message = self.to_string();
        let mut body = String::new();
        body.append("{\"error\":");
        body.append(json_string(message.as_str()).as_str());
        body.append(",\"status\":");
        push_unsigned(&mut body, status as u64);
        body.append("}");
        assert(body@ =~= error_body_of(*self));
        HttpReply { status, body }
    }

    /// The gRPC status for this error, carrying its human message.
    pub fn to_grpc_status(&self) -> (r: GrpcStatus)
        ensures
            r.code == code_of(*self),
            r.message@ == message_of(*self),
    {
        GrpcStatus { code: self.grpc_code(), message: self.to_string() }
    }
}

/// Both surfaces agree on every error: the gRPC code of an error is the one
/// that corresponds to its HTTP status.
pub proof fn lemma_surfaces_agree(e: AppError)
    ensures
        code_of(e) == code_for_status(status_of(e)),
        status_of(e) == 409 || status_of(e) == 401 || status_of(e) == 404 || status_of(e) == 500,
{
}

} // verus!
