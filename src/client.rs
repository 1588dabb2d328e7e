//! What a client makes of a failed call, on either surface.

use vstd::prelude::*;
use crate::error::{AppError, GrpcCode, GrpcStatus, status_of, code_of};

verus! {

/// Failures a client reports, whichever surface it spoke to.
#[derive(Debug, Clone)]
pub enum ClientError {
    AlreadyExists(String),
    Unauthorized(String),
    NotFound(String),
    UnknownServerErr(String),
    InternalError(String),
}

/// The kinds of `ClientError`, without their messages.
#[derive(Debug, Clone, Copy, PartialEq, Eq, Structural)]
pub enum ClientErrorKind {
    AlreadyExists,
    Unauthorized,
    NotFound,
    UnknownServerErr,
    InternalError,
}

/// The kind a client gives an HTTP error status.
pub open spec fn kind_for_status(status: u16) -> ClientErrorKind {
    if status == 409 {
        ClientErrorKind::AlreadyExists
    } else if status == 401 {
        ClientErrorKind::Unauthorized
    } else if status == 404 {
        ClientErrorKind::NotFound
    } else {
        ClientErrorKind::UnknownServerErr
    }
}

/// The kind a client gives a gRPC status code.
pub open spec fn kind_for_code(code: GrpcCode) -> ClientErrorKind {
    match code {
        GrpcCode::AlreadyExists => ClientErrorKind::AlreadyExists,
        GrpcCode::Unauthenticated => ClientErrorKind::Unauthorized,
        GrpcCode::NotFound => ClientErrorKind::NotFound,
        _ => ClientErrorKind::UnknownServerErr,
    }
}

/// The kind of a client error.
pub open spec fn kind_of(e: ClientError) -> ClientErrorKind {
    match e {
        ClientError::AlreadyExists(_) => ClientErrorKind::AlreadyExists,
        ClientError::Unauthorized(_) => ClientErrorKind::Unauthorized,
        ClientError::NotFound(_) => ClientErrorKind::NotFound,
        ClientError::UnknownServerErr(_) => ClientErrorKind::UnknownServerErr,
        ClientError::InternalError(_) => ClientErrorKind::InternalError,
    }
}

/// The message a client error carries.
pub open spec fn client_message_of(e: ClientError) -> Seq<char> {
    match e {
        ClientError::AlreadyExists(s) => s@,
        ClientError::Unauthorized(s) => s@,
        ClientError::NotFound(s) => s@,
        ClientError::UnknownServerErr(s) => s@,
        ClientError::InternalError(s) => s@,
    }
}

impl ClientError {
    /// The error for a reply with an error status, keeping its message.
    pub fn from_http_status(status: u16, message: String) -> (r: ClientError)
        ensures
            kind_of(r) == kind_for_status(status),
            client_message_of(r) == message@,
    {
        if status == 409 {
            ClientError::AlreadyExists(message)
        } else if status == 401 {
            ClientError::Unauthorized(message)
        } else if status == 404 {
            ClientError::NotFound(message)
        } else {
            ClientError::UnknownServerErr(message)
        }
    }

    /// The error for a call that got no reply at all.
    pub fn from_transport(message: String) -> (r: ClientError)
        ensures
            kind_of(r) == ClientErrorKind::InternalError,
            client_message_of(r) == message@,
    {
        ClientError::InternalError(message)
    }

    /// The error for a gRPC status, keeping its message.
    pub fn from_grpc_status(status: GrpcStatus) -> (r: ClientError)
        ensures
            kind_of(r) == kind_for_code(status.code),
            client_message_of(r) == status.message@,
    {
        match status.code {
            GrpcCode::AlreadyExists => ClientError::AlreadyExists(status.message),
            GrpcCode::Unauthenticated => ClientError::Unauthorized(status.message),
            GrpcCode::NotFound => ClientError::NotFound(status.message),
            _ => ClientError::UnknownServerErr(status.message),
        }
    }

    /// The kind of this error.
    pub fn kind(&self) -> (r: ClientErrorKind)
        ensures
            r == kind_of(*self),
    {
        match self {
            ClientError::AlreadyExists(_) => ClientErrorKind::AlreadyExists,
            ClientError::Unauthorized(_) => ClientErrorKind::Unauthorized,
            ClientError::NotFound(_) => ClientErrorKind::NotFound,
            ClientError::UnknownServerErr(_) => ClientErrorKind::UnknownServerErr,
            ClientError::InternalError(_) => ClientErrorKind::InternalError,
        }
    }
}

/// A client that meets a domain error sees the same kind of failure on
/// either surface.
pub proof fn lemma_client_sees_one_kind(e: AppError)
    ensures
        kind_for_status(status_of(e)) == kind_for_code(code_of(e)),
{
}

} // verus!
