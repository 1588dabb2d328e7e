//! The bearer-token filter in front of the mutating post routes.

use vstd::prelude::*;
use crate::blog::AuthUser;
use crate::error::{AppError, detail_of};
use crate::jwt::{JwtService, token_claims_of, text_view};

verus! {

/// The token of an `Authorization` value of the shape `Bearer <token>`.
pub open spec fn bearer_of(header: Seq<char>) -> Option<Seq<char>> {
    if header.len() >= 7 && header.subrange(0, 7) == "Bearer "@ {
        Some(header.subrange(7, header.len() as int))
    } else {
        None
    }
}

/// The bearer token of an optional `Authorization` value.
pub open spec fn bearer_of_header(header: Option<&str>) -> Option<Seq<char>> {
    match header {
        Some(h) => bearer_of(h@),
        None => None,
    }
}

/// `user` is the identity that `token` carries under the service's secret.
pub open spec fn carried_by(jwt: JwtService, token: Seq<char>, user: AuthUser) -> bool {
    token_claims_of(jwt.key(), token) == Some(
        (user.username@, user.email@, user.id as int, token_claims_of(jwt.key(), token).unwrap().3),
    )
}

/// `authorization` is a bearer value whose token carries `user`.
pub open spec fn authorized_as(jwt: JwtService, authorization: Option<&str>, user: AuthUser) -> bool {
    bearer_of_header(authorization) matches Some(t) && carried_by(jwt, t, user)
}

/// The token of an `Authorization` value of the shape `Bearer <token>`.
pub fn bearer_token(header: &str) -> (r: Option<String>)
    ensures
        text_view(r) == bearer_of(header@),
{
    proof {
        reveal_strlit("Bearer ");
    }
    let n = header.unicode_len();
    if n < 7 {
        return None;
    }
    let head = String::from_str(header.substring_char(0, 7));
    if head == String::from_str("Bearer ") {
        Some(String::from_str(header.substring_char(7, n)))
    } else {
        None
    }
}

/// The caller named by a valid bearer `Authorization` value. A missing or
/// malformed value is `Unauthorized("missing bearer")`; a token that does
/// not verify is `Unauthorized("invalid credentials")`.
pub fn authenticate(jwt_service: &JwtService, authorization: Option<&str>) -> (r: Result<AuthUser, AppError>)
    ensures
        bearer_of_header(authorization) is None ==> (r matches Err(e) && e is Unauthorized
            && detail_of(e) == "missing bearer"@),
        bearer_of_header(authorization) matches Some(t) && token_claims_of(jwt_service.key(), t) is None ==> (
        r matches Err(e) && e is Unauthorized && detail_of(e) == "invalid credentials"@),
        r matches Ok(u) ==> bearer_of_header(authorization) matches Some(t) && carried_by(*jwt_service, t, u),
        r matches Err(e) ==> e is Unauthorized,
{
    let token = match authorization {
        Some(h) => bearer_token(h),
        None => None,
    };
    let token = match token {
        Some(t) => t,
        None => {
            return Err(AppError::Unauthorized(String::from_str("missing bearer")));
        },
    };
    match jwt_service.verify_token(token.as_str()) {
        Some(claims) => Ok(AuthUser::from_claims(claims)),
        None => Err(AppError::Unauthorized(String::from_str("invalid credentials"))),
    }
}

/// The filter's factory.
#[derive(Debug, Clone, Copy)]
pub struct Jwt;

/// The filter: checks the bearer token of a request with its service.
#[derive(Debug)]
pub struct JwtAuth {
    pub jwt_service: JwtService,
}

impl Jwt {
    pub fn new_transform(&self, jwt_service: JwtService) -> (r: JwtAuth)
        ensures
            r.jwt_service == jwt_service,
    {
        JwtAuth { jwt_service }
    }
}

impl JwtAuth {
    /// Admits a request with a valid bearer token, naming its caller.
    pub fn call(&self, authorization: Option<&str>) -> (r: Result<AuthUser, AppError>)
        ensures
            bearer_of_header(authorization) is None ==> (r matches Err(e) && e is Unauthorized
                && detail_of(e) == "missing bearer"@),
            bearer_of_header(authorization) matches Some(t) && token_claims_of(self.jwt_service.key(), t) is None ==> (
            r matches Err(e) && e is Unauthorized && detail_of(e) == "invalid credentials"@),
            r matches Ok(u) ==> bearer_of_header(authorization) matches Some(t) && carried_by(self.jwt_service, t, u),
            r matches Err(e) ==> e is Unauthorized,
    {
        authenticate(&self.jwt_service, authorization)
    }
}

} // verus!
