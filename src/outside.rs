use vstd::prelude::*;

verus! {

/// url's `ParseError`, carried opaquely in `KeycloakError::ParseUrl`.
#[verifier::external_type_specification]
#[verifier::external_body]
pub struct ExParseError(url::ParseError);

/// reqwest's `Error`, carried opaquely in `KeycloakError::HttpRequest`.
#[verifier::external_type_specification]
#[verifier::external_body]
pub struct ExReqwestError(reqwest::Error);

/// reqwest-middleware's `Error`, carried opaquely in
/// `KeycloakError::HttpRequestWithMiddleware`.
#[verifier::external_type_specification]
#[verifier::external_body]
pub struct ExMiddlewareError(reqwest_middleware::Error);

} // verus!
