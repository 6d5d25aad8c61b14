use vstd::prelude::*;
use vstd::string::*;

use crate::error::KeycloakError;

verus! {

/// url's `Url`, the parsed token endpoint.
#[verifier::external_type_specification]
#[verifier::external_body]
pub struct ExUrl(url::Url);

/// The body of a successful answer of the token endpoint.
#[derive(Debug, Clone)]
pub struct TokenResponse {
    pub token_type: String,
    pub access_token: String,
    pub expires_in: u64,
}

/// The token endpoint of a realm on a server.
pub open spec fn token_url_of(server_url: Seq<char>, realm: Seq<char>) -> Seq<char> {
    server_url + "/realms/"@ + realm + "/protocol/openid-connect/token"@
}

/// Whether the URL parser accepts a string.
pub uninterp spec fn url_accepts(s: Seq<char>) -> bool;

/// Relies on url's `Url::parse`: whether it succeeds depends on the input
/// string alone.
#[verifier::external_body]
fn parse_url(s: &str) -> (r: Result<url::Url, url::ParseError>)
    ensures
        r.is_ok() == url_accepts(s@),
{
    url::Url::parse(s)
}

/// The OpenID Connect token endpoint of `realm` on `server_url`.
pub fn token_url(server_url: &str, realm: &str) -> (r: String)
    ensures
        r@ == token_url_of(server_url@, realm@),
{
    let mut url = String::from_str(server_url);
    url.append("/realms/");
    url.append(realm);
    url.append("/protocol/openid-connect/token");
    proof {
        reveal_strlit("/realms/");
        reveal_strlit("/protocol/openid-connect/token");
    }
    url
}

/// Parses the token endpoint, failing with `KeycloakError::ParseUrl` when the parser
/// refuses it.
pub fn parse_token_url(token_url: &str) -> (r: Result<url::Url, KeycloakError>)
    ensures
        r.is_ok() == url_accepts(token_url@),
        r is Err ==> r->Err_0 is ParseUrl,
{
    match parse_url(token_url) {
        Ok(u) => Ok(u),
        Err(e) => Err(KeycloakError::ParseUrl(e)),
    }
}

/// Whether an HTTP status code is in the success class 2xx.
pub fn is_success_status(status_code: u16) -> (r: bool)
    ensures
        r == (200 <= status_code < 300),
{
    200 <= status_code && status_code < 300
}

} // verus!
