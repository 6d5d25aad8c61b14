use vstd::prelude::*;

verus! {

/// Everything that can go wrong while setting up the token endpoint or
/// fetching a token from it.
#[derive(Debug)]
pub enum KeycloakError {
    /// The token endpoint URL does not parse.
    ParseUrl(url::ParseError),
    /// The token endpoint answered with a status outside 2xx.
    FetchToken { status_code: u16, response_text: String },
    /// The HTTP client failed to send the request or to read the answer.
    HttpRequest(reqwest::Error),
    /// The retrying client gave up, or one of its layers failed.
    HttpRequestWithMiddleware(reqwest_middleware::Error),
}

} // verus!
