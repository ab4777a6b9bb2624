//! The token manager's decision half: the grant bodies posted to the
//! OAuth token endpoint and the reading of its reply.  The HTTP transfer
//! itself happens outside; its outcome comes back in as plain values.

use vstd::prelude::*;

use crate::errors::{AuthError, AuthErrorType};

verus! {

/// An access/refresh token pair.  The access token authenticates the IPC
/// session; the refresh token is long-lived, supersedes every earlier
/// one, and must be persisted before the access token is used.
#[derive(Debug)]
pub struct TokenData {
    pub access_token: String,
    pub refresh_token: String,
}

/// The mathematical value of a [`TokenData`].
pub struct TokenDataView {
    pub access_token: Seq<char>,
    pub refresh_token: Seq<char>,
}

impl View for TokenData {
    type V = TokenDataView;

    open spec fn view(&self) -> TokenDataView {
        TokenDataView { access_token: self.access_token@, refresh_token: self.refresh_token@ }
    }
}

impl DeepView for TokenData {
    type V = TokenDataView;

    open spec fn deep_view(&self) -> TokenDataView {
        self.view()
    }
}

/// Which OAuth grant a token request uses.
#[derive(Clone, Copy, PartialEq, Eq, Debug, Structural)]
pub enum GrantKind {
    AuthorizationCode,
    RefreshToken,
}

/// The error type under which a failed request of each grant is reported.
pub open spec fn grant_error_type(grant: GrantKind) -> AuthErrorType {
    match grant {
        GrantKind::AuthorizationCode => AuthErrorType::TokenFetch,
        GrantKind::RefreshToken => AuthErrorType::RefreshToken,
    }
}

/// The form body of an authorization-code grant for `code`.
pub fn code_grant_body(code: &str) -> (r: String)
    ensures
        r@ == "grant_type=authorization_code&code="@ + code@ + "&redirect_uri=http://localhost"@,
{
    let mut r = String::from_str("grant_type=authorization_code&code=");
    r.append(code);
    r.append("&redirect_uri=http://localhost");
    r
}

/// The form body of a refresh-token grant for `refresh_token`.
pub fn refresh_grant_body(refresh_token: &str) -> (r: String)
    ensures
        r@ == "grant_type=refresh_token&refresh_token="@ + refresh_token@,
{
    let mut r = String::from_str("grant_type=refresh_token&refresh_token=");
    r.append(refresh_token);
    r
}

/// The token pair that the endpoint's JSON body carries: the
/// `access_token` and `refresh_token` string fields, when the body is a
/// JSON object holding both as strings.  A function of the text alone.
pub uninterp spec fn token_fields_of(s: Seq<char>) -> Option<(Seq<char>, Seq<char>)>;

/// Relies on `serde_json::from_str` and `serde_json::Value::{get, as_str}`:
/// what the fixed token-response schema reads out of a body text depends
/// on that text alone.
#[verifier::external_body]
fn extract_token_fields(text: &str) -> (r: Option<(String, String)>)
    ensures
        match token_fields_of(text@) {
            Some(p) => r matches Some(q) && q.0@ == p.0 && q.1@ == p.1,
            None => r is None,
        },
{
    let v: serde_json::Value = serde_json::from_str(text).ok()?;
    let access = v.get("access_token")?.as_str()?.to_owned();
    let refresh = v.get("refresh_token")?.as_str()?.to_owned();
    Some((access, refresh))
}

/// Parse the token endpoint's response body into a token pair; `None`
/// when the body does not carry the expected token schema.
pub fn parse_token_response(text: &str) -> (r: Option<TokenData>)
    ensures
        match token_fields_of(text@) {
            Some(p) => r matches Some(t) && t@ == (TokenDataView {
                access_token: p.0,
                refresh_token: p.1,
            }),
            None => r is None,
        },
{
    match extract_token_fields(text) {
        Some((access_token, refresh_token)) => Some(TokenData { access_token, refresh_token }),
        None => None,
    }
}

/// Judge one exchange with the token endpoint.  `status_ok` says whether
/// the transfer succeeded with an HTTP success status; `body` is the
/// response text, where it could be read.  The exchange yields tokens
/// exactly when the transfer succeeded and the body parses as the token
/// schema; everything else is the grant's error.
pub fn token_outcome(grant: GrantKind, status_ok: bool, body: Option<String>) -> (r: Result<
    TokenData,
    AuthError,
>)
    ensures
        r is Ok <==> (status_ok && (body matches Some(b) && token_fields_of(b@) is Some)),
        r matches Ok(t) ==> (body matches Some(b) && token_fields_of(b@) matches Some(p) && t@
            == (TokenDataView { access_token: p.0, refresh_token: p.1 })),
        r matches Err(e) ==> e.error_type == grant_error_type(grant),
{
    let error_type = match grant {
        GrantKind::AuthorizationCode => AuthErrorType::TokenFetch,
        GrantKind::RefreshToken => AuthErrorType::RefreshToken,
    };
    if !status_ok {
        return Err(AuthError {
            error_type,
            message: String::from_str("The token endpoint did not answer with success."),
        });
    }
    match body {
        None => Err(AuthError {
            error_type,
            message: String::from_str("The token response body could not be read."),
        }),
        Some(text) => match parse_token_response(text.as_str()) {
            Some(tokens) => Ok(tokens),
            None => Err(AuthError {
                error_type,
                message: String::from_str("Failed to decode token response."),
            }),
        },
    }
}

} // verus!
