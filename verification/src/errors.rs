use vstd::prelude::*;
use vstd::string::StringExecFns;

verus! {

/// A secret-store operation that did not go through, with the backend's own
/// description of why.
#[derive(Debug)]
pub struct StoreError {
    pub message: String,
}

/// Everything that can go wrong across the authentication lifecycle.
///
/// The three grant failures carry the backend's raw error body so the caller
/// can surface it; `MissingField` names the mandatory token field the backend
/// left out.
#[derive(Debug)]
pub enum AuthError {
    AuthenticationFailed(String),
    OAuthFailed(String),
    RefreshFailed(String),
    MissingField(String),
    NoActiveSession,
    Store(StoreError),
}

impl AuthError {
    /// One line of text for the caller to render, in the shape
    /// `<what happened>: <detail>`.
    pub fn describe(&self) -> (r: String)
        ensures
            r@ == self.describe_snap(),
    {
        match self {
            AuthError::AuthenticationFailed(body) => {
                String::from_str("Authentication failed: ").concat(body.as_str())
            },
            AuthError::OAuthFailed(body) => {
                String::from_str("OAuth callback failed: ").concat(body.as_str())
            },
            AuthError::RefreshFailed(body) => {
                String::from_str("Token refresh failed: ").concat(body.as_str())
            },
            AuthError::MissingField(name) => {
                String::from_str("Missing ").concat(name.as_str())
            },
            AuthError::NoActiveSession => String::from_str("No token to refresh"),
            AuthError::Store(e) => {
                String::from_str("Secret store failure: ").concat(e.message.as_str())
            },
        }
    }

    /// What `describe` returns, as a function of the error value.
    pub open spec fn describe_snap(&self) -> Seq<char> {
        match self {
            AuthError::AuthenticationFailed(body) => "Authentication failed: "@ + body@,
            AuthError::OAuthFailed(body) => "OAuth callback failed: "@ + body@,
            AuthError::RefreshFailed(body) => "Token refresh failed: "@ + body@,
            AuthError::MissingField(name) => "Missing "@ + name@,
            AuthError::NoActiveSession => "No token to refresh"@,
            AuthError::Store(e) => "Secret store failure: "@ + e.message@,
        }
    }
}

} // verus!
