//! Wire types of the overlay API, as plain values.

use vstd::prelude::*;

verus! {

/// Persisted (encrypted) token bundle.
#[derive(Debug, Clone)]
pub struct TokenBundle {
    pub access_token: String,
    pub refresh_token: String,
    /// Unix epoch (seconds) at which the access token expires.
    pub access_expires_at: i64,
    /// Unix epoch (seconds) at which the refresh token expires.
    pub refresh_expires_at: i64,
}

/// The plain value of a token bundle.
pub struct TokenBundleView {
    pub access_token: Seq<char>,
    pub refresh_token: Seq<char>,
    pub access_expires_at: i64,
    pub refresh_expires_at: i64,
}

impl View for TokenBundle {
    type V = TokenBundleView;

    open spec fn view(&self) -> TokenBundleView {
        TokenBundleView {
            access_token: self.access_token@,
            refresh_token: self.refresh_token@,
            access_expires_at: self.access_expires_at,
            refresh_expires_at: self.refresh_expires_at,
        }
    }
}

impl TokenBundle {
    /// A field-by-field copy.
    pub fn duplicate(&self) -> (r: TokenBundle)
        ensures
            r == *self,
    {
        TokenBundle {
            access_token: self.access_token.clone(),
            refresh_token: self.refresh_token.clone(),
            access_expires_at: self.access_expires_at,
            refresh_expires_at: self.refresh_expires_at,
        }
    }
}

/// Response of `/auth/login` and `/auth/refresh`.
#[derive(Debug, Clone)]
pub struct TokenResponse {
    pub access_token: String,
    pub refresh_token: String,
    pub access_token_expires_in: i64,
    pub refresh_token_expires_in: i64,
}

/// Generic API error envelope (`{ "error": { "code": "...", "message": "..." } }`).
#[derive(Debug, Clone)]
pub struct ApiErrorEnvelope {
    pub error: ApiErrorBody,
}

#[derive(Debug, Clone)]
pub struct ApiErrorBody {
    pub code: String,
    pub message: String,
}

/// `GET /api/overlay/me`
#[derive(Debug, Clone)]
pub struct OverlayUser {
    pub id: String,
    pub pseudo: String,
    pub role: String,
    pub discord_id: Option<String>,
}

/// `GET /api/overlay/instances`
#[derive(Debug, Clone)]
pub struct Instance {
    pub id: String,
    pub name: String,
    pub owner_account_id: String,
    pub created_at: String,
}

/// `GET /api/overlay/instances/:id/layers`
#[derive(Debug, Clone)]
pub struct Layer {
    pub id: String,
    pub instance_id: String,
    pub name: String,
    pub kind: String,
    pub created_at: String,
    pub updated_at: String,
}

/// Auth status returned to the frontend.
#[derive(Debug, Clone)]
pub struct AuthStatus {
    pub authenticated: bool,
    pub pseudo: Option<String>,
    pub role: Option<String>,
}

impl Default for AuthStatus {
    fn default() -> (r: AuthStatus)
        ensures
            !r.authenticated,
            r.pseudo is None,
            r.role is None,
    {
        AuthStatus { authenticated: false, pseudo: None, role: None }
    }
}

} // verus!
