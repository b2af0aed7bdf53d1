use vstd::prelude::*;

verus! {

/// Body of a login request.
pub struct LoginRequest {
    pub username: String,
    pub password: String,
}

/// Body of a successful login response.
pub struct LoginResponse {
    pub token: String,
}

/// The payload of a session token.
#[derive(Debug)]
pub struct Claims {
    /// Subject: the user's id in text form.
    pub sub: String,
    /// Expiry, in seconds since the Unix epoch.
    pub exp: usize,
    pub permissions: Vec<String>,
    pub roles: Vec<String>,
}

/// Mathematical model of [`Claims`].
pub struct ClaimsView {
    pub sub: Seq<char>,
    pub exp: nat,
    pub permissions: Seq<Seq<char>>,
    pub roles: Seq<Seq<char>>,
}

impl View for Claims {
    type V = ClaimsView;

    open spec fn view(&self) -> ClaimsView {
        ClaimsView {
            sub: self.sub@,
            exp: self.exp as nat,
            permissions: self.permissions.deep_view(),
            roles: self.roles.deep_view(),
        }
    }
}

/// The identity attached to a request once its token has been accepted.
#[derive(Debug, Clone)]
pub struct AuthenticatedUser {
    pub user_id: String,
}

} // verus!
