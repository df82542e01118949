use vstd::prelude::*;
use vstd::string::StringExecFns;

verus! {

/// Mathematical model of a user profile: every field as a plain value.
pub ghost struct UserProfileSnap {
    pub id: Seq<char>,
    pub email: Seq<char>,
    pub tier: Seq<char>,
    pub tokens_remaining: int,
    pub daily_limit: int,
}

/// Account identity and entitlement counters for the logged-in user.
pub struct UserProfile {
    pub id: String,
    pub email: String,
    pub tier: String,
    pub tokens_remaining: i64,
    pub daily_limit: i64,
}

impl View for UserProfile {
    type V = UserProfileSnap;

    open spec fn view(&self) -> UserProfileSnap {
        UserProfileSnap {
            id: self.id@,
            email: self.email@,
            tier: self.tier@,
            tokens_remaining: self.tokens_remaining as int,
            daily_limit: self.daily_limit as int,
        }
    }
}

/// The profile used whenever the backend cannot supply one: the account keeps
/// working in a degraded state instead of blocking.
pub open spec fn default_profile_snap() -> UserProfileSnap {
    UserProfileSnap {
        id: Seq::empty(),
        email: Seq::empty(),
        tier: "free"@,
        tokens_remaining: 10000,
        daily_limit: 10000,
    }
}

impl UserProfile {
    /// The fallback profile: `free` tier, ten thousand tokens either way.
    pub fn default_profile() -> (p: UserProfile)
        ensures
            p@ == default_profile_snap(),
    {
        UserProfile {
            id: String::new(),
            email: String::new(),
            tier: String::from_str("free"),
            tokens_remaining: 10000,
            daily_limit: 10000,
        }
    }

    /// A field-for-field copy with the same model.
    pub fn duplicate(&self) -> (p: UserProfile)
        ensures
            p == self,
    {
        UserProfile {
            id: self.id.clone(),
            email: self.email.clone(),
            tier: self.tier.clone(),
            tokens_remaining: self.tokens_remaining,
            daily_limit: self.daily_limit,
        }
    }
}

/// Mathematical model of a session.
pub ghost struct AuthTokenSnap {
    pub access_token: Seq<char>,
    pub refresh_token: Seq<char>,
    pub expires_at: int,
    pub user: UserProfileSnap,
}

/// A session's credentials together with the profile snapshot taken when the
/// session was established.
pub struct AuthToken {
    pub access_token: String,
    pub refresh_token: String,
    pub expires_at: i64,
    pub user: UserProfile,
}

impl View for AuthToken {
    type V = AuthTokenSnap;

    open spec fn view(&self) -> AuthTokenSnap {
        AuthTokenSnap {
            access_token: self.access_token@,
            refresh_token: self.refresh_token@,
            expires_at: self.expires_at as int,
            user: self.user@,
        }
    }
}

impl AuthToken {
    /// A field-for-field copy with the same model.
    pub fn duplicate(&self) -> (t: AuthToken)
        ensures
            t == self,
    {
        AuthToken {
            access_token: self.access_token.clone(),
            refresh_token: self.refresh_token.clone(),
            expires_at: self.expires_at,
            user: self.user.duplicate(),
        }
    }
}

} // verus!
