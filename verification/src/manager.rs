use vstd::prelude::*;
use vstd::string::StringExecFns;
use crate::errors::{AuthError, StoreError};
use crate::record::{decode_record_seq, encode_record, encode_record_seq};
use crate::requests::{HttpMethod, HttpRequest, append_path, build_oauth_url,
    build_oauth_code_body, build_password_grant_body, build_refresh_grant_body,
    oauth_code_body_seq, oauth_code_url_seq, oauth_url_seq, password_grant_body_seq,
    password_grant_url_seq, profile_url_seq, refresh_grant_body_seq, refresh_grant_url_seq};
use crate::responses::{HttpResponse, TokenFields, auth_json_of, extract_auth_json,
    extract_profile_json, follows_token_fields_rule, is_success_status, profile_from_parts,
    profile_from_parts_snap, profile_json_of, status_is_success, token_fields_from,
    token_fields_rule};
use crate::session::{AuthToken, AuthTokenSnap, UserProfile, UserProfileSnap,
    default_profile_snap};
use crate::store::{CredentialStore, keyring_get, token_from_store_parts};

verus! {

/// Mathematical model of the manager: its configuration, the session it
/// holds, if any, and its record of the store's slots (see
/// `CredentialStore`). Absence of a session means "unauthenticated".
pub ghost struct AgentAuthSnap {
    pub base_url: Seq<char>,
    pub anon_key: Seq<char>,
    pub session: Option<AuthTokenSnap>,
    pub written: Map<Seq<char>, Seq<char>>,
}

/// The session manager: holds the configuration and the current session, and
/// carries the authentication lifecycle. The HTTP transport lives outside;
/// each network step is split into a request builder and a response reader,
/// and the caller carries the bytes between them.
pub struct AgentAuth {
    base_url: String,
    anon_key: String,
    current_token: Option<AuthToken>,
    store: CredentialStore,
}

impl View for AgentAuth {
    type V = AgentAuthSnap;

    closed spec fn view(&self) -> AgentAuthSnap {
        AgentAuthSnap {
            base_url: self.base_url@,
            anon_key: self.anon_key@,
            session: match self.current_token {
                Some(t) => Some(t@),
                None => None,
            },
            written: self.store@,
        }
    }
}

pub open spec fn is_authenticated_snap(v: AgentAuthSnap) -> bool {
    v.session is Some
}

pub open spec fn current_token_snap(v: AgentAuthSnap) -> Option<Seq<char>> {
    match v.session {
        Some(s) => Some(s.access_token),
        None => None,
    }
}

/// Expired means: no session at all, or a session whose expiry lies before
/// the clock.
pub open spec fn expired_at_snap(v: AgentAuthSnap, now: int) -> bool {
    match v.session {
        Some(s) => s.expires_at < now,
        None => true,
    }
}

pub open spec fn with_session_snap(v: AgentAuthSnap, t: AuthTokenSnap) -> AgentAuthSnap {
    AgentAuthSnap { session: Some(t), ..v }
}

/// After a logout: no session, and the three slots dropped from the store
/// record.
pub open spec fn cleared_snap(v: AgentAuthSnap) -> AgentAuthSnap {
    AgentAuthSnap {
        session: None,
        written: v.written
            .remove("access-token"@)
            .remove("refresh-token"@)
            .remove("token-data"@),
        ..v
    }
}

/// The store record after the first `k` of the three slot writes that
/// persisting session `t` makes: the access token, then the refresh token,
/// then the expiry-and-profile record.
pub open spec fn persist_prefix_snap(v: AgentAuthSnap, t: AuthTokenSnap, k: int) -> AgentAuthSnap {
    let w1 = if k >= 1 { v.written.insert("access-token"@, t.access_token) } else { v.written };
    let w2 = if k >= 2 { w1.insert("refresh-token"@, t.refresh_token) } else { w1 };
    let w3 = if k >= 3 { w2.insert("token-data"@, encode_record_seq(t.expires_at, t.user)) } else { w2 };
    AgentAuthSnap { written: w3, ..v }
}

/// The store record after all three slot writes for session `t`.
pub open spec fn persisted_snap(v: AgentAuthSnap, t: AuthTokenSnap) -> AgentAuthSnap {
    persist_prefix_snap(v, t, 3)
}

/// The session assembled from a grant's token fields and a profile.
pub open spec fn token_snap_of(fields: TokenFields, user: UserProfileSnap) -> AuthTokenSnap {
    AuthTokenSnap {
        access_token: fields.access_token@,
        refresh_token: fields.refresh_token@,
        expires_at: fields.expires_at as int,
        user: user,
    }
}

impl AgentAuth {
    /// A manager with the placeholder configuration: constructible without
    /// any configuration, with backend calls expected to fail cleanly.
    pub fn new() -> (r: AgentAuth)
        ensures
            r@.session is None,
            r@.base_url == "https://placeholder.supabase.co"@,
            r@.anon_key == "placeholder-anon-key"@,
            r@.written == Map::<Seq<char>, Seq<char>>::empty(),
    {
        AgentAuth {
            base_url: String::from_str("https://placeholder.supabase.co"),
            anon_key: String::from_str("placeholder-anon-key"),
            current_token: None,
            store: CredentialStore::new(),
        }
    }

    /// A manager against the given base URL and public API key.
    pub fn with_config(base_url: String, anon_key: String) -> (r: AgentAuth)
        ensures
            r@.session is None,
            r@.base_url == base_url@,
            r@.anon_key == anon_key@,
            r@.written == Map::<Seq<char>, Seq<char>>::empty(),
    {
        AgentAuth {
            base_url,
            anon_key,
            current_token: None,
            store: CredentialStore::new(),
        }
    }

    pub fn is_authenticated(&self) -> (r: bool)
        ensures
            r == is_authenticated_snap(self@),
    {
        match &self.current_token {
            Some(_) => true,
            None => false,
        }
    }

    /// The current access token, cloned out.
    pub fn get_token(&self) -> (r: Option<String>)
        ensures
            self@.session is Some ==> (r matches Some(t) && Some(t@) == current_token_snap(self@)),
            self@.session is None ==> r is None,
    {
        match &self.current_token {
            Some(t) => Some(t.access_token.clone()),
            None => None,
        }
    }

    /// The current refresh token, cloned out; the refresh flow hands it back
    /// in so a response that omits a new one can keep it.
    pub fn current_refresh_token(&self) -> (r: Option<String>)
        ensures
            self@.session matches Some(s) ==> (r matches Some(t) && t@ == s.refresh_token),
            self@.session is None ==> r is None,
    {
        match &self.current_token {
            Some(t) => Some(t.refresh_token.clone()),
            None => None,
        }
    }

    pub fn get_user(&self) -> (r: Option<&UserProfile>)
        ensures
            self@.session matches Some(s) ==> (r matches Some(u) && u@ == s.user),
            self@.session is None ==> r is None,
    {
        match &self.current_token {
            Some(t) => Some(&t.user),
            None => None,
        }
    }

    /// Whether the session is stale at the given clock (Unix seconds). With
    /// no session at all the answer is always "expired".
    pub fn is_token_expired(&self, now: i64) -> (r: bool)
        ensures
            r == expired_at_snap(self@, now as int),
    {
        match &self.current_token {
            Some(t) => t.expires_at < now,
            None => true,
        }
    }

    /// The browser-facing OAuth URL; pure text building, never fails.
    pub fn generate_oauth_url(&self, provider: &str, redirect_uri: &str)
        -> (r: Result<String, AuthError>)
        ensures
            r matches Ok(u) && u@ == oauth_url_seq(self@.base_url, provider@, redirect_uri@),
    {
        Ok(build_oauth_url(self.base_url.as_str(), provider, redirect_uri))
    }

    /// The password grant call for the given credentials.
    pub fn login_email_request(&self, email: &str, password: &str) -> (r: HttpRequest)
        ensures
            r@.method == HttpMethod::Post,
            r@.url == password_grant_url_seq(self@.base_url),
            r@.apikey == self@.anon_key,
            r@.bearer is None,
            r@.body == Some(password_grant_body_seq(email@, password@)),
    {
        HttpRequest {
            method: HttpMethod::Post,
            url: append_path(self.base_url.as_str(), "/auth/v1/token?grant_type=password"),
            apikey: self.anon_key.clone(),
            bearer: None,
            body: Some(build_password_grant_body(email, password)),
        }
    }

    /// Reads the password grant's response: a rejected grant surfaces the
    /// backend's error body; an accepted one yields the token fields, with
    /// the expiry defaulting to an hour past the given clock.
    pub fn login_email_response(resp: &HttpResponse, now: i64)
        -> (r: Result<TokenFields, AuthError>)
        requires
            now <= i64::MAX - 3600,
        ensures
            !is_success_status(resp@.status)
                ==> (r matches Err(e) && e matches AuthError::AuthenticationFailed(b)
                    && b@ == resp@.body),
            is_success_status(resp@.status)
                ==> follows_token_fields_rule(r, token_fields_rule(
                    auth_json_of(resp@.body),
                    now as int + 3600,
                    None,
                )),
    {
        if !status_is_success(resp.status) {
            return Err(AuthError::AuthenticationFailed(resp.body.clone()));
        }
        let parts = extract_auth_json(resp.body.as_str());
        token_fields_from(parts, now + 3600, None)
    }

    /// The authorization-code exchange call.
    pub fn oauth_callback_request(&self, code: &str) -> (r: HttpRequest)
        ensures
            r@.method == HttpMethod::Post,
            r@.url == oauth_code_url_seq(self@.base_url),
            r@.apikey == self@.anon_key,
            r@.bearer is None,
            r@.body == Some(oauth_code_body_seq(code@)),
    {
        HttpRequest {
            method: HttpMethod::Post,
            url: append_path(self.base_url.as_str(), "/auth/v1/token?grant_type=authorization_code"),
            apikey: self.anon_key.clone(),
            bearer: None,
            body: Some(build_oauth_code_body(code)),
        }
    }

    /// Reads the code exchange's response; same rule as the password grant,
    /// under its own failure kind.
    pub fn oauth_callback_response(resp: &HttpResponse, now: i64)
        -> (r: Result<TokenFields, AuthError>)
        requires
            now <= i64::MAX - 3600,
        ensures
            !is_success_status(resp@.status)
                ==> (r matches Err(e) && e matches AuthError::OAuthFailed(b) && b@ == resp@.body),
            is_success_status(resp@.status)
                ==> follows_token_fields_rule(r, token_fields_rule(
                    auth_json_of(resp@.body),
                    now as int + 3600,
                    None,
                )),
    {
        if !status_is_success(resp.status) {
            return Err(AuthError::OAuthFailed(resp.body.clone()));
        }
        let parts = extract_auth_json(resp.body.as_str());
        token_fields_from(parts, now + 3600, None)
    }

    /// The refresh grant call for the current session; refused when there is
    /// no session to refresh.
    pub fn refresh_token_request(&self) -> (r: Result<HttpRequest, AuthError>)
        ensures
            self@.session is None ==> (r matches Err(e) && e is NoActiveSession),
            self@.session matches Some(s) ==> (r matches Ok(req)
                && req@.method == HttpMethod::Post
                && req@.url == refresh_grant_url_seq(self@.base_url)
                && req@.apikey == self@.anon_key
                && req@.bearer is None
                && req@.body == Some(refresh_grant_body_seq(s.refresh_token))),
    {
        let current = match &self.current_token {
            Some(t) => t,
            None => {
                return Err(AuthError::NoActiveSession);
            },
        };
        Ok(HttpRequest {
            method: HttpMethod::Post,
            url: append_path(self.base_url.as_str(), "/auth/v1/token?grant_type=refresh_token"),
            apikey: self.anon_key.clone(),
            bearer: None,
            body: Some(build_refresh_grant_body(current.refresh_token.as_str())),
        })
    }

    /// Reads the refresh grant's response. A response that omits the new
    /// refresh token keeps the prior one; an absent expiry is taken as
    /// already expired (zero), as the backend convention has it.
    pub fn refresh_token_response(resp: &HttpResponse, prior_refresh: &String)
        -> (r: Result<TokenFields, AuthError>)
        ensures
            !is_success_status(resp@.status)
                ==> (r matches Err(e) && e matches AuthError::RefreshFailed(b) && b@ == resp@.body),
            is_success_status(resp@.status)
                ==> follows_token_fields_rule(r, token_fields_rule(
                    auth_json_of(resp@.body),
                    0,
                    Some(prior_refresh@),
                )),
    {
        if !status_is_success(resp.status) {
            return Err(AuthError::RefreshFailed(resp.body.clone()));
        }
        let parts = extract_auth_json(resp.body.as_str());
        token_fields_from(parts, 0, Some(prior_refresh))
    }

    /// The profile fetch call for the given access token.
    pub fn fetch_profile_request(&self, access_token: &str) -> (r: HttpRequest)
        ensures
            r@.method == HttpMethod::Get,
            r@.url == profile_url_seq(self@.base_url),
            r@.apikey == self@.anon_key,
            r@.bearer == Some(access_token@),
            r@.body is None,
    {
        HttpRequest {
            method: HttpMethod::Get,
            url: append_path(self.base_url.as_str(), "/rest/v1/profiles"),
            apikey: self.anon_key.clone(),
            bearer: Some(String::from_str(access_token)),
            body: None,
        }
    }

    /// Reads the profile fetch's response. This never fails: a failed call or
    /// an empty result set yields the default profile, and every missing
    /// field falls back on its default.
    pub fn fetch_profile_response(resp: &HttpResponse) -> (p: UserProfile)
        ensures
            !is_success_status(resp@.status) ==> p@ == default_profile_snap(),
            is_success_status(resp@.status)
                ==> p@ == profile_from_parts_snap(profile_json_of(resp@.body)),
    {
        if !status_is_success(resp.status) {
            return UserProfile::default_profile();
        }
        let parts = extract_profile_json(resp.body.as_str());
        profile_from_parts(parts)
    }

    /// Persists the session into the store's three slots: the access token
    /// and refresh token as plain secrets, and the expiry-and-profile record
    /// beside them, in that order, stopping at the first failure.
    pub fn store_token(&mut self, token: &AuthToken) -> (r: Result<(), StoreError>)
        ensures
            final(self)@.session == old(self)@.session,
            final(self)@.base_url == old(self)@.base_url,
            final(self)@.anon_key == old(self)@.anon_key,
            r is Ok ==> final(self)@ == persisted_snap(old(self)@, token@),
            r is Err ==> (exists|k: int| 0 <= k < 3
                && final(self)@ == #[trigger] persist_prefix_snap(old(self)@, token@, k)),
    {
        match self.store.set("access-token", token.access_token.as_str()) {
            Ok(()) => {},
            Err(e) => {
                proof {
                    assert(self@ == persist_prefix_snap(old(self)@, token@, 0));
                }
                return Err(e);
            },
        }
        match self.store.set("refresh-token", token.refresh_token.as_str()) {
            Ok(()) => {},
            Err(e) => {
                proof {
                    assert(self@ == persist_prefix_snap(old(self)@, token@, 1));
                }
                return Err(e);
            },
        }
        let data = encode_record(token.expires_at, &token.user);
        match self.store.set("token-data", data.as_str()) {
            Ok(()) => {},
            Err(e) => {
                proof {
                    assert(self@ == persist_prefix_snap(old(self)@, token@, 2));
                }
                return Err(e);
            },
        }
        proof {
            assert(self@ == persisted_snap(old(self)@, token@));
        }
        Ok(())
    }

    /// Installs a caller-supplied session in memory, leaving the store
    /// untouched. This is the install step of the grant flows and of the
    /// warm start; it takes the caller's word that the session came from a
    /// successful grant or restore — nothing here can check provenance.
    pub fn set_session(&mut self, token: AuthToken)
        ensures
            final(self)@ == with_session_snap(old(self)@, token@),
    {
        self.current_token = Some(token);
    }

    /// Assembles the session from a grant's fields and a profile, persists
    /// it into the three slots, and installs it. On a store failure nothing
    /// is installed — at most a prefix of the slot writes went through — and
    /// the failure propagates; otherwise the assembled session is returned.
    pub fn complete_grant(&mut self, fields: TokenFields, profile: UserProfile)
        -> (r: Result<AuthToken, AuthError>)
        ensures
            r matches Ok(t) ==> (t@ == token_snap_of(fields, profile@)
                && final(self)@ == with_session_snap(
                    persisted_snap(old(self)@, token_snap_of(fields, profile@)),
                    token_snap_of(fields, profile@),
                )),
            r matches Err(e) ==> (e is Store
                && final(self)@.session == old(self)@.session
                && (exists|k: int| 0 <= k < 3 && final(self)@
                    == #[trigger] persist_prefix_snap(
                        old(self)@,
                        token_snap_of(fields, profile@),
                        k,
                    ))),
    {
        let token = AuthToken {
            access_token: fields.access_token,
            refresh_token: fields.refresh_token,
            expires_at: fields.expires_at,
            user: profile,
        };
        match self.store_token(&token) {
            Ok(()) => {},
            Err(e) => {
                return Err(AuthError::Store(e));
            },
        }
        let installed = token.duplicate();
        self.current_token = Some(installed);
        Ok(token)
    }

    /// Replaces the current session's profile — tokens and expiry keep their
    /// prior values — and persists the updated session best-effort; with no
    /// session it does nothing. It never fails: a store failure is swallowed,
    /// with at most a prefix of the slot writes gone through.
    pub fn update_profile(&mut self, profile: UserProfile) -> (r: Result<(), AuthError>)
        ensures
            r is Ok,
            old(self)@.session is None ==> final(self)@ == old(self)@,
            old(self)@.session matches Some(s)
                ==> (final(self)@.session == Some(AuthTokenSnap { user: profile@, ..s })
                    && (exists|k: int| 0 <= k <= 3 && final(self)@ == with_session_snap(
                        #[trigger] persist_prefix_snap(
                            old(self)@,
                            AuthTokenSnap { user: profile@, ..s },
                            k,
                        ),
                        AuthTokenSnap { user: profile@, ..s },
                    ))),
    {
        let updated = match &self.current_token {
            None => {
                return Ok(());
            },
            Some(t) => AuthToken {
                access_token: t.access_token.clone(),
                refresh_token: t.refresh_token.clone(),
                expires_at: t.expires_at,
                user: profile,
            },
        };
        let ghost s = old(self)@.session->Some_0;
        let ghost ut = AuthTokenSnap { user: profile@, ..s };
        proof {
            assert(updated@ == ut);
        }
        let installed = updated.duplicate();
        self.current_token = Some(installed);
        let ghost mid = self@;
        proof {
            assert(mid == with_session_snap(old(self)@, ut));
        }
        let stored = self.store_token(&updated);
        proof {
            match stored {
                Ok(_) => {
                    assert(self@ == persisted_snap(mid, ut));
                    assert(self@ == with_session_snap(persist_prefix_snap(old(self)@, ut, 3), ut));
                },
                Err(_) => {
                    let k = choose|k: int| 0 <= k < 3
                        && self@ == #[trigger] persist_prefix_snap(mid, ut, k);
                    assert(self@ == with_session_snap(persist_prefix_snap(old(self)@, ut, k), ut));
                },
            }
        }
        Ok(())
    }

    /// Clears the three stored slots, tolerating slots that are already gone,
    /// and drops the in-memory session unconditionally. Never fails.
    pub fn logout(&mut self) -> (r: Result<(), AuthError>)
        ensures
            r is Ok,
            final(self)@ == cleared_snap(old(self)@),
    {
        let _ = self.store.delete("access-token");
        let _ = self.store.delete("refresh-token");
        let _ = self.store.delete("token-data");
        self.current_token = None;
        Ok(())
    }

    /// Best-effort warm start from the secret store, without any network
    /// call: nothing when any of the three slots cannot be read or the
    /// record does not decode. What the store holds is outside the model, so
    /// of a success only this much can be said: the expiry and profile are
    /// the decoding of some record text, under `decode_record_seq`'s rule
    /// (`token_from_store_parts` states the slot-to-field mapping).
    pub fn load_stored_token() -> (r: Option<AuthToken>)
        ensures
            r matches Some(t) ==> (exists|d: Seq<char>|
                #[trigger] decode_record_seq(d) == Some((t@.expires_at, t@.user))),
    {
        let access = match keyring_get("jamu", "access-token") {
            Ok(v) => v,
            Err(_) => {
                return None;
            },
        };
        let refresh = match keyring_get("jamu", "refresh-token") {
            Ok(v) => v,
            Err(_) => {
                return None;
            },
        };
        let data = match keyring_get("jamu", "token-data") {
            Ok(v) => v,
            Err(_) => {
                return None;
            },
        };
        token_from_store_parts(access, refresh, data.as_str())
    }
}

impl Default for AgentAuth {
    /// Same as `new`: the placeholder configuration, no session.
    fn default() -> (r: AgentAuth)
        ensures
            r@.session is None,
            r@.base_url == "https://placeholder.supabase.co"@,
            r@.anon_key == "placeholder-anon-key"@,
    {
        AgentAuth::new()
    }
}

/// A manager that holds no session answers "not authenticated" and hands out
/// no access token — in particular every freshly constructed one.
pub proof fn lemma_fresh_manager_unauthenticated(v: AgentAuthSnap)
    requires
        v.session is None,
    ensures
        !is_authenticated_snap(v),
        current_token_snap(v) is None,
        expired_at_snap(v, 0),
{
}

/// A session whose expiry is zero is reported expired at every positive
/// clock, whatever else it holds.
pub proof fn lemma_expiry_zero_always_expired(v: AgentAuthSnap, now: int)
    requires
        now >= 1,
        match v.session {
            Some(s) => s.expires_at == 0,
            None => true,
        },
    ensures
        expired_at_snap(v, now),
{
}

/// Logging out is idempotent: a second logout changes nothing, and the
/// result is unauthenticated with none of the three slots counted as
/// written, either way.
pub proof fn lemma_logout_idempotent(v: AgentAuthSnap)
    ensures
        cleared_snap(cleared_snap(v)) == cleared_snap(v),
        !is_authenticated_snap(cleared_snap(v)),
        !cleared_snap(v).written.dom().contains("access-token"@),
        !cleared_snap(v).written.dom().contains("refresh-token"@),
        !cleared_snap(v).written.dom().contains("token-data"@),
{
    assert(cleared_snap(cleared_snap(v)).written =~= cleared_snap(v).written);
}

} // verus!
