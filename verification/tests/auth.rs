use agent_auth::AgentAuth;
use agent_auth::AuthError;
use agent_auth::AuthToken;
use agent_auth::UserProfile;
use agent_auth::record::{decode_record, encode_record};
use agent_auth::requests::HttpMethod;
use agent_auth::responses::{AuthJson, HttpResponse, token_fields_from};
use agent_auth::store::token_from_store_parts;

fn sample_profile() -> UserProfile {
    UserProfile {
        id: "test".to_string(),
        email: "test@test.com".to_string(),
        tier: "free".to_string(),
        tokens_remaining: 10000,
        daily_limit: 10000,
    }
}

#[test]
fn test_auth_creation() {
    let auth = AgentAuth::new();
    assert!(!auth.is_authenticated());
}

#[test]
fn test_oauth_url_generation() {
    let auth = AgentAuth::with_config(
        "https://test.supabase.co".to_string(),
        "test-key".to_string(),
    );

    let url = auth
        .generate_oauth_url("google", "jamu://auth/callback")
        .unwrap();
    assert!(url.contains("google"));
    assert!(url.contains("jamu://auth/callback"));
}

#[test]
fn test_token_expiry_check() {
    let mut auth = AgentAuth::new();
    auth.set_session(AuthToken {
        access_token: "test".to_string(),
        refresh_token: "test".to_string(),
        expires_at: 0, // Expired
        user: sample_profile(),
    });

    assert!(auth.is_token_expired(1_700_000_000));
}

#[test]
fn fresh_manager_has_no_token() {
    let auth = AgentAuth::new();
    assert!(auth.get_token().is_none());
    assert!(auth.get_user().is_none());
    assert!(auth.is_token_expired(1));
}

#[test]
fn expiry_zero_is_expired_at_any_positive_clock() {
    let mut auth = AgentAuth::new();
    auth.set_session(AuthToken {
        access_token: "a".to_string(),
        refresh_token: "r".to_string(),
        expires_at: 0,
        user: sample_profile(),
    });
    assert!(auth.is_token_expired(1));
    assert!(auth.is_token_expired(i64::MAX));
}

#[test]
fn future_expiry_is_not_expired() {
    let mut auth = AgentAuth::new();
    auth.set_session(AuthToken {
        access_token: "a".to_string(),
        refresh_token: "r".to_string(),
        expires_at: 2_000_000_000,
        user: sample_profile(),
    });
    assert!(!auth.is_token_expired(1_700_000_000));
}

#[test]
fn login_request_carries_credentials_and_endpoint() {
    let auth = AgentAuth::with_config(
        "https://test.supabase.co".to_string(),
        "test-key".to_string(),
    );
    let req = auth.login_email_request("user@example.com", "hunter2");
    assert!(matches!(req.method, HttpMethod::Post));
    assert_eq!(
        req.url,
        "https://test.supabase.co/auth/v1/token?grant_type=password"
    );
    assert_eq!(req.apikey, "test-key");
    assert!(req.bearer.is_none());
    let body = req.body.unwrap();
    assert_eq!(body, "{\"email\":\"user@example.com\",\"password\":\"hunter2\"}");
}

#[test]
fn login_rejection_surfaces_backend_body() {
    let resp = HttpResponse {
        status: 401,
        body: "invalid credentials".to_string(),
    };
    let r = AgentAuth::login_email_response(&resp, 1_700_000_000);
    match r {
        Err(AuthError::AuthenticationFailed(body)) => {
            assert_eq!(body, "invalid credentials");
        }
        _ => panic!("expected an authentication failure"),
    }
}

#[test]
fn login_rejection_leaves_manager_unauthenticated() {
    let mut auth = AgentAuth::with_config(
        "https://test.supabase.co".to_string(),
        "test-key".to_string(),
    );
    let resp = HttpResponse {
        status: 401,
        body: "nope".to_string(),
    };
    let r = AgentAuth::login_email_response(&resp, 1_700_000_000);
    assert!(r.is_err());
    assert!(!auth.is_authenticated());
    // a later successful grant still works
    let ok = HttpResponse {
        status: 200,
        body: "{\"access_token\":\"at\",\"refresh_token\":\"rt\",\"expires_at\":9}".to_string(),
    };
    let fields = AgentAuth::login_email_response(&ok, 1_700_000_000).unwrap();
    assert_eq!(fields.access_token, "at");
    assert_eq!(fields.refresh_token, "rt");
    assert_eq!(fields.expires_at, 9);
    auth.set_session(AuthToken {
        access_token: fields.access_token,
        refresh_token: fields.refresh_token,
        expires_at: fields.expires_at,
        user: sample_profile(),
    });
    assert!(auth.is_authenticated());
}

#[test]
fn login_missing_access_token_is_a_parse_failure() {
    let resp = HttpResponse {
        status: 200,
        body: "{\"refresh_token\":\"rt\"}".to_string(),
    };
    let r = AgentAuth::login_email_response(&resp, 1_700_000_000);
    assert!(matches!(r, Err(AuthError::MissingField(f)) if f == "access_token"));
}

#[test]
fn login_missing_refresh_token_is_a_parse_failure() {
    let resp = HttpResponse {
        status: 200,
        body: "{\"access_token\":\"at\"}".to_string(),
    };
    let r = AgentAuth::login_email_response(&resp, 1_700_000_000);
    assert!(matches!(r, Err(AuthError::MissingField(f)) if f == "refresh_token"));
}

#[test]
fn login_expiry_defaults_to_an_hour_ahead() {
    let resp = HttpResponse {
        status: 200,
        body: "{\"access_token\":\"at\",\"refresh_token\":\"rt\"}".to_string(),
    };
    let fields = AgentAuth::login_email_response(&resp, 1_700_000_000).unwrap();
    assert_eq!(fields.expires_at, 1_700_003_600);
}

#[test]
fn oauth_rejection_has_its_own_kind() {
    let resp = HttpResponse {
        status: 400,
        body: "bad code".to_string(),
    };
    let r = AgentAuth::oauth_callback_response(&resp, 1_700_000_000);
    assert!(matches!(r, Err(AuthError::OAuthFailed(b)) if b == "bad code"));
}

#[test]
fn refresh_without_session_is_refused() {
    let auth = AgentAuth::new();
    let r = auth.refresh_token_request();
    assert!(matches!(r, Err(AuthError::NoActiveSession)));
}

#[test]
fn refresh_request_carries_current_refresh_token() {
    let mut auth = AgentAuth::with_config(
        "https://test.supabase.co".to_string(),
        "test-key".to_string(),
    );
    auth.set_session(AuthToken {
        access_token: "at".to_string(),
        refresh_token: "rt-1".to_string(),
        expires_at: 5,
        user: sample_profile(),
    });
    let req = auth.refresh_token_request().unwrap();
    assert_eq!(
        req.url,
        "https://test.supabase.co/auth/v1/token?grant_type=refresh_token"
    );
    assert_eq!(req.body.unwrap(), "{\"refresh_token\":\"rt-1\"}");
}

#[test]
fn refresh_keeps_prior_refresh_token_when_response_omits_it() {
    let resp = HttpResponse {
        status: 200,
        body: "{\"access_token\":\"new-at\",\"expires_at\":123}".to_string(),
    };
    let prior = "keep-me".to_string();
    let fields = AgentAuth::refresh_token_response(&resp, &prior).unwrap();
    assert_eq!(fields.access_token, "new-at");
    assert_eq!(fields.refresh_token, "keep-me");
    assert_eq!(fields.expires_at, 123);
}

#[test]
fn refresh_missing_expiry_means_already_expired() {
    let resp = HttpResponse {
        status: 200,
        body: "{\"access_token\":\"new-at\",\"refresh_token\":\"new-rt\"}".to_string(),
    };
    let prior = "old-rt".to_string();
    let fields = AgentAuth::refresh_token_response(&resp, &prior).unwrap();
    assert_eq!(fields.refresh_token, "new-rt");
    assert_eq!(fields.expires_at, 0);
}

#[test]
fn refresh_rejection_has_its_own_kind() {
    let resp = HttpResponse {
        status: 403,
        body: "stale".to_string(),
    };
    let prior = "rt".to_string();
    let r = AgentAuth::refresh_token_response(&resp, &prior);
    assert!(matches!(r, Err(AuthError::RefreshFailed(b)) if b == "stale"));
}

#[test]
fn profile_fetch_never_fails_on_http_error() {
    let resp = HttpResponse {
        status: 500,
        body: "server exploded".to_string(),
    };
    let p = AgentAuth::fetch_profile_response(&resp);
    assert_eq!(p.tier, "free");
    assert_eq!(p.tokens_remaining, 10000);
    assert_eq!(p.daily_limit, 10000);
    assert_eq!(p.id, "");
    assert_eq!(p.email, "");
}

#[test]
fn profile_fetch_never_fails_on_empty_result() {
    let resp = HttpResponse {
        status: 200,
        body: "[]".to_string(),
    };
    let p = AgentAuth::fetch_profile_response(&resp);
    assert_eq!(p.tier, "free");
    assert_eq!(p.tokens_remaining, 10000);
    assert_eq!(p.daily_limit, 10000);
}

#[test]
fn profile_fetch_reads_the_first_row() {
    let resp = HttpResponse {
        status: 200,
        body: "[{\"id\":\"u1\",\"email\":\"e@x\",\"tier\":\"pro\",\
               \"tokens_remaining\":5,\"daily_token_limit\":7}]"
            .to_string(),
    };
    let p = AgentAuth::fetch_profile_response(&resp);
    assert_eq!(p.id, "u1");
    assert_eq!(p.email, "e@x");
    assert_eq!(p.tier, "pro");
    assert_eq!(p.tokens_remaining, 5);
    assert_eq!(p.daily_limit, 7);
}

#[test]
fn profile_fetch_fills_missing_fields_with_defaults() {
    let resp = HttpResponse {
        status: 200,
        body: "[{\"id\":\"u1\"}]".to_string(),
    };
    let p = AgentAuth::fetch_profile_response(&resp);
    assert_eq!(p.id, "u1");
    assert_eq!(p.email, "");
    assert_eq!(p.tier, "free");
    assert_eq!(p.tokens_remaining, 10000);
    assert_eq!(p.daily_limit, 10000);
}

#[test]
fn token_fields_rule_is_exact() {
    let parts = AuthJson {
        access_token: None,
        refresh_token: Some("rt".to_string()),
        expires_at: Some(1),
    };
    let r = token_fields_from(parts, 9, None);
    assert!(matches!(r, Err(AuthError::MissingField(f)) if f == "access_token"));

    let parts = AuthJson {
        access_token: Some("at".to_string()),
        refresh_token: None,
        expires_at: None,
    };
    let r = token_fields_from(parts, 9, None);
    assert!(matches!(r, Err(AuthError::MissingField(f)) if f == "refresh_token"));

    let parts = AuthJson {
        access_token: Some("at".to_string()),
        refresh_token: None,
        expires_at: None,
    };
    let prior = "old".to_string();
    let f = token_fields_from(parts, 9, Some(&prior)).unwrap();
    assert_eq!(f.access_token, "at");
    assert_eq!(f.refresh_token, "old");
    assert_eq!(f.expires_at, 9);
}

#[test]
fn record_round_trips_plain_values() {
    let user = sample_profile();
    let text = encode_record(1_700_000_000, &user);
    let (expires, back) = decode_record(&text).unwrap();
    assert_eq!(expires, 1_700_000_000);
    assert_eq!(back.id, "test");
    assert_eq!(back.email, "test@test.com");
    assert_eq!(back.tier, "free");
    assert_eq!(back.tokens_remaining, 10000);
    assert_eq!(back.daily_limit, 10000);
}

#[test]
fn record_round_trips_awkward_text_and_extremes() {
    let user = UserProfile {
        id: "a\"b\\c".to_string(),
        email: "line\nbreak\ttab".to_string(),
        tier: "".to_string(),
        tokens_remaining: i64::MIN,
        daily_limit: i64::MAX,
    };
    let text = encode_record(-1, &user);
    let (expires, back) = decode_record(&text).unwrap();
    assert_eq!(expires, -1);
    assert_eq!(back.id, "a\"b\\c");
    assert_eq!(back.email, "line\nbreak\ttab");
    assert_eq!(back.tier, "");
    assert_eq!(back.tokens_remaining, i64::MIN);
    assert_eq!(back.daily_limit, i64::MAX);
}

#[test]
fn record_encoding_is_json() {
    let user = sample_profile();
    let text = encode_record(7, &user);
    assert_eq!(
        text,
        "{\"expires_at\":7,\"user\":{\"id\":\"test\",\"email\":\"test@test.com\",\
         \"tier\":\"free\",\"tokens_remaining\":10000,\"daily_limit\":10000}}"
    );
}

#[test]
fn malformed_record_reads_back_as_nothing() {
    assert!(decode_record("not json at all").is_none());
    assert!(decode_record("{\"expires_at\":oops}").is_none());
    assert!(decode_record("").is_none());
    assert!(decode_record("{\"expires_at\":1,\"user\":{\"id\":\"x\"").is_none());
    assert!(token_from_store_parts("a".to_string(), "r".to_string(), "{broken").is_none());
}

#[test]
fn restore_parts_rebuild_an_equivalent_session() {
    let user = sample_profile();
    let text = encode_record(42, &user);
    let token =
        token_from_store_parts("the-access".to_string(), "the-refresh".to_string(), &text)
            .unwrap();
    assert_eq!(token.access_token, "the-access");
    assert_eq!(token.refresh_token, "the-refresh");
    assert_eq!(token.expires_at, 42);
    assert_eq!(token.user.email, "test@test.com");
}

#[test]
fn logout_is_idempotent() {
    let mut auth = AgentAuth::new();
    auth.set_session(AuthToken {
        access_token: "a".to_string(),
        refresh_token: "r".to_string(),
        expires_at: 99,
        user: sample_profile(),
    });
    assert!(auth.is_authenticated());
    assert!(auth.logout().is_ok());
    assert!(!auth.is_authenticated());
    assert!(auth.logout().is_ok());
    assert!(!auth.is_authenticated());
    assert!(auth.get_token().is_none());
}

#[test]
fn update_profile_without_session_is_a_no_op() {
    let mut auth = AgentAuth::new();
    assert!(auth.update_profile(sample_profile()).is_ok());
    assert!(!auth.is_authenticated());
}

#[test]
fn update_profile_replaces_the_session_profile() {
    let mut auth = AgentAuth::new();
    auth.set_session(AuthToken {
        access_token: "a".to_string(),
        refresh_token: "r".to_string(),
        expires_at: 99,
        user: sample_profile(),
    });
    let newer = UserProfile {
        id: "test".to_string(),
        email: "test@test.com".to_string(),
        tier: "pro".to_string(),
        tokens_remaining: 1,
        daily_limit: 2,
    };
    // persisting is best-effort; the profile-only refresh never fails and
    // the in-memory profile is replaced either way
    assert!(auth.update_profile(newer).is_ok());
    let user = auth.get_user().unwrap();
    assert_eq!(user.tier, "pro");
    assert_eq!(user.tokens_remaining, 1);
    assert_eq!(user.daily_limit, 2);
    assert_eq!(auth.get_token().unwrap(), "a");
}

#[test]
fn expiry_is_strict() {
    let mut auth = AgentAuth::new();
    auth.set_session(AuthToken {
        access_token: "a".to_string(),
        refresh_token: "r".to_string(),
        expires_at: 100,
        user: sample_profile(),
    });
    assert!(!auth.is_token_expired(100));
    assert!(auth.is_token_expired(101));
}

#[test]
fn error_text_carries_the_backend_body() {
    let e = AuthError::AuthenticationFailed("bad password".to_string());
    assert_eq!(e.describe(), "Authentication failed: bad password");
    let e = AuthError::NoActiveSession;
    assert_eq!(e.describe(), "No token to refresh");
    let e = AuthError::MissingField("access_token".to_string());
    assert_eq!(e.describe(), "Missing access_token");
}

#[test]
fn oauth_request_carries_the_code() {
    let auth = AgentAuth::with_config(
        "https://test.supabase.co".to_string(),
        "test-key".to_string(),
    );
    let req = auth.oauth_callback_request("the-code");
    assert_eq!(
        req.url,
        "https://test.supabase.co/auth/v1/token?grant_type=authorization_code"
    );
    assert_eq!(
        req.body.unwrap(),
        "{\"grant_type\":\"authorization_code\",\"code\":\"the-code\"}"
    );
}

#[test]
fn profile_request_carries_the_bearer_token() {
    let auth = AgentAuth::with_config(
        "https://test.supabase.co".to_string(),
        "test-key".to_string(),
    );
    let req = auth.fetch_profile_request("bearer-me");
    assert!(matches!(req.method, HttpMethod::Get));
    assert_eq!(req.url, "https://test.supabase.co/rest/v1/profiles");
    assert_eq!(req.bearer.unwrap(), "bearer-me");
    assert!(req.body.is_none());
}
