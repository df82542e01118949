use vstd::prelude::*;
use vstd::string::StringExecFns;
use crate::errors::AuthError;
use crate::session::{UserProfile, UserProfileSnap, default_profile_snap};

verus! {

/// What came back from one HTTP call: the status code and the raw body.
pub ghost struct HttpResponseSnap {
    pub status: int,
    pub body: Seq<char>,
}

pub struct HttpResponse {
    pub status: u16,
    pub body: String,
}

impl View for HttpResponse {
    type V = HttpResponseSnap;

    open spec fn view(&self) -> HttpResponseSnap {
        HttpResponseSnap {
            status: self.status as int,
            body: self.body@,
        }
    }
}

/// The usual HTTP success range.
pub open spec fn is_success_status(status: int) -> bool {
    200 <= status < 300
}

pub fn status_is_success(status: u16) -> (b: bool)
    ensures
        b == is_success_status(status as int),
{
    200 <= status && status < 300
}

/// Model of the token fields a grant response may carry; a field the backend
/// left out is `None`.
pub ghost struct AuthJsonSnap {
    pub access_token: Option<Seq<char>>,
    pub refresh_token: Option<Seq<char>>,
    pub expires_at: Option<int>,
}

/// The token fields a grant response may carry; a field the backend left out
/// is `None`.
pub struct AuthJson {
    pub access_token: Option<String>,
    pub refresh_token: Option<String>,
    pub expires_at: Option<i64>,
}

impl View for AuthJson {
    type V = AuthJsonSnap;

    open spec fn view(&self) -> AuthJsonSnap {
        AuthJsonSnap {
            access_token: match self.access_token {
                Some(v) => Some(v@),
                None => None,
            },
            refresh_token: match self.refresh_token {
                Some(v) => Some(v@),
                None => None,
            },
            expires_at: match self.expires_at {
                Some(v) => Some(v as int),
                None => None,
            },
        }
    }
}

/// What serde_json's read of a grant response body yields. The result is a
/// function of the body alone; nothing else pins it down, so it carries a
/// name that the trusted reader's contract applies.
pub uninterp spec fn auth_json_of(body: Seq<char>) -> AuthJsonSnap;

/// Model of the profile fields the first profile row may carry.
pub ghost struct ProfileJsonSnap {
    pub id: Option<Seq<char>>,
    pub email: Option<Seq<char>>,
    pub tier: Option<Seq<char>>,
    pub tokens_remaining: Option<int>,
    pub daily_limit: Option<int>,
}

/// The profile fields a profile row may carry; a field the backend left out,
/// and every field when there is no row at all, is `None`.
pub struct ProfileJson {
    pub id: Option<String>,
    pub email: Option<String>,
    pub tier: Option<String>,
    pub tokens_remaining: Option<i64>,
    pub daily_limit: Option<i64>,
}

impl View for ProfileJson {
    type V = ProfileJsonSnap;

    open spec fn view(&self) -> ProfileJsonSnap {
        ProfileJsonSnap {
            id: match self.id {
                Some(v) => Some(v@),
                None => None,
            },
            email: match self.email {
                Some(v) => Some(v@),
                None => None,
            },
            tier: match self.tier {
                Some(v) => Some(v@),
                None => None,
            },
            tokens_remaining: match self.tokens_remaining {
                Some(v) => Some(v as int),
                None => None,
            },
            daily_limit: match self.daily_limit {
                Some(v) => Some(v as int),
                None => None,
            },
        }
    }
}

/// What serde_json's read of a profile response body yields: the named
/// fields of the first row. A function of the body alone, named so the
/// trusted reader's contract can apply it.
pub uninterp spec fn profile_json_of(body: Seq<char>) -> ProfileJsonSnap;

/// Relies on serde_json: reads the body as a JSON object and picks out the
/// `access_token` and `refresh_token` strings and the `expires_at` integer;
/// a missing field, a field of another type, or an unparseable body gives
/// `None` for the fields concerned. The result depends on the body alone.
#[verifier::external_body]
pub(crate) fn extract_auth_json(body: &str) -> (r: AuthJson)
    ensures
        r@ == auth_json_of(body@),
{
    let v: serde_json::Value = match serde_json::from_str(body) {
        Ok(v) => v,
        Err(_) => serde_json::Value::Null,
    };
    AuthJson {
        access_token: v["access_token"].as_str().map(|s| s.to_string()),
        refresh_token: v["refresh_token"].as_str().map(|s| s.to_string()),
        expires_at: v["expires_at"].as_i64(),
    }
}

/// Relies on serde_json: reads the body as a JSON array of profile rows and
/// picks the named fields out of the first row; a missing row or field gives
/// `None`. The daily limit sits in the backend's `daily_token_limit` column.
/// The result depends on the body alone.
#[verifier::external_body]
pub(crate) fn extract_profile_json(body: &str) -> (r: ProfileJson)
    ensures
        r@ == profile_json_of(body@),
{
    let rows: Vec<serde_json::Value> = match serde_json::from_str(body) {
        Ok(v) => v,
        Err(_) => Vec::new(),
    };
    let row = match rows.into_iter().next() {
        Some(r) => r,
        None => serde_json::Value::Null,
    };
    ProfileJson {
        id: row["id"].as_str().map(|s| s.to_string()),
        email: row["email"].as_str().map(|s| s.to_string()),
        tier: row["tier"].as_str().map(|s| s.to_string()),
        tokens_remaining: row["tokens_remaining"].as_i64(),
        daily_limit: row["daily_token_limit"].as_i64(),
    }
}

/// Model of the credential triple a successful grant yields.
pub ghost struct TokenFieldsSnap {
    pub access_token: Seq<char>,
    pub refresh_token: Seq<char>,
    pub expires_at: int,
}

/// The credential triple a successful grant yields.
pub struct TokenFields {
    pub access_token: String,
    pub refresh_token: String,
    pub expires_at: i64,
}

impl View for TokenFields {
    type V = TokenFieldsSnap;

    open spec fn view(&self) -> TokenFieldsSnap {
        TokenFieldsSnap {
            access_token: self.access_token@,
            refresh_token: self.refresh_token@,
            expires_at: self.expires_at as int,
        }
    }
}

/// The shared rule of all three grants, as a function: `access_token` is
/// mandatory; `refresh_token` is mandatory unless a prior one is there to
/// keep; `expires_at` falls back to the given value when absent. An `Err`
/// carries the name of the missing mandatory field.
pub open spec fn token_fields_rule(
    parts: AuthJsonSnap,
    fallback_expires: int,
    prior_refresh: Option<Seq<char>>,
) -> Result<TokenFieldsSnap, Seq<char>> {
    if parts.access_token is None {
        Err("access_token"@)
    } else if parts.refresh_token is None && prior_refresh is None {
        Err("refresh_token"@)
    } else {
        Ok(TokenFieldsSnap {
            access_token: parts.access_token->Some_0,
            refresh_token: match parts.refresh_token {
                Some(rt) => rt,
                None => prior_refresh->Some_0,
            },
            expires_at: match parts.expires_at {
                Some(x) => x,
                None => fallback_expires,
            },
        })
    }
}

/// How a grant outcome carries out what the rule says: the fields match on
/// `Ok`, and a missing mandatory field surfaces as `MissingField` under its
/// name.
pub open spec fn follows_token_fields_rule(
    r: Result<TokenFields, AuthError>,
    ruled: Result<TokenFieldsSnap, Seq<char>>,
) -> bool {
    match ruled {
        Ok(fs) => r matches Ok(f) && f@ == fs,
        Err(name) => r matches Err(e) && e matches AuthError::MissingField(n) && n@ == name,
    }
}

/// Applies `token_fields_rule` to the read fields, surfacing a missing
/// mandatory field as `MissingField` under its name.
pub fn token_fields_from(parts: AuthJson, fallback_expires: i64, prior_refresh: Option<&String>)
    -> (r: Result<TokenFields, AuthError>)
    ensures
        follows_token_fields_rule(r, token_fields_rule(
            parts@,
            fallback_expires as int,
            match prior_refresh {
                Some(p) => Some(p@),
                None => None,
            },
        )),
{
    let access_token = match parts.access_token {
        Some(a) => a,
        None => {
            return Err(AuthError::MissingField(string_of("access_token")));
        },
    };
    let refresh_token = match parts.refresh_token {
        Some(rt) => rt,
        None => match prior_refresh {
            Some(p) => p.clone(),
            None => {
                return Err(AuthError::MissingField(string_of("refresh_token")));
            },
        },
    };
    let expires_at = match parts.expires_at {
        Some(x) => x,
        None => fallback_expires,
    };
    Ok(TokenFields { access_token, refresh_token, expires_at })
}

fn string_of(s: &str) -> (r: String)
    ensures
        r@ == s@,
{
    String::from_str(s)
}

/// The defensive profile rule: every present field is taken over, every
/// absent one falls back to the default profile's value.
pub fn profile_from_parts(parts: ProfileJson) -> (p: UserProfile)
    ensures
        p@ == profile_from_parts_snap(parts@),
{
    UserProfile {
        id: match parts.id {
            Some(v) => v,
            None => String::new(),
        },
        email: match parts.email {
            Some(v) => v,
            None => String::new(),
        },
        tier: match parts.tier {
            Some(v) => v,
            None => string_of("free"),
        },
        tokens_remaining: match parts.tokens_remaining {
            Some(v) => v,
            None => 10000,
        },
        daily_limit: match parts.daily_limit {
            Some(v) => v,
            None => 10000,
        },
    }
}

/// What `profile_from_parts` yields: field for field, the row's value or the
/// default.
pub open spec fn profile_from_parts_snap(parts: ProfileJsonSnap) -> UserProfileSnap {
    UserProfileSnap {
        id: match parts.id {
            Some(v) => v,
            None => default_profile_snap().id,
        },
        email: match parts.email {
            Some(v) => v,
            None => default_profile_snap().email,
        },
        tier: match parts.tier {
            Some(v) => v,
            None => default_profile_snap().tier,
        },
        tokens_remaining: match parts.tokens_remaining {
            Some(v) => v,
            None => default_profile_snap().tokens_remaining,
        },
        daily_limit: match parts.daily_limit {
            Some(v) => v,
            None => default_profile_snap().daily_limit,
        },
    }
}

} // verus!
