use vstd::prelude::*;
use vstd::string::StringExecFns;
use crate::escape::{escape_seq, escape_string};

verus! {

/// Everything the backend is asked for, as a plain description of one HTTP
/// call. The transport that performs the call lives outside the library and
/// hands back a status and a body.

#[derive(PartialEq, Eq, Structural)]
pub enum HttpMethod {
    Get,
    Post,
}

/// Model of a request: the URL, the public API key header, an optional bearer
/// token, and an optional JSON body.
pub ghost struct HttpRequestSnap {
    pub method: HttpMethod,
    pub url: Seq<char>,
    pub apikey: Seq<char>,
    pub bearer: Option<Seq<char>>,
    pub body: Option<Seq<char>>,
}

pub struct HttpRequest {
    pub method: HttpMethod,
    pub url: String,
    pub apikey: String,
    pub bearer: Option<String>,
    pub body: Option<String>,
}

impl View for HttpRequest {
    type V = HttpRequestSnap;

    open spec fn view(&self) -> HttpRequestSnap {
        HttpRequestSnap {
            method: self.method,
            url: self.url@,
            apikey: self.apikey@,
            bearer: match self.bearer {
                Some(b) => Some(b@),
                None => None,
            },
            body: match self.body {
                Some(b) => Some(b@),
                None => None,
            },
        }
    }
}

/// The browser-facing authorization URL for an OAuth provider.
pub open spec fn oauth_url_seq(base: Seq<char>, provider: Seq<char>, redirect: Seq<char>) -> Seq<char> {
    base + "/auth/v1/authorize?provider="@ + provider + "&redirect_to="@ + redirect
}

/// The password grant's endpoint and body.
pub open spec fn password_grant_url_seq(base: Seq<char>) -> Seq<char> {
    base + "/auth/v1/token?grant_type=password"@
}

pub open spec fn password_grant_body_seq(email: Seq<char>, password: Seq<char>) -> Seq<char> {
    "{\"email\":\""@ + escape_seq(email) + "\",\"password\":\""@ + escape_seq(password) + "\"}"@
}

/// The authorization-code grant's endpoint and body.
pub open spec fn oauth_code_url_seq(base: Seq<char>) -> Seq<char> {
    base + "/auth/v1/token?grant_type=authorization_code"@
}

pub open spec fn oauth_code_body_seq(code: Seq<char>) -> Seq<char> {
    "{\"grant_type\":\"authorization_code\",\"code\":\""@ + escape_seq(code) + "\"}"@
}

/// The refresh grant's endpoint and body.
pub open spec fn refresh_grant_url_seq(base: Seq<char>) -> Seq<char> {
    base + "/auth/v1/token?grant_type=refresh_token"@
}

pub open spec fn refresh_grant_body_seq(refresh_token: Seq<char>) -> Seq<char> {
    "{\"refresh_token\":\""@ + escape_seq(refresh_token) + "\"}"@
}

/// The profile table's endpoint.
pub open spec fn profile_url_seq(base: Seq<char>) -> Seq<char> {
    base + "/rest/v1/profiles"@
}

pub fn build_oauth_url(base: &str, provider: &str, redirect: &str) -> (r: String)
    ensures
        r@ == oauth_url_seq(base@, provider@, redirect@),
{
    let mut out = String::from_str(base);
    out.append("/auth/v1/authorize?provider=");
    out.append(provider);
    out.append("&redirect_to=");
    out.append(redirect);
    out
}

pub fn build_password_grant_body(email: &str, password: &str) -> (r: String)
    ensures
        r@ == password_grant_body_seq(email@, password@),
{
    let mut out = String::from_str("{\"email\":\"");
    let e = escape_string(email);
    out.append(e.as_str());
    out.append("\",\"password\":\"");
    let p = escape_string(password);
    out.append(p.as_str());
    out.append("\"}");
    out
}

pub fn build_oauth_code_body(code: &str) -> (r: String)
    ensures
        r@ == oauth_code_body_seq(code@),
{
    let mut out = String::from_str("{\"grant_type\":\"authorization_code\",\"code\":\"");
    let c = escape_string(code);
    out.append(c.as_str());
    out.append("\"}");
    out
}

pub fn build_refresh_grant_body(refresh_token: &str) -> (r: String)
    ensures
        r@ == refresh_grant_body_seq(refresh_token@),
{
    let mut out = String::from_str("{\"refresh_token\":\"");
    let t = escape_string(refresh_token);
    out.append(t.as_str());
    out.append("\"}");
    out
}

pub fn append_path(base: &str, path: &str) -> (r: String)
    ensures
        r@ == base@ + path@,
{
    let mut out = String::from_str(base);
    out.append(path);
    out
}

/// `n` occurs somewhere inside `h`.
pub open spec fn contains_seq(h: Seq<char>, n: Seq<char>) -> bool {
    exists|i: int| 0 <= i && i + n.len() <= h.len() && #[trigger] h.subrange(i, i + n.len() as int) == n
}

proof fn lemma_concat_contains_middle(a: Seq<char>, b: Seq<char>, c: Seq<char>)
    ensures
        contains_seq(a + b + c, b),
{
    let s = a + b + c;
    let i = a.len() as int;
    assert(s.subrange(i, i + b.len() as int) =~= b);
}

/// The authorization URL carries the provider and the redirect target
/// verbatim, whatever the inputs are.
pub proof fn lemma_oauth_url_contains(base: Seq<char>, provider: Seq<char>, redirect: Seq<char>)
    ensures
        contains_seq(oauth_url_seq(base, provider, redirect), provider),
        contains_seq(oauth_url_seq(base, provider, redirect), redirect),
{
    let u = oauth_url_seq(base, provider, redirect);
    assert(u =~= (base + "/auth/v1/authorize?provider="@) + provider + ("&redirect_to="@ + redirect));
    lemma_concat_contains_middle(
        base + "/auth/v1/authorize?provider="@,
        provider,
        "&redirect_to="@ + redirect,
    );
    assert(u =~= (base + "/auth/v1/authorize?provider="@ + provider + "&redirect_to="@) + redirect
        + Seq::<char>::empty());
    lemma_concat_contains_middle(
        base + "/auth/v1/authorize?provider="@ + provider + "&redirect_to="@,
        redirect,
        Seq::empty(),
    );
}

} // verus!
