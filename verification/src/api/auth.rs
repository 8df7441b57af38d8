//! Authentication: tokens, and the HTML/URL helpers of the OAuth login flow.
use vstd::prelude::*;
use crate::api::blocking::{Fetched, BASE_URL};
use crate::api::endpoints::{CLIENT_ID, OAUTH_URL};
use crate::codec::{first_capture, regex_first_group};
use crate::text::{
    chars_in_bytes, chars_of, chars_within_bytes, find, find_at, find_first, find_from, is_byte_boundary, occurs_at,
    has_char, lemma_find_from_occurs, lemma_replace_absent, owned, replace, replace_all, string_of,
};

verus! {

/// An access token with the refresh token that renews it.
#[derive(Debug, Clone)]
pub struct Token {
    pub access_token: String,
    pub refresh_token: String,
}

/// The token pair as the diary API names it in its JSON replies.
#[derive(Debug, Clone)]
pub struct AuthResponse {
    pub auth_token: String,
    pub refresh_token: String,
}

/// The login entry point of the API client.
pub struct Auth;

impl Auth {
    /// A fresh authenticator; it holds no state.
    pub fn new() -> (auth: Self)
        ensures
            auth == Auth,
    {
        Auth
    }
}

/// The form field that carries the anti-forgery token.
pub const CSRF_PATTERN: &'static str = "name=\"__RequestVerificationToken\"[^>]*value=\"([^\"]+)\"";

/// The form field that carries the OAuth return URL.
pub const RETURN_URL_PATTERN: &'static str = "name=\"Input\\.ReturnUrl\"\\s+value=\"([^\"]+)\"";

/// The pre-authorisation UUID in the diary's redirect.
pub const UUID_PATTERN: &'static str = "preauthorized\\?data=([^&]+)";

/// The view of an optional string.
pub open spec fn opt_view(o: Option<String>) -> Option<Seq<char>> {
    match o {
        Some(s) => Some(s@),
        None => None,
    }
}

/// HTML entity decoding of `&amp;`, `&lt;`, `&gt;` and `&quot;`, applied in
/// that order, each to the result of the previous one.
pub open spec fn decoded(s: Seq<char>) -> Seq<char> {
    replace_all(
        replace_all(replace_all(replace_all(s, "&amp;"@, "&"@), "&lt;"@, "<"@), "&gt;"@, ">"@),
        "&quot;"@,
        "\""@,
    )
}

/// Decodes the HTML entities `&amp;`, `&lt;`, `&gt;` and `&quot;`.
pub fn decode_entities(s: &str) -> (res: String)
    ensures
        res@ == decoded(s@),
{
    proof {
        reveal_strlit("&amp;");
        reveal_strlit("&lt;");
        reveal_strlit("&gt;");
        reveal_strlit("&quot;");
    }
    let a = replace(s, "&amp;", "&");
    let b = replace(a.as_str(), "&lt;", "<");
    let c = replace(b.as_str(), "&gt;", ">");
    replace(c.as_str(), "&quot;", "\"")
}

/// Text without an ampersand holds no entity: decoding leaves it as it is.
pub proof fn law_plain_text_is_not_decoded(s: Seq<char>)
    requires
        !has_char(s, '&'),
    ensures
        decoded(s) == s,
{
    reveal_strlit("&amp;");
    reveal_strlit("&lt;");
    reveal_strlit("&gt;");
    reveal_strlit("&quot;");
    lemma_replace_absent(s, "&amp;"@, "&"@);
    lemma_replace_absent(s, "&lt;"@, "<"@);
    lemma_replace_absent(s, "&gt;"@, ">"@);
    lemma_replace_absent(s, "&quot;"@, "\""@);
}

/// A URL whose origin can be taken: it contains `://`, or its byte 3 is a
/// character boundary (slicing there is what the origin rule does otherwise).
pub open spec fn origin_defined(url: Seq<char>) -> bool {
    find_first(url, "://"@) is Some || is_byte_boundary(url, 3)
}

/// Where the host starts: just after the first `://`, or at byte 3 when
/// there is none.
pub open spec fn scheme_end(url: Seq<char>) -> int {
    match find_first(url, "://"@) {
        Some(i) => i + 3,
        None => chars_in_bytes(url, 3),
    }
}

/// Where the host ends: at the first `/` after the scheme, or at the end.
pub open spec fn host_end(url: Seq<char>) -> int {
    match find_from(url, "/"@, scheme_end(url)) {
        Some(j) => j,
        None => url.len() as int,
    }
}

/// Scheme and host of `url`: everything before the first `/` that follows
/// the scheme separator.
pub open spec fn origin_of(url: Seq<char>) -> Seq<char> {
    url.subrange(0, host_end(url))
}

/// The end of the host part, as a character index.
pub fn host_end_index(url: &[char]) -> (end: usize)
    requires
        origin_defined(url@),
    ensures
        end == host_end(url@),
        end <= url@.len(),
{
    let sep = chars_of("://");
    let slash = chars_of("/");
    proof {
        reveal_strlit("://");
        reveal_strlit("/");
    }
    let n = url.len();
    let start = match find(url, &sep) {
        Some(i) => {
            proof {
                lemma_find_from_occurs(url@, sep@, 0);
                assert(sep@.len() == 3);
                assert(occurs_at(url@, sep@, i as int));
                assert(i + 3 <= n);
            }
            i + 3
        },
        None => {
            match chars_within_bytes(url, 3) {
                Some(k) => k,
                None => {
                    assert(false);
                    0
                },
            }
        },
    };
    match find_at(url, &slash, start) {
        Some(j) => {
            proof { lemma_find_from_occurs(url@, slash@, start as int); }
            j
        },
        None => url.len(),
    }
}

/// Scheme and host of a URL (`https://host/path` gives `https://host`).
pub fn extract_origin(url: &str) -> (res: String)
    requires
        origin_defined(url@),
    ensures
        res@ == origin_of(url@),
{
    let cs = chars_of(url);
    let end = host_end_index(&cs);
    string_of(&cs, 0, end)
}

/// The anti-forgery token of the OAuth login form.
pub fn extract_csrf(html: &str) -> (res: Option<String>)
    ensures
        opt_view(res) == regex_first_group(CSRF_PATTERN@, html@),
{
    first_capture(CSRF_PATTERN, html)
}

/// The decoded return URL of the OAuth login form.
pub fn extract_return_url(html: &str) -> (res: Option<String>)
    ensures
        opt_view(res) == match regex_first_group(RETURN_URL_PATTERN@, html@) {
            Some(g) => Some(decoded(g)),
            None => None,
        },
{
    match first_capture(RETURN_URL_PATTERN, html) {
        Some(g) => Some(decode_entities(g.as_str())),
        None => None,
    }
}

/// The pre-authorisation UUID carried by the diary's redirect URL.
pub fn extract_uuid(url: &str) -> (res: Option<String>)
    ensures
        opt_view(res) == regex_first_group(UUID_PATTERN@, url@),
{
    first_capture(UUID_PATTERN, url)
}


// ── token refresh ────────────────────────────────────────────────────────

/// Where the diary API renews a token: `PUT`, the refresh token as the
/// plain-text body.
pub fn refresh_endpoint() -> (url: String)
    ensures
        url@ == BASE_URL@ + "/api/v1/auth/refresh"@,
{
    let mut url = owned(BASE_URL);
    url.append("/api/v1/auth/refresh");
    url
}

/// Where the OAuth server renews a token: `POST` of a form.
pub fn token_endpoint() -> (url: String)
    ensures
        url@ == OAUTH_URL@ + "/connect/token"@,
{
    let mut url = owned(OAUTH_URL);
    url.append("/connect/token");
    url
}

/// The form of an OAuth refresh-token grant.
pub fn refresh_grant_form(refresh_token: &str) -> (form: Vec<(String, String)>)
    ensures
        form@.map_values(|p: (String, String)| (p.0@, p.1@)) == seq![
            ("client_id"@, CLIENT_ID@),
            ("grant_type"@, "refresh_token"@),
            ("refresh_token"@, refresh_token@),
        ],
{
    let mut form: Vec<(String, String)> = Vec::new();
    form.push((owned("client_id"), owned(CLIENT_ID)));
    form.push((owned("grant_type"), owned("refresh_token")));
    form.push((owned("refresh_token"), owned(refresh_token)));
    assert(form@.map_values(|p: (String, String)| (p.0@, p.1@)) =~= seq![
        ("client_id"@, CLIENT_ID@),
        ("grant_type"@, "refresh_token"@),
        ("refresh_token"@, refresh_token@),
    ]);
    form
}

/// How a refresh ends: the new access and refresh tokens, or
/// `Refresh request failed: …`, `Refresh failed (HTTP <status>): <body>`,
/// `Failed to parse refresh response: …`.
pub open spec fn refresh_result(reply: Fetched<AuthResponse>, res: Result<(String, String), String>) -> bool {
    match reply {
        Fetched::SendFailed(e) => res matches Err(m) && m@ == "Refresh request failed: "@ + e@,
        Fetched::Rejected { status, body } => res matches Err(m) && m@ == "Refresh failed (HTTP "@
            + status@ + "): "@ + body@,
        Fetched::Read(Err(e)) => res matches Err(m) && m@ == "Failed to parse refresh response: "@
            + e@,
        Fetched::Read(Ok(t)) => res == Ok::<(String, String), String>((t.auth_token, t.refresh_token)),
    }
}

/// Ends a token refresh with the tokens it produced or why it failed.
pub fn finish_refresh(reply: Fetched<AuthResponse>) -> (res: Result<(String, String), String>)
    ensures
        refresh_result(reply, res),
{
    match reply {
        Fetched::SendFailed(e) => {
            let mut m = owned("Refresh request failed: ");
            m.append(e.as_str());
            Err(m)
        },
        Fetched::Rejected { status, body } => {
            let mut m = owned("Refresh failed (HTTP ");
            m.append(status.as_str());
            m.append("): ");
            m.append(body.as_str());
            Err(m)
        },
        Fetched::Read(Err(e)) => {
            let mut m = owned("Failed to parse refresh response: ");
            m.append(e.as_str());
            Err(m)
        },
        Fetched::Read(Ok(t)) => Ok((t.auth_token, t.refresh_token)),
    }
}

/// Whether a re-login tries the refresh token first: only a present,
/// non-empty one.
pub fn refresh_first(refresh_token: Option<&str>) -> (try_it: bool)
    ensures
        try_it == (refresh_token matches Some(t) && t@.len() > 0),
{
    match refresh_token {
        Some(t) => !t.is_empty(),
        None => false,
    }
}

} // verus!
