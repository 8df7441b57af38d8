//! The application's OAuth entry point: the login URL and its tokens.
use vstd::prelude::*;
use vstd::utf8::encode_utf8;
use crate::api::auth::AuthResponse;
use crate::api::endpoints::{CLIENT_ID, OAUTH_URL, REDIRECT_URI, SCOPE};
use crate::codec::{law_percent_round_trip, percent_decoded, percent_encoded, url_encode};
use crate::text::owned;

pub use crate::api::auth::{
    decode_entities, extract_csrf, extract_origin, extract_return_url, extract_uuid,
};

verus! {

/// An access token, its refresh token, and when it expires (if known).
#[derive(Debug, Clone)]
pub struct Token {
    pub access_token: String,
    pub refresh_token: String,
    pub expires_at: Option<u64>,
}

/// The OAuth client of the application, with the `state` it sends.
pub struct Auth {
    pub state: String,
}

/// The percent-encoding of the UTF-8 bytes of `s`.
pub open spec fn url_encoded(s: Seq<char>) -> Seq<char> {
    percent_encoded(encode_utf8(s))
}

/// The authorisation-callback path that the login page returns to.
pub open spec fn return_url_for(state: Seq<char>) -> Seq<char> {
    "/connect/authorize/callback?client_id="@ + CLIENT_ID@ + "&response_type=code&state="@ + state
        + "&authentication=client_secret_post&redirect_uri="@ + url_encoded(REDIRECT_URI@)
        + "&scope="@ + url_encoded(SCOPE@)
}

/// What precedes the return URL in the login URL.
pub open spec fn login_prefix() -> Seq<char> {
    OAUTH_URL@ + "/Account/Login?ReturnUrl="@
}

/// The OAuth login page with the percent-encoded callback as `ReturnUrl`.
pub open spec fn login_url_for(state: Seq<char>) -> Seq<char> {
    login_prefix() + url_encoded(return_url_for(state))
}

/// Percent-decoding what follows `ReturnUrl=` in the login URL gives back
/// the callback path (its UTF-8 bytes) that `build_return_url` writes.
pub proof fn law_login_url_round_trip(state: Seq<char>)
    ensures
        login_url_for(state).take(login_prefix().len() as int) == login_prefix(),
        percent_decoded(login_url_for(state).skip(login_prefix().len() as int)) == encode_utf8(
            return_url_for(state),
        ),
{
    let p = login_prefix();
    let e = url_encoded(return_url_for(state));
    assert(login_url_for(state).take(p.len() as int) =~= p);
    assert(login_url_for(state).skip(p.len() as int) =~= e);
    law_percent_round_trip(encode_utf8(return_url_for(state)));
}

impl Auth {
    /// An OAuth client whose `state` is `schools`.
    pub fn new() -> (auth: Self)
        ensures
            auth.state@ == "schools"@,
    {
        Auth { state: owned("schools") }
    }

    /// The OAuth login page, with the authorisation callback as its
    /// percent-encoded `ReturnUrl`.
    pub fn login_url(&self) -> (url: String)
        ensures
            url@ == login_url_for(self.state@),
    {
        let ret = self.build_return_url();
        let enc = url_encode(ret.as_str());
        let mut url = owned(OAUTH_URL);
        url.append("/Account/Login?ReturnUrl=");
        url.append(enc.as_str());
        url
    }

    /// The authorisation-callback path: client, response type, state,
    /// authentication, and the percent-encoded redirect URI and scope.
    pub fn build_return_url(&self) -> (url: String)
        ensures
            url@ == return_url_for(self.state@),
    {
        let redirect = url_encode(REDIRECT_URI);
        let scope = url_encode(SCOPE);
        let mut url = owned("/connect/authorize/callback?client_id=");
        url.append(CLIENT_ID);
        url.append("&response_type=code&state=");
        url.append(self.state.as_str());
        url.append("&authentication=client_secret_post&redirect_uri=");
        url.append(redirect.as_str());
        url.append("&scope=");
        url.append(scope.as_str());
        url
    }
}

/// The token of a completed login, with no known expiry.
pub fn token_from(reply: AuthResponse) -> (token: Token)
    ensures
        token.access_token == reply.auth_token,
        token.refresh_token == reply.refresh_token,
        token.expires_at is None,
{
    Token { access_token: reply.auth_token, refresh_token: reply.refresh_token, expires_at: None }
}

} // verus!
