//! Request headers of the application's API client.
use vstd::prelude::*;
use crate::network::auth::Token;
use crate::text::owned;

verus! {

/// A reply whose fields are those of `data`.
#[derive(Debug, Clone)]
pub struct ApiResponse<T> {
    pub data: T,
}

/// The `Authorization` header value for a token: `Bearer <access token>`.
pub fn authorization_value(token: &Token) -> (value: String)
    ensures
        value@ == "Bearer "@ + token.access_token@,
{
    let mut v = owned("Bearer ");
    v.append(token.access_token.as_str());
    v
}

} // verus!
