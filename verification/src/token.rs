//! Token-lifecycle manager: a shared cache slot for the provider's OAuth2
//! bearer token.
//!
//! The slot serves a cached token while it has more than a fixed safety
//! margin of life left, and is replaced wholesale from a fresh token
//! response otherwise. The network call that obtains a fresh response is
//! made by the caller between `cached_token` and `store_refreshed`; neither
//! function performs any I/O itself.

use vstd::prelude::*;

verus! {

/// Seconds of remaining life a cached token must have to be served.
pub const TOKEN_SAFETY_MARGIN_SECS: u64 = 60;

/// The currently held bearer credential: the token string and the absolute
/// time (in seconds) at which the provider will stop accepting it.
#[derive(Debug, Clone)]
pub struct TokenCache {
    pub access_token: String,
    pub expires_at: u64,
}

/// A successful body of the provider's token endpoint, already decoded into
/// plain values: the token and its advertised lifetime in seconds.
#[derive(Debug, Clone)]
pub struct TokenResponse {
    pub access_token: String,
    pub expires_in: u64,
}

/// Failure of a token refresh.
#[derive(Debug, Clone)]
pub enum AuthError {
    /// The provider answered the token request with a non-success status;
    /// carries the status code and the response body.
    ProviderRejected(u16, String),
    /// The provider's token response body could not be decoded.
    MalformedResponse,
}

/// A cache entry is usable at time `now` only while its expiry lies more
/// than the safety margin in the future.
pub open spec fn token_usable(cache: Option<TokenCache>, now: u64) -> bool {
    match cache {
        Some(c) => c.expires_at > now + TOKEN_SAFETY_MARGIN_SECS,
        None => false,
    }
}

/// The shared token-cache slot. Absent at start; replaced, never mutated in
/// place, by every refresh.
pub struct TokenStore {
    pub cache: Option<TokenCache>,
}

impl TokenStore {
    /// A fresh store holds no token.
    pub fn new() -> (s: Self)
        ensures
            s.cache is None,
    {
        TokenStore { cache: None }
    }

    /// Serves the cached token exactly when the cache entry is usable at
    /// `now`; a miss tells the caller to refresh.
    pub fn cached_token(&self, now: u64) -> (r: Option<String>)
        ensures
            r is Some <==> token_usable(self.cache, now),
            token_usable(self.cache, now) ==> r == Some(self.cache.unwrap().access_token),
    {
        match &self.cache {
            Some(c) => {
                if c.expires_at > TOKEN_SAFETY_MARGIN_SECS
                    && c.expires_at - TOKEN_SAFETY_MARGIN_SECS > now {
                    Some(c.access_token.clone())
                } else {
                    None
                }
            },
            None => None,
        }
    }

    /// Installs a freshly obtained token: the slot's new contents are
    /// computed from the response and `now` alone, so whatever entry was
    /// held before is discarded entirely. Returns the fresh token.
    pub fn store_refreshed(&mut self, resp: TokenResponse, now: u64) -> (token: String)
        requires
            now + resp.expires_in <= u64::MAX,
        ensures
            final(self).cache matches Some(c)
                && c.access_token == resp.access_token
                && c.expires_at == now + resp.expires_in,
            token == resp.access_token,
    {
        let expires_at = now + resp.expires_in;
        self.cache = Some(TokenCache { access_token: resp.access_token.clone(), expires_at });
        resp.access_token
    }
}

} // verus!
