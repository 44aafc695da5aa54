//! Aggregator tokens and their refresh policy.
//!
//! A token is two secrets with expiry instants (unix seconds). The policy:
//! use the access secret while it is fresh; when it goes stale, refresh it
//! with the refresh secret; when that one is stale too, obtain a whole new
//! token. A secret counts as usable while the time since its expiry is still
//! under thirty seconds.

use vstd::prelude::*;

use crate::http_interface::token_new;
use crate::http_interface::token_refresh;

verus! {

/// How close to (or past) its expiry a secret may be and still be presented.
pub const EXPIRY_SLACK_SECONDS: i64 = 30;

/// One secret with the instant it expires, as unix seconds.
#[derive(Debug, Clone, PartialEq, Eq)]
pub struct TokenPart {
    pub secret: String,
    pub expires_at: i64,
}

impl TokenPart {
    /// Whether this secret may still be presented at instant `now`.
    pub open spec fn spec_usable_at(self, now: i64) -> bool {
        now - self.expires_at < EXPIRY_SLACK_SECONDS
    }

    pub fn usable_at(&self, now: i64) -> (r: bool)
        ensures
            r <==> self.spec_usable_at(now),
    {
        let distance: i128 = (now as i128) - (self.expires_at as i128);
        distance < EXPIRY_SLACK_SECONDS as i128
    }
}

/// What the caller must do before it can present an access token.
#[derive(Debug, Clone, Copy, PartialEq, Eq, Structural)]
pub enum TokenAction {
    /// The access secret is usable as it stands.
    UseAccess,
    /// The access secret is stale; present the refresh secret to the refresh
    /// endpoint, then apply the response.
    Refresh,
    /// Both secrets are stale; obtain a whole new token.
    Renew,
}

/// An access/refresh secret pair.
#[derive(Debug, Clone, PartialEq, Eq)]
pub struct Token {
    pub access: TokenPart,
    pub refresh: TokenPart,
}

impl Token {
    /// The token a creation response grants, with expiries measured from the
    /// instant `start` at which the request was made.
    pub fn from_response(start: i64, response: token_new::PostResponseBody) -> (r: Token)
        requires
            i64::MIN <= start + response.access_expires <= i64::MAX,
            i64::MIN <= start + response.refresh_expires <= i64::MAX,
        ensures
            r.access.secret == response.access,
            r.access.expires_at == start + response.access_expires,
            r.refresh.secret == response.refresh,
            r.refresh.expires_at == start + response.refresh_expires,
    {
        Token {
            access: TokenPart {
                secret: response.access,
                expires_at: start + response.access_expires,
            },
            refresh: TokenPart {
                secret: response.refresh,
                expires_at: start + response.refresh_expires,
            },
        }
    }

    /// The refresh policy at instant `now`.
    pub fn next_action(&self, now: i64) -> (r: TokenAction)
        ensures
            r == TokenAction::UseAccess <==> self.access.spec_usable_at(now),
            r == TokenAction::Refresh <==> (!self.access.spec_usable_at(now)
                && self.refresh.spec_usable_at(now)),
            r == TokenAction::Renew <==> (!self.access.spec_usable_at(now)
                && !self.refresh.spec_usable_at(now)),
    {
        if self.access.usable_at(now) {
            TokenAction::UseAccess
        } else if self.refresh.usable_at(now) {
            TokenAction::Refresh
        } else {
            TokenAction::Renew
        }
    }

    /// Applies a refresh response: a new access secret expiring measured
    /// from the instant `start` of the refresh request; the refresh secret
    /// stays.
    pub fn apply_refresh(&mut self, start: i64, response: token_refresh::PostResponseBody)
        requires
            i64::MIN <= start + response.access_expires <= i64::MAX,
        ensures
            final(self).access.secret == response.access,
            final(self).access.expires_at == start + response.access_expires,
            final(self).refresh == old(self).refresh,
    {
        self.access = TokenPart {
            secret: response.access,
            expires_at: start + response.access_expires,
        };
    }
}

} // verus!
