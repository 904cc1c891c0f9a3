//! The session gate: no post goes out on an expired access token.
//!
//! A token counts as expired five minutes before its validity ends, so that
//! it cannot run out between the check and the post. The check is made
//! right before every post; nothing refreshes tokens in the background.
use crate::error::FiringError;
use crate::model::Token;
use crate::timestamp::Timestamp;
use vstd::prelude::*;

verus! {

/// The validity of a token in seconds: what was stored with it, or two hours.
pub open spec fn validity_seconds(expires_in: Option<u64>) -> int {
    match expires_in {
        Some(v) => v as int,
        None => 7200,
    }
}

/// The first second at which a token issued at `issued_at` counts as
/// expired: the end of its validity less a margin of 300 seconds.
pub open spec fn expiry_threshold(issued_at: Timestamp, expires_in: Option<u64>) -> int {
    issued_at.unix_seconds() + validity_seconds(expires_in) - 300
}

/// Whether a token counts as expired at `now`. Instants are compared by
/// their whole seconds.
pub open spec fn is_expired(issued_at: Timestamp, expires_in: Option<u64>, now: Timestamp) -> bool {
    now.unix_seconds() >= expiry_threshold(issued_at, expires_in)
}

/// Whole seconds since the Unix epoch, rounded toward the past.
fn whole_seconds(t: Timestamp) -> (r: i128)
    ensures
        r == t.unix_seconds(),
{
    let q: i128 = t.unix_nanos / 1_000_000_000;
    let m: i128 = t.unix_nanos % 1_000_000_000;
    if m < 0 {
        q - 1
    } else {
        q
    }
}

/// Whether a token issued at `issued_at` counts as expired at `now`.
pub fn token_expired(issued_at: Timestamp, expires_in: Option<u64>, now: Timestamp) -> (r: bool)
    ensures
        r == is_expired(issued_at, expires_in, now),
{
    let validity: i128 = match expires_in {
        Some(v) => v as i128,
        None => 7200,
    };
    let threshold: i128 = whole_seconds(issued_at) + validity - 300;
    whole_seconds(now) >= threshold
}

/// What the session gate decides when it has seen a token or the lack of one.
#[derive(Clone, Debug)]
pub enum GateStep {
    /// Post with this token.
    Ready(Token),
    /// Get a new token for this user with this refresh token.
    Refresh { user_id: String, refresh_token: String },
    /// Persist this token, which has just been issued.
    Store(Token),
    /// There will be no token for this firing.
    Failed(FiringError),
}

/// The decision of the session gate on what the session store answered at `now`.
///
/// A stored token that has not expired is used as it is. An expired one is
/// refreshed with its refresh token; without one the session gate fails with
/// `RefreshUnavailable`. With no stored token it fails with
/// `SessionUnavailable`, and a failure of the store is handed on.
pub open spec fn gate_on_loaded(loaded: Result<Option<Token>, FiringError>, now: Timestamp) -> GateStep {
    match loaded {
        Ok(Some(token)) => if !is_expired(token.issued_at, token.expires_in, now) {
            GateStep::Ready(token)
        } else {
            match token.refresh_token {
                Some(refresh_token) => GateStep::Refresh { user_id: token.id, refresh_token },
                None => GateStep::Failed(FiringError::RefreshUnavailable),
            }
        },
        Ok(None) => GateStep::Failed(FiringError::SessionUnavailable),
        Err(e) => GateStep::Failed(e),
    }
}

/// The decision of the session gate on what the refresh call answered: a new token is
/// persisted before it is used.
pub open spec fn gate_on_refreshed(refreshed: Result<Token, FiringError>) -> GateStep {
    match refreshed {
        Ok(token) => GateStep::Store(token),
        Err(e) => GateStep::Failed(e),
    }
}

/// The decision of the session gate on what the session store answered to persisting a
/// new token: the store's copy is the token to post with.
pub open spec fn gate_on_stored(stored: Result<Token, FiringError>) -> GateStep {
    match stored {
        Ok(token) => GateStep::Ready(token),
        Err(e) => GateStep::Failed(e),
    }
}

/// Decides on the session store's answer; see `gate_on_loaded`.
pub fn session_loaded(loaded: Result<Option<Token>, FiringError>, now: Timestamp) -> (r: GateStep)
    ensures
        r == gate_on_loaded(loaded, now),
{
    match loaded {
        Ok(Some(token)) => {
            if !token_expired(token.issued_at, token.expires_in, now) {
                GateStep::Ready(token)
            } else {
                match token.refresh_token {
                    Some(refresh_token) => GateStep::Refresh { user_id: token.id, refresh_token },
                    None => GateStep::Failed(FiringError::RefreshUnavailable),
                }
            }
        },
        Ok(None) => GateStep::Failed(FiringError::SessionUnavailable),
        Err(e) => GateStep::Failed(e),
    }
}

/// Decides on the refresh call's answer; see `gate_on_refreshed`.
pub fn session_refreshed(refreshed: Result<Token, FiringError>) -> (r: GateStep)
    ensures
        r == gate_on_refreshed(refreshed),
{
    match refreshed {
        Ok(token) => GateStep::Store(token),
        Err(e) => GateStep::Failed(e),
    }
}

/// Decides on the session store's answer to persisting; see `gate_on_stored`.
pub fn session_stored(stored: Result<Token, FiringError>) -> (r: GateStep)
    ensures
        r == gate_on_stored(stored),
{
    match stored {
        Ok(token) => GateStep::Ready(token),
        Err(e) => GateStep::Failed(e),
    }
}

impl Token {
    /// The token that a refresh call's answer stands for: issued at `now`
    /// to the user `id`.
    pub fn refreshed(
        id: String,
        access_token: String,
        refresh_token: Option<String>,
        expires_in: Option<u64>,
        now: Timestamp,
    ) -> (r: Token)
        ensures
            r == (Token { id, access_token, refresh_token, issued_at: now, expires_in }),
    {
        Token { id, access_token, refresh_token, issued_at: now, expires_in }
    }
}

/// The session gate hands out a stored token only while it has not expired, and
/// asks for a refresh only of a token that has.
pub proof fn lemma_gate_never_passes_expired_token(token: Token, now: Timestamp)
    ensures
        gate_on_loaded(Ok(Some(token)), now) is Ready ==> !is_expired(
            token.issued_at,
            token.expires_in,
            now,
        ) && gate_on_loaded(Ok(Some(token)), now) == GateStep::Ready(token),
        gate_on_loaded(Ok(Some(token)), now) is Refresh ==> is_expired(
            token.issued_at,
            token.expires_in,
            now,
        ),
        is_expired(token.issued_at, token.expires_in, now) && token.refresh_token.is_none()
            ==> gate_on_loaded(Ok(Some(token)), now) == GateStep::Failed(
            FiringError::RefreshUnavailable,
        ),
{
}

/// With a validity of two hours, a token issued 7100 seconds ago has
/// expired and one issued 100 seconds ago has not, at whatever second the
/// check is made.
pub proof fn lemma_two_hour_token_margin(now: Timestamp, issued_at: Timestamp)
    ensures
        issued_at.unix_seconds() == now.unix_seconds() - 7100 ==> is_expired(
            issued_at,
            Some(7200u64),
            now,
        ) && is_expired(issued_at, None, now),
        issued_at.unix_seconds() == now.unix_seconds() - 100 ==> !is_expired(
            issued_at,
            Some(7200u64),
            now,
        ) && !is_expired(issued_at, None, now),
{
}

} // verus!
