//! The auth gateway: resolving a bearer token to a validated profile,
//! cache first.
//!
//! The gateway itself never talks to the network. [`check_cache`] decides
//! from the cache alone whether a request is already answered; only when
//! it answers [`CacheCheck::Miss`] does the caller consult the identity
//! client, and [`on_identity_result`] then decides what its answer means
//! and what to cache. [`authenticate`] is the whole decision in one step,
//! taking the identity client's would-be answer as a value.

use crate::cache::{lemma_lookup_prepend, SessionCache, SessionEntryView};
use crate::credentials::BearerToken;
use crate::errors::ApiError;
use crate::profile::{AuthProfile, ProfileView};
use crate::records::StoreFault;
use vstd::prelude::*;

verus! {

/// What the identity client's call came to: a profile, an explicit
/// rejection of the credential, or no usable answer at all (transport
/// failure, an unexpected status, a malformed body).
#[derive(Debug)]
pub enum IdentityResult {
    Granted(AuthProfile),
    Rejected,
    Unavailable,
}

/// Classifies the identity service's response. Any 2xx status with a
/// well-formed profile body grants; 401 is the one status that means the
/// credential itself was rejected; everything else, including a 2xx
/// whose body could not be read as a profile, is unavailability.
pub fn identity_response_outcome(status: u16, body: Option<AuthProfile>) -> (res: IdentityResult)
    ensures
        200 <= status < 300 && body is Some ==> res == IdentityResult::Granted(body->Some_0),
        200 <= status < 300 && body is None ==> res is Unavailable,
        status == 401 ==> res is Rejected,
        !(200 <= status < 300) && status != 401 ==> res is Unavailable,
{
    if 200 <= status && status < 300 {
        match body {
            Some(profile) => IdentityResult::Granted(profile),
            None => IdentityResult::Unavailable,
        }
    } else if status == 401 {
        IdentityResult::Rejected
    } else {
        IdentityResult::Unavailable
    }
}

/// What the cache alone decides about a request.
#[derive(Debug)]
pub enum CacheCheck {
    /// Terminal before any lookup: no credential was presented.
    Fail(ApiError),
    /// A live cached session: answered without any identity call.
    Hit(AuthProfile),
    /// No live session: the identity client must be consulted, once.
    Miss,
}

/// The cache-first step of authentication. An empty token fails at once;
/// a live cache entry answers the request on the spot; otherwise the
/// caller owes exactly one identity call for this request.
pub fn check_cache(cache: &SessionCache, token: &BearerToken, now: i64) -> (res: CacheCheck)
    ensures
        token@.len() == 0 ==> res == CacheCheck::Fail(ApiError::Unauthenticated),
        token@.len() > 0 && cache.spec_live(token@, now as int) ==> res is Hit && res->Hit_0@
            == cache.spec_live_profile(token@, now as int),
        token@.len() > 0 && !cache.spec_live(token@, now as int) ==> res is Miss,
{
    if token.is_empty() {
        return CacheCheck::Fail(ApiError::Unauthenticated);
    }
    match cache.get(token.0.as_str(), now) {
        Some(profile) => CacheCheck::Hit(profile.clone()),
        None => CacheCheck::Miss,
    }
}

/// The cache-first step as the request loop drives it, over what the
/// cache backend answered: an empty token fails before any lookup, a
/// backend that could not be reached is an internal failure — never
/// conflated with a miss — a hit answers the request, and a miss means
/// the identity client is owed exactly one call.
pub fn auth_on_cache_lookup(
    token: &BearerToken,
    cached: Result<Option<AuthProfile>, StoreFault>,
) -> (res: CacheCheck)
    ensures
        token@.len() == 0 ==> res == CacheCheck::Fail(ApiError::Unauthenticated),
        token@.len() > 0 ==> match cached {
            Ok(Some(profile)) => res == CacheCheck::Hit(profile),
            Ok(None) => res is Miss,
            Err(_) => res == CacheCheck::Fail(ApiError::Internal),
        },
{
    if token.is_empty() {
        return CacheCheck::Fail(ApiError::Unauthenticated);
    }
    match cached {
        Ok(Some(profile)) => CacheCheck::Hit(profile),
        Ok(None) => CacheCheck::Miss,
        Err(_) => CacheCheck::Fail(ApiError::Internal),
    }
}

/// Decides the identity client's answer alone: a granted profile with a
/// real user is the result to return, and the one thing the caller may
/// write through to the session cache; everything else is an error and
/// caches nothing.
pub fn decide_identity(identity: IdentityResult) -> (res: Result<AuthProfile, ApiError>)
    ensures
        match identity {
            IdentityResult::Granted(p) => if p.user_id != 0 {
                res == Result::<AuthProfile, ApiError>::Ok(p)
            } else {
                res == Result::<AuthProfile, ApiError>::Err(ApiError::Unauthorized)
            },
            IdentityResult::Rejected => res == Result::<AuthProfile, ApiError>::Err(
                ApiError::Unauthorized,
            ),
            IdentityResult::Unavailable => res == Result::<AuthProfile, ApiError>::Err(
                ApiError::Unavailable,
            ),
        },
{
    match identity {
        IdentityResult::Granted(profile) => {
            if profile.user_id == 0 {
                Err(ApiError::Unauthorized)
            } else {
                Ok(profile)
            }
        },
        IdentityResult::Rejected => Err(ApiError::Unauthorized),
        IdentityResult::Unavailable => Err(ApiError::Unavailable),
    }
}

/// Decides what the identity client's answer means, after a cache miss.
///
/// A granted profile with a real user is written through to the cache
/// with the configured TTL and returned. A granted profile with
/// `user_id == 0` nominally succeeded but names no user: it is rejected
/// and, deliberately, not cached, so a permanently invalid session can
/// never occupy the cache. Rejection and unavailability pass through
/// unchanged in kind, and cache nothing.
pub fn on_identity_result(
    cache: &mut SessionCache,
    token: &BearerToken,
    ttl_seconds: i64,
    now: i64,
    identity: IdentityResult,
) -> (res: Result<AuthProfile, ApiError>)
    requires
        0 <= ttl_seconds,
        now + ttl_seconds <= i64::MAX,
    ensures
        match identity {
            IdentityResult::Granted(p) => if p.user_id != 0 {
                res is Ok && res->Ok_0@ == p@ && final(cache)@ == seq![
                    (SessionEntryView {
                        token: token@,
                        profile: p@,
                        expires_at: now + ttl_seconds,
                    }),
                ] + old(cache)@
            } else {
                res == Result::<AuthProfile, ApiError>::Err(ApiError::Unauthorized)
                    && final(cache)@ == old(cache)@
            },
            IdentityResult::Rejected => res == Result::<AuthProfile, ApiError>::Err(
                ApiError::Unauthorized,
            ) && final(cache)@ == old(cache)@,
            IdentityResult::Unavailable => res == Result::<AuthProfile, ApiError>::Err(
                ApiError::Unavailable,
            ) && final(cache)@ == old(cache)@,
        },
{
    match decide_identity(identity) {
        Ok(profile) => {
            let stored = profile.clone();
            cache.set(token.0.as_str(), stored, ttl_seconds, now);
            Ok(profile)
        },
        Err(err) => Err(err),
    }
}

/// The whole gateway decision for one request: cache first, then the
/// identity client's answer. `identity` is what the identity client
/// would answer if consulted; on an empty token or a live cache entry
/// the request is decided without it and the cache is left untouched.
pub fn authenticate(
    cache: &mut SessionCache,
    token: &BearerToken,
    ttl_seconds: i64,
    now: i64,
    identity: IdentityResult,
) -> (res: Result<AuthProfile, ApiError>)
    requires
        0 <= ttl_seconds,
        now + ttl_seconds <= i64::MAX,
    ensures
        token@.len() == 0 ==> res == Result::<AuthProfile, ApiError>::Err(
            ApiError::Unauthenticated,
        ) && final(cache)@ == old(cache)@,
        token@.len() > 0 && old(cache).spec_live(token@, now as int) ==> res is Ok && res->Ok_0@
            == old(cache).spec_live_profile(token@, now as int) && final(cache)@ == old(cache)@,
        token@.len() > 0 && !old(cache).spec_live(token@, now as int) ==> match identity {
            IdentityResult::Granted(p) => if p.user_id != 0 {
                res is Ok && res->Ok_0@ == p@ && final(cache)@ == seq![
                    (SessionEntryView {
                        token: token@,
                        profile: p@,
                        expires_at: now + ttl_seconds,
                    }),
                ] + old(cache)@
            } else {
                res == Result::<AuthProfile, ApiError>::Err(ApiError::Unauthorized)
                    && final(cache)@ == old(cache)@
            },
            IdentityResult::Rejected => res == Result::<AuthProfile, ApiError>::Err(
                ApiError::Unauthorized,
            ) && final(cache)@ == old(cache)@,
            IdentityResult::Unavailable => res == Result::<AuthProfile, ApiError>::Err(
                ApiError::Unavailable,
            ) && final(cache)@ == old(cache)@,
        },
{
    match check_cache(cache, token, now) {
        CacheCheck::Fail(err) => Err(err),
        CacheCheck::Hit(profile) => Ok(profile),
        CacheCheck::Miss => on_identity_result(cache, token, ttl_seconds, now, identity),
    }
}

/// Cache-first behaviour across two requests: a token that is not live
/// in the cache is a miss, so the gateway owes the identity client
/// exactly one call; once that call's granted profile is written
/// through, any request with the same token strictly before the expiry
/// instant is a hit with the very same profile, and the identity client
/// is owed no further call for it.
pub proof fn lemma_cache_first(
    cache: SessionCache,
    cache2: SessionCache,
    token: Seq<char>,
    profile: ProfileView,
    ttl_seconds: int,
    now: int,
    now2: int,
)
    requires
        !cache.spec_live(token, now),
        cache2@ == seq![
            (SessionEntryView { token: token, profile: profile, expires_at: now + ttl_seconds }),
        ] + cache@,
        now <= now2 < now + ttl_seconds,
    ensures
        cache2.spec_live(token, now2),
        cache2.spec_live_profile(token, now2) == profile,
{
    let entry = SessionEntryView { token: token, profile: profile, expires_at: now + ttl_seconds };
    lemma_lookup_prepend(cache@, entry, token);
}

/// TTL expiry: from the expiry instant a write-through chose, the token
/// it cached is a miss again, and the gateway owes the identity client
/// a fresh call for it.
pub proof fn lemma_ttl_expiry(
    cache: SessionCache,
    cache2: SessionCache,
    token: Seq<char>,
    profile: ProfileView,
    ttl_seconds: int,
    now: int,
    now3: int,
)
    requires
        cache2@ == seq![
            (SessionEntryView { token: token, profile: profile, expires_at: now + ttl_seconds }),
        ] + cache@,
        now + ttl_seconds <= now3,
    ensures
        !cache2.spec_live(token, now3),
{
    let entry = SessionEntryView { token: token, profile: profile, expires_at: now + ttl_seconds };
    lemma_lookup_prepend(cache@, entry, token);
}

} // verus!
