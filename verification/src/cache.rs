//! The session cache: validated profiles keyed by bearer token, each
//! with an absolute expiry instant. Reads at or past the expiry see a
//! miss, never a stale profile.
//!
//! The model is an association list read front to back; writing prepends
//! and thereby shadows any older entry for the same token. Time is
//! explicit: every operation takes the current instant, in seconds.

use crate::profile::{AuthProfile, ProfileView};
use vstd::prelude::*;

verus! {

/// The mathematical content of one cache entry.
pub ghost struct SessionEntryView {
    pub token: Seq<char>,
    pub profile: ProfileView,
    pub expires_at: int,
}

/// One cached session: a token bound to its validated profile until an
/// absolute expiry instant.
#[derive(Debug)]
pub struct SessionCacheEntry {
    pub token: String,
    pub profile: AuthProfile,
    pub expires_at: i64,
}

impl View for SessionCacheEntry {
    type V = SessionEntryView;

    open spec fn view(&self) -> SessionEntryView {
        SessionEntryView {
            token: self.token@,
            profile: self.profile@,
            expires_at: self.expires_at as int,
        }
    }
}

/// The first entry bound to `token`, if any. Later entries for the same
/// token are shadowed and never read.
pub open spec fn spec_lookup(entries: Seq<SessionEntryView>, token: Seq<char>) -> Option<
    SessionEntryView,
>
    decreases entries.len(),
{
    if entries.len() == 0 {
        None
    } else if entries[0].token == token {
        Some(entries[0])
    } else {
        spec_lookup(entries.drop_first(), token)
    }
}

/// Prepending an entry decides lookups for its token and leaves every
/// other token's lookup unchanged.
pub proof fn lemma_lookup_prepend(
    entries: Seq<SessionEntryView>,
    entry: SessionEntryView,
    token: Seq<char>,
)
    ensures
        spec_lookup(seq![entry] + entries, token) == if entry.token == token {
            Some(entry)
        } else {
            spec_lookup(entries, token)
        },
{
    let whole = seq![entry] + entries;
    assert(whole[0] == entry);
    assert(whole.drop_first() =~= entries);
}

/// A key-value store of validated sessions with per-entry expiry.
pub struct SessionCache {
    entries: Vec<SessionCacheEntry>,
}

impl View for SessionCache {
    type V = Seq<SessionEntryView>;

    closed spec fn view(&self) -> Seq<SessionEntryView> {
        self.entries@.map_values(|e: SessionCacheEntry| e@)
    }
}

impl SessionCache {
    /// Whether `token` is bound to a profile that is still valid at
    /// instant `now`. An entry expires exactly when `now` reaches its
    /// expiry instant.
    pub open spec fn spec_live(self, token: Seq<char>, now: int) -> bool {
        match spec_lookup(self@, token) {
            Some(entry) => now < entry.expires_at,
            None => false,
        }
    }

    /// The profile `token` is bound to, when it is live.
    pub open spec fn spec_live_profile(self, token: Seq<char>, now: int) -> ProfileView
        recommends
            self.spec_live(token, now),
    {
        spec_lookup(self@, token)->Some_0.profile
    }

    pub fn new() -> (res: SessionCache)
        ensures
            res@ == Seq::<SessionEntryView>::empty(),
    {
        let cache = SessionCache { entries: Vec::new() };
        proof {
            assert(cache@ =~= Seq::<SessionEntryView>::empty());
        }
        cache
    }

    /// Looks `token` up at instant `now`. An expired entry is a miss: a
    /// profile past its expiry is never returned, however recently it
    /// was fetched.
    pub fn get(&self, token: &str, now: i64) -> (res: Option<&AuthProfile>)
        ensures
            match res {
                Some(profile) => self.spec_live(token@, now as int) && profile@
                    == self.spec_live_profile(token@, now as int),
                None => !self.spec_live(token@, now as int),
            },
    {
        let owned_token = token.to_owned();
        let ghost entries = self@;
        proof {
            assert(entries.subrange(0, entries.len() as int) =~= entries);
        }
        let mut i: usize = 0;
        while i < self.entries.len()
            invariant
                i <= self.entries.len(),
                owned_token@ == token@,
                entries == self@,
                entries.len() == self.entries@.len(),
                spec_lookup(entries, token@) == spec_lookup(
                    entries.subrange(i as int, entries.len() as int),
                    token@,
                ),
            decreases self.entries.len() - i,
        {
            proof {
                let rest = entries.subrange(i as int, entries.len() as int);
                assert(rest[0] == entries[i as int]);
                assert(rest.drop_first() =~= entries.subrange(i as int + 1, entries.len() as int));
            }
            if self.entries[i].token == owned_token {
                if now < self.entries[i].expires_at {
                    return Some(&self.entries[i].profile);
                } else {
                    return None;
                }
            }
            i += 1;
        }
        proof {
            assert(entries.subrange(i as int, entries.len() as int) =~= Seq::<
                SessionEntryView,
            >::empty());
        }
        None
    }

    /// Binds `token` to `profile` until `now + ttl_seconds`. Any older
    /// binding of the same token is shadowed from this write on; every
    /// other token keeps its binding.
    pub fn set(&mut self, token: &str, profile: AuthProfile, ttl_seconds: i64, now: i64)
        requires
            0 <= ttl_seconds,
            now + ttl_seconds <= i64::MAX,
        ensures
            final(self)@ == seq![
                SessionEntryView {
                    token: token@,
                    profile: profile@,
                    expires_at: now + ttl_seconds,
                },
            ] + old(self)@,
    {
        let entry = SessionCacheEntry {
            token: token.to_owned(),
            profile,
            expires_at: now + ttl_seconds,
        };
        let ghost entry_view = entry@;
        self.entries.insert(0, entry);
        proof {
            assert(self@ =~= seq![entry_view] + old(self)@);
        }
    }
}

} // verus!
