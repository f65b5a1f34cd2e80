//! The authorization decision: may this caller touch the resource of a
//! given owner?

use crate::profile::{AuthProfile, ProfileView};
use vstd::prelude::*;

verus! {

/// The rule, in full: the owner of a resource may touch it, and so may a
/// caller whose `"role"` attribute is exactly `"admin"`; nobody else. A
/// profile without a `"role"` attribute is simply not an admin.
pub open spec fn spec_authorized(profile: ProfileView, requested_owner_id: int) -> bool {
    profile.user_id == requested_owner_id || profile.is_admin()
}

/// Decides access for one request against the caller's current profile.
/// Decisions are never cached: only profiles are, so a role change takes
/// effect as soon as the cached profile does.
pub fn authorize(profile: &AuthProfile, requested_owner_id: i32) -> (allow: bool)
    ensures
        allow == spec_authorized(profile@, requested_owner_id as int),
{
    if profile.user_id == requested_owner_id {
        true
    } else {
        profile.is_admin()
    }
}

} // verus!
