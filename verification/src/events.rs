//! The notifications that the operations hand back for the host to publish.

use vstd::prelude::*;
use crate::identity::IdentityKey;

verus! {

/// A profile was created.
#[derive(Clone, Copy, Debug, PartialEq, Eq)]
pub struct UserProfileInitialized {
    pub owner: IdentityKey,
    pub user_profile_pda: IdentityKey,
    pub did_address: IdentityKey,
}

/// A profile's human verification was set and its score recomputed.
#[derive(Clone, Copy, Debug, PartialEq, Eq)]
pub struct HumanVerificationUpdated {
    pub user_profile_pda: IdentityKey,
    pub is_verified: bool,
    pub new_tiger_score: u16,
}

/// A profile's reputation factors were overwritten and its score recomputed.
#[derive(Clone, Copy, Debug, PartialEq, Eq)]
pub struct ReputationFactorsUpdated {
    pub user_profile_pda: IdentityKey,
    pub new_tiger_score: u16,
    pub new_level_up_tier: u8,
}

/// A profile's score and tier were set directly. The event carries the values
/// that were asked for, not the score as stored.
#[derive(Clone, Copy, Debug, PartialEq, Eq)]
pub struct TigerScoreUpdated {
    pub user_profile_pda: IdentityKey,
    pub new_score: u16,
    pub new_tier: u8,
}

} // verus!
