//! The per-user record and the changes that can be made to it.

use vstd::prelude::*;
use crate::identity::IdentityKey;
use crate::score::{calculate_full_tigerscore, calculate_new_tier, compute_score, tier_of};

verus! {

/// The largest activity regularity score that is ever stored.
pub const MAX_ACTIVITY_REGULARITY: u8 = 40;

/// The largest score that can be set directly.
pub const MAX_DIRECT_SCORE: u16 = 660;

/// One user's record: verification status, behavioural signals, repayment
/// history, and the score and tier derived from them.
#[derive(Clone, Copy, Debug, PartialEq, Eq)]
pub struct UserProfile {
    /// The user this profile belongs to.
    pub owner: IdentityKey,
    /// The address at which this record is stored.
    pub did_address: IdentityKey,
    pub tiger_score: u16,
    pub level_up_tier: u8,
    pub is_human_verified: bool,
    pub wallet_age_months: u8,
    pub transaction_count: u32,
    pub has_nft: bool,
    pub verified_credentials_count: u8,
    pub has_income_verification: bool,
    pub activity_regularity_score: u8,
    pub total_successful_repayments: u32,
    pub total_defaulted_loans: u32,
    pub on_chain_debt_balance: u64,
    pub last_repayment_timestamp: i64,
}

/// The smaller of an activity regularity score and the largest one stored.
pub open spec fn clamp_activity(activity_regularity_score: u8) -> u8 {
    if activity_regularity_score <= MAX_ACTIVITY_REGULARITY {
        activity_regularity_score
    } else {
        MAX_ACTIVITY_REGULARITY
    }
}

/// The smaller of a score and the largest one that can be set directly.
pub open spec fn clamp_direct_score(score: u16) -> u16 {
    if score <= MAX_DIRECT_SCORE {
        score
    } else {
        MAX_DIRECT_SCORE
    }
}

impl UserProfile {
    /// The profile of a user who has just been registered: every signal is
    /// zero or false, and so are the stored score and tier.
    pub open spec fn fresh(owner: IdentityKey, did_address: IdentityKey) -> UserProfile {
        UserProfile {
            owner,
            did_address,
            tiger_score: 0,
            level_up_tier: 0,
            is_human_verified: false,
            wallet_age_months: 0,
            transaction_count: 0,
            has_nft: false,
            verified_credentials_count: 0,
            has_income_verification: false,
            activity_regularity_score: 0,
            total_successful_repayments: 0,
            total_defaulted_loans: 0,
            on_chain_debt_balance: 0,
            last_repayment_timestamp: 0,
        }
    }

    /// Whether the stored score and tier are the ones that the signals give.
    pub open spec fn in_step(self) -> bool {
        &&& self.tiger_score == compute_score(self)
        &&& self.level_up_tier == tier_of(self.tiger_score)
    }

    /// This profile with its score and tier computed anew from its signals.
    pub open spec fn recomputed(self) -> UserProfile {
        UserProfile {
            tiger_score: compute_score(self),
            level_up_tier: tier_of(compute_score(self)),
            ..self
        }
    }

    /// This profile after its human verification is set to `is_verified`.
    pub open spec fn with_human_verification(self, is_verified: bool) -> UserProfile {
        (UserProfile { is_human_verified: is_verified, ..self }).recomputed()
    }

    /// This profile after its six reputation factors are overwritten. The
    /// activity regularity score is stored clamped.
    pub open spec fn with_reputation_factors(
        self,
        wallet_age_months: u8,
        transaction_count: u32,
        has_nft: bool,
        verified_credentials_count: u8,
        has_income_verification: bool,
        activity_regularity_score: u8,
    ) -> UserProfile {
        (UserProfile {
            wallet_age_months,
            transaction_count,
            has_nft,
            verified_credentials_count,
            has_income_verification,
            activity_regularity_score: clamp_activity(activity_regularity_score),
            ..self
        }).recomputed()
    }

    /// This profile after its score and tier are set directly. The score is
    /// stored clamped; the tier is stored as given, whatever the score.
    pub open spec fn with_score_override(self, new_score: u16, new_tier: u8) -> UserProfile {
        UserProfile {
            tiger_score: clamp_direct_score(new_score),
            level_up_tier: new_tier,
            ..self
        }
    }

    /// Makes the profile of a newly registered user.
    pub fn new(owner: IdentityKey, did_address: IdentityKey) -> (profile: UserProfile)
        ensures
            profile == UserProfile::fresh(owner, did_address),
    {
        UserProfile {
            owner,
            did_address,
            tiger_score: 0,
            level_up_tier: 0,
            is_human_verified: false,
            wallet_age_months: 0,
            transaction_count: 0,
            has_nft: false,
            verified_credentials_count: 0,
            has_income_verification: false,
            activity_regularity_score: 0,
            total_successful_repayments: 0,
            total_defaulted_loans: 0,
            on_chain_debt_balance: 0,
            last_repayment_timestamp: 0,
        }
    }

    /// Computes the score and the tier anew from the signals and stores both.
    pub fn recompute(&mut self)
        ensures
            *final(self) == old(self).recomputed(),
    {
        let new_score: u16 = calculate_full_tigerscore(self);
        self.tiger_score = new_score;
        self.level_up_tier = calculate_new_tier(new_score);
    }
}

} // verus!
