//! The four operations on the ledger: creating a profile, and the three
//! updates that only the admin authority may make.

use vstd::prelude::*;
use crate::authority::{check_admin, is_admin};
use crate::error::ErrorCode;
use crate::events::{
    HumanVerificationUpdated, ReputationFactorsUpdated, TigerScoreUpdated, UserProfileInitialized,
};
use crate::identity::IdentityKey;
use crate::profile::{UserProfile, MAX_ACTIVITY_REGULARITY, MAX_DIRECT_SCORE};
use crate::store::ProfileStore;

verus! {

/// A stored profile together with the address at which it is stored.
#[derive(Clone, Copy, Debug, PartialEq, Eq)]
pub struct ProfileAccount {
    pub key: IdentityKey,
    pub data: UserProfile,
}

/// What a request to create a profile names: the address of the new record,
/// and the user who signs for it and will own it.
#[derive(Clone, Copy, Debug, PartialEq, Eq)]
pub struct InitializeUserProfile {
    pub user_profile: IdentityKey,
    pub signer: IdentityKey,
}

/// What a request to set a profile's human verification names: the profile,
/// and the identity that signs the request.
#[derive(Clone, Copy, Debug, PartialEq, Eq)]
pub struct UpdateHumanVerification {
    pub user_profile: ProfileAccount,
    pub authority: IdentityKey,
}

/// What a request to overwrite a profile's reputation factors names: the
/// profile, and the identity that signs the request.
#[derive(Clone, Copy, Debug, PartialEq, Eq)]
pub struct UpdateReputationFactors {
    pub user_profile: ProfileAccount,
    pub authority: IdentityKey,
}

/// What a request to set a profile's score and tier directly names: the
/// profile, and the identity that signs the request.
#[derive(Clone, Copy, Debug, PartialEq, Eq)]
pub struct UpdateTigerScore {
    pub user_profile: ProfileAccount,
    pub authority: IdentityKey,
}

/// The event of a profile's creation.
pub open spec fn initialized_event(ctx: InitializeUserProfile) -> UserProfileInitialized {
    UserProfileInitialized {
        owner: ctx.signer,
        user_profile_pda: ctx.user_profile,
        did_address: ctx.user_profile,
    }
}

/// What creating a profile answers, given the profiles stored before.
pub open spec fn initialize_result(
    stored: Map<Seq<u8>, UserProfile>,
    ctx: InitializeUserProfile,
) -> Result<UserProfileInitialized, ErrorCode> {
    if stored.contains_key(ctx.signer@) {
        Err(ErrorCode::UserProfileAlreadyExists)
    } else {
        Ok(initialized_event(ctx))
    }
}

/// The profiles stored after creating a profile, given those stored before.
pub open spec fn initialize_stored(
    stored: Map<Seq<u8>, UserProfile>,
    ctx: InitializeUserProfile,
) -> Map<Seq<u8>, UserProfile> {
    if stored.contains_key(ctx.signer@) {
        stored
    } else {
        stored.insert(ctx.signer@, UserProfile::fresh(ctx.signer, ctx.user_profile))
    }
}

/// Creates the profile of `ctx.signer`, stored at `ctx.user_profile`: every
/// signal zero or false, score and tier zero. Where the signer has a profile
/// already, nothing is stored and the request is rejected.
pub fn initialize_user_profile(store: &mut ProfileStore, ctx: &InitializeUserProfile) -> (result:
    Result<UserProfileInitialized, ErrorCode>)
    ensures
        result == initialize_result(old(store)@, *ctx),
        final(store)@ == initialize_stored(old(store)@, *ctx),
{
    let profile = UserProfile::new(ctx.signer, ctx.user_profile);
    match store.create_if_absent(profile) {
        Ok(_) => Ok(
            UserProfileInitialized {
                owner: ctx.signer,
                user_profile_pda: ctx.user_profile,
                did_address: ctx.user_profile,
            },
        ),
        Err(_) => Err(ErrorCode::UserProfileAlreadyExists),
    }
}

/// The accounts after a request to set the human verification.
pub open spec fn human_verification_accounts(
    ctx: UpdateHumanVerification,
    is_verified: bool,
) -> UpdateHumanVerification {
    if is_admin(ctx.authority) {
        UpdateHumanVerification {
            user_profile: ProfileAccount {
                key: ctx.user_profile.key,
                data: ctx.user_profile.data.with_human_verification(is_verified),
            },
            authority: ctx.authority,
        }
    } else {
        ctx
    }
}

/// What a request to set the human verification answers.
pub open spec fn human_verification_result(
    ctx: UpdateHumanVerification,
    is_verified: bool,
) -> Result<HumanVerificationUpdated, ErrorCode> {
    if is_admin(ctx.authority) {
        Ok(
            HumanVerificationUpdated {
                user_profile_pda: ctx.user_profile.key,
                is_verified,
                new_tiger_score: ctx.user_profile.data.with_human_verification(
                    is_verified,
                ).tiger_score,
            },
        )
    } else {
        Err(ErrorCode::Unauthorized)
    }
}

/// Sets the profile's human verification and recomputes its score and tier.
/// A request that the admin authority did not sign is rejected and changes
/// nothing.
pub fn update_human_verification(ctx: &mut UpdateHumanVerification, is_verified: bool) -> (result:
    Result<HumanVerificationUpdated, ErrorCode>)
    ensures
        result == human_verification_result(*old(ctx), is_verified),
        *final(ctx) == human_verification_accounts(*old(ctx), is_verified),
{
    if !check_admin(&ctx.authority) {
        return Err(ErrorCode::Unauthorized);
    }
    ctx.user_profile.data.is_human_verified = is_verified;
    ctx.user_profile.data.recompute();
    Ok(
        HumanVerificationUpdated {
            user_profile_pda: ctx.user_profile.key,
            is_verified,
            new_tiger_score: ctx.user_profile.data.tiger_score,
        },
    )
}

/// The accounts after a request to overwrite the reputation factors.
pub open spec fn reputation_factors_accounts(
    ctx: UpdateReputationFactors,
    wallet_age_months: u8,
    transaction_count: u32,
    has_nft: bool,
    verified_credentials_count: u8,
    has_income_verification: bool,
    activity_regularity_score: u8,
) -> UpdateReputationFactors {
    if is_admin(ctx.authority) {
        UpdateReputationFactors {
            user_profile: ProfileAccount {
                key: ctx.user_profile.key,
                data: ctx.user_profile.data.with_reputation_factors(
                    wallet_age_months,
                    transaction_count,
                    has_nft,
                    verified_credentials_count,
                    has_income_verification,
                    activity_regularity_score,
                ),
            },
            authority: ctx.authority,
        }
    } else {
        ctx
    }
}

/// What a request to overwrite the reputation factors answers.
pub open spec fn reputation_factors_result(
    ctx: UpdateReputationFactors,
    wallet_age_months: u8,
    transaction_count: u32,
    has_nft: bool,
    verified_credentials_count: u8,
    has_income_verification: bool,
    activity_regularity_score: u8,
) -> Result<ReputationFactorsUpdated, ErrorCode> {
    if is_admin(ctx.authority) {
        let after = ctx.user_profile.data.with_reputation_factors(
            wallet_age_months,
            transaction_count,
            has_nft,
            verified_credentials_count,
            has_income_verification,
            activity_regularity_score,
        );
        Ok(
            ReputationFactorsUpdated {
                user_profile_pda: ctx.user_profile.key,
                new_tiger_score: after.tiger_score,
                new_level_up_tier: after.level_up_tier,
            },
        )
    } else {
        Err(ErrorCode::Unauthorized)
    }
}

/// Overwrites the profile's six reputation factors, the activity regularity
/// score clamped to 40, and recomputes score and tier. A request that the
/// admin authority did not sign is rejected and changes nothing.
pub fn update_reputation_factors(
    ctx: &mut UpdateReputationFactors,
    wallet_age_months: u8,
    transaction_count: u32,
    has_nft: bool,
    verified_credentials_count: u8,
    has_income_verification: bool,
    activity_regularity_score: u8,
) -> (result: Result<ReputationFactorsUpdated, ErrorCode>)
    ensures
        result == reputation_factors_result(
            *old(ctx),
            wallet_age_months,
            transaction_count,
            has_nft,
            verified_credentials_count,
            has_income_verification,
            activity_regularity_score,
        ),
        *final(ctx) == reputation_factors_accounts(
            *old(ctx),
            wallet_age_months,
            transaction_count,
            has_nft,
            verified_credentials_count,
            has_income_verification,
            activity_regularity_score,
        ),
{
    if !check_admin(&ctx.authority) {
        return Err(ErrorCode::Unauthorized);
    }
    ctx.user_profile.data.wallet_age_months = wallet_age_months;
    ctx.user_profile.data.transaction_count = transaction_count;
    ctx.user_profile.data.has_nft = has_nft;
    ctx.user_profile.data.verified_credentials_count = verified_credentials_count;
    ctx.user_profile.data.has_income_verification = has_income_verification;
    ctx.user_profile.data.activity_regularity_score = if activity_regularity_score
        <= MAX_ACTIVITY_REGULARITY {
        activity_regularity_score
    } else {
        MAX_ACTIVITY_REGULARITY
    };
    ctx.user_profile.data.recompute();
    Ok(
        ReputationFactorsUpdated {
            user_profile_pda: ctx.user_profile.key,
            new_tiger_score: ctx.user_profile.data.tiger_score,
            new_level_up_tier: ctx.user_profile.data.level_up_tier,
        },
    )
}

/// The accounts after a request to set score and tier directly.
pub open spec fn tigerscore_accounts(
    ctx: UpdateTigerScore,
    new_score: u16,
    new_tier: u8,
) -> UpdateTigerScore {
    if is_admin(ctx.authority) {
        UpdateTigerScore {
            user_profile: ProfileAccount {
                key: ctx.user_profile.key,
                data: ctx.user_profile.data.with_score_override(new_score, new_tier),
            },
            authority: ctx.authority,
        }
    } else {
        ctx
    }
}

/// What a request to set score and tier directly answers. The event carries
/// the score that was asked for, which may be larger than the one stored.
pub open spec fn tigerscore_result(ctx: UpdateTigerScore, new_score: u16, new_tier: u8) -> Result<
    TigerScoreUpdated,
    ErrorCode,
> {
    if is_admin(ctx.authority) {
        Ok(TigerScoreUpdated { user_profile_pda: ctx.user_profile.key, new_score, new_tier })
    } else {
        Err(ErrorCode::Unauthorized)
    }
}

/// Sets the profile's score to `new_score`, clamped to 660, and its tier to
/// `new_tier` as given: the tier is not derived from the score. A request
/// that the admin authority did not sign is rejected and changes nothing.
pub fn update_tigerscore(ctx: &mut UpdateTigerScore, new_score: u16, new_tier: u8) -> (result:
    Result<TigerScoreUpdated, ErrorCode>)
    ensures
        result == tigerscore_result(*old(ctx), new_score, new_tier),
        *final(ctx) == tigerscore_accounts(*old(ctx), new_score, new_tier),
{
    if !check_admin(&ctx.authority) {
        return Err(ErrorCode::Unauthorized);
    }
    ctx.user_profile.data.tiger_score = if new_score <= MAX_DIRECT_SCORE {
        new_score
    } else {
        MAX_DIRECT_SCORE
    };
    ctx.user_profile.data.level_up_tier = new_tier;
    Ok(TigerScoreUpdated { user_profile_pda: ctx.user_profile.key, new_score, new_tier })
}

} // verus!
