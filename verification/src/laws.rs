//! What holds of the ledger whatever the inputs, stated over the same
//! functions as the contracts of the operations.

use vstd::prelude::*;
use crate::authority::is_admin;
use crate::error::ErrorCode;
use crate::events::{
    HumanVerificationUpdated, ReputationFactorsUpdated, TigerScoreUpdated, UserProfileInitialized,
};
use crate::identity::IdentityKey;
use crate::instructions::{
    human_verification_accounts, human_verification_result, initialize_result,
    initialize_stored, reputation_factors_accounts, reputation_factors_result,
    tigerscore_accounts, tigerscore_result, InitializeUserProfile, UpdateHumanVerification,
    UpdateReputationFactors, UpdateTigerScore,
};
use crate::profile::UserProfile;
use crate::score::{compute_score, raw_score, tier_of};

verus! {

/// The score is the sum of the contributions, held at 65535 where the sum is
/// larger: it is never below the base of 300 and never above 65535.
pub proof fn law_score_is_bounded(profile: UserProfile)
    ensures
        300 <= compute_score(profile) <= 65535,
        raw_score(profile) <= 65535 ==> compute_score(profile) == raw_score(profile),
        raw_score(profile) > 65535 ==> compute_score(profile) == 65535,
{
}

/// The score depends on the signals alone: the stored score and tier, the
/// owner and the address play no part in it.
pub proof fn law_score_reads_signals_only(a: UserProfile, b: UserProfile)
    requires
        a.is_human_verified == b.is_human_verified,
        a.wallet_age_months == b.wallet_age_months,
        a.transaction_count == b.transaction_count,
        a.has_nft == b.has_nft,
        a.verified_credentials_count == b.verified_credentials_count,
        a.has_income_verification == b.has_income_verification,
        a.activity_regularity_score == b.activity_regularity_score,
        a.total_successful_repayments == b.total_successful_repayments,
    ensures
        compute_score(a) == compute_score(b),
{
}

/// Each tier is a band of scores whose lower edge belongs to it.
pub proof fn law_tier_bands(score: u16)
    ensures
        tier_of(score) <= 5,
        tier_of(score) == 5 <==> 900 <= score,
        tier_of(score) == 4 <==> 700 <= score < 900,
        tier_of(score) == 3 <==> 500 <= score < 700,
        tier_of(score) == 2 <==> 200 <= score < 500,
        tier_of(score) == 1 <==> 50 <= score < 200,
        tier_of(score) == 0 <==> score < 50,
{
}

/// A higher score never has a lower tier.
pub proof fn law_tier_is_monotone(lower: u16, higher: u16)
    requires
        lower <= higher,
    ensures
        tier_of(lower) <= tier_of(higher),
{
}

/// After either of the two updates that recompute, the stored score is the
/// one that the signals give and the stored tier is the tier of that score.
pub proof fn law_recompute_keeps_tier_in_step(
    profile: UserProfile,
    is_verified: bool,
    wallet_age_months: u8,
    transaction_count: u32,
    has_nft: bool,
    verified_credentials_count: u8,
    has_income_verification: bool,
    activity_regularity_score: u8,
)
    ensures
        profile.recomputed().in_step(),
        profile.with_human_verification(is_verified).in_step(),
        profile.with_reputation_factors(
            wallet_age_months,
            transaction_count,
            has_nft,
            verified_credentials_count,
            has_income_verification,
            activity_regularity_score,
        ).in_step(),
{
}

/// The activity regularity score that is stored is the smaller of the one
/// given and 40.
pub proof fn law_activity_is_clamped(
    profile: UserProfile,
    wallet_age_months: u8,
    transaction_count: u32,
    has_nft: bool,
    verified_credentials_count: u8,
    has_income_verification: bool,
    activity_regularity_score: u8,
)
    ensures
        ({
            let after = profile.with_reputation_factors(
                wallet_age_months,
                transaction_count,
                has_nft,
                verified_credentials_count,
                has_income_verification,
                activity_regularity_score,
            );
            &&& after.activity_regularity_score <= 40
            &&& activity_regularity_score <= 40 ==> after.activity_regularity_score
                == activity_regularity_score
            &&& activity_regularity_score > 40 ==> after.activity_regularity_score == 40
        }),
{
}

/// A profile starts with an activity regularity score within the limit, and
/// no update takes it beyond.
pub proof fn law_activity_stays_within_limit(
    profile: UserProfile,
    owner: IdentityKey,
    did_address: IdentityKey,
    is_verified: bool,
    new_score: u16,
    new_tier: u8,
)
    requires
        profile.activity_regularity_score <= 40,
    ensures
        UserProfile::fresh(owner, did_address).activity_regularity_score <= 40,
        profile.with_human_verification(is_verified).activity_regularity_score <= 40,
        profile.with_score_override(new_score, new_tier).activity_regularity_score <= 40,
{
}

/// A score set directly is stored as the smaller of the one given and 660,
/// and the tier is stored as given; nothing else changes.
pub proof fn law_override_is_capped(profile: UserProfile, new_score: u16, new_tier: u8)
    ensures
        ({
            let after = profile.with_score_override(new_score, new_tier);
            &&& after.tiger_score <= 660
            &&& new_score <= 660 ==> after.tiger_score == new_score
            &&& new_score > 660 ==> after.tiger_score == 660
            &&& after.level_up_tier == new_tier
            &&& after == UserProfile {
                tiger_score: after.tiger_score,
                level_up_tier: new_tier,
                ..profile
            }
        }),
{
}

/// A newly created profile has score 0 and tier 0 stored, while its signals
/// give the base score of 300.
pub proof fn law_fresh_profile(
    owner: IdentityKey,
    did_address: IdentityKey,
)
    ensures
        UserProfile::fresh(owner, did_address).owner == owner,
        UserProfile::fresh(owner, did_address).did_address == did_address,
        UserProfile::fresh(owner, did_address).tiger_score == 0,
        UserProfile::fresh(owner, did_address).level_up_tier == 0,
        compute_score(UserProfile::fresh(owner, did_address)) == 300,
{
}

/// Creating a profile for an owner who has none stores it and leaves every
/// other owner's profile as it was.
pub proof fn law_creation_stores_one_profile(
    stored: Map<Seq<u8>, UserProfile>,
    ctx: InitializeUserProfile,
    other: Seq<u8>,
)
    requires
        !stored.contains_key(ctx.signer@),
        other != ctx.signer@,
    ensures
        initialize_result(stored, ctx) is Ok,
        initialize_stored(stored, ctx).contains_key(ctx.signer@),
        initialize_stored(stored, ctx)[ctx.signer@] == UserProfile::fresh(
            ctx.signer,
            ctx.user_profile,
        ),
        initialize_stored(stored, ctx).contains_key(other) == stored.contains_key(other),
        stored.contains_key(other) ==> initialize_stored(stored, ctx)[other] == stored[other],
{
}

/// Creating a profile twice for one owner: the second request is rejected as
/// already existing, whatever was stored before the first, and what the
/// first left stored is unchanged.
pub proof fn law_second_creation_is_rejected(
    stored: Map<Seq<u8>, UserProfile>,
    first: InitializeUserProfile,
    second: InitializeUserProfile,
)
    requires
        first.signer@ == second.signer@,
    ensures
        initialize_result(initialize_stored(stored, first), second) == Err::<
            UserProfileInitialized,
            ErrorCode,
        >(ErrorCode::UserProfileAlreadyExists),
        initialize_stored(initialize_stored(stored, first), second) == initialize_stored(
            stored,
            first,
        ),
{
}

/// A request for an update that the admin authority did not sign is rejected
/// as unauthorized, and the accounts are left exactly as they were.
pub proof fn law_stranger_changes_nothing(
    verification: UpdateHumanVerification,
    is_verified: bool,
    factors: UpdateReputationFactors,
    wallet_age_months: u8,
    transaction_count: u32,
    has_nft: bool,
    verified_credentials_count: u8,
    has_income_verification: bool,
    activity_regularity_score: u8,
    direct: UpdateTigerScore,
    new_score: u16,
    new_tier: u8,
)
    ensures
        !is_admin(verification.authority) ==> {
            &&& human_verification_result(verification, is_verified) == Err::<
                HumanVerificationUpdated,
                ErrorCode,
            >(ErrorCode::Unauthorized)
            &&& human_verification_accounts(verification, is_verified) == verification
        },
        !is_admin(factors.authority) ==> {
            &&& reputation_factors_result(
                factors,
                wallet_age_months,
                transaction_count,
                has_nft,
                verified_credentials_count,
                has_income_verification,
                activity_regularity_score,
            ) == Err::<ReputationFactorsUpdated, ErrorCode>(
                ErrorCode::Unauthorized,
            )
            &&& reputation_factors_accounts(
                factors,
                wallet_age_months,
                transaction_count,
                has_nft,
                verified_credentials_count,
                has_income_verification,
                activity_regularity_score,
            ) == factors
        },
        !is_admin(direct.authority) ==> {
            &&& tigerscore_result(direct, new_score, new_tier) == Err::<
                TigerScoreUpdated,
                ErrorCode,
            >(ErrorCode::Unauthorized)
            &&& tigerscore_accounts(direct, new_score, new_tier) == direct
        },
{
}

/// A request that the admin authority signed is never rejected, and it
/// leaves the owner, the address and the signer as they were.
pub proof fn law_admin_is_never_rejected(
    verification: UpdateHumanVerification,
    is_verified: bool,
    direct: UpdateTigerScore,
    new_score: u16,
    new_tier: u8,
)
    ensures
        is_admin(verification.authority) ==> {
            let after = human_verification_accounts(verification, is_verified);
            &&& human_verification_result(verification, is_verified) is Ok
            &&& after.user_profile.data.is_human_verified == is_verified
            &&& after.user_profile.data.owner == verification.user_profile.data.owner
            &&& after.user_profile.data.did_address == verification.user_profile.data.did_address
            &&& after.user_profile.key == verification.user_profile.key
            &&& after.authority == verification.authority
        },
        is_admin(direct.authority) ==> {
            let after = tigerscore_accounts(direct, new_score, new_tier);
            &&& tigerscore_result(direct, new_score, new_tier) is Ok
            &&& after.user_profile.data.owner == direct.user_profile.data.owner
            &&& after.user_profile.data.did_address == direct.user_profile.data.did_address
            &&& after.user_profile.key == direct.user_profile.key
            &&& after.authority == direct.authority
        },
{
}

} // verus!
