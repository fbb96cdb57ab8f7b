//! The scoring engine: a profile's score and the tier of a score.

use vstd::prelude::*;
use crate::profile::UserProfile;

verus! {

/// Every profile starts from this many points.
pub const BASE_SCORE: u16 = 300;

/// Points for each successful repayment.
pub const POINTS_PER_REPAYMENT: u16 = 60;

/// Points for a human-verified profile.
pub const HUMAN_VERIFIED_POINTS: u16 = 80;

/// Wallet age, in months, from which the age points are given.
pub const WALLET_AGE_THRESHOLD: u8 = 6;

/// Points for a wallet of at least the threshold age.
pub const WALLET_AGE_POINTS: u16 = 40;

/// Transaction count from which the activity points are given.
pub const TRANSACTION_THRESHOLD: u32 = 100;

/// Points for a transaction count of at least the threshold.
pub const TRANSACTION_POINTS: u16 = 40;

/// Points for holding an NFT.
pub const NFT_POINTS: u16 = 20;

/// Points for each verified credential.
pub const POINTS_PER_CREDENTIAL: u16 = 10;

/// Most points that credentials can give.
pub const CREDENTIAL_POINTS_CAP: u16 = 30;

/// Points for verified income.
pub const INCOME_POINTS: u16 = 110;

/// The largest score that can be represented.
pub const SCORE_CEILING: u16 = 65535;

/// The largest number of repayments whose points stay below the ceiling.
pub const REPAYMENTS_BELOW_CEILING: u32 = 1092;

/// The smallest number of credentials that earns the most credential points.
pub const CREDENTIALS_AT_CAP: u8 = 3;

/// Points earned by `repayments` successful repayments, without any ceiling.
pub open spec fn repayment_points(repayments: u32) -> int {
    repayments * POINTS_PER_REPAYMENT
}

/// Points earned by `count` verified credentials: ten each, thirty at most.
pub open spec fn credential_points(count: u8) -> int {
    if count * POINTS_PER_CREDENTIAL <= CREDENTIAL_POINTS_CAP {
        count * POINTS_PER_CREDENTIAL
    } else {
        CREDENTIAL_POINTS_CAP as int
    }
}

/// The sum of all contributions to a profile's score, without any ceiling.
pub open spec fn raw_score(profile: UserProfile) -> int {
    BASE_SCORE + repayment_points(profile.total_successful_repayments)
        + (if profile.is_human_verified { HUMAN_VERIFIED_POINTS as int } else { 0 })
        + (if profile.wallet_age_months >= WALLET_AGE_THRESHOLD { WALLET_AGE_POINTS as int } else { 0 })
        + (if profile.transaction_count >= TRANSACTION_THRESHOLD { TRANSACTION_POINTS as int } else { 0 })
        + (if profile.has_nft { NFT_POINTS as int } else { 0 })
        + credential_points(profile.verified_credentials_count)
        + (if profile.has_income_verification { INCOME_POINTS as int } else { 0 })
        + profile.activity_regularity_score
}

/// A profile's score: the sum of its contributions, held at 65535 where the
/// sum is larger.
pub open spec fn compute_score(profile: UserProfile) -> u16 {
    if raw_score(profile) >= SCORE_CEILING {
        SCORE_CEILING
    } else {
        raw_score(profile) as u16
    }
}

/// The tier of a score: the highest band whose lower edge the score reaches.
pub open spec fn tier_of(score: u16) -> u8 {
    if score >= 900 {
        5
    } else if score >= 700 {
        4
    } else if score >= 500 {
        3
    } else if score >= 200 {
        2
    } else if score >= 50 {
        1
    } else {
        0
    }
}

/// Points for `repayments` successful repayments, held at the ceiling.
fn capped_repayment_points(repayments: u32) -> (points: u16)
    ensures
        repayment_points(repayments) <= SCORE_CEILING ==> points == repayment_points(repayments),
        repayment_points(repayments) > SCORE_CEILING ==> points == SCORE_CEILING,
{
    if repayments > REPAYMENTS_BELOW_CEILING {
        SCORE_CEILING
    } else {
        let r: u16 = repayments as u16;
        r * POINTS_PER_REPAYMENT
    }
}

/// Points for `count` verified credentials.
fn capped_credential_points(count: u8) -> (points: u16)
    ensures
        points == credential_points(count),
{
    if count >= CREDENTIALS_AT_CAP {
        CREDENTIAL_POINTS_CAP
    } else {
        let c: u16 = count as u16;
        c * POINTS_PER_CREDENTIAL
    }
}

/// Computes a profile's score from its current signals. The stored score and
/// tier are not read.
pub fn calculate_full_tigerscore(profile: &UserProfile) -> (score: u16)
    ensures
        score == compute_score(*profile),
        score >= 300,
{
    let mut score: u16 = BASE_SCORE;
    score = score.saturating_add(capped_repayment_points(profile.total_successful_repayments));
    if profile.is_human_verified {
        score = score.saturating_add(HUMAN_VERIFIED_POINTS);
    }
    if profile.wallet_age_months >= WALLET_AGE_THRESHOLD {
        score = score.saturating_add(WALLET_AGE_POINTS);
    }
    if profile.transaction_count >= TRANSACTION_THRESHOLD {
        score = score.saturating_add(TRANSACTION_POINTS);
    }
    if profile.has_nft {
        score = score.saturating_add(NFT_POINTS);
    }
    score = score.saturating_add(capped_credential_points(profile.verified_credentials_count));
    if profile.has_income_verification {
        score = score.saturating_add(INCOME_POINTS);
    }
    let activity: u16 = profile.activity_regularity_score as u16;
    score = score.saturating_add(activity);
    score
}

/// Maps a score to its tier.
pub fn calculate_new_tier(tiger_score: u16) -> (tier: u8)
    ensures
        tier == tier_of(tiger_score),
        tier <= 5,
{
    if tiger_score >= 900 {
        5
    } else if tiger_score >= 700 {
        4
    } else if tiger_score >= 500 {
        3
    } else if tiger_score >= 200 {
        2
    } else if tiger_score >= 50 {
        1
    } else {
        0
    }
}

} // verus!
