use tiger_score::identity::IdentityKey;
use tiger_score::profile::UserProfile;
use tiger_score::score::{calculate_full_tigerscore, calculate_new_tier};

fn key(tag: u8) -> IdentityKey {
    IdentityKey::new_from_array([tag; 32])
}

fn blank() -> UserProfile {
    UserProfile::new(key(1), key(2))
}

#[test]
fn tier_of_900_is_5_and_899_is_4() {
    assert_eq!(calculate_new_tier(900), 5);
    assert_eq!(calculate_new_tier(899), 4);
}

#[test]
fn tier_of_700_is_4_and_699_is_3() {
    assert_eq!(calculate_new_tier(700), 4);
    assert_eq!(calculate_new_tier(699), 3);
}

#[test]
fn tier_of_500_is_3_and_499_is_2() {
    assert_eq!(calculate_new_tier(500), 3);
    assert_eq!(calculate_new_tier(499), 2);
}

#[test]
fn tier_of_200_is_2_and_199_is_1() {
    assert_eq!(calculate_new_tier(200), 2);
    assert_eq!(calculate_new_tier(199), 1);
}

#[test]
fn tier_of_50_is_1_and_49_is_0() {
    assert_eq!(calculate_new_tier(50), 1);
    assert_eq!(calculate_new_tier(49), 0);
}

#[test]
fn tier_at_the_ends_of_the_range() {
    assert_eq!(calculate_new_tier(0), 0);
    assert_eq!(calculate_new_tier(u16::MAX), 5);
}

#[test]
fn tier_never_falls_as_the_score_rises() {
    let mut previous = calculate_new_tier(0);
    for score in 1..=u16::MAX {
        let tier = calculate_new_tier(score);
        assert!(previous <= tier);
        assert!(tier <= 5);
        previous = tier;
    }
}

#[test]
fn blank_profile_scores_the_base() {
    let profile = blank();
    assert_eq!(profile.tiger_score, 0);
    assert_eq!(profile.level_up_tier, 0);
    assert_eq!(calculate_full_tigerscore(&profile), 300);
}

#[test]
fn each_signal_adds_its_points() {
    let mut profile = blank();
    profile.is_human_verified = true;
    assert_eq!(calculate_full_tigerscore(&profile), 380);

    let mut profile = blank();
    profile.wallet_age_months = 6;
    assert_eq!(calculate_full_tigerscore(&profile), 340);
    profile.wallet_age_months = 5;
    assert_eq!(calculate_full_tigerscore(&profile), 300);

    let mut profile = blank();
    profile.transaction_count = 100;
    assert_eq!(calculate_full_tigerscore(&profile), 340);
    profile.transaction_count = 99;
    assert_eq!(calculate_full_tigerscore(&profile), 300);

    let mut profile = blank();
    profile.has_nft = true;
    assert_eq!(calculate_full_tigerscore(&profile), 320);

    let mut profile = blank();
    profile.has_income_verification = true;
    assert_eq!(calculate_full_tigerscore(&profile), 410);

    let mut profile = blank();
    profile.activity_regularity_score = 37;
    assert_eq!(calculate_full_tigerscore(&profile), 337);
}

#[test]
fn credentials_give_ten_each_up_to_thirty() {
    let mut profile = blank();
    profile.verified_credentials_count = 1;
    assert_eq!(calculate_full_tigerscore(&profile), 310);
    profile.verified_credentials_count = 2;
    assert_eq!(calculate_full_tigerscore(&profile), 320);
    profile.verified_credentials_count = 3;
    assert_eq!(calculate_full_tigerscore(&profile), 330);
    profile.verified_credentials_count = 4;
    assert_eq!(calculate_full_tigerscore(&profile), 330);
    profile.verified_credentials_count = 255;
    assert_eq!(calculate_full_tigerscore(&profile), 330);
}

#[test]
fn repayments_give_sixty_each() {
    let mut profile = blank();
    profile.total_successful_repayments = 1;
    assert_eq!(calculate_full_tigerscore(&profile), 360);
    profile.total_successful_repayments = 10;
    assert_eq!(calculate_full_tigerscore(&profile), 900);
    profile.total_successful_repayments = 1087;
    assert_eq!(calculate_full_tigerscore(&profile), 65520);
}

#[test]
fn score_stops_at_the_ceiling() {
    let mut profile = blank();
    profile.total_successful_repayments = 1087;
    profile.activity_regularity_score = 15;
    assert_eq!(calculate_full_tigerscore(&profile), 65535);
    profile.activity_regularity_score = 16;
    assert_eq!(calculate_full_tigerscore(&profile), 65535);

    profile.total_successful_repayments = 1088;
    profile.activity_regularity_score = 0;
    assert_eq!(calculate_full_tigerscore(&profile), 65535);
    profile.total_successful_repayments = 1093;
    assert_eq!(calculate_full_tigerscore(&profile), 65535);
    profile.total_successful_repayments = 2000;
    assert_eq!(calculate_full_tigerscore(&profile), 65535);
}

#[test]
fn score_at_the_largest_values_of_every_field() {
    let mut profile = blank();
    profile.is_human_verified = true;
    profile.wallet_age_months = u8::MAX;
    profile.transaction_count = u32::MAX;
    profile.has_nft = true;
    profile.verified_credentials_count = u8::MAX;
    profile.has_income_verification = true;
    profile.activity_regularity_score = u8::MAX;
    profile.total_successful_repayments = u32::MAX;
    profile.total_defaulted_loans = u32::MAX;
    profile.on_chain_debt_balance = u64::MAX;
    profile.last_repayment_timestamp = i64::MAX;
    assert_eq!(calculate_full_tigerscore(&profile), 65535);
    assert_eq!(calculate_new_tier(calculate_full_tigerscore(&profile)), 5);
}

#[test]
fn score_does_not_read_what_is_not_a_signal() {
    let mut profile = blank();
    profile.tiger_score = 12345;
    profile.level_up_tier = 9;
    profile.total_defaulted_loans = 77;
    profile.on_chain_debt_balance = 1_000_000;
    profile.last_repayment_timestamp = -5;
    assert_eq!(calculate_full_tigerscore(&profile), 300);
}

#[test]
fn all_signals_without_repayments() {
    let mut profile = blank();
    profile.is_human_verified = true;
    profile.wallet_age_months = 12;
    profile.transaction_count = 1000;
    profile.has_nft = true;
    profile.verified_credentials_count = 3;
    profile.has_income_verification = true;
    profile.activity_regularity_score = 40;
    assert_eq!(calculate_full_tigerscore(&profile), 660);
    assert_eq!(calculate_new_tier(660), 3);
}

#[test]
fn recompute_stores_score_and_tier() {
    let mut profile = blank();
    profile.total_successful_repayments = 10;
    profile.recompute();
    assert_eq!(profile.tiger_score, 900);
    assert_eq!(profile.level_up_tier, 5);
    assert_eq!(profile.total_successful_repayments, 10);
}
