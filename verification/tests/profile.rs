use magink::profile::badge_count;
use magink::profile::blocks_remaining;
use magink::profile::claim_badge;
use magink::AccountId;
use magink::Error;
use magink::Profile;

#[test]
fn begin_starts_without_badges() {
    assert_eq!(
        Profile { claim_era: 10, start_block: 77, badges_claimed: 0 },
        Profile::begin(10, 77)
    );
    assert_eq!(
        Profile { claim_era: 0, start_block: 0, badges_claimed: 0 },
        Profile::begin(0, 0)
    );
}

#[test]
fn profile_remaining_is_era_minus_elapsed() {
    let profile = Profile { claim_era: 100, start_block: 1_000, badges_claimed: 9 };
    assert_eq!(100, profile.remaining(1_000));
    assert_eq!(63, profile.remaining(1_037));
    assert_eq!(1, profile.remaining(1_099));
    assert_eq!(0, profile.remaining(1_100));
    assert_eq!(0, profile.remaining(1_356));
    assert_eq!(0, profile.remaining(u32::MAX));
}

#[test]
fn profile_claim_too_early() {
    let profile = Profile { claim_era: 100, start_block: 1_000, badges_claimed: 9 };
    assert_eq!(Err(Error::TooEarlyToClaim), profile.claim(1_000));
    assert_eq!(Err(Error::TooEarlyToClaim), profile.claim(1_099));
}

#[test]
fn profile_claim_when_due() {
    let profile = Profile { claim_era: 100, start_block: 1_000, badges_claimed: 9 };
    assert_eq!(
        Ok(Profile { claim_era: 100, start_block: 1_100, badges_claimed: 10 }),
        profile.claim(1_100)
    );
    assert_eq!(
        Ok(Profile { claim_era: 100, start_block: 5_000, badges_claimed: 10 }),
        profile.claim(5_000)
    );
}

#[test]
fn profile_claim_reaches_the_last_badge() {
    let profile = Profile { claim_era: 1, start_block: 0, badges_claimed: 254 };
    assert_eq!(
        Ok(Profile { claim_era: 1, start_block: 1, badges_claimed: 255 }),
        profile.claim(1)
    );
}

#[test]
fn rules_without_a_profile() {
    assert_eq!(0, blocks_remaining(None, 0));
    assert_eq!(0, blocks_remaining(None, u32::MAX));
    assert_eq!(0, badge_count(None));
    assert_eq!(Err(Error::UserNotFound), claim_badge(None, 12));
}

#[test]
fn rules_with_a_profile() {
    let profile = Profile { claim_era: 8, start_block: 40, badges_claimed: 3 };
    assert_eq!(8, blocks_remaining(Some(profile), 40));
    assert_eq!(5, blocks_remaining(Some(profile), 43));
    assert_eq!(0, blocks_remaining(Some(profile), 48));
    assert_eq!(3, badge_count(Some(profile)));
    assert_eq!(Err(Error::TooEarlyToClaim), claim_badge(Some(profile), 47));
    assert_eq!(
        Ok(Profile { claim_era: 8, start_block: 48, badges_claimed: 4 }),
        claim_badge(Some(profile), 48)
    );
}

#[test]
fn account_ids_compare_by_bytes() {
    let mut bytes = [7u8; 32];
    let a = AccountId(bytes);
    assert_eq!(a, AccountId([7u8; 32]));
    bytes[31] = 8;
    assert_ne!(a, AccountId(bytes));
    bytes[31] = 7;
    bytes[0] = 0;
    assert_ne!(a, AccountId(bytes));
    bytes[0] = 7;
    bytes[16] = 200;
    assert_ne!(a, AccountId(bytes));
    bytes[16] = 7;
    assert_eq!(a, AccountId(bytes));
}

#[test]
fn profiles_order_by_era_then_block_then_badges() {
    let low = Profile { claim_era: 1, start_block: 9, badges_claimed: 9 };
    let mid = Profile { claim_era: 2, start_block: 0, badges_claimed: 5 };
    let high = Profile { claim_era: 2, start_block: 0, badges_claimed: 6 };
    assert!(low < mid);
    assert!(mid < high);
    assert_eq!(mid, mid.clone());
}
