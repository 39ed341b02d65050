use artisan_escrow::{Address, Error, ReputationContract, ReputationData};

#[test]
fn test_default_reputation_data() {
    let default = ReputationData::default();
    assert_eq!(default.total_stars, 0);
    assert_eq!(default.review_count, 0);
}

#[test]
fn test_contract_get_reputation_no_data() {
    let contract = ReputationContract::new();

    let user = Address(1);
    let reputation = contract.get_reputation(user);

    // Reading a user without any stored reputation gives the default (0, 0).
    assert_eq!(reputation.total_stars, 0);
    assert_eq!(reputation.review_count, 0);
}

#[test]
fn test_contract_set_and_get_reputation() {
    let mut contract = ReputationContract::new();

    let user = Address(1);
    let data = ReputationData { total_stars: 100, review_count: 20 };

    contract.set_reputation(user, data);

    let retrieved = contract.get_reputation(user);

    assert_eq!(retrieved.total_stars, 100);
    assert_eq!(retrieved.review_count, 20);
}

#[test]
fn test_multiple_users_independent_reputation() {
    let mut contract = ReputationContract::new();

    let user1 = Address(1);
    let user2 = Address(2);

    let data1 = ReputationData { total_stars: 50, review_count: 10 };
    let data2 = ReputationData { total_stars: 75, review_count: 15 };

    contract.set_reputation(user1, data1);
    contract.set_reputation(user2, data2);

    let retrieved1 = contract.get_reputation(user1);
    let retrieved2 = contract.get_reputation(user2);

    assert_eq!(retrieved1.total_stars, 50);
    assert_eq!(retrieved1.review_count, 10);
    assert_eq!(retrieved2.total_stars, 75);
    assert_eq!(retrieved2.review_count, 15);
}

#[test]
fn test_update_existing_reputation() {
    let mut contract = ReputationContract::new();

    let user = Address(1);

    // Set the initial reputation.
    let initial_data = ReputationData { total_stars: 30, review_count: 5 };
    contract.set_reputation(user, initial_data);

    // Update it.
    let updated_data = ReputationData { total_stars: 80, review_count: 12 };
    contract.set_reputation(user, updated_data);

    let retrieved = contract.get_reputation(user);
    assert_eq!(retrieved.total_stars, 80);
    assert_eq!(retrieved.review_count, 12);
}

#[test]
fn test_rate_artisan() {
    let mut contract = ReputationContract::new();

    let artisan = Address(1);
    contract.rate_artisan(artisan, 2).unwrap();
    let reputation = contract.get_reputation(artisan);

    assert_eq!(reputation.total_stars, 2);
    assert_eq!(reputation.review_count, 1);
}

#[test]
fn test_rate_artisan_not_in_range() {
    let mut contract = ReputationContract::new();

    let artisan = Address(1);
    let r = contract.rate_artisan(artisan, 6);
    assert_eq!(r, Err(Error::ValidationError));
    assert_eq!(contract.get_reputation(artisan).review_count, 0);
}

#[test]
fn test_rate_artisan_not_in_range_zero() {
    let mut contract = ReputationContract::new();

    let artisan = Address(1);
    let r = contract.rate_artisan(artisan, 0);
    assert_eq!(r, Err(Error::ValidationError));
    assert_eq!(contract.get_reputation(artisan).review_count, 0);
}

#[test]
fn test_rate_artisan_multiple() {
    let mut contract = ReputationContract::new();

    let artisan = Address(1);
    contract.rate_artisan(artisan, 2).unwrap();
    contract.rate_artisan(artisan, 5).unwrap();
    contract.rate_artisan(artisan, 1).unwrap();
    let reputation = contract.get_reputation(artisan);

    assert_eq!(reputation.total_stars, 8);
    assert_eq!(reputation.review_count, 3);
}

#[test]
fn test_edge_case_zero_stars() {
    let mut contract = ReputationContract::new();

    let artisan = Address(1);

    // Rating with zero stars is refused.
    let r = contract.rate_artisan(artisan, 0);
    assert_eq!(r, Err(Error::ValidationError));
}

#[test]
fn test_edge_case_six_stars() {
    let mut contract = ReputationContract::new();

    let artisan = Address(1);

    // Rating with six stars is refused.
    let r = contract.rate_artisan(artisan, 6);
    assert_eq!(r, Err(Error::ValidationError));
}

#[test]
fn test_reputation_isolation_between_artisans() {
    let mut contract = ReputationContract::new();

    let artisan1 = Address(1);
    let artisan2 = Address(2);

    // Rate artisan1.
    contract.rate_artisan(artisan1, 5).unwrap();
    contract.rate_artisan(artisan1, 3).unwrap();

    // Rate artisan2.
    contract.rate_artisan(artisan2, 4).unwrap();
    contract.rate_artisan(artisan2, 4).unwrap();

    // Different addresses (isolation).
    assert_ne!(artisan1, artisan2);

    // Both hold the same reputation values but stored separately.
    let rep1 = contract.get_reputation(artisan1);
    let rep2 = contract.get_reputation(artisan2);
    assert_eq!(rep1.total_stars, 8);
    assert_eq!(rep2.total_stars, 8);
    assert_eq!(rep1.review_count, 2);
    assert_eq!(rep2.review_count, 2);

    // Changing one does not affect the other.
    contract.rate_artisan(artisan1, 5).unwrap();
    let rep1_updated = contract.get_reputation(artisan1);
    let rep2_unchanged = contract.get_reputation(artisan2);

    assert_eq!(rep1_updated.total_stars, 13); // 8 + 5
    assert_eq!(rep1_updated.review_count, 3); // 2 + 1
    assert_eq!(rep2_unchanged.total_stars, 8); // unchanged
    assert_eq!(rep2_unchanged.review_count, 2); // unchanged
}

#[test]
fn test_read_write_reputation_helpers() {
    let mut contract = ReputationContract::new();

    let user = Address(5);
    assert_eq!(artisan_escrow::read_reputation(&contract, user), ReputationData::default());

    let data = ReputationData { total_stars: 9, review_count: 2 };
    artisan_escrow::write_reputation(&mut contract, user, data);
    assert_eq!(artisan_escrow::read_reputation(&contract, user), data);
}

#[test]
fn test_rate_artisan_overflow_guard() {
    let mut contract = ReputationContract::new();

    let artisan = Address(1);
    contract.set_reputation(artisan, ReputationData { total_stars: u64::MAX - 2, review_count: 7 });

    // A rating that would overflow the star total is refused and nothing
    // changes.
    let r = contract.rate_artisan(artisan, 5);
    assert_eq!(r, Err(Error::ValidationError));
    let rep = contract.get_reputation(artisan);
    assert_eq!(rep.total_stars, u64::MAX - 2);
    assert_eq!(rep.review_count, 7);
}
