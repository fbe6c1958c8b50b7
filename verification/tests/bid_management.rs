use bid_tracker::bid_management::{Bid, BidManagement};
use bid_tracker::bid_tracker::BidTracker;

/// The 128-bit key of a UUID in its canonical text form.
fn uuid_key(text: &str) -> u128 {
    uuid::Uuid::parse_str(text).unwrap().as_u128()
}

/// Order-preserving 64-bit key of a floating-point bid amount.
fn amount_key(amount: f64) -> u64 {
    let bits = amount.to_bits();
    if bits & (1u64 << 63) != 0 {
        !bits
    } else {
        bits | (1u64 << 63)
    }
}

#[test]
fn test_insert_bid() {
    let item_uuid = uuid_key("1cb396fd-3242-40ce-aaa1-8e8337c70435");
    let mut bm = BidManagement::new(vec![item_uuid]);

    let bid = Bid {
        user_uuid: uuid_key("e5129c2c-718e-4ce6-b327-e74855967ab8"),
        item_uuid,
        timestamp: 1591915318,
        amount: amount_key(30f64),
    };
    bm.insert_bid(&bid).unwrap();

    assert!(bm.user_count() > 0);
    assert!(bm.item_count() > 0);
    assert!(bm.get_bids(&item_uuid).unwrap().len() > 0);

    // When non-allowed item_uuid is inserted
    let non_allowed = uuid_key("a17b364f-0a5d-4e6e-91dd-0fa38c11b4ea");
    let bid2 = Bid {
        item_uuid: non_allowed,
        ..bid
    };
    assert!(bm.insert_bid(&bid2).is_err());
}

#[test]
fn test_current_winning_bid() {
    let item_uuid = uuid_key("1cb396fd-3242-40ce-aaa1-8e8337c70435");
    let mut bm = BidManagement::new(vec![item_uuid]);

    let bid = Bid {
        user_uuid: uuid_key("e5129c2c-718e-4ce6-b327-e74855967ab8"),
        item_uuid,
        timestamp: 1591915318,
        amount: amount_key(30f64),
    };

    // When wrong item_uuid requested
    let non_existent_uuid = uuid_key("a17b364f-0a5d-4e6e-91dd-0fa38c11b4ea");
    assert!(bm.current_winning_bid(&non_existent_uuid).is_err());

    // When correct item without any bids requested
    assert!(bm.current_winning_bid(&item_uuid).is_err());

    // When correct item with bid requested
    bm.insert_bid(&bid).unwrap();
    assert!(bm.current_winning_bid(&item_uuid).unwrap().item_uuid == item_uuid);
}

#[test]
fn bid_management_test_get_bids() {
    let item_uuid = uuid_key("1cb396fd-3242-40ce-aaa1-8e8337c70435");
    let mut bm = BidManagement::new(vec![item_uuid]);

    let user_uuid1 = uuid_key("e5129c2c-718e-4ce6-b327-e74855967ab8");
    let user_uuid2 = uuid_key("215248b5-8402-4211-93c0-9f71a93e69a9");
    let bid1 = Bid {
        user_uuid: user_uuid1,
        item_uuid,
        timestamp: 1591915318,
        amount: amount_key(30f64),
    };

    let bid2 = Bid {
        user_uuid: user_uuid2,
        amount: amount_key(31f64),
        ..bid1
    };

    // When no bids
    assert!(bm.get_bids(&item_uuid).is_ok());
    assert!(bm.get_bids(&item_uuid).unwrap().len() == 0);

    // When wrong item_uuid requested
    let non_existent_uuid = uuid_key("a17b364f-0a5d-4e6e-91dd-0fa38c11b4ea");
    assert!(bm.get_bids(&non_existent_uuid).is_err());

    // When after insertion bids requested
    bm.insert_bid(&bid1).expect("Failed to insert first bid");
    bm.insert_bid(&bid2).expect("Failed to insert second bid");

    assert!(bm.get_bids(&item_uuid).unwrap().len() == 2);
}

#[test]
fn test_get_bids_by_user() {
    let item_uuid1 = uuid_key("1cb396fd-3242-40ce-aaa1-8e8337c70435");
    let item_uuid2 = uuid_key("e5129c2c-718e-4ce6-b327-e74855967ab8");
    let mut bm = BidManagement::new(vec![item_uuid1, item_uuid2]);

    let user_uuid = uuid_key("215248b5-8402-4211-93c0-9f71a93e69a9");
    let bid1 = Bid {
        user_uuid,
        item_uuid: item_uuid1,
        timestamp: 1591915318,
        amount: amount_key(30f64),
    };

    let bid2 = Bid {
        item_uuid: item_uuid2,
        amount: amount_key(31f64),
        ..bid1
    };

    // When no bids, hence no user exist
    assert!(bm.get_bids_by_user(&user_uuid).is_err());

    // When wrong non_existent user_uuid requested
    let non_existent_uuid = uuid_key("a17b364f-0a5d-4e6e-91dd-0fa38c11b4ea");
    assert!(bm.get_bids_by_user(&non_existent_uuid).is_err());

    // When after insertion bids requested
    bm.insert_bid(&bid1).expect("Failed to insert first bid");
    bm.insert_bid(&bid2).expect("Failed to insert second bid");

    assert!(
        bm.get_bids_by_user(&user_uuid)
            .expect("Failed in getting bids by the user")
            .len()
            == 2
    );
}
