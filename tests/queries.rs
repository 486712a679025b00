use nft_market_api::model::{Listing, ListingsData, Purchase, PurchasesData, QueryError};
use nft_market_api::query::{collection_data, floor_price, listings, purchases, traded_volume};

fn listing(id: &str, owner: &str, contract: &str, price: &str, is_active: bool) -> Listing {
    Listing {
        id: id.to_string(),
        owner: owner.to_string(),
        token_id: "1".to_string(),
        nft_contract_address: contract.to_string(),
        price: price.to_string(),
        is_active,
        block_number: "100".to_string(),
        block_timestamp: "1700000000".to_string(),
        transaction_hash: "0xhash".to_string(),
    }
}

fn purchase(id: &str, buyer: &str, contract: &str, price: &str) -> Purchase {
    Purchase {
        id: id.to_string(),
        buyer: buyer.to_string(),
        owner: "0xseller".to_string(),
        token_id: "7".to_string(),
        nft_contract_address: contract.to_string(),
        price: price.to_string(),
        block_number: "200".to_string(),
        block_timestamp: "1700000100".to_string(),
        transaction_hash: "0xhash".to_string(),
    }
}

fn example_listings() -> ListingsData {
    ListingsData {
        lists: vec![
            listing("1", "0xA", "0xC1", "100", true),
            listing("2", "0xA", "0xC1", "50", false),
        ],
    }
}

fn ids_of_listings(v: &[Listing]) -> Vec<String> {
    v.iter().map(|l| l.id.clone()).collect()
}

fn ids_of_purchases(v: &[Purchase]) -> Vec<String> {
    v.iter().map(|p| p.id.clone()).collect()
}

#[test]
fn owner_listings_leave_out_inactive() {
    let r = listings(&example_listings(), Some("0xa")).unwrap();
    assert_eq!(ids_of_listings(&r), vec!["1".to_string()]);
}

#[test]
fn floor_price_counts_inactive_listings() {
    assert_eq!(floor_price(&example_listings(), "0xC1").unwrap(), 50);
    let stats = collection_data(&example_listings(), &PurchasesData { buys: vec![] }, "0xC1").unwrap();
    assert_eq!(stats.floor_price, 50);
    assert_eq!(stats.traded_volume, 0);
    assert_eq!(stats.id, "0xc1");
}

#[test]
fn unknown_buyer_is_not_found() {
    let data = PurchasesData { buys: vec![purchase("1", "0xb", "0xC2", "10")] };
    let e = purchases(&data, "0xZ").unwrap_err();
    assert!(e.is_not_found());
    assert_eq!(e.status_code(), 400);
    assert_eq!(e.message(), "No buys for address 0xz");
}

#[test]
fn traded_volume_sums_collection_prices() {
    let data = PurchasesData {
        buys: vec![
            purchase("1", "0xb", "0xC2", "10"),
            purchase("2", "0xb", "0xC3", "1000"),
            purchase("3", "0xd", "0xc2", "20"),
            purchase("4", "0xe", "0xC2", "30"),
        ],
    };
    assert_eq!(traded_volume(&data, "0xC2").unwrap(), 60);
}

#[test]
fn all_listings_are_active_ones_in_order() {
    let data = ListingsData {
        lists: vec![
            listing("1", "0xA", "0xC1", "100", true),
            listing("2", "0xB", "0xC1", "50", false),
            listing("3", "0xB", "0xC2", "70", true),
        ],
    };
    let r = listings(&data, None).unwrap();
    assert_eq!(ids_of_listings(&r), vec!["1".to_string(), "3".to_string()]);
    assert!(r.iter().all(|l| l.is_active));
}

#[test]
fn no_active_listing_is_not_found() {
    let data = ListingsData { lists: vec![listing("2", "0xA", "0xC1", "50", false)] };
    let e = listings(&data, None).unwrap_err();
    assert!(matches!(e, QueryError::NoActiveListings));
    assert_eq!(e.message(), "No active listings found");
    let empty = ListingsData { lists: vec![] };
    assert!(matches!(listings(&empty, None), Err(QueryError::NoActiveListings)));
}

#[test]
fn owner_without_active_listing_is_not_found() {
    let e = listings(&example_listings(), Some("0xB")).unwrap_err();
    match &e {
        QueryError::NoActiveListingsForOwner(o) => assert_eq!(o, "0xb"),
        other => panic!("unexpected {:?}", other),
    }
    assert_eq!(e.message(), "No active listings for owner 0xb");
    assert_eq!(e.status_code(), 400);
}

#[test]
fn owner_match_ignores_case() {
    let data = ListingsData {
        lists: vec![
            listing("1", "0xAbC", "0xC1", "100", true),
            listing("2", "0xabd", "0xC1", "100", true),
            listing("3", "0xABC", "0xC1", "100", true),
        ],
    };
    let r = listings(&data, Some("0XaBc")).unwrap();
    assert_eq!(ids_of_listings(&r), vec!["1".to_string(), "3".to_string()]);
}

#[test]
fn buyer_purchases_in_upstream_order() {
    let data = PurchasesData {
        buys: vec![
            purchase("1", "0xB", "0xC2", "10"),
            purchase("2", "0xb1", "0xC2", "10"),
            purchase("3", "0xb", "0xC3", "10"),
        ],
    };
    let r = purchases(&data, "0xB").unwrap();
    assert_eq!(ids_of_purchases(&r), vec!["1".to_string(), "3".to_string()]);
    assert!(r.iter().all(|p| p.buyer.to_lowercase() == "0xb"));
}

#[test]
fn unknown_collection_is_not_found() {
    let e = floor_price(&example_listings(), "0xC9").unwrap_err();
    match &e {
        QueryError::NoCollection(c) => assert_eq!(c, "0xc9"),
        other => panic!("unexpected {:?}", other),
    }
    assert_eq!(e.message(), "No collection with id 0xc9 found");
    let stats = collection_data(&example_listings(), &PurchasesData { buys: vec![] }, "0xC9");
    assert!(matches!(stats, Err(QueryError::NoCollection(_))));
}

#[test]
fn unreadable_listing_prices_are_skipped() {
    let data = ListingsData {
        lists: vec![
            listing("1", "0xA", "0xC1", "abc", true),
            listing("2", "0xA", "0xC1", "75", true),
            listing("3", "0xA", "0xC1", " 5", true),
            listing("4", "0xA", "0xC1", "+80", true),
        ],
    };
    assert_eq!(floor_price(&data, "0xc1").unwrap(), 75);
    let none = ListingsData { lists: vec![listing("1", "0xA", "0xC1", "1.5", true)] };
    assert!(matches!(floor_price(&none, "0xC1"), Err(QueryError::NoCollection(_))));
}

#[test]
fn floor_price_reads_signs_and_extremes() {
    let data = ListingsData {
        lists: vec![
            listing("1", "0xA", "0xC1", "9223372036854775807", true),
            listing("2", "0xA", "0xC1", "-9223372036854775808", true),
            listing("3", "0xA", "0xC1", "-9223372036854775809", true),
        ],
    };
    assert_eq!(floor_price(&data, "0xC1").unwrap(), i64::MIN);
}

#[test]
fn unreadable_purchase_price_is_a_fault() {
    let data = PurchasesData {
        buys: vec![purchase("1", "0xb", "0xC2", "10"), purchase("2", "0xb", "0xC2", "ten")],
    };
    let e = traded_volume(&data, "0xC2").unwrap_err();
    assert!(matches!(e, QueryError::InvalidPrice));
    assert!(!e.is_not_found());
    assert_eq!(e.status_code(), 500);
    let stats = collection_data(&example_listings(), &data, "0xC1");
    assert_eq!(stats.unwrap().traded_volume, 0);
    let other = PurchasesData { buys: vec![purchase("1", "0xb", "0xC1", "x")] };
    assert!(matches!(collection_data(&example_listings(), &other, "0xC1"), Err(QueryError::InvalidPrice)));
}

#[test]
fn volume_beyond_i64_is_a_fault() {
    let data = PurchasesData {
        buys: vec![
            purchase("1", "0xb", "0xC2", "9223372036854775807"),
            purchase("2", "0xb", "0xC2", "1"),
        ],
    };
    let e = traded_volume(&data, "0xC2").unwrap_err();
    assert!(matches!(e, QueryError::VolumeOverflow));
    assert_eq!(e.status_code(), 500);
    let back = PurchasesData {
        buys: vec![
            purchase("1", "0xb", "0xC2", "9223372036854775807"),
            purchase("2", "0xb", "0xC2", "1"),
            purchase("3", "0xb", "0xC2", "-2"),
        ],
    };
    assert_eq!(traded_volume(&back, "0xC2").unwrap(), i64::MAX - 1);
}

#[test]
fn empty_purchase_set_has_zero_volume() {
    assert_eq!(traded_volume(&PurchasesData { buys: vec![] }, "0xC2").unwrap(), 0);
}

#[test]
fn repeated_queries_agree() {
    let data = example_listings();
    let a = ids_of_listings(&listings(&data, Some("0xA")).unwrap());
    let b = ids_of_listings(&listings(&data, Some("0xA")).unwrap());
    assert_eq!(a, b);
    assert_eq!(floor_price(&data, "0xC1").unwrap(), floor_price(&data, "0xC1").unwrap());
}
