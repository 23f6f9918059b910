use store_ledger::catalog::Products;
use store_ledger::error::StoreError;
use store_ledger::identity::Identity;
use store_ledger::journal::Receipt;
use store_ledger::ledger::{Allocation, Balances};
use store_ledger::let_me_buy::{
    add_product, check_treasury, delete_product, delete_store, initialize, make_purchase,
    mark_as_delivered,
    realloc_store, settle_purchase, sol_mint, update_details, update_telegram_channel,
    validate_store_name, PurchaseMade, Receipts, StoreErrorCode, INIT_SPACE, MAX_RECEIPTS,
    PRODUCT_SPACE, REALLOC_SPACE, RECEIPT_SPACE, SOL_MINT,
};
use store_ledger::settlement::Transfer;

fn key(n: u8) -> Identity {
    Identity::new([n; 32])
}

fn owner() -> Identity {
    key(1)
}

fn stranger() -> Identity {
    key(2)
}

fn buyer() -> Identity {
    key(3)
}

fn usdc() -> Identity {
    key(40)
}

fn handle() -> Identity {
    key(99)
}

fn cafe() -> Receipts {
    initialize(&owner(), "cafe".to_string()).unwrap()
}

fn stocked_cafe() -> Receipts {
    let mut store = cafe();
    assert_eq!(add_product(&mut store, &owner(), &sol_mint(), 9, "latte".to_string(), 500), Ok(()));
    assert_eq!(add_product(&mut store, &owner(), &usdc(), 6, "mocha".to_string(), 650), Ok(()));
    store
}

fn ids(store: &Receipts) -> Vec<u64> {
    store.receipts.iter().map(|r| r.receipt_id).collect()
}

#[test]
fn native_asset_is_the_decoded_sentinel() {
    let decoded = bs58::decode("So11111111111111111111111111111111111111111").into_vec().unwrap();
    assert_eq!(decoded.len(), 32);
    assert_eq!(decoded, SOL_MINT.to_vec());
    assert_eq!(sol_mint(), Identity::new(SOL_MINT));
}

#[test]
fn record_space_follows_the_layout() {
    assert_eq!(RECEIPT_SPACE, 94);
    assert_eq!(PRODUCT_SPACE, 77);
    assert_eq!(INIT_SPACE, 3673);
    assert_eq!(REALLOC_SPACE, 4681);
    assert_eq!(MAX_RECEIPTS, 20);
}

#[test]
fn error_codes_stand_for_their_reasons() {
    assert_eq!(StoreErrorCode::report(StoreError::Unauthorized), StoreErrorCode::InvalidAuthority);
    assert_eq!(StoreErrorCode::report(StoreError::NotFound), StoreErrorCode::ProductNotFound);
    assert_eq!(
        StoreErrorCode::report(StoreError::DuplicateName),
        StoreErrorCode::ProductAlreadyExists
    );
    assert_eq!(StoreErrorCode::report(StoreError::NameEmpty), StoreErrorCode::ProductNameEmpty);
    assert_eq!(StoreErrorCode::report(StoreError::NameTooLong), StoreErrorCode::StringTooLong);
    assert_eq!(StoreErrorCode::report(StoreError::InvalidName), StoreErrorCode::InvalidStoreName);
    assert_eq!(
        StoreErrorCode::report(StoreError::CapacityExceeded),
        StoreErrorCode::VectorLimitReached
    );
    assert_eq!(StoreErrorCode::report(StoreError::AssetMismatch), StoreErrorCode::InvalidMint);
    assert_eq!(
        StoreErrorCode::report(StoreError::InvalidTreasury),
        StoreErrorCode::InvalidTreasury
    );
    assert_eq!(
        StoreErrorCode::report(StoreError::PaymentFailed { cause: 7 }),
        StoreErrorCode::PaymentFailed { cause: 7 }
    );
    assert_eq!(
        StoreErrorCode::report(StoreError::InsufficientFunding),
        StoreErrorCode::InsufficientFunding
    );
    assert_eq!(
        StoreErrorCode::report(StoreError::CounterOverflow),
        StoreErrorCode::CounterOverflow
    );
}

#[test]
fn validate_store_name_accepts_slugs_only() {
    assert_eq!(validate_store_name("cafe"), Ok(()));
    assert_eq!(validate_store_name("my-cafe-2"), Ok(()));
    assert_eq!(validate_store_name(""), Ok(()));
    for name in ["Cafe", "my cafe", "-cafe", "cafe-", "my--cafe", "café", "cafe_1"] {
        assert_eq!(validate_store_name(name), Err(StoreErrorCode::InvalidStoreName), "{:?}", name);
    }
}

#[test]
fn initialize_creates_an_empty_store() {
    let store = cafe();
    assert_eq!(
        store,
        Receipts {
            receipts: vec![],
            total_purchases: 0,
            store_name: "cafe".to_string(),
            authority: owner(),
            products: vec![],
            telegram_channel_id: String::new(),
            bump: 0,
            details: String::new(),
        }
    );
}

#[test]
fn initialize_bounds_the_name_at_thirty_two_bytes() {
    let fits = "a".repeat(32);
    let over = "a".repeat(33);
    assert_eq!(initialize(&owner(), fits.clone()).unwrap().store_name, fits);
    assert_eq!(initialize(&owner(), over), Err(StoreErrorCode::StringTooLong));
}

#[test]
fn initialize_reports_length_before_alphabet() {
    let long_and_bad = "A".repeat(33);
    assert_eq!(initialize(&owner(), long_and_bad), Err(StoreErrorCode::StringTooLong));
    assert_eq!(initialize(&owner(), "Cafe".to_string()), Err(StoreErrorCode::InvalidStoreName));
    assert_eq!(initialize(&owner(), "ca--fe".to_string()), Err(StoreErrorCode::InvalidStoreName));
}

#[test]
fn update_telegram_channel_is_for_the_owner() {
    let mut store = cafe();
    assert_eq!(update_telegram_channel(&mut store, &owner(), "@cafe".to_string()), Ok(()));
    assert_eq!(store.telegram_channel_id, "@cafe");
    let before = store.clone();
    assert_eq!(
        update_telegram_channel(&mut store, &stranger(), "@evil".to_string()),
        Err(StoreErrorCode::InvalidAuthority)
    );
    assert_eq!(store, before);
}

#[test]
fn update_telegram_channel_bounds_the_id_at_thirty_two_bytes() {
    let mut store = cafe();
    assert_eq!(update_telegram_channel(&mut store, &owner(), "c".repeat(32)), Ok(()));
    let before = store.clone();
    assert_eq!(
        update_telegram_channel(&mut store, &owner(), "c".repeat(33)),
        Err(StoreErrorCode::StringTooLong)
    );
    assert_eq!(store, before);
    assert_eq!(
        update_telegram_channel(&mut store, &stranger(), "c".repeat(33)),
        Err(StoreErrorCode::InvalidAuthority)
    );
}

#[test]
fn update_details_is_for_the_owner_and_bounded() {
    let mut store = stocked_cafe();
    assert_eq!(update_details(&mut store, &owner(), "d".repeat(128)), Ok(()));
    assert_eq!(store.details, "d".repeat(128));
    let before = store.clone();
    assert_eq!(
        update_details(&mut store, &owner(), "d".repeat(129)),
        Err(StoreErrorCode::StringTooLong)
    );
    assert_eq!(
        update_details(&mut store, &stranger(), "hello".to_string()),
        Err(StoreErrorCode::InvalidAuthority)
    );
    assert_eq!(store, before);
    assert_eq!(update_details(&mut store, &owner(), String::new()), Ok(()));
    assert_eq!(store.details, "");
    assert_eq!(store.products, before.products);
    assert_eq!(store.receipts, before.receipts);
}

#[test]
fn add_product_records_price_asset_and_decimals() {
    let store = stocked_cafe();
    assert_eq!(
        store.products,
        vec![
            Products { price: 500, decimals: 9, mint: sol_mint(), name: "latte".to_string() },
            Products { price: 650, decimals: 6, mint: usdc(), name: "mocha".to_string() },
        ]
    );
}

#[test]
fn add_product_is_for_the_owner() {
    let mut store = cafe();
    assert_eq!(
        add_product(&mut store, &stranger(), &usdc(), 6, "latte".to_string(), 500),
        Err(StoreErrorCode::InvalidAuthority)
    );
    // Authority is judged first, whatever else is wrong with the request.
    assert_eq!(
        add_product(&mut store, &stranger(), &usdc(), 6, "  ".to_string(), 500),
        Err(StoreErrorCode::InvalidAuthority)
    );
    assert!(store.products.is_empty());
}

#[test]
fn add_product_reports_each_refusal() {
    let mut store = stocked_cafe();
    let before = store.clone();
    assert_eq!(
        add_product(&mut store, &owner(), &usdc(), 6, " \t".to_string(), 1),
        Err(StoreErrorCode::ProductNameEmpty)
    );
    assert_eq!(
        add_product(&mut store, &owner(), &usdc(), 6, "x".repeat(33), 1),
        Err(StoreErrorCode::StringTooLong)
    );
    assert_eq!(
        add_product(&mut store, &owner(), &usdc(), 6, "latte".to_string(), 1),
        Err(StoreErrorCode::ProductAlreadyExists)
    );
    assert_eq!(store, before);
}

#[test]
fn twenty_first_product_is_refused() {
    let mut store = cafe();
    let mut i: usize = 0;
    while i < 20 {
        assert_eq!(
            add_product(&mut store, &owner(), &usdc(), 6, format!("product-{}", i), 100),
            Ok(())
        );
        i += 1;
    }
    assert_eq!(store.products.len(), 20);
    let before = store.clone();
    assert_eq!(
        add_product(&mut store, &owner(), &usdc(), 6, "product-20".to_string(), 100),
        Err(StoreErrorCode::VectorLimitReached)
    );
    assert_eq!(StoreErrorCode::report(StoreError::CapacityExceeded), StoreErrorCode::VectorLimitReached);
    assert_eq!(store.products.len(), 20);
    assert_eq!(store, before);
}

#[test]
fn first_purchase_in_a_new_store() {
    let mut store = cafe();
    assert_eq!(add_product(&mut store, &owner(), &sol_mint(), 9, "latte".to_string(), 500), Ok(()));
    let purchase =
        make_purchase(&mut store, &handle(), &buyer(), &sol_mint(), 1_700_000_000, "latte".to_string(), 3)
            .unwrap();
    assert_eq!(purchase.receipt_id, 0);
    assert_eq!(store.total_purchases, 1);
    assert_eq!(purchase.transfer, Transfer::Native { from: buyer(), to: owner(), amount: 500 });
    assert_eq!(
        purchase.event,
        PurchaseMade {
            buyer: buyer(),
            product_name: "latte".to_string(),
            price: 500,
            timestamp: 1_700_000_000,
            table_number: 3,
            receipt_id: 0,
            telegram_channel_id: String::new(),
            store_name: "cafe".to_string(),
            receipts_account: handle(),
        }
    );
    assert_eq!(
        store.receipts,
        vec![Receipt {
            receipt_id: 0,
            buyer: buyer(),
            was_delivered: false,
            price: 500,
            timestamp: 1_700_000_000,
            table_number: 3,
            product_name: "latte".to_string(),
        }]
    );
    let sent = settle_purchase(purchase.clone(), Ok(())).unwrap();
    assert_eq!(sent, purchase.event);
    assert_eq!(sent.store_name, "cafe");
}

#[test]
fn purchase_in_a_token_goes_to_the_token_rail() {
    let mut store = stocked_cafe();
    assert_eq!(update_telegram_channel(&mut store, &owner(), "@cafe".to_string()), Ok(()));
    let purchase =
        make_purchase(&mut store, &handle(), &buyer(), &usdc(), -5, "mocha".to_string(), 255).unwrap();
    assert_eq!(
        purchase.transfer,
        Transfer::Token { asset: usdc(), from: buyer(), to: owner(), amount: 650, decimals: 6 }
    );
    assert_eq!(purchase.event.telegram_channel_id, "@cafe");
    assert_eq!(purchase.event.timestamp, -5);
    assert_eq!(purchase.event.table_number, 255);
    assert_eq!(store.receipts[0].timestamp, -5);
    assert_eq!(store.receipts[0].table_number, 255);
}

#[test]
fn purchase_of_an_unknown_product_changes_nothing() {
    let mut store = stocked_cafe();
    let before = store.clone();
    assert_eq!(
        make_purchase(&mut store, &handle(), &buyer(), &usdc(), 0, "tea".to_string(), 1),
        Err(StoreErrorCode::ProductNotFound)
    );
    assert_eq!(store, before);
}

#[test]
fn purchase_with_another_asset_changes_nothing() {
    let mut store = stocked_cafe();
    let before = store.clone();
    assert_eq!(
        make_purchase(&mut store, &handle(), &buyer(), &usdc(), 0, "latte".to_string(), 1),
        Err(StoreErrorCode::InvalidMint)
    );
    assert_eq!(
        make_purchase(&mut store, &handle(), &buyer(), &sol_mint(), 0, "mocha".to_string(), 1),
        Err(StoreErrorCode::InvalidMint)
    );
    assert_eq!(store, before);
}

#[test]
fn purchase_at_the_end_of_the_count_changes_nothing() {
    let mut store = stocked_cafe();
    store.total_purchases = u64::MAX;
    let before = store.clone();
    assert_eq!(
        make_purchase(&mut store, &handle(), &buyer(), &usdc(), 0, "mocha".to_string(), 1),
        Err(StoreErrorCode::CounterOverflow)
    );
    assert_eq!(store, before);
    store.total_purchases = u64::MAX - 1;
    let last = make_purchase(&mut store, &handle(), &buyer(), &usdc(), 0, "mocha".to_string(), 1);
    assert_eq!(last.unwrap().receipt_id, u64::MAX - 1);
    assert_eq!(store.total_purchases, u64::MAX);
}

#[test]
fn anyone_may_purchase() {
    let mut store = stocked_cafe();
    for who in [owner(), stranger(), buyer()] {
        let purchase =
            make_purchase(&mut store, &handle(), &who, &usdc(), 0, "mocha".to_string(), 1).unwrap();
        assert_eq!(purchase.event.buyer, who);
    }
    assert_eq!(store.total_purchases, 3);
}

#[test]
fn receipt_ids_go_up_by_one_across_evictions() {
    let mut store = stocked_cafe();
    let mut n: u64 = 0;
    while n < 65 {
        let done = make_purchase(
            &mut store,
            &handle(),
            &buyer(),
            &usdc(),
            n as i64,
            "mocha".to_string(),
            (n % 7) as u8,
        );
        assert_eq!(done.unwrap().receipt_id, n);
        assert_eq!(store.total_purchases, n + 1);
        assert!(store.receipts.len() <= 20);
        assert_eq!(store.receipts.last().unwrap().receipt_id, n);
        n += 1;
        // A refused request in between takes no number.
        assert!(make_purchase(&mut store, &handle(), &buyer(), &usdc(), 0, "tea".to_string(), 0)
            .is_err());
        assert_eq!(store.total_purchases, n);
    }
    let expected: Vec<u64> = (45..65).collect();
    assert_eq!(ids(&store), expected);
}

#[test]
fn full_journal_evicts_the_oldest_receipt() {
    let mut store = stocked_cafe();
    let mut n: u64 = 0;
    while n < 20 {
        make_purchase(&mut store, &handle(), &buyer(), &usdc(), 0, "mocha".to_string(), 1).unwrap();
        n += 1;
    }
    let expected: Vec<u64> = (0..20).collect();
    assert_eq!(ids(&store), expected);
    let next =
        make_purchase(&mut store, &handle(), &buyer(), &usdc(), 0, "mocha".to_string(), 1).unwrap();
    assert_eq!(next.receipt_id, 20);
    let expected: Vec<u64> = (1..=20).collect();
    assert_eq!(ids(&store), expected);
    assert_eq!(store.receipts.len(), 20);
    assert_eq!(store.total_purchases, 21);
}

#[test]
fn journal_entry_stands_when_the_payment_fails() {
    let mut store = stocked_cafe();
    let purchase =
        make_purchase(&mut store, &handle(), &buyer(), &usdc(), 0, "mocha".to_string(), 1).unwrap();
    assert_eq!(
        settle_purchase(purchase, Err(0x1)),
        Err(StoreErrorCode::PaymentFailed { cause: 1 })
    );
    assert_eq!(store.receipts.len(), 1);
    assert_eq!(store.total_purchases, 1);
}

#[test]
fn mark_as_delivered_sets_the_flag() {
    let mut store = stocked_cafe();
    let mut n: u64 = 0;
    while n < 3 {
        make_purchase(&mut store, &handle(), &buyer(), &usdc(), 0, "mocha".to_string(), 1).unwrap();
        n += 1;
    }
    let before = store.clone();
    assert_eq!(mark_as_delivered(&mut store, 1), Ok(()));
    assert!(!store.receipts[0].was_delivered);
    assert!(store.receipts[1].was_delivered);
    assert!(!store.receipts[2].was_delivered);
    let mut expected = before;
    expected.receipts[1].was_delivered = true;
    assert_eq!(store, expected);
}

#[test]
fn mark_as_delivered_of_a_missing_id_succeeds_and_changes_nothing() {
    let mut store = stocked_cafe();
    let mut n: u64 = 0;
    while n < 25 {
        make_purchase(&mut store, &handle(), &buyer(), &usdc(), 0, "mocha".to_string(), 1).unwrap();
        n += 1;
    }
    let before = store.clone();
    // Evicted, never issued, and far out of range.
    for id in [0u64, 4, 25, 1000, u64::MAX] {
        assert_eq!(mark_as_delivered(&mut store, id), Ok(()));
        assert_eq!(store, before);
    }
}

#[test]
fn delete_product_by_a_stranger_is_refused() {
    let mut store = stocked_cafe();
    let before = store.clone();
    assert_eq!(
        delete_product(&mut store, &stranger(), "latte".to_string()),
        Err(StoreErrorCode::InvalidAuthority)
    );
    assert_eq!(store.products, before.products);
    assert_eq!(store, before);
}

#[test]
fn delete_product_removes_it_and_keeps_the_rest() {
    let mut store = stocked_cafe();
    assert_eq!(add_product(&mut store, &owner(), &usdc(), 6, "tea".to_string(), 300), Ok(()));
    assert_eq!(delete_product(&mut store, &owner(), "mocha".to_string()), Ok(()));
    let left: Vec<&str> = store.products.iter().map(|p| p.name.as_str()).collect();
    assert_eq!(left, vec!["latte", "tea"]);
    assert_eq!(
        delete_product(&mut store, &owner(), "mocha".to_string()),
        Err(StoreErrorCode::ProductNotFound)
    );
}

#[test]
fn deleting_a_product_leaves_its_receipts_alone() {
    let mut store = stocked_cafe();
    make_purchase(&mut store, &handle(), &buyer(), &usdc(), 11, "mocha".to_string(), 2).unwrap();
    make_purchase(&mut store, &handle(), &buyer(), &sol_mint(), 12, "latte".to_string(), 2).unwrap();
    let receipts_before = store.receipts.clone();
    assert_eq!(delete_product(&mut store, &owner(), "mocha".to_string()), Ok(()));
    assert_eq!(store.receipts, receipts_before);
    assert_eq!(store.receipts[0].product_name, "mocha");
    assert_eq!(store.receipts[0].price, 650);
    // The same name at another price is a new product; old receipts keep theirs.
    assert_eq!(add_product(&mut store, &owner(), &usdc(), 6, "mocha".to_string(), 999), Ok(()));
    assert_eq!(store.receipts, receipts_before);
    let again =
        make_purchase(&mut store, &handle(), &buyer(), &usdc(), 13, "mocha".to_string(), 2).unwrap();
    assert_eq!(again.event.price, 999);
    assert_eq!(store.receipts[0].price, 650);
    assert_eq!(store.receipts[2].price, 999);
}

#[test]
fn delete_store_hands_the_balance_to_the_owner() {
    let store = stocked_cafe();
    assert_eq!(
        delete_store(&store, &owner(), Balances { owner: 1_000, record: 26_000_000 }),
        Ok(Balances { owner: 26_001_000, record: 0 })
    );
    assert_eq!(
        delete_store(&store, &owner(), Balances { owner: u64::MAX - 5, record: 5 }),
        Ok(Balances { owner: u64::MAX, record: 0 })
    );
    assert_eq!(
        delete_store(&store, &stranger(), Balances { owner: 1_000, record: 26_000_000 }),
        Err(StoreErrorCode::InvalidAuthority)
    );
}

#[test]
fn realloc_store_tops_up_the_shortfall() {
    assert_eq!(
        realloc_store(&owner(), &owner(), 1_000, 10_000, 4_000),
        Ok(Allocation { space: 4681, top_up: 3_000 })
    );
    assert_eq!(
        realloc_store(&owner(), &owner(), 1_000, 3_000, 4_000),
        Ok(Allocation { space: 4681, top_up: 3_000 })
    );
}

#[test]
fn realloc_store_adds_nothing_to_a_funded_record() {
    assert_eq!(
        realloc_store(&owner(), &owner(), 4_000, 0, 4_000),
        Ok(Allocation { space: 4681, top_up: 0 })
    );
    assert_eq!(
        realloc_store(&owner(), &owner(), 9_000, 0, 4_000),
        Ok(Allocation { space: 4681, top_up: 0 })
    );
}

#[test]
fn realloc_store_is_the_same_plan_every_time() {
    let first = realloc_store(&owner(), &owner(), 4_000, 50, 4_000);
    let second = realloc_store(&owner(), &owner(), 4_000, 50, 4_000);
    assert_eq!(first, second);
    assert_eq!(first, Ok(Allocation { space: REALLOC_SPACE, top_up: 0 }));
}

#[test]
fn realloc_store_needs_a_payer_who_can_cover_it() {
    assert_eq!(
        realloc_store(&owner(), &owner(), 1_000, 2_999, 4_000),
        Err(StoreErrorCode::InsufficientFunding)
    );
    assert_eq!(
        realloc_store(&owner(), &owner(), 0, u64::MAX - 1, u64::MAX),
        Err(StoreErrorCode::InsufficientFunding)
    );
}

#[test]
fn realloc_store_is_for_the_owner() {
    let store = stocked_cafe();
    assert_eq!(
        realloc_store(&store.authority, &stranger(), 1_000, 10_000, 4_000),
        Err(StoreErrorCode::InvalidAuthority)
    );
    // Authority is judged first: a stranger who could not pay is a stranger still.
    assert_eq!(
        realloc_store(&store.authority, &stranger(), 0, 0, 4_000),
        Err(StoreErrorCode::InvalidAuthority)
    );
    assert_eq!(
        realloc_store(&store.authority, &owner(), 1_000, 10_000, 4_000),
        Ok(Allocation { space: 4681, top_up: 3_000 })
    );
}

#[test]
fn treasury_must_be_the_payee_of_the_order() {
    let mut store = stocked_cafe();
    let native =
        make_purchase(&mut store, &handle(), &buyer(), &sol_mint(), 0, "latte".to_string(), 1)
            .unwrap();
    let token =
        make_purchase(&mut store, &handle(), &buyer(), &usdc(), 0, "mocha".to_string(), 1).unwrap();
    for order in [native.transfer, token.transfer] {
        assert_eq!(check_treasury(&order, &owner()), Ok(()));
        assert_eq!(check_treasury(&order, &stranger()), Err(StoreErrorCode::InvalidTreasury));
        assert_eq!(check_treasury(&order, &buyer()), Err(StoreErrorCode::InvalidTreasury));
    }
}
