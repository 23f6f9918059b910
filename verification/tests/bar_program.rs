use store_ledger::catalog::Products;
use store_ledger::error::StoreError;
use store_ledger::identity::Identity;
use store_ledger::ledger::Balances;
use store_ledger::settlement::Transfer;
use store_ledger::solana_bar::{
    add_product, buy_shot, check_treasury, delete_bar, delete_product, initialize,
    mark_shot_as_delivered,
    settle_shot, sol_mint, update_telegram_channel, Receipts, ShotErrorCode, ShotPurchased,
    MAX_RECEIPTS, SOL_MINT,
};

fn key(n: u8) -> Identity {
    Identity::new([n; 32])
}

fn owner() -> Identity {
    key(1)
}

fn stranger() -> Identity {
    key(2)
}

fn guest() -> Identity {
    key(3)
}

fn token() -> Identity {
    key(40)
}

fn handle() -> Identity {
    key(98)
}

fn bar() -> Receipts {
    let mut bar = initialize(&owner(), "The Rusty Anchor".to_string()).unwrap();
    assert_eq!(add_product(&mut bar, &owner(), &sol_mint(), 9, "rum".to_string(), 700), Ok(()));
    assert_eq!(add_product(&mut bar, &owner(), &token(), 2, "gin".to_string(), 800), Ok(()));
    bar
}

fn shot_ids(bar: &Receipts) -> Vec<u64> {
    bar.receipts.iter().map(|r| r.receipt_id).collect()
}

#[test]
fn bar_native_asset_is_the_decoded_sentinel() {
    let decoded = bs58::decode("So11111111111111111111111111111111111111112").into_vec().unwrap();
    assert_eq!(decoded, SOL_MINT.to_vec());
    assert_eq!(sol_mint(), Identity::new(SOL_MINT));
    assert_ne!(sol_mint(), store_ledger::let_me_buy::sol_mint());
}

#[test]
fn bar_error_codes_stand_for_their_reasons() {
    assert_eq!(ShotErrorCode::report(StoreError::Unauthorized), Some(ShotErrorCode::InvalidAuthority));
    assert_eq!(ShotErrorCode::report(StoreError::NotFound), Some(ShotErrorCode::ProductNotFound));
    assert_eq!(
        ShotErrorCode::report(StoreError::DuplicateName),
        Some(ShotErrorCode::ProductAlreadyExists)
    );
    assert_eq!(ShotErrorCode::report(StoreError::NameEmpty), Some(ShotErrorCode::ProductNameEmpty));
    assert_eq!(ShotErrorCode::report(StoreError::NameTooLong), Some(ShotErrorCode::StringTooLong));
    assert_eq!(
        ShotErrorCode::report(StoreError::CapacityExceeded),
        Some(ShotErrorCode::VectorLimitReached)
    );
    assert_eq!(ShotErrorCode::report(StoreError::AssetMismatch), Some(ShotErrorCode::InvalidMint));
    assert_eq!(
        ShotErrorCode::report(StoreError::InvalidTreasury),
        Some(ShotErrorCode::InvalidTreasury)
    );
    assert_eq!(
        ShotErrorCode::report(StoreError::PaymentFailed { cause: 3 }),
        Some(ShotErrorCode::PaymentFailed { cause: 3 })
    );
    assert_eq!(
        ShotErrorCode::report(StoreError::CounterOverflow),
        Some(ShotErrorCode::CounterOverflow)
    );
    assert_eq!(ShotErrorCode::report(StoreError::InvalidName), None);
    assert_eq!(ShotErrorCode::report(StoreError::InsufficientFunding), None);
}

#[test]
fn bar_initialize_takes_any_short_name() {
    let bar = initialize(&owner(), "The Rusty Anchor".to_string()).unwrap();
    assert_eq!(
        bar,
        Receipts {
            receipts: vec![],
            total_shots_sold: 0,
            bar_name: "The Rusty Anchor".to_string(),
            authority: owner(),
            products: vec![],
            telegram_channel_id: String::new(),
        }
    );
    assert!(initialize(&owner(), "--".to_string()).is_ok());
    assert!(initialize(&owner(), "b".repeat(32)).is_ok());
    assert_eq!(initialize(&owner(), "b".repeat(33)), Err(ShotErrorCode::StringTooLong));
}

#[test]
fn bar_update_telegram_channel_is_for_the_owner() {
    let mut bar = bar();
    assert_eq!(update_telegram_channel(&mut bar, &owner(), "@bar".to_string()), Ok(()));
    assert_eq!(bar.telegram_channel_id, "@bar");
    let before = bar.clone();
    assert_eq!(
        update_telegram_channel(&mut bar, &stranger(), "@x".to_string()),
        Err(ShotErrorCode::InvalidAuthority)
    );
    assert_eq!(
        update_telegram_channel(&mut bar, &owner(), "x".repeat(33)),
        Err(ShotErrorCode::StringTooLong)
    );
    assert_eq!(bar, before);
}

#[test]
fn bar_add_product_reports_each_refusal() {
    let mut bar = bar();
    let before = bar.clone();
    assert_eq!(
        add_product(&mut bar, &stranger(), &token(), 2, "ale".to_string(), 1),
        Err(ShotErrorCode::InvalidAuthority)
    );
    assert_eq!(
        add_product(&mut bar, &owner(), &token(), 2, "  ".to_string(), 1),
        Err(ShotErrorCode::ProductNameEmpty)
    );
    assert_eq!(
        add_product(&mut bar, &owner(), &token(), 2, "y".repeat(33), 1),
        Err(ShotErrorCode::StringTooLong)
    );
    assert_eq!(
        add_product(&mut bar, &owner(), &token(), 2, "rum".to_string(), 1),
        Err(ShotErrorCode::ProductAlreadyExists)
    );
    assert_eq!(bar, before);
    let mut i: usize = 2;
    while i < 20 {
        assert_eq!(add_product(&mut bar, &owner(), &token(), 2, format!("drink-{}", i), 1), Ok(()));
        i += 1;
    }
    assert_eq!(
        add_product(&mut bar, &owner(), &token(), 2, "one-more".to_string(), 1),
        Err(ShotErrorCode::VectorLimitReached)
    );
    assert_eq!(bar.products.len(), 20);
}

#[test]
fn bar_first_shot() {
    let mut bar = bar();
    let shot =
        buy_shot(&mut bar, &handle(), &guest(), &sol_mint(), 42, "rum".to_string(), 7).unwrap();
    assert_eq!(shot.receipt_id, 0);
    assert_eq!(bar.total_shots_sold, 1);
    assert_eq!(shot.transfer, Transfer::Native { from: guest(), to: owner(), amount: 700 });
    assert_eq!(
        shot.event,
        ShotPurchased {
            buyer: guest(),
            product_name: "rum".to_string(),
            price: 700,
            timestamp: 42,
            table_number: 7,
            receipt_id: 0,
            telegram_channel_id: String::new(),
            bar_name: "The Rusty Anchor".to_string(),
            receipts_account: handle(),
        }
    );
    assert_eq!(bar.receipts.len(), 1);
    assert_eq!(bar.receipts[0].product_name, "rum");
    assert!(!bar.receipts[0].was_delivered);
    assert_eq!(settle_shot(shot.clone(), Ok(())), Ok(shot.event));
}

#[test]
fn bar_shot_in_a_token() {
    let mut bar = bar();
    let shot = buy_shot(&mut bar, &handle(), &guest(), &token(), 42, "gin".to_string(), 7).unwrap();
    assert_eq!(
        shot.transfer,
        Transfer::Token { asset: token(), from: guest(), to: owner(), amount: 800, decimals: 2 }
    );
    assert_eq!(settle_shot(shot, Err(17)), Err(ShotErrorCode::PaymentFailed { cause: 17 }));
    assert_eq!(bar.receipts.len(), 1);
}

#[test]
fn bar_shot_refusals_change_nothing() {
    let mut bar = bar();
    let before = bar.clone();
    assert_eq!(
        buy_shot(&mut bar, &handle(), &guest(), &token(), 42, "ale".to_string(), 7),
        Err(ShotErrorCode::ProductNotFound)
    );
    assert_eq!(
        buy_shot(&mut bar, &handle(), &guest(), &token(), 42, "rum".to_string(), 7),
        Err(ShotErrorCode::InvalidMint)
    );
    assert_eq!(bar, before);
    bar.total_shots_sold = u64::MAX;
    let before = bar.clone();
    assert_eq!(
        buy_shot(&mut bar, &handle(), &guest(), &token(), 42, "gin".to_string(), 7),
        Err(ShotErrorCode::CounterOverflow)
    );
    assert_eq!(bar, before);
}

#[test]
fn bar_journal_holds_the_ten_latest_shots() {
    assert_eq!(MAX_RECEIPTS, 10);
    let mut bar = bar();
    let mut n: u64 = 0;
    while n < 10 {
        let shot = buy_shot(&mut bar, &handle(), &guest(), &token(), 0, "gin".to_string(), 1);
        assert_eq!(shot.unwrap().receipt_id, n);
        n += 1;
    }
    let expected: Vec<u64> = (0..10).collect();
    assert_eq!(shot_ids(&bar), expected);
    let eleventh = buy_shot(&mut bar, &handle(), &guest(), &token(), 0, "gin".to_string(), 1);
    assert_eq!(eleventh.unwrap().receipt_id, 10);
    let expected: Vec<u64> = (1..=10).collect();
    assert_eq!(shot_ids(&bar), expected);
    while n < 37 {
        buy_shot(&mut bar, &handle(), &guest(), &token(), 0, "gin".to_string(), 1).unwrap();
        n += 1;
    }
    let expected: Vec<u64> = (28..38).collect();
    assert_eq!(shot_ids(&bar), expected);
    assert_eq!(bar.total_shots_sold, 38);
}

#[test]
fn bar_mark_shot_as_delivered() {
    let mut bar = bar();
    let mut n: u64 = 0;
    while n < 12 {
        buy_shot(&mut bar, &handle(), &guest(), &token(), 0, "gin".to_string(), 1).unwrap();
        n += 1;
    }
    let before = bar.clone();
    assert_eq!(mark_shot_as_delivered(&mut bar, 1), Ok(()));
    assert_eq!(mark_shot_as_delivered(&mut bar, 12), Ok(()));
    assert_eq!(bar, before);
    assert_eq!(mark_shot_as_delivered(&mut bar, 5), Ok(()));
    let mut expected = before;
    expected.receipts[3].was_delivered = true;
    assert_eq!(bar, expected);
}

#[test]
fn bar_delete_product() {
    let mut bar = bar();
    buy_shot(&mut bar, &handle(), &guest(), &token(), 0, "gin".to_string(), 1).unwrap();
    let before = bar.clone();
    assert_eq!(
        delete_product(&mut bar, &stranger(), "gin".to_string()),
        Err(ShotErrorCode::InvalidAuthority)
    );
    assert_eq!(
        delete_product(&mut bar, &owner(), "ale".to_string()),
        Err(ShotErrorCode::ProductNotFound)
    );
    assert_eq!(bar, before);
    assert_eq!(delete_product(&mut bar, &owner(), "gin".to_string()), Ok(()));
    assert_eq!(
        bar.products,
        vec![Products { price: 700, decimals: 9, mint: sol_mint(), name: "rum".to_string() }]
    );
    assert_eq!(bar.receipts, before.receipts);
}

#[test]
fn bar_delete_bar() {
    let bar = bar();
    assert_eq!(
        delete_bar(&bar, &owner(), Balances { owner: 5, record: 6 }),
        Ok(Balances { owner: 11, record: 0 })
    );
    assert_eq!(
        delete_bar(&bar, &stranger(), Balances { owner: 5, record: 6 }),
        Err(ShotErrorCode::InvalidAuthority)
    );
}

#[test]
fn bar_treasury_must_be_the_payee_of_the_order() {
    let mut bar = bar();
    let shot = buy_shot(&mut bar, &handle(), &guest(), &token(), 0, "gin".to_string(), 1).unwrap();
    assert_eq!(check_treasury(&shot.transfer, &owner()), Ok(()));
    assert_eq!(check_treasury(&shot.transfer, &guest()), Err(ShotErrorCode::InvalidTreasury));
    let rum =
        buy_shot(&mut bar, &handle(), &guest(), &sol_mint(), 0, "rum".to_string(), 1).unwrap();
    assert_eq!(check_treasury(&rum.transfer, &owner()), Ok(()));
    assert_eq!(check_treasury(&rum.transfer, &stranger()), Err(ShotErrorCode::InvalidTreasury));
}
