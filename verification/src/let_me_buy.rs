//! The store program: a named store with a catalog of twenty products, a
//! journal of the twenty latest receipts, a channel id and a description.

use crate::catalog::{locate, position, remove, ProductView, MAX_PRODUCTS};
use crate::error::StoreError;
use crate::identity::Identity;
use crate::journal::{append, mark_delivered};
use crate::ledger::{
    channel_keeps_soundness, delivery_keeps_soundness, details_keep_soundness, fund, funded,
    notice_for, opened_is_sound, product_keeps_soundness, purchase_keeps_soundness, reclaim,
    reclaimed, removal_keeps_soundness, require_owner, Allocation, Balances, Ledger, Notice,
    Request,
};
use crate::settlement::{payee, settle, transfer_for, Transfer};
use crate::text::{byte_length, is_slug, slug, MAX_DETAILS_BYTES, MAX_NAME_BYTES};
use vstd::prelude::*;

pub use crate::catalog::Products;
pub use crate::journal::Receipt;

verus! {

/// The most receipts the journal of a store holds.
pub const MAX_RECEIPTS: usize = 20;

/// The bytes that a receipt takes in a stored record: number, buyer, flag,
/// price, time, table, and the product's name behind its length.
pub const RECEIPT_SPACE: usize = 8 + 32 + 1 + 8 + 8 + 1 + (4 + MAX_NAME_BYTES);

/// The bytes that a product takes in a stored record: price, decimals,
/// asset, and the name behind its length.
pub const PRODUCT_SPACE: usize = 8 + 1 + 32 + (4 + MAX_NAME_BYTES);

/// The bytes that a record with a full catalog and a full journal takes,
/// field by field: journal, count, name, owner, catalog, channel id,
/// layout tag, description.
pub const INIT_SPACE: usize = (4 + RECEIPT_SPACE * MAX_RECEIPTS) + 8 + (4 + MAX_NAME_BYTES) + 32
    + (4 + PRODUCT_SPACE * MAX_PRODUCTS) + (4 + MAX_NAME_BYTES) + 1 + (4 + MAX_DETAILS_BYTES);

/// The size to which a stored record is grown: a tag of eight bytes, the
/// record at its fullest, and a thousand bytes to spare.
pub const REALLOC_SPACE: usize = 8 + INIT_SPACE + 1000;

/// The bytes of the asset id that stands for the chain's native unit in
/// this program.
pub const SOL_MINT: [u8; 32] = [
    6, 155, 136, 87, 254, 171, 129, 132, 251, 104, 127, 99, 70, 24, 192, 53, 218, 196, 57, 220, 26,
    235, 59, 85, 152, 160, 240, 0, 0, 0, 0, 0,
];

/// The asset id that stands for the chain's native unit in this program.
pub open spec fn native_asset() -> Identity {
    Identity { bytes: SOL_MINT }
}

/// The asset id that stands for the chain's native unit in this program.
#[verifier::when_used_as_spec(native_asset)]
pub fn sol_mint() -> (id: Identity)
    ensures
        id == native_asset(),
{
    Identity { bytes: SOL_MINT }
}

/// The codes under which the store program reports a refusal.
#[derive(Clone, Copy, Debug, PartialEq, Eq, Structural)]
pub enum StoreErrorCode {
    /// The account presented as the store's treasury is not the owner's.
    InvalidTreasury,
    /// A product of that name is on sale already.
    ProductAlreadyExists,
    /// No product of that name is on sale.
    ProductNotFound,
    /// The asset presented is not the one the product is sold in.
    InvalidMint,
    /// The caller is not the owner.
    InvalidAuthority,
    /// The store still has products.
    StoreNotEmpty,
    /// The product's name is empty once white space is trimmed.
    ProductNameEmpty,
    /// A name or a piece of metadata is longer than its field.
    StringTooLong,
    /// The catalog is full.
    VectorLimitReached,
    /// The store's name is not a slug.
    InvalidStoreName,
    /// The payment rail failed the transfer; `cause` is its code.
    PaymentFailed { cause: u64 },
    /// The payer cannot fund the larger allocation.
    InsufficientFunding,
    /// The count of purchases has reached the end of its range.
    CounterOverflow,
}

impl StoreErrorCode {
    /// The code for each reason.
    pub open spec fn of(why: StoreError) -> StoreErrorCode {
        match why {
            StoreError::Unauthorized => StoreErrorCode::InvalidAuthority,
            StoreError::NotFound => StoreErrorCode::ProductNotFound,
            StoreError::DuplicateName => StoreErrorCode::ProductAlreadyExists,
            StoreError::NameEmpty => StoreErrorCode::ProductNameEmpty,
            StoreError::NameTooLong => StoreErrorCode::StringTooLong,
            StoreError::InvalidName => StoreErrorCode::InvalidStoreName,
            StoreError::CapacityExceeded => StoreErrorCode::VectorLimitReached,
            StoreError::AssetMismatch => StoreErrorCode::InvalidMint,
            StoreError::InvalidTreasury => StoreErrorCode::InvalidTreasury,
            StoreError::PaymentFailed { cause } => StoreErrorCode::PaymentFailed { cause },
            StoreError::InsufficientFunding => StoreErrorCode::InsufficientFunding,
            StoreError::CounterOverflow => StoreErrorCode::CounterOverflow,
        }
    }

    /// Reports `why` under its code.
    pub fn report(why: StoreError) -> (code: StoreErrorCode)
        ensures
            code == StoreErrorCode::of(why),
    {
        match why {
            StoreError::Unauthorized => StoreErrorCode::InvalidAuthority,
            StoreError::NotFound => StoreErrorCode::ProductNotFound,
            StoreError::DuplicateName => StoreErrorCode::ProductAlreadyExists,
            StoreError::NameEmpty => StoreErrorCode::ProductNameEmpty,
            StoreError::NameTooLong => StoreErrorCode::StringTooLong,
            StoreError::InvalidName => StoreErrorCode::InvalidStoreName,
            StoreError::CapacityExceeded => StoreErrorCode::VectorLimitReached,
            StoreError::AssetMismatch => StoreErrorCode::InvalidMint,
            StoreError::InvalidTreasury => StoreErrorCode::InvalidTreasury,
            StoreError::PaymentFailed { cause } => StoreErrorCode::PaymentFailed { cause },
            StoreError::InsufficientFunding => StoreErrorCode::InsufficientFunding,
            StoreError::CounterOverflow => StoreErrorCode::CounterOverflow,
        }
    }
}

/// The record of one store.
#[derive(Debug, PartialEq, Eq)]
pub struct Receipts {
    pub receipts: Vec<Receipt>,
    pub total_purchases: u64,
    pub store_name: String,
    pub authority: Identity,
    pub products: Vec<Products>,
    pub telegram_channel_id: String,
    pub bump: u8,
    pub details: String,
}

impl View for Receipts {
    type V = Ledger;

    open spec fn view(&self) -> Ledger {
        Ledger {
            owner: self.authority,
            name: self.store_name@,
            telegram_channel_id: self.telegram_channel_id@,
            details: self.details@,
            catalog: self.products.deep_view(),
            journal: self.receipts.deep_view(),
            purchases: self.total_purchases,
        }
    }
}

impl Clone for Receipts {
    fn clone(&self) -> (copy: Receipts)
        ensures
            copy@ == self@,
            copy.bump == self.bump,
    {
        let copy = Receipts {
            receipts: self.receipts.clone(),
            total_purchases: self.total_purchases,
            store_name: self.store_name.clone(),
            authority: self.authority,
            products: self.products.clone(),
            telegram_channel_id: self.telegram_channel_id.clone(),
            bump: self.bump,
            details: self.details.clone(),
        };
        assert(copy@ =~~= self@);
        copy
    }
}

impl Receipts {
    /// A record within its bounds, under a name that is a slug.
    pub open spec fn well_formed(&self) -> bool {
        self@.sound(MAX_RECEIPTS as nat) && is_slug(self@.name)
    }
}

/// The notice of a purchase, for whoever listens to the store.
#[derive(Debug, PartialEq, Eq)]
pub struct PurchaseMade {
    pub buyer: Identity,
    pub product_name: String,
    pub price: u64,
    pub timestamp: i64,
    pub table_number: u8,
    pub receipt_id: u64,
    pub telegram_channel_id: String,
    pub store_name: String,
    pub receipts_account: Identity,
}

impl View for PurchaseMade {
    type V = Notice;

    open spec fn view(&self) -> Notice {
        Notice {
            buyer: self.buyer,
            product_name: self.product_name@,
            price: self.price,
            timestamp: self.timestamp,
            table_number: self.table_number,
            receipt_id: self.receipt_id,
            telegram_channel_id: self.telegram_channel_id@,
            store_name: self.store_name@,
            receipts_account: self.receipts_account,
        }
    }
}

impl Clone for PurchaseMade {
    fn clone(&self) -> (copy: PurchaseMade)
        ensures
            copy@ == self@,
    {
        PurchaseMade {
            buyer: self.buyer,
            product_name: self.product_name.clone(),
            price: self.price,
            timestamp: self.timestamp,
            table_number: self.table_number,
            receipt_id: self.receipt_id,
            telegram_channel_id: self.telegram_channel_id.clone(),
            store_name: self.store_name.clone(),
            receipts_account: self.receipts_account,
        }
    }
}

/// A purchase that is entered in the journal and awaits its payment: the
/// order for the rail, and the notice to send once the rail has confirmed.
#[derive(Debug, PartialEq, Eq)]
pub struct Purchase {
    pub receipt_id: u64,
    pub transfer: Transfer,
    pub event: PurchaseMade,
}

impl Clone for Purchase {
    fn clone(&self) -> (copy: Purchase)
        ensures
            copy.receipt_id == self.receipt_id,
            copy.transfer == self.transfer,
            copy.event@ == self.event@,
    {
        Purchase { receipt_id: self.receipt_id, transfer: self.transfer, event: self.event.clone() }
    }
}

/// Accepts `name` as a store name where it is a slug.
pub fn validate_store_name(name: &str) -> (done: Result<(), StoreErrorCode>)
    ensures
        is_slug(name@) ==> done == Ok::<(), StoreErrorCode>(()),
        !is_slug(name@) ==> done == Err::<(), StoreErrorCode>(StoreErrorCode::InvalidStoreName),
{
    if slug(name) {
        Ok(())
    } else {
        Err(StoreErrorCode::InvalidStoreName)
    }
}

/// Opens the store `store_name` for the owner `authority`: nothing on
/// sale, nothing sold, no metadata. A name of more than `MAX_NAME_BYTES`
/// bytes is refused as too long, another that is no slug as invalid.
pub fn initialize(authority: &Identity, store_name: String) -> (done: Result<
    Receipts,
    StoreErrorCode,
>)
    ensures
        match Ledger::opened(*authority, store_name@, true) {
            Ok(ledger) => done is Ok && done.unwrap()@ == ledger && done.unwrap().bump == 0
                && done.unwrap().well_formed(),
            Err(why) => done is Err && done.unwrap_err() == StoreErrorCode::of(why),
        },
{
    if byte_length(store_name.as_str()) > MAX_NAME_BYTES {
        return Err(StoreErrorCode::StringTooLong);
    }
    match validate_store_name(store_name.as_str()) {
        Ok(()) => {},
        Err(code) => {
            return Err(code);
        },
    }
    let record = Receipts {
        receipts: Vec::new(),
        total_purchases: 0,
        store_name,
        authority: *authority,
        products: Vec::new(),
        telegram_channel_id: String::new(),
        bump: 0,
        details: String::new(),
    };
    proof {
        assert(record@ =~= Ledger::founded(*authority, store_name@));
        opened_is_sound(*authority, store_name@, true, MAX_RECEIPTS as nat);
    }
    Ok(record)
}

/// Sets the channel id of the store, for its owner: at most
/// `MAX_NAME_BYTES` bytes.
pub fn update_telegram_channel(
    receipts: &mut Receipts,
    authority: &Identity,
    telegram_channel_id: String,
) -> (done: Result<(), StoreErrorCode>)
    ensures
        final(receipts).bump == old(receipts).bump,
        old(receipts).well_formed() ==> final(receipts).well_formed(),
        match old(receipts)@.with_channel(*authority, telegram_channel_id@) {
            Ok(next) => done is Ok && final(receipts)@ == next,
            Err(why) => {
                &&& done == Err::<(), StoreErrorCode>(StoreErrorCode::of(why))
                &&& final(receipts)@ == old(receipts)@
            },
        },
{
    if let Err(why) = require_owner(&receipts.authority, authority) {
        return Err(StoreErrorCode::report(why));
    }
    if byte_length(telegram_channel_id.as_str()) > MAX_NAME_BYTES {
        return Err(StoreErrorCode::StringTooLong);
    }
    proof {
        if old(receipts).well_formed() {
            channel_keeps_soundness(
                old(receipts)@,
                MAX_RECEIPTS as nat,
                *authority,
                telegram_channel_id@,
            );
        }
    }
    receipts.telegram_channel_id = telegram_channel_id;
    Ok(())
}

/// Sets the description of the store, for its owner: at most
/// `MAX_DETAILS_BYTES` bytes.
pub fn update_details(receipts: &mut Receipts, authority: &Identity, details: String) -> (done:
    Result<(), StoreErrorCode>)
    ensures
        final(receipts).bump == old(receipts).bump,
        old(receipts).well_formed() ==> final(receipts).well_formed(),
        match old(receipts)@.with_details(*authority, details@) {
            Ok(next) => done is Ok && final(receipts)@ == next,
            Err(why) => {
                &&& done == Err::<(), StoreErrorCode>(StoreErrorCode::of(why))
                &&& final(receipts)@ == old(receipts)@
            },
        },
{
    if let Err(why) = require_owner(&receipts.authority, authority) {
        return Err(StoreErrorCode::report(why));
    }
    if byte_length(details.as_str()) > MAX_DETAILS_BYTES {
        return Err(StoreErrorCode::StringTooLong);
    }
    proof {
        if old(receipts).well_formed() {
            details_keep_soundness(old(receipts)@, MAX_RECEIPTS as nat, *authority, details@);
        }
    }
    receipts.details = details;
    Ok(())
}

/// Puts a product on sale, for the owner of the store: `name` at `price`
/// in the asset `mint`, which has `decimals` decimal places. The product
/// goes to the end of the catalog.
pub fn add_product(
    receipts: &mut Receipts,
    authority: &Identity,
    mint: &Identity,
    decimals: u8,
    name: String,
    price: u64,
) -> (done: Result<(), StoreErrorCode>)
    ensures
        final(receipts).bump == old(receipts).bump,
        old(receipts).well_formed() ==> final(receipts).well_formed(),
        ({
            let product = ProductView { price, decimals, mint: *mint, name: name@ };
            match old(receipts)@.with_product(*authority, product) {
                Ok(next) => done is Ok && final(receipts)@ == next,
                Err(why) => {
                    &&& done == Err::<(), StoreErrorCode>(StoreErrorCode::of(why))
                    &&& final(receipts)@ == old(receipts)@
                },
            }
        }),
{
    if let Err(why) = require_owner(&receipts.authority, authority) {
        return Err(StoreErrorCode::report(why));
    }
    let product = Products { price, decimals, mint: *mint, name };
    proof {
        if old(receipts).well_formed() {
            product_keeps_soundness(old(receipts)@, MAX_RECEIPTS as nat, *authority, product@);
        }
    }
    match crate::catalog::add(&mut receipts.products, product) {
        Ok(()) => Ok(()),
        Err(why) => Err(StoreErrorCode::report(why)),
    }
}

/// Enters a purchase of the product named `product_name` by `signer`, who
/// presents the asset `mint`, at the time `timestamp`.
///
/// The purchase is refused, and the record left as it is, where no such
/// product is on sale, where it is sold in another asset, or where the
/// count of purchases cannot go up. Otherwise the receipt enters the
/// journal under the next number, and the result holds the order that pays
/// the product's price to the owner. The payment itself comes after: the
/// entry stands whatever becomes of it.
pub fn make_purchase(
    receipts: &mut Receipts,
    receipts_account: &Identity,
    signer: &Identity,
    mint: &Identity,
    timestamp: i64,
    product_name: String,
    table_number: u8,
) -> (done: Result<Purchase, StoreErrorCode>)
    ensures
        final(receipts).bump == old(receipts).bump,
        old(receipts).well_formed() ==> final(receipts).well_formed(),
        ({
            let request = Request {
                buyer: *signer,
                asset: *mint,
                product_name: product_name@,
                table_number,
                timestamp,
            };
            match old(receipts)@.purchased(MAX_RECEIPTS as nat, request) {
                Ok(next) => {
                    let product = old(receipts)@.catalog[position(
                        old(receipts)@.catalog,
                        product_name@,
                    ).unwrap()];
                    &&& final(receipts)@ == next
                    &&& done is Ok
                    &&& done.unwrap().receipt_id == old(receipts).total_purchases
                    &&& done.unwrap().transfer == transfer_for(
                        product,
                        native_asset(),
                        *signer,
                        old(receipts).authority,
                        product.price,
                    )
                    &&& done.unwrap().event@ == notice_for(
                        old(receipts)@,
                        *receipts_account,
                        request,
                    )
                },
                Err(why) => {
                    &&& final(receipts)@ == old(receipts)@
                    &&& done is Err
                    &&& done.unwrap_err() == StoreErrorCode::of(why)
                },
            }
        }),
{
    let at = match locate(&receipts.products, &product_name) {
        Some(at) => at,
        None => {
            return Err(StoreErrorCode::ProductNotFound);
        },
    };
    let product = receipts.products[at].clone();
    if !(product.mint == *mint) {
        return Err(StoreErrorCode::InvalidMint);
    }
    if receipts.total_purchases == u64::MAX {
        return Err(StoreErrorCode::CounterOverflow);
    }
    proof {
        if old(receipts).well_formed() {
            purchase_keeps_soundness(
                old(receipts)@,
                MAX_RECEIPTS as nat,
                Request {
                    buyer: *signer,
                    asset: *mint,
                    product_name: product_name@,
                    table_number,
                    timestamp,
                },
            );
        }
    }
    let receipt_id = receipts.total_purchases;
    let new_receipt = Receipt {
        receipt_id,
        buyer: *signer,
        was_delivered: false,
        price: product.price,
        timestamp,
        table_number,
        product_name: product.name.clone(),
    };
    append(&mut receipts.receipts, new_receipt, MAX_RECEIPTS);
    receipts.total_purchases = receipts.total_purchases + 1;
    let transfer = settle(&product, &sol_mint(), signer, &receipts.authority, product.price);
    let event = PurchaseMade {
        buyer: *signer,
        product_name: product.name,
        price: product.price,
        timestamp,
        table_number,
        receipt_id,
        telegram_channel_id: receipts.telegram_channel_id.clone(),
        store_name: receipts.store_name.clone(),
        receipts_account: *receipts_account,
    };
    Ok(Purchase { receipt_id, transfer, event })
}

/// Lets the order of a purchase go to the rail only where the account
/// `presented` as the store's treasury is the order's payee.
pub fn check_treasury(order: &Transfer, presented: &Identity) -> (done: Result<
    (),
    StoreErrorCode,
>)
    ensures
        payee(*order) == *presented ==> done == Ok::<(), StoreErrorCode>(()),
        payee(*order) != *presented ==> done == Err::<(), StoreErrorCode>(
            StoreErrorCode::InvalidTreasury,
        ),
{
    match crate::settlement::check_treasury(order, presented) {
        Ok(()) => Ok(()),
        Err(why) => Err(StoreErrorCode::report(why)),
    }
}

/// Closes a purchase on the rail's answer: the notice to send where the
/// payment went through, the failure with the rail's code where it did not.
pub fn settle_purchase(purchase: Purchase, answer: Result<(), u64>) -> (done: Result<
    PurchaseMade,
    StoreErrorCode,
>)
    ensures
        match answer {
            Ok(()) => done is Ok && done.unwrap() == purchase.event,
            Err(cause) => done is Err && done.unwrap_err() == (StoreErrorCode::PaymentFailed {
                cause,
            }),
        },
{
    match answer {
        Ok(()) => Ok(purchase.event),
        Err(cause) => Err(StoreErrorCode::PaymentFailed { cause }),
    }
}

/// Marks the first receipt numbered `receipt_id` as delivered. This never
/// fails: where the journal holds no such receipt, because it was evicted
/// or never issued, the record stays as it is.
pub fn mark_as_delivered(receipts: &mut Receipts, receipt_id: u64) -> (done: Result<
    (),
    StoreErrorCode,
>)
    ensures
        done is Ok,
        final(receipts).bump == old(receipts).bump,
        old(receipts).well_formed() ==> final(receipts).well_formed(),
        final(receipts)@ == old(receipts)@.with_delivery(receipt_id),
{
    proof {
        if old(receipts).well_formed() {
            delivery_keeps_soundness(old(receipts)@, MAX_RECEIPTS as nat, receipt_id);
        }
    }
    mark_delivered(&mut receipts.receipts, receipt_id);
    Ok(())
}

/// Takes the product named `product_name` off sale, for the owner of the
/// store. The other products keep their order, and no receipt changes.
pub fn delete_product(receipts: &mut Receipts, authority: &Identity, product_name: String) -> (done:
    Result<(), StoreErrorCode>)
    ensures
        final(receipts).bump == old(receipts).bump,
        old(receipts).well_formed() ==> final(receipts).well_formed(),
        match old(receipts)@.without_product(*authority, product_name@) {
            Ok(next) => done is Ok && final(receipts)@ == next,
            Err(why) => {
                &&& done == Err::<(), StoreErrorCode>(StoreErrorCode::of(why))
                &&& final(receipts)@ == old(receipts)@
            },
        },
{
    if let Err(why) = require_owner(&receipts.authority, authority) {
        return Err(StoreErrorCode::report(why));
    }
    proof {
        if old(receipts).well_formed() {
            removal_keeps_soundness(
                old(receipts)@,
                MAX_RECEIPTS as nat,
                *authority,
                product_name@,
            );
        }
    }
    match remove(&mut receipts.products, &product_name) {
        Ok(_) => Ok(()),
        Err(why) => Err(StoreErrorCode::report(why)),
    }
}

/// Closes the store, for its owner: all that backs the record goes to the
/// owner's balance, and the record's balance falls to zero.
pub fn delete_store(receipts: &Receipts, authority: &Identity, balances: Balances) -> (done:
    Result<Balances, StoreErrorCode>)
    requires
        *authority == receipts.authority ==> balances.owner + balances.record <= u64::MAX,
    ensures
        *authority == receipts.authority ==> done == Ok::<Balances, StoreErrorCode>(
            reclaimed(balances),
        ),
        *authority != receipts.authority ==> done == Err::<Balances, StoreErrorCode>(
            StoreErrorCode::InvalidAuthority,
        ),
{
    if let Err(why) = require_owner(&receipts.authority, authority) {
        return Err(StoreErrorCode::report(why));
    }
    Ok(reclaim(balances))
}

/// Plans the growth of a stored record to `REALLOC_SPACE` bytes, for the
/// owner of the store. The plan says what the payer adds to the record's
/// balance `receipts_lamports` so that it reaches `minimum_balance`, the
/// least that funds the new size; where the balance is there already,
/// nothing is added. A payer who cannot cover it is refused.
pub fn realloc_store(
    store_owner: &Identity,
    caller: &Identity,
    receipts_lamports: u64,
    payer_lamports: u64,
    minimum_balance: u64,
) -> (done: Result<Allocation, StoreErrorCode>)
    ensures
        *caller != *store_owner ==> done == Err::<Allocation, StoreErrorCode>(
            StoreErrorCode::InvalidAuthority,
        ),
        *caller == *store_owner ==> match funded(
            REALLOC_SPACE,
            receipts_lamports,
            payer_lamports,
            minimum_balance,
        ) {
            Ok(plan) => done == Ok::<Allocation, StoreErrorCode>(plan),
            Err(why) => done == Err::<Allocation, StoreErrorCode>(StoreErrorCode::of(why)),
        },
{
    if let Err(why) = require_owner(store_owner, caller) {
        return Err(StoreErrorCode::report(why));
    }
    match fund(REALLOC_SPACE, receipts_lamports, payer_lamports, minimum_balance) {
        Ok(plan) => Ok(plan),
        Err(why) => Err(StoreErrorCode::report(why)),
    }
}

} // verus!
