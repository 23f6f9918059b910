//! The bar program: the smaller sibling of the store program. A bar has a
//! catalog, a journal of the ten latest receipts and a channel id; its
//! name may be any text of at most thirty-two bytes.

use crate::catalog::{locate, position, remove, ProductView};
use crate::error::StoreError;
use crate::identity::Identity;
use crate::journal::{append, mark_delivered};
use crate::ledger::{
    channel_keeps_soundness, delivery_keeps_soundness, notice_for, opened_is_sound,
    product_keeps_soundness, purchase_keeps_soundness, reclaim, reclaimed,
    removal_keeps_soundness, require_owner, Balances, Ledger, Notice, Request,
};
use crate::settlement::{payee, settle, transfer_for, Transfer};
use crate::text::{byte_length, MAX_NAME_BYTES};
use vstd::prelude::*;

pub use crate::catalog::Products;
pub use crate::journal::Receipt;

verus! {

/// The most receipts the journal of a bar holds.
pub const MAX_RECEIPTS: usize = 10;

/// The bytes of the asset id that stands for the chain's native unit in
/// this program.
pub const SOL_MINT: [u8; 32] = [
    6, 155, 136, 87, 254, 171, 129, 132, 251, 104, 127, 99, 70, 24, 192, 53, 218, 196, 57, 220, 26,
    235, 59, 85, 152, 160, 240, 0, 0, 0, 0, 1,
];

/// The asset id that stands for the chain's native unit in this program.
pub open spec fn native_asset() -> Identity {
    Identity { bytes: SOL_MINT }
}

/// The asset id that stands for the chain's native unit in this program.
#[verifier::when_used_as_spec(native_asset)]
pub fn sol_mint() -> (id: Identity)
    ensures
        id == native_asset(),
{
    Identity { bytes: SOL_MINT }
}

/// The codes under which the bar program reports a refusal.
#[derive(Clone, Copy, Debug, PartialEq, Eq, Structural)]
pub enum ShotErrorCode {
    /// The account presented as the bar's treasury is not the owner's.
    InvalidTreasury,
    /// A product of that name is on sale already.
    ProductAlreadyExists,
    /// No product of that name is on sale.
    ProductNotFound,
    /// The asset presented is not the one the product is sold in.
    InvalidMint,
    /// The caller is not the owner.
    InvalidAuthority,
    /// The bar still has products.
    BarNotEmpty,
    /// The product's name is empty once white space is trimmed.
    ProductNameEmpty,
    /// A name or a channel id is longer than its field.
    StringTooLong,
    /// The catalog is full.
    VectorLimitReached,
    /// The payment rail failed the transfer; `cause` is its code.
    PaymentFailed { cause: u64 },
    /// The count of purchases has reached the end of its range.
    CounterOverflow,
}

impl ShotErrorCode {
    /// The code for each reason that an operation on a bar can give. A bar
    /// checks no alphabet and plans no allocation, so two reasons have none.
    pub open spec fn of(why: StoreError) -> Option<ShotErrorCode> {
        match why {
            StoreError::Unauthorized => Some(ShotErrorCode::InvalidAuthority),
            StoreError::NotFound => Some(ShotErrorCode::ProductNotFound),
            StoreError::DuplicateName => Some(ShotErrorCode::ProductAlreadyExists),
            StoreError::NameEmpty => Some(ShotErrorCode::ProductNameEmpty),
            StoreError::NameTooLong => Some(ShotErrorCode::StringTooLong),
            StoreError::InvalidName => None,
            StoreError::CapacityExceeded => Some(ShotErrorCode::VectorLimitReached),
            StoreError::AssetMismatch => Some(ShotErrorCode::InvalidMint),
            StoreError::InvalidTreasury => Some(ShotErrorCode::InvalidTreasury),
            StoreError::PaymentFailed { cause } => Some(ShotErrorCode::PaymentFailed { cause }),
            StoreError::InsufficientFunding => None,
            StoreError::CounterOverflow => Some(ShotErrorCode::CounterOverflow),
        }
    }

    /// Reports `why` under its code, where it has one.
    pub fn report(why: StoreError) -> (code: Option<ShotErrorCode>)
        ensures
            code == ShotErrorCode::of(why),
    {
        match why {
            StoreError::Unauthorized => Some(ShotErrorCode::InvalidAuthority),
            StoreError::NotFound => Some(ShotErrorCode::ProductNotFound),
            StoreError::DuplicateName => Some(ShotErrorCode::ProductAlreadyExists),
            StoreError::NameEmpty => Some(ShotErrorCode::ProductNameEmpty),
            StoreError::NameTooLong => Some(ShotErrorCode::StringTooLong),
            StoreError::InvalidName => None,
            StoreError::CapacityExceeded => Some(ShotErrorCode::VectorLimitReached),
            StoreError::AssetMismatch => Some(ShotErrorCode::InvalidMint),
            StoreError::InvalidTreasury => Some(ShotErrorCode::InvalidTreasury),
            StoreError::PaymentFailed { cause } => Some(ShotErrorCode::PaymentFailed { cause }),
            StoreError::InsufficientFunding => None,
            StoreError::CounterOverflow => Some(ShotErrorCode::CounterOverflow),
        }
    }
}

/// The record of one bar.
#[derive(Debug, PartialEq, Eq)]
pub struct Receipts {
    pub receipts: Vec<Receipt>,
    pub total_shots_sold: u64,
    pub bar_name: String,
    pub authority: Identity,
    pub products: Vec<Products>,
    pub telegram_channel_id: String,
}

impl View for Receipts {
    type V = Ledger;

    open spec fn view(&self) -> Ledger {
        Ledger {
            owner: self.authority,
            name: self.bar_name@,
            telegram_channel_id: self.telegram_channel_id@,
            details: Seq::empty(),
            catalog: self.products.deep_view(),
            journal: self.receipts.deep_view(),
            purchases: self.total_shots_sold,
        }
    }
}

impl Clone for Receipts {
    fn clone(&self) -> (copy: Receipts)
        ensures
            copy@ == self@,
    {
        let copy = Receipts {
            receipts: self.receipts.clone(),
            total_shots_sold: self.total_shots_sold,
            bar_name: self.bar_name.clone(),
            authority: self.authority,
            products: self.products.clone(),
            telegram_channel_id: self.telegram_channel_id.clone(),
        };
        assert(copy@ =~~= self@);
        copy
    }
}

impl Receipts {
    /// A record within its bounds.
    pub open spec fn well_formed(&self) -> bool {
        self@.sound(MAX_RECEIPTS as nat)
    }
}

/// The notice of a purchase, for whoever listens to the bar.
#[derive(Debug, PartialEq, Eq)]
pub struct ShotPurchased {
    pub buyer: Identity,
    pub product_name: String,
    pub price: u64,
    pub timestamp: i64,
    pub table_number: u8,
    pub receipt_id: u64,
    pub telegram_channel_id: String,
    pub bar_name: String,
    pub receipts_account: Identity,
}

impl View for ShotPurchased {
    type V = Notice;

    open spec fn view(&self) -> Notice {
        Notice {
            buyer: self.buyer,
            product_name: self.product_name@,
            price: self.price,
            timestamp: self.timestamp,
            table_number: self.table_number,
            receipt_id: self.receipt_id,
            telegram_channel_id: self.telegram_channel_id@,
            store_name: self.bar_name@,
            receipts_account: self.receipts_account,
        }
    }
}

impl Clone for ShotPurchased {
    fn clone(&self) -> (copy: ShotPurchased)
        ensures
            copy@ == self@,
    {
        ShotPurchased {
            buyer: self.buyer,
            product_name: self.product_name.clone(),
            price: self.price,
            timestamp: self.timestamp,
            table_number: self.table_number,
            receipt_id: self.receipt_id,
            telegram_channel_id: self.telegram_channel_id.clone(),
            bar_name: self.bar_name.clone(),
            receipts_account: self.receipts_account,
        }
    }
}

/// A purchase that is entered in the journal and awaits its payment: the
/// order for the rail, and the notice to send once the rail has confirmed.
#[derive(Debug, PartialEq, Eq)]
pub struct Shot {
    pub receipt_id: u64,
    pub transfer: Transfer,
    pub event: ShotPurchased,
}

impl Clone for Shot {
    fn clone(&self) -> (copy: Shot)
        ensures
            copy.receipt_id == self.receipt_id,
            copy.transfer == self.transfer,
            copy.event@ == self.event@,
    {
        Shot { receipt_id: self.receipt_id, transfer: self.transfer, event: self.event.clone() }
    }
}

/// Opens the bar `bar_name` for the owner `authority`: nothing on sale,
/// nothing sold, no channel id. A name of more than `MAX_NAME_BYTES` bytes
/// is refused as too long.
pub fn initialize(authority: &Identity, bar_name: String) -> (done: Result<Receipts, ShotErrorCode>)
    ensures
        match Ledger::opened(*authority, bar_name@, false) {
            Ok(ledger) => done is Ok && done.unwrap()@ == ledger && done.unwrap().well_formed(),
            Err(why) => done is Err && Some(done.unwrap_err()) == ShotErrorCode::of(why),
        },
{
    if byte_length(bar_name.as_str()) > MAX_NAME_BYTES {
        return Err(ShotErrorCode::StringTooLong);
    }
    let record = Receipts {
        receipts: Vec::new(),
        total_shots_sold: 0,
        bar_name,
        authority: *authority,
        products: Vec::new(),
        telegram_channel_id: String::new(),
    };
    proof {
        assert(record@ =~= Ledger::founded(*authority, bar_name@));
        opened_is_sound(*authority, bar_name@, false, MAX_RECEIPTS as nat);
    }
    Ok(record)
}

/// Sets the channel id of the bar, for its owner: at most `MAX_NAME_BYTES`
/// bytes.
pub fn update_telegram_channel(
    receipts: &mut Receipts,
    authority: &Identity,
    telegram_channel_id: String,
) -> (done: Result<(), ShotErrorCode>)
    ensures
        old(receipts).well_formed() ==> final(receipts).well_formed(),
        match old(receipts)@.with_channel(*authority, telegram_channel_id@) {
            Ok(next) => done is Ok && final(receipts)@ == next,
            Err(why) => {
                &&& done is Err
                &&& Some(done.unwrap_err()) == ShotErrorCode::of(why)
                &&& final(receipts)@ == old(receipts)@
            },
        },
{
    if require_owner(&receipts.authority, authority).is_err() {
        return Err(ShotErrorCode::InvalidAuthority);
    }
    if byte_length(telegram_channel_id.as_str()) > MAX_NAME_BYTES {
        return Err(ShotErrorCode::StringTooLong);
    }
    proof {
        if old(receipts).well_formed() {
            channel_keeps_soundness(
                old(receipts)@,
                MAX_RECEIPTS as nat,
                *authority,
                telegram_channel_id@,
            );
        }
    }
    receipts.telegram_channel_id = telegram_channel_id;
    Ok(())
}

/// Puts a product on sale, for the owner of the bar: `name` at `price` in
/// the asset `mint`, which has `decimals` decimal places. The product goes
/// to the end of the catalog.
pub fn add_product(
    receipts: &mut Receipts,
    authority: &Identity,
    mint: &Identity,
    decimals: u8,
    name: String,
    price: u64,
) -> (done: Result<(), ShotErrorCode>)
    ensures
        old(receipts).well_formed() ==> final(receipts).well_formed(),
        ({
            let product = ProductView { price, decimals, mint: *mint, name: name@ };
            match old(receipts)@.with_product(*authority, product) {
                Ok(next) => done is Ok && final(receipts)@ == next,
                Err(why) => {
                    &&& done is Err
                    &&& Some(done.unwrap_err()) == ShotErrorCode::of(why)
                    &&& final(receipts)@ == old(receipts)@
                },
            }
        }),
{
    if require_owner(&receipts.authority, authority).is_err() {
        return Err(ShotErrorCode::InvalidAuthority);
    }
    let product = Products { price, decimals, mint: *mint, name };
    proof {
        if old(receipts).well_formed() {
            product_keeps_soundness(old(receipts)@, MAX_RECEIPTS as nat, *authority, product@);
        }
    }
    match crate::catalog::add(&mut receipts.products, product) {
        Ok(()) => Ok(()),
        Err(why) => Err(ShotErrorCode::report(why).unwrap()),
    }
}

/// Enters a purchase of the product named `product_name` by `signer`, who
/// presents the asset `mint`, at the time `timestamp`.
///
/// The purchase is refused, and the record left as it is, where no such
/// product is on sale, where it is sold in another asset, or where the
/// count of purchases cannot go up. Otherwise the receipt enters the
/// journal under the next number, and the result holds the order that pays
/// the product's price to the owner. The payment itself comes after: the
/// entry stands whatever becomes of it.
pub fn buy_shot(
    receipts: &mut Receipts,
    receipts_account: &Identity,
    signer: &Identity,
    mint: &Identity,
    timestamp: i64,
    product_name: String,
    table_number: u8,
) -> (done: Result<Shot, ShotErrorCode>)
    ensures
        old(receipts).well_formed() ==> final(receipts).well_formed(),
        ({
            let request = Request {
                buyer: *signer,
                asset: *mint,
                product_name: product_name@,
                table_number,
                timestamp,
            };
            match old(receipts)@.purchased(MAX_RECEIPTS as nat, request) {
                Ok(next) => {
                    let product = old(receipts)@.catalog[position(
                        old(receipts)@.catalog,
                        product_name@,
                    ).unwrap()];
                    &&& final(receipts)@ == next
                    &&& done is Ok
                    &&& done.unwrap().receipt_id == old(receipts).total_shots_sold
                    &&& done.unwrap().transfer == transfer_for(
                        product,
                        native_asset(),
                        *signer,
                        old(receipts).authority,
                        product.price,
                    )
                    &&& done.unwrap().event@ == notice_for(
                        old(receipts)@,
                        *receipts_account,
                        request,
                    )
                },
                Err(why) => {
                    &&& final(receipts)@ == old(receipts)@
                    &&& done is Err
                    &&& Some(done.unwrap_err()) == ShotErrorCode::of(why)
                },
            }
        }),
{
    let at = match locate(&receipts.products, &product_name) {
        Some(at) => at,
        None => {
            return Err(ShotErrorCode::ProductNotFound);
        },
    };
    let product = receipts.products[at].clone();
    if !(product.mint == *mint) {
        return Err(ShotErrorCode::InvalidMint);
    }
    if receipts.total_shots_sold == u64::MAX {
        return Err(ShotErrorCode::CounterOverflow);
    }
    proof {
        if old(receipts).well_formed() {
            purchase_keeps_soundness(
                old(receipts)@,
                MAX_RECEIPTS as nat,
                Request {
                    buyer: *signer,
                    asset: *mint,
                    product_name: product_name@,
                    table_number,
                    timestamp,
                },
            );
        }
    }
    let receipt_id = receipts.total_shots_sold;
    let new_receipt = Receipt {
        receipt_id,
        buyer: *signer,
        was_delivered: false,
        price: product.price,
        timestamp,
        table_number,
        product_name: product.name.clone(),
    };
    append(&mut receipts.receipts, new_receipt, MAX_RECEIPTS);
    receipts.total_shots_sold = receipts.total_shots_sold + 1;
    let transfer = settle(&product, &sol_mint(), signer, &receipts.authority, product.price);
    let event = ShotPurchased {
        buyer: *signer,
        product_name: product.name,
        price: product.price,
        timestamp,
        table_number,
        receipt_id,
        telegram_channel_id: receipts.telegram_channel_id.clone(),
        bar_name: receipts.bar_name.clone(),
        receipts_account: *receipts_account,
    };
    Ok(Shot { receipt_id, transfer, event })
}

/// Lets the order of a purchase go to the rail only where the account
/// `presented` as the bar's treasury is the order's payee.
pub fn check_treasury(order: &Transfer, presented: &Identity) -> (done: Result<
    (),
    ShotErrorCode,
>)
    ensures
        payee(*order) == *presented ==> done == Ok::<(), ShotErrorCode>(()),
        payee(*order) != *presented ==> done == Err::<(), ShotErrorCode>(
            ShotErrorCode::InvalidTreasury,
        ),
{
    match crate::settlement::check_treasury(order, presented) {
        Ok(()) => Ok(()),
        Err(_) => Err(ShotErrorCode::InvalidTreasury),
    }
}

/// Closes a purchase on the rail's answer: the notice to send where the
/// payment went through, the failure with the rail's code where it did not.
pub fn settle_shot(shot: Shot, answer: Result<(), u64>) -> (done: Result<
    ShotPurchased,
    ShotErrorCode,
>)
    ensures
        match answer {
            Ok(()) => done is Ok && done.unwrap() == shot.event,
            Err(cause) => done is Err && done.unwrap_err() == (ShotErrorCode::PaymentFailed {
                cause,
            }),
        },
{
    match answer {
        Ok(()) => Ok(shot.event),
        Err(cause) => Err(ShotErrorCode::PaymentFailed { cause }),
    }
}

/// Marks the first receipt numbered `recipe_id` as delivered. This never fails:
/// where the journal holds no such receipt, because it was evicted or
/// never issued, the record stays as it is.
pub fn mark_shot_as_delivered(receipts: &mut Receipts, recipe_id: u64) -> (done: Result<
    (),
    ShotErrorCode,
>)
    ensures
        done is Ok,
        old(receipts).well_formed() ==> final(receipts).well_formed(),
        final(receipts)@ == old(receipts)@.with_delivery(recipe_id),
{
    proof {
        if old(receipts).well_formed() {
            delivery_keeps_soundness(old(receipts)@, MAX_RECEIPTS as nat, recipe_id);
        }
    }
    mark_delivered(&mut receipts.receipts, recipe_id);
    Ok(())
}

/// Takes the product named `product_name` off sale, for the owner of the
/// bar. The other products keep their order, and no receipt changes.
pub fn delete_product(receipts: &mut Receipts, authority: &Identity, product_name: String) -> (done:
    Result<(), ShotErrorCode>)
    ensures
        old(receipts).well_formed() ==> final(receipts).well_formed(),
        match old(receipts)@.without_product(*authority, product_name@) {
            Ok(next) => done is Ok && final(receipts)@ == next,
            Err(why) => {
                &&& done is Err
                &&& Some(done.unwrap_err()) == ShotErrorCode::of(why)
                &&& final(receipts)@ == old(receipts)@
            },
        },
{
    if require_owner(&receipts.authority, authority).is_err() {
        return Err(ShotErrorCode::InvalidAuthority);
    }
    proof {
        if old(receipts).well_formed() {
            removal_keeps_soundness(
                old(receipts)@,
                MAX_RECEIPTS as nat,
                *authority,
                product_name@,
            );
        }
    }
    match remove(&mut receipts.products, &product_name) {
        Ok(_) => Ok(()),
        Err(_) => Err(ShotErrorCode::ProductNotFound),
    }
}

/// Closes the bar, for its owner: all that backs the record goes to the
/// owner's balance, and the record's balance falls to zero.
pub fn delete_bar(receipts: &Receipts, authority: &Identity, balances: Balances) -> (done: Result<
    Balances,
    ShotErrorCode,
>)
    requires
        *authority == receipts.authority ==> balances.owner + balances.record <= u64::MAX,
    ensures
        *authority == receipts.authority ==> done == Ok::<Balances, ShotErrorCode>(
            reclaimed(balances),
        ),
        *authority != receipts.authority ==> done == Err::<Balances, ShotErrorCode>(
            ShotErrorCode::InvalidAuthority,
        ),
{
    if require_owner(&receipts.authority, authority).is_err() {
        return Err(ShotErrorCode::InvalidAuthority);
    }
    Ok(reclaim(balances))
}

} // verus!
