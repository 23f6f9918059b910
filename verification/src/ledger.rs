//! The store record as a mathematical value, and every operation on it as a
//! function from the record before to the record after.
//!
//! The executable operations of the two programs are specified against
//! these functions; the laws at the end of this file are proved of them.

use crate::catalog::{
    add_all, add_keeps_well_formed, add_outcome, fit_for_sale, full_catalog_refuses, listed,
    position, remove_keeps_well_formed, remove_outcome, well_formed, ProductView, MAX_PRODUCTS,
};
use crate::error::StoreError;
use crate::identity::Identity;
use crate::journal::{
    append_keeps_step, appended, in_step, latest, latest_moves_on, mark_keeps_step, marked,
    recorded, unrecorded_mark_changes_nothing, ReceiptView,
};
use crate::text::{blank, byte_len, is_slug, MAX_DETAILS_BYTES, MAX_NAME_BYTES};
use vstd::prelude::*;

verus! {

/// A store record: who owns it, what it is called, what it sells and what
/// it has sold.
#[verifier::ext_equal]
pub struct Ledger {
    pub owner: Identity,
    pub name: Seq<char>,
    pub telegram_channel_id: Seq<char>,
    pub details: Seq<char>,
    pub catalog: Seq<ProductView>,
    pub journal: Seq<ReceiptView>,
    /// How many purchases were ever made; the number of the next receipt.
    pub purchases: u64,
}

/// A request to buy one unit of a product.
pub struct Request {
    pub buyer: Identity,
    /// The asset that the buyer presents for payment.
    pub asset: Identity,
    pub product_name: Seq<char>,
    pub table_number: u8,
    pub timestamp: i64,
}

/// What a notice says, with its texts as sequences of characters.
pub struct Notice {
    pub buyer: Identity,
    pub product_name: Seq<char>,
    pub price: u64,
    pub timestamp: i64,
    pub table_number: u8,
    pub receipt_id: u64,
    pub telegram_channel_id: Seq<char>,
    pub store_name: Seq<char>,
    pub receipts_account: Identity,
}

/// The receipt for the purchase of `product` that `request` asks for, when
/// `purchases` purchases were made before it.
pub open spec fn receipt_for(
    purchases: u64,
    product: ProductView,
    request: Request,
) -> ReceiptView {
    ReceiptView {
        receipt_id: purchases,
        buyer: request.buyer,
        was_delivered: false,
        price: product.price,
        timestamp: request.timestamp,
        table_number: request.table_number,
        product_name: product.name,
    }
}

/// The notice of the purchase that `request` makes in the store `ledger`,
/// whose record lies at `receipts_account`.
pub open spec fn notice_for(
    ledger: Ledger,
    receipts_account: Identity,
    request: Request,
) -> Notice {
    let product = ledger.catalog[position(ledger.catalog, request.product_name).unwrap()];
    Notice {
        buyer: request.buyer,
        product_name: product.name,
        price: product.price,
        timestamp: request.timestamp,
        table_number: request.table_number,
        receipt_id: ledger.purchases,
        telegram_channel_id: ledger.telegram_channel_id,
        store_name: ledger.name,
        receipts_account,
    }
}

impl Ledger {
    /// A new store: nothing on sale, nothing sold, no metadata.
    pub open spec fn founded(owner: Identity, name: Seq<char>) -> Ledger {
        Ledger {
            owner,
            name,
            telegram_channel_id: Seq::empty(),
            details: Seq::empty(),
            catalog: Seq::empty(),
            journal: Seq::empty(),
            purchases: 0,
        }
    }

    /// The opening of a store under `name`, which may not be too long and,
    /// where `slugs` is set, must be a slug.
    pub open spec fn opened(owner: Identity, name: Seq<char>, slugs: bool) -> Result<
        Ledger,
        StoreError,
    > {
        if byte_len(name) > MAX_NAME_BYTES {
            Err(StoreError::NameTooLong)
        } else if slugs && !is_slug(name) {
            Err(StoreError::InvalidName)
        } else {
            Ok(Ledger::founded(owner, name))
        }
    }

    /// The owner sets the channel id.
    pub open spec fn with_channel(self, caller: Identity, id: Seq<char>) -> Result<
        Ledger,
        StoreError,
    > {
        if caller != self.owner {
            Err(StoreError::Unauthorized)
        } else if byte_len(id) > MAX_NAME_BYTES {
            Err(StoreError::NameTooLong)
        } else {
            Ok(Ledger { telegram_channel_id: id, ..self })
        }
    }

    /// The owner sets the description.
    pub open spec fn with_details(self, caller: Identity, details: Seq<char>) -> Result<
        Ledger,
        StoreError,
    > {
        if caller != self.owner {
            Err(StoreError::Unauthorized)
        } else if byte_len(details) > MAX_DETAILS_BYTES {
            Err(StoreError::NameTooLong)
        } else {
            Ok(Ledger { details, ..self })
        }
    }

    /// The owner puts `product` on sale.
    pub open spec fn with_product(self, caller: Identity, product: ProductView) -> Result<
        Ledger,
        StoreError,
    > {
        if caller != self.owner {
            Err(StoreError::Unauthorized)
        } else {
            match add_outcome(self.catalog, product) {
                Ok(catalog) => Ok(Ledger { catalog, ..self }),
                Err(why) => Err(why),
            }
        }
    }

    /// The owner takes the product named `name` off sale.
    pub open spec fn without_product(self, caller: Identity, name: Seq<char>) -> Result<
        Ledger,
        StoreError,
    > {
        if caller != self.owner {
            Err(StoreError::Unauthorized)
        } else {
            match remove_outcome(self.catalog, name) {
                Ok(catalog) => Ok(Ledger { catalog, ..self }),
                Err(why) => Err(why),
            }
        }
    }

    /// Anyone buys a product: the receipt, numbered by the count of
    /// purchases so far, enters a journal of `capacity` entries, and the
    /// count goes up by one.
    pub open spec fn purchased(self, capacity: nat, request: Request) -> Result<
        Ledger,
        StoreError,
    > {
        match position(self.catalog, request.product_name) {
            None => Err(StoreError::NotFound),
            Some(i) => if self.catalog[i].mint != request.asset {
                Err(StoreError::AssetMismatch)
            } else if self.purchases == u64::MAX {
                Err(StoreError::CounterOverflow)
            } else {
                Ok(
                    Ledger {
                        journal: appended(
                            self.journal,
                            receipt_for(self.purchases, self.catalog[i], request),
                            capacity,
                        ),
                        purchases: (self.purchases + 1) as u64,
                        ..self
                    },
                )
            },
        }
    }

    /// Anyone marks the first receipt numbered `receipt_id` as delivered.
    pub open spec fn with_delivery(self, receipt_id: u64) -> Ledger {
        Ledger { journal: marked(self.journal, receipt_id), ..self }
    }

    /// The record after each of `products` was offered to it by `caller`
    /// in turn; an offer that is refused leaves it as it was.
    pub open spec fn stocked(self, caller: Identity, products: Seq<ProductView>) -> Ledger
        decreases products.len(),
    {
        if products.len() == 0 {
            self
        } else {
            let before = self.stocked(caller, products.drop_last());
            match before.with_product(caller, products.last()) {
                Ok(next) => next,
                Err(_) => before,
            }
        }
    }

    /// The record after each of `requests` was made of it in turn; a
    /// request that is refused leaves it as it was.
    pub open spec fn replayed(self, capacity: nat, requests: Seq<Request>) -> Ledger
        decreases requests.len(),
    {
        if requests.len() == 0 {
            self
        } else {
            let before = self.replayed(capacity, requests.drop_last());
            match before.purchased(capacity, requests.last()) {
                Ok(next) => next,
                Err(_) => before,
            }
        }
    }

    /// How many of `requests`, made in turn, are granted.
    pub open spec fn granted(self, capacity: nat, requests: Seq<Request>) -> nat
        decreases requests.len(),
    {
        if requests.len() == 0 {
            0
        } else {
            let earlier = requests.drop_last();
            let before = self.replayed(capacity, earlier);
            if before.purchased(capacity, requests.last()) is Ok {
                self.granted(capacity, earlier) + 1
            } else {
                self.granted(capacity, earlier)
            }
        }
    }

    /// The receipts issued as `requests` are made in turn, oldest first.
    pub open spec fn issued(self, capacity: nat, requests: Seq<Request>) -> Seq<ReceiptView>
        decreases requests.len(),
    {
        if requests.len() == 0 {
            Seq::empty()
        } else {
            let earlier = requests.drop_last();
            let before = self.replayed(capacity, earlier);
            match before.purchased(capacity, requests.last()) {
                Ok(next) => self.issued(capacity, earlier).push(next.journal.last()),
                Err(_) => self.issued(capacity, earlier),
            }
        }
    }

    /// A record whose every part is within its bounds, with a journal of
    /// `capacity` entries in step with the count of purchases.
    pub open spec fn sound(self, capacity: nat) -> bool {
        &&& byte_len(self.name) <= MAX_NAME_BYTES
        &&& byte_len(self.telegram_channel_id) <= MAX_NAME_BYTES
        &&& byte_len(self.details) <= MAX_DETAILS_BYTES
        &&& well_formed(self.catalog)
        &&& in_step(self.journal, self.purchases as nat, capacity)
    }
}

/// The balances of the owner and of the record.
#[derive(Clone, Copy, Debug, PartialEq, Eq, Structural)]
pub struct Balances {
    pub owner: u64,
    pub record: u64,
}

/// A larger allocation for a record: its size in bytes, and what the payer
/// adds to the record's balance to keep it funded.
#[derive(Clone, Copy, Debug, PartialEq, Eq, Structural)]
pub struct Allocation {
    pub space: usize,
    pub top_up: u64,
}

/// The balances once all that backs the record has gone to the owner.
pub open spec fn reclaimed(before: Balances) -> Balances {
    Balances { owner: (before.owner + before.record) as u64, record: 0 }
}

/// What `balance` lacks of `minimum_balance`.
pub open spec fn shortfall(minimum_balance: u64, balance: u64) -> u64 {
    if minimum_balance > balance {
        (minimum_balance - balance) as u64
    } else {
        0
    }
}

/// The allocation of `space` bytes for a record with `balance`, which needs
/// `minimum_balance` to stay funded at that size: the payer covers the
/// shortfall, or the allocation is refused.
pub open spec fn funded(
    space: usize,
    balance: u64,
    payer_balance: u64,
    minimum_balance: u64,
) -> Result<Allocation, StoreError> {
    if shortfall(minimum_balance, balance) > payer_balance {
        Err(StoreError::InsufficientFunding)
    } else {
        Ok(Allocation { space, top_up: shortfall(minimum_balance, balance) })
    }
}

/// Lets an operation pass only where `caller` is `owner`.
pub fn require_owner(owner: &Identity, caller: &Identity) -> (pass: Result<(), StoreError>)
    ensures
        *caller == *owner ==> pass == Ok::<(), StoreError>(()),
        *caller != *owner ==> pass == Err::<(), StoreError>(StoreError::Unauthorized),
{
    if *caller == *owner {
        Ok(())
    } else {
        Err(StoreError::Unauthorized)
    }
}

/// Hands all that backs a record over to the owner.
pub fn reclaim(before: Balances) -> (after: Balances)
    requires
        before.owner + before.record <= u64::MAX,
    ensures
        after == reclaimed(before),
{
    Balances { owner: before.owner + before.record, record: 0 }
}

/// Plans the allocation of `space` bytes for a record with `balance`, which
/// needs `minimum_balance` to stay funded at that size.
pub fn fund(space: usize, balance: u64, payer_balance: u64, minimum_balance: u64) -> (plan:
    Result<Allocation, StoreError>)
    ensures
        plan == funded(space, balance, payer_balance, minimum_balance),
{
    let top_up = minimum_balance.saturating_sub(balance);
    if top_up > payer_balance {
        Err(StoreError::InsufficientFunding)
    } else {
        Ok(Allocation { space, top_up })
    }
}

/// A newly opened store is sound, whatever the capacity of its journal.
pub proof fn opened_is_sound(owner: Identity, name: Seq<char>, slugs: bool, capacity: nat)
    ensures
        Ledger::opened(owner, name, slugs) matches Ok(ledger) ==> ledger.sound(capacity)
            && ledger.owner == owner && ledger.name == name && (slugs ==> is_slug(name)),
{
    assert(byte_len(Seq::<char>::empty()) == 0);
}

/// Setting the channel id keeps a sound record sound.
pub proof fn channel_keeps_soundness(
    ledger: Ledger,
    capacity: nat,
    caller: Identity,
    id: Seq<char>,
)
    requires
        ledger.sound(capacity),
    ensures
        ledger.with_channel(caller, id) matches Ok(next) ==> next.sound(capacity),
{
}

/// Setting the description keeps a sound record sound.
pub proof fn details_keep_soundness(
    ledger: Ledger,
    capacity: nat,
    caller: Identity,
    details: Seq<char>,
)
    requires
        ledger.sound(capacity),
    ensures
        ledger.with_details(caller, details) matches Ok(next) ==> next.sound(capacity),
{
}

/// Putting a product on sale keeps a sound record sound.
pub proof fn product_keeps_soundness(
    ledger: Ledger,
    capacity: nat,
    caller: Identity,
    product: ProductView,
)
    requires
        ledger.sound(capacity),
    ensures
        ledger.with_product(caller, product) matches Ok(next) ==> next.sound(capacity),
{
    add_keeps_well_formed(ledger.catalog, product);
}

/// Taking a product off sale keeps a sound record sound.
pub proof fn removal_keeps_soundness(
    ledger: Ledger,
    capacity: nat,
    caller: Identity,
    name: Seq<char>,
)
    requires
        ledger.sound(capacity),
    ensures
        ledger.without_product(caller, name) matches Ok(next) ==> next.sound(capacity),
{
    remove_keeps_well_formed(ledger.catalog, name);
}

/// A purchase keeps a sound record sound: the journal stays the window of
/// the latest receipts, numbered consecutively up to the new count.
pub proof fn purchase_keeps_soundness(ledger: Ledger, capacity: nat, request: Request)
    requires
        capacity > 0,
        ledger.sound(capacity),
    ensures
        ledger.purchased(capacity, request) matches Ok(next) ==> next.sound(capacity),
{
    if ledger.purchased(capacity, request) is Ok {
        let at = position(ledger.catalog, request.product_name).unwrap();
        append_keeps_step(
            ledger.journal,
            receipt_for(ledger.purchases, ledger.catalog[at], request),
            ledger.purchases as nat,
            capacity,
        );
    }
}

/// Marking a delivery keeps a sound record sound.
pub proof fn delivery_keeps_soundness(ledger: Ledger, capacity: nat, receipt_id: u64)
    requires
        ledger.sound(capacity),
    ensures
        ledger.with_delivery(receipt_id).sound(capacity),
{
    mark_keeps_step(ledger.journal, receipt_id, ledger.purchases as nat, capacity);
}

/// No operation changes the owner or the name of a store.
pub proof fn owner_and_name_are_fixed(
    ledger: Ledger,
    capacity: nat,
    caller: Identity,
    text: Seq<char>,
    product: ProductView,
    request: Request,
    receipt_id: u64,
)
    ensures
        ledger.with_channel(caller, text) matches Ok(next) ==> next.owner == ledger.owner
            && next.name == ledger.name,
        ledger.with_details(caller, text) matches Ok(next) ==> next.owner == ledger.owner
            && next.name == ledger.name,
        ledger.with_product(caller, product) matches Ok(next) ==> next.owner == ledger.owner
            && next.name == ledger.name,
        ledger.without_product(caller, text) matches Ok(next) ==> next.owner == ledger.owner
            && next.name == ledger.name,
        ledger.purchased(capacity, request) matches Ok(next) ==> next.owner == ledger.owner
            && next.name == ledger.name,
        ledger.with_delivery(receipt_id).owner == ledger.owner,
        ledger.with_delivery(receipt_id).name == ledger.name,
{
}

/// Only the owner changes the catalog or the metadata of a store: for any
/// other caller these operations are refused as unauthorized.
pub proof fn strangers_are_refused(
    ledger: Ledger,
    caller: Identity,
    text: Seq<char>,
    product: ProductView,
)
    requires
        caller != ledger.owner,
    ensures
        ledger.with_channel(caller, text) == Err::<Ledger, StoreError>(StoreError::Unauthorized),
        ledger.with_details(caller, text) == Err::<Ledger, StoreError>(StoreError::Unauthorized),
        ledger.with_product(caller, product) == Err::<Ledger, StoreError>(
            StoreError::Unauthorized,
        ),
        ledger.without_product(caller, text) == Err::<Ledger, StoreError>(
            StoreError::Unauthorized,
        ),
{
}

/// Whoever offers them, and however many, products never bring the
/// catalog of a store beyond `MAX_PRODUCTS`.
pub proof fn catalog_stays_within_capacity(
    ledger: Ledger,
    caller: Identity,
    products: Seq<ProductView>,
)
    requires
        ledger.catalog.len() <= MAX_PRODUCTS,
    ensures
        ledger.stocked(caller, products).catalog.len() <= MAX_PRODUCTS,
    decreases products.len(),
{
    if products.len() > 0 {
        catalog_stays_within_capacity(ledger, caller, products.drop_last());
    }
}

/// A full catalog takes no product that could otherwise be added: the
/// owner's offer is refused because the capacity is exceeded.
pub proof fn full_store_refuses(ledger: Ledger, product: ProductView)
    requires
        ledger.catalog.len() >= MAX_PRODUCTS,
        !blank(product.name),
        byte_len(product.name) <= MAX_NAME_BYTES,
        !listed(ledger.catalog, product.name),
    ensures
        ledger.with_product(ledger.owner, product) == Err::<Ledger, StoreError>(
            StoreError::CapacityExceeded,
        ),
{
}

/// Of products fit for sale that the owner offers to a new store in turn,
/// the first `MAX_PRODUCTS` enter the catalog in their order, and every
/// later one is refused because the capacity is exceeded.
pub proof fn offers_beyond_capacity_are_refused(
    owner: Identity,
    name: Seq<char>,
    products: Seq<ProductView>,
    k: int,
)
    requires
        fit_for_sale(products),
        0 <= k < products.len(),
    ensures
        ({
            let before = Ledger::founded(owner, name).stocked(owner, products.take(k));
            &&& k <= MAX_PRODUCTS ==> before.catalog == products.take(k)
            &&& k >= MAX_PRODUCTS ==> before.catalog == products.take(MAX_PRODUCTS as int)
            &&& k < MAX_PRODUCTS ==> before.with_product(owner, products[k]) == Ok::<
                Ledger,
                StoreError,
            >(Ledger { catalog: products.take(k + 1), ..before })
            &&& k >= MAX_PRODUCTS ==> before.with_product(owner, products[k]) == Err::<
                Ledger,
                StoreError,
            >(StoreError::CapacityExceeded)
        }),
{
    stocked_follows_catalog(Ledger::founded(owner, name), products.take(k));
    full_catalog_refuses(products, k);
}

/// Offers by the owner change the catalog as `add_all` says, and nothing else.
proof fn stocked_follows_catalog(ledger: Ledger, products: Seq<ProductView>)
    ensures
        ledger.stocked(ledger.owner, products) == (Ledger {
            catalog: add_all(ledger.catalog, products),
            ..ledger
        }),
    decreases products.len(),
{
    if products.len() > 0 {
        stocked_follows_catalog(ledger, products.drop_last());
    }
}

/// Purchases never change the count other than by one for each request
/// granted: after any requests, the count is what it was plus the number
/// of those granted.
pub proof fn purchases_are_counted(ledger: Ledger, capacity: nat, requests: Seq<Request>)
    ensures
        ledger.replayed(capacity, requests).purchases == ledger.purchases + ledger.granted(
            capacity,
            requests,
        ),
        ledger.replayed(capacity, requests).catalog == ledger.catalog,
    decreases requests.len(),
{
    if requests.len() > 0 {
        purchases_are_counted(ledger, capacity, requests.drop_last());
    }
}

/// Receipt numbers go up by exactly one with each purchase, whatever was
/// evicted in between: of any requests made in turn, the one at `k`, where
/// it is granted, gets the receipt numbered by the first count plus the
/// number of requests granted before it, and that receipt is the newest
/// entry of the journal.
pub proof fn receipt_numbers_count_up(
    ledger: Ledger,
    capacity: nat,
    requests: Seq<Request>,
    k: int,
)
    requires
        0 <= k < requests.len(),
    ensures
        ledger.replayed(capacity, requests.take(k)).purchased(capacity, requests[k]) matches Ok(
            after,
        ) ==> after.journal.len() > 0 && after.journal.last().receipt_id == ledger.purchases
            + ledger.granted(capacity, requests.take(k)) && after.purchases == ledger.purchases
            + ledger.granted(capacity, requests.take(k)) + 1,
{
    purchases_are_counted(ledger, capacity, requests.take(k));
}

/// After any purchases, the journal holds exactly the latest `capacity`
/// receipts of those it held before and those issued since, oldest first:
/// each purchase beyond the capacity evicts the oldest entry and no other.
pub proof fn journal_is_the_latest_window(ledger: Ledger, capacity: nat, requests: Seq<Request>)
    requires
        capacity > 0,
        ledger.journal.len() <= capacity,
    ensures
        ledger.replayed(capacity, requests).journal == latest(
            ledger.journal + ledger.issued(capacity, requests),
            capacity,
        ),
    decreases requests.len(),
{
    if requests.len() == 0 {
        assert(ledger.journal + ledger.issued(capacity, requests) =~= ledger.journal);
    } else {
        let earlier = requests.drop_last();
        let before = ledger.replayed(capacity, earlier);
        let entered = ledger.journal + ledger.issued(capacity, earlier);
        journal_is_the_latest_window(ledger, capacity, earlier);
        if let Ok(next) = before.purchased(capacity, requests.last()) {
            latest_moves_on(entered, next.journal.last(), capacity);
            assert(entered.push(next.journal.last()) =~= ledger.journal + ledger.issued(
                capacity,
                requests,
            ));
        }
    }
}

/// Taking a product off sale leaves every receipt as it was: the names and
/// prices recorded at the time of purchase outlive the product.
pub proof fn receipts_outlive_products(ledger: Ledger, caller: Identity, name: Seq<char>)
    ensures
        ledger.without_product(caller, name) matches Ok(next) ==> next.journal == ledger.journal
            && next.purchases == ledger.purchases,
{
}

/// No change to the catalog or to the metadata touches the journal or
/// the count of purchases.
pub proof fn receipts_are_frozen(
    ledger: Ledger,
    caller: Identity,
    text: Seq<char>,
    product: ProductView,
)
    ensures
        ledger.with_channel(caller, text) matches Ok(next) ==> next.journal == ledger.journal
            && next.purchases == ledger.purchases,
        ledger.with_details(caller, text) matches Ok(next) ==> next.journal == ledger.journal
            && next.purchases == ledger.purchases,
        ledger.with_product(caller, product) matches Ok(next) ==> next.journal == ledger.journal
            && next.purchases == ledger.purchases,
{
}

/// Marking a number that no receipt in the journal bears leaves the whole
/// record as it was.
pub proof fn unrecorded_delivery_changes_nothing(ledger: Ledger, receipt_id: u64)
    requires
        !recorded(ledger.journal, receipt_id),
    ensures
        ledger.with_delivery(receipt_id) == ledger,
{
    unrecorded_mark_changes_nothing(ledger.journal, receipt_id);
}

} // verus!
