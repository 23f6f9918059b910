//! The reasons for which an operation on a store is refused.

use vstd::prelude::*;

verus! {

/// Why an operation on a store failed.
#[derive(Clone, Copy, Debug, PartialEq, Eq, Structural)]
pub enum StoreError {
    /// The caller is not the owner of the store.
    Unauthorized,
    /// No product of that name is in the catalog.
    NotFound,
    /// A product of that name is in the catalog already.
    DuplicateName,
    /// The name is empty once white space is trimmed.
    NameEmpty,
    /// A name or a piece of metadata takes more bytes than its field allows.
    NameTooLong,
    /// The store name is not a slug.
    InvalidName,
    /// The catalog is full.
    CapacityExceeded,
    /// The asset presented for payment is not the one the product is sold in.
    AssetMismatch,
    /// The account presented to receive a payment is not the payee of the
    /// order.
    InvalidTreasury,
    /// The payment rail refused or failed the transfer; `cause` is its code.
    PaymentFailed { cause: u64 },
    /// The payer cannot fund the larger allocation.
    InsufficientFunding,
    /// The count of purchases has reached the end of its range.
    CounterOverflow,
}

} // verus!
