//! Payment settlement: which rail moves the price of a purchase, and what
//! the rail's answer means for the purchase.

use crate::catalog::{ProductView, Products};
use crate::error::StoreError;
use crate::identity::Identity;
use vstd::prelude::*;

verus! {

/// An order to one of the two payment rails.
#[derive(Clone, Copy, Debug, PartialEq, Eq)]
pub enum Transfer {
    /// Move `amount` of the chain's native unit from `from` to `to`.
    Native { from: Identity, to: Identity, amount: u64 },
    /// Move `amount` of the token `asset`, which the rail checks to have
    /// `decimals` decimal places, from the holding account of `from` to
    /// that of `to`, which the rail opens at the payer's cost if need be.
    Token { asset: Identity, from: Identity, to: Identity, amount: u64, decimals: u8 },
}

/// The order that settles `amount` for `product`: the native rail where the
/// product is sold in the native asset, the token rail otherwise.
pub open spec fn transfer_for(
    product: ProductView,
    native: Identity,
    payer: Identity,
    payee: Identity,
    amount: u64,
) -> Transfer {
    if product.mint == native {
        Transfer::Native { from: payer, to: payee, amount }
    } else {
        Transfer::Token {
            asset: product.mint,
            from: payer,
            to: payee,
            amount,
            decimals: product.decimals,
        }
    }
}

/// Who receives what an order moves.
pub open spec fn payee(order: Transfer) -> Identity {
    match order {
        Transfer::Native { to, .. } => to,
        Transfer::Token { to, .. } => to,
    }
}

/// What a purchase comes to once the rail has answered: a failed transfer
/// fails the purchase, with the rail's code as the cause.
pub open spec fn settled(answer: Result<(), u64>) -> Result<(), StoreError> {
    match answer {
        Ok(()) => Ok(()),
        Err(cause) => Err(StoreError::PaymentFailed { cause }),
    }
}

/// Chooses the rail for `product` and writes the order that moves `amount`
/// from `payer` to `payee`.
pub fn settle(
    product: &Products,
    native: &Identity,
    payer: &Identity,
    payee: &Identity,
    amount: u64,
) -> (order: Transfer)
    ensures
        order == transfer_for(product@, *native, *payer, *payee, amount),
{
    if product.mint == *native {
        Transfer::Native { from: *payer, to: *payee, amount }
    } else {
        Transfer::Token {
            asset: product.mint,
            from: *payer,
            to: *payee,
            amount,
            decimals: product.decimals,
        }
    }
}

/// Lets an order go to the rail only where the account `presented` to
/// receive the payment is the order's payee.
pub fn check_treasury(order: &Transfer, presented: &Identity) -> (done: Result<(), StoreError>)
    ensures
        payee(*order) == *presented ==> done == Ok::<(), StoreError>(()),
        payee(*order) != *presented ==> done == Err::<(), StoreError>(
            StoreError::InvalidTreasury,
        ),
{
    let to = match order {
        Transfer::Native { to, .. } => to,
        Transfer::Token { to, .. } => to,
    };
    if *to == *presented {
        Ok(())
    } else {
        Err(StoreError::InvalidTreasury)
    }
}

/// Reads the rail's answer to an order.
pub fn confirm(answer: Result<(), u64>) -> (done: Result<(), StoreError>)
    ensures
        done == settled(answer),
{
    match answer {
        Ok(()) => Ok(()),
        Err(cause) => Err(StoreError::PaymentFailed { cause }),
    }
}

} // verus!
